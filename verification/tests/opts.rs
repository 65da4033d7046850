use golemate::opts::{BackendChoice, GWasmOpts, Opts, OptsError};
use std::path::{Path, PathBuf};

fn opts(engine: Option<&str>, wasm: Option<&str>, js: Option<&str>, workspace: Option<&str>, datadir: Option<&str>) -> Opts {
    Opts {
        fen: "rnbqkbnr/pppppppp/8/8/8/8/PPPPPPPP/RNBQKBNR w KQkq - 0 1".to_string(),
        depth: 12,
        raw_uci: false,
        engine: engine.map(PathBuf::from),
        gwasm_opts: GWasmOpts {
            wasm_path: wasm.map(PathBuf::from),
            js_path: js.map(PathBuf::from),
            workspace: workspace.map(PathBuf::from),
            datadir: datadir.map(PathBuf::from),
        },
    }
}

#[test]
fn engine_alone_chooses_the_local_backend() {
    let o = opts(Some("/usr/bin/stockfish"), None, None, None, None);
    match o.backend() {
        Ok(BackendChoice::Native { engine }) => assert_eq!(engine.as_path(), Path::new("/usr/bin/stockfish")),
        _ => panic!("the local backend should be chosen"),
    }
}

#[test]
fn wasm_path_chooses_the_remote_backend() {
    let o = opts(None, Some("e.wasm"), Some("e.js"), Some("/tmp/ws"), Some("/tmp/data"));
    match o.backend() {
        Ok(BackendChoice::GWasm { wasm_path, js_path, workspace, datadir }) => {
            assert_eq!(wasm_path.as_path(), Path::new("e.wasm"));
            assert_eq!(js_path.as_path(), Path::new("e.js"));
            assert_eq!(workspace.as_path(), Path::new("/tmp/ws"));
            assert_eq!(datadir.as_path(), Path::new("/tmp/data"));
        }
        _ => panic!("the remote backend should be chosen"),
    }
}

#[test]
fn remote_backend_wins_over_the_local_one() {
    let o = opts(Some("/usr/bin/stockfish"), Some("e.wasm"), Some("e.js"), Some("/tmp/ws"), Some("/tmp/data"));
    assert!(matches!(o.backend(), Ok(BackendChoice::GWasm { .. })));
}

#[test]
fn remote_backend_needs_all_its_settings() {
    let missing_js = opts(None, Some("e.wasm"), None, Some("/tmp/ws"), Some("/tmp/data"));
    assert!(matches!(missing_js.backend(), Err(OptsError::InconsistentWasmOpts)));
    let missing_workspace = opts(Some("engine"), Some("e.wasm"), Some("e.js"), None, Some("/tmp/data"));
    assert!(matches!(missing_workspace.backend(), Err(OptsError::InconsistentWasmOpts)));
    let missing_datadir = opts(None, Some("e.wasm"), Some("e.js"), Some("/tmp/ws"), None);
    assert!(matches!(missing_datadir.backend(), Err(OptsError::InconsistentWasmOpts)));
}

#[test]
fn no_backend_is_an_error() {
    let o = opts(None, None, Some("e.js"), Some("/tmp/ws"), Some("/tmp/data"));
    assert!(matches!(o.backend(), Err(OptsError::NoBackend)));
}
