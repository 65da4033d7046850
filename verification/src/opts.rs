//! The settings of one run, and the choice of backend that they make.

use vstd::prelude::*;
use std::path::PathBuf;

verus! {

/// The settings of the remote backend.
#[derive(Debug)]
pub struct GWasmOpts {
    /// Where the WebAssembly part of the engine is.
    pub wasm_path: Option<PathBuf>,
    /// Where the JavaScript part of the engine is.
    pub js_path: Option<PathBuf>,
    /// Where the computation keeps its files.
    pub workspace: Option<PathBuf>,
    /// Where the client of the service keeps its data.
    pub datadir: Option<PathBuf>,
}

/// The settings of one run.
#[derive(Debug)]
pub struct Opts {
    /// The position, in Forsyth-Edwards notation.
    pub fen: String,
    /// The depth of the search.
    pub depth: u32,
    /// Whether the transcript is wanted as it is, in place of the analysis.
    pub raw_uci: bool,
    /// Where the engine of the local backend is.
    pub engine: Option<PathBuf>,
    pub gwasm_opts: GWasmOpts,
}

/// The backend that the settings choose, with what it is made from.
#[derive(Debug)]
pub enum BackendChoice<'a> {
    /// The remote backend.
    GWasm {
        wasm_path: &'a PathBuf,
        js_path: &'a PathBuf,
        workspace: &'a PathBuf,
        datadir: &'a PathBuf,
    },
    /// The local backend.
    Native { engine: &'a PathBuf },
}

/// Why the settings choose no backend.
#[derive(Clone, Copy, Debug, PartialEq, Eq, Structural)]
pub enum OptsError {
    /// The remote backend is asked for and one of its settings is missing.
    InconsistentWasmOpts,
    /// No backend is asked for.
    NoBackend,
}

impl GWasmOpts {
    /// Whether all the settings of the remote backend are there.
    pub open spec fn complete(&self) -> bool {
        self.wasm_path is Some && self.js_path is Some && self.workspace is Some
            && self.datadir is Some
    }
}

impl Opts {
    /// The backend that the settings choose. The remote backend is chosen
    /// where the WebAssembly part of an engine is named, and then needs all
    /// its settings; else the local backend is chosen where an engine is
    /// named.
    pub open spec fn choice(&self) -> Result<BackendChoice<'_>, OptsError> {
        if self.gwasm_opts.wasm_path is Some {
            if self.gwasm_opts.complete() {
                Ok(
                    BackendChoice::GWasm {
                        wasm_path: &self.gwasm_opts.wasm_path->0,
                        js_path: &self.gwasm_opts.js_path->0,
                        workspace: &self.gwasm_opts.workspace->0,
                        datadir: &self.gwasm_opts.datadir->0,
                    },
                )
            } else {
                Err(OptsError::InconsistentWasmOpts)
            }
        } else if self.engine is Some {
            Ok(BackendChoice::Native { engine: &self.engine->0 })
        } else {
            Err(OptsError::NoBackend)
        }
    }

    /// Chooses the backend; see `choice`.
    pub fn backend(&self) -> (r: Result<BackendChoice<'_>, OptsError>)
        ensures
            r == self.choice(),
    {
        match &self.gwasm_opts.wasm_path {
            Some(wasm_path) => match (
                &self.gwasm_opts.js_path,
                &self.gwasm_opts.workspace,
                &self.gwasm_opts.datadir,
            ) {
                (Some(js_path), Some(workspace), Some(datadir)) => Ok(
                    BackendChoice::GWasm { wasm_path, js_path, workspace, datadir },
                ),
                _ => Err(OptsError::InconsistentWasmOpts),
            },
            None => match &self.engine {
                Some(engine) => Ok(BackendChoice::Native { engine }),
                None => Err(OptsError::NoBackend),
            },
        }
    }
}

} // verus!
