//! Backends that run an engine, and the commands they are sent.
//!
//! A backend declares the engine options it wants set, and from them the
//! command sequence for a position and a search depth is built. Running the
//! commands is outside work: a backend says what goes out and what the
//! report that comes back amounts to.

use vstd::prelude::*;
use vstd::string::StringExecFns;
use vstd::utf8::{decode_utf8, valid_utf8};
use std::path::PathBuf;
use crate::analysis::{ParseError, ParseFault};
use crate::number::{
    decimal, lemma_decimal_digits, lemma_decimal_round_trip, parse_unsigned, push_decimal,
};
use crate::text::{
    join_lines, joined, lines, split_lines, terminate_lines, terminated, utf8_text, views,
};

verus! {

/// A path of the file system, carried through unread.
#[verifier::external_type_specification]
#[verifier::external_body]
pub struct ExPathBuf(PathBuf);

/// The commands sent to an engine, one per line.
pub type UciInput = Vec<String>;

/// The lines that an engine wrote.
pub type UciOutput = Vec<String>;

/// What `UciOption` stands for.
pub struct UciOptionView {
    pub name: Seq<char>,
    pub value: u32,
}

/// A setting of the engine: a name and a number.
pub struct UciOption<'a> {
    pub name: &'a str,
    pub value: u32,
}

impl View for UciOption<'_> {
    type V = UciOptionView;

    open spec fn view(&self) -> UciOptionView {
        UciOptionView { name: self.name@, value: self.value }
    }
}

/// The command that sets the option `name` to `value`.
pub open spec fn set_option_command(name: Seq<char>, value: u32) -> Seq<char> {
    "setoption name "@ + name + " value "@ + decimal(value as nat)
}

/// The command that sets up the position `fen`.
pub open spec fn position_command(fen: Seq<char>) -> Seq<char> {
    "position fen "@ + fen
}

/// The command that starts a search to `depth`.
pub open spec fn go_command(depth: u32) -> Seq<char> {
    "go depth "@ + decimal(depth as nat)
}

/// The command sequence for a position and a search depth: `uci`, one
/// command for each option in the order given, the position, the search, and
/// then `ucinewgame` and `quit`.
pub open spec fn uci_commands(options: Seq<UciOptionView>, fen: Seq<char>, depth: u32) -> Seq<
    Seq<char>,
> {
    seq!["uci"@] + Seq::new(
        options.len(),
        |i: int| set_option_command(options[i].name, options[i].value),
    ) + seq![position_command(fen), go_command(depth), "ucinewgame"@, "quit"@]
}

impl UciOption<'_> {
    /// The command that sets this option.
    pub fn uci_set_msg(&self) -> (msg: String)
        ensures
            msg@ == set_option_command(self.name@, self.value),
    {
        let mut msg = "setoption name ".to_owned();
        msg.append(self.name);
        msg.append(" value ");
        push_decimal(&mut msg, self.value);
        msg
    }
}

/// Builds the command sequence for a position and a search depth.
pub fn build_commands(options: &Vec<UciOption<'_>>, fen: &str, depth: u32) -> (cmds: UciInput)
    ensures
        views(cmds@) == uci_commands(views(options@), fen@, depth),
{
    let ghost opts = views(options@);
    let ghost set = Seq::new(opts.len(), |i: int| set_option_command(opts[i].name, opts[i].value));
    let mut cmds: Vec<String> = Vec::new();
    cmds.push("uci".to_owned());
    let mut i: usize = 0;
    while i < options.len()
        invariant
            i <= options.len(),
            opts == views(options@),
            set == Seq::new(opts.len(), |i: int| set_option_command(opts[i].name, opts[i].value)),
            views(cmds@) == seq!["uci"@] + set.take(i as int),
        decreases options.len() - i,
    {
        let msg = options[i].uci_set_msg();
        let ghost before = cmds@;
        cmds.push(msg);
        proof {
            assert(views(cmds@) == views(before).push(msg@));
        }
        i += 1;
    }
    assert(set.take(i as int) == set);
    let mut position = "position fen ".to_owned();
    position.append(fen);
    cmds.push(position);
    let mut go = "go depth ".to_owned();
    push_decimal(&mut go, depth);
    cmds.push(go);
    cmds.push("ucinewgame".to_owned());
    cmds.push("quit".to_owned());
    cmds
}

/// The order of the commands never changes: `uci` comes first, then the
/// options in the order given, then the position, then the search, then
/// `ucinewgame`, and `quit` comes last.
pub proof fn lemma_command_order(options: Seq<UciOptionView>, fen: Seq<char>, depth: u32)
    ensures
        ({
            let cmds = uci_commands(options, fen, depth);
            let n = options.len() as int;
            &&& cmds.len() == n + 5
            &&& cmds[0] == "uci"@
            &&& forall|i: int|
                0 <= i < n ==> #[trigger] cmds[1 + i] == set_option_command(
                    options[i].name,
                    options[i].value,
                )
            &&& cmds[n + 1] == position_command(fen)
            &&& cmds[n + 2] == go_command(depth)
            &&& cmds[n + 3] == "ucinewgame"@
            &&& cmds[n + 4] == "quit"@
            &&& cmds.last() == "quit"@
        }),
{
}

/// The search command names the depth that was asked for: what follows
/// `go depth ` reads back as `depth`.
pub proof fn lemma_go_command_depth(depth: u32)
    ensures
        go_command(depth).len() > 9,
        go_command(depth).take(9) == "go depth "@,
        parse_unsigned(go_command(depth).skip(9)) == Some(depth),
{
    reveal_strlit("go depth ");
    lemma_decimal_digits(depth as nat);
    lemma_decimal_round_trip(depth);
    let digits = decimal(depth as nat);
    assert(go_command(depth).skip(9) == digits);
}

/// What every backend offers to the command builder.
pub trait UciBackend {
    /// The options that the backend wants set before the search, in order.
    spec fn declared_options(&self) -> Seq<UciOptionView>;

    /// The options that the backend wants set before the search, in order.
    fn get_uci_opts(&self) -> (opts: Vec<UciOption<'static>>)
        ensures
            views(opts@) == self.declared_options(),
    ;

    /// The command sequence that analyses the position `fen` to `depth`
    /// with the options of this backend.
    fn generate_uci(&self, fen: &str, depth: u32) -> (cmds: UciInput)
        ensures
            views(cmds@) == uci_commands(self.declared_options(), fen@, depth),
    {
        let options = self.get_uci_opts();
        build_commands(&options, fen, depth)
    }
}

/// What `BackendError` stands for.
pub enum BackendFault {
    SpawnFailure,
    ExecutionFailed,
    Io,
    WorkspaceConflict,
    UnexpectedArtifactCount,
    ProtocolViolation(ParseFault),
}

/// Why an analysis gave no result.
#[derive(Debug, PartialEq, Eq)]
pub enum BackendError {
    /// The engine could not be started.
    SpawnFailure,
    /// The engine ended with a failure, or the remote computation did.
    ExecutionFailed,
    /// Writing to the engine or reading from it failed, or the workspace
    /// could not be made.
    Io,
    /// The workspace of a remote computation is there already.
    WorkspaceConflict,
    /// The remote computation did not hand back exactly one output.
    UnexpectedArtifactCount,
    /// The transcript does not keep to the protocol.
    ProtocolViolation(ParseError),
}

impl View for BackendError {
    type V = BackendFault;

    open spec fn view(&self) -> BackendFault {
        match self {
            BackendError::SpawnFailure => BackendFault::SpawnFailure,
            BackendError::ExecutionFailed => BackendFault::ExecutionFailed,
            BackendError::Io => BackendFault::Io,
            BackendError::WorkspaceConflict => BackendFault::WorkspaceConflict,
            BackendError::UnexpectedArtifactCount => BackendFault::UnexpectedArtifactCount,
            BackendError::ProtocolViolation(e) => BackendFault::ProtocolViolation(e@),
        }
    }
}

/// The lines of what an engine wrote: the bytes have to be valid UTF-8.
pub open spec fn output_lines(output: Seq<u8>) -> Result<Seq<Seq<char>>, BackendFault> {
    if valid_utf8(output) {
        Ok(lines(decode_utf8(output)))
    } else {
        Err(BackendFault::Io)
    }
}

/// Reads what an engine wrote as lines; see `output_lines`.
pub fn read_output(output: &[u8]) -> (r: Result<UciOutput, BackendError>)
    ensures
        match r {
            Ok(found) => output_lines(output@) == Ok::<Seq<Seq<char>>, BackendFault>(views(found@)),
            Err(e) => output_lines(output@) == Err::<Seq<Seq<char>>, BackendFault>(e@),
        },
{
    match utf8_text(output) {
        Some(text) => Ok(split_lines(text)),
        None => Err(BackendError::Io),
    }
}

/// How the run of an engine process ended.
#[derive(Debug)]
pub enum ProcessReport {
    /// The process could not be started.
    SpawnFailed,
    /// Writing to the process, waiting for it or reading from it failed.
    IoFailed,
    /// The process ran and ended: well or not, and with all that it wrote.
    Exited { success: bool, output: Vec<u8> },
}

/// What the run of an engine process amounts to: the lines that the process
/// wrote if it ended well, and a failure, whatever it wrote, if it did not.
pub open spec fn process_outcome(report: ProcessReport) -> Result<Seq<Seq<char>>, BackendFault> {
    match report {
        ProcessReport::SpawnFailed => Err(BackendFault::SpawnFailure),
        ProcessReport::IoFailed => Err(BackendFault::Io),
        ProcessReport::Exited { success, output } => if success {
            output_lines(output@)
        } else {
            Err(BackendFault::ExecutionFailed)
        },
    }
}

/// Runs an engine on this machine, as a process of its own.
pub struct NativeUci {
    engine_path: PathBuf,
}

impl View for NativeUci {
    type V = PathBuf;

    closed spec fn view(&self) -> PathBuf {
        self.engine_path
    }
}

impl NativeUci {
    /// A backend that runs the engine at `engine_path`.
    pub fn new(engine_path: PathBuf) -> (backend: Self)
        ensures
            backend@ == engine_path,
    {
        Self { engine_path }
    }

    /// Where the engine is.
    pub fn engine_path(&self) -> (path: &PathBuf)
        ensures
            *path == self@,
    {
        &self.engine_path
    }

    /// What is written to the engine: the commands, each followed by a line
    /// feed.
    pub fn input(&self, uci: &UciInput) -> (text: String)
        ensures
            text@ == terminated(views(uci@)),
    {
        terminate_lines(uci)
    }

    /// Decides what the run of the engine amounts to; see
    /// `process_outcome`.
    pub fn collect(&self, report: ProcessReport) -> (r: Result<UciOutput, BackendError>)
        ensures
            match r {
                Ok(found) => process_outcome(report) == Ok::<Seq<Seq<char>>, BackendFault>(
                    views(found@),
                ),
                Err(e) => process_outcome(report) == Err::<Seq<Seq<char>>, BackendFault>(e@),
            },
            report matches ProcessReport::Exited { success: false, .. } ==> r == Err::<
                UciOutput,
                BackendError,
            >(BackendError::ExecutionFailed),
    {
        match report {
            ProcessReport::SpawnFailed => Err(BackendError::SpawnFailure),
            ProcessReport::IoFailed => Err(BackendError::Io),
            ProcessReport::Exited { success, output } => if success {
                read_output(output.as_slice())
            } else {
                Err(BackendError::ExecutionFailed)
            },
        }
    }
}

impl UciBackend for NativeUci {
    open spec fn declared_options(&self) -> Seq<UciOptionView> {
        seq![
            UciOptionView { name: "Threads"@, value: 8 },
            UciOptionView { name: "Hash"@, value: 1024 },
        ]
    }

    fn get_uci_opts(&self) -> (opts: Vec<UciOption<'static>>) {
        let mut opts: Vec<UciOption<'static>> = Vec::new();
        opts.push(UciOption { name: "Threads", value: 8 });
        opts.push(UciOption { name: "Hash", value: 1024 });
        opts
    }
}

/// How the attempt to make a workspace ended.
#[derive(Clone, Copy, Debug, PartialEq, Eq, Structural)]
pub enum WorkspaceReport {
    /// The workspace was made and is new.
    Created,
    /// The workspace was there already.
    AlreadyExists,
    /// The workspace could not be made.
    Failed,
}

/// What is submitted once the attempt to make a workspace has ended: the
/// commands as one text, if the workspace is new. A workspace that was there
/// already may hold what an earlier computation left, so nothing is
/// submitted.
pub open spec fn submission_for(workspace: WorkspaceReport, uci: Seq<Seq<char>>) -> Result<
    Seq<char>,
    BackendFault,
> {
    match workspace {
        WorkspaceReport::Created => Ok(joined(uci)),
        WorkspaceReport::AlreadyExists => Err(BackendFault::WorkspaceConflict),
        WorkspaceReport::Failed => Err(BackendFault::Io),
    }
}

/// What the outputs of a remote computation amount to: the lines of the one
/// output, if there is exactly one.
pub open spec fn single_output(artifacts: Seq<Seq<u8>>) -> Result<Seq<Seq<char>>, BackendFault> {
    if artifacts.len() == 1 {
        output_lines(artifacts[0])
    } else {
        Err(BackendFault::UnexpectedArtifactCount)
    }
}

/// How a remote computation ended.
#[derive(Debug)]
pub enum ComputeReport {
    /// The service could not be reached, or refused or failed the computation.
    Failed,
    /// The outputs of the computation could not be read.
    IoFailed,
    /// The computation ended, with these outputs.
    Computed { artifacts: Vec<Vec<u8>> },
}

/// What a remote computation amounts to.
pub open spec fn compute_outcome(report: ComputeReport) -> Result<Seq<Seq<char>>, BackendFault> {
    match report {
        ComputeReport::Failed => Err(BackendFault::ExecutionFailed),
        ComputeReport::IoFailed => Err(BackendFault::Io),
        ComputeReport::Computed { artifacts } => single_output(views(artifacts@)),
    }
}

/// What `GWasmUci` stands for.
pub struct GWasmView {
    pub wasm: Seq<u8>,
    pub js: Seq<u8>,
    pub workspace: PathBuf,
    pub datadir: PathBuf,
}

/// Runs an engine as a computation on a remote service.
pub struct GWasmUci {
    wasm: Vec<u8>,
    js: Vec<u8>,
    workspace: PathBuf,
    datadir: PathBuf,
}

impl View for GWasmUci {
    type V = GWasmView;

    closed spec fn view(&self) -> GWasmView {
        GWasmView {
            wasm: self.wasm@,
            js: self.js@,
            workspace: self.workspace,
            datadir: self.datadir,
        }
    }
}

impl GWasmUci {
    /// A backend for the engine whose two parts are `wasm` and `js`, with a
    /// workspace for the computation and the data directory of the client.
    pub fn new(wasm: Vec<u8>, js: Vec<u8>, workspace: PathBuf, datadir: PathBuf) -> (backend: Self)
        ensures
            backend@ == (GWasmView { wasm: wasm@, js: js@, workspace, datadir }),
    {
        Self { wasm, js, workspace, datadir }
    }

    /// The WebAssembly part of the engine.
    pub fn wasm(&self) -> (wasm: &Vec<u8>)
        ensures
            wasm@ == self@.wasm,
    {
        &self.wasm
    }

    /// The JavaScript part of the engine.
    pub fn js(&self) -> (js: &Vec<u8>)
        ensures
            js@ == self@.js,
    {
        &self.js
    }

    /// Where the computation keeps its files.
    pub fn workspace(&self) -> (workspace: &PathBuf)
        ensures
            *workspace == self@.workspace,
    {
        &self.workspace
    }

    /// Where the client of the service keeps its data.
    pub fn datadir(&self) -> (datadir: &PathBuf)
        ensures
            *datadir == self@.datadir,
    {
        &self.datadir
    }

    /// Decides what to submit once the attempt to make the workspace has
    /// ended; see `submission_for`.
    pub fn submission(&self, workspace: WorkspaceReport, uci: &UciInput) -> (r: Result<
        String,
        BackendError,
    >)
        ensures
            match r {
                Ok(payload) => submission_for(workspace, views(uci@)) == Ok::<
                    Seq<char>,
                    BackendFault,
                >(payload@),
                Err(e) => submission_for(workspace, views(uci@)) == Err::<Seq<char>, BackendFault>(
                    e@,
                ),
            },
            workspace == WorkspaceReport::AlreadyExists ==> r == Err::<String, BackendError>(
                BackendError::WorkspaceConflict,
            ),
    {
        match workspace {
            WorkspaceReport::Created => Ok(join_lines(uci)),
            WorkspaceReport::AlreadyExists => Err(BackendError::WorkspaceConflict),
            WorkspaceReport::Failed => Err(BackendError::Io),
        }
    }
}

impl GWasmUci {
    /// Decides what the remote computation amounts to; see
    /// `compute_outcome`.
    pub fn collect(&self, report: ComputeReport) -> (r: Result<UciOutput, BackendError>)
        ensures
            match r {
                Ok(found) => compute_outcome(report) == Ok::<Seq<Seq<char>>, BackendFault>(
                    views(found@),
                ),
                Err(e) => compute_outcome(report) == Err::<Seq<Seq<char>>, BackendFault>(e@),
            },
    {
        match report {
            ComputeReport::Failed => Err(BackendError::ExecutionFailed),
            ComputeReport::IoFailed => Err(BackendError::Io),
            ComputeReport::Computed { artifacts } => single_subtask_get_output(artifacts),
        }
    }
}

impl UciBackend for GWasmUci {
    open spec fn declared_options(&self) -> Seq<UciOptionView> {
        seq![UciOptionView { name: "Hash"@, value: 128 }]
    }

    fn get_uci_opts(&self) -> (opts: Vec<UciOption<'static>>) {
        let mut opts: Vec<UciOption<'static>> = Vec::new();
        opts.push(UciOption { name: "Hash", value: 128 });
        opts
    }
}

/// Takes the lines of the one output of a remote computation; see
/// `single_output`.
pub fn single_subtask_get_output(artifacts: Vec<Vec<u8>>) -> (r: Result<UciOutput, BackendError>)
    ensures
        match r {
            Ok(found) => single_output(views(artifacts@)) == Ok::<Seq<Seq<char>>, BackendFault>(
                views(found@),
            ),
            Err(e) => single_output(views(artifacts@)) == Err::<Seq<Seq<char>>, BackendFault>(e@),
        },
{
    if artifacts.len() == 1 {
        read_output(artifacts[0].as_slice())
    } else {
        Err(BackendError::UnexpectedArtifactCount)
    }
}

} // verus!
