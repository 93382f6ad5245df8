//! What the lifecycle asks of the system, and what the system answers.
//!
//! The decision logic of each operation is a state machine in this crate: it
//! is handed an [`Event`] (the outcome of the last request) and answers with
//! the next [`Action`] to perform. The caller performs actions and reports
//! their outcomes until the machine answers [`Action::Finish`].

use vstd::prelude::*;
use crate::error::HibernateResult;
use crate::power::SysfsWrite;
use crate::probe::{SwapProbe, ZswapProbe};
use crate::swap::SwapMetadata;
use crate::systemd::BootEntry;

verus! {

/// How a tool's standard streams are connected.
#[derive(Debug, Clone, Copy, PartialEq, Eq, Structural)]
pub enum StdioMode {
    /// Collected and handed back.
    Capture,
    /// Shared with this process.
    Inherit,
    /// Connected to the null device.
    Discard,
}

/// How a finished tool run ended.
#[derive(Debug, Clone, PartialEq, Eq)]
pub struct CommandOutcome {
    /// The exit code; `None` when the tool was ended by a signal.
    pub code: Option<i32>,
    /// The exit status as it prints (`exit status: 1`, `signal: 9 (SIGKILL)`).
    pub status_text: String,
    /// Standard output (empty unless captured).
    pub stdout: Vec<u8>,
    /// Standard error (empty unless captured).
    pub stderr: Vec<u8>,
}

impl CommandOutcome {
    /// Successful termination: exit code zero.
    pub open spec fn succeeded(self) -> bool {
        self.code == Some(0i32)
    }

    pub fn success(&self) -> (b: bool)
        ensures
            b == self.succeeded(),
    {
        match self.code {
            Some(c) => c == 0,
            None => false,
        }
    }
}

/// A request to the system.
#[derive(Debug, PartialEq, Eq)]
pub enum Action {
    /// Is the tool found in `PATH`? Answer: `Located`.
    LocateTool { name: String },
    /// Run the tool with these arguments. Answer: `Ran`.
    RunTool { tool: String, args: Vec<String>, stdio: StdioMode },
    /// Report whether the zswap and hibernate compressors agree. Answer: `Acknowledged`.
    ReportCompressorAlignment,
    /// Read a sysfs file. Answer: `Read`.
    ReadSysfs { path: String },
    /// Write a sysfs file. Answer: `Done`.
    WriteSysfs { write: SysfsWrite },
    /// Find the `major:minor` device backing the file. Answer: `Device`.
    FindBackingDevice { path: String },
    /// Probe the kernel and estimate the swapfile size. Answer: `Size`.
    EstimateSize,
    /// Read `/proc/swaps`. Answer: `Swaps`.
    ProbeSwaps,
    /// Does the path exist? Answer: `Flag`.
    PathExists { path: String },
    /// Is the path a directory? Answer: `Flag`.
    PathIsDir { path: String },
    /// Does the directory hold a subdirectory? Answer: `Listing`.
    HasSubdirectory { path: String },
    /// Remove a file. Answer: `Done`.
    RemoveFile { path: String },
    /// Remove a directory and everything in it. Answer: `Done`.
    RemoveDirAll { path: String },
    /// Create the parent directories of the path. Answer: `Done`.
    CreateParentDirs { path: String },
    /// Read the free blocks and block size of the filesystem. Answer: `Space`.
    ReadFreeSpace { path: String },
    /// Point the kernel's resume pointers at the swapfile. Answer: `Completed`.
    ConfigureResume { path: String },
    /// Make the path a btrfs subvolume. Answer: `Completed`.
    EnsureSubvolume { path: String },
    /// Create a btrfs swapfile of the size. Answer: `Completed`.
    MakeSwapfile { path: String, size_kb: u64 },
    /// Store the metadata, stamped with the current time, at `path`. Answer: `Completed`.
    WriteMetadata { path: String, swap_file: String, old_resume: String, old_resume_offset: String },
    /// Load the metadata stored at `path`. Answer: `Metadata`.
    ReadMetadata { path: String },
    /// Hide the boot menu. Answer: `Acknowledged`.
    HideBootMenu,
    /// Restore the boot menu. Answer: `Acknowledged`.
    RestoreBootMenu,
    /// Read the zswap compressor and pool files. Answer: `Zswap`.
    ProbeZswap,
    /// Write `kb` as megabytes with one decimal. Answer: `Formatted`.
    FormatMegabytes { kb: u64 },
    /// Print these lines on standard output. Answer: `Acknowledged`.
    Print { lines: Vec<String> },
    /// Parse the JSON list of boot entries. Answer: `BootEntries`.
    ParseBootEntries { json: Vec<u8> },
    /// The operation is over, with this result.
    Finish { result: HibernateResult<()> },
}

/// The outcome of the last request.
#[derive(Debug, PartialEq, Eq)]
pub enum Event {
    Acknowledged,
    /// The tool was found, or why the lookup failed.
    Located(Result<(), String>),
    /// The tool's run, or why it could not be started.
    Ran(Result<CommandOutcome, String>),
    Read(Result<String, String>),
    /// A plain operation's result; the error is its message.
    Done(Result<(), String>),
    Completed(HibernateResult<()>),
    Device(HibernateResult<String>),
    Size(HibernateResult<u64>),
    Swaps(HibernateResult<SwapProbe>),
    Flag(bool),
    Listing(Result<bool, String>),
    /// Blocks available and block size, in bytes.
    Space(Result<(u64, u64), String>),
    Metadata(HibernateResult<SwapMetadata>),
    BootEntries(Option<Vec<BootEntry>>),
    Zswap(ZswapProbe),
    Formatted(String),
}

/// The texts of a list of strings.
pub open spec fn texts(v: Vec<String>) -> Seq<Seq<char>> {
    v@.map_values(|s: String| s@)
}

/// The action runs `tool` with `args`, its streams connected as `stdio`.
pub open spec fn is_run(a: Action, tool: Seq<char>, args: Seq<Seq<char>>, stdio: StdioMode) -> bool {
    a matches Action::RunTool { tool: t, args: xs, stdio: m } && t@ == tool && texts(xs) == args
        && m == stdio
}

/// The action finishes with the error `e`.
pub open spec fn finishes_with(a: Action, e: crate::error::HibernateError) -> bool {
    a matches Action::Finish { result: Err(x) } && x == e
}

/// The action finishes with an error of category `kind` and message `msg`.
pub open spec fn fails_with(a: Action, kind: crate::error::ErrorKind, msg: Seq<char>) -> bool {
    a matches Action::Finish { result: Err(x) } && x.kind == kind && x.message@ == msg
}

/// The action finishes with an error of category `kind` and message `msg`
/// that gives context to the underlying error `cause`.
pub open spec fn fails_because(a: Action, kind: crate::error::ErrorKind, msg: Seq<char>, cause: String) -> bool {
    a matches Action::Finish { result: Err(x) } && x.kind == kind && x.message@ == msg && x.cause
        == Some(cause)
}

/// The action finishes successfully.
pub open spec fn succeeds(a: Action) -> bool {
    a matches Action::Finish { result: Ok(_) }
}

/// The texts of a list of string slices.
pub open spec fn str_texts(v: Seq<&str>) -> Seq<Seq<char>> {
    Seq::new(v.len(), |k: int| v[k]@)
}

/// The action asks whether `p` exists.
pub open spec fn checks_exists(a: Action, p: Seq<char>) -> bool {
    a matches Action::PathExists { path } && path@ == p
}

/// The action asks whether `p` is a directory.
pub open spec fn checks_dir(a: Action, p: Seq<char>) -> bool {
    a matches Action::PathIsDir { path } && path@ == p
}

/// The action asks whether the directory `p` holds a subdirectory.
pub open spec fn lists_dir(a: Action, p: Seq<char>) -> bool {
    a matches Action::HasSubdirectory { path } && path@ == p
}

/// The action removes the file `p`.
pub open spec fn removes_file(a: Action, p: Seq<char>) -> bool {
    a matches Action::RemoveFile { path } && path@ == p
}

/// The action removes the directory tree `p`.
pub open spec fn removes_dir(a: Action, p: Seq<char>) -> bool {
    a matches Action::RemoveDirAll { path } && path@ == p
}

/// The action creates the parent directories of `p`.
pub open spec fn creates_parents(a: Action, p: Seq<char>) -> bool {
    a matches Action::CreateParentDirs { path } && path@ == p
}

/// Builds a tool run from string slices.
pub fn run_tool(tool: &str, args: &[&str], stdio: StdioMode) -> (a: Action)
    ensures
        is_run(a, tool@, str_texts(args@), stdio),
{
    let mut v: Vec<String> = Vec::new();
    let mut i: usize = 0;
    while i < args.len()
        invariant
            i <= args@.len(),
            v@.len() == i,
            forall|k: int| 0 <= k < i ==> #[trigger] v@[k]@ == args@[k]@,
        decreases args@.len() - i,
    {
        v.push(String::from_str(args[i]));
        i = i + 1;
    }
    assert(texts(v) =~= str_texts(args@));
    Action::RunTool { tool: tool.to_string(), args: v, stdio }
}

} // verus!
