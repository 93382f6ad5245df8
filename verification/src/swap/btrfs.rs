use vstd::prelude::*;
use crate::config::TOOL_BTRFS;
use crate::error::{ErrorKind, HibernateError, HibernateResult};
use crate::system::{
    checks_dir, checks_exists, creates_parents, fails_because, fails_with, finishes_with, is_run,
    lists_dir,
    removes_dir, removes_file, run_tool, str_texts, succeeds, Action, CommandOutcome,
    Event, StdioMode,
};
use crate::text::{
    decimal, decimal_string, from_utf8_lossy, lemma_parse_decimal, parse_u64, trim, trimmed, utf8_lossy,
};

verus! {

/// Btrfs-specific operations required by the swapfile lifecycle.
pub struct BtrfsOps;

/// A failed tool's trimmed error output, read as text.
pub open spec fn stderr_text(o: CommandOutcome) -> Seq<char> {
    trim(utf8_lossy(o.stderr@))
}

fn stderr_trimmed(o: &CommandOutcome) -> (s: String)
    ensures
        s@ == stderr_text(*o),
{
    let t = from_utf8_lossy(o.stderr.as_slice());
    trimmed(t.as_str())
}

fn error_with(kind: ErrorKind, prefix: &str, detail: &str) -> (e: HibernateError)
    ensures
        e.kind == kind,
        e.message@ == prefix@ + detail@,
{
    let mut m = String::from_str(prefix);
    m.append(detail);
    HibernateError::new(kind, m)
}

/// The message of a free-space shortage, sizes shown in whole kilobytes.
pub open spec fn shortage_message(dir: Seq<char>, required_bytes: int, available_bytes: int) -> Seq<char> {
    "not enough space in "@ + dir + " — need "@ + decimal((required_bytes / 1024) as nat)
        + " KB, have "@ + decimal((available_bytes / 1024) as nat) + " KB"@
}

/// The size `btrfs filesystem mkswapfile` is asked for: whole MiB, one more
/// than the kilobytes divided by 1024 (rounded down).
pub open spec fn swapfile_size_arg(size_kb: u64) -> Seq<char> {
    decimal((size_kb / 1024 + 1) as nat) + "m"@
}

/// The arguments that create a swapfile at `path` of `size_kb`.
pub open spec fn mkswapfile_args(path: Seq<char>, size_kb: u64) -> Seq<Seq<char>> {
    seq![
        "filesystem"@,
        "mkswapfile"@,
        "--size"@,
        swapfile_size_arg(size_kb),
        "--uuid"@,
        "clear"@,
        path,
    ]
}

/// What `btrfs subvolume show` says of a path: exit 0 is a subvolume, exit 1
/// is not; anything else is a `SubvolumePreparationFailed` error.
pub open spec fn subvolume_report(ran: Result<CommandOutcome, String>) -> Result<bool, Seq<char>> {
    match ran {
        Err(m) => Err(m@),
        Ok(o) => if o.code == Some(0i32) {
            Ok(true)
        } else if o.code == Some(1i32) {
            Ok(false)
        } else {
            Err("btrfs subvolume show unexpected exit: "@ + stderr_text(o))
        },
    }
}

/// What `btrfs subvolume create` reports.
pub open spec fn create_report(ran: Result<CommandOutcome, String>) -> Result<(), Seq<char>> {
    match ran {
        Err(m) => Err(m@),
        Ok(o) => if o.succeeded() {
            Ok(())
        } else {
            Err("btrfs subvolume create failed: "@ + stderr_text(o))
        },
    }
}

/// The result matches a report: the same success, or a
/// `SubvolumePreparationFailed` error with the reported message.
pub open spec fn reports<T>(r: HibernateResult<T>, rep: Result<T, Seq<char>>) -> bool {
    match rep {
        Ok(v) => r == Ok::<T, HibernateError>(v),
        Err(m) => r matches Err(e) && e.kind == ErrorKind::SubvolumePreparationFailed && e.message@
            == m,
    }
}

impl BtrfsOps {
    /// Verify the `btrfs` tool is available: `located` is the outcome of
    /// looking it up in `PATH`.
    pub fn check_available(located: Result<(), String>) -> (r: HibernateResult<()>)
        ensures
            match located {
                Ok(_) => r is Ok,
                Err(m) => r matches Err(e) && e.kind == ErrorKind::ToolNotFound && e.message@
                    == "btrfs-progs not found in PATH — is btrfs-progs installed?"@ && e.cause
                    == Some(m),
            },
    {
        match located {
            Ok(_) => Ok(()),
            Err(m) => Err(
                HibernateError::with_cause(
                    ErrorKind::ToolNotFound,
                    "btrfs-progs not found in PATH — is btrfs-progs installed?".to_string(),
                    m,
                ),
            ),
        }
    }

    /// Verify the filesystem has room for `required_bytes`, given what
    /// `statvfs(2)` reported: blocks available and block size.
    pub fn check_free_space(dir: &str, required_bytes: u64, stat: Result<(u64, u64), String>) -> (r:
        HibernateResult<()>)
        requires
            stat matches Ok((blocks, bsize)) ==> blocks * bsize <= u64::MAX,
        ensures
            match stat {
                Err(m) => r matches Err(e) && e.kind == ErrorKind::DiskSpaceInsufficient && e.message@
                    == "statvfs failed"@ && e.cause == Some(m),
                Ok((blocks, bsize)) => if blocks * bsize < required_bytes {
                    r matches Err(e) && e.kind == ErrorKind::DiskSpaceInsufficient && e.message@
                        == shortage_message(dir@, required_bytes as int, blocks * bsize)
                } else {
                    r is Ok
                },
            },
    {
        match stat {
            Err(m) => Err(
                HibernateError::with_cause(
                    ErrorKind::DiskSpaceInsufficient,
                    "statvfs failed".to_string(),
                    m,
                ),
            ),
            Ok((blocks, bsize)) => {
                let available = blocks * bsize;
                if available < required_bytes {
                    let mut m = String::from_str("not enough space in ");
                    m.append(dir);
                    m.append(" — need ");
                    let need = decimal_string(required_bytes / 1024);
                    m.append(need.as_str());
                    m.append(" KB, have ");
                    let have = decimal_string(available / 1024);
                    m.append(have.as_str());
                    m.append(" KB");
                    Err(HibernateError::new(ErrorKind::DiskSpaceInsufficient, m))
                } else {
                    Ok(())
                }
            },
        }
    }

    /// Interprets `btrfs subvolume show <path>`.
    pub fn subvolume_verdict(ran: Result<CommandOutcome, String>) -> (r: HibernateResult<bool>)
        ensures
            reports(r, subvolume_report(ran)),
    {
        match ran {
            Err(m) => Err(HibernateError::new(ErrorKind::SubvolumePreparationFailed, m)),
            Ok(o) => {
                if o.code == Some(0i32) {
                    Ok(true)
                } else if o.code == Some(1i32) {
                    Ok(false)
                } else {
                    let t = stderr_trimmed(&o);
                    Err(
                        error_with(
                            ErrorKind::SubvolumePreparationFailed,
                            "btrfs subvolume show unexpected exit: ",
                            t.as_str(),
                        ),
                    )
                }
            },
        }
    }

    /// Interprets `btrfs subvolume create <path>`.
    pub fn create_verdict(ran: Result<CommandOutcome, String>) -> (r: HibernateResult<()>)
        ensures
            reports(r, create_report(ran)),
    {
        match ran {
            Err(m) => Err(HibernateError::new(ErrorKind::SubvolumePreparationFailed, m)),
            Ok(o) => {
                if o.success() {
                    Ok(())
                } else {
                    let t = stderr_trimmed(&o);
                    Err(
                        error_with(
                            ErrorKind::SubvolumePreparationFailed,
                            "btrfs subvolume create failed: ",
                            t.as_str(),
                        ),
                    )
                }
            },
        }
    }

    /// Starts creating a btrfs swapfile (`nodatacow`/`nodatasum`, `--uuid
    /// clear`; btrfs-progs >= 6.1): the first request runs `btrfs filesystem
    /// mkswapfile`.
    pub fn mkswapfile(path: &str, size_kb: u64) -> (r: (SwapfileMaker, Action))
        ensures
            r.0.stage == MakerStage::Running,
            r.0.path@ == path@,
            r.0.wf(),
            is_run(r.1, TOOL_BTRFS@, mkswapfile_args(path@, size_kb), StdioMode::Capture),
    {
        let size_mb = size_kb / 1024 + 1;
        let mut size = decimal_string(size_mb);
        size.append("m");
        let args = ["filesystem", "mkswapfile", "--size", size.as_str(), "--uuid", "clear", path];
        assert(str_texts(args@) =~= mkswapfile_args(path@, size_kb));
        let a = run_tool(TOOL_BTRFS, &args, StdioMode::Capture);
        (SwapfileMaker { path: path.to_string(), pending: None, stage: MakerStage::Running }, a)
    }
}

// ── Creating a swapfile ───────────────────────────────────────────────────────

#[derive(Debug, Clone, Copy, PartialEq, Eq, Structural)]
pub enum MakerStage {
    Running,
    RemovingFailed,
    Finished,
}

/// Runs `btrfs filesystem mkswapfile`; when the tool fails, the partial file
/// is removed (whatever that removal gives) before the failure is reported.
#[derive(Debug)]
pub struct SwapfileMaker {
    pub path: String,
    pub pending: Option<HibernateError>,
    pub stage: MakerStage,
}

impl SwapfileMaker {
    pub open spec fn wf(self) -> bool {
        self.stage == MakerStage::RemovingFailed ==> self.pending is Some
    }

    pub open spec fn expects(self, ev: Event) -> bool {
        match self.stage {
            MakerStage::Running => ev is Ran,
            MakerStage::RemovingFailed => ev is Done,
            MakerStage::Finished => false,
        }
    }

    pub open spec fn transition(pre: Self, ev: Event, post: Self, a: Action) -> bool {
        &&& post.path == pre.path
        &&& post.wf()
        &&& match (pre.stage, ev) {
            (MakerStage::Running, Event::Ran(Err(m))) => {
                post.stage == MakerStage::Finished && fails_because(
                    a,
                    ErrorKind::SwapfileCreationFailed,
                    "exec btrfs mkswapfile"@,
                    m,
                )
            },
            (MakerStage::Running, Event::Ran(Ok(o))) => if o.succeeded() {
                post.stage == MakerStage::Finished && succeeds(a)
            } else {
                &&& post.stage == MakerStage::RemovingFailed
                &&& post.pending matches Some(e) && e.kind == ErrorKind::SwapfileCreationFailed
                    && e.message@ == "btrfs mkswapfile failed: "@ + stderr_text(o)
                &&& removes_file(a, pre.path@)
            },
            (MakerStage::RemovingFailed, Event::Done(_)) => {
                &&& post.stage == MakerStage::Finished
                &&& pre.pending matches Some(e) && finishes_with(a, e)
            },
            _ => false,
        }
    }

    pub fn step(&mut self, ev: Event) -> (a: Action)
        requires
            old(self).expects(ev),
            old(self).wf(),
        ensures
            Self::transition(*old(self), ev, *final(self), a),
    {
        match ev {
            Event::Ran(Err(m)) => {
                self.stage = MakerStage::Finished;
                Action::Finish {
                    result: Err(
                        HibernateError::with_cause(
                            ErrorKind::SwapfileCreationFailed,
                            "exec btrfs mkswapfile".to_string(),
                            m,
                        ),
                    ),
                }
            },
            Event::Ran(Ok(o)) => {
                if o.success() {
                    self.stage = MakerStage::Finished;
                    Action::Finish { result: Ok(()) }
                } else {
                    let t = stderr_trimmed(&o);
                    self.pending = Some(
                        error_with(
                            ErrorKind::SwapfileCreationFailed,
                            "btrfs mkswapfile failed: ",
                            t.as_str(),
                        ),
                    );
                    self.stage = MakerStage::RemovingFailed;
                    Action::RemoveFile { path: self.path.clone() }
                }
            },
            _ => {
                self.stage = MakerStage::Finished;
                let e = match &self.pending {
                    Some(e) => e.clone(),
                    None => HibernateError::new(ErrorKind::Unknown, String::new()),
                };
                Action::Finish { result: Err(e) }
            },
        }
    }
}


// ── Preparing the swap directory as a subvolume ──────────────────────────────

#[derive(Debug, Clone, Copy, PartialEq, Eq, Structural)]
pub enum SubvolumeStage {
    CheckingExists,
    RecheckingExists,
    QueryingSubvolume,
    CheckingDir,
    ListingDir,
    RemovingDir,
    RemovingFile,
    CreatingParents,
    CreatingSubvolume,
    Finished,
}

/// Makes `target` a btrfs subvolume.
///
/// - Already a subvolume → nothing to do.
/// - Exists but is not a subvolume → removed (a directory only when it holds
///   no subdirectory, else refused), then created as a subvolume.
/// - Does not exist → created as a subvolume (parents first).
#[derive(Debug)]
pub struct SubvolumeSetup {
    pub target: String,
    pub stage: SubvolumeStage,
}

/// The arguments that ask whether `path` is a subvolume, or create it.
pub open spec fn subvolume_args(verb: Seq<char>, path: Seq<char>) -> Seq<Seq<char>> {
    seq!["subvolume"@, verb, path]
}

/// The action asks whether the target is a directory (`dir`) or exists.
pub open spec fn asks_flag(a: Action, target: Seq<char>, dir: bool) -> bool {
    if dir {
        checks_dir(a, target)
    } else {
        checks_exists(a, target)
    }
}

pub open spec fn fails_preparing(a: Action, msg: Seq<char>) -> bool {
    fails_with(a, ErrorKind::SubvolumePreparationFailed, msg)
}

impl SubvolumeSetup {
    pub open spec fn expects(self, ev: Event) -> bool {
        match self.stage {
            SubvolumeStage::CheckingExists => ev is Flag,
            SubvolumeStage::RecheckingExists => ev is Flag,
            SubvolumeStage::QueryingSubvolume => ev is Ran,
            SubvolumeStage::CheckingDir => ev is Flag,
            SubvolumeStage::ListingDir => ev is Listing,
            SubvolumeStage::RemovingDir => ev is Done,
            SubvolumeStage::RemovingFile => ev is Done,
            SubvolumeStage::CreatingParents => ev is Done,
            SubvolumeStage::CreatingSubvolume => ev is Ran,
            SubvolumeStage::Finished => false,
        }
    }

    pub open spec fn transition(pre: Self, ev: Event, post: Self, a: Action) -> bool {
        let t = pre.target@;
        &&& post.target == pre.target
        &&& match (pre.stage, ev) {
            (SubvolumeStage::CheckingExists, Event::Flag(true)) => {
                post.stage == SubvolumeStage::RecheckingExists && asks_flag(a, t, false)
            },
            (SubvolumeStage::CheckingExists, Event::Flag(false)) => {
                post.stage == SubvolumeStage::CreatingParents && creates_parents(a, t)
            },
            (SubvolumeStage::RecheckingExists, Event::Flag(true)) => {
                post.stage == SubvolumeStage::QueryingSubvolume && is_run(
                    a,
                    TOOL_BTRFS@,
                    subvolume_args("show"@, t),
                    StdioMode::Capture,
                )
            },
            (SubvolumeStage::RecheckingExists, Event::Flag(false)) => {
                post.stage == SubvolumeStage::CheckingDir && asks_flag(a, t, true)
            },
            (SubvolumeStage::QueryingSubvolume, Event::Ran(r)) => match subvolume_report(r) {
                Ok(true) => post.stage == SubvolumeStage::Finished && succeeds(a),
                Ok(false) => post.stage == SubvolumeStage::CheckingDir && asks_flag(a, t, true),
                Err(m) => post.stage == SubvolumeStage::Finished && fails_preparing(a, m),
            },
            (SubvolumeStage::CheckingDir, Event::Flag(true)) => {
                post.stage == SubvolumeStage::ListingDir && lists_dir(a, t)
            },
            (SubvolumeStage::CheckingDir, Event::Flag(false)) => {
                post.stage == SubvolumeStage::RemovingFile && removes_file(a, t)
            },
            (SubvolumeStage::ListingDir, Event::Listing(Err(m))) => {
                post.stage == SubvolumeStage::Finished && fails_preparing(a, m@)
            },
            (SubvolumeStage::ListingDir, Event::Listing(Ok(true))) => {
                post.stage == SubvolumeStage::Finished && fails_preparing(
                    a,
                    "refusing to remove non-empty non-subvolume dir: "@ + t,
                )
            },
            (SubvolumeStage::ListingDir, Event::Listing(Ok(false))) => {
                post.stage == SubvolumeStage::RemovingDir && removes_dir(a, t)
            },
            (SubvolumeStage::RemovingDir, Event::Done(Err(m))) => {
                post.stage == SubvolumeStage::Finished && fails_preparing(a, m@)
            },
            (SubvolumeStage::RemovingFile, Event::Done(Err(m))) => {
                post.stage == SubvolumeStage::Finished && fails_preparing(a, m@)
            },
            (SubvolumeStage::RemovingDir, Event::Done(Ok(_))) => {
                post.stage == SubvolumeStage::CreatingParents && creates_parents(a, t)
            },
            (SubvolumeStage::RemovingFile, Event::Done(Ok(_))) => {
                post.stage == SubvolumeStage::CreatingParents && creates_parents(a, t)
            },
            (SubvolumeStage::CreatingParents, Event::Done(Err(m))) => {
                post.stage == SubvolumeStage::Finished && fails_preparing(a, m@)
            },
            (SubvolumeStage::CreatingParents, Event::Done(Ok(_))) => {
                post.stage == SubvolumeStage::CreatingSubvolume && is_run(
                    a,
                    TOOL_BTRFS@,
                    subvolume_args("create"@, t),
                    StdioMode::Capture,
                )
            },
            (SubvolumeStage::CreatingSubvolume, Event::Ran(r)) => {
                &&& post.stage == SubvolumeStage::Finished
                &&& match create_report(r) {
                    Ok(_) => succeeds(a),
                    Err(m) => fails_preparing(a, m),
                }
            },
            _ => false,
        }
    }

    fn run_subvolume(&self, verb: &str) -> (a: Action)
        ensures
            is_run(a, TOOL_BTRFS@, subvolume_args(verb@, self.target@), StdioMode::Capture),
    {
        let args = ["subvolume", verb, self.target.as_str()];
        assert(str_texts(args@) =~= subvolume_args(verb@, self.target@));
        run_tool(TOOL_BTRFS, &args, StdioMode::Capture)
    }

    fn fail(&mut self, msg: String) -> (a: Action)
        ensures
            final(self).target == old(self).target,
            final(self).stage == SubvolumeStage::Finished,
            fails_preparing(a, msg@),
    {
        self.stage = SubvolumeStage::Finished;
        Action::Finish { result: Err(HibernateError::new(ErrorKind::SubvolumePreparationFailed, msg)) }
    }

    pub fn step(&mut self, ev: Event) -> (a: Action)
        requires
            old(self).expects(ev),
        ensures
            Self::transition(*old(self), ev, *final(self), a),
    {
        match self.stage {
            SubvolumeStage::CheckingExists => {
                if let Event::Flag(true) = ev {
                    self.stage = SubvolumeStage::RecheckingExists;
                    Action::PathExists { path: self.target.clone() }
                } else {
                    self.stage = SubvolumeStage::CreatingParents;
                    Action::CreateParentDirs { path: self.target.clone() }
                }
            },
            SubvolumeStage::RecheckingExists => {
                if let Event::Flag(true) = ev {
                    self.stage = SubvolumeStage::QueryingSubvolume;
                    self.run_subvolume("show")
                } else {
                    self.stage = SubvolumeStage::CheckingDir;
                    Action::PathIsDir { path: self.target.clone() }
                }
            },
            SubvolumeStage::QueryingSubvolume => {
                let ran = match ev {
                    Event::Ran(r) => r,
                    _ => Err(String::new()),
                };
                match BtrfsOps::subvolume_verdict(ran) {
                    Ok(true) => {
                        self.stage = SubvolumeStage::Finished;
                        Action::Finish { result: Ok(()) }
                    },
                    Ok(false) => {
                        self.stage = SubvolumeStage::CheckingDir;
                        Action::PathIsDir { path: self.target.clone() }
                    },
                    Err(e) => {
                        self.stage = SubvolumeStage::Finished;
                        Action::Finish { result: Err(e) }
                    },
                }
            },
            SubvolumeStage::CheckingDir => {
                if let Event::Flag(true) = ev {
                    self.stage = SubvolumeStage::ListingDir;
                    Action::HasSubdirectory { path: self.target.clone() }
                } else {
                    self.stage = SubvolumeStage::RemovingFile;
                    Action::RemoveFile { path: self.target.clone() }
                }
            },
            SubvolumeStage::ListingDir => {
                match ev {
                    Event::Listing(Err(m)) => self.fail(m),
                    Event::Listing(Ok(true)) => {
                        let mut m = String::from_str("refusing to remove non-empty non-subvolume dir: ");
                        m.append(self.target.as_str());
                        self.fail(m)
                    },
                    _ => {
                        self.stage = SubvolumeStage::RemovingDir;
                        Action::RemoveDirAll { path: self.target.clone() }
                    },
                }
            },
            SubvolumeStage::RemovingDir | SubvolumeStage::RemovingFile => {
                match ev {
                    Event::Done(Err(m)) => self.fail(m),
                    _ => {
                        self.stage = SubvolumeStage::CreatingParents;
                        Action::CreateParentDirs { path: self.target.clone() }
                    },
                }
            },
            SubvolumeStage::CreatingParents => {
                match ev {
                    Event::Done(Err(m)) => self.fail(m),
                    _ => {
                        self.stage = SubvolumeStage::CreatingSubvolume;
                        self.run_subvolume("create")
                    },
                }
            },
            _ => {
                let ran = match ev {
                    Event::Ran(r) => r,
                    _ => Err(String::new()),
                };
                self.stage = SubvolumeStage::Finished;
                Action::Finish { result: BtrfsOps::create_verdict(ran) }
            },
        }
    }
}

impl BtrfsOps {
    /// Starts making `target` a btrfs subvolume: the first request asks
    /// whether it exists.
    pub fn ensure_subvolume(target: &str) -> (r: (SubvolumeSetup, Action))
        ensures
            r.0.stage == SubvolumeStage::CheckingExists,
            r.0.target@ == target@,
            asks_flag(r.1, target@, false),
    {
        (
            SubvolumeSetup { target: target.to_string(), stage: SubvolumeStage::CheckingExists },
            Action::PathExists { path: target.to_string() },
        )
    }
}


// ── laws ──────────────────────────────────────────────────────────────────────

impl SubvolumeSetup {
    /// How many answers the setup can still take at most.
    pub open spec fn rank(self) -> nat {
        match self.stage {
            SubvolumeStage::CheckingExists => 9,
            SubvolumeStage::RecheckingExists => 8,
            SubvolumeStage::QueryingSubvolume => 7,
            SubvolumeStage::CheckingDir => 6,
            SubvolumeStage::ListingDir => 5,
            SubvolumeStage::RemovingDir => 4,
            SubvolumeStage::RemovingFile => 3,
            SubvolumeStage::CreatingParents => 2,
            SubvolumeStage::CreatingSubvolume => 1,
            SubvolumeStage::Finished => 0,
        }
    }
}

impl SwapfileMaker {
    /// How many answers the maker can still take at most.
    pub open spec fn rank(self) -> nat {
        match self.stage {
            MakerStage::Running => 2,
            MakerStage::RemovingFailed => 1,
            MakerStage::Finished => 0,
        }
    }
}

/// Preparing the subvolume always ends: every answer moves it forward, and
/// it has ended exactly when it asks to finish.
pub proof fn law_subvolume_setup_terminates(pre: SubvolumeSetup, ev: Event, post: SubvolumeSetup, a: Action)
    requires
        SubvolumeSetup::transition(pre, ev, post, a),
    ensures
        post.rank() < pre.rank(),
        post.stage == SubvolumeStage::Finished <==> a is Finish,
{
}

/// An existing subvolume is left as it is, and a directory is removed only
/// when it holds no subdirectory; a new subvolume is created only after the
/// parent directories were made.
pub proof fn law_subvolume_setup_is_careful(pre: SubvolumeSetup, ev: Event, post: SubvolumeSetup, a: Action)
    requires
        SubvolumeSetup::transition(pre, ev, post, a),
    ensures
        pre.stage == SubvolumeStage::QueryingSubvolume ==> ((ev matches Event::Ran(Ok(o)) && o.code
            == Some(0i32)) ==> succeeds(a)),
        removes_dir(a, pre.target@) ==> (pre.stage == SubvolumeStage::ListingDir && ev
            == Event::Listing(Ok(false))),
        a is RemoveDirAll ==> pre.stage == SubvolumeStage::ListingDir,
        post.stage == SubvolumeStage::CreatingSubvolume ==> (pre.stage
            == SubvolumeStage::CreatingParents && (ev matches Event::Done(Ok(_)))),
{
}

/// Making a swapfile ends after at most two answers; when the tool fails, the
/// partial file is removed before the failure is reported.
pub proof fn law_failed_mkswapfile_removes_file(
    s0: SwapfileMaker,
    o: CommandOutcome,
    s1: SwapfileMaker,
    a1: Action,
    ev2: Event,
    s2: SwapfileMaker,
    a2: Action,
)
    requires
        s0.stage == MakerStage::Running,
        !o.succeeded(),
        SwapfileMaker::transition(s0, Event::Ran(Ok(o)), s1, a1),
        SwapfileMaker::transition(s1, ev2, s2, a2),
    ensures
        removes_file(a1, s0.path@),
        fails_with(a2, ErrorKind::SwapfileCreationFailed, "btrfs mkswapfile failed: "@ + stderr_text(o)),
        s1.rank() < s0.rank(),
        s2.rank() < s1.rank(),
{
}

/// The swapfile asked of `btrfs filesystem mkswapfile` always holds the
/// requested size: its `--size` argument is a whole number `n` of mebibytes
/// (suffix `m`) with `size_kb < n * 1024 <= size_kb + 1024`, the least whole
/// number of MiB strictly above the request.
pub proof fn law_swapfile_size_covers_request(path: Seq<char>, size_kb: u64)
    ensures
        mkswapfile_args(path, size_kb)[2] == "--size"@,
        ({
            let arg = mkswapfile_args(path, size_kb)[3];
            &&& arg.len() >= 2
            &&& arg.last() == 'm'
            &&& parse_u64(arg.drop_last()) matches Some(n) && size_kb < n * 1024 && n * 1024
                <= size_kb + 1024
        }),
{
    let n: nat = (size_kb / 1024 + 1) as nat;
    lemma_parse_decimal(n);
    let arg = mkswapfile_args(path, size_kb)[3];
    assert(arg == decimal(n) + "m"@);
    reveal_strlit("m");
    assert(arg.drop_last() =~= decimal(n));
    assert(size_kb < n * 1024 <= size_kb + 1024);
}

} // verus!
