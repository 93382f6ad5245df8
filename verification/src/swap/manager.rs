use vstd::prelude::*;
use crate::config::{
    METADATA_FILE_NAME, SWAP_DIR, SWAP_FILE_NAME, SYS_IMAGE_SIZE, SYS_RESUME, SYS_RESUME_OFFSET,
    TOOL_BTRFS, TOOL_SWAPOFF, TOOL_SWAPON,
};
use crate::error::{ErrorKind, HibernateError, HibernateResult};
use crate::power::{is_write, read_or, reads_sysfs, ImageSize, ResumeParams};
use crate::probe::swap::{best_index, max_free};
use crate::probe::SwapProbe;
use crate::swap::btrfs::{shortage_message, BtrfsOps};
use crate::system::{
    checks_exists, fails_because, fails_with, finishes_with, is_run, removes_file, run_tool,
    str_texts, succeeds,
    Action, CommandOutcome, Event, StdioMode,
};
use crate::text::{decimal, decimal_string, opt_view, signed_decimal, signed_decimal_string, trim};
use crate::error::error_text;
use crate::probe::swap::{entry_view, free_of, EntryView};
use crate::probe::zswap::compressor_name;
use crate::probe::{SwapEntry, ZswapProbe};
use crate::swap::SwapMetadata;
use crate::system::texts;

verus! {

/// Orchestrates the full swapfile lifecycle.
#[derive(Debug, Clone, PartialEq, Eq)]
pub struct SwapManager {
    pub swap_dir: String,
    pub swap_file: String,
    pub meta_file: String,
}

/// `dir` joined with the relative name `name`.
pub open spec fn joined(dir: Seq<char>, name: Seq<char>) -> Seq<char> {
    dir + "/"@ + name
}

fn join(dir: &str, name: &str) -> (s: String)
    ensures
        s@ == joined(dir@, name@),
{
    let mut s = String::from_str(dir);
    s.append("/");
    s.append(name);
    s
}

impl SwapManager {
    /// The manager of the standard locations: the swapfile and its metadata in
    /// `SWAP_DIR`.
    pub fn new() -> (m: Self)
        ensures
            m.swap_dir@ == SWAP_DIR@,
            m.swap_file@ == joined(SWAP_DIR@, SWAP_FILE_NAME@),
            m.meta_file@ == joined(SWAP_DIR@, METADATA_FILE_NAME@),
    {
        SwapManager {
            swap_file: join(SWAP_DIR, SWAP_FILE_NAME),
            meta_file: join(SWAP_DIR, METADATA_FILE_NAME),
            swap_dir: SWAP_DIR.to_string(),
        }
    }
}

impl Default for SwapManager {
    fn default() -> (m: Self)
        ensures
            m.swap_dir@ == SWAP_DIR@,
            m.swap_file@ == joined(SWAP_DIR@, SWAP_FILE_NAME@),
            m.meta_file@ == joined(SWAP_DIR@, METADATA_FILE_NAME@),
    {
        Self::new()
    }
}

// ── swapon ────────────────────────────────────────────────────────────────────

/// What activating `path` with `swapon` gives: success, or a
/// `SwapfileActivationFailed` error.
pub open spec fn swapon_report(path: Seq<char>, ran: Result<CommandOutcome, String>) -> Result<(), Seq<char>> {
    match ran {
        Err(_) => Err("exec swapon"@),
        Ok(o) => if o.succeeded() {
            Ok(())
        } else {
            Err("swapon "@ + path + " exited with "@ + o.status_text@)
        },
    }
}

/// Interprets a `swapon <path>` run.
pub fn swapon_verdict(path: &str, ran: Result<CommandOutcome, String>) -> (r: HibernateResult<()>)
    ensures
        match swapon_report(path@, ran) {
            Ok(_) => r is Ok,
            Err(m) => r matches Err(e) && e.kind == ErrorKind::SwapfileActivationFailed && e.message@
                == m,
        },
        ran matches Err(c) ==> r matches Err(e) && e.cause == Some(c),
{
    match ran {
        Err(c) => Err(
            HibernateError::with_cause(
                ErrorKind::SwapfileActivationFailed,
                "exec swapon".to_string(),
                c,
            ),
        ),
        Ok(o) => {
            if o.success() {
                Ok(())
            } else {
                let mut m = String::from_str("swapon ");
                m.append(path);
                m.append(" exited with ");
                m.append(o.status_text.as_str());
                Err(HibernateError::new(ErrorKind::SwapfileActivationFailed, m))
            }
        },
    }
}

/// The action runs `swapon` or `swapoff` on `path`, sharing the streams.
pub open spec fn runs_swap_tool(a: Action, tool: Seq<char>, path: Seq<char>) -> bool {
    is_run(a, tool, seq![path], StdioMode::Inherit)
}

fn run_swap_tool(tool: &str, path: &str) -> (a: Action)
    ensures
        runs_swap_tool(a, tool@, path@),
{
    let args = [path];
    assert(str_texts(args@) =~= seq![path@]);
    run_tool(tool, &args, StdioMode::Inherit)
}

/// The action asks whether the tool is in `PATH`.
pub open spec fn locates(a: Action, tool: Seq<char>) -> bool {
    a matches Action::LocateTool { name } && name@ == tool
}

/// The action writes `value` to the sysfs file `p`.
pub open spec fn writes_sysfs(a: Action, p: Seq<char>, value: Seq<char>) -> bool {
    a matches Action::WriteSysfs { write } && write.path@ == p && write.value@ == value
}

// ── create ────────────────────────────────────────────────────────────────────

#[derive(Debug, Clone, Copy, PartialEq, Eq, Structural)]
pub enum CreateStage {
    LocatingSwapon,
    LocatingSwapoff,
    LocatingBtrfs,
    CheckingCompressors,
    ReadingResume,
    ReadingResumeOffset,
    ZeroingImageSize,
    Estimating,
    ProbingForSize,
    ProbingForPath,
    Reusing,
    EnsuringSubvolume,
    ReadingFreeSpace,
    CheckingStaleFile,
    StoppingStaleFile,
    RemovingStaleFile,
    MakingSwapfile,
    Activating,
    DiscardingUnactivated,
    ConfiguringResume,
    DeactivatingUnconfigured,
    RemovingUnconfigured,
    WritingMetadata,
    HidingBootMenu,
    Finished,
}

/// Prepares a swapfile and points the kernel resume pointers at it (run
/// before hibernation).
///
/// 1. The tools `swapon`, `swapoff` and `btrfs` must be in `PATH`.
/// 2. The current resume pointers are saved (`0:0` and `0` when unreadable).
/// 3. `image_size` is set to 0.
/// 4. The swapfile size is estimated.
/// 5. An existing non-zram swap with that much free space is reused.
/// 6. Otherwise a swapfile is made in a btrfs subvolume, after checking the
///    free space and removing a stale file, and activated; it is removed again
///    when activation fails, and deactivated and removed when the resume
///    pointers cannot be set.
/// 7. The metadata for `cleanup` is written and the boot menu hidden.
#[derive(Debug)]
pub struct CreateRun {
    pub swap_dir: String,
    pub swap_file: String,
    pub meta_file: String,
    pub old_resume: String,
    pub old_resume_offset: String,
    pub required_kb: u64,
    pub pending: Option<HibernateError>,
    pub stage: CreateStage,
}

impl CreateRun {
    pub open spec fn wf(self) -> bool {
        (self.stage == CreateStage::DiscardingUnactivated || self.stage
            == CreateStage::DeactivatingUnconfigured || self.stage
            == CreateStage::RemovingUnconfigured) ==> self.pending is Some
    }

    pub open spec fn expects(self, ev: Event) -> bool {
        match self.stage {
            CreateStage::LocatingSwapon => ev is Located,
            CreateStage::LocatingSwapoff => ev is Located,
            CreateStage::LocatingBtrfs => ev is Located,
            CreateStage::CheckingCompressors => ev is Acknowledged,
            CreateStage::ReadingResume => ev is Read,
            CreateStage::ReadingResumeOffset => ev is Read,
            CreateStage::ZeroingImageSize => ev is Done,
            CreateStage::Estimating => ev is Size,
            CreateStage::ProbingForSize => ev is Swaps,
            CreateStage::ProbingForPath => ev is Swaps,
            CreateStage::Reusing => ev is Completed,
            CreateStage::EnsuringSubvolume => ev is Completed,
            CreateStage::ReadingFreeSpace => ev is Space,
            CreateStage::CheckingStaleFile => ev is Flag,
            CreateStage::StoppingStaleFile => ev is Ran,
            CreateStage::RemovingStaleFile => ev is Done,
            CreateStage::MakingSwapfile => ev is Completed,
            CreateStage::Activating => ev is Ran,
            CreateStage::DiscardingUnactivated => ev is Done,
            CreateStage::ConfiguringResume => ev is Completed,
            CreateStage::DeactivatingUnconfigured => ev is Ran,
            CreateStage::RemovingUnconfigured => ev is Done,
            CreateStage::WritingMetadata => ev is Completed,
            CreateStage::HidingBootMenu => ev is Acknowledged,
            CreateStage::Finished => false,
        }
    }

    /// The fields that never change during a run.
    pub open spec fn same_places(pre: Self, post: Self) -> bool {
        &&& post.swap_dir == pre.swap_dir
        &&& post.swap_file == pre.swap_file
        &&& post.meta_file == pre.meta_file
    }

    /// The saved resume pointers and the size stay as they were.
    pub open spec fn same_saved(pre: Self, post: Self) -> bool {
        &&& post.old_resume == pre.old_resume
        &&& post.old_resume_offset == pre.old_resume_offset
        &&& post.required_kb == pre.required_kb
    }

    /// The step after the subvolume is ready or no swap could be reused.
    pub open spec fn to_subvolume(pre: Self, post: Self, a: Action) -> bool {
        &&& post.stage == CreateStage::EnsuringSubvolume
        &&& a matches Action::EnsureSubvolume { path } && path@ == pre.swap_dir@
    }

    /// The step that makes the swapfile.
    pub open spec fn to_make(pre: Self, post: Self, a: Action) -> bool {
        &&& post.stage == CreateStage::MakingSwapfile
        &&& a matches Action::MakeSwapfile { path, size_kb } && path@ == pre.swap_file@ && size_kb
            == pre.required_kb
    }

    pub open spec fn transition(pre: Self, ev: Event, post: Self, a: Action) -> bool {
        &&& Self::same_places(pre, post)
        &&& post.wf()
        &&& (post.stage != CreateStage::Finished && pre.stage != CreateStage::ReadingResume
            && pre.stage != CreateStage::ReadingResumeOffset) ==> (post.old_resume == pre.old_resume
            && post.old_resume_offset == pre.old_resume_offset)
        &&& match (pre.stage, ev) {
            (CreateStage::LocatingSwapon, Event::Located(found)) => match found {
                Ok(_) => post.stage == CreateStage::LocatingSwapoff && locates(a, TOOL_SWAPOFF@),
                Err(m) => post.stage == CreateStage::Finished && fails_because(
                    a,
                    ErrorKind::ToolNotFound,
                    "swapon not found in PATH"@,
                    m,
                ),
            },
            (CreateStage::LocatingSwapoff, Event::Located(found)) => match found {
                Ok(_) => post.stage == CreateStage::LocatingBtrfs && locates(a, TOOL_BTRFS@),
                Err(m) => post.stage == CreateStage::Finished && fails_because(
                    a,
                    ErrorKind::ToolNotFound,
                    "swapoff not found in PATH"@,
                    m,
                ),
            },
            (CreateStage::LocatingBtrfs, Event::Located(found)) => match found {
                Ok(_) => post.stage == CreateStage::CheckingCompressors && a
                    == Action::ReportCompressorAlignment,
                Err(m) => post.stage == CreateStage::Finished && fails_because(
                    a,
                    ErrorKind::ToolNotFound,
                    "btrfs-progs not found in PATH — is btrfs-progs installed?"@,
                    m,
                ),
            },
            (CreateStage::CheckingCompressors, Event::Acknowledged) => {
                post.stage == CreateStage::ReadingResume && reads_sysfs(a, SYS_RESUME@)
            },
            (CreateStage::ReadingResume, Event::Read(r)) => {
                &&& post.stage == CreateStage::ReadingResumeOffset
                &&& post.old_resume@ == read_or(r, "0:0"@)
                &&& reads_sysfs(a, SYS_RESUME_OFFSET@)
            },
            (CreateStage::ReadingResumeOffset, Event::Read(r)) => {
                &&& post.stage == CreateStage::ZeroingImageSize
                &&& post.old_resume == pre.old_resume
                &&& post.old_resume_offset@ == read_or(r, "0"@)
                &&& writes_sysfs(a, SYS_IMAGE_SIZE@, "0\n"@)
            },
            (CreateStage::ZeroingImageSize, Event::Done(r)) => match r {
                Ok(_) => Self::same_saved(pre, post) && post.stage == CreateStage::Estimating && a
                    == Action::EstimateSize,
                Err(m) => post.stage == CreateStage::Finished && fails_because(
                    a,
                    ErrorKind::ResumeConfigFailed,
                    "write /sys/power/image_size"@,
                    m,
                ),
            },
            (CreateStage::Estimating, Event::Size(r)) => match r {
                Ok(kb) => {
                    &&& post.stage == CreateStage::ProbingForSize
                    &&& post.required_kb == kb
                    &&& post.old_resume == pre.old_resume
                    &&& post.old_resume_offset == pre.old_resume_offset
                    &&& a == Action::ProbeSwaps
                },
                Err(e) => post.stage == CreateStage::Finished && finishes_with(a, e),
            },
            (CreateStage::ProbingForSize, Event::Swaps(r)) => match r {
                Ok(p) => {
                    &&& Self::same_saved(pre, post)
                    &&& if max_free(p.listed()) >= pre.required_kb {
                        post.stage == CreateStage::ProbingForPath && a == Action::ProbeSwaps
                    } else {
                        Self::to_subvolume(pre, post, a)
                    }
                },
                Err(e) => post.stage == CreateStage::Finished && finishes_with(a, e),
            },
            (CreateStage::ProbingForPath, Event::Swaps(r)) => match r {
                Ok(p) => {
                    &&& Self::same_saved(pre, post)
                    &&& match best_index(p.listed()) {
                        Some(b) => {
                            &&& post.stage == CreateStage::Reusing
                            &&& a matches Action::ConfigureResume { path } && path@ == p.listed()[b].0
                        },
                        None => Self::to_subvolume(pre, post, a),
                    }
                },
                Err(e) => post.stage == CreateStage::Finished && finishes_with(a, e),
            },
            (CreateStage::Reusing, Event::Completed(r)) => {
                post.stage == CreateStage::Finished && a == Action::Finish { result: r }
            },
            (CreateStage::EnsuringSubvolume, Event::Completed(r)) => match r {
                Ok(_) => {
                    &&& Self::same_saved(pre, post)
                    &&& post.stage == CreateStage::ReadingFreeSpace
                    &&& a matches Action::ReadFreeSpace { path } && path@ == pre.swap_dir@
                },
                Err(e) => post.stage == CreateStage::Finished && finishes_with(a, e),
            },
            (CreateStage::ReadingFreeSpace, Event::Space(stat)) => {
                match stat {
                    Err(m) => post.stage == CreateStage::Finished && fails_because(
                        a,
                        ErrorKind::DiskSpaceInsufficient,
                        "statvfs failed"@,
                        m,
                    ),
                    Ok((blocks, bsize)) => if blocks * bsize < pre.required_kb * 1024 {
                        &&& post.stage == CreateStage::Finished
                        &&& fails_with(
                            a,
                            ErrorKind::DiskSpaceInsufficient,
                            shortage_message(pre.swap_dir@, pre.required_kb * 1024, blocks * bsize),
                        )
                    } else {
                        &&& Self::same_saved(pre, post)
                        &&& post.stage == CreateStage::CheckingStaleFile
                        &&& checks_exists(a, pre.swap_file@)
                    },
                }
            },
            (CreateStage::CheckingStaleFile, Event::Flag(exists)) => {
                &&& Self::same_saved(pre, post)
                &&& if exists {
                    post.stage == CreateStage::StoppingStaleFile && runs_swap_tool(
                        a,
                        TOOL_SWAPOFF@,
                        pre.swap_file@,
                    )
                } else {
                    Self::to_make(pre, post, a)
                }
            },
            (CreateStage::StoppingStaleFile, Event::Ran(_)) => {
                &&& Self::same_saved(pre, post)
                &&& post.stage == CreateStage::RemovingStaleFile
                &&& removes_file(a, pre.swap_file@)
            },
            (CreateStage::RemovingStaleFile, Event::Done(r)) => match r {
                Ok(_) => Self::same_saved(pre, post) && Self::to_make(pre, post, a),
                Err(m) => post.stage == CreateStage::Finished && fails_with(
                    a,
                    ErrorKind::SwapfileCreationFailed,
                    m@,
                ),
            },
            (CreateStage::MakingSwapfile, Event::Completed(r)) => match r {
                Ok(_) => {
                    &&& Self::same_saved(pre, post)
                    &&& post.stage == CreateStage::Activating
                    &&& runs_swap_tool(a, TOOL_SWAPON@, pre.swap_file@)
                },
                Err(e) => post.stage == CreateStage::Finished && finishes_with(a, e),
            },
            (CreateStage::Activating, Event::Ran(r)) => match swapon_report(pre.swap_file@, r) {
                Ok(_) => {
                    &&& Self::same_saved(pre, post)
                    &&& post.stage == CreateStage::ConfiguringResume
                    &&& a matches Action::ConfigureResume { path } && path@ == pre.swap_file@
                },
                Err(m) => {
                    &&& post.stage == CreateStage::DiscardingUnactivated
                    &&& post.pending matches Some(e) && e.kind == ErrorKind::SwapfileActivationFailed
                        && e.message@ == m && (r matches Err(c) ==> e.cause == Some(c))
                    &&& removes_file(a, pre.swap_file@)
                },
            },
            (CreateStage::DiscardingUnactivated, Event::Done(_)) => {
                &&& post.stage == CreateStage::Finished
                &&& pre.pending matches Some(e) && finishes_with(a, e)
            },
            (CreateStage::ConfiguringResume, Event::Completed(r)) => match r {
                Ok(_) => {
                    &&& post.stage == CreateStage::WritingMetadata
                    &&& a matches Action::WriteMetadata {
                        path,
                        swap_file,
                        old_resume,
                        old_resume_offset,
                    } && path@ == pre.meta_file@ && swap_file@ == pre.swap_file@ && old_resume@
                        == pre.old_resume@ && old_resume_offset@ == pre.old_resume_offset@
                },
                Err(e) => {
                    &&& post.stage == CreateStage::DeactivatingUnconfigured
                    &&& post.pending == Some(e)
                    &&& runs_swap_tool(a, TOOL_SWAPOFF@, pre.swap_file@)
                },
            },
            (CreateStage::DeactivatingUnconfigured, Event::Ran(_)) => {
                &&& post.stage == CreateStage::RemovingUnconfigured
                &&& post.pending == pre.pending
                &&& removes_file(a, pre.swap_file@)
            },
            (CreateStage::RemovingUnconfigured, Event::Done(_)) => {
                &&& post.stage == CreateStage::Finished
                &&& pre.pending matches Some(e) && finishes_with(a, e)
            },
            (CreateStage::WritingMetadata, Event::Completed(r)) => match r {
                Ok(_) => post.stage == CreateStage::HidingBootMenu && a == Action::HideBootMenu,
                Err(e) => post.stage == CreateStage::Finished && finishes_with(a, e),
            },
            (CreateStage::HidingBootMenu, Event::Acknowledged) => {
                post.stage == CreateStage::Finished && succeeds(a)
            },
            _ => false,
        }
    }

    fn finish(&mut self, result: HibernateResult<()>) -> (a: Action)
        ensures
            Self::same_places(*old(self), *final(self)),
            final(self).stage == CreateStage::Finished,
            a == (Action::Finish { result }),
    {
        self.stage = CreateStage::Finished;
        Action::Finish { result }
    }

    fn fail_because(&mut self, kind: ErrorKind, msg: &str, cause: String) -> (a: Action)
        ensures
            Self::same_places(*old(self), *final(self)),
            final(self).stage == CreateStage::Finished,
            fails_because(a, kind, msg@, cause),
    {
        self.finish(Err(HibernateError::with_cause(kind, msg.to_string(), cause)))
    }

    fn to_subvolume_step(&mut self) -> (a: Action)
        ensures
            Self::same_places(*old(self), *final(self)),
            Self::same_saved(*old(self), *final(self)),
            final(self).pending == old(self).pending,
            Self::to_subvolume(*old(self), *final(self), a),
    {
        self.stage = CreateStage::EnsuringSubvolume;
        Action::EnsureSubvolume { path: self.swap_dir.clone() }
    }

    fn to_make_step(&mut self) -> (a: Action)
        ensures
            Self::same_places(*old(self), *final(self)),
            Self::same_saved(*old(self), *final(self)),
            final(self).pending == old(self).pending,
            Self::to_make(*old(self), *final(self), a),
    {
        self.stage = CreateStage::MakingSwapfile;
        Action::MakeSwapfile { path: self.swap_file.clone(), size_kb: self.required_kb }
    }

    fn take_pending(&mut self) -> (a: Action)
        requires
            old(self).pending is Some,
        ensures
            Self::same_places(*old(self), *final(self)),
            final(self).stage == CreateStage::Finished,
            old(self).pending matches Some(e) && finishes_with(a, e),
    {
        let e = match &self.pending {
            Some(e) => e.clone(),
            None => HibernateError::new(ErrorKind::Unknown, String::new()),
        };
        self.finish(Err(e))
    }

    pub fn step(&mut self, ev: Event) -> (a: Action)
        requires
            old(self).expects(ev),
            old(self).wf(),
            old(self).stage == CreateStage::ReadingFreeSpace ==> old(self).required_kb * 1024
                <= u64::MAX,
            ev matches Event::Space(Ok((blocks, bsize))) ==> blocks * bsize <= u64::MAX,
        ensures
            Self::transition(*old(self), ev, *final(self), a),
    {
        match self.stage {
            CreateStage::LocatingSwapon => {
                match ev {
                    Event::Located(Err(m)) => self.fail_because(
                        ErrorKind::ToolNotFound,
                        "swapon not found in PATH",
                        m,
                    ),
                    _ => {
                        self.stage = CreateStage::LocatingSwapoff;
                        Action::LocateTool { name: TOOL_SWAPOFF.to_string() }
                    },
                }
            },
            CreateStage::LocatingSwapoff => {
                match ev {
                    Event::Located(Err(m)) => self.fail_because(
                        ErrorKind::ToolNotFound,
                        "swapoff not found in PATH",
                        m,
                    ),
                    _ => {
                        self.stage = CreateStage::LocatingBtrfs;
                        Action::LocateTool { name: TOOL_BTRFS.to_string() }
                    },
                }
            },
            CreateStage::LocatingBtrfs => {
                let found = match ev {
                    Event::Located(f) => f,
                    _ => Ok(()),
                };
                match BtrfsOps::check_available(found) {
                    Ok(_) => {
                        self.stage = CreateStage::CheckingCompressors;
                        Action::ReportCompressorAlignment
                    },
                    Err(e) => self.finish(Err(e)),
                }
            },
            CreateStage::CheckingCompressors => {
                self.stage = CreateStage::ReadingResume;
                Action::ReadSysfs { path: SYS_RESUME.to_string() }
            },
            CreateStage::ReadingResume => {
                let r = match ev {
                    Event::Read(r) => r,
                    _ => Err(String::new()),
                };
                self.old_resume = match ResumeParams::read_resume(r) {
                    Ok(v) => v,
                    Err(_) => "0:0".to_string(),
                };
                self.stage = CreateStage::ReadingResumeOffset;
                Action::ReadSysfs { path: SYS_RESUME_OFFSET.to_string() }
            },
            CreateStage::ReadingResumeOffset => {
                let r = match ev {
                    Event::Read(r) => r,
                    _ => Err(String::new()),
                };
                self.old_resume_offset = match ResumeParams::read_resume_offset(r) {
                    Ok(v) => v,
                    Err(_) => "0".to_string(),
                };
                self.stage = CreateStage::ZeroingImageSize;
                Action::WriteSysfs { write: ImageSize::set_zero() }
            },
            CreateStage::ZeroingImageSize => {
                match ev {
                    Event::Done(Err(m)) => self.fail_because(
                        ErrorKind::ResumeConfigFailed,
                        "write /sys/power/image_size",
                        m,
                    ),
                    _ => {
                        self.stage = CreateStage::Estimating;
                        Action::EstimateSize
                    },
                }
            },
            CreateStage::Estimating => {
                match ev {
                    Event::Size(Ok(kb)) => {
                        self.required_kb = kb;
                        self.stage = CreateStage::ProbingForSize;
                        Action::ProbeSwaps
                    },
                    Event::Size(Err(e)) => self.finish(Err(e)),
                    _ => self.finish(Ok(())),
                }
            },
            CreateStage::ProbingForSize => {
                match ev {
                    Event::Swaps(Ok(p)) => {
                        if p.largest_free_kb() >= self.required_kb {
                            self.stage = CreateStage::ProbingForPath;
                            Action::ProbeSwaps
                        } else {
                            self.to_subvolume_step()
                        }
                    },
                    Event::Swaps(Err(e)) => self.finish(Err(e)),
                    _ => self.finish(Ok(())),
                }
            },
            CreateStage::ProbingForPath => {
                match ev {
                    Event::Swaps(Ok(p)) => {
                        match p.largest_free_path() {
                            Some(path) => {
                                self.stage = CreateStage::Reusing;
                                Action::ConfigureResume { path }
                            },
                            None => self.to_subvolume_step(),
                        }
                    },
                    Event::Swaps(Err(e)) => self.finish(Err(e)),
                    _ => self.finish(Ok(())),
                }
            },
            CreateStage::Reusing => {
                match ev {
                    Event::Completed(r) => self.finish(r),
                    _ => self.finish(Ok(())),
                }
            },
            CreateStage::EnsuringSubvolume => {
                match ev {
                    Event::Completed(Err(e)) => self.finish(Err(e)),
                    _ => {
                        self.stage = CreateStage::ReadingFreeSpace;
                        Action::ReadFreeSpace { path: self.swap_dir.clone() }
                    },
                }
            },
            CreateStage::ReadingFreeSpace => {
                let stat = match ev {
                    Event::Space(s) => s,
                    _ => Err(String::new()),
                };
                match BtrfsOps::check_free_space(self.swap_dir.as_str(), self.required_kb * 1024, stat) {
                    Ok(_) => {
                        self.stage = CreateStage::CheckingStaleFile;
                        Action::PathExists { path: self.swap_file.clone() }
                    },
                    Err(e) => self.finish(Err(e)),
                }
            },
            CreateStage::CheckingStaleFile => {
                if let Event::Flag(true) = ev {
                    self.stage = CreateStage::StoppingStaleFile;
                    run_swap_tool(TOOL_SWAPOFF, self.swap_file.as_str())
                } else {
                    self.to_make_step()
                }
            },
            CreateStage::StoppingStaleFile => {
                self.stage = CreateStage::RemovingStaleFile;
                Action::RemoveFile { path: self.swap_file.clone() }
            },
            CreateStage::RemovingStaleFile => {
                match ev {
                    Event::Done(Err(m)) => self.finish(
                        Err(HibernateError::new(ErrorKind::SwapfileCreationFailed, m)),
                    ),
                    _ => self.to_make_step(),
                }
            },
            CreateStage::MakingSwapfile => {
                match ev {
                    Event::Completed(Err(e)) => self.finish(Err(e)),
                    _ => {
                        self.stage = CreateStage::Activating;
                        run_swap_tool(TOOL_SWAPON, self.swap_file.as_str())
                    },
                }
            },
            CreateStage::Activating => {
                let ran = match ev {
                    Event::Ran(r) => r,
                    _ => Err(String::new()),
                };
                match swapon_verdict(self.swap_file.as_str(), ran) {
                    Ok(_) => {
                        self.stage = CreateStage::ConfiguringResume;
                        Action::ConfigureResume { path: self.swap_file.clone() }
                    },
                    Err(e) => {
                        self.pending = Some(e);
                        self.stage = CreateStage::DiscardingUnactivated;
                        Action::RemoveFile { path: self.swap_file.clone() }
                    },
                }
            },
            CreateStage::ConfiguringResume => {
                match ev {
                    Event::Completed(Err(e)) => {
                        self.pending = Some(e);
                        self.stage = CreateStage::DeactivatingUnconfigured;
                        run_swap_tool(TOOL_SWAPOFF, self.swap_file.as_str())
                    },
                    _ => {
                        self.stage = CreateStage::WritingMetadata;
                        Action::WriteMetadata {
                            path: self.meta_file.clone(),
                            swap_file: self.swap_file.clone(),
                            old_resume: self.old_resume.clone(),
                            old_resume_offset: self.old_resume_offset.clone(),
                        }
                    },
                }
            },
            CreateStage::DeactivatingUnconfigured => {
                self.stage = CreateStage::RemovingUnconfigured;
                Action::RemoveFile { path: self.swap_file.clone() }
            },
            CreateStage::DiscardingUnactivated | CreateStage::RemovingUnconfigured => {
                self.take_pending()
            },
            CreateStage::WritingMetadata => {
                match ev {
                    Event::Completed(Err(e)) => self.finish(Err(e)),
                    _ => {
                        self.stage = CreateStage::HidingBootMenu;
                        Action::HideBootMenu
                    },
                }
            },
            _ => self.finish(Ok(())),
        }
    }
}

impl SwapManager {
    /// Starts preparing a swapfile and the kernel resume pointers (run before
    /// hibernation): the first request asks whether `swapon` is in `PATH`.
    pub fn create(&self) -> (r: (CreateRun, Action))
        ensures
            r.0.stage == CreateStage::LocatingSwapon,
            r.0.swap_dir == self.swap_dir,
            r.0.swap_file == self.swap_file,
            r.0.meta_file == self.meta_file,
            r.0.wf(),
            locates(r.1, TOOL_SWAPON@),
    {
        (
            CreateRun {
                swap_dir: self.swap_dir.clone(),
                swap_file: self.swap_file.clone(),
                meta_file: self.meta_file.clone(),
                old_resume: String::new(),
                old_resume_offset: String::new(),
                required_kb: 0,
                pending: None,
                stage: CreateStage::LocatingSwapon,
            },
            Action::LocateTool { name: TOOL_SWAPON.to_string() },
        )
    }
}


// ── cleanup ───────────────────────────────────────────────────────────────────

#[derive(Debug, Clone, Copy, PartialEq, Eq, Structural)]
pub enum CleanupStage {
    CheckingMetadata,
    ReadingMetadata,
    CheckingSwapfile,
    StoppingSwapfile,
    RemovingSwapfile,
    RestoringResume,
    RestoringOffset,
    ZeroingImageSize,
    RemovingMetadata,
    RestoringBootMenu,
    Finished,
}

/// Removes the swapfile and restores kernel state after resume.
///
/// Without metadata there is nothing to clean up. Otherwise the recorded
/// swapfile (when it still exists) is deactivated and removed, the recorded
/// resume pointers are written back, `image_size` is set to 0, the metadata
/// is removed and the boot menu restored; the first failure ends the run.
#[derive(Debug)]
pub struct CleanupRun {
    pub meta_file: String,
    pub swap_file: String,
    pub old_resume: String,
    pub old_resume_offset: String,
    pub stage: CleanupStage,
}

impl CleanupRun {
    pub open spec fn expects(self, ev: Event) -> bool {
        match self.stage {
            CleanupStage::CheckingMetadata => ev is Flag,
            CleanupStage::ReadingMetadata => ev is Metadata,
            CleanupStage::CheckingSwapfile => ev is Flag,
            CleanupStage::StoppingSwapfile => ev is Ran,
            CleanupStage::RemovingSwapfile => ev is Done,
            CleanupStage::RestoringResume => ev is Done,
            CleanupStage::RestoringOffset => ev is Done,
            CleanupStage::ZeroingImageSize => ev is Done,
            CleanupStage::RemovingMetadata => ev is Done,
            CleanupStage::RestoringBootMenu => ev is Acknowledged,
            CleanupStage::Finished => false,
        }
    }

    /// What the run holds besides its stage stays.
    pub open spec fn same_record(pre: Self, post: Self) -> bool {
        &&& post.meta_file == pre.meta_file
        &&& post.swap_file == pre.swap_file
        &&& post.old_resume == pre.old_resume
        &&& post.old_resume_offset == pre.old_resume_offset
    }

    /// The step that writes back the recorded resume device.
    pub open spec fn to_restore(pre: Self, post: Self, a: Action) -> bool {
        &&& post.stage == CleanupStage::RestoringResume
        &&& a matches Action::WriteSysfs { write } && is_write(
            write,
            SYS_RESUME@,
            pre.old_resume@,
            ErrorKind::CleanupFailed,
            "restore /sys/power/resume"@,
        )
    }

    pub open spec fn transition(pre: Self, ev: Event, post: Self, a: Action) -> bool {
        &&& post.meta_file == pre.meta_file
        &&& match (pre.stage, ev) {
            (CleanupStage::CheckingMetadata, Event::Flag(exists)) => if exists {
                &&& post.stage == CleanupStage::ReadingMetadata
                &&& a matches Action::ReadMetadata { path } && path@ == pre.meta_file@
            } else {
                post.stage == CleanupStage::Finished && succeeds(a)
            },
            (CleanupStage::ReadingMetadata, Event::Metadata(r)) => match r {
                Ok(m) => {
                    &&& post.stage == CleanupStage::CheckingSwapfile
                    &&& post.swap_file@ == m.swap_file@
                    &&& post.old_resume@ == m.old_resume@
                    &&& post.old_resume_offset@ == m.old_resume_offset@
                    &&& checks_exists(a, m.swap_file@)
                },
                Err(e) => post.stage == CleanupStage::Finished && finishes_with(a, e),
            },
            (CleanupStage::CheckingSwapfile, Event::Flag(exists)) => {
                &&& Self::same_record(pre, post)
                &&& if exists {
                    post.stage == CleanupStage::StoppingSwapfile && runs_swap_tool(
                        a,
                        TOOL_SWAPOFF@,
                        pre.swap_file@,
                    )
                } else {
                    Self::to_restore(pre, post, a)
                }
            },
            (CleanupStage::StoppingSwapfile, Event::Ran(_)) => {
                &&& Self::same_record(pre, post)
                &&& post.stage == CleanupStage::RemovingSwapfile
                &&& removes_file(a, pre.swap_file@)
            },
            (CleanupStage::RemovingSwapfile, Event::Done(r)) => match r {
                Ok(_) => Self::same_record(pre, post) && Self::to_restore(pre, post, a),
                Err(m) => post.stage == CleanupStage::Finished && fails_because(
                    a,
                    ErrorKind::CleanupFailed,
                    "remove swapfile"@,
                    m,
                ),
            },
            (CleanupStage::RestoringResume, Event::Done(r)) => match r {
                Ok(_) => {
                    &&& Self::same_record(pre, post)
                    &&& post.stage == CleanupStage::RestoringOffset
                    &&& a matches Action::WriteSysfs { write } && is_write(
                        write,
                        SYS_RESUME_OFFSET@,
                        pre.old_resume_offset@,
                        ErrorKind::CleanupFailed,
                        "restore /sys/power/resume_offset"@,
                    )
                },
                Err(m) => post.stage == CleanupStage::Finished && fails_because(
                    a,
                    ErrorKind::CleanupFailed,
                    "restore /sys/power/resume"@,
                    m,
                ),
            },
            (CleanupStage::RestoringOffset, Event::Done(r)) => match r {
                Ok(_) => {
                    &&& Self::same_record(pre, post)
                    &&& post.stage == CleanupStage::ZeroingImageSize
                    &&& writes_sysfs(a, SYS_IMAGE_SIZE@, "0\n"@)
                },
                Err(m) => post.stage == CleanupStage::Finished && fails_because(
                    a,
                    ErrorKind::CleanupFailed,
                    "restore /sys/power/resume_offset"@,
                    m,
                ),
            },
            (CleanupStage::ZeroingImageSize, Event::Done(r)) => match r {
                Ok(_) => {
                    &&& Self::same_record(pre, post)
                    &&& post.stage == CleanupStage::RemovingMetadata
                    &&& removes_file(a, pre.meta_file@)
                },
                Err(m) => post.stage == CleanupStage::Finished && fails_because(
                    a,
                    ErrorKind::ResumeConfigFailed,
                    "write /sys/power/image_size"@,
                    m,
                ),
            },
            (CleanupStage::RemovingMetadata, Event::Done(r)) => match r {
                Ok(_) => Self::same_record(pre, post) && post.stage == CleanupStage::RestoringBootMenu
                    && a == Action::RestoreBootMenu,
                Err(m) => post.stage == CleanupStage::Finished && fails_because(
                    a,
                    ErrorKind::CleanupFailed,
                    "remove metadata"@,
                    m,
                ),
            },
            (CleanupStage::RestoringBootMenu, Event::Acknowledged) => {
                post.stage == CleanupStage::Finished && succeeds(a)
            },
            _ => false,
        }
    }

    fn fail(&mut self, kind: ErrorKind, msg: &str) -> (a: Action)
        ensures
            final(self).meta_file == old(self).meta_file,
            final(self).stage == CleanupStage::Finished,
            fails_with(a, kind, msg@),
    {
        self.stage = CleanupStage::Finished;
        Action::Finish { result: Err(HibernateError::new(kind, msg.to_string())) }
    }

    fn fail_because(&mut self, kind: ErrorKind, msg: &str, cause: String) -> (a: Action)
        ensures
            final(self).meta_file == old(self).meta_file,
            final(self).stage == CleanupStage::Finished,
            fails_because(a, kind, msg@, cause),
    {
        self.stage = CleanupStage::Finished;
        Action::Finish { result: Err(HibernateError::with_cause(kind, msg.to_string(), cause)) }
    }

    fn restore_step(&mut self) -> (a: Action)
        ensures
            Self::same_record(*old(self), *final(self)),
            Self::to_restore(*old(self), *final(self), a),
    {
        let plan = ResumeParams::restore(self.old_resume.as_str(), self.old_resume_offset.as_str());
        self.stage = CleanupStage::RestoringResume;
        Action::WriteSysfs { write: plan[0].clone() }
    }

    pub fn step(&mut self, ev: Event) -> (a: Action)
        requires
            old(self).expects(ev),
        ensures
            Self::transition(*old(self), ev, *final(self), a),
    {
        match self.stage {
            CleanupStage::CheckingMetadata => {
                if let Event::Flag(true) = ev {
                    self.stage = CleanupStage::ReadingMetadata;
                    Action::ReadMetadata { path: self.meta_file.clone() }
                } else {
                    self.stage = CleanupStage::Finished;
                    Action::Finish { result: Ok(()) }
                }
            },
            CleanupStage::ReadingMetadata => {
                match ev {
                    Event::Metadata(Ok(m)) => {
                        self.swap_file = m.swap_file;
                        self.old_resume = m.old_resume;
                        self.old_resume_offset = m.old_resume_offset;
                        self.stage = CleanupStage::CheckingSwapfile;
                        Action::PathExists { path: self.swap_file.clone() }
                    },
                    Event::Metadata(Err(e)) => {
                        self.stage = CleanupStage::Finished;
                        Action::Finish { result: Err(e) }
                    },
                    _ => self.fail(ErrorKind::Unknown, ""),
                }
            },
            CleanupStage::CheckingSwapfile => {
                if let Event::Flag(true) = ev {
                    self.stage = CleanupStage::StoppingSwapfile;
                    run_swap_tool(TOOL_SWAPOFF, self.swap_file.as_str())
                } else {
                    self.restore_step()
                }
            },
            CleanupStage::StoppingSwapfile => {
                self.stage = CleanupStage::RemovingSwapfile;
                Action::RemoveFile { path: self.swap_file.clone() }
            },
            CleanupStage::RemovingSwapfile => {
                match ev {
                    Event::Done(Err(m)) => self.fail_because(ErrorKind::CleanupFailed, "remove swapfile", m),
                    _ => self.restore_step(),
                }
            },
            CleanupStage::RestoringResume => {
                match ev {
                    Event::Done(Err(m)) => self.fail_because(
                        ErrorKind::CleanupFailed,
                        "restore /sys/power/resume",
                        m,
                    ),
                    _ => {
                        let plan = ResumeParams::restore(
                            self.old_resume.as_str(),
                            self.old_resume_offset.as_str(),
                        );
                        self.stage = CleanupStage::RestoringOffset;
                        Action::WriteSysfs { write: plan[1].clone() }
                    },
                }
            },
            CleanupStage::RestoringOffset => {
                match ev {
                    Event::Done(Err(m)) => self.fail_because(
                        ErrorKind::CleanupFailed,
                        "restore /sys/power/resume_offset",
                        m,
                    ),
                    _ => {
                        self.stage = CleanupStage::ZeroingImageSize;
                        Action::WriteSysfs { write: ImageSize::set_zero() }
                    },
                }
            },
            CleanupStage::ZeroingImageSize => {
                match ev {
                    Event::Done(Err(m)) => self.fail_because(
                        ErrorKind::ResumeConfigFailed,
                        "write /sys/power/image_size",
                        m,
                    ),
                    _ => {
                        self.stage = CleanupStage::RemovingMetadata;
                        Action::RemoveFile { path: self.meta_file.clone() }
                    },
                }
            },
            CleanupStage::RemovingMetadata => {
                match ev {
                    Event::Done(Err(m)) => self.fail_because(ErrorKind::CleanupFailed, "remove metadata", m),
                    _ => {
                        self.stage = CleanupStage::RestoringBootMenu;
                        Action::RestoreBootMenu
                    },
                }
            },
            _ => {
                self.stage = CleanupStage::Finished;
                Action::Finish { result: Ok(()) }
            },
        }
    }
}

impl SwapManager {
    /// Starts removing the swapfile and restoring kernel state after resume:
    /// the first request asks whether the metadata file exists.
    pub fn cleanup(&self) -> (r: (CleanupRun, Action))
        ensures
            r.0.stage == CleanupStage::CheckingMetadata,
            r.0.meta_file == self.meta_file,
            checks_exists(r.1, self.meta_file@),
    {
        (
            CleanupRun {
                meta_file: self.meta_file.clone(),
                swap_file: String::new(),
                old_resume: String::new(),
                old_resume_offset: String::new(),
                stage: CleanupStage::CheckingMetadata,
            },
            Action::PathExists { path: self.meta_file.clone() },
        )
    }
}


// ── status ────────────────────────────────────────────────────────────────────

/// The first line of the status report.
pub open spec fn status_header() -> Seq<char> {
    "=== dynamic-hibernate status ==="@
}

/// The report line of one swap entry.
pub open spec fn swap_line_text(e: EntryView) -> Seq<char> {
    "Swap        : "@ + e.0 + " — "@ + decimal(free_of(e) as nat) + "/"@ + decimal(e.1 as nat)
        + " KB free"@
}

/// The report lines of some swap entries, one each.
pub open spec fn entry_lines(es: Seq<EntryView>) -> Seq<Seq<char>> {
    es.map_values(|e: EntryView| swap_line_text(e))
}

/// The report lines of the active swap entries.
pub open spec fn swap_lines(es: Seq<EntryView>) -> Seq<Seq<char>> {
    if es.len() == 0 {
        seq!["Active swap : none"@]
    } else {
        entry_lines(es)
    }
}

/// The report lines of readable metadata.
pub open spec fn metadata_lines(m: SwapMetadata) -> Seq<Seq<char>> {
    seq![
        "Swapfile    : "@ + m.swap_file@,
        "Created at  : "@ + signed_decimal(m.created_at as int) + " (unix)"@,
        "Old resume  : "@ + m.old_resume@ + " @ "@ + m.old_resume_offset@,
    ]
}

/// The report line of unreadable metadata.
pub open spec fn corrupt_metadata_line(e: HibernateError) -> Seq<char> {
    "Metadata    : corrupt — "@ + error_text(e.kind, e.message@)
}

/// The report line of a size estimate, its megabytes written as `mb`.
pub open spec fn estimate_line(kb: u64, mb: Seq<char>) -> Seq<char> {
    "Estimate    : "@ + decimal(kb as nat) + " KB  ("@ + mb + " MB)"@
}

/// The report line of a failed size estimate.
pub open spec fn estimate_failed_line(e: HibernateError) -> Seq<char> {
    "Estimate    : unavailable — "@ + error_text(e.kind, e.message@)
}

/// A compressor name as the report shows it, `?` when unreadable.
pub open spec fn shown_compressor(raw: Option<String>) -> Seq<char> {
    match compressor_name(raw) {
        Some(n) => n,
        None => "?"@,
    }
}

/// The report line comparing the compressors: aligned exactly when both are
/// readable and the same.
pub open spec fn compressor_line(z: ZswapProbe) -> Seq<char> {
    let zs = shown_compressor(z.zswap_compressor_file);
    let hs = shown_compressor(z.hibernate_compressor_file);
    "Compressors : zswap="@ + zs + "  hibernate="@ + hs + "  "@ + if z.aligned() {
        "✓ aligned"@
    } else {
        "✗ MISMATCH — ratio unusable"@
    }
}

fn push_text(lines: &mut Vec<String>, s: String)
    ensures
        texts(*final(lines)) == texts(*old(lines)).push(s@),
{
    lines.push(s);
    assert(texts(*lines) =~= texts(*old(lines)).push(s@));
}

fn swap_entry_line(e: &SwapEntry) -> (s: String)
    ensures
        s@ == swap_line_text(entry_view(*e)),
{
    let mut s = String::from_str("Swap        : ");
    s.append(e.path.as_str());
    s.append(" — ");
    let f = decimal_string(e.free_kb());
    s.append(f.as_str());
    s.append("/");
    let z = decimal_string(e.size_kb);
    s.append(z.as_str());
    s.append(" KB free");
    s
}

fn error_line(prefix: &str, e: &HibernateError) -> (s: String)
    ensures
        s@ == prefix@ + error_text(e.kind, e.message@),
{
    let mut s = String::from_str(prefix);
    let t = e.to_display_string();
    s.append(t.as_str());
    s
}

fn compressor_shown(c: Option<String>) -> (s: String)
    ensures
        s@ == match opt_view(c) {
            Some(n) => n,
            None => "?"@,
        },
{
    match c {
        Some(n) => n,
        None => "?".to_string(),
    }
}

#[derive(Debug, Clone, Copy, PartialEq, Eq, Structural)]
pub enum StatusStage {
    ProbingSwaps,
    CheckingMetadata,
    ReadingMetadata,
    Estimating,
    FormattingEstimate,
    ReadingCompressors,
    Printing,
    Finished,
}

/// Prints the current hibernate state and size estimate: the active swap,
/// the metadata, the size estimate and the compressor alignment. Only an
/// unreadable `/proc/swaps` is an error (the header is printed first).
#[derive(Debug)]
pub struct StatusReport {
    pub meta_file: String,
    pub lines: Vec<String>,
    pub estimate_kb: u64,
    pub pending: Option<HibernateError>,
    pub stage: StatusStage,
}

impl StatusReport {
    pub open spec fn expects(self, ev: Event) -> bool {
        match self.stage {
            StatusStage::ProbingSwaps => ev is Swaps,
            StatusStage::CheckingMetadata => ev is Flag,
            StatusStage::ReadingMetadata => ev is Metadata,
            StatusStage::Estimating => ev is Size,
            StatusStage::FormattingEstimate => ev is Formatted,
            StatusStage::ReadingCompressors => ev is Zswap,
            StatusStage::Printing => ev is Acknowledged,
            StatusStage::Finished => false,
        }
    }

    /// The report grows by `more` lines; the rest of the run stays.
    pub open spec fn adds(pre: Self, post: Self, more: Seq<Seq<char>>) -> bool {
        &&& texts(post.lines) == texts(pre.lines) + more
        &&& post.pending == pre.pending
    }

    pub open spec fn transition(pre: Self, ev: Event, post: Self, a: Action) -> bool {
        &&& post.meta_file == pre.meta_file
        &&& match (pre.stage, ev) {
            (StatusStage::ProbingSwaps, Event::Swaps(Err(e))) => {
                &&& post.stage == StatusStage::Printing
                &&& post.pending == Some(e)
                &&& a matches Action::Print { lines } && texts(lines) == texts(pre.lines)
            },
            (StatusStage::ProbingSwaps, Event::Swaps(Ok(p))) => {
                &&& post.stage == StatusStage::CheckingMetadata
                &&& Self::adds(pre, post, swap_lines(p.listed()))
                &&& checks_exists(a, pre.meta_file@)
            },
            (StatusStage::CheckingMetadata, Event::Flag(exists)) => if exists {
                &&& post.stage == StatusStage::ReadingMetadata
                &&& Self::adds(pre, post, Seq::empty())
                &&& a matches Action::ReadMetadata { path } && path@ == pre.meta_file@
            } else {
                &&& post.stage == StatusStage::Estimating
                &&& Self::adds(pre, post, seq!["Metadata    : none"@])
                &&& a == Action::EstimateSize
            },
            (StatusStage::ReadingMetadata, Event::Metadata(r)) => {
                &&& post.stage == StatusStage::Estimating
                &&& a == Action::EstimateSize
                &&& match r {
                    Ok(m) => Self::adds(pre, post, metadata_lines(m)),
                    Err(e) => Self::adds(pre, post, seq![corrupt_metadata_line(e)]),
                }
            },
            (StatusStage::Estimating, Event::Size(r)) => match r {
                Ok(kb) => {
                    &&& post.stage == StatusStage::FormattingEstimate
                    &&& post.estimate_kb == kb
                    &&& Self::adds(pre, post, Seq::empty())
                    &&& a == Action::FormatMegabytes { kb }
                },
                Err(e) => {
                    &&& post.stage == StatusStage::ReadingCompressors
                    &&& Self::adds(pre, post, seq![estimate_failed_line(e)])
                    &&& a == Action::ProbeZswap
                },
            },
            (StatusStage::FormattingEstimate, Event::Formatted(mb)) => {
                &&& post.stage == StatusStage::ReadingCompressors
                &&& Self::adds(pre, post, seq![estimate_line(pre.estimate_kb, mb@)])
                &&& a == Action::ProbeZswap
            },
            (StatusStage::ReadingCompressors, Event::Zswap(z)) => {
                &&& post.stage == StatusStage::Printing
                &&& post.pending == pre.pending
                &&& a matches Action::Print { lines } && texts(lines) == texts(pre.lines).push(
                    compressor_line(z),
                )
            },
            (StatusStage::Printing, Event::Acknowledged) => {
                &&& post.stage == StatusStage::Finished
                &&& match pre.pending {
                    Some(e) => finishes_with(a, e),
                    None => succeeds(a),
                }
            },
            _ => false,
        }
    }

    fn print(&mut self) -> (a: Action)
        ensures
            final(self).meta_file == old(self).meta_file,
            final(self).pending == old(self).pending,
            final(self).stage == StatusStage::Printing,
            a matches Action::Print { lines } && texts(lines) == texts(old(self).lines),
    {
        let mut lines: Vec<String> = Vec::new();
        std::mem::swap(&mut lines, &mut self.lines);
        self.stage = StatusStage::Printing;
        Action::Print { lines }
    }

    pub fn step(&mut self, ev: Event) -> (a: Action)
        requires
            old(self).expects(ev),
        ensures
            Self::transition(*old(self), ev, *final(self), a),
    {
        match ev {
            Event::Swaps(Err(e)) => {
                self.pending = Some(e);
                self.print()
            },
            Event::Swaps(Ok(p)) => {
                let es = p.entries();
                let ghost ev_view = es@.map_values(|e: SwapEntry| entry_view(e));
                if es.len() == 0 {
                    push_text(&mut self.lines, "Active swap : none".to_string());
                    assert(ev_view.len() == 0);
                    assert(swap_lines(p.listed()) =~= seq!["Active swap : none"@]);
                    assert(texts(self.lines) =~= texts(old(self).lines) + swap_lines(p.listed()));
                } else {
                    let ghost start = texts(self.lines);
                    let mut i: usize = 0;
                    while i < es.len()
                        invariant
                            i <= es@.len(),
                            ev_view == es@.map_values(|e: SwapEntry| entry_view(e)),
                            texts(self.lines) == start + entry_lines(ev_view.take(i as int)),
                            self.meta_file == old(self).meta_file,
                            self.pending == old(self).pending,
                        decreases es@.len() - i,
                    {
                        let line = swap_entry_line(&es[i]);
                        push_text(&mut self.lines, line);
                        assert(entry_lines(ev_view.take(i + 1)) =~= entry_lines(ev_view.take(i as int)).push(
                            swap_line_text(ev_view[i as int]),
                        ));
                        i = i + 1;
                    }
                    assert(ev_view.take(es@.len() as int) =~= ev_view);
                    assert(swap_lines(p.listed()) == entry_lines(ev_view));
                    assert(texts(self.lines) == texts(old(self).lines) + swap_lines(p.listed()));
                }
                self.stage = StatusStage::CheckingMetadata;
                let a = Action::PathExists { path: self.meta_file.clone() };
                assert(Self::adds(*old(self), *self, swap_lines(p.listed())));
                a
            },
            Event::Flag(true) => {
                self.stage = StatusStage::ReadingMetadata;
                assert(texts(self.lines) =~= texts(self.lines) + Seq::<Seq<char>>::empty());
                Action::ReadMetadata { path: self.meta_file.clone() }
            },
            Event::Flag(false) => {
                push_text(&mut self.lines, "Metadata    : none".to_string());
                assert(texts(self.lines) =~= texts(old(self).lines) + seq!["Metadata    : none"@]);
                self.stage = StatusStage::Estimating;
                Action::EstimateSize
            },
            Event::Metadata(Ok(m)) => {
                let mut l1 = String::from_str("Swapfile    : ");
                l1.append(m.swap_file.as_str());
                push_text(&mut self.lines, l1);
                let mut l2 = String::from_str("Created at  : ");
                let c = signed_decimal_string(m.created_at);
                l2.append(c.as_str());
                l2.append(" (unix)");
                push_text(&mut self.lines, l2);
                let mut l3 = String::from_str("Old resume  : ");
                l3.append(m.old_resume.as_str());
                l3.append(" @ ");
                l3.append(m.old_resume_offset.as_str());
                push_text(&mut self.lines, l3);
                assert(texts(self.lines) =~= texts(old(self).lines) + metadata_lines(m));
                self.stage = StatusStage::Estimating;
                Action::EstimateSize
            },
            Event::Metadata(Err(e)) => {
                let l = error_line("Metadata    : corrupt — ", &e);
                push_text(&mut self.lines, l);
                assert(texts(self.lines) =~= texts(old(self).lines) + seq![corrupt_metadata_line(e)]);
                self.stage = StatusStage::Estimating;
                Action::EstimateSize
            },
            Event::Size(Ok(kb)) => {
                self.estimate_kb = kb;
                self.stage = StatusStage::FormattingEstimate;
                assert(texts(self.lines) =~= texts(self.lines) + Seq::<Seq<char>>::empty());
                Action::FormatMegabytes { kb }
            },
            Event::Size(Err(e)) => {
                let l = error_line("Estimate    : unavailable — ", &e);
                push_text(&mut self.lines, l);
                assert(texts(self.lines) =~= texts(old(self).lines) + seq![estimate_failed_line(e)]);
                self.stage = StatusStage::ReadingCompressors;
                Action::ProbeZswap
            },
            Event::Formatted(mb) => {
                let mut l = String::from_str("Estimate    : ");
                let k = decimal_string(self.estimate_kb);
                l.append(k.as_str());
                l.append(" KB  (");
                l.append(mb.as_str());
                l.append(" MB)");
                push_text(&mut self.lines, l);
                assert(texts(self.lines) =~= texts(old(self).lines) + seq![
                    estimate_line(self.estimate_kb, mb@),
                ]);
                self.stage = StatusStage::ReadingCompressors;
                Action::ProbeZswap
            },
            Event::Zswap(z) => {
                let zs = compressor_shown(z.zswap_compressor());
                let hs = compressor_shown(z.hibernate_compressor());
                let mut l = String::from_str("Compressors : zswap=");
                l.append(zs.as_str());
                l.append("  hibernate=");
                l.append(hs.as_str());
                l.append("  ");
                if z.compressors_aligned() {
                    l.append("✓ aligned");
                } else {
                    l.append("✗ MISMATCH — ratio unusable");
                }
                push_text(&mut self.lines, l);
                assert(texts(self.lines) == texts(old(self).lines).push(compressor_line(z)));
                self.print()
            },
            _ => {
                self.stage = StatusStage::Finished;
                match &self.pending {
                    Some(e) => Action::Finish { result: Err(e.clone()) },
                    None => Action::Finish { result: Ok(()) },
                }
            },
        }
    }
}

impl SwapManager {
    /// Starts the status report: the header is its first line, and the first
    /// request reads `/proc/swaps`.
    pub fn status(&self) -> (r: (StatusReport, Action))
        ensures
            r.0.stage == StatusStage::ProbingSwaps,
            r.0.meta_file == self.meta_file,
            r.0.pending is None,
            texts(r.0.lines) == seq![status_header()],
            r.1 == Action::ProbeSwaps,
    {
        let mut lines: Vec<String> = Vec::new();
        push_text(&mut lines, "=== dynamic-hibernate status ===".to_string());
        assert(texts(lines) =~= seq![status_header()]);
        (
            StatusReport {
                meta_file: self.meta_file.clone(),
                lines,
                estimate_kb: 0,
                pending: None,
                stage: StatusStage::ProbingSwaps,
            },
            Action::ProbeSwaps,
        )
    }
}


// ── laws ──────────────────────────────────────────────────────────────────────

impl CreateRun {
    /// How many answers the run can still take at most.
    pub open spec fn rank(self) -> nat {
        match self.stage {
            CreateStage::LocatingSwapon => 24,
            CreateStage::LocatingSwapoff => 23,
            CreateStage::LocatingBtrfs => 22,
            CreateStage::CheckingCompressors => 21,
            CreateStage::ReadingResume => 20,
            CreateStage::ReadingResumeOffset => 19,
            CreateStage::ZeroingImageSize => 18,
            CreateStage::Estimating => 17,
            CreateStage::ProbingForSize => 16,
            CreateStage::ProbingForPath => 15,
            CreateStage::Reusing => 14,
            CreateStage::EnsuringSubvolume => 13,
            CreateStage::ReadingFreeSpace => 12,
            CreateStage::CheckingStaleFile => 11,
            CreateStage::StoppingStaleFile => 10,
            CreateStage::RemovingStaleFile => 9,
            CreateStage::MakingSwapfile => 8,
            CreateStage::Activating => 7,
            CreateStage::DiscardingUnactivated => 6,
            CreateStage::ConfiguringResume => 5,
            CreateStage::DeactivatingUnconfigured => 4,
            CreateStage::RemovingUnconfigured => 3,
            CreateStage::WritingMetadata => 2,
            CreateStage::HidingBootMenu => 1,
            CreateStage::Finished => 0,
        }
    }
}

impl CleanupRun {
    /// How many answers the run can still take at most.
    pub open spec fn rank(self) -> nat {
        match self.stage {
            CleanupStage::CheckingMetadata => 10,
            CleanupStage::ReadingMetadata => 9,
            CleanupStage::CheckingSwapfile => 8,
            CleanupStage::StoppingSwapfile => 7,
            CleanupStage::RemovingSwapfile => 6,
            CleanupStage::RestoringResume => 5,
            CleanupStage::RestoringOffset => 4,
            CleanupStage::ZeroingImageSize => 3,
            CleanupStage::RemovingMetadata => 2,
            CleanupStage::RestoringBootMenu => 1,
            CleanupStage::Finished => 0,
        }
    }
}

impl StatusReport {
    /// How many answers the report can still take at most.
    pub open spec fn rank(self) -> nat {
        match self.stage {
            StatusStage::ProbingSwaps => 7,
            StatusStage::CheckingMetadata => 6,
            StatusStage::ReadingMetadata => 5,
            StatusStage::Estimating => 4,
            StatusStage::FormattingEstimate => 3,
            StatusStage::ReadingCompressors => 2,
            StatusStage::Printing => 1,
            StatusStage::Finished => 0,
        }
    }
}

/// Every answer moves `create` forward: it ends after a bounded number of
/// requests, and it has ended exactly when it asks to finish.
pub proof fn law_create_terminates(pre: CreateRun, ev: Event, post: CreateRun, a: Action)
    requires
        CreateRun::transition(pre, ev, post, a),
    ensures
        post.rank() < pre.rank(),
        post.stage == CreateStage::Finished <==> a is Finish,
{
}

/// A swapfile whose activation failed is removed, and the activation failure
/// is what `create` reports.
pub proof fn law_failed_activation_removes_swapfile(
    s0: CreateRun,
    ev1: Event,
    s1: CreateRun,
    a1: Action,
    ev2: Event,
    s2: CreateRun,
    a2: Action,
)
    requires
        s0.stage == CreateStage::Activating,
        ev1 matches Event::Ran(r) && swapon_report(s0.swap_file@, r) is Err,
        CreateRun::transition(s0, ev1, s1, a1),
        CreateRun::transition(s1, ev2, s2, a2),
    ensures
        removes_file(a1, s0.swap_file@),
        a2 matches Action::Finish { result: Err(e) } && e.kind == ErrorKind::SwapfileActivationFailed,
{
}

/// An activated swapfile whose resume pointers could not be set is
/// deactivated and removed, and the resume failure is what `create` reports.
pub proof fn law_failed_resume_undoes_swapfile(
    s0: CreateRun,
    e: HibernateError,
    s1: CreateRun,
    a1: Action,
    ev2: Event,
    s2: CreateRun,
    a2: Action,
    ev3: Event,
    s3: CreateRun,
    a3: Action,
)
    requires
        s0.stage == CreateStage::ConfiguringResume,
        CreateRun::transition(s0, Event::Completed(Err(e)), s1, a1),
        CreateRun::transition(s1, ev2, s2, a2),
        CreateRun::transition(s2, ev3, s3, a3),
    ensures
        runs_swap_tool(a1, TOOL_SWAPOFF@, s0.swap_file@),
        removes_file(a2, s0.swap_file@),
        finishes_with(a3, e),
{
}

/// An existing non-zram swap whose free space covers the estimate is used
/// for resume (the one with the most free space) instead of making a file.
pub proof fn law_existing_swap_reused(
    s0: CreateRun,
    p1: SwapProbe,
    s1: CreateRun,
    a1: Action,
    p2: SwapProbe,
    s2: CreateRun,
    a2: Action,
)
    requires
        s0.stage == CreateStage::ProbingForSize,
        max_free(p1.listed()) >= s0.required_kb,
        best_index(p2.listed()) is Some,
        CreateRun::transition(s0, Event::Swaps(Ok(p1)), s1, a1),
        CreateRun::transition(s1, Event::Swaps(Ok(p2)), s2, a2),
    ensures
        a1 == Action::ProbeSwaps,
        s2.stage == CreateStage::Reusing,
        best_index(p2.listed()) matches Some(b) && (a2 matches Action::ConfigureResume { path }
            && path@ == p2.listed()[b].0),
{
}

/// The metadata is written only once the swapfile's resume pointers are set,
/// and it records the pointers saved at the start; `create` succeeds only
/// after that (or after reusing an existing swap successfully).
pub proof fn law_metadata_after_resume(pre: CreateRun, ev: Event, post: CreateRun, a: Action)
    requires
        CreateRun::transition(pre, ev, post, a),
    ensures
        a is WriteMetadata ==> (pre.stage == CreateStage::ConfiguringResume && (ev matches Event::Completed(Ok(_)))),
        a matches Action::WriteMetadata { old_resume, old_resume_offset, .. } ==> (old_resume@
            == pre.old_resume@ && old_resume_offset@ == pre.old_resume_offset@),
        succeeds(a) ==> (pre.stage == CreateStage::HidingBootMenu || (pre.stage
            == CreateStage::Reusing && (ev matches Event::Completed(Ok(_))))),
{
}

/// `image_size` is set to 0 (so the kernel drops reclaimable pages) before
/// the swapfile size is estimated, and a failure to do so ends `create`.
pub proof fn law_image_size_zeroed_before_estimate(pre: CreateRun, ev: Event, post: CreateRun, a: Action)
    requires
        CreateRun::transition(pre, ev, post, a),
    ensures
        a == Action::EstimateSize ==> (pre.stage == CreateStage::ZeroingImageSize && (ev matches Event::Done(
            Ok(_),
        ))),
        post.stage == CreateStage::ZeroingImageSize ==> writes_sysfs(a, SYS_IMAGE_SIZE@, "0\n"@),
        (pre.stage == CreateStage::ZeroingImageSize && (ev matches Event::Done(Err(_)))) ==> fails_with(
            a,
            ErrorKind::ResumeConfigFailed,
            "write /sys/power/image_size"@,
        ),
{
}

/// Consecutive steps of one `create` run: `runs[k]` answered `events[k]` with
/// `actions[k]`, becoming `runs[k + 1]`.
pub open spec fn create_trace(runs: Seq<CreateRun>, events: Seq<Event>, actions: Seq<Action>) -> bool {
    &&& runs.len() == events.len() + 1
    &&& actions.len() == events.len()
    &&& forall|k: int| 0 <= k < events.len() ==> #[trigger] create_step_at(runs, events, actions, k)
}

/// The `k`-th step of a `create` trace.
pub open spec fn create_step_at(runs: Seq<CreateRun>, events: Seq<Event>, actions: Seq<Action>, k: int) -> bool {
    CreateRun::transition(runs[k], events[k], runs[k + 1], actions[k])
}

/// A `create` run that succeeds with a new swapfile made it, activated it,
/// pointed the resume pointers at it, recorded the metadata and hid the boot
/// menu, in this order, as its last requests.
pub proof fn law_successful_create_order(runs: Seq<CreateRun>, events: Seq<Event>, actions: Seq<Action>)
    requires
        create_trace(runs, events, actions),
        runs[0].stage == CreateStage::LocatingSwapon,
        events.len() >= 1,
        succeeds(actions.last()),
        runs[events.len() - 1].stage == CreateStage::HidingBootMenu,
    ensures
        events.len() >= 6,
        actions[events.len() - 2] == Action::HideBootMenu,
        actions[events.len() - 3] is WriteMetadata,
        actions[events.len() - 4] matches Action::ConfigureResume { path } && path@
            == runs[0].swap_file@,
        runs_swap_tool(actions[events.len() - 5], TOOL_SWAPON@, runs[0].swap_file@),
        actions[events.len() - 6] matches Action::MakeSwapfile { path, .. } && path@
            == runs[0].swap_file@,
{
    let n = events.len() as int;
    assert forall|k: int| 0 <= k < runs.len() implies #[trigger] runs[k].swap_file == runs[0].swap_file by {
        lemma_trace_keeps_places(runs, events, actions, k);
    }
    assert(create_step_at(runs, events, actions, n - 1));
    assert(n >= 2);
    assert(create_step_at(runs, events, actions, n - 2));
    assert(runs[n - 2].stage == CreateStage::WritingMetadata);
    assert(n >= 3);
    assert(create_step_at(runs, events, actions, n - 3));
    assert(runs[n - 3].stage == CreateStage::ConfiguringResume);
    assert(n >= 4);
    assert(create_step_at(runs, events, actions, n - 4));
    assert(runs[n - 4].stage == CreateStage::Activating);
    assert(n >= 5);
    assert(create_step_at(runs, events, actions, n - 5));
    assert(runs[n - 5].stage == CreateStage::MakingSwapfile);
    assert(n >= 6);
    assert(create_step_at(runs, events, actions, n - 6));
}

proof fn lemma_trace_keeps_places(runs: Seq<CreateRun>, events: Seq<Event>, actions: Seq<Action>, k: int)
    requires
        create_trace(runs, events, actions),
        0 <= k < runs.len(),
    ensures
        runs[k].swap_file == runs[0].swap_file,
    decreases k,
{
    if k > 0 {
        lemma_trace_keeps_places(runs, events, actions, k - 1);
        assert(create_step_at(runs, events, actions, k - 1));
    }
}

/// Every answer moves `cleanup` forward; it has ended exactly when it asks
/// to finish.
pub proof fn law_cleanup_terminates(pre: CleanupRun, ev: Event, post: CleanupRun, a: Action)
    requires
        CleanupRun::transition(pre, ev, post, a),
    ensures
        post.rank() < pre.rank(),
        post.stage == CleanupStage::Finished <==> a is Finish,
{
}

/// Without metadata there is nothing to clean up: `cleanup` succeeds at once.
/// With metadata, the resume pointers written back are the ones it recorded,
/// and the metadata is removed only after they were restored and
/// `image_size` was reset.
pub proof fn law_cleanup_restores_recorded_state(pre: CleanupRun, ev: Event, post: CleanupRun, a: Action)
    requires
        CleanupRun::transition(pre, ev, post, a),
    ensures
        (pre.stage == CleanupStage::CheckingMetadata && ev == Event::Flag(false)) ==> succeeds(a),
        pre.stage == CleanupStage::ReadingMetadata ==> (ev matches Event::Metadata(Ok(m)) ==> (
        post.old_resume@ == m.old_resume@ && post.old_resume_offset@ == m.old_resume_offset@)),
        (pre.stage != CleanupStage::CheckingMetadata && pre.stage != CleanupStage::ReadingMetadata
            && post.stage != CleanupStage::Finished) ==> CleanupRun::same_record(pre, post),
        post.stage == CleanupStage::RestoringResume ==> writes_sysfs(a, SYS_RESUME@, pre.old_resume@),
        post.stage == CleanupStage::RestoringOffset ==> (pre.stage == CleanupStage::RestoringResume
            && writes_sysfs(a, SYS_RESUME_OFFSET@, pre.old_resume_offset@)),
        post.stage == CleanupStage::RemovingMetadata ==> (pre.stage == CleanupStage::ZeroingImageSize
            && (ev matches Event::Done(Ok(_)))),
        post.stage == CleanupStage::ZeroingImageSize ==> (pre.stage == CleanupStage::RestoringOffset
            && (ev matches Event::Done(Ok(_)))),
{
}

/// The report always ends; it fails only when `/proc/swaps` could not be
/// read, and then it still prints its header first.
pub proof fn law_status_fails_only_on_swaps(pre: StatusReport, ev: Event, post: StatusReport, a: Action)
    requires
        StatusReport::transition(pre, ev, post, a),
        pre.stage != StatusStage::ProbingSwaps ==> pre.pending is None,
    ensures
        post.rank() < pre.rank(),
        post.stage != StatusStage::Finished ==> (post.pending is Some ==> (pre.stage
            == StatusStage::ProbingSwaps && ev is Swaps)),
        (a matches Action::Finish { result: Err(_) }) ==> pre.pending is Some,
{
}


/// The `k`-th step of a `cleanup` trace.
pub open spec fn cleanup_step_at(runs: Seq<CleanupRun>, events: Seq<Event>, actions: Seq<Action>, k: int) -> bool {
    CleanupRun::transition(runs[k], events[k], runs[k + 1], actions[k])
}

/// Consecutive steps of one `cleanup` run.
pub open spec fn cleanup_trace(runs: Seq<CleanupRun>, events: Seq<Event>, actions: Seq<Action>) -> bool {
    &&& runs.len() == events.len() + 1
    &&& actions.len() == events.len()
    &&& forall|k: int| 0 <= k < events.len() ==> #[trigger] cleanup_step_at(runs, events, actions, k)
}

/// A `cleanup` run that succeeds after reading metadata wrote back the
/// recorded resume device and offset, reset `image_size`, removed the
/// metadata and restored the boot menu, in this order, as its last requests.
pub proof fn law_successful_cleanup_order(runs: Seq<CleanupRun>, events: Seq<Event>, actions: Seq<Action>)
    requires
        cleanup_trace(runs, events, actions),
        runs[0].stage == CleanupStage::CheckingMetadata,
        events.len() >= 1,
        succeeds(actions.last()),
        runs[events.len() - 1].stage == CleanupStage::RestoringBootMenu,
    ensures
        events.len() >= 6,
        actions[events.len() - 2] == Action::RestoreBootMenu,
        removes_file(actions[events.len() - 3], runs[0].meta_file@),
        writes_sysfs(actions[events.len() - 4], SYS_IMAGE_SIZE@, "0\n"@),
        writes_sysfs(actions[events.len() - 5], SYS_RESUME_OFFSET@, runs[events.len() - 5].old_resume_offset@),
        writes_sysfs(actions[events.len() - 6], SYS_RESUME@, runs[events.len() - 6].old_resume@),
        runs[events.len() - 5].old_resume == runs[events.len() - 6].old_resume,
{
    let n = events.len() as int;
    assert forall|k: int| 0 <= k < runs.len() implies #[trigger] runs[k].meta_file == runs[0].meta_file by {
        lemma_cleanup_trace_keeps_meta(runs, events, actions, k);
    }
    assert(cleanup_step_at(runs, events, actions, n - 1));
    assert(n >= 2);
    assert(cleanup_step_at(runs, events, actions, n - 2));
    assert(runs[n - 2].stage == CleanupStage::RemovingMetadata);
    assert(n >= 3);
    assert(cleanup_step_at(runs, events, actions, n - 3));
    assert(runs[n - 3].stage == CleanupStage::ZeroingImageSize);
    assert(n >= 4);
    assert(cleanup_step_at(runs, events, actions, n - 4));
    assert(runs[n - 4].stage == CleanupStage::RestoringOffset);
    assert(n >= 5);
    assert(cleanup_step_at(runs, events, actions, n - 5));
    assert(runs[n - 5].stage == CleanupStage::RestoringResume);
    assert(n >= 6);
    assert(cleanup_step_at(runs, events, actions, n - 6));
}

proof fn lemma_cleanup_trace_keeps_meta(runs: Seq<CleanupRun>, events: Seq<Event>, actions: Seq<Action>, k: int)
    requires
        cleanup_trace(runs, events, actions),
        0 <= k < runs.len(),
    ensures
        runs[k].meta_file == runs[0].meta_file,
    decreases k,
{
    if k > 0 {
        lemma_cleanup_trace_keeps_meta(runs, events, actions, k - 1);
        assert(cleanup_step_at(runs, events, actions, k - 1));
    }
}

/// The metadata request records the swapfile and resume pointers of `m`.
pub open spec fn writes_metadata(a: Action, m: SwapMetadata) -> bool {
    a matches Action::WriteMetadata { swap_file, old_resume, old_resume_offset, .. } && swap_file@
        == m.swap_file@ && old_resume@ == m.old_resume@ && old_resume_offset@ == m.old_resume_offset@
}

proof fn lemma_create_rank(runs: Seq<CreateRun>, events: Seq<Event>, actions: Seq<Action>, k: int)
    requires
        create_trace(runs, events, actions),
        0 <= k < runs.len(),
    ensures
        runs[k].rank() + k <= runs[0].rank(),
    decreases k,
{
    if k > 0 {
        lemma_create_rank(runs, events, actions, k - 1);
        assert(create_step_at(runs, events, actions, k - 1));
        law_create_terminates(runs[k - 1], events[k - 1], runs[k], actions[k - 1]);
    }
}

proof fn lemma_create_keeps_saved(runs: Seq<CreateRun>, events: Seq<Event>, actions: Seq<Action>, k: int)
    requires
        create_trace(runs, events, actions),
        runs[0].stage == CreateStage::LocatingSwapon,
        6 <= k < events.len(),
    ensures
        runs[k].old_resume == runs[6].old_resume,
        runs[k].old_resume_offset == runs[6].old_resume_offset,
    decreases k,
{
    if k > 6 {
        lemma_create_keeps_saved(runs, events, actions, k - 1);
        lemma_create_rank(runs, events, actions, k - 1);
        assert(create_step_at(runs, events, actions, k - 1));
        assert(create_step_at(runs, events, actions, k));
    }
}

proof fn lemma_cleanup_rank(runs: Seq<CleanupRun>, events: Seq<Event>, actions: Seq<Action>, k: int)
    requires
        cleanup_trace(runs, events, actions),
        0 <= k < runs.len(),
    ensures
        runs[k].rank() + k <= runs[0].rank(),
    decreases k,
{
    if k > 0 {
        lemma_cleanup_rank(runs, events, actions, k - 1);
        assert(cleanup_step_at(runs, events, actions, k - 1));
        law_cleanup_terminates(runs[k - 1], events[k - 1], runs[k], actions[k - 1]);
    }
}

proof fn lemma_cleanup_keeps_record(runs: Seq<CleanupRun>, events: Seq<Event>, actions: Seq<Action>, k: int)
    requires
        cleanup_trace(runs, events, actions),
        runs[0].stage == CleanupStage::CheckingMetadata,
        2 <= k < events.len(),
    ensures
        CleanupRun::same_record(runs[2], runs[k]),
    decreases k,
{
    if k > 2 {
        lemma_cleanup_keeps_record(runs, events, actions, k - 1);
        lemma_cleanup_rank(runs, events, actions, k - 1);
        assert(cleanup_step_at(runs, events, actions, k - 1));
        assert(cleanup_step_at(runs, events, actions, k));
        law_cleanup_restores_recorded_state(runs[k - 1], events[k - 1], runs[k], actions[k - 1]);
    }
}

/// `cleanup` undoes `create`. A `create` run that succeeded with a new
/// swapfile read the resume device and offset before touching anything. A
/// later `cleanup` run that finds the metadata `create` wrote, and whose
/// requests all succeed, succeeds: it writes back exactly the values read
/// (`0:0` and `0` when they were unreadable), resets `image_size`, removes
/// the metadata file `create` used, and removes the swapfile `create` made
/// when it still exists.
pub proof fn law_cleanup_undoes_create(
    cr: Seq<CreateRun>,
    ce: Seq<Event>,
    ca: Seq<Action>,
    m: SwapMetadata,
    kr: Seq<CleanupRun>,
    ke: Seq<Event>,
    ka: Seq<Action>,
)
    requires
        create_trace(cr, ce, ca),
        cr[0].stage == CreateStage::LocatingSwapon,
        ce.len() >= 1,
        succeeds(ca.last()),
        cr[ce.len() - 1].stage == CreateStage::HidingBootMenu,
        forall|k: int| 0 <= k < ca.len() && (#[trigger] ca[k]) is WriteMetadata ==> writes_metadata(ca[k], m),
        cleanup_trace(kr, ke, ka),
        kr[0].stage == CleanupStage::CheckingMetadata,
        kr[0].meta_file == cr[0].meta_file,
        ke.len() >= 2,
        ke[0] == Event::Flag(true),
        ke[1] == Event::Metadata(Ok(m)),
        forall|k: int| 0 <= k < ke.len() ==> succeeded_answer(#[trigger] ke[k]),
        kr[ke.len() as int].stage == CleanupStage::Finished,
    ensures
        succeeds(ka.last()),
        reads_sysfs(ca[3], SYS_RESUME@),
        reads_sysfs(ca[4], SYS_RESUME_OFFSET@),
        ce[4] matches Event::Read(r) && writes_sysfs(ka[ke.len() - 6], SYS_RESUME@, read_or(r, "0:0"@)),
        ce[5] matches Event::Read(r) && writes_sysfs(ka[ke.len() - 5], SYS_RESUME_OFFSET@, read_or(r, "0"@)),
        writes_sysfs(ka[ke.len() - 4], SYS_IMAGE_SIZE@, "0\n"@),
        removes_file(ka[ke.len() - 3], cr[0].meta_file@),
        checks_exists(ka[1], cr[0].swap_file@),
        ke[2] matches Event::Flag(exists) && (exists ==> (removes_file(ka[3], cr[0].swap_file@)
            && (ke[4] matches Event::Done(Ok(_))))),
{
    // create: the run went through the whole new-swapfile path
    let n = ce.len() as int;
    law_successful_create_order(cr, ce, ca);
    assert forall|k: int| 0 <= k < cr.len() implies #[trigger] cr[k].swap_file == cr[0].swap_file by {
        lemma_trace_keeps_places(cr, ce, ca, k);
    }
    assert(create_step_at(cr, ce, ca, 0));
    assert(create_step_at(cr, ce, ca, 1));
    assert(create_step_at(cr, ce, ca, 2));
    assert(create_step_at(cr, ce, ca, 3));
    assert(create_step_at(cr, ce, ca, 4));
    assert(create_step_at(cr, ce, ca, 5));
    assert(cr[5].stage == CreateStage::ReadingResumeOffset);
    assert(n > 6);
    assert(create_step_at(cr, ce, ca, 6));
    assert(cr[6].stage == CreateStage::ZeroingImageSize);
    assert(create_step_at(cr, ce, ca, n - 3));
    assert(cr[n - 3].stage == CreateStage::ConfiguringResume);
    assert(n - 3 >= 6);
    lemma_create_keeps_saved(cr, ce, ca, n - 3);
    assert(writes_metadata(ca[n - 3], m));
    // cleanup: fed only successful answers it succeeded, having read `m`
    // and gone through the whole restoring path
    law_cleanup_succeeds_on_success(kr, ke, ka);
    let nk = ke.len() as int;
    assert(cleanup_step_at(kr, ke, ka, 0));
    assert(cleanup_step_at(kr, ke, ka, 1));
    assert(kr[2].stage == CleanupStage::CheckingSwapfile);
    lemma_cleanup_rank(kr, ke, ka, nk - 1);
    assert(cleanup_step_at(kr, ke, ka, nk - 1));
    assert(kr[nk - 1].stage == CleanupStage::RestoringBootMenu);
    law_successful_cleanup_order(kr, ke, ka);
    assert(cleanup_step_at(kr, ke, ka, nk - 6));
    assert(nk - 6 >= 2);
    lemma_cleanup_keeps_record(kr, ke, ka, nk - 6);
    lemma_cleanup_keeps_record(kr, ke, ka, nk - 5);
    assert(cleanup_step_at(kr, ke, ka, 2));
    assert(cleanup_step_at(kr, ke, ka, 3));
    assert(cleanup_step_at(kr, ke, ka, 4));
    assert(cleanup_step_at(kr, ke, ka, 5));
    lemma_cleanup_keeps_record(kr, ke, ka, 3);
}

/// A second `cleanup` changes nothing. A `cleanup` run succeeds either at
/// once, finding no metadata, or only after its request to remove the
/// metadata file succeeded; a run that finds no metadata succeeds without
/// asking for anything else.
pub proof fn law_cleanup_idempotent(
    runs: Seq<CleanupRun>,
    events: Seq<Event>,
    actions: Seq<Action>,
    again: CleanupRun,
    post: CleanupRun,
    a: Action,
)
    requires
        cleanup_trace(runs, events, actions),
        runs[0].stage == CleanupStage::CheckingMetadata,
        events.len() >= 1,
        succeeds(actions.last()),
        again.stage == CleanupStage::CheckingMetadata,
        CleanupRun::transition(again, Event::Flag(false), post, a),
    ensures
        events.len() == 1 ==> events[0] == Event::Flag(false),
        events.len() > 1 ==> (removes_file(actions[events.len() - 3], runs[0].meta_file@)
            && (events[events.len() - 2] matches Event::Done(Ok(_)))),
        succeeds(a),
        post.stage == CleanupStage::Finished,
{
    let n = events.len() as int;
    assert(cleanup_step_at(runs, events, actions, n - 1));
    if n > 1 {
        lemma_cleanup_rank(runs, events, actions, n - 1);
        assert(runs[n - 1].stage == CleanupStage::RestoringBootMenu);
        law_successful_cleanup_order(runs, events, actions);
        assert(cleanup_step_at(runs, events, actions, n - 2));
    }
}

/// The answer reports no failure (a tool run that exited with code 0).
pub open spec fn succeeded_answer(ev: Event) -> bool {
    match ev {
        Event::Located(r) => r is Ok,
        Event::Ran(r) => r matches Ok(o) && o.succeeded(),
        Event::Read(r) => r is Ok,
        Event::Done(r) => r is Ok,
        Event::Completed(r) => r is Ok,
        Event::Device(r) => r is Ok,
        Event::Size(r) => r is Ok,
        Event::Swaps(r) => r is Ok,
        Event::Listing(r) => r is Ok,
        Event::Space(r) => r is Ok,
        Event::Metadata(r) => r is Ok,
        _ => true,
    }
}

proof fn lemma_cleanup_step_never_fails(pre: CleanupRun, ev: Event, post: CleanupRun, a: Action)
    requires
        CleanupRun::transition(pre, ev, post, a),
        succeeded_answer(ev),
    ensures
        !(a matches Action::Finish { result: Err(_) }),
{
}

/// A `cleanup` run whose requests all succeed succeeds: no step fails it,
/// and once it has ended (after at most ten answers) its last request is
/// success.
pub proof fn law_cleanup_succeeds_on_success(runs: Seq<CleanupRun>, events: Seq<Event>, actions: Seq<Action>)
    requires
        cleanup_trace(runs, events, actions),
        runs[0].stage == CleanupStage::CheckingMetadata,
        forall|k: int| 0 <= k < events.len() ==> succeeded_answer(#[trigger] events[k]),
        events.len() >= 1,
        runs[events.len() as int].stage == CleanupStage::Finished,
    ensures
        events.len() <= 10,
        forall|k: int| 0 <= k < actions.len() ==> !((#[trigger] actions[k]) matches Action::Finish {
            result: Err(_),
        }),
        succeeds(actions.last()),
{
    let n = events.len() as int;
    assert forall|k: int| 0 <= k < actions.len() implies !((#[trigger] actions[k]) matches Action::Finish {
        result: Err(_),
    }) by {
        assert(cleanup_step_at(runs, events, actions, k));
        assert(succeeded_answer(events[k]));
        lemma_cleanup_step_never_fails(runs[k], events[k], runs[k + 1], actions[k]);
    }
    assert(cleanup_step_at(runs, events, actions, n - 1));
    law_cleanup_terminates(runs[n - 1], events[n - 1], runs[n], actions[n - 1]);
    lemma_cleanup_rank(runs, events, actions, n - 1);
}

/// The paths that exist once the first `j` requests of a run have been
/// answered, starting from `present`: a removal that succeeded takes its
/// path out (`actions[i]` is answered by `events[i + 1]`).
pub open spec fn present_at(present: Set<Seq<char>>, actions: Seq<Action>, events: Seq<Event>, j: int) -> Set<Seq<char>>
    decreases j,
{
    if j <= 0 {
        present
    } else {
        let before = present_at(present, actions, events, j - 1);
        match (actions[j - 1], events[j]) {
            (Action::RemoveFile { path }, Event::Done(Ok(_))) => before.remove(path@),
            _ => before,
        }
    }
}

/// A second `cleanup` changes nothing. When a `cleanup` run succeeded, and
/// its first answer (does the metadata exist?) was true of the paths that
/// existed, then a second run, answered truly about the paths the first one
/// left, finds no metadata and succeeds without asking for anything else.
pub proof fn law_second_cleanup_changes_nothing(
    present: Set<Seq<char>>,
    runs: Seq<CleanupRun>,
    events: Seq<Event>,
    actions: Seq<Action>,
    again: CleanupRun,
    post: CleanupRun,
    a: Action,
)
    requires
        cleanup_trace(runs, events, actions),
        runs[0].stage == CleanupStage::CheckingMetadata,
        events.len() >= 1,
        succeeds(actions.last()),
        events[0] == Event::Flag(present.contains(runs[0].meta_file@)),
        again.stage == CleanupStage::CheckingMetadata,
        again.meta_file == runs[0].meta_file,
        CleanupRun::transition(
            again,
            Event::Flag(
                present_at(present, actions, events, events.len() - 1).contains(again.meta_file@),
            ),
            post,
            a,
        ),
    ensures
        !present_at(present, actions, events, events.len() - 1).contains(runs[0].meta_file@),
        succeeds(a),
        post.stage == CleanupStage::Finished,
{
    let n = events.len() as int;
    assert(cleanup_step_at(runs, events, actions, n - 1));
    if n == 1 {
        assert(present_at(present, actions, events, 0) == present);
    } else {
        lemma_cleanup_rank(runs, events, actions, n - 1);
        law_successful_cleanup_order(runs, events, actions);
        assert(cleanup_step_at(runs, events, actions, n - 2));
        let before = present_at(present, actions, events, n - 3);
        assert(present_at(present, actions, events, n - 2) == before.remove(runs[0].meta_file@));
        assert(present_at(present, actions, events, n - 1) == present_at(present, actions, events, n - 2));
    }
}

} // verus!
