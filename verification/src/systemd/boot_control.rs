use vstd::prelude::*;
use crate::config::TOOL_BOOTCTL;
use crate::system::{is_run, run_tool, str_texts, succeeds, Action, Event, StdioMode};

verus! {

/// One entry of `bootctl list --json=short`.
#[derive(Debug, Clone, PartialEq, Eq)]
pub struct BootEntry {
    pub id: Option<String>,
    pub is_selected: Option<bool>,
}

/// The index of the first entry marked selected, if any.
pub open spec fn first_selected(es: Seq<BootEntry>) -> Option<int>
    decreases es.len(),
{
    if es.len() == 0 {
        None
    } else if es[0].is_selected == Some(true) {
        Some(0)
    } else {
        match first_selected(es.drop_first()) {
            Some(k) => Some(k + 1),
            None => None,
        }
    }
}

/// The id of the currently selected boot entry: the first entry marked
/// selected, and its id (`None` when it has none, or nothing is selected).
pub open spec fn selected_id(es: Seq<BootEntry>) -> Option<Seq<char>> {
    match first_selected(es) {
        Some(k) => match es[k].id {
            Some(id) => Some(id@),
            None => None,
        },
        None => None,
    }
}

proof fn lemma_first_selected_scan(es: Seq<BootEntry>, i: int)
    requires
        0 <= i <= es.len(),
        forall|k: int| 0 <= k < i ==> es[k].is_selected != Some(true),
    ensures
        first_selected(es) == match first_selected(es.skip(i)) {
            Some(k) => Some(k + i),
            None => None::<int>,
        },
    decreases i,
{
    if i > 0 {
        lemma_first_selected_scan(es.drop_first(), i - 1);
        assert(es.drop_first().skip(i - 1) == es.skip(i));
    } else {
        assert(es.skip(0) == es);
    }
}

/// Picks the id of the selected boot entry.
pub fn selected_entry_id(entries: &Vec<BootEntry>) -> (r: Option<String>)
    ensures
        match r {
            Some(id) => selected_id(entries@) == Some(id@),
            None => selected_id(entries@) is None,
        },
{
    let mut i: usize = 0;
    while i < entries.len()
        invariant
            i <= entries@.len(),
            forall|k: int| 0 <= k < i ==> entries@[k].is_selected != Some(true),
        decreases entries@.len() - i,
    {
        if entries[i].is_selected == Some(true) {
            proof {
                lemma_first_selected_scan(entries@, i as int);
            }
            return entries[i].id.clone();
        }
        i = i + 1;
    }
    proof {
        lemma_first_selected_scan(entries@, i as int);
    }
    None
}


#[derive(Debug, Clone, Copy, PartialEq, Eq, Structural)]
pub enum BootStage {
    Locating,
    CheckingInstalled,
    ListingEntries,
    ParsingEntries,
    Pinning,
    SettingTimeout,
    Finished,
}

/// Manages systemd-boot visibility around hibernate/resume cycles; every step
/// is best-effort and the run always ends successfully.
///
/// Nothing is done unless `bootctl` is in `PATH` and `bootctl is-installed`
/// succeeds. Hiding pins the selected entry for the next boot (`set-oneshot`,
/// when `bootctl list` names one) and sets the menu timeout to 0; restoring
/// unsets the timeout.
#[derive(Debug, Clone, Copy, PartialEq, Eq)]
pub struct BootControl {
    pub hiding: bool,
    pub stage: BootStage,
}

/// The timeout `set-timeout` is given: `0` to hide the menu, empty to restore it.
pub open spec fn timeout_args(hiding: bool) -> Seq<Seq<char>> {
    seq!["set-timeout"@, if hiding {
        "0"@
    } else {
        ""@
    }]
}

impl BootControl {
    pub open spec fn expects(self, ev: Event) -> bool {
        match self.stage {
            BootStage::Locating => ev is Located,
            BootStage::CheckingInstalled => ev is Ran,
            BootStage::ListingEntries => ev is Ran,
            BootStage::ParsingEntries => ev is BootEntries,
            BootStage::Pinning => ev is Ran,
            BootStage::SettingTimeout => ev is Ran,
            BootStage::Finished => false,
        }
    }

    /// The step that sets the menu timeout.
    pub open spec fn to_timeout(pre: Self, post: Self, a: Action) -> bool {
        &&& post.stage == BootStage::SettingTimeout
        &&& is_run(a, TOOL_BOOTCTL@, timeout_args(pre.hiding), StdioMode::Inherit)
    }

    pub open spec fn transition(pre: Self, ev: Event, post: Self, a: Action) -> bool {
        &&& post.hiding == pre.hiding
        &&& match (pre.stage, ev) {
            (BootStage::Locating, Event::Located(found)) => if found is Ok {
                post.stage == BootStage::CheckingInstalled && is_run(
                    a,
                    TOOL_BOOTCTL@,
                    seq!["is-installed"@],
                    StdioMode::Discard,
                )
            } else {
                post.stage == BootStage::Finished && succeeds(a)
            },
            (BootStage::CheckingInstalled, Event::Ran(r)) => if r matches Ok(o) && o.succeeded() {
                if pre.hiding {
                    post.stage == BootStage::ListingEntries && is_run(
                        a,
                        TOOL_BOOTCTL@,
                        seq!["list"@, "--json=short"@, "--no-pager"@],
                        StdioMode::Capture,
                    )
                } else {
                    Self::to_timeout(pre, post, a)
                }
            } else {
                post.stage == BootStage::Finished && succeeds(a)
            },
            (BootStage::ListingEntries, Event::Ran(r)) => match r {
                Ok(o) => if o.succeeded() {
                    post.stage == BootStage::ParsingEntries && a == Action::ParseBootEntries {
                        json: o.stdout,
                    }
                } else {
                    Self::to_timeout(pre, post, a)
                },
                Err(_) => Self::to_timeout(pre, post, a),
            },
            (BootStage::ParsingEntries, Event::BootEntries(r)) => {
                let id = match r {
                    Some(es) => selected_id(es@),
                    None => None,
                };
                match id {
                    Some(i) => post.stage == BootStage::Pinning && is_run(
                        a,
                        TOOL_BOOTCTL@,
                        seq!["set-oneshot"@, i],
                        StdioMode::Inherit,
                    ),
                    None => Self::to_timeout(pre, post, a),
                }
            },
            (BootStage::Pinning, Event::Ran(_)) => Self::to_timeout(pre, post, a),
            (BootStage::SettingTimeout, Event::Ran(_)) => {
                post.stage == BootStage::Finished && succeeds(a)
            },
            _ => false,
        }
    }

    fn timeout_step(&mut self) -> (a: Action)
        ensures
            final(self).hiding == old(self).hiding,
            Self::to_timeout(*old(self), *final(self), a),
    {
        self.stage = BootStage::SettingTimeout;
        let value = if self.hiding {
            "0"
        } else {
            ""
        };
        let args = ["set-timeout", value];
        assert(str_texts(args@) =~= timeout_args(self.hiding));
        run_tool(TOOL_BOOTCTL, &args, StdioMode::Inherit)
    }

    fn done(&mut self) -> (a: Action)
        ensures
            final(self).hiding == old(self).hiding,
            final(self).stage == BootStage::Finished,
            succeeds(a),
    {
        self.stage = BootStage::Finished;
        Action::Finish { result: Ok(()) }
    }

    pub fn step(&mut self, ev: Event) -> (a: Action)
        requires
            old(self).expects(ev),
        ensures
            Self::transition(*old(self), ev, *final(self), a),
    {
        match self.stage {
            BootStage::Locating => {
                if let Event::Located(Ok(_)) = ev {
                    self.stage = BootStage::CheckingInstalled;
                    let args = ["is-installed"];
                    assert(str_texts(args@) =~= seq!["is-installed"@]);
                    run_tool(TOOL_BOOTCTL, &args, StdioMode::Discard)
                } else {
                    self.done()
                }
            },
            BootStage::CheckingInstalled => {
                let present = match &ev {
                    Event::Ran(Ok(o)) => o.success(),
                    _ => false,
                };
                if !present {
                    self.done()
                } else if self.hiding {
                    self.stage = BootStage::ListingEntries;
                    let args = ["list", "--json=short", "--no-pager"];
                    assert(str_texts(args@) =~= seq!["list"@, "--json=short"@, "--no-pager"@]);
                    run_tool(TOOL_BOOTCTL, &args, StdioMode::Capture)
                } else {
                    self.timeout_step()
                }
            },
            BootStage::ListingEntries => {
                match ev {
                    Event::Ran(Ok(o)) => {
                        if o.success() {
                            self.stage = BootStage::ParsingEntries;
                            Action::ParseBootEntries { json: o.stdout }
                        } else {
                            self.timeout_step()
                        }
                    },
                    _ => self.timeout_step(),
                }
            },
            BootStage::ParsingEntries => {
                let id = match ev {
                    Event::BootEntries(Some(es)) => selected_entry_id(&es),
                    _ => None,
                };
                match id {
                    Some(i) => {
                        self.stage = BootStage::Pinning;
                        let args = ["set-oneshot", i.as_str()];
                        assert(str_texts(args@) =~= seq!["set-oneshot"@, i@]);
                        run_tool(TOOL_BOOTCTL, &args, StdioMode::Inherit)
                    },
                    None => self.timeout_step(),
                }
            },
            BootStage::Pinning => self.timeout_step(),
            _ => self.done(),
        }
    }

    /// Starts hiding the boot menu before hibernation: the first request asks
    /// whether `bootctl` is in `PATH`.
    pub fn hide_menu() -> (r: (BootControl, Action))
        ensures
            r.0 == (BootControl { hiding: true, stage: BootStage::Locating }),
            r.0.wf(),
            r.1 matches Action::LocateTool { name } && name@ == TOOL_BOOTCTL@,
    {
        (BootControl { hiding: true, stage: BootStage::Locating }, Action::LocateTool { name: TOOL_BOOTCTL.to_string() })
    }

    /// Starts restoring the boot menu after resume: the first request asks
    /// whether `bootctl` is in `PATH`.
    pub fn restore_menu() -> (r: (BootControl, Action))
        ensures
            r.0 == (BootControl { hiding: false, stage: BootStage::Locating }),
            r.0.wf(),
            r.1 matches Action::LocateTool { name } && name@ == TOOL_BOOTCTL@,
    {
        (BootControl { hiding: false, stage: BootStage::Locating }, Action::LocateTool { name: TOOL_BOOTCTL.to_string() })
    }
}


impl BootControl {
    /// Restoring never lists, parses or pins entries.
    pub open spec fn wf(self) -> bool {
        !self.hiding ==> (self.stage != BootStage::ListingEntries && self.stage
            != BootStage::ParsingEntries && self.stage != BootStage::Pinning)
    }

    /// How many answers the run can still take at most.
    pub open spec fn rank(self) -> nat {
        match self.stage {
            BootStage::Locating => 6,
            BootStage::CheckingInstalled => 5,
            BootStage::ListingEntries => 4,
            BootStage::ParsingEntries => 3,
            BootStage::Pinning => 2,
            BootStage::SettingTimeout => 1,
            BootStage::Finished => 0,
        }
    }
}

/// Boot menu handling is best-effort: it always ends, never with an error,
/// and restoring the menu never lists or pins entries.
pub proof fn law_boot_menu_best_effort(pre: BootControl, ev: Event, post: BootControl, a: Action)
    requires
        pre.wf(),
        BootControl::transition(pre, ev, post, a),
    ensures
        post.wf(),
        post.rank() < pre.rank(),
        post.stage == BootStage::Finished <==> a is Finish,
        a is Finish ==> succeeds(a),
{
}

} // verus!
