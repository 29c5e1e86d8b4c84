//! Network export management: per-client export targets.
//!
//! [`SetupMachine`] provisions a client's export unit (target, backing store,
//! LUN, portal) idempotently: each part is probed before it is created, and an
//! existing backing store of the same name is replaced, since it may point at
//! a stale device.  [`TeardownMachine`] removes the unit best-effort: failures
//! are collected as warnings and never abort the remaining steps.
use crate::machine::{Action, ActionV, Event, EventV, Outcome, OutcomeV, Step, StepV};
use crate::text::contains_seq;
use vstd::prelude::*;

verus! {

/// Phase of the export setup sequence; each phase awaits one command.
#[derive(Clone, Copy, PartialEq, Eq)]
pub enum SetupState {
    ListTargets,
    CreateTarget,
    AttrAcls,
    AttrCache,
    AttrProtect,
    AttrAuth,
    ListBackstores,
    DeleteBackstore,
    CreateBackstore,
    ListLuns,
    CreateLun,
    ListPortals,
    CreatePortal,
    Save,
    Finished,
}

/// Step machine that provisions one client's export unit.
pub struct SetupMachine {
    pub state: SetupState,
    pub target_iqn: String,
    pub block_store: String,
    pub device: String,
}

/// Mathematical value of a [`SetupMachine`].
pub struct SetupMachineV {
    pub state: SetupState,
    pub target_iqn: Seq<char>,
    pub block_store: Seq<char>,
    pub device: Seq<char>,
}

impl View for SetupMachine {
    type V = SetupMachineV;

    open spec fn view(&self) -> SetupMachineV {
        SetupMachineV {
            state: self.state,
            target_iqn: self.target_iqn@,
            block_store: self.block_store@,
            device: self.device@,
        }
    }
}

/// The event kind each setup phase expects.
pub open spec fn setup_expects(state: SetupState, ev: EventV) -> bool {
    match state {
        SetupState::ListTargets
        | SetupState::ListBackstores
        | SetupState::ListLuns
        | SetupState::ListPortals => ev is Output || ev is Failed,
        SetupState::Finished => false,
        _ => ev is Done || ev is Failed,
    }
}

/// The transition relation of the setup machine: from a machine value and the
/// reply to its pending command, the next machine value and step.
pub open spec fn setup_next(m: SetupMachineV, ev: EventV) -> (SetupMachineV, StepV) {
    if ev is Failed {
        (
            SetupMachineV { state: SetupState::Finished, ..m },
            StepV::Done(OutcomeV::Failure { message: ev->Failed_0 }),
        )
    } else {
        match m.state {
            SetupState::ListTargets => {
                let out = ev->Output_0;
                if contains_seq(out, m.target_iqn) {
                    (
                        SetupMachineV { state: SetupState::ListBackstores, ..m },
                        StepV::Run(ActionV::TcliListBackstores),
                    )
                } else {
                    (
                        SetupMachineV { state: SetupState::CreateTarget, ..m },
                        StepV::Run(ActionV::TcliCreateTarget { target_iqn: m.target_iqn }),
                    )
                }
            },
            SetupState::CreateTarget => (
                SetupMachineV { state: SetupState::AttrAcls, ..m },
                StepV::Run(
                    ActionV::TcliSetAttr {
                        target_iqn: m.target_iqn,
                        attr: "generate_node_acls=1"@,
                    },
                ),
            ),
            SetupState::AttrAcls => (
                SetupMachineV { state: SetupState::AttrCache, ..m },
                StepV::Run(
                    ActionV::TcliSetAttr {
                        target_iqn: m.target_iqn,
                        attr: "cache_dynamic_acls=1"@,
                    },
                ),
            ),
            SetupState::AttrCache => (
                SetupMachineV { state: SetupState::AttrProtect, ..m },
                StepV::Run(
                    ActionV::TcliSetAttr {
                        target_iqn: m.target_iqn,
                        attr: "demo_mode_write_protect=0"@,
                    },
                ),
            ),
            SetupState::AttrProtect => (
                SetupMachineV { state: SetupState::AttrAuth, ..m },
                StepV::Run(
                    ActionV::TcliSetAttr { target_iqn: m.target_iqn, attr: "authentication=0"@ },
                ),
            ),
            SetupState::AttrAuth => (
                SetupMachineV { state: SetupState::ListBackstores, ..m },
                StepV::Run(ActionV::TcliListBackstores),
            ),
            SetupState::ListBackstores => {
                let out = ev->Output_0;
                if contains_seq(out, m.block_store) {
                    (
                        SetupMachineV { state: SetupState::DeleteBackstore, ..m },
                        StepV::Run(ActionV::TcliDeleteBackstore { block_store: m.block_store }),
                    )
                } else {
                    (
                        SetupMachineV { state: SetupState::CreateBackstore, ..m },
                        StepV::Run(
                            ActionV::TcliCreateBackstore {
                                block_store: m.block_store,
                                device: m.device,
                            },
                        ),
                    )
                }
            },
            SetupState::DeleteBackstore => (
                SetupMachineV { state: SetupState::CreateBackstore, ..m },
                StepV::Run(
                    ActionV::TcliCreateBackstore { block_store: m.block_store, device: m.device },
                ),
            ),
            SetupState::CreateBackstore => (
                SetupMachineV { state: SetupState::ListLuns, ..m },
                StepV::Run(ActionV::TcliListLuns { target_iqn: m.target_iqn }),
            ),
            SetupState::ListLuns => {
                let out = ev->Output_0;
                if contains_seq(out, m.block_store) {
                    (
                        SetupMachineV { state: SetupState::ListPortals, ..m },
                        StepV::Run(ActionV::TcliListPortals { target_iqn: m.target_iqn }),
                    )
                } else {
                    (
                        SetupMachineV { state: SetupState::CreateLun, ..m },
                        StepV::Run(
                            ActionV::TcliCreateLun {
                                target_iqn: m.target_iqn,
                                block_store: m.block_store,
                            },
                        ),
                    )
                }
            },
            SetupState::CreateLun => (
                SetupMachineV { state: SetupState::ListPortals, ..m },
                StepV::Run(ActionV::TcliListPortals { target_iqn: m.target_iqn }),
            ),
            SetupState::ListPortals => {
                let out = ev->Output_0;
                if contains_seq(out, "0.0.0.0"@) {
                    (
                        SetupMachineV { state: SetupState::Save, ..m },
                        StepV::Run(ActionV::TcliSaveConfig),
                    )
                } else {
                    (
                        SetupMachineV { state: SetupState::CreatePortal, ..m },
                        StepV::Run(ActionV::TcliCreatePortal { target_iqn: m.target_iqn }),
                    )
                }
            },
            SetupState::CreatePortal => (
                SetupMachineV { state: SetupState::Save, ..m },
                StepV::Run(ActionV::TcliSaveConfig),
            ),
            SetupState::Save => (
                SetupMachineV { state: SetupState::Finished, ..m },
                StepV::Done(
                    OutcomeV::Success { message: Seq::empty(), warnings: Seq::empty() },
                ),
            ),
            SetupState::Finished => (m, StepV::Done(OutcomeV::Failure { message: Seq::empty() })),
        }
    }
}

/// Starts provisioning an export unit; the first command lists the existing
/// targets.
pub fn setup_iscsi_target(target_iqn: &str, block_store: &str, device: &str) -> (r: (
    SetupMachine,
    Action,
))
    ensures
        r.0@ == (SetupMachineV {
            state: SetupState::ListTargets,
            target_iqn: target_iqn@,
            block_store: block_store@,
            device: device@,
        }),
        r.1@ == ActionV::TcliListTargets,
{
    let m = SetupMachine {
        state: SetupState::ListTargets,
        target_iqn: String::from_str(target_iqn),
        block_store: String::from_str(block_store),
        device: String::from_str(device),
    };
    (m, Action::TcliListTargets)
}

impl SetupMachine {
    /// Feeds the pending command's reply in and yields the next step.
    pub fn step(&mut self, ev: Event) -> (r: Step)
        requires
            setup_expects(old(self)@.state, ev@),
        ensures
            (final(self)@, r@) == setup_next(old(self)@, ev@),
    {
        match ev {
            Event::Failed(e) => {
                self.state = SetupState::Finished;
                Step::Done(Outcome::Failure { message: e })
            },
            Event::Output(out) => {
                match self.state {
                    SetupState::ListTargets => {
                        if crate::text::str_contains(out.as_str(), self.target_iqn.as_str()) {
                            self.state = SetupState::ListBackstores;
                            Step::Run(Action::TcliListBackstores)
                        } else {
                            self.state = SetupState::CreateTarget;
                            Step::Run(
                                Action::TcliCreateTarget { target_iqn: self.target_iqn.clone() },
                            )
                        }
                    },
                    SetupState::ListBackstores => {
                        if crate::text::str_contains(out.as_str(), self.block_store.as_str()) {
                            self.state = SetupState::DeleteBackstore;
                            Step::Run(
                                Action::TcliDeleteBackstore {
                                    block_store: self.block_store.clone(),
                                },
                            )
                        } else {
                            self.state = SetupState::CreateBackstore;
                            Step::Run(
                                Action::TcliCreateBackstore {
                                    block_store: self.block_store.clone(),
                                    device: self.device.clone(),
                                },
                            )
                        }
                    },
                    SetupState::ListLuns => {
                        if crate::text::str_contains(out.as_str(), self.block_store.as_str()) {
                            self.state = SetupState::ListPortals;
                            Step::Run(
                                Action::TcliListPortals { target_iqn: self.target_iqn.clone() },
                            )
                        } else {
                            self.state = SetupState::CreateLun;
                            Step::Run(
                                Action::TcliCreateLun {
                                    target_iqn: self.target_iqn.clone(),
                                    block_store: self.block_store.clone(),
                                },
                            )
                        }
                    },
                    SetupState::ListPortals => {
                        if crate::text::str_contains(out.as_str(), "0.0.0.0") {
                            self.state = SetupState::Save;
                            Step::Run(Action::TcliSaveConfig)
                        } else {
                            self.state = SetupState::CreatePortal;
                            Step::Run(
                                Action::TcliCreatePortal { target_iqn: self.target_iqn.clone() },
                            )
                        }
                    },
                    _ => {
                        // excluded by the expected-event requirement
                        self.state = SetupState::Finished;
                        Step::Done(Outcome::Failure { message: String::new() })
                    },
                }
            },
            _ => {
                match self.state {
                    SetupState::CreateTarget => {
                        self.state = SetupState::AttrAcls;
                        Step::Run(
                            Action::TcliSetAttr {
                                target_iqn: self.target_iqn.clone(),
                                attr: String::from_str("generate_node_acls=1"),
                            },
                        )
                    },
                    SetupState::AttrAcls => {
                        self.state = SetupState::AttrCache;
                        Step::Run(
                            Action::TcliSetAttr {
                                target_iqn: self.target_iqn.clone(),
                                attr: String::from_str("cache_dynamic_acls=1"),
                            },
                        )
                    },
                    SetupState::AttrCache => {
                        self.state = SetupState::AttrProtect;
                        Step::Run(
                            Action::TcliSetAttr {
                                target_iqn: self.target_iqn.clone(),
                                attr: String::from_str("demo_mode_write_protect=0"),
                            },
                        )
                    },
                    SetupState::AttrProtect => {
                        self.state = SetupState::AttrAuth;
                        Step::Run(
                            Action::TcliSetAttr {
                                target_iqn: self.target_iqn.clone(),
                                attr: String::from_str("authentication=0"),
                            },
                        )
                    },
                    SetupState::AttrAuth => {
                        self.state = SetupState::ListBackstores;
                        Step::Run(Action::TcliListBackstores)
                    },
                    SetupState::DeleteBackstore => {
                        self.state = SetupState::CreateBackstore;
                        Step::Run(
                            Action::TcliCreateBackstore {
                                block_store: self.block_store.clone(),
                                device: self.device.clone(),
                            },
                        )
                    },
                    SetupState::CreateBackstore => {
                        self.state = SetupState::ListLuns;
                        Step::Run(Action::TcliListLuns { target_iqn: self.target_iqn.clone() })
                    },
                    SetupState::CreateLun => {
                        self.state = SetupState::ListPortals;
                        Step::Run(Action::TcliListPortals { target_iqn: self.target_iqn.clone() })
                    },
                    SetupState::CreatePortal => {
                        self.state = SetupState::Save;
                        Step::Run(Action::TcliSaveConfig)
                    },
                    SetupState::Save => {
                        self.state = SetupState::Finished;
                        let w: Vec<String> = Vec::new();
                        proof {
                            assert(w.deep_view() =~= Seq::<Seq<char>>::empty());
                        }
                        Step::Done(Outcome::Success { message: String::new(), warnings: w })
                    },
                    _ => {
                        // excluded by the expected-event requirement
                        self.state = SetupState::Finished;
                        Step::Done(Outcome::Failure { message: String::new() })
                    },
                }
            },
        }
    }
}

/// Phase of the export teardown sequence.
#[derive(Clone, Copy, PartialEq, Eq)]
pub enum TeardownState {
    DelTarget,
    ListBackstores,
    DelBackstore,
    Save,
    Finished,
}

/// Step machine that removes one client's export unit, best-effort.
pub struct TeardownMachine {
    pub state: TeardownState,
    pub target_iqn: String,
    pub block_store: String,
    pub warnings: Vec<String>,
}

/// Mathematical value of a [`TeardownMachine`].
pub struct TeardownMachineV {
    pub state: TeardownState,
    pub target_iqn: Seq<char>,
    pub block_store: Seq<char>,
    pub warnings: Seq<Seq<char>>,
}

impl View for TeardownMachine {
    type V = TeardownMachineV;

    open spec fn view(&self) -> TeardownMachineV {
        TeardownMachineV {
            state: self.state,
            target_iqn: self.target_iqn@,
            block_store: self.block_store@,
            warnings: self.warnings.deep_view(),
        }
    }
}

/// Warning recorded when the export target cannot be deleted.
pub open spec fn msg_teardown_target(iqn: Seq<char>, e: Seq<char>) -> Seq<char> {
    "could not delete target "@ + iqn + ": "@ + e
}

/// Warning recorded when the backing stores cannot be listed.
pub open spec fn msg_teardown_list(e: Seq<char>) -> Seq<char> {
    "could not list backing stores: "@ + e
}

/// Warning recorded when the backing store cannot be deleted.
pub open spec fn msg_teardown_backstore(bs: Seq<char>, e: Seq<char>) -> Seq<char> {
    "could not delete backing store "@ + bs + ": "@ + e
}

/// The event kind each teardown phase expects.
pub open spec fn teardown_expects(state: TeardownState, ev: EventV) -> bool {
    match state {
        TeardownState::ListBackstores => ev is Output || ev is Failed,
        TeardownState::Finished => false,
        _ => ev is Done || ev is Failed,
    }
}

/// The transition relation of the teardown machine.  A failure never aborts:
/// it is recorded as a warning and the sequence moves on.
pub open spec fn teardown_next(m: TeardownMachineV, ev: EventV) -> (TeardownMachineV, StepV) {
    match m.state {
        TeardownState::DelTarget => {
            let ws = if ev is Failed {
                m.warnings.push(msg_teardown_target(m.target_iqn, ev->Failed_0))
            } else {
                m.warnings
            };
            if m.block_store.len() > 0 {
                (
                    TeardownMachineV { state: TeardownState::ListBackstores, warnings: ws, ..m },
                    StepV::Run(ActionV::TcliListBackstores),
                )
            } else {
                (
                    TeardownMachineV { state: TeardownState::Save, warnings: ws, ..m },
                    StepV::Run(ActionV::TcliSaveConfig),
                )
            }
        },
        TeardownState::ListBackstores => {
            if ev is Failed {
                (
                    TeardownMachineV {
                        state: TeardownState::Save,
                        warnings: m.warnings.push(msg_teardown_list(ev->Failed_0)),
                        ..m
                    },
                    StepV::Run(ActionV::TcliSaveConfig),
                )
            } else if contains_seq(ev->Output_0, m.block_store) {
                (
                    TeardownMachineV { state: TeardownState::DelBackstore, ..m },
                    StepV::Run(ActionV::TcliDeleteBackstore { block_store: m.block_store }),
                )
            } else {
                (
                    TeardownMachineV { state: TeardownState::Save, ..m },
                    StepV::Run(ActionV::TcliSaveConfig),
                )
            }
        },
        TeardownState::DelBackstore => {
            let ws = if ev is Failed {
                m.warnings.push(msg_teardown_backstore(m.block_store, ev->Failed_0))
            } else {
                m.warnings
            };
            (
                TeardownMachineV { state: TeardownState::Save, warnings: ws, ..m },
                StepV::Run(ActionV::TcliSaveConfig),
            )
        },
        TeardownState::Save => (
            TeardownMachineV { state: TeardownState::Finished, ..m },
            StepV::Done(OutcomeV::Success { message: Seq::empty(), warnings: m.warnings }),
        ),
        TeardownState::Finished => (m, StepV::Done(OutcomeV::Failure { message: Seq::empty() })),
    }
}

/// Starts removing an export unit; the first command deletes the target.
pub fn cleanup_iscsi_target(target_iqn: &str, block_store: &str) -> (r: (TeardownMachine, Action))
    ensures
        r.0@ == (TeardownMachineV {
            state: TeardownState::DelTarget,
            target_iqn: target_iqn@,
            block_store: block_store@,
            warnings: Seq::empty(),
        }),
        r.1@ == (ActionV::TcliDeleteTarget { target_iqn: target_iqn@ }),
{
    let m = TeardownMachine {
        state: TeardownState::DelTarget,
        target_iqn: String::from_str(target_iqn),
        block_store: String::from_str(block_store),
        warnings: Vec::new(),
    };
    proof {
        assert(m.warnings.deep_view() =~= Seq::<Seq<char>>::empty());
    }
    let a = Action::TcliDeleteTarget { target_iqn: String::from_str(target_iqn) };
    (m, a)
}

impl TeardownMachine {
    /// Feeds the pending command's reply in and yields the next step.
    pub fn step(&mut self, ev: Event) -> (r: Step)
        requires
            teardown_expects(old(self)@.state, ev@),
        ensures
            (final(self)@, r@) == teardown_next(old(self)@, ev@),
    {
        match self.state {
            TeardownState::DelTarget => {
                if let Event::Failed(e) = ev {
                    let ghost before = self.warnings.deep_view();
                    let msg = String::from_str("could not delete target ").concat(
                        self.target_iqn.as_str(),
                    ).concat(": ").concat(e.as_str());
                    proof {
                        assert(msg@ =~= msg_teardown_target(self.target_iqn@, e@));
                    }
                    self.warnings.push(msg);
                    proof {
                        assert(self.warnings.deep_view() =~= before.push(
                            msg_teardown_target(self.target_iqn@, e@),
                        ));
                    }
                }
                if !self.block_store.as_str().is_empty() {
                    self.state = TeardownState::ListBackstores;
                    Step::Run(Action::TcliListBackstores)
                } else {
                    self.state = TeardownState::Save;
                    Step::Run(Action::TcliSaveConfig)
                }
            },
            TeardownState::ListBackstores => {
                match ev {
                    Event::Failed(e) => {
                        let ghost before = self.warnings.deep_view();
                        let msg = String::from_str("could not list backing stores: ").concat(
                            e.as_str(),
                        );
                        proof {
                            assert(msg@ =~= msg_teardown_list(e@));
                        }
                        self.warnings.push(msg);
                        proof {
                            assert(self.warnings.deep_view() =~= before.push(msg_teardown_list(e@)));
                        }
                        self.state = TeardownState::Save;
                        Step::Run(Action::TcliSaveConfig)
                    },
                    Event::Output(out) => {
                        if crate::text::str_contains(out.as_str(), self.block_store.as_str()) {
                            self.state = TeardownState::DelBackstore;
                            Step::Run(
                                Action::TcliDeleteBackstore {
                                    block_store: self.block_store.clone(),
                                },
                            )
                        } else {
                            self.state = TeardownState::Save;
                            Step::Run(Action::TcliSaveConfig)
                        }
                    },
                    _ => {
                        // excluded by the expected-event requirement
                        self.state = TeardownState::Save;
                        Step::Run(Action::TcliSaveConfig)
                    },
                }
            },
            TeardownState::DelBackstore => {
                if let Event::Failed(e) = ev {
                    let ghost before = self.warnings.deep_view();
                    let msg = String::from_str("could not delete backing store ").concat(
                        self.block_store.as_str(),
                    ).concat(": ").concat(e.as_str());
                    proof {
                        assert(msg@ =~= msg_teardown_backstore(self.block_store@, e@));
                    }
                    self.warnings.push(msg);
                    proof {
                        assert(self.warnings.deep_view() =~= before.push(
                            msg_teardown_backstore(self.block_store@, e@),
                        ));
                    }
                }
                self.state = TeardownState::Save;
                Step::Run(Action::TcliSaveConfig)
            },
            TeardownState::Save => {
                self.state = TeardownState::Finished;
                Step::Done(
                    Outcome::Success { message: String::new(), warnings: self.warnings.clone() },
                )
            },
            TeardownState::Finished => {
                // excluded by the expected-event requirement
                Step::Done(Outcome::Failure { message: String::new() })
            },
        }
    }
}

/// Observable state of one client's export unit in the export layer.
pub ghost struct ExportState {
    /// The target exists.
    pub target: bool,
    /// The backing store exists, over the given device path.
    pub backing: Option<Seq<char>>,
    /// The unit's LUN mapping exists.
    pub lun: bool,
    /// The portal is bound.
    pub portal: bool,
    /// The export-layer configuration has been persisted.
    pub saved: bool,
}

/// The observable state of the unit after one completed setup run.
pub open spec fn setup_effect(device: Seq<char>) -> ExportState {
    ExportState { target: true, backing: Some(device), lun: true, portal: true, saved: true }
}

/// The command a setup machine in the given state is waiting on.
pub open spec fn setup_pending(m: SetupMachineV) -> ActionV {
    match m.state {
        SetupState::ListTargets => ActionV::TcliListTargets,
        SetupState::CreateTarget => ActionV::TcliCreateTarget { target_iqn: m.target_iqn },
        SetupState::AttrAcls => ActionV::TcliSetAttr {
            target_iqn: m.target_iqn,
            attr: "generate_node_acls=1"@,
        },
        SetupState::AttrCache => ActionV::TcliSetAttr {
            target_iqn: m.target_iqn,
            attr: "cache_dynamic_acls=1"@,
        },
        SetupState::AttrProtect => ActionV::TcliSetAttr {
            target_iqn: m.target_iqn,
            attr: "demo_mode_write_protect=0"@,
        },
        SetupState::AttrAuth => ActionV::TcliSetAttr {
            target_iqn: m.target_iqn,
            attr: "authentication=0"@,
        },
        SetupState::ListBackstores => ActionV::TcliListBackstores,
        SetupState::DeleteBackstore => ActionV::TcliDeleteBackstore {
            block_store: m.block_store,
        },
        SetupState::CreateBackstore => ActionV::TcliCreateBackstore {
            block_store: m.block_store,
            device: m.device,
        },
        SetupState::ListLuns => ActionV::TcliListLuns { target_iqn: m.target_iqn },
        SetupState::CreateLun => ActionV::TcliCreateLun {
            target_iqn: m.target_iqn,
            block_store: m.block_store,
        },
        SetupState::ListPortals => ActionV::TcliListPortals { target_iqn: m.target_iqn },
        SetupState::CreatePortal => ActionV::TcliCreatePortal { target_iqn: m.target_iqn },
        SetupState::Save => ActionV::TcliSaveConfig,
        SetupState::Finished => ActionV::TcliSaveConfig,
    }
}

/// How a successful export-layer command changes the unit's state.
pub open spec fn cmd_effect(s: ExportState, a: ActionV) -> ExportState {
    match a {
        ActionV::TcliCreateTarget { .. } => ExportState { target: true, ..s },
        ActionV::TcliDeleteTarget { .. } => ExportState { target: false, ..s },
        ActionV::TcliDeleteBackstore { .. } => ExportState { backing: None, ..s },
        ActionV::TcliCreateBackstore { block_store, device } => ExportState {
            backing: Some(device),
            ..s
        },
        ActionV::TcliCreateLun { .. } => ExportState { lun: true, ..s },
        ActionV::TcliCreatePortal { .. } => ExportState { portal: true, ..s },
        ActionV::TcliSaveConfig => ExportState { saved: true, ..s },
        _ => s,
    }
}

/// The reply of an export layer that answers every probe truthfully and
/// performs every command: a listing holds the probed name exactly when the
/// probed part exists.
pub open spec fn truthful_reply(s: ExportState, a: ActionV, iqn: Seq<char>, bs: Seq<char>) -> EventV {
    match a {
        ActionV::TcliListTargets => EventV::Output(
            if s.target {
                iqn
            } else {
                Seq::empty()
            },
        ),
        ActionV::TcliListBackstores => EventV::Output(
            if s.backing is Some {
                bs
            } else {
                Seq::empty()
            },
        ),
        ActionV::TcliListLuns { .. } => EventV::Output(
            if s.lun {
                bs
            } else {
                Seq::empty()
            },
        ),
        ActionV::TcliListPortals { .. } => EventV::Output(
            if s.portal {
                "0.0.0.0"@
            } else {
                Seq::empty()
            },
        ),
        _ => EventV::Done,
    }
}

/// Runs a setup machine to completion against a truthful export layer in
/// state `s`, yielding the layer's final state; `None` if `fuel` runs out.
pub open spec fn setup_run(m: SetupMachineV, s: ExportState, fuel: nat) -> Option<ExportState>
    decreases fuel,
{
    if fuel == 0 {
        None
    } else {
        let a = setup_pending(m);
        let ev = truthful_reply(s, a, m.target_iqn, m.block_store);
        let s2 = cmd_effect(s, a);
        let next = setup_next(m, ev);
        if next.1 is Done {
            Some(s2)
        } else {
            setup_run(next.0, s2, (fuel - 1) as nat)
        }
    }
}

/// The initial setup machine for the given unit.
pub open spec fn setup_init(iqn: Seq<char>, bs: Seq<char>, dev: Seq<char>) -> SetupMachineV {
    SetupMachineV { state: SetupState::ListTargets, target_iqn: iqn, block_store: bs, device: dev }
}

/// A completed setup run leaves the unit in `setup_effect`, whatever state it
/// started from: target present, backing store freshly bound to the device,
/// LUN mapped, portal bound, configuration saved.
pub proof fn lemma_setup_converges(
    iqn: Seq<char>,
    bs: Seq<char>,
    dev: Seq<char>,
    s: ExportState,
)
    requires
        iqn.len() > 0,
        bs.len() > 0,
    ensures
        setup_run(setup_init(iqn, bs, dev), s, 16) == Some(setup_effect(dev)),
{
    crate::text::lemma_contains_self(iqn);
    crate::text::lemma_contains_self(bs);
    crate::text::lemma_contains_self("0.0.0.0"@);
    crate::text::lemma_contains_empty(iqn);
    crate::text::lemma_contains_empty(bs);
    reveal_strlit("0.0.0.0");
    crate::text::lemma_contains_empty("0.0.0.0"@);
    reveal_with_fuel(setup_run, 16);
}

/// Setting the unit up twice with the same arguments leaves the same
/// observable state as setting it up once.
pub proof fn lemma_setup_idempotent(
    iqn: Seq<char>,
    bs: Seq<char>,
    dev: Seq<char>,
    s: ExportState,
)
    requires
        iqn.len() > 0,
        bs.len() > 0,
    ensures
        setup_run(setup_init(iqn, bs, dev), s, 16) == Some(setup_effect(dev)),
        setup_run(setup_init(iqn, bs, dev), setup_effect(dev), 16) == Some(setup_effect(dev)),
{
    lemma_setup_converges(iqn, bs, dev, s);
    lemma_setup_converges(iqn, bs, dev, setup_effect(dev));
}

} // verus!
