//! The vocabulary of the lifecycle step machines.
//!
//! A step machine sequences one lifecycle operation.  It never performs an
//! external command itself: `step` hands out an [`Action`] describing the next
//! command, the surrounding binary performs it and replies with an [`Event`],
//! and the machine decides what follows.  A machine ends by returning an
//! [`Outcome`].
use vstd::prelude::*;

verus! {

/// One external command requested by a step machine.
pub enum Action {
    /// Probe whether a storage dataset exists; answered with `Flag`.
    ZfsProbe { dataset: String },
    /// Take a snapshot; answered with `Done` or `Failed`.
    ZfsSnapshot { snapshot: String },
    /// Clone a snapshot to a new dataset; answered with `Done` or `Failed`.
    ZfsClone { snapshot: String, clone: String },
    /// Destroy a dataset; answered with `Done`, or `Failed` carrying the
    /// storage tool's error text.
    ZfsDestroy { dataset: String },
    /// Create a sparse volume of the given size; answered with `Done` or
    /// `Failed`.
    ZfsCreateVolume { name: String, size: String },
    /// Run the whole export setup sequence (a nested step machine); answered
    /// with `Done` or `Failed`.
    ExportSetup { target_iqn: String, block_store: String, device: String },
    /// Run the whole export teardown sequence (a nested step machine);
    /// answered with `Warnings` listing what could not be removed.
    ExportTeardown { target_iqn: String, block_store: String },
    /// Rewrite the boot-configuration file through
    /// [`crate::dhcp::update_dhcp_config`]; answered with `Done` or `Failed`.
    DhcpUpsert { client_id: String, entry: String, is_new: bool },
    /// Restart the boot service; answered with `Done` or `Failed`.
    DhcpRestart,
    /// Persist the machine's configuration document; answered with `Done` or
    /// `Failed`.
    PersistConfig,
    /// List export targets; answered with `Output` of the listing.
    TcliListTargets,
    /// Create an export target; answered with `Done` or `Failed`.
    TcliCreateTarget { target_iqn: String },
    /// Delete an export target; answered with `Done` or `Failed`.
    TcliDeleteTarget { target_iqn: String },
    /// Set one attribute on a target's portal group; answered with `Done` or
    /// `Failed`.
    TcliSetAttr { target_iqn: String, attr: String },
    /// List backing stores; answered with `Output` of the listing.
    TcliListBackstores,
    /// Delete a backing store; answered with `Done` or `Failed`.
    TcliDeleteBackstore { block_store: String },
    /// Create a backing store over a device; answered with `Done` or
    /// `Failed`.
    TcliCreateBackstore { block_store: String, device: String },
    /// List a target's LUNs; answered with `Output` of the listing.
    TcliListLuns { target_iqn: String },
    /// Map a backing store as a LUN; answered with `Done` or `Failed`.
    TcliCreateLun { target_iqn: String, block_store: String },
    /// List a target's portals; answered with `Output` of the listing.
    TcliListPortals { target_iqn: String },
    /// Bind the portal on all interfaces; answered with `Done` or `Failed`.
    TcliCreatePortal { target_iqn: String },
    /// Persist the export-layer configuration; answered with `Done` or
    /// `Failed`.
    TcliSaveConfig,
}

/// Mathematical value of an [`Action`].
pub enum ActionV {
    ZfsProbe { dataset: Seq<char> },
    ZfsSnapshot { snapshot: Seq<char> },
    ZfsClone { snapshot: Seq<char>, clone: Seq<char> },
    ZfsDestroy { dataset: Seq<char> },
    ZfsCreateVolume { name: Seq<char>, size: Seq<char> },
    ExportSetup { target_iqn: Seq<char>, block_store: Seq<char>, device: Seq<char> },
    ExportTeardown { target_iqn: Seq<char>, block_store: Seq<char> },
    DhcpUpsert { client_id: Seq<char>, entry: Seq<char>, is_new: bool },
    DhcpRestart,
    PersistConfig,
    TcliListTargets,
    TcliCreateTarget { target_iqn: Seq<char> },
    TcliDeleteTarget { target_iqn: Seq<char> },
    TcliSetAttr { target_iqn: Seq<char>, attr: Seq<char> },
    TcliListBackstores,
    TcliDeleteBackstore { block_store: Seq<char> },
    TcliCreateBackstore { block_store: Seq<char>, device: Seq<char> },
    TcliListLuns { target_iqn: Seq<char> },
    TcliCreateLun { target_iqn: Seq<char>, block_store: Seq<char> },
    TcliListPortals { target_iqn: Seq<char> },
    TcliCreatePortal { target_iqn: Seq<char> },
    TcliSaveConfig,
}

impl View for Action {
    type V = ActionV;

    open spec fn view(&self) -> ActionV {
        match self {
            Action::ZfsProbe { dataset } => ActionV::ZfsProbe { dataset: dataset@ },
            Action::ZfsSnapshot { snapshot } => ActionV::ZfsSnapshot { snapshot: snapshot@ },
            Action::ZfsClone { snapshot, clone } => ActionV::ZfsClone {
                snapshot: snapshot@,
                clone: clone@,
            },
            Action::ZfsDestroy { dataset } => ActionV::ZfsDestroy { dataset: dataset@ },
            Action::ZfsCreateVolume { name, size } => ActionV::ZfsCreateVolume {
                name: name@,
                size: size@,
            },
            Action::ExportSetup { target_iqn, block_store, device } => ActionV::ExportSetup {
                target_iqn: target_iqn@,
                block_store: block_store@,
                device: device@,
            },
            Action::ExportTeardown { target_iqn, block_store } => ActionV::ExportTeardown {
                target_iqn: target_iqn@,
                block_store: block_store@,
            },
            Action::DhcpUpsert { client_id, entry, is_new } => ActionV::DhcpUpsert {
                client_id: client_id@,
                entry: entry@,
                is_new: *is_new,
            },
            Action::DhcpRestart => ActionV::DhcpRestart,
            Action::PersistConfig => ActionV::PersistConfig,
            Action::TcliListTargets => ActionV::TcliListTargets,
            Action::TcliCreateTarget { target_iqn } => ActionV::TcliCreateTarget {
                target_iqn: target_iqn@,
            },
            Action::TcliDeleteTarget { target_iqn } => ActionV::TcliDeleteTarget {
                target_iqn: target_iqn@,
            },
            Action::TcliSetAttr { target_iqn, attr } => ActionV::TcliSetAttr {
                target_iqn: target_iqn@,
                attr: attr@,
            },
            Action::TcliListBackstores => ActionV::TcliListBackstores,
            Action::TcliDeleteBackstore { block_store } => ActionV::TcliDeleteBackstore {
                block_store: block_store@,
            },
            Action::TcliCreateBackstore { block_store, device } => ActionV::TcliCreateBackstore {
                block_store: block_store@,
                device: device@,
            },
            Action::TcliListLuns { target_iqn } => ActionV::TcliListLuns {
                target_iqn: target_iqn@,
            },
            Action::TcliCreateLun { target_iqn, block_store } => ActionV::TcliCreateLun {
                target_iqn: target_iqn@,
                block_store: block_store@,
            },
            Action::TcliListPortals { target_iqn } => ActionV::TcliListPortals {
                target_iqn: target_iqn@,
            },
            Action::TcliCreatePortal { target_iqn } => ActionV::TcliCreatePortal {
                target_iqn: target_iqn@,
            },
            Action::TcliSaveConfig => ActionV::TcliSaveConfig,
        }
    }
}

/// The reply to one [`Action`].
pub enum Event {
    /// The command completed.
    Done,
    /// The command failed; the payload is the failure text.
    Failed(String),
    /// The probe's yes-or-no answer.
    Flag(bool),
    /// A listing command's output.
    Output(String),
    /// A best-effort sequence completed; the payload lists what failed.
    Warnings(Vec<String>),
}

/// Mathematical value of an [`Event`].
pub enum EventV {
    Done,
    Failed(Seq<char>),
    Flag(bool),
    Output(Seq<char>),
    Warnings(Seq<Seq<char>>),
}

impl View for Event {
    type V = EventV;

    open spec fn view(&self) -> EventV {
        match self {
            Event::Done => EventV::Done,
            Event::Failed(m) => EventV::Failed(m@),
            Event::Flag(b) => EventV::Flag(*b),
            Event::Output(o) => EventV::Output(o@),
            Event::Warnings(w) => EventV::Warnings(w.deep_view()),
        }
    }
}

/// How one lifecycle operation ended.
pub enum Outcome {
    /// The operation succeeded; `warnings` lists best-effort steps that
    /// failed along the way.
    Success { message: String, warnings: Vec<String> },
    /// The operation failed.
    Failure { message: String },
}

/// Mathematical value of an [`Outcome`].
pub enum OutcomeV {
    Success { message: Seq<char>, warnings: Seq<Seq<char>> },
    Failure { message: Seq<char> },
}

impl View for Outcome {
    type V = OutcomeV;

    open spec fn view(&self) -> OutcomeV {
        match self {
            Outcome::Success { message, warnings } => OutcomeV::Success {
                message: message@,
                warnings: warnings.deep_view(),
            },
            Outcome::Failure { message } => OutcomeV::Failure { message: message@ },
        }
    }
}

/// What a step machine does next: run a command, or finish.
pub enum Step {
    Run(Action),
    Done(Outcome),
}

/// Mathematical value of a [`Step`].
pub enum StepV {
    Run(ActionV),
    Done(OutcomeV),
}

impl View for Step {
    type V = StepV;

    open spec fn view(&self) -> StepV {
        match self {
            Step::Run(a) => StepV::Run(a@),
            Step::Done(o) => StepV::Done(o@),
        }
    }
}

} // verus!
