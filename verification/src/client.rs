//! The client lifecycle orchestrator.
//!
//! Each lifecycle operation — create, edit, delete, reset — is a step machine
//! that validates its input against the configuration document before any
//! external command, then sequences the storage, export and boot-layer
//! commands that the operation needs.  Create and edit abort on the first
//! failure; delete collects failures and always attempts every step.
use crate::config::{
    dup_conflict, msg_dup_ip, msg_dup_mac, spec_client_by_id, upsert_client, Client, ClientV,
    Config, ConfigV,
};
use crate::dhcp::dhcp_entry_spec;
use crate::machine::{Action, ActionV, Event, EventV, Outcome, OutcomeV, Step, StepV};
use crate::naming::{
    auto_snapshot_of, base_snapshot_of, block_store_of, clone_path_of, target_iqn_of, valid_id,
    zvol_path_of,
};
use crate::text::{eq_ignore_case, lower, trim_spec, upper};
use vstd::prelude::*;

verus! {

/// A request to create a client.
pub struct AddClientRequest {
    pub name: String,
    pub mac: String,
    pub ip: String,
    pub master: String,
    pub snapshot: Option<String>,
}

/// A power or management action requested for a client.
pub struct ControlRequest {
    pub action: String,
    pub make_super: Option<bool>,
}

/// A request to edit a client; a `None` field keeps the current value.
pub struct EditRequest {
    pub name: Option<String>,
    pub mac: Option<String>,
    pub ip: Option<String>,
    pub master: Option<String>,
    pub snapshot: Option<String>,
}

/// Status label derived from a reachability probe: clients without a usable
/// address are `Unknown`, others `Online` or `Offline` by the probe.
pub open spec fn status_label_spec(ip: Seq<char>, reachable: bool) -> Seq<char> {
    if ip.len() == 0 || ip == "N/A"@ {
        "Unknown"@
    } else if reachable {
        "Online"@
    } else {
        "Offline"@
    }
}

/// Classifies a client's liveness from its address and a probe result.
pub fn get_client_status(ip: &str, reachable: bool) -> (r: String)
    ensures
        r@ == status_label_spec(ip@, reachable),
{
    if ip.is_empty() || crate::text::str_eq(ip, "N/A") {
        String::from_str("Unknown")
    } else if reachable {
        String::from_str("Online")
    } else {
        String::from_str("Offline")
    }
}

/// The normalized client id of a requested name.
pub open spec fn norm_id(name: Seq<char>) -> Seq<char> {
    lower(trim_spec(name))
}

/// The normalized hardware address of a request.
pub open spec fn norm_mac(mac: Seq<char>) -> Seq<char> {
    upper(trim_spec(mac))
}

/// The error a create request is rejected with, if any: missing fields first,
/// then the first uniqueness conflict.
pub open spec fn create_request_error(
    cs: Seq<ClientV>,
    id: Seq<char>,
    mac: Seq<char>,
    ip: Seq<char>,
    master: Seq<char>,
) -> Option<Seq<char>> {
    if id.len() == 0 || mac.len() == 0 || ip.len() == 0 {
        Some("Missing required fields: name, mac, ip"@)
    } else if master.len() == 0 {
        Some("Master image is required"@)
    } else {
        dup_conflict(cs, id, mac, ip)
    }
}

/// Phase of the create sequence.
#[derive(Clone, Copy, PartialEq, Eq)]
pub enum CreateState {
    Probe,
    AutoSnap,
    CloneStep,
    Export,
    Dhcp,
    Persist,
    Restart,
    Finished,
}

/// Step machine that provisions a new client.
pub struct CreateMachine {
    pub state: CreateState,
    pub config: Config,
    pub id: String,
    pub mac: String,
    pub ip: String,
    pub master: String,
    pub snapshot: String,
    pub clone_path: String,
    pub target_iqn: String,
    pub block_store: String,
    pub block_device: String,
    pub writeback: String,
    pub server_ip: String,
    pub now: String,
}

/// Mathematical value of a [`CreateMachine`].
pub struct CreateMachineV {
    pub state: CreateState,
    pub config: ConfigV,
    pub id: Seq<char>,
    pub mac: Seq<char>,
    pub ip: Seq<char>,
    pub master: Seq<char>,
    pub snapshot: Seq<char>,
    pub clone_path: Seq<char>,
    pub target_iqn: Seq<char>,
    pub block_store: Seq<char>,
    pub block_device: Seq<char>,
    pub writeback: Seq<char>,
    pub server_ip: Seq<char>,
    pub now: Seq<char>,
}

impl View for CreateMachine {
    type V = CreateMachineV;

    open spec fn view(&self) -> CreateMachineV {
        CreateMachineV {
            state: self.state,
            config: self.config@,
            id: self.id@,
            mac: self.mac@,
            ip: self.ip@,
            master: self.master@,
            snapshot: self.snapshot@,
            clone_path: self.clone_path@,
            target_iqn: self.target_iqn@,
            block_store: self.block_store@,
            block_device: self.block_device@,
            writeback: self.writeback@,
            server_ip: self.server_ip@,
            now: self.now@,
        }
    }
}

/// The event kind each create phase expects.
pub open spec fn create_expects(state: CreateState, ev: EventV) -> bool {
    match state {
        CreateState::Probe => ev is Flag,
        CreateState::Finished => false,
        _ => ev is Done || ev is Failed,
    }
}

/// The record that a completed create run persists.
pub open spec fn create_record(m: CreateMachineV) -> ClientV {
    ClientV {
        id: m.id,
        name: upper(m.id),
        mac: m.mac,
        ip: m.ip,
        master: m.master,
        snapshot: if m.snapshot.len() == 0 {
            None
        } else {
            Some(m.snapshot)
        },
        block_store: Some(m.block_store),
        target_iqn: Some(m.target_iqn),
        writeback: Some(m.writeback),
        created_at: Some(m.now),
        last_modified: Some(m.now),
        block_device: Some(m.block_device),
        status: None,
        mode: None,
    }
}

/// The transition relation of the create machine.  Any failure aborts the
/// remaining steps and is returned as the operation's own failure; the
/// record write is no exception.
pub open spec fn create_next(m: CreateMachineV, ev: EventV) -> (CreateMachineV, StepV) {
    if ev is Failed {
        (
            CreateMachineV { state: CreateState::Finished, ..m },
            StepV::Done(OutcomeV::Failure { message: ev->Failed_0 }),
        )
    } else {
        match m.state {
            CreateState::Probe => {
                if ev->Flag_0 {
                    (
                        CreateMachineV { state: CreateState::AutoSnap, ..m },
                        StepV::Run(
                            ActionV::ZfsSnapshot { snapshot: auto_snapshot_of(m.master, m.id) },
                        ),
                    )
                } else {
                    let dev = zvol_path_of(m.master);
                    (
                        CreateMachineV {
                            state: CreateState::Export,
                            block_device: dev,
                            writeback: m.master,
                            ..m
                        },
                        StepV::Run(
                            ActionV::ExportSetup {
                                target_iqn: m.target_iqn,
                                block_store: m.block_store,
                                device: dev,
                            },
                        ),
                    )
                }
            },
            CreateState::AutoSnap => (
                CreateMachineV { state: CreateState::CloneStep, ..m },
                StepV::Run(
                    ActionV::ZfsClone {
                        snapshot: auto_snapshot_of(m.master, m.id),
                        clone: m.clone_path,
                    },
                ),
            ),
            CreateState::CloneStep => {
                let dev = zvol_path_of(m.clone_path);
                (
                    CreateMachineV {
                        state: CreateState::Export,
                        block_device: dev,
                        writeback: m.clone_path,
                        ..m
                    },
                    StepV::Run(
                        ActionV::ExportSetup {
                            target_iqn: m.target_iqn,
                            block_store: m.block_store,
                            device: dev,
                        },
                    ),
                )
            },
            CreateState::Export => (
                CreateMachineV { state: CreateState::Dhcp, ..m },
                StepV::Run(
                    ActionV::DhcpUpsert {
                        client_id: m.id,
                        entry: dhcp_entry_spec(m.id, m.mac, m.ip, m.target_iqn, m.server_ip),
                        is_new: true,
                    },
                ),
            ),
            CreateState::Dhcp => (
                CreateMachineV {
                    state: CreateState::Persist,
                    config: ConfigV {
                        clients: upsert_client(m.config.clients, create_record(m)),
                        ..m.config
                    },
                    ..m
                },
                StepV::Run(ActionV::PersistConfig),
            ),
            CreateState::Persist => (
                CreateMachineV { state: CreateState::Restart, ..m },
                StepV::Run(ActionV::DhcpRestart),
            ),
            CreateState::Restart => (
                CreateMachineV { state: CreateState::Finished, ..m },
                StepV::Done(
                    OutcomeV::Success {
                        message: "Client "@ + m.id + " added successfully"@,
                        warnings: Seq::empty(),
                    },
                ),
            ),
            CreateState::Finished => (m, StepV::Done(OutcomeV::Failure { message: Seq::empty() })),
        }
    }
}

/// Starts creating a client.  The request is normalized and checked against
/// the uniqueness rules before any external command: a conflict or a missing
/// field is rejected here, with nothing mutated.
pub fn add_client(config: Config, req: &AddClientRequest, server_ip: &str) -> (r: Result<
    (CreateMachine, Action),
    String,
>)
    ensures
        r matches Err(e) ==> create_request_error(
            config@.clients,
            norm_id(req.name@),
            norm_mac(req.mac@),
            trim_spec(req.ip@),
            trim_spec(req.master@),
        ) == Some(e@),
        r matches Ok(p) ==> {
            let m = p.0@;
            &&& create_request_error(
                config@.clients,
                norm_id(req.name@),
                norm_mac(req.mac@),
                trim_spec(req.ip@),
                trim_spec(req.master@),
            ) is None
            &&& m.config == config@
            &&& m.id == norm_id(req.name@)
            &&& m.mac == norm_mac(req.mac@)
            &&& m.ip == trim_spec(req.ip@)
            &&& m.master == trim_spec(req.master@)
            &&& m.snapshot == (match req.snapshot {
                Some(s) => trim_spec(s@),
                None => Seq::<char>::empty(),
            })
            &&& m.clone_path == clone_path_of(m.id)
            &&& m.target_iqn == target_iqn_of(m.id)
            &&& m.block_store == block_store_of(m.id)
            &&& m.server_ip == server_ip@
            &&& (m.snapshot.len() == 0 ==> m.state == CreateState::Probe && p.1@
                == ActionV::ZfsProbe { dataset: base_snapshot_of(m.master) })
            &&& (m.snapshot.len() > 0 ==> m.state == CreateState::CloneStep && p.1@
                == ActionV::ZfsClone { snapshot: m.snapshot, clone: m.clone_path })
        },
{
    let id = crate::text::to_lower(crate::text::trim(req.name.as_str()).as_str());
    let mac = crate::text::to_upper(crate::text::trim(req.mac.as_str()).as_str());
    let ip = crate::text::trim(req.ip.as_str());
    let master = crate::text::trim(req.master.as_str());
    let snapshot = match &req.snapshot {
        Some(s) => crate::text::trim(s.as_str()),
        None => String::new(),
    };
    if id.as_str().is_empty() || mac.as_str().is_empty() || ip.as_str().is_empty() {
        return Err(String::from_str("Missing required fields: name, mac, ip"));
    }
    if master.as_str().is_empty() {
        return Err(String::from_str("Master image is required"));
    }
    if let Some(msg) = crate::config::check_duplicate_client(
        &config,
        id.as_str(),
        mac.as_str(),
        ip.as_str(),
    ) {
        return Err(msg);
    }
    let paths = crate::naming::get_client_paths(id.as_str());
    let now = crate::time::timestamp_now();
    if !snapshot.as_str().is_empty() {
        let a = Action::ZfsClone { snapshot: snapshot.clone(), clone: paths.clone.clone() };
        let m = CreateMachine {
            state: CreateState::CloneStep,
            config,
            id,
            mac,
            ip,
            master,
            snapshot,
            clone_path: paths.clone,
            target_iqn: paths.target_iqn,
            block_store: paths.block_store,
            block_device: String::new(),
            writeback: String::new(),
            server_ip: String::from_str(server_ip),
            now,
        };
        Ok((m, a))
    } else {
        let a = Action::ZfsProbe { dataset: crate::naming::base_snapshot(master.as_str()) };
        let m = CreateMachine {
            state: CreateState::Probe,
            config,
            id,
            mac,
            ip,
            master,
            snapshot,
            clone_path: paths.clone,
            target_iqn: paths.target_iqn,
            block_store: paths.block_store,
            block_device: String::new(),
            writeback: String::new(),
            server_ip: String::from_str(server_ip),
            now,
        };
        Ok((m, a))
    }
}

impl CreateMachine {
    /// Feeds the pending command's reply in and yields the next step.
    pub fn step(&mut self, ev: Event) -> (r: Step)
        requires
            create_expects(old(self)@.state, ev@),
        ensures
            (final(self)@, r@) == create_next(old(self)@, ev@),
    {
        match ev {
            Event::Failed(e) => {
                self.state = CreateState::Finished;
                Step::Done(Outcome::Failure { message: e })
            },
            Event::Flag(found) => {
                // only the base-snapshot probe is answered with a flag
                if found {
                    self.state = CreateState::AutoSnap;
                    Step::Run(
                        Action::ZfsSnapshot {
                            snapshot: crate::naming::auto_snapshot(
                                self.master.as_str(),
                                self.id.as_str(),
                            ),
                        },
                    )
                } else {
                    self.block_device = crate::naming::zvol_path(self.master.as_str());
                    self.writeback = self.master.clone();
                    self.state = CreateState::Export;
                    Step::Run(
                        Action::ExportSetup {
                            target_iqn: self.target_iqn.clone(),
                            block_store: self.block_store.clone(),
                            device: self.block_device.clone(),
                        },
                    )
                }
            },
            _ => {
                match self.state {
                    CreateState::AutoSnap => {
                        self.state = CreateState::CloneStep;
                        Step::Run(
                            Action::ZfsClone {
                                snapshot: crate::naming::auto_snapshot(
                                    self.master.as_str(),
                                    self.id.as_str(),
                                ),
                                clone: self.clone_path.clone(),
                            },
                        )
                    },
                    CreateState::CloneStep => {
                        self.block_device = crate::naming::zvol_path(self.clone_path.as_str());
                        self.writeback = self.clone_path.clone();
                        self.state = CreateState::Export;
                        Step::Run(
                            Action::ExportSetup {
                                target_iqn: self.target_iqn.clone(),
                                block_store: self.block_store.clone(),
                                device: self.block_device.clone(),
                            },
                        )
                    },
                    CreateState::Export => {
                        self.state = CreateState::Dhcp;
                        let entry = crate::dhcp::create_dhcp_entry(
                            self.id.as_str(),
                            self.mac.as_str(),
                            self.ip.as_str(),
                            self.target_iqn.as_str(),
                            self.server_ip.as_str(),
                        );
                        Step::Run(
                            Action::DhcpUpsert {
                                client_id: self.id.clone(),
                                entry,
                                is_new: true,
                            },
                        )
                    },
                    CreateState::Dhcp => {
                        let record = Client {
                            id: self.id.clone(),
                            name: crate::text::to_upper(self.id.as_str()),
                            mac: self.mac.clone(),
                            ip: self.ip.clone(),
                            master: self.master.clone(),
                            snapshot: if self.snapshot.as_str().is_empty() {
                                None
                            } else {
                                Some(self.snapshot.clone())
                            },
                            block_store: Some(self.block_store.clone()),
                            target_iqn: Some(self.target_iqn.clone()),
                            writeback: Some(self.writeback.clone()),
                            created_at: Some(self.now.clone()),
                            last_modified: Some(self.now.clone()),
                            block_device: Some(self.block_device.clone()),
                            status: None,
                            mode: None,
                        };
                        proof {
                            assert(record@ == create_record(self@));
                        }
                        crate::config::save_client_config(&mut self.config, &record);
                        self.state = CreateState::Persist;
                        Step::Run(Action::PersistConfig)
                    },
                    CreateState::Persist => {
                        self.state = CreateState::Restart;
                        Step::Run(Action::DhcpRestart)
                    },
                    CreateState::Restart => {
                        self.state = CreateState::Finished;
                        let msg = String::from_str("Client ").concat(self.id.as_str()).concat(
                            " added successfully",
                        );
                        let w: Vec<String> = Vec::new();
                        proof {
                            assert(w.deep_view() =~= Seq::<Seq<char>>::empty());
                            assert(msg@ =~= "Client "@ + self@.id + " added successfully"@);
                        }
                        Step::Done(Outcome::Success { message: msg, warnings: w })
                    },
                    _ => {
                        // excluded by the expected-event requirement
                        self.state = CreateState::Finished;
                        Step::Done(Outcome::Failure { message: String::new() })
                    },
                }
            },
        }
    }

    /// The configuration document as this machine has updated it; persisted
    /// when the machine requests it.
    pub fn config(&self) -> (r: &Config)
        ensures
            r@ == self@.config,
    {
        &self.config
    }
}

/// After the create sequence has recorded the new client, reading the new
/// client's id back from the updated document finds exactly the record that
/// was stored, provided no existing record's id collides with the new id
/// case-insensitively.
pub proof fn lemma_create_round_trip(m: CreateMachineV, ev: EventV)
    requires
        m.state == CreateState::Dhcp,
        ev is Done,
        forall|k: int|
            0 <= k < m.config.clients.len() && eq_ignore_case(m.config.clients[k].id, m.id)
                ==> m.config.clients[k].id == m.id,
    ensures
        spec_client_by_id(create_next(m, ev).0.config.clients, m.id) == Some(create_record(m)),
{
    crate::config::lemma_saved_client_found(m.config.clients, create_record(m));
}

/// Error recorded when the boot-configuration cleanup fails during delete.
pub open spec fn msg_delete_dhcp(e: Seq<char>) -> Seq<char> {
    "Failed to clean up DHCP config: "@ + e
}

/// Error recorded when the export teardown reports warnings during delete.
pub open spec fn msg_delete_export(ws: Seq<Seq<char>>) -> Seq<char> {
    "Failed to clean up iSCSI target: "@ + crate::text::join_with(ws, "; "@)
}

/// Error recorded when the storage clone cannot be destroyed during delete.
pub open spec fn msg_delete_clone(e: Seq<char>) -> Seq<char> {
    "Failed to destroy ZFS clone: "@ + e
}

/// Phase of the delete sequence.
#[derive(Clone, Copy, PartialEq, Eq)]
pub enum DeleteState {
    Dhcp,
    Restart,
    Teardown,
    ProbeClone,
    DestroyClone,
    Persist,
    Finished,
}

/// Step machine that decommissions a client.  Every step is attempted; what
/// fails is collected and reported beside the overall success.
pub struct DeleteMachine {
    pub state: DeleteState,
    pub config: Config,
    pub client_id: String,
    pub clone_path: String,
    pub target_iqn: String,
    pub block_store: String,
    pub errors: Vec<String>,
}

/// Mathematical value of a [`DeleteMachine`].
pub struct DeleteMachineV {
    pub state: DeleteState,
    pub config: ConfigV,
    pub client_id: Seq<char>,
    pub clone_path: Seq<char>,
    pub target_iqn: Seq<char>,
    pub block_store: Seq<char>,
    pub errors: Seq<Seq<char>>,
}

impl View for DeleteMachine {
    type V = DeleteMachineV;

    open spec fn view(&self) -> DeleteMachineV {
        DeleteMachineV {
            state: self.state,
            config: self.config@,
            client_id: self.client_id@,
            clone_path: self.clone_path@,
            target_iqn: self.target_iqn@,
            block_store: self.block_store@,
            errors: self.errors.deep_view(),
        }
    }
}

/// The event kind each delete phase expects.
pub open spec fn delete_expects(state: DeleteState, ev: EventV) -> bool {
    match state {
        DeleteState::ProbeClone => ev is Flag,
        DeleteState::Teardown => ev is Warnings,
        DeleteState::Finished => false,
        _ => ev is Done || ev is Failed,
    }
}

/// The machine value after the client's record is removed from the document.
pub open spec fn delete_record_removed(m: DeleteMachineV) -> ConfigV {
    ConfigV { clients: crate::config::remove_clients(m.config.clients, m.client_id), ..m.config }
}

/// The outcome of a finished delete: success, with the collected errors and a
/// message that says whether there were any.
pub open spec fn delete_outcome(id: Seq<char>, errors: Seq<Seq<char>>) -> OutcomeV {
    OutcomeV::Success {
        message: if errors.len() == 0 {
            "Client "@ + id + " deleted successfully"@
        } else {
            "Client "@ + id + " deleted with issues"@
        },
        warnings: errors,
    }
}

/// The transition relation of the delete machine: no step failure aborts the
/// rest, and the record is removed from the document regardless.
pub open spec fn delete_next(m: DeleteMachineV, ev: EventV) -> (DeleteMachineV, StepV) {
    match m.state {
        DeleteState::Dhcp => {
            if ev is Failed {
                (
                    DeleteMachineV {
                        state: DeleteState::Teardown,
                        errors: m.errors.push(msg_delete_dhcp(ev->Failed_0)),
                        ..m
                    },
                    StepV::Run(
                        ActionV::ExportTeardown {
                            target_iqn: m.target_iqn,
                            block_store: m.block_store,
                        },
                    ),
                )
            } else {
                (
                    DeleteMachineV { state: DeleteState::Restart, ..m },
                    StepV::Run(ActionV::DhcpRestart),
                )
            }
        },
        DeleteState::Restart => {
            let ms = if ev is Failed {
                m.errors.push(msg_delete_dhcp(ev->Failed_0))
            } else {
                m.errors
            };
            (
                DeleteMachineV { state: DeleteState::Teardown, errors: ms, ..m },
                StepV::Run(
                    ActionV::ExportTeardown {
                        target_iqn: m.target_iqn,
                        block_store: m.block_store,
                    },
                ),
            )
        },
        DeleteState::Teardown => {
            let ws = ev->Warnings_0;
            let ms = if ws.len() > 0 {
                m.errors.push(msg_delete_export(ws))
            } else {
                m.errors
            };
            (
                DeleteMachineV { state: DeleteState::ProbeClone, errors: ms, ..m },
                StepV::Run(ActionV::ZfsProbe { dataset: m.clone_path }),
            )
        },
        DeleteState::ProbeClone => {
            if ev->Flag_0 {
                (
                    DeleteMachineV { state: DeleteState::DestroyClone, ..m },
                    StepV::Run(ActionV::ZfsDestroy { dataset: m.clone_path }),
                )
            } else {
                (
                    DeleteMachineV {
                        state: DeleteState::Persist,
                        config: delete_record_removed(m),
                        ..m
                    },
                    StepV::Run(ActionV::PersistConfig),
                )
            }
        },
        DeleteState::DestroyClone => {
            let ms = if ev is Failed {
                m.errors.push(msg_delete_clone(ev->Failed_0))
            } else {
                m.errors
            };
            (
                DeleteMachineV {
                    state: DeleteState::Persist,
                    config: delete_record_removed(m),
                    errors: ms,
                    ..m
                },
                StepV::Run(ActionV::PersistConfig),
            )
        },
        DeleteState::Persist => {
            let ms = if ev is Failed {
                m.errors.push("Failed to delete client configuration file"@)
            } else {
                m.errors
            };
            (
                DeleteMachineV { state: DeleteState::Finished, errors: ms, ..m },
                StepV::Done(delete_outcome(m.client_id, ms)),
            )
        },
        DeleteState::Finished => (m, StepV::Done(OutcomeV::Failure { message: Seq::empty() })),
    }
}

/// Starts deleting a client.  Only the id's syntax is checked; deletion is
/// attempted even for a client with no record, cleaning derived resources.
pub fn delete_client(config: Config, client_id: &str) -> (r: Result<(DeleteMachine, Action), String>)
    ensures
        r matches Err(e) ==> !valid_id(client_id@) && e@ == "Invalid client ID"@,
        r matches Ok(p) ==> {
            let m = p.0@;
            &&& valid_id(client_id@)
            &&& m.config == config@
            &&& m.client_id == client_id@
            &&& m.clone_path == clone_path_of(client_id@)
            &&& m.target_iqn == target_iqn_of(client_id@)
            &&& m.block_store == block_store_of(client_id@)
            &&& m.errors == Seq::<Seq<char>>::empty()
            &&& m.state == DeleteState::Dhcp
            &&& p.1@ == (ActionV::DhcpUpsert {
                client_id: client_id@,
                entry: Seq::<char>::empty(),
                is_new: false,
            })
        },
{
    if !crate::naming::check_valid_id(client_id) {
        return Err(String::from_str("Invalid client ID"));
    }
    let paths = crate::naming::get_client_paths(client_id);
    let errors: Vec<String> = Vec::new();
    proof {
        assert(errors.deep_view() =~= Seq::<Seq<char>>::empty());
    }
    let m = DeleteMachine {
        state: DeleteState::Dhcp,
        config,
        client_id: String::from_str(client_id),
        clone_path: paths.clone,
        target_iqn: paths.target_iqn,
        block_store: paths.block_store,
        errors,
    };
    let a = Action::DhcpUpsert {
        client_id: String::from_str(client_id),
        entry: String::new(),
        is_new: false,
    };
    Ok((m, a))
}

impl DeleteMachine {
    /// Feeds the pending command's reply in and yields the next step.
    pub fn step(&mut self, ev: Event) -> (r: Step)
        requires
            delete_expects(old(self)@.state, ev@),
        ensures
            (final(self)@, r@) == delete_next(old(self)@, ev@),
    {
        match self.state {
            DeleteState::Dhcp => {
                if let Event::Failed(e) = ev {
                    let ghost before = self.errors.deep_view();
                    let msg = String::from_str("Failed to clean up DHCP config: ").concat(
                        e.as_str(),
                    );
                    proof {
                        assert(msg@ =~= msg_delete_dhcp(e@));
                    }
                    self.errors.push(msg);
                    proof {
                        assert(self.errors.deep_view() =~= before.push(msg_delete_dhcp(e@)));
                    }
                    self.state = DeleteState::Teardown;
                    Step::Run(
                        Action::ExportTeardown {
                            target_iqn: self.target_iqn.clone(),
                            block_store: self.block_store.clone(),
                        },
                    )
                } else {
                    self.state = DeleteState::Restart;
                    Step::Run(Action::DhcpRestart)
                }
            },
            DeleteState::Restart => {
                if let Event::Failed(e) = ev {
                    let ghost before = self.errors.deep_view();
                    let msg = String::from_str("Failed to clean up DHCP config: ").concat(
                        e.as_str(),
                    );
                    proof {
                        assert(msg@ =~= msg_delete_dhcp(e@));
                    }
                    self.errors.push(msg);
                    proof {
                        assert(self.errors.deep_view() =~= before.push(msg_delete_dhcp(e@)));
                    }
                }
                self.state = DeleteState::Teardown;
                Step::Run(
                    Action::ExportTeardown {
                        target_iqn: self.target_iqn.clone(),
                        block_store: self.block_store.clone(),
                    },
                )
            },
            DeleteState::Teardown => {
                if let Event::Warnings(ws) = ev {
                    if ws.len() > 0 {
                        let ghost before = self.errors.deep_view();
                        let joined = crate::text::join_strings(&ws, "; ");
                        let msg = String::from_str("Failed to clean up iSCSI target: ").concat(
                            joined.as_str(),
                        );
                        proof {
                            assert(msg@ =~= msg_delete_export(ws.deep_view()));
                        }
                        self.errors.push(msg);
                        proof {
                            assert(self.errors.deep_view() =~= before.push(
                                msg_delete_export(ws.deep_view()),
                            ));
                        }
                    }
                }
                self.state = DeleteState::ProbeClone;
                Step::Run(Action::ZfsProbe { dataset: self.clone_path.clone() })
            },
            DeleteState::ProbeClone => {
                let found = if let Event::Flag(f) = ev {
                    f
                } else {
                    false
                };
                if found {
                    self.state = DeleteState::DestroyClone;
                    Step::Run(Action::ZfsDestroy { dataset: self.clone_path.clone() })
                } else {
                    crate::config::delete_client_config(&mut self.config, self.client_id.as_str());
                    self.state = DeleteState::Persist;
                    Step::Run(Action::PersistConfig)
                }
            },
            DeleteState::DestroyClone => {
                if let Event::Failed(e) = ev {
                    let ghost before = self.errors.deep_view();
                    let msg = String::from_str("Failed to destroy ZFS clone: ").concat(e.as_str());
                    proof {
                        assert(msg@ =~= msg_delete_clone(e@));
                    }
                    self.errors.push(msg);
                    proof {
                        assert(self.errors.deep_view() =~= before.push(msg_delete_clone(e@)));
                    }
                }
                crate::config::delete_client_config(&mut self.config, self.client_id.as_str());
                self.state = DeleteState::Persist;
                Step::Run(Action::PersistConfig)
            },
            DeleteState::Persist => {
                if let Event::Failed(_) = ev {
                    let ghost before = self.errors.deep_view();
                    let msg = String::from_str("Failed to delete client configuration file");
                    self.errors.push(msg);
                    proof {
                        assert(self.errors.deep_view() =~= before.push(
                            "Failed to delete client configuration file"@,
                        ));
                    }
                }
                self.state = DeleteState::Finished;
                let msg = if self.errors.len() == 0 {
                    String::from_str("Client ").concat(self.client_id.as_str()).concat(
                        " deleted successfully",
                    )
                } else {
                    String::from_str("Client ").concat(self.client_id.as_str()).concat(
                        " deleted with issues",
                    )
                };
                proof {
                    if self.errors.deep_view().len() == 0 {
                        assert(msg@ =~= "Client "@ + self@.client_id + " deleted successfully"@);
                    } else {
                        assert(msg@ =~= "Client "@ + self@.client_id + " deleted with issues"@);
                    }
                }
                Step::Done(Outcome::Success { message: msg, warnings: self.errors.clone() })
            },
            DeleteState::Finished => {
                // excluded by the expected-event requirement
                Step::Done(Outcome::Failure { message: String::new() })
            },
        }
    }

    /// The configuration document as this machine has updated it.
    pub fn config(&self) -> (r: &Config)
        ensures
            r@ == self@.config,
    {
        &self.config
    }

    /// Takes the configuration document out of a finished machine.
    pub fn into_config(self) -> (r: Config)
        ensures
            r@ == self@.config,
    {
        self.config
    }
}

/// The error a reset request is rejected with, if any: bad id syntax, an
/// unknown client, or a client with no recorded snapshot.
pub open spec fn reset_request_error(cs: Seq<ClientV>, id: Seq<char>) -> Option<Seq<char>> {
    if !valid_id(id) {
        Some("Invalid client ID"@)
    } else {
        match spec_client_by_id(cs, id) {
            None => Some("Client "@ + id + " not found"@),
            Some(c) => match c.snapshot {
                Some(s) => if s.len() == 0 {
                    Some("No snapshot found for client"@)
                } else {
                    None
                },
                None => Some("No snapshot found for client"@),
            },
        }
    }
}

/// Phase of the reset sequence.
#[derive(Clone, Copy, PartialEq, Eq)]
pub enum ResetState {
    Teardown,
    Probe,
    Destroy,
    CloneStep,
    Export,
    Finished,
}

/// Step machine that re-clones a client's disk from its recorded snapshot.
/// It never touches the boot configuration or the client's record.
pub struct ResetMachine {
    pub state: ResetState,
    pub client_id: String,
    pub snapshot: String,
    pub clone_path: String,
    pub target_iqn: String,
    pub block_store: String,
}

/// Mathematical value of a [`ResetMachine`].
pub struct ResetMachineV {
    pub state: ResetState,
    pub client_id: Seq<char>,
    pub snapshot: Seq<char>,
    pub clone_path: Seq<char>,
    pub target_iqn: Seq<char>,
    pub block_store: Seq<char>,
}

impl View for ResetMachine {
    type V = ResetMachineV;

    open spec fn view(&self) -> ResetMachineV {
        ResetMachineV {
            state: self.state,
            client_id: self.client_id@,
            snapshot: self.snapshot@,
            clone_path: self.clone_path@,
            target_iqn: self.target_iqn@,
            block_store: self.block_store@,
        }
    }
}

/// The event kind each reset phase expects.
pub open spec fn reset_expects(state: ResetState, ev: EventV) -> bool {
    match state {
        ResetState::Teardown => ev is Warnings,
        ResetState::Probe => ev is Flag,
        ResetState::Finished => false,
        _ => ev is Done || ev is Failed,
    }
}

/// The transition relation of the reset machine: the export teardown is
/// best-effort, every later failure aborts.
pub open spec fn reset_next(m: ResetMachineV, ev: EventV) -> (ResetMachineV, StepV) {
    match m.state {
        ResetState::Teardown => (
            ResetMachineV { state: ResetState::Probe, ..m },
            StepV::Run(ActionV::ZfsProbe { dataset: m.clone_path }),
        ),
        ResetState::Probe => {
            if ev->Flag_0 {
                (
                    ResetMachineV { state: ResetState::Destroy, ..m },
                    StepV::Run(ActionV::ZfsDestroy { dataset: m.clone_path }),
                )
            } else {
                (
                    ResetMachineV { state: ResetState::CloneStep, ..m },
                    StepV::Run(ActionV::ZfsClone { snapshot: m.snapshot, clone: m.clone_path }),
                )
            }
        },
        ResetState::Destroy => {
            if ev is Failed {
                (
                    ResetMachineV { state: ResetState::Finished, ..m },
                    StepV::Done(
                        OutcomeV::Failure {
                            message: "Failed to destroy existing ZFS clone: "@ + ev->Failed_0,
                        },
                    ),
                )
            } else {
                (
                    ResetMachineV { state: ResetState::CloneStep, ..m },
                    StepV::Run(ActionV::ZfsClone { snapshot: m.snapshot, clone: m.clone_path }),
                )
            }
        },
        ResetState::CloneStep => {
            if ev is Failed {
                (
                    ResetMachineV { state: ResetState::Finished, ..m },
                    StepV::Done(
                        OutcomeV::Failure {
                            message: "Failed to create ZFS clone: "@ + ev->Failed_0,
                        },
                    ),
                )
            } else {
                (
                    ResetMachineV { state: ResetState::Export, ..m },
                    StepV::Run(
                        ActionV::ExportSetup {
                            target_iqn: m.target_iqn,
                            block_store: m.block_store,
                            device: zvol_path_of(m.clone_path),
                        },
                    ),
                )
            }
        },
        ResetState::Export => {
            if ev is Failed {
                (
                    ResetMachineV { state: ResetState::Finished, ..m },
                    StepV::Done(
                        OutcomeV::Failure {
                            message: "Failed to set up iSCSI target: "@ + ev->Failed_0,
                        },
                    ),
                )
            } else {
                (
                    ResetMachineV { state: ResetState::Finished, ..m },
                    StepV::Done(
                        OutcomeV::Success {
                            message: "Client "@ + upper(m.client_id) + " reset successfully"@,
                            warnings: Seq::empty(),
                        },
                    ),
                )
            }
        },
        ResetState::Finished => (m, StepV::Done(OutcomeV::Failure { message: Seq::empty() })),
    }
}

/// Starts resetting a client.  The client must exist and have a recorded
/// snapshot; otherwise the request is rejected here, before any storage or
/// export command.
pub fn reset_client(config: &Config, client_id: &str) -> (r: Result<(ResetMachine, Action), String>)
    ensures
        r matches Err(e) ==> reset_request_error(config@.clients, client_id@) == Some(e@),
        r matches Ok(p) ==> {
            let m = p.0@;
            &&& reset_request_error(config@.clients, client_id@) is None
            &&& m.client_id == client_id@
            &&& Some(m.snapshot) == spec_client_by_id(
                config@.clients,
                client_id@,
            )->Some_0.snapshot
            &&& m.clone_path == clone_path_of(client_id@)
            &&& m.target_iqn == target_iqn_of(client_id@)
            &&& m.block_store == block_store_of(client_id@)
            &&& m.state == ResetState::Teardown
            &&& p.1@ == (ActionV::ExportTeardown {
                target_iqn: target_iqn_of(client_id@),
                block_store: block_store_of(client_id@),
            })
        },
{
    if !crate::naming::check_valid_id(client_id) {
        return Err(String::from_str("Invalid client ID"));
    }
    let found = crate::config::get_client_by_id(config, client_id);
    let client = match found {
        Some(c) => c,
        None => {
            let msg = String::from_str("Client ").concat(client_id).concat(" not found");
            proof {
                assert(msg@ =~= "Client "@ + client_id@ + " not found"@);
            }
            return Err(msg);
        },
    };
    let snapshot = match &client.snapshot {
        Some(s) => {
            if s.as_str().is_empty() {
                return Err(String::from_str("No snapshot found for client"));
            }
            s.clone()
        },
        None => {
            return Err(String::from_str("No snapshot found for client"));
        },
    };
    let paths = crate::naming::get_client_paths(client_id);
    let a = Action::ExportTeardown {
        target_iqn: paths.target_iqn.clone(),
        block_store: paths.block_store.clone(),
    };
    let m = ResetMachine {
        state: ResetState::Teardown,
        client_id: String::from_str(client_id),
        snapshot,
        clone_path: paths.clone,
        target_iqn: paths.target_iqn,
        block_store: paths.block_store,
    };
    Ok((m, a))
}

impl ResetMachine {
    /// Feeds the pending command's reply in and yields the next step.
    pub fn step(&mut self, ev: Event) -> (r: Step)
        requires
            reset_expects(old(self)@.state, ev@),
        ensures
            (final(self)@, r@) == reset_next(old(self)@, ev@),
    {
        match self.state {
            ResetState::Teardown => {
                self.state = ResetState::Probe;
                Step::Run(Action::ZfsProbe { dataset: self.clone_path.clone() })
            },
            ResetState::Probe => {
                let found = if let Event::Flag(f) = ev {
                    f
                } else {
                    false
                };
                if found {
                    self.state = ResetState::Destroy;
                    Step::Run(Action::ZfsDestroy { dataset: self.clone_path.clone() })
                } else {
                    self.state = ResetState::CloneStep;
                    Step::Run(
                        Action::ZfsClone {
                            snapshot: self.snapshot.clone(),
                            clone: self.clone_path.clone(),
                        },
                    )
                }
            },
            ResetState::Destroy => {
                if let Event::Failed(e) = ev {
                    self.state = ResetState::Finished;
                    let msg = String::from_str("Failed to destroy existing ZFS clone: ").concat(
                        e.as_str(),
                    );
                    proof {
                        assert(msg@ =~= "Failed to destroy existing ZFS clone: "@ + e@);
                    }
                    Step::Done(Outcome::Failure { message: msg })
                } else {
                    self.state = ResetState::CloneStep;
                    Step::Run(
                        Action::ZfsClone {
                            snapshot: self.snapshot.clone(),
                            clone: self.clone_path.clone(),
                        },
                    )
                }
            },
            ResetState::CloneStep => {
                if let Event::Failed(e) = ev {
                    self.state = ResetState::Finished;
                    let msg = String::from_str("Failed to create ZFS clone: ").concat(e.as_str());
                    proof {
                        assert(msg@ =~= "Failed to create ZFS clone: "@ + e@);
                    }
                    Step::Done(Outcome::Failure { message: msg })
                } else {
                    self.state = ResetState::Export;
                    Step::Run(
                        Action::ExportSetup {
                            target_iqn: self.target_iqn.clone(),
                            block_store: self.block_store.clone(),
                            device: crate::naming::zvol_path(self.clone_path.as_str()),
                        },
                    )
                }
            },
            ResetState::Export => {
                self.state = ResetState::Finished;
                if let Event::Failed(e) = ev {
                    let msg = String::from_str("Failed to set up iSCSI target: ").concat(
                        e.as_str(),
                    );
                    proof {
                        assert(msg@ =~= "Failed to set up iSCSI target: "@ + e@);
                    }
                    Step::Done(Outcome::Failure { message: msg })
                } else {
                    let msg = String::from_str("Client ").concat(
                        crate::text::to_upper(self.client_id.as_str()).as_str(),
                    ).concat(" reset successfully");
                    let w: Vec<String> = Vec::new();
                    proof {
                        assert(w.deep_view() =~= Seq::<Seq<char>>::empty());
                        assert(msg@ =~= "Client "@ + upper(self@.client_id)
                            + " reset successfully"@);
                    }
                    Step::Done(Outcome::Success { message: msg, warnings: w })
                }
            },
            ResetState::Finished => {
                // excluded by the expected-event requirement
                Step::Done(Outcome::Failure { message: String::new() })
            },
        }
    }
}

/// The value an edit takes for one field: the requested value if given, else
/// the current one, trimmed.
pub open spec fn edit_val(field: Option<Seq<char>>, cur: Seq<char>) -> Seq<char> {
    trim_spec(
        match field {
            Some(v) => v,
            None => cur,
        },
    )
}

/// The first uniqueness conflict of the edited address and hardware address
/// against the other clients; records whose id matches the edited client's id
/// case-insensitively are its own and are skipped.
pub open spec fn dup_conflict_edit(
    cs: Seq<ClientV>,
    self_id: Seq<char>,
    mac: Seq<char>,
    ip: Seq<char>,
) -> Option<Seq<char>>
    decreases cs.len(),
{
    if cs.len() == 0 {
        None
    } else if eq_ignore_case(cs[0].id, self_id) {
        dup_conflict_edit(cs.drop_first(), self_id, mac, ip)
    } else if ip == cs[0].ip {
        Some(msg_dup_ip(ip, cs[0].name))
    } else if upper(mac) == upper(cs[0].mac) {
        Some(msg_dup_mac(mac, cs[0].name))
    } else {
        dup_conflict_edit(cs.drop_first(), self_id, mac, ip)
    }
}

/// Checks an edited client against the uniqueness rules, ignoring the edited
/// client's own record.
pub fn check_duplicate_edit(config: &Config, self_id: &str, mac: &str, ip: &str) -> (r: Option<
    String,
>)
    ensures
        r.deep_view() == dup_conflict_edit(config@.clients, self_id@, mac@, ip@),
{
    let cs = &config.clients;
    let n = cs.len();
    let mut i: usize = 0;
    proof {
        assert(config@.clients.skip(0) =~= config@.clients);
    }
    while i < n
        invariant
            n == cs@.len(),
            cs@ == config.clients@,
            0 <= i <= n,
            dup_conflict_edit(config@.clients, self_id@, mac@, ip@) == dup_conflict_edit(
                config@.clients.skip(i as int),
                self_id@,
                mac@,
                ip@,
            ),
        decreases n - i,
    {
        let ghost tail = config@.clients.skip(i as int);
        proof {
            assert(tail[0] == config@.clients[i as int]);
            assert(config@.clients[i as int] == config.clients@[i as int].deep_view());
            assert(tail.drop_first() =~= config@.clients.skip(i + 1));
        }
        let c = &cs[i];
        if !crate::text::str_eq_ignore_case(c.id.as_str(), self_id) {
            if crate::text::str_eq(ip, c.ip.as_str()) {
                let msg = String::from_str("IP address ").concat(ip).concat(
                    " is already in use by client '",
                ).concat(c.name.as_str()).concat("'");
                proof {
                    assert(msg@ =~= msg_dup_ip(ip@, config@.clients[i as int].name));
                }
                return Some(msg);
            }
            let mac_up = crate::text::to_upper(mac);
            let c_mac_up = crate::text::to_upper(c.mac.as_str());
            if mac_up == c_mac_up {
                let msg = String::from_str("MAC address ").concat(mac).concat(
                    " is already in use by client '",
                ).concat(c.name.as_str()).concat("'");
                proof {
                    assert(msg@ =~= msg_dup_mac(mac@, config@.clients[i as int].name));
                }
                return Some(msg);
            }
        }
        i = i + 1;
    }
    proof {
        assert(config@.clients.skip(n as int) =~= Seq::<ClientV>::empty());
    }
    None
}

/// The error an edit request is rejected with, if any: bad id syntax, an
/// unknown client, a missing field, or a uniqueness conflict.
pub open spec fn edit_request_error(
    cs: Seq<ClientV>,
    client_id: Seq<char>,
    req_name: Option<Seq<char>>,
    req_mac: Option<Seq<char>>,
    req_ip: Option<Seq<char>>,
    req_master: Option<Seq<char>>,
    req_snapshot: Option<Seq<char>>,
) -> Option<Seq<char>> {
    if !valid_id(client_id) {
        Some("Invalid client ID"@)
    } else {
        match spec_client_by_id(cs, client_id) {
            None => Some("Client "@ + client_id + " not found"@),
            Some(c) => {
                let nname = edit_val(req_name, c.name);
                let nmac = upper(edit_val(req_mac, c.mac));
                let nip = edit_val(req_ip, c.ip);
                let nmaster = edit_val(req_master, c.master);
                if nname.len() == 0 || nmac.len() == 0 || nip.len() == 0 {
                    Some("Missing required fields: name, mac, ip"@)
                } else if nmaster.len() == 0 {
                    Some("Master image is required"@)
                } else {
                    dup_conflict_edit(cs, c.id, nmac, nip)
                }
            },
        }
    }
}

/// Phase of the edit sequence.
#[derive(Clone, Copy, PartialEq, Eq)]
pub enum EditState {
    MacIpDhcp,
    MacIpPersist,
    ProbeOld,
    Teardown,
    DestroyOld,
    CloneNew,
    DhcpNew,
    ExportNew,
    PersistNew,
    Finished,
}

/// Step machine that reconfigures a client.  An address-only change touches
/// only the boot configuration and the record; a change of name, master or
/// snapshot re-provisions the storage clone and the export unit under the new
/// derived names, destroying the old clone first, with no rollback if a later
/// step fails.
pub struct EditMachine {
    pub state: EditState,
    pub config: Config,
    pub client_id: String,
    pub current: Client,
    pub new_name: String,
    pub new_mac: String,
    pub new_ip: String,
    pub new_master: String,
    pub new_snapshot: String,
    pub new_iqn: String,
    pub new_bs: String,
    pub new_clone: String,
    pub block_device: String,
    pub server_ip: String,
    pub now: String,
    pub name_changed: bool,
}

/// Mathematical value of an [`EditMachine`].
pub struct EditMachineV {
    pub state: EditState,
    pub config: ConfigV,
    pub client_id: Seq<char>,
    pub current: ClientV,
    pub new_name: Seq<char>,
    pub new_mac: Seq<char>,
    pub new_ip: Seq<char>,
    pub new_master: Seq<char>,
    pub new_snapshot: Seq<char>,
    pub new_iqn: Seq<char>,
    pub new_bs: Seq<char>,
    pub new_clone: Seq<char>,
    pub block_device: Seq<char>,
    pub server_ip: Seq<char>,
    pub now: Seq<char>,
    pub name_changed: bool,
}

impl View for EditMachine {
    type V = EditMachineV;

    open spec fn view(&self) -> EditMachineV {
        EditMachineV {
            state: self.state,
            config: self.config@,
            client_id: self.client_id@,
            current: self.current@,
            new_name: self.new_name@,
            new_mac: self.new_mac@,
            new_ip: self.new_ip@,
            new_master: self.new_master@,
            new_snapshot: self.new_snapshot@,
            new_iqn: self.new_iqn@,
            new_bs: self.new_bs@,
            new_clone: self.new_clone@,
            block_device: self.block_device@,
            server_ip: self.server_ip@,
            now: self.now@,
            name_changed: self.name_changed,
        }
    }
}

/// The event kind each edit phase expects.
pub open spec fn edit_expects(state: EditState, ev: EventV) -> bool {
    match state {
        EditState::ProbeOld => ev is Flag,
        EditState::Teardown => ev is Warnings,
        EditState::Finished => false,
        _ => ev is Done || ev is Failed,
    }
}

/// The record persisted by an address-only edit: addresses and modification
/// time change, everything else is kept.
pub open spec fn edit_record_mac_ip(m: EditMachineV) -> ClientV {
    ClientV { mac: m.new_mac, ip: m.new_ip, last_modified: Some(m.now), ..m.current }
}

/// The record persisted by a re-provisioning edit: identity and derived
/// resource names follow the new name.
pub open spec fn edit_record_full(m: EditMachineV) -> ClientV {
    ClientV {
        id: lower(m.new_name),
        name: m.new_name,
        mac: m.new_mac,
        ip: m.new_ip,
        master: m.new_master,
        snapshot: if m.new_snapshot.len() == 0 {
            None
        } else {
            Some(m.new_snapshot)
        },
        target_iqn: Some(m.new_iqn),
        block_store: Some(m.new_bs),
        block_device: Some(m.block_device),
        writeback: Some(m.new_clone),
        last_modified: Some(m.now),
        ..m.current
    }
}

/// The transition relation of the edit machine.  Any failure aborts the
/// remaining steps and is returned as the operation's own failure; the
/// record write is no exception.
pub open spec fn edit_next(m: EditMachineV, ev: EventV) -> (EditMachineV, StepV) {
    if ev is Failed {
        (
            EditMachineV { state: EditState::Finished, ..m },
            StepV::Done(OutcomeV::Failure { message: ev->Failed_0 }),
        )
    } else {
        match m.state {
            EditState::MacIpDhcp => (
                EditMachineV {
                    state: EditState::MacIpPersist,
                    config: ConfigV {
                        clients: upsert_client(m.config.clients, edit_record_mac_ip(m)),
                        ..m.config
                    },
                    ..m
                },
                StepV::Run(ActionV::PersistConfig),
            ),
            EditState::MacIpPersist => (
                EditMachineV { state: EditState::Finished, ..m },
                StepV::Done(
                    OutcomeV::Success {
                        message: "Successfully updated client "@ + m.client_id,
                        warnings: Seq::empty(),
                    },
                ),
            ),
            EditState::ProbeOld => {
                if ev->Flag_0 {
                    (
                        EditMachineV { state: EditState::Teardown, ..m },
                        StepV::Run(
                            ActionV::ExportTeardown {
                                target_iqn: target_iqn_of(m.client_id),
                                block_store: block_store_of(m.client_id),
                            },
                        ),
                    )
                } else {
                    (
                        EditMachineV { state: EditState::CloneNew, ..m },
                        StepV::Run(
                            ActionV::ZfsClone { snapshot: m.new_snapshot, clone: m.new_clone },
                        ),
                    )
                }
            },
            EditState::Teardown => (
                EditMachineV { state: EditState::DestroyOld, ..m },
                StepV::Run(ActionV::ZfsDestroy { dataset: clone_path_of(m.client_id) }),
            ),
            EditState::DestroyOld => (
                EditMachineV { state: EditState::CloneNew, ..m },
                StepV::Run(ActionV::ZfsClone { snapshot: m.new_snapshot, clone: m.new_clone }),
            ),
            EditState::CloneNew => {
                let dev = zvol_path_of(m.new_clone);
                (
                    EditMachineV { state: EditState::DhcpNew, block_device: dev, ..m },
                    StepV::Run(
                        ActionV::DhcpUpsert {
                            client_id: m.client_id,
                            entry: dhcp_entry_spec(
                                m.new_name,
                                m.new_mac,
                                m.new_ip,
                                m.new_iqn,
                                m.server_ip,
                            ),
                            is_new: false,
                        },
                    ),
                )
            },
            EditState::DhcpNew => (
                EditMachineV { state: EditState::ExportNew, ..m },
                StepV::Run(
                    ActionV::ExportSetup {
                        target_iqn: m.new_iqn,
                        block_store: m.new_bs,
                        device: m.block_device,
                    },
                ),
            ),
            EditState::ExportNew => {
                let base = if m.name_changed {
                    crate::config::remove_clients(m.config.clients, m.client_id)
                } else {
                    m.config.clients
                };
                (
                    EditMachineV {
                        state: EditState::PersistNew,
                        config: ConfigV {
                            clients: upsert_client(base, edit_record_full(m)),
                            ..m.config
                        },
                        ..m
                    },
                    StepV::Run(ActionV::PersistConfig),
                )
            },
            EditState::PersistNew => (
                EditMachineV { state: EditState::Finished, ..m },
                StepV::Done(
                    OutcomeV::Success {
                        message: "Successfully updated client "@ + m.client_id
                            + " and associated resources"@,
                        warnings: Seq::empty(),
                    },
                ),
            ),
            EditState::Finished => (m, StepV::Done(OutcomeV::Failure { message: Seq::empty() })),
        }
    }
}

/// Picks the requested value of a field, or keeps the current one; the result
/// is trimmed.
fn edit_field(field: &Option<String>, cur: &str) -> (r: String)
    ensures
        r@ == edit_val(field.deep_view(), cur@),
{
    match field {
        Some(v) => crate::text::trim(v.as_str()),
        None => crate::text::trim(cur),
    }
}

/// Starts editing a client.  The id must name an existing client and the
/// edited values must pass the same field and uniqueness checks as a create;
/// a request that changes nothing finishes at once with nothing mutated.
pub fn edit_client(config: Config, client_id: &str, req: &EditRequest, server_ip: &str) -> (r:
    Result<(EditMachine, Step), String>)
    ensures
        r matches Err(e) ==> edit_request_error(
            config@.clients,
            client_id@,
            req.name.deep_view(),
            req.mac.deep_view(),
            req.ip.deep_view(),
            req.master.deep_view(),
            req.snapshot.deep_view(),
        ) == Some(e@),
        r matches Ok(p) ==> {
            let m = p.0@;
            let c = spec_client_by_id(config@.clients, client_id@)->Some_0;
            let cur_snap = match c.snapshot {
                Some(sv) => sv,
                None => Seq::<char>::empty(),
            };
            &&& edit_request_error(
                config@.clients,
                client_id@,
                req.name.deep_view(),
                req.mac.deep_view(),
                req.ip.deep_view(),
                req.master.deep_view(),
                req.snapshot.deep_view(),
            ) is None
            &&& m.config == config@
            &&& m.client_id == client_id@
            &&& m.current == c
            &&& m.new_name == edit_val(req.name.deep_view(), c.name)
            &&& m.new_mac == upper(edit_val(req.mac.deep_view(), c.mac))
            &&& m.new_ip == edit_val(req.ip.deep_view(), c.ip)
            &&& m.new_master == edit_val(req.master.deep_view(), c.master)
            &&& m.new_snapshot == edit_val(req.snapshot.deep_view(), cur_snap)
            &&& m.new_iqn == target_iqn_of(m.new_name)
            &&& m.new_bs == block_store_of(m.new_name)
            &&& m.new_clone == clone_path_of(m.new_name)
            &&& m.server_ip == server_ip@
            &&& m.name_changed == (m.new_name != c.name)
            &&& {
                let mac_ip_changed = m.new_mac != c.mac || m.new_ip != c.ip;
                let shape_changed = m.name_changed || m.new_master != c.master || m.new_snapshot
                    != cur_snap;
                if mac_ip_changed && !shape_changed {
                    &&& m.state == EditState::MacIpDhcp
                    &&& p.1@ == StepV::Run(
                        ActionV::DhcpUpsert {
                            client_id: client_id@,
                            entry: dhcp_entry_spec(
                                c.name,
                                m.new_mac,
                                m.new_ip,
                                match c.target_iqn {
                                    Some(t) => t,
                                    None => Seq::<char>::empty(),
                                },
                                server_ip@,
                            ),
                            is_new: false,
                        },
                    )
                } else if shape_changed && m.new_snapshot.len() > 0 {
                    &&& m.state == EditState::ProbeOld
                    &&& p.1@ == StepV::Run(
                        ActionV::ZfsProbe { dataset: clone_path_of(client_id@) },
                    )
                } else if shape_changed {
                    &&& m.state == EditState::DhcpNew
                    &&& m.block_device == zvol_path_of(m.new_master)
                    &&& p.1@ == StepV::Run(
                        ActionV::DhcpUpsert {
                            client_id: client_id@,
                            entry: dhcp_entry_spec(
                                m.new_name,
                                m.new_mac,
                                m.new_ip,
                                m.new_iqn,
                                server_ip@,
                            ),
                            is_new: false,
                        },
                    )
                } else {
                    &&& m.state == EditState::Finished
                    &&& p.1@ == StepV::Done(
                        OutcomeV::Success {
                            message: "No changes detected or no action required"@,
                            warnings: Seq::empty(),
                        },
                    )
                }
            }
        },
{
    if !crate::naming::check_valid_id(client_id) {
        return Err(String::from_str("Invalid client ID"));
    }
    let found = crate::config::get_client_by_id(&config, client_id);
    let current = match found {
        Some(c) => c,
        None => {
            let msg = String::from_str("Client ").concat(client_id).concat(" not found");
            proof {
                assert(msg@ =~= "Client "@ + client_id@ + " not found"@);
            }
            return Err(msg);
        },
    };
    let cur_snap = match &current.snapshot {
        Some(sv) => sv.clone(),
        None => String::new(),
    };
    let new_name = edit_field(&req.name, current.name.as_str());
    let new_mac = crate::text::to_upper(edit_field(&req.mac, current.mac.as_str()).as_str());
    let new_ip = edit_field(&req.ip, current.ip.as_str());
    let new_master = edit_field(&req.master, current.master.as_str());
    let new_snapshot = edit_field(&req.snapshot, cur_snap.as_str());
    if new_name.as_str().is_empty() || new_mac.as_str().is_empty() || new_ip.as_str().is_empty() {
        return Err(String::from_str("Missing required fields: name, mac, ip"));
    }
    if new_master.as_str().is_empty() {
        return Err(String::from_str("Master image is required"));
    }
    if let Some(msg) = check_duplicate_edit(
        &config,
        current.id.as_str(),
        new_mac.as_str(),
        new_ip.as_str(),
    ) {
        return Err(msg);
    }
    let name_changed = !crate::text::str_eq(new_name.as_str(), current.name.as_str());
    let mac_changed = !crate::text::str_eq(new_mac.as_str(), current.mac.as_str());
    let ip_changed = !crate::text::str_eq(new_ip.as_str(), current.ip.as_str());
    let master_changed = !crate::text::str_eq(new_master.as_str(), current.master.as_str());
    let snapshot_changed = !crate::text::str_eq(new_snapshot.as_str(), cur_snap.as_str());
    let new_paths = crate::naming::get_client_paths(new_name.as_str());
    let now = crate::time::timestamp_now();
    let shape_changed = name_changed || master_changed || snapshot_changed;
    let mut m = EditMachine {
        state: EditState::Finished,
        config,
        client_id: String::from_str(client_id),
        current,
        new_name,
        new_mac,
        new_ip,
        new_master,
        new_snapshot,
        new_iqn: new_paths.target_iqn,
        new_bs: new_paths.block_store,
        new_clone: new_paths.clone,
        block_device: String::new(),
        server_ip: String::from_str(server_ip),
        now,
        name_changed,
    };
    if (mac_changed || ip_changed) && !shape_changed {
        m.state = EditState::MacIpDhcp;
        let cur_iqn = match &m.current.target_iqn {
            Some(t) => t.clone(),
            None => String::new(),
        };
        let entry = crate::dhcp::create_dhcp_entry(
            m.current.name.as_str(),
            m.new_mac.as_str(),
            m.new_ip.as_str(),
            cur_iqn.as_str(),
            m.server_ip.as_str(),
        );
        let a = Action::DhcpUpsert {
            client_id: String::from_str(client_id),
            entry,
            is_new: false,
        };
        Ok((m, Step::Run(a)))
    } else if shape_changed && !m.new_snapshot.as_str().is_empty() {
        m.state = EditState::ProbeOld;
        let old_paths = crate::naming::get_client_paths(client_id);
        let a = Action::ZfsProbe { dataset: old_paths.clone };
        Ok((m, Step::Run(a)))
    } else if shape_changed {
        m.state = EditState::DhcpNew;
        m.block_device = crate::naming::zvol_path(m.new_master.as_str());
        let entry = crate::dhcp::create_dhcp_entry(
            m.new_name.as_str(),
            m.new_mac.as_str(),
            m.new_ip.as_str(),
            m.new_iqn.as_str(),
            m.server_ip.as_str(),
        );
        let a = Action::DhcpUpsert {
            client_id: String::from_str(client_id),
            entry,
            is_new: false,
        };
        Ok((m, Step::Run(a)))
    } else {
        let w: Vec<String> = Vec::new();
        proof {
            assert(w.deep_view() =~= Seq::<Seq<char>>::empty());
        }
        let msg = String::from_str("No changes detected or no action required");
        Ok((m, Step::Done(Outcome::Success { message: msg, warnings: w })))
    }
}

impl EditMachine {
    /// Feeds the pending command's reply in and yields the next step.
    pub fn step(&mut self, ev: Event) -> (r: Step)
        requires
            edit_expects(old(self)@.state, ev@),
        ensures
            (final(self)@, r@) == edit_next(old(self)@, ev@),
    {
        if let Event::Failed(e) = ev {
            self.state = EditState::Finished;
            return Step::Done(Outcome::Failure { message: e });
        }
        match self.state {
            EditState::MacIpDhcp => {
                let record = Client {
                    mac: self.new_mac.clone(),
                    ip: self.new_ip.clone(),
                    last_modified: Some(self.now.clone()),
                    ..self.current.clone()
                };
                proof {
                    assert(record@ == edit_record_mac_ip(self@));
                }
                crate::config::save_client_config(&mut self.config, &record);
                self.state = EditState::MacIpPersist;
                Step::Run(Action::PersistConfig)
            },
            EditState::MacIpPersist => {
                self.state = EditState::Finished;
                let msg = String::from_str("Successfully updated client ").concat(
                    self.client_id.as_str(),
                );
                let w: Vec<String> = Vec::new();
                proof {
                    assert(w.deep_view() =~= Seq::<Seq<char>>::empty());
                    assert(msg@ =~= "Successfully updated client "@ + self@.client_id);
                }
                Step::Done(Outcome::Success { message: msg, warnings: w })
            },
            EditState::ProbeOld => {
                let found = if let Event::Flag(f) = ev {
                    f
                } else {
                    false
                };
                if found {
                    self.state = EditState::Teardown;
                    let old_paths = crate::naming::get_client_paths(self.client_id.as_str());
                    Step::Run(
                        Action::ExportTeardown {
                            target_iqn: old_paths.target_iqn,
                            block_store: old_paths.block_store,
                        },
                    )
                } else {
                    self.state = EditState::CloneNew;
                    Step::Run(
                        Action::ZfsClone {
                            snapshot: self.new_snapshot.clone(),
                            clone: self.new_clone.clone(),
                        },
                    )
                }
            },
            EditState::Teardown => {
                self.state = EditState::DestroyOld;
                let old_paths = crate::naming::get_client_paths(self.client_id.as_str());
                Step::Run(Action::ZfsDestroy { dataset: old_paths.clone })
            },
            EditState::DestroyOld => {
                self.state = EditState::CloneNew;
                Step::Run(
                    Action::ZfsClone {
                        snapshot: self.new_snapshot.clone(),
                        clone: self.new_clone.clone(),
                    },
                )
            },
            EditState::CloneNew => {
                self.block_device = crate::naming::zvol_path(self.new_clone.as_str());
                self.state = EditState::DhcpNew;
                let entry = crate::dhcp::create_dhcp_entry(
                    self.new_name.as_str(),
                    self.new_mac.as_str(),
                    self.new_ip.as_str(),
                    self.new_iqn.as_str(),
                    self.server_ip.as_str(),
                );
                Step::Run(
                    Action::DhcpUpsert {
                        client_id: self.client_id.clone(),
                        entry,
                        is_new: false,
                    },
                )
            },
            EditState::DhcpNew => {
                self.state = EditState::ExportNew;
                Step::Run(
                    Action::ExportSetup {
                        target_iqn: self.new_iqn.clone(),
                        block_store: self.new_bs.clone(),
                        device: self.block_device.clone(),
                    },
                )
            },
            EditState::ExportNew => {
                let record = Client {
                    id: crate::text::to_lower(self.new_name.as_str()),
                    name: self.new_name.clone(),
                    mac: self.new_mac.clone(),
                    ip: self.new_ip.clone(),
                    master: self.new_master.clone(),
                    snapshot: if self.new_snapshot.as_str().is_empty() {
                        None
                    } else {
                        Some(self.new_snapshot.clone())
                    },
                    target_iqn: Some(self.new_iqn.clone()),
                    block_store: Some(self.new_bs.clone()),
                    block_device: Some(self.block_device.clone()),
                    writeback: Some(self.new_clone.clone()),
                    last_modified: Some(self.now.clone()),
                    ..self.current.clone()
                };
                proof {
                    assert(record@ == edit_record_full(self@));
                }
                if self.name_changed {
                    crate::config::delete_client_config(&mut self.config, self.client_id.as_str());
                }
                crate::config::save_client_config(&mut self.config, &record);
                self.state = EditState::PersistNew;
                Step::Run(Action::PersistConfig)
            },
            EditState::PersistNew => {
                self.state = EditState::Finished;
                let msg = String::from_str("Successfully updated client ").concat(
                    self.client_id.as_str(),
                ).concat(" and associated resources");
                let w: Vec<String> = Vec::new();
                proof {
                    assert(w.deep_view() =~= Seq::<Seq<char>>::empty());
                    assert(msg@ =~= "Successfully updated client "@ + self@.client_id
                        + " and associated resources"@);
                }
                Step::Done(Outcome::Success { message: msg, warnings: w })
            },
            EditState::Finished => {
                // excluded by the expected-event requirement
                Step::Done(Outcome::Failure { message: String::new() })
            },
        }
    }

    /// The configuration document as this machine has updated it.
    pub fn config(&self) -> (r: &Config)
        ensures
            r@ == self@.config,
    {
        &self.config
    }

    /// Takes the configuration document out of a finished machine.
    pub fn into_config(self) -> (r: Config)
        ensures
            r@ == self@.config,
    {
        self.config
    }
}

/// What a control action resolves to: a wake packet, a remote management
/// command, or an acknowledged stub.
pub enum ControlPlan {
    /// Send a wake packet to the hardware address.
    Wake { mac: String, message: String },
    /// Send a remote reboot (`reboot` true) or shutdown command to the
    /// address.
    Remote { reboot: bool, ip: String, message: String },
    /// Nothing to run; the action is acknowledged with the message.
    Ack { message: String },
}

/// Mathematical value of a [`ControlPlan`].
pub enum ControlPlanV {
    Wake { mac: Seq<char>, message: Seq<char> },
    Remote { reboot: bool, ip: Seq<char>, message: Seq<char> },
    Ack { message: Seq<char> },
}

impl View for ControlPlan {
    type V = ControlPlanV;

    open spec fn view(&self) -> ControlPlanV {
        match self {
            ControlPlan::Wake { mac, message } => ControlPlanV::Wake {
                mac: mac@,
                message: message@,
            },
            ControlPlan::Remote { reboot, ip, message } => ControlPlanV::Remote {
                reboot: *reboot,
                ip: ip@,
                message: message@,
            },
            ControlPlan::Ack { message } => ControlPlanV::Ack { message: message@ },
        }
    }
}

/// The decision a control request resolves to, or the error it is rejected
/// with.
pub open spec fn control_spec(
    cs: Seq<ClientV>,
    client_id: Seq<char>,
    action: Seq<char>,
    make_super: Option<bool>,
) -> Result<ControlPlanV, Seq<char>> {
    match spec_client_by_id(cs, client_id) {
        None => Err("Client "@ + client_id + " not found"@),
        Some(c) => {
            if action == "wake"@ {
                if c.mac.len() == 0 {
                    Err("MAC address not found for '"@ + c.name + "'"@)
                } else {
                    Ok(
                        ControlPlanV::Wake {
                            mac: c.mac,
                            message: "Wake-on-LAN command sent to "@ + c.name + " ("@ + c.ip
                                + ")"@,
                        },
                    )
                }
            } else if action == "reboot"@ {
                if c.ip.len() == 0 {
                    Err("IP address not found for '"@ + client_id + "'"@)
                } else {
                    Ok(
                        ControlPlanV::Remote {
                            reboot: true,
                            ip: c.ip,
                            message: "Reboot command sent to "@ + c.name + " ("@ + c.ip + ")"@,
                        },
                    )
                }
            } else if action == "shutdown"@ {
                if c.ip.len() == 0 {
                    Err("IP address not found for '"@ + client_id + "'"@)
                } else {
                    Ok(
                        ControlPlanV::Remote {
                            reboot: false,
                            ip: c.ip,
                            message: "Shutdown command sent to "@ + c.name + " ("@ + c.ip + ")"@,
                        },
                    )
                }
            } else if action == "toggleSuper"@ {
                let on = match make_super {
                    Some(b) => b,
                    None => false,
                };
                Ok(
                    ControlPlanV::Ack {
                        message: if on {
                            "Super Client enabled for "@ + client_id
                        } else {
                            "Super Client disabled for "@ + client_id
                        },
                    },
                )
            } else if action == "edit"@ {
                Ok(
                    ControlPlanV::Ack {
                        message: "Placeholder: Edit Client "@ + client_id + " not implemented."@,
                    },
                )
            } else {
                Err("Invalid action: "@ + action)
            }
        },
    }
}

/// Resolves a control request: validates the client and the action and
/// decides which command, if any, is to be run.  The promoted-client actions
/// are accepted and acknowledged without effect.
pub fn control_client(config: &Config, client_id: &str, req: &ControlRequest) -> (r: Result<
    ControlPlan,
    String,
>)
    ensures
        r matches Ok(p) ==> control_spec(
            config@.clients,
            client_id@,
            req.action@,
            req.make_super,
        ) == Ok::<ControlPlanV, Seq<char>>(p@),
        r matches Err(e) ==> control_spec(
            config@.clients,
            client_id@,
            req.action@,
            req.make_super,
        ) == Err::<ControlPlanV, Seq<char>>(e@),
{
    let found = crate::config::get_client_by_id(config, client_id);
    let client = match found {
        Some(c) => c,
        None => {
            let msg = String::from_str("Client ").concat(client_id).concat(" not found");
            proof {
                assert(msg@ =~= "Client "@ + client_id@ + " not found"@);
            }
            return Err(msg);
        },
    };
    if crate::text::str_eq(req.action.as_str(), "wake") {
        if client.mac.as_str().is_empty() {
            let msg = String::from_str("MAC address not found for '").concat(
                client.name.as_str(),
            ).concat("'");
            proof {
                assert(msg@ =~= "MAC address not found for '"@ + client@.name + "'"@);
            }
            return Err(msg);
        }
        let msg = String::from_str("Wake-on-LAN command sent to ").concat(
            client.name.as_str(),
        ).concat(" (").concat(client.ip.as_str()).concat(")");
        proof {
            assert(msg@ =~= "Wake-on-LAN command sent to "@ + client@.name + " ("@ + client@.ip
                + ")"@);
        }
        Ok(ControlPlan::Wake { mac: client.mac.clone(), message: msg })
    } else if crate::text::str_eq(req.action.as_str(), "reboot") {
        if client.ip.as_str().is_empty() {
            let msg = String::from_str("IP address not found for '").concat(client_id).concat(
                "'",
            );
            proof {
                assert(msg@ =~= "IP address not found for '"@ + client_id@ + "'"@);
            }
            return Err(msg);
        }
        let msg = String::from_str("Reboot command sent to ").concat(client.name.as_str()).concat(
            " (",
        ).concat(client.ip.as_str()).concat(")");
        proof {
            assert(msg@ =~= "Reboot command sent to "@ + client@.name + " ("@ + client@.ip + ")"@);
        }
        Ok(ControlPlan::Remote { reboot: true, ip: client.ip.clone(), message: msg })
    } else if crate::text::str_eq(req.action.as_str(), "shutdown") {
        if client.ip.as_str().is_empty() {
            let msg = String::from_str("IP address not found for '").concat(client_id).concat(
                "'",
            );
            proof {
                assert(msg@ =~= "IP address not found for '"@ + client_id@ + "'"@);
            }
            return Err(msg);
        }
        let msg = String::from_str("Shutdown command sent to ").concat(
            client.name.as_str(),
        ).concat(" (").concat(client.ip.as_str()).concat(")");
        proof {
            assert(msg@ =~= "Shutdown command sent to "@ + client@.name + " ("@ + client@.ip
                + ")"@);
        }
        Ok(ControlPlan::Remote { reboot: false, ip: client.ip.clone(), message: msg })
    } else if crate::text::str_eq(req.action.as_str(), "toggleSuper") {
        let on = match req.make_super {
            Some(b) => b,
            None => false,
        };
        let msg = if on {
            String::from_str("Super Client enabled for ").concat(client_id)
        } else {
            String::from_str("Super Client disabled for ").concat(client_id)
        };
        proof {
            if on {
                assert(msg@ =~= "Super Client enabled for "@ + client_id@);
            } else {
                assert(msg@ =~= "Super Client disabled for "@ + client_id@);
            }
        }
        Ok(ControlPlan::Ack { message: msg })
    } else if crate::text::str_eq(req.action.as_str(), "edit") {
        let msg = String::from_str("Placeholder: Edit Client ").concat(client_id).concat(
            " not implemented.",
        );
        proof {
            assert(msg@ =~= "Placeholder: Edit Client "@ + client_id@ + " not implemented."@);
        }
        Ok(ControlPlan::Ack { message: msg })
    } else {
        let msg = String::from_str("Invalid action: ").concat(req.action.as_str());
        proof {
            assert(msg@ =~= "Invalid action: "@ + req.action@);
        }
        Err(msg)
    }
}

/// Resolves a remote-desktop request to the client's address: the client must
/// exist and have one.  Whether the client is reachable is probed by the
/// caller afterwards.
pub fn remote_client_target(config: &Config, client_id: &str) -> (r: Result<String, String>)
    ensures
        r matches Ok(ip) ==> {
            &&& spec_client_by_id(config@.clients, client_id@) matches Some(c)
            &&& ip@ == spec_client_by_id(config@.clients, client_id@)->Some_0.ip
            &&& ip@.len() > 0
        },
        r matches Err(e) ==> {
            ||| (spec_client_by_id(config@.clients, client_id@) is None && e@
                == "Client not found"@)
            ||| (spec_client_by_id(config@.clients, client_id@) matches Some(c) && c.ip.len() == 0
                && e@ == "Client IP not found"@)
        },
{
    let found = crate::config::get_client_by_id(config, client_id);
    match found {
        None => Err(String::from_str("Client not found")),
        Some(c) => {
            if c.ip.as_str().is_empty() {
                Err(String::from_str("Client IP not found"))
            } else {
                Ok(c.ip)
            }
        },
    }
}

/// A clean duplicate check means no existing client collides on name,
/// address or hardware address.
pub proof fn lemma_dup_conflict_none(
    cs: Seq<ClientV>,
    name: Seq<char>,
    mac: Seq<char>,
    ip: Seq<char>,
)
    requires
        dup_conflict(cs, name, mac, ip) is None,
    ensures
        forall|k: int|
            0 <= k < cs.len() ==> lower(name) != lower(cs[k].name) && ip != cs[k].ip && upper(mac)
                != upper(cs[k].mac),
    decreases cs.len(),
{
    if cs.len() > 0 {
        lemma_dup_conflict_none(cs.drop_first(), name, mac, ip);
        assert forall|k: int|
            0 <= k < cs.len() implies lower(name) != lower(cs[k].name) && ip != cs[k].ip && upper(
                mac,
            ) != upper(cs[k].mac) by {
            if k > 0 {
                assert(cs.drop_first()[k - 1] == cs[k]);
            }
        }
    }
}

/// Client names are pairwise distinct case-insensitively, addresses and
/// hardware addresses pairwise distinct, and each record's id is its name
/// folded to lower case.
pub open spec fn unique_clients(cs: Seq<ClientV>) -> bool {
    &&& forall|i: int, j: int|
        0 <= i < j < cs.len() ==> lower(cs[i].name) != lower(cs[j].name) && cs[i].ip != cs[j].ip
            && upper(cs[i].mac) != upper(cs[j].mac)
    &&& forall|i: int| 0 <= i < cs.len() ==> lower(cs[i].id) == lower(cs[i].name)
}

/// Uniqueness is preserved by a completed create: when the existing records
/// satisfy the uniqueness rules — which also makes every id distinct
/// case-insensitively — the records after the new client is stored satisfy
/// them again.
pub proof fn lemma_create_preserves_uniqueness(m: CreateMachineV, ev: EventV)
    requires
        m.state == CreateState::Dhcp,
        ev is Done,
        unique_clients(m.config.clients),
        dup_conflict(m.config.clients, m.id, m.mac, m.ip) is None,
        m.id == lower(m.id),
    ensures
        unique_clients(create_next(m, ev).0.config.clients),
        forall|i: int, j: int|
            0 <= i < j < create_next(m, ev).0.config.clients.len() ==> !eq_ignore_case(
                create_next(m, ev).0.config.clients[i].id,
                create_next(m, ev).0.config.clients[j].id,
            ),
{
    let cs = m.config.clients;
    let record = create_record(m);
    lemma_dup_conflict_none(cs, m.id, m.mac, m.ip);
    crate::text::lemma_lower_idem(m.id);
    assert forall|k: int| 0 <= k < cs.len() implies cs[k].id != record.id by {
        if cs[k].id == record.id {
            assert(lower(cs[k].name) == lower(cs[k].id));
            assert(lower(m.id) == lower(cs[k].name));
        }
    }
    crate::config::lemma_upsert_client_push(cs, record);
    let cs2 = create_next(m, ev).0.config.clients;
    assert(cs2 == cs.push(record));
    crate::text::lemma_lower_upper(m.id);
    assert(lower(record.name) == lower(m.id));
    assert(lower(record.id) == lower(record.name));
    assert forall|i: int, j: int|
        0 <= i < j < cs2.len() implies lower(cs2[i].name) != lower(cs2[j].name) && cs2[i].ip
        != cs2[j].ip && upper(cs2[i].mac) != upper(cs2[j].mac) by {
        if j == cs.len() {
            assert(cs2[i] == cs[i]);
            assert(cs2[j] == record);
        } else {
            assert(cs2[i] == cs[i]);
            assert(cs2[j] == cs[j]);
        }
    }
    assert forall|i: int, j: int|
        0 <= i < j < cs2.len() implies !eq_ignore_case(cs2[i].id, cs2[j].id) by {
        assert(lower(cs2[i].id) == lower(cs2[i].name));
        assert(lower(cs2[j].id) == lower(cs2[j].name));
    }
}

} // verus!
