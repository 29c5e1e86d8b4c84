//! Storage provisioning: masters, snapshots and the step machines that
//! create and destroy them.
//!
//! Masters and snapshots carry referential-integrity obligations: a master or
//! snapshot referenced by a client's record must not be destroyed, and the
//! check happens here, before any destructive storage command.
use crate::config::{
    dependents_of_master, dependents_of_snapshot, masters_add_snapshot, masters_remove_snapshot,
    remove_master, upsert_master, Config, ConfigV, MasterData, MasterDataV, Snapshot, SnapshotV,
};
use crate::machine::{Action, ActionV, Event, EventV, Outcome, OutcomeV, Step, StepV};
use crate::naming::{master_path_of, valid_id};
use crate::text::{
    all_digits, contains_seq, index_of_char, is_digit, join_with, split_on, upper,
};
use vstd::prelude::*;

verus! {

/// The datasets parsed from the lines of a tab-separated storage listing;
/// lines without exactly three fields are dropped.
pub open spec fn parse_zfs_lines(lines: Seq<Seq<char>>) -> Seq<SnapshotV>
    decreases lines.len(),
{
    if lines.len() == 0 {
        Seq::empty()
    } else {
        let parts = split_on(lines[0], '\t');
        let rest = parse_zfs_lines(lines.drop_first());
        if parts.len() == 3 {
            seq![SnapshotV { name: parts[0], created: parts[1], used: parts[2] }] + rest
        } else {
            rest
        }
    }
}

/// The datasets listed in a storage listing of name, creation time and used
/// size.
pub open spec fn parse_zfs_list_spec(s: Seq<char>) -> Seq<SnapshotV> {
    parse_zfs_lines(split_on(s, '\n'))
}

/// Parses the output of a storage listing of name, creation time and used
/// size, one dataset per tab-separated line.
pub fn parse_zfs_list(output: &str) -> (r: Vec<Snapshot>)
    ensures
        r.deep_view() == parse_zfs_list_spec(output@),
{
    let lines = crate::text::split_str(output, '\n');
    let ghost lsv = split_on(output@, '\n');
    let n = lines.len();
    let mut out: Vec<Snapshot> = Vec::new();
    let mut i: usize = 0;
    proof {
        assert(lsv.skip(0) =~= lsv);
        assert(out.deep_view() =~= Seq::<SnapshotV>::empty());
        assert(Seq::<SnapshotV>::empty() + parse_zfs_lines(lsv) =~= parse_zfs_lines(lsv));
    }
    while i < n
        invariant
            n == lines@.len(),
            lines.deep_view() == lsv,
            0 <= i <= n,
            parse_zfs_lines(lsv) == out.deep_view() + parse_zfs_lines(lsv.skip(i as int)),
        decreases n - i,
    {
        let ghost tail = lsv.skip(i as int);
        proof {
            assert(tail[0] == lsv[i as int]);
            assert(lsv[i as int] == lines@[i as int]@);
            assert(tail.drop_first() =~= lsv.skip(i + 1));
        }
        let parts = crate::text::split_str(lines[i].as_str(), '\t');
        if parts.len() == 3 {
            let ghost before = out.deep_view();
            let snap = Snapshot {
                name: parts[0].clone(),
                created: parts[1].clone(),
                used: parts[2].clone(),
            };
            proof {
                assert(snap@ == parse_zfs_lines(tail)[0]);
            }
            out.push(snap);
            proof {
                assert(out.deep_view() =~= before + seq![snap@]);
                assert(before + (seq![snap@] + parse_zfs_lines(tail.drop_first())) =~= (before
                    + seq![snap@]) + parse_zfs_lines(tail.drop_first()));
            }
        }
        i = i + 1;
    }
    proof {
        assert(lsv.skip(n as int) =~= Seq::<Seq<char>>::empty());
        assert(out.deep_view() + parse_zfs_lines(Seq::<Seq<char>>::empty()) =~= out.deep_view());
    }
    out
}

/// A well-formed volume size: one or more digits followed by a unit letter
/// K, M, G, T or P, case-insensitively.
pub open spec fn valid_size(s: Seq<char>) -> bool {
    let u = upper(s);
    &&& u.len() >= 2
    &&& all_digits(u.take(u.len() - 1))
    &&& (u.last() == 'K' || u.last() == 'M' || u.last() == 'G' || u.last() == 'T' || u.last()
        == 'P')
}

/// Whether `s` is a well-formed volume size.
pub fn check_valid_size(s: &str) -> (r: bool)
    ensures
        r == valid_size(s@),
{
    let u = crate::text::to_upper(s);
    let cs = crate::text::str_chars(u.as_str());
    let n = cs.len();
    if n < 2 {
        return false;
    }
    let last = cs[n - 1];
    if !(last == 'K' || last == 'M' || last == 'G' || last == 'T' || last == 'P') {
        return false;
    }
    let mut i: usize = 0;
    while i < n - 1
        invariant
            cs@ == upper(s@),
            n == cs@.len(),
            n >= 2,
            0 <= i <= n - 1,
            forall|k: int| 0 <= k < i ==> is_digit(upper(s@)[k]),
        decreases n - i,
    {
        let c = cs[i];
        if !('0' <= c && c <= '9') {
            proof {
                assert(upper(s@).take(n - 1)[i as int] == upper(s@)[i as int]);
            }
            return false;
        }
        i = i + 1;
    }
    proof {
        assert(forall|k: int|
            0 <= k < upper(s@).take(n - 1).len() ==> upper(s@).take(n - 1)[k] == upper(s@)[k]);
    }
    true
}

/// Phase of the master-creation sequence.
#[derive(Clone, Copy, PartialEq, Eq)]
pub enum CreateMasterState {
    CheckExists,
    Create,
    Persist,
    Finished,
}

/// Step machine that creates a template volume and records it.
pub struct CreateMasterMachine {
    pub state: CreateMasterState,
    pub config: Config,
    pub volume: String,
    pub size: String,
    pub now: String,
}

/// Mathematical value of a [`CreateMasterMachine`].
pub struct CreateMasterMachineV {
    pub state: CreateMasterState,
    pub config: ConfigV,
    pub volume: Seq<char>,
    pub size: Seq<char>,
    pub now: Seq<char>,
}

impl View for CreateMasterMachine {
    type V = CreateMasterMachineV;

    open spec fn view(&self) -> CreateMasterMachineV {
        CreateMasterMachineV {
            state: self.state,
            config: self.config@,
            volume: self.volume@,
            size: self.size@,
            now: self.now@,
        }
    }
}

/// The event kind each master-creation phase expects.
pub open spec fn create_master_expects(state: CreateMasterState, ev: EventV) -> bool {
    match state {
        CreateMasterState::CheckExists => ev is Flag,
        CreateMasterState::Finished => false,
        _ => ev is Done || ev is Failed,
    }
}

/// The record a completed master creation persists.
pub open spec fn master_record(m: CreateMasterMachineV) -> MasterDataV {
    MasterDataV {
        name: m.volume,
        size: m.size,
        snapshots: Seq::empty(),
        created_at: m.now,
        last_modified: m.now,
    }
}

/// The transition relation of the master-creation machine: an existing volume
/// of the derived name is a conflict, not an overwrite.
pub open spec fn create_master_next(m: CreateMasterMachineV, ev: EventV) -> (
    CreateMasterMachineV,
    StepV,
) {
    match m.state {
        CreateMasterState::CheckExists => {
            if ev->Flag_0 {
                (
                    CreateMasterMachineV { state: CreateMasterState::Finished, ..m },
                    StepV::Done(
                        OutcomeV::Failure {
                            message: "ZFS volume '"@ + m.volume + "' already exists."@,
                        },
                    ),
                )
            } else {
                (
                    CreateMasterMachineV { state: CreateMasterState::Create, ..m },
                    StepV::Run(ActionV::ZfsCreateVolume { name: m.volume, size: m.size }),
                )
            }
        },
        CreateMasterState::Create => {
            if ev is Failed {
                (
                    CreateMasterMachineV { state: CreateMasterState::Finished, ..m },
                    StepV::Done(
                        OutcomeV::Failure {
                            message: "Failed to create ZFS volume '"@ + m.volume + "'"@,
                        },
                    ),
                )
            } else {
                (
                    CreateMasterMachineV {
                        state: CreateMasterState::Persist,
                        config: ConfigV {
                            masters: upsert_master(m.config.masters, master_record(m)),
                            ..m.config
                        },
                        ..m
                    },
                    StepV::Run(ActionV::PersistConfig),
                )
            }
        },
        CreateMasterState::Persist => {
            if ev is Failed {
                (
                    CreateMasterMachineV { state: CreateMasterState::Finished, ..m },
                    StepV::Done(OutcomeV::Failure { message: "Failed to update config.json"@ }),
                )
            } else {
                (
                    CreateMasterMachineV { state: CreateMasterState::Finished, ..m },
                    StepV::Done(
                        OutcomeV::Success {
                            message: "Master ZVOL '"@ + m.volume + "' created successfully."@,
                            warnings: Seq::empty(),
                        },
                    ),
                )
            }
        },
        CreateMasterState::Finished => (
            m,
            StepV::Done(OutcomeV::Failure { message: Seq::empty() }),
        ),
    }
}

/// Starts creating a master volume named `<pool>/<name>-master`.  The name
/// and size formats are checked here; the first command probes for a volume
/// of the derived name.
pub fn create_master(config: Config, name: &str, size: &str) -> (r: Result<
    (CreateMasterMachine, Action),
    String,
>)
    ensures
        r matches Err(e) ==> {
            ||| (!valid_id(name@) && e@ == "Invalid master base name format (use alphanumeric, _, -)."@)
            ||| (valid_id(name@) && !valid_size(size@) && e@ == "Invalid size format (e.g., '50G')"@)
        },
        r matches Ok(p) ==> {
            let m = p.0@;
            &&& valid_id(name@)
            &&& valid_size(size@)
            &&& m.config == config@
            &&& m.volume == master_path_of(name@)
            &&& m.size == size@
            &&& m.state == CreateMasterState::CheckExists
            &&& p.1@ == (ActionV::ZfsProbe { dataset: master_path_of(name@) })
        },
{
    if !crate::naming::check_valid_id(name) {
        return Err(String::from_str("Invalid master base name format (use alphanumeric, _, -)."));
    }
    if !check_valid_size(size) {
        return Err(String::from_str("Invalid size format (e.g., '50G')"));
    }
    let volume = String::from_str(crate::ZFS_POOL).concat("/").concat(name).concat("-master");
    proof {
        reveal_strlit("/");
        assert(("/")@ =~= seq!['/']);
        assert(volume@ =~= master_path_of(name@));
    }
    let a = Action::ZfsProbe { dataset: volume.clone() };
    let m = CreateMasterMachine {
        state: CreateMasterState::CheckExists,
        config,
        volume,
        size: String::from_str(size),
        now: crate::time::timestamp_now(),
    };
    Ok((m, a))
}

impl CreateMasterMachine {
    /// Feeds the pending command's reply in and yields the next step.
    pub fn step(&mut self, ev: Event) -> (r: Step)
        requires
            create_master_expects(old(self)@.state, ev@),
        ensures
            (final(self)@, r@) == create_master_next(old(self)@, ev@),
    {
        match self.state {
            CreateMasterState::CheckExists => {
                let found = if let Event::Flag(f) = ev {
                    f
                } else {
                    false
                };
                if found {
                    self.state = CreateMasterState::Finished;
                    let msg = String::from_str("ZFS volume '").concat(self.volume.as_str()).concat(
                        "' already exists.",
                    );
                    proof {
                        assert(msg@ =~= "ZFS volume '"@ + self@.volume + "' already exists."@);
                    }
                    Step::Done(Outcome::Failure { message: msg })
                } else {
                    self.state = CreateMasterState::Create;
                    Step::Run(
                        Action::ZfsCreateVolume {
                            name: self.volume.clone(),
                            size: self.size.clone(),
                        },
                    )
                }
            },
            CreateMasterState::Create => {
                if let Event::Failed(_) = ev {
                    self.state = CreateMasterState::Finished;
                    let msg = String::from_str("Failed to create ZFS volume '").concat(
                        self.volume.as_str(),
                    ).concat("'");
                    proof {
                        assert(msg@ =~= "Failed to create ZFS volume '"@ + self@.volume + "'"@);
                    }
                    Step::Done(Outcome::Failure { message: msg })
                } else {
                    let record = MasterData {
                        name: self.volume.clone(),
                        size: self.size.clone(),
                        snapshots: Vec::new(),
                        created_at: self.now.clone(),
                        last_modified: self.now.clone(),
                    };
                    proof {
                        assert(record@.snapshots =~= Seq::<Seq<char>>::empty());
                        assert(record@ == master_record(self@));
                    }
                    crate::config::save_master_config(&mut self.config, &record);
                    self.state = CreateMasterState::Persist;
                    Step::Run(Action::PersistConfig)
                }
            },
            CreateMasterState::Persist => {
                self.state = CreateMasterState::Finished;
                if let Event::Failed(_) = ev {
                    Step::Done(
                        Outcome::Failure {
                            message: String::from_str("Failed to update config.json"),
                        },
                    )
                } else {
                    let msg = String::from_str("Master ZVOL '").concat(self.volume.as_str()).concat(
                        "' created successfully.",
                    );
                    let w: Vec<String> = Vec::new();
                    proof {
                        assert(w.deep_view() =~= Seq::<Seq<char>>::empty());
                        assert(msg@ =~= "Master ZVOL '"@ + self@.volume
                            + "' created successfully."@);
                    }
                    Step::Done(Outcome::Success { message: msg, warnings: w })
                }
            },
            CreateMasterState::Finished => {
                // excluded by the expected-event requirement
                Step::Done(Outcome::Failure { message: String::new() })
            },
        }
    }

    /// The configuration document as this machine has updated it.
    pub fn config(&self) -> (r: &Config)
        ensures
            r@ == self@.config,
    {
        &self.config
    }

    /// Takes the configuration document out of a finished machine.
    pub fn into_config(self) -> (r: Config)
        ensures
            r@ == self@.config,
    {
        self.config
    }
}

/// The error that rejects deleting a master still referenced by clients.
pub open spec fn delete_master_error(cs: Seq<crate::config::ClientV>, name: Seq<char>) -> Option<
    Seq<char>,
> {
    let deps = dependents_of_master(cs, name);
    if deps.len() > 0 {
        Some(
            "Cannot delete master: It is being used by the following clients: "@ + join_with(
                deps,
                ", "@,
            ),
        )
    } else {
        None
    }
}

/// Phase of the master-deletion sequence.
#[derive(Clone, Copy, PartialEq, Eq)]
pub enum DeleteMasterState {
    Destroy,
    Persist,
    Finished,
}

/// Step machine that destroys a template volume and removes its record.
pub struct DeleteMasterMachine {
    pub state: DeleteMasterState,
    pub config: Config,
    pub name: String,
}

/// Mathematical value of a [`DeleteMasterMachine`].
pub struct DeleteMasterMachineV {
    pub state: DeleteMasterState,
    pub config: ConfigV,
    pub name: Seq<char>,
}

impl View for DeleteMasterMachine {
    type V = DeleteMasterMachineV;

    open spec fn view(&self) -> DeleteMasterMachineV {
        DeleteMasterMachineV { state: self.state, config: self.config@, name: self.name@ }
    }
}

/// The event kind each master-deletion phase expects.
pub open spec fn delete_master_expects(state: DeleteMasterState, ev: EventV) -> bool {
    match state {
        DeleteMasterState::Finished => false,
        _ => ev is Done || ev is Failed,
    }
}

/// The transition relation of the master-deletion machine: the storage
/// layer's own dependent-clones refusal is surfaced as a distinct message.
pub open spec fn delete_master_next(m: DeleteMasterMachineV, ev: EventV) -> (
    DeleteMasterMachineV,
    StepV,
) {
    match m.state {
        DeleteMasterState::Destroy => {
            if ev is Failed {
                let stderr = ev->Failed_0;
                (
                    DeleteMasterMachineV { state: DeleteMasterState::Finished, ..m },
                    StepV::Done(
                        OutcomeV::Failure {
                            message: if contains_seq(stderr, "has dependent clones"@) {
                                "Cannot delete master '"@ + m.name + "': It has dependent clones."@
                            } else {
                                "Failed to delete master: "@ + stderr
                            },
                        },
                    ),
                )
            } else {
                (
                    DeleteMasterMachineV {
                        state: DeleteMasterState::Persist,
                        config: ConfigV {
                            masters: remove_master(m.config.masters, m.name),
                            ..m.config
                        },
                        ..m
                    },
                    StepV::Run(ActionV::PersistConfig),
                )
            }
        },
        DeleteMasterState::Persist => (
            DeleteMasterMachineV { state: DeleteMasterState::Finished, ..m },
            StepV::Done(
                OutcomeV::Success {
                    message: "Master "@ + m.name + " deleted successfully"@,
                    warnings: Seq::empty(),
                },
            ),
        ),
        DeleteMasterState::Finished => (
            m,
            StepV::Done(OutcomeV::Failure { message: Seq::empty() }),
        ),
    }
}

/// Starts deleting a master.  A master referenced by any client's `master`
/// field is refused here, before any destructive storage command.
pub fn delete_master(config: Config, master_name: &str) -> (r: Result<
    (DeleteMasterMachine, Action),
    String,
>)
    ensures
        r matches Err(e) ==> delete_master_error(config@.clients, master_name@) == Some(e@),
        r matches Ok(p) ==> {
            let m = p.0@;
            &&& delete_master_error(config@.clients, master_name@) is None
            &&& m.config == config@
            &&& m.name == master_name@
            &&& m.state == DeleteMasterState::Destroy
            &&& p.1@ == (ActionV::ZfsDestroy { dataset: master_name@ })
        },
{
    let deps = crate::config::dependent_clients_of_master(&config, master_name);
    if deps.len() > 0 {
        let joined = crate::text::join_strings(&deps, ", ");
        let msg = String::from_str(
            "Cannot delete master: It is being used by the following clients: ",
        ).concat(joined.as_str());
        proof {
            assert(msg@ =~= "Cannot delete master: It is being used by the following clients: "@
                + join_with(dependents_of_master(config@.clients, master_name@), ", "@));
        }
        return Err(msg);
    }
    let a = Action::ZfsDestroy { dataset: String::from_str(master_name) };
    let m = DeleteMasterMachine {
        state: DeleteMasterState::Destroy,
        config,
        name: String::from_str(master_name),
    };
    Ok((m, a))
}

impl DeleteMasterMachine {
    /// Feeds the pending command's reply in and yields the next step.
    pub fn step(&mut self, ev: Event) -> (r: Step)
        requires
            delete_master_expects(old(self)@.state, ev@),
        ensures
            (final(self)@, r@) == delete_master_next(old(self)@, ev@),
    {
        match self.state {
            DeleteMasterState::Destroy => {
                if let Event::Failed(stderr) = ev {
                    self.state = DeleteMasterState::Finished;
                    let msg = if crate::text::str_contains(
                        stderr.as_str(),
                        "has dependent clones",
                    ) {
                        let t = String::from_str("Cannot delete master '").concat(
                            self.name.as_str(),
                        ).concat("': It has dependent clones.");
                        proof {
                            assert(t@ =~= "Cannot delete master '"@ + self@.name
                                + "': It has dependent clones."@);
                        }
                        t
                    } else {
                        let t = String::from_str("Failed to delete master: ").concat(
                            stderr.as_str(),
                        );
                        proof {
                            assert(t@ =~= "Failed to delete master: "@ + stderr@);
                        }
                        t
                    };
                    Step::Done(Outcome::Failure { message: msg })
                } else {
                    crate::config::delete_master_config(&mut self.config, self.name.as_str());
                    self.state = DeleteMasterState::Persist;
                    Step::Run(Action::PersistConfig)
                }
            },
            DeleteMasterState::Persist => {
                self.state = DeleteMasterState::Finished;
                let msg = String::from_str("Master ").concat(self.name.as_str()).concat(
                    " deleted successfully",
                );
                let w: Vec<String> = Vec::new();
                proof {
                    assert(w.deep_view() =~= Seq::<Seq<char>>::empty());
                    assert(msg@ =~= "Master "@ + self@.name + " deleted successfully"@);
                }
                Step::Done(Outcome::Success { message: msg, warnings: w })
            },
            DeleteMasterState::Finished => {
                // excluded by the expected-event requirement
                Step::Done(Outcome::Failure { message: String::new() })
            },
        }
    }

    /// The configuration document as this machine has updated it.
    pub fn config(&self) -> (r: &Config)
        ensures
            r@ == self@.config,
    {
        &self.config
    }

    /// Takes the configuration document out of a finished machine.
    pub fn into_config(self) -> (r: Config)
        ensures
            r@ == self@.config,
    {
        self.config
    }
}

/// A well-formed snapshot name: within the pool, with an `@` separating the
/// dataset from the snapshot label.
pub open spec fn valid_snapshot_name(s: Seq<char>) -> bool {
    index_of_char(s, '@') < s.len() && crate::text::starts_with(s, crate::ZFS_POOL@ + seq!['/'])
}

/// The dataset part of a snapshot name: everything before the first `@`.
pub open spec fn snapshot_master_of(s: Seq<char>) -> Seq<char> {
    s.take(index_of_char(s, '@'))
}

/// Checks a snapshot name and splits off its dataset part.
fn split_snapshot_name(s: &str) -> (r: Option<String>)
    ensures
        r matches Some(master) ==> valid_snapshot_name(s@) && master@ == snapshot_master_of(s@),
        r is None ==> !valid_snapshot_name(s@),
{
    let pool_prefix = String::from_str(crate::ZFS_POOL).concat("/");
    proof {
        reveal_strlit("/");
        assert(("/")@ =~= seq!['/']);
        assert(pool_prefix@ =~= crate::ZFS_POOL@ + seq!['/']);
    }
    if !crate::text::str_starts_with(s, pool_prefix.as_str()) {
        return None;
    }
    match crate::text::find_char(s, '@') {
        Some(i) => {
            let cs = crate::text::str_chars(s);
            let master = crate::text::string_from_chars(
                &crate::text::subrange_vec(&cs, 0, i),
            );
            proof {
                assert(master@ =~= s@.take(index_of_char(s@, '@')));
            }
            Some(master)
        },
        None => None,
    }
}

/// Phase of the snapshot-creation sequence.
#[derive(Clone, Copy, PartialEq, Eq)]
pub enum CreateSnapshotState {
    CheckMaster,
    Snap,
    Persist,
    Finished,
}

/// Step machine that takes a snapshot of a master and records it.
pub struct CreateSnapshotMachine {
    pub state: CreateSnapshotState,
    pub config: Config,
    pub snapshot_name: String,
    pub master_name: String,
}

/// Mathematical value of a [`CreateSnapshotMachine`].
pub struct CreateSnapshotMachineV {
    pub state: CreateSnapshotState,
    pub config: ConfigV,
    pub snapshot_name: Seq<char>,
    pub master_name: Seq<char>,
}

impl View for CreateSnapshotMachine {
    type V = CreateSnapshotMachineV;

    open spec fn view(&self) -> CreateSnapshotMachineV {
        CreateSnapshotMachineV {
            state: self.state,
            config: self.config@,
            snapshot_name: self.snapshot_name@,
            master_name: self.master_name@,
        }
    }
}

/// The event kind each snapshot-creation phase expects.
pub open spec fn create_snapshot_expects(state: CreateSnapshotState, ev: EventV) -> bool {
    match state {
        CreateSnapshotState::CheckMaster => ev is Flag,
        CreateSnapshotState::Finished => false,
        _ => ev is Done || ev is Failed,
    }
}

/// The transition relation of the snapshot-creation machine: a name collision
/// reported by the storage layer is surfaced as a distinct message.
pub open spec fn create_snapshot_next(m: CreateSnapshotMachineV, ev: EventV) -> (
    CreateSnapshotMachineV,
    StepV,
) {
    match m.state {
        CreateSnapshotState::CheckMaster => {
            if ev->Flag_0 {
                (
                    CreateSnapshotMachineV { state: CreateSnapshotState::Snap, ..m },
                    StepV::Run(ActionV::ZfsSnapshot { snapshot: m.snapshot_name }),
                )
            } else {
                (
                    CreateSnapshotMachineV { state: CreateSnapshotState::Finished, ..m },
                    StepV::Done(
                        OutcomeV::Failure {
                            message: "Master '"@ + m.master_name + "' not found."@,
                        },
                    ),
                )
            }
        },
        CreateSnapshotState::Snap => {
            if ev is Failed {
                let stderr = ev->Failed_0;
                (
                    CreateSnapshotMachineV { state: CreateSnapshotState::Finished, ..m },
                    StepV::Done(
                        OutcomeV::Failure {
                            message: if contains_seq(stderr, "dataset already exists"@) {
                                "Snapshot '"@ + m.snapshot_name + "' already exists."@
                            } else {
                                "Failed creating snapshot: "@ + stderr
                            },
                        },
                    ),
                )
            } else {
                (
                    CreateSnapshotMachineV {
                        state: CreateSnapshotState::Persist,
                        config: ConfigV {
                            masters: masters_add_snapshot(
                                m.config.masters,
                                m.master_name,
                                m.snapshot_name,
                            ),
                            ..m.config
                        },
                        ..m
                    },
                    StepV::Run(ActionV::PersistConfig),
                )
            }
        },
        CreateSnapshotState::Persist => {
            if ev is Failed {
                (
                    CreateSnapshotMachineV { state: CreateSnapshotState::Finished, ..m },
                    StepV::Done(
                        OutcomeV::Failure { message: "Failed to write config: "@ + ev->Failed_0 },
                    ),
                )
            } else {
                (
                    CreateSnapshotMachineV { state: CreateSnapshotState::Finished, ..m },
                    StepV::Done(
                        OutcomeV::Success {
                            message: "Snapshot "@ + m.snapshot_name + " created"@,
                            warnings: Seq::empty(),
                        },
                    ),
                )
            }
        },
        CreateSnapshotState::Finished => (
            m,
            StepV::Done(OutcomeV::Failure { message: Seq::empty() }),
        ),
    }
}

/// Starts taking a snapshot.  The name must lie in the pool and name its
/// master; the first command probes that the master exists.
pub fn create_snapshot(config: Config, snapshot_name: &str) -> (r: Result<
    (CreateSnapshotMachine, Action),
    String,
>)
    ensures
        r matches Err(e) ==> !valid_snapshot_name(snapshot_name@) && e@ == "Invalid snapshot name. Expected "@
            + crate::ZFS_POOL@ + "/master@snapname"@,
        r matches Ok(p) ==> {
            let m = p.0@;
            &&& valid_snapshot_name(snapshot_name@)
            &&& m.config == config@
            &&& m.snapshot_name == snapshot_name@
            &&& m.master_name == snapshot_master_of(snapshot_name@)
            &&& m.state == CreateSnapshotState::CheckMaster
            &&& p.1@ == (ActionV::ZfsProbe { dataset: snapshot_master_of(snapshot_name@) })
        },
{
    let master = match split_snapshot_name(snapshot_name) {
        Some(mn) => mn,
        None => {
            let msg = String::from_str("Invalid snapshot name. Expected ").concat(
                crate::ZFS_POOL,
            ).concat("/master@snapname");
            proof {
                assert(msg@ =~= "Invalid snapshot name. Expected "@ + crate::ZFS_POOL@
                    + "/master@snapname"@);
            }
            return Err(msg);
        },
    };
    let a = Action::ZfsProbe { dataset: master.clone() };
    let m = CreateSnapshotMachine {
        state: CreateSnapshotState::CheckMaster,
        config,
        snapshot_name: String::from_str(snapshot_name),
        master_name: master,
    };
    Ok((m, a))
}

impl CreateSnapshotMachine {
    /// Feeds the pending command's reply in and yields the next step.
    pub fn step(&mut self, ev: Event) -> (r: Step)
        requires
            create_snapshot_expects(old(self)@.state, ev@),
        ensures
            (final(self)@, r@) == create_snapshot_next(old(self)@, ev@),
    {
        match self.state {
            CreateSnapshotState::CheckMaster => {
                let found = if let Event::Flag(f) = ev {
                    f
                } else {
                    false
                };
                if found {
                    self.state = CreateSnapshotState::Snap;
                    Step::Run(Action::ZfsSnapshot { snapshot: self.snapshot_name.clone() })
                } else {
                    self.state = CreateSnapshotState::Finished;
                    let msg = String::from_str("Master '").concat(self.master_name.as_str()).concat(
                        "' not found.",
                    );
                    proof {
                        assert(msg@ =~= "Master '"@ + self@.master_name + "' not found."@);
                    }
                    Step::Done(Outcome::Failure { message: msg })
                }
            },
            CreateSnapshotState::Snap => {
                if let Event::Failed(stderr) = ev {
                    self.state = CreateSnapshotState::Finished;
                    let msg = if crate::text::str_contains(
                        stderr.as_str(),
                        "dataset already exists",
                    ) {
                        let t = String::from_str("Snapshot '").concat(
                            self.snapshot_name.as_str(),
                        ).concat("' already exists.");
                        proof {
                            assert(t@ =~= "Snapshot '"@ + self@.snapshot_name
                                + "' already exists."@);
                        }
                        t
                    } else {
                        let t = String::from_str("Failed creating snapshot: ").concat(
                            stderr.as_str(),
                        );
                        proof {
                            assert(t@ =~= "Failed creating snapshot: "@ + stderr@);
                        }
                        t
                    };
                    Step::Done(Outcome::Failure { message: msg })
                } else {
                    crate::config::add_snapshot_to_master(
                        &mut self.config,
                        self.master_name.as_str(),
                        self.snapshot_name.as_str(),
                    );
                    self.state = CreateSnapshotState::Persist;
                    Step::Run(Action::PersistConfig)
                }
            },
            CreateSnapshotState::Persist => {
                self.state = CreateSnapshotState::Finished;
                if let Event::Failed(e) = ev {
                    let msg = String::from_str("Failed to write config: ").concat(e.as_str());
                    proof {
                        assert(msg@ =~= "Failed to write config: "@ + e@);
                    }
                    Step::Done(Outcome::Failure { message: msg })
                } else {
                    let msg = String::from_str("Snapshot ").concat(
                        self.snapshot_name.as_str(),
                    ).concat(" created");
                    let w: Vec<String> = Vec::new();
                    proof {
                        assert(w.deep_view() =~= Seq::<Seq<char>>::empty());
                        assert(msg@ =~= "Snapshot "@ + self@.snapshot_name + " created"@);
                    }
                    Step::Done(Outcome::Success { message: msg, warnings: w })
                }
            },
            CreateSnapshotState::Finished => {
                // excluded by the expected-event requirement
                Step::Done(Outcome::Failure { message: String::new() })
            },
        }
    }

    /// The configuration document as this machine has updated it.
    pub fn config(&self) -> (r: &Config)
        ensures
            r@ == self@.config,
    {
        &self.config
    }

    /// Takes the configuration document out of a finished machine.
    pub fn into_config(self) -> (r: Config)
        ensures
            r@ == self@.config,
    {
        self.config
    }
}

/// The error that rejects deleting a snapshot still referenced by clients.
pub open spec fn delete_snapshot_error(
    cs: Seq<crate::config::ClientV>,
    name: Seq<char>,
) -> Option<Seq<char>> {
    if !valid_snapshot_name(name) {
        Some("Invalid snapshot name format."@)
    } else {
        let deps = dependents_of_snapshot(cs, name);
        if deps.len() > 0 {
            Some(
                "Cannot delete snapshot: It is being used by the following clients: "@ + join_with(
                    deps,
                    ", "@,
                ),
            )
        } else {
            None
        }
    }
}

/// Phase of the snapshot-deletion sequence.
#[derive(Clone, Copy, PartialEq, Eq)]
pub enum DeleteSnapshotState {
    Destroy,
    Persist,
    Finished,
}

/// Step machine that destroys a snapshot and removes it from its master's
/// record.
pub struct DeleteSnapshotMachine {
    pub state: DeleteSnapshotState,
    pub config: Config,
    pub snapshot_name: String,
}

/// Mathematical value of a [`DeleteSnapshotMachine`].
pub struct DeleteSnapshotMachineV {
    pub state: DeleteSnapshotState,
    pub config: ConfigV,
    pub snapshot_name: Seq<char>,
}

impl View for DeleteSnapshotMachine {
    type V = DeleteSnapshotMachineV;

    open spec fn view(&self) -> DeleteSnapshotMachineV {
        DeleteSnapshotMachineV {
            state: self.state,
            config: self.config@,
            snapshot_name: self.snapshot_name@,
        }
    }
}

/// The event kind each snapshot-deletion phase expects.
pub open spec fn delete_snapshot_expects(state: DeleteSnapshotState, ev: EventV) -> bool {
    match state {
        DeleteSnapshotState::Finished => false,
        _ => ev is Done || ev is Failed,
    }
}

/// The transition relation of the snapshot-deletion machine.
pub open spec fn delete_snapshot_next(m: DeleteSnapshotMachineV, ev: EventV) -> (
    DeleteSnapshotMachineV,
    StepV,
) {
    match m.state {
        DeleteSnapshotState::Destroy => {
            if ev is Failed {
                let stderr = ev->Failed_0;
                (
                    DeleteSnapshotMachineV { state: DeleteSnapshotState::Finished, ..m },
                    StepV::Done(
                        OutcomeV::Failure {
                            message: if contains_seq(stderr, "has dependent clones"@) {
                                "Cannot delete snapshot '"@ + m.snapshot_name
                                    + "': It has dependent clones."@
                            } else {
                                "Failed to delete snapshot: "@ + stderr
                            },
                        },
                    ),
                )
            } else {
                (
                    DeleteSnapshotMachineV {
                        state: DeleteSnapshotState::Persist,
                        config: ConfigV {
                            masters: masters_remove_snapshot(m.config.masters, m.snapshot_name),
                            ..m.config
                        },
                        ..m
                    },
                    StepV::Run(ActionV::PersistConfig),
                )
            }
        },
        DeleteSnapshotState::Persist => {
            if ev is Failed {
                (
                    DeleteSnapshotMachineV { state: DeleteSnapshotState::Finished, ..m },
                    StepV::Done(
                        OutcomeV::Failure { message: "Failed to write config: "@ + ev->Failed_0 },
                    ),
                )
            } else {
                (
                    DeleteSnapshotMachineV { state: DeleteSnapshotState::Finished, ..m },
                    StepV::Done(
                        OutcomeV::Success {
                            message: "Snapshot "@ + m.snapshot_name + " deleted successfully"@,
                            warnings: Seq::empty(),
                        },
                    ),
                )
            }
        },
        DeleteSnapshotState::Finished => (
            m,
            StepV::Done(OutcomeV::Failure { message: Seq::empty() }),
        ),
    }
}

/// Starts deleting a snapshot.  A malformed name, or a snapshot referenced by
/// any client's `snapshot` field, is refused here, before any destructive
/// storage command.
pub fn delete_snapshot(config: Config, snapshot_name: &str) -> (r: Result<
    (DeleteSnapshotMachine, Action),
    String,
>)
    ensures
        r matches Err(e) ==> delete_snapshot_error(config@.clients, snapshot_name@) == Some(e@),
        r matches Ok(p) ==> {
            let m = p.0@;
            &&& delete_snapshot_error(config@.clients, snapshot_name@) is None
            &&& m.config == config@
            &&& m.snapshot_name == snapshot_name@
            &&& m.state == DeleteSnapshotState::Destroy
            &&& p.1@ == (ActionV::ZfsDestroy { dataset: snapshot_name@ })
        },
{
    match split_snapshot_name(snapshot_name) {
        Some(_) => {},
        None => {
            return Err(String::from_str("Invalid snapshot name format."));
        },
    }
    let deps = crate::config::dependent_clients_of_snapshot(&config, snapshot_name);
    if deps.len() > 0 {
        let joined = crate::text::join_strings(&deps, ", ");
        let msg = String::from_str(
            "Cannot delete snapshot: It is being used by the following clients: ",
        ).concat(joined.as_str());
        proof {
            assert(msg@
                =~= "Cannot delete snapshot: It is being used by the following clients: "@
                + join_with(dependents_of_snapshot(config@.clients, snapshot_name@), ", "@));
        }
        return Err(msg);
    }
    let a = Action::ZfsDestroy { dataset: String::from_str(snapshot_name) };
    let m = DeleteSnapshotMachine {
        state: DeleteSnapshotState::Destroy,
        config,
        snapshot_name: String::from_str(snapshot_name),
    };
    Ok((m, a))
}

impl DeleteSnapshotMachine {
    /// Feeds the pending command's reply in and yields the next step.
    pub fn step(&mut self, ev: Event) -> (r: Step)
        requires
            delete_snapshot_expects(old(self)@.state, ev@),
        ensures
            (final(self)@, r@) == delete_snapshot_next(old(self)@, ev@),
    {
        match self.state {
            DeleteSnapshotState::Destroy => {
                if let Event::Failed(stderr) = ev {
                    self.state = DeleteSnapshotState::Finished;
                    let msg = if crate::text::str_contains(
                        stderr.as_str(),
                        "has dependent clones",
                    ) {
                        let t = String::from_str("Cannot delete snapshot '").concat(
                            self.snapshot_name.as_str(),
                        ).concat("': It has dependent clones.");
                        proof {
                            assert(t@ =~= "Cannot delete snapshot '"@ + self@.snapshot_name
                                + "': It has dependent clones."@);
                        }
                        t
                    } else {
                        let t = String::from_str("Failed to delete snapshot: ").concat(
                            stderr.as_str(),
                        );
                        proof {
                            assert(t@ =~= "Failed to delete snapshot: "@ + stderr@);
                        }
                        t
                    };
                    Step::Done(Outcome::Failure { message: msg })
                } else {
                    crate::config::remove_snapshot_from_masters(
                        &mut self.config,
                        self.snapshot_name.as_str(),
                    );
                    self.state = DeleteSnapshotState::Persist;
                    Step::Run(Action::PersistConfig)
                }
            },
            DeleteSnapshotState::Persist => {
                self.state = DeleteSnapshotState::Finished;
                if let Event::Failed(e) = ev {
                    let msg = String::from_str("Failed to write config: ").concat(e.as_str());
                    proof {
                        assert(msg@ =~= "Failed to write config: "@ + e@);
                    }
                    Step::Done(Outcome::Failure { message: msg })
                } else {
                    let msg = String::from_str("Snapshot ").concat(
                        self.snapshot_name.as_str(),
                    ).concat(" deleted successfully");
                    let w: Vec<String> = Vec::new();
                    proof {
                        assert(w.deep_view() =~= Seq::<Seq<char>>::empty());
                        assert(msg@ =~= "Snapshot "@ + self@.snapshot_name
                            + " deleted successfully"@);
                    }
                    Step::Done(Outcome::Success { message: msg, warnings: w })
                }
            },
            DeleteSnapshotState::Finished => {
                // excluded by the expected-event requirement
                Step::Done(Outcome::Failure { message: String::new() })
            },
        }
    }

    /// The configuration document as this machine has updated it.
    pub fn config(&self) -> (r: &Config)
        ensures
            r@ == self@.config,
    {
        &self.config
    }

    /// Takes the configuration document out of a finished machine.
    pub fn into_config(self) -> (r: Config)
        ensures
            r@ == self@.config,
    {
        self.config
    }
}

/// A dataset name that marks a template volume: it ends in `-master`,
/// case-insensitively.
pub open spec fn is_master_name(s: Seq<char>) -> bool {
    crate::text::ends_with(crate::text::lower(s), "-master"@)
}

/// The names of the datasets in a listing, in order.
pub open spec fn names_of_datasets(ds: Seq<SnapshotV>) -> Seq<Seq<char>>
    decreases ds.len(),
{
    if ds.len() == 0 {
        Seq::empty()
    } else {
        seq![ds[0].name] + names_of_datasets(ds.drop_first())
    }
}

/// Extracts the dataset names from a listing.
pub fn dataset_names(ds: &Vec<Snapshot>) -> (r: Vec<String>)
    ensures
        r.deep_view() == names_of_datasets(ds.deep_view()),
{
    let n = ds.len();
    let mut out: Vec<String> = Vec::new();
    let mut i: usize = 0;
    proof {
        assert(ds.deep_view().skip(0) =~= ds.deep_view());
        assert(out.deep_view() =~= Seq::<Seq<char>>::empty());
        assert(Seq::<Seq<char>>::empty() + names_of_datasets(ds.deep_view()) =~= names_of_datasets(
            ds.deep_view(),
        ));
    }
    while i < n
        invariant
            n == ds@.len(),
            0 <= i <= n,
            names_of_datasets(ds.deep_view()) == out.deep_view() + names_of_datasets(
                ds.deep_view().skip(i as int),
            ),
        decreases n - i,
    {
        let ghost tail = ds.deep_view().skip(i as int);
        proof {
            assert(tail[0] == ds.deep_view()[i as int]);
            assert(ds.deep_view()[i as int] == ds@[i as int]@);
            assert(tail.drop_first() =~= ds.deep_view().skip(i + 1));
        }
        let ghost before = out.deep_view();
        out.push(ds[i].name.clone());
        proof {
            assert(out.deep_view() =~= before + seq![tail[0].name]);
            assert(before + (seq![tail[0].name] + names_of_datasets(tail.drop_first())) =~= (
            before + seq![tail[0].name]) + names_of_datasets(tail.drop_first()));
        }
        i = i + 1;
    }
    proof {
        assert(ds.deep_view().skip(n as int) =~= Seq::<SnapshotV>::empty());
        assert(out.deep_view() + names_of_datasets(Seq::<SnapshotV>::empty()) =~= out.deep_view());
    }
    out
}

/// The names among `ns` that mark template volumes, in order.
pub open spec fn keep_master_names(ns: Seq<Seq<char>>) -> Seq<Seq<char>>
    decreases ns.len(),
{
    if ns.len() == 0 {
        Seq::empty()
    } else if is_master_name(ns[0]) {
        seq![ns[0]] + keep_master_names(ns.drop_first())
    } else {
        keep_master_names(ns.drop_first())
    }
}

/// Keeps the names that mark template volumes.
pub fn filter_master_names(ns: &Vec<String>) -> (r: Vec<String>)
    ensures
        r.deep_view() == keep_master_names(ns.deep_view()),
{
    let n = ns.len();
    let mut out: Vec<String> = Vec::new();
    let mut i: usize = 0;
    proof {
        assert(ns.deep_view().skip(0) =~= ns.deep_view());
        assert(out.deep_view() =~= Seq::<Seq<char>>::empty());
        assert(Seq::<Seq<char>>::empty() + keep_master_names(ns.deep_view()) =~= keep_master_names(
            ns.deep_view(),
        ));
    }
    while i < n
        invariant
            n == ns@.len(),
            0 <= i <= n,
            keep_master_names(ns.deep_view()) == out.deep_view() + keep_master_names(
                ns.deep_view().skip(i as int),
            ),
        decreases n - i,
    {
        let ghost tail = ns.deep_view().skip(i as int);
        proof {
            assert(tail[0] == ns.deep_view()[i as int]);
            assert(ns.deep_view()[i as int] == ns@[i as int]@);
            assert(tail.drop_first() =~= ns.deep_view().skip(i + 1));
        }
        let low = crate::text::to_lower(ns[i].as_str());
        if crate::text::str_ends_with(low.as_str(), "-master") {
            let ghost before = out.deep_view();
            out.push(ns[i].clone());
            proof {
                assert(out.deep_view() =~= before + seq![tail[0]]);
                assert(before + (seq![tail[0]] + keep_master_names(tail.drop_first())) =~= (before
                    + seq![tail[0]]) + keep_master_names(tail.drop_first()));
            }
        }
        i = i + 1;
    }
    proof {
        assert(ns.deep_view().skip(n as int) =~= Seq::<Seq<char>>::empty());
        assert(out.deep_view() + keep_master_names(Seq::<Seq<char>>::empty()) =~= out.deep_view());
    }
    out
}

/// Strictly sorted in dictionary order, without duplicates.
pub open spec fn sorted_unique(ss: Seq<Seq<char>>) -> bool {
    forall|i: int, j: int|
        0 <= i < j < ss.len() ==> crate::text::lex_le(ss[i], ss[j]) && ss[i] != ss[j]
}

/// Sorts names in dictionary order and drops duplicates: the result is
/// strictly sorted and holds exactly the distinct input names.
pub fn sort_dedup_names(ns: &Vec<String>) -> (r: Vec<String>)
    ensures
        sorted_unique(r.deep_view()),
        forall|x: Seq<char>| r.deep_view().contains(x) <==> ns.deep_view().contains(x),
{
    let n = ns.len();
    let mut out: Vec<String> = Vec::new();
    let mut i: usize = 0;
    proof {
        assert(out.deep_view() =~= Seq::<Seq<char>>::empty());
    }
    while i < n
        invariant
            n == ns@.len(),
            0 <= i <= n,
            sorted_unique(out.deep_view()),
            forall|x: Seq<char>|
                out.deep_view().contains(x) <==> ns.deep_view().take(i as int).contains(x),
        decreases n - i,
    {
        proof {
            assert(ns.deep_view()[i as int] == ns@[i as int]@);
        }
        let s = &ns[i];
        let ghost sv = s@;
        let ghost ov = out.deep_view();
        let on = out.len();
        let mut j: usize = 0;
        while j < on && crate::text::str_lex_lt(out[j].as_str(), s.as_str())
            invariant
                on == out@.len(),
                out.deep_view() == ov,
                sv == s@,
                sorted_unique(ov),
                forall|x: Seq<char>|
                    ov.contains(x) <==> ns.deep_view().take(i as int).contains(x),
                0 <= j <= on,
                forall|k: int| 0 <= k < j ==> crate::text::lex_le(ov[k], sv) && ov[k] != sv,
            decreases on - j,
        {
            proof {
                assert(ov[j as int] == out@[j as int]@);
            }
            j = j + 1;
        }
        proof {
            if j < on {
                assert(ov[j as int] == out@[j as int]@);
            }
        }
        let dup = j < on && crate::text::str_eq(out[j].as_str(), s.as_str());
        if !dup {
            proof {
                if j < on {
                    assert(!(crate::text::lex_le(ov[j as int], sv) && ov[j as int] != sv));
                    assert(ov[j as int] != sv);
                    crate::text::lemma_lex_total(ov[j as int], sv);
                    assert(crate::text::lex_le(sv, ov[j as int]));
                }
            }
            let ghost before = ov;
            out.insert(j, s.clone());
            proof {
                assert(before == ov);
                assert(sorted_unique(before));
                assert(out.deep_view() =~= before.insert(j as int, sv));
                let nv = out.deep_view();
                assert(nv.len() == before.len() + 1);
                assert(forall|k: int| 0 <= k < j ==> nv[k] == before[k]);
                assert(nv[j as int] == sv);
                assert(forall|k: int| j < k < nv.len() ==> nv[k] == before[k - 1]);
                assert forall|p: int, q: int|
                    0 <= p < q < nv.len() implies crate::text::lex_le(nv[p], nv[q]) && nv[p]
                    != nv[q] by {
                    if q < j {
                        assert(crate::text::lex_le(before[p], before[q]) && before[p]
                            != before[q]);
                    } else if p < j && q == j {
                        assert(crate::text::lex_le(before[p], sv) && before[p] != sv);
                    } else if p == j {
                        assert(crate::text::lex_le(sv, before[j as int]));
                        assert(before[j as int] != sv);
                        if q - 1 > j {
                            assert(crate::text::lex_le(before[j as int], before[q - 1])
                                && before[j as int] != before[q - 1]);
                            crate::text::lemma_lex_trans(sv, before[j as int], before[q - 1]);
                            if before[q - 1] == sv {
                                assert(false);
                            }
                        }
                    } else if p < j && q > j {
                        assert(crate::text::lex_le(before[p], sv) && before[p] != sv);
                        assert(crate::text::lex_le(sv, before[j as int]));
                        if q - 1 > j {
                            assert(crate::text::lex_le(before[j as int], before[q - 1]));
                            crate::text::lemma_lex_trans(sv, before[j as int], before[q - 1]);
                        }
                        assert(crate::text::lex_le(sv, before[q - 1]));
                        crate::text::lemma_lex_trans(before[p], sv, before[q - 1]);
                        if before[p] == before[q - 1] {
                            crate::text::lemma_lex_antisym(before[p], sv);
                        }
                    } else {
                        assert(j < p);
                        assert(crate::text::lex_le(before[p - 1], before[q - 1]) && before[p - 1]
                            != before[q - 1]);
                    }
                }
            }
        }
        proof {
            let newv = out.deep_view();
            let ghost taken = ns.deep_view().take(i + 1);
            assert(taken.drop_last() =~= ns.deep_view().take(i as int));
            assert(taken.last() == ns.deep_view()[i as int]);
            assert forall|x: Seq<char>| newv.contains(x) implies taken.contains(x) by {
                if dup {
                    if ns.deep_view().take(i as int).contains(x) {
                        let w = choose|w: int|
                            0 <= w < i && ns.deep_view().take(i as int)[w] == x;
                        assert(taken[w] == x);
                    }
                } else {
                    let w = choose|w: int| 0 <= w < newv.len() && newv[w] == x;
                    if w == j {
                        assert(taken[i as int] == x);
                    } else {
                        let wo: int = if w < j {
                            w
                        } else {
                            w - 1
                        };
                        assert(ov[wo] == x);
                        assert(ov.contains(x));
                        assert(ns.deep_view().take(i as int).contains(x));
                        let u = choose|u: int|
                            0 <= u < i && ns.deep_view().take(i as int)[u] == x;
                        assert(taken[u] == x);
                    }
                }
            }
            assert forall|x: Seq<char>| taken.contains(x) implies newv.contains(x) by {
                let w = choose|w: int| 0 <= w < taken.len() && taken[w] == x;
                if w < i {
                    assert(ns.deep_view().take(i as int)[w] == x);
                    assert(ov.contains(x));
                    let u = choose|u: int| 0 <= u < ov.len() && ov[u] == x;
                    if dup {
                        assert(newv[u] == x);
                    } else {
                        if u < j {
                            assert(newv[u] == x);
                        } else {
                            assert(newv[u + 1] == x);
                        }
                    }
                } else {
                    if dup {
                        assert(ov[j as int] == x);
                        assert(newv[j as int] == x);
                    } else {
                        assert(newv[j as int] == x);
                    }
                }
            }
        }
        i = i + 1;
    }
    proof {
        assert(ns.deep_view().take(n as int) =~= ns.deep_view());
    }
    out
}

/// The used size recorded for a dataset name, or `-` when the listing does
/// not name it.
pub open spec fn used_of_dataset(ds: Seq<SnapshotV>, name: Seq<char>) -> Seq<char>
    decreases ds.len(),
{
    if ds.len() == 0 {
        "-"@
    } else if ds[0].name == name {
        ds[0].used
    } else {
        used_of_dataset(ds.drop_first(), name)
    }
}

/// Looks a dataset's used size up in a listing.
pub fn find_dataset_used(ds: &Vec<Snapshot>, name: &str) -> (r: String)
    ensures
        r@ == used_of_dataset(ds.deep_view(), name@),
{
    let n = ds.len();
    let mut i: usize = 0;
    proof {
        assert(ds.deep_view().skip(0) =~= ds.deep_view());
    }
    while i < n
        invariant
            n == ds@.len(),
            0 <= i <= n,
            used_of_dataset(ds.deep_view(), name@) == used_of_dataset(
                ds.deep_view().skip(i as int),
                name@,
            ),
        decreases n - i,
    {
        let ghost tail = ds.deep_view().skip(i as int);
        proof {
            assert(tail[0] == ds.deep_view()[i as int]);
            assert(ds.deep_view()[i as int] == ds@[i as int]@);
            assert(tail.drop_first() =~= ds.deep_view().skip(i + 1));
        }
        if crate::text::str_eq(ds[i].name.as_str(), name) {
            return ds[i].used.clone();
        }
        i = i + 1;
    }
    proof {
        assert(ds.deep_view().skip(n as int) =~= Seq::<SnapshotV>::empty());
    }
    String::from_str("-")
}

/// Assembles one master's listing entry: its id and name are the dataset
/// name, and it is the default exactly when its name equals the recorded
/// default master.
pub fn build_master(name: &str, default_master: &str, size: &str, snapshots: Vec<Snapshot>) -> (r:
    crate::config::Master)
    ensures
        r@.id == name@,
        r@.name == name@,
        r@.is_default == (name@ == default_master@),
        r@.size == size@,
        r@.snapshots == snapshots.deep_view(),
{
    crate::config::Master {
        id: String::from_str(name),
        name: String::from_str(name),
        is_default: crate::text::str_eq(name, default_master),
        size: String::from_str(size),
        snapshots,
    }
}

/// The snapshot names of a listing, in order.
pub open spec fn snapshot_names_of(ss: Seq<SnapshotV>) -> Seq<Seq<char>>
    decreases ss.len(),
{
    if ss.len() == 0 {
        Seq::empty()
    } else {
        seq![ss[0].name] + snapshot_names_of(ss.drop_first())
    }
}

/// The configuration record of a listed master, carrying its snapshot names
/// and the given timestamps.
pub fn master_data_of(m: &crate::config::Master, created_at: &str, last_modified: &str) -> (r:
    MasterData)
    ensures
        r@.name == m@.name,
        r@.size == m@.size,
        r@.snapshots == snapshot_names_of(m@.snapshots),
        r@.created_at == created_at@,
        r@.last_modified == last_modified@,
{
    let n = m.snapshots.len();
    let mut names: Vec<String> = Vec::new();
    let mut i: usize = 0;
    proof {
        assert(m.snapshots.deep_view().skip(0) =~= m.snapshots.deep_view());
        assert(names.deep_view() =~= Seq::<Seq<char>>::empty());
        assert(Seq::<Seq<char>>::empty() + snapshot_names_of(m.snapshots.deep_view())
            =~= snapshot_names_of(m.snapshots.deep_view()));
    }
    while i < n
        invariant
            n == m.snapshots@.len(),
            0 <= i <= n,
            snapshot_names_of(m.snapshots.deep_view()) == names.deep_view() + snapshot_names_of(
                m.snapshots.deep_view().skip(i as int),
            ),
        decreases n - i,
    {
        let ghost tail = m.snapshots.deep_view().skip(i as int);
        proof {
            assert(tail[0] == m.snapshots.deep_view()[i as int]);
            assert(m.snapshots.deep_view()[i as int] == m.snapshots@[i as int]@);
            assert(tail.drop_first() =~= m.snapshots.deep_view().skip(i + 1));
        }
        let ghost before = names.deep_view();
        names.push(m.snapshots[i].name.clone());
        proof {
            assert(names.deep_view() =~= before + seq![tail[0].name]);
            assert(before + (seq![tail[0].name] + snapshot_names_of(tail.drop_first())) =~= (
            before + seq![tail[0].name]) + snapshot_names_of(tail.drop_first()));
        }
        i = i + 1;
    }
    proof {
        assert(m.snapshots.deep_view().skip(n as int) =~= Seq::<SnapshotV>::empty());
        assert(names.deep_view() + snapshot_names_of(Seq::<SnapshotV>::empty())
            =~= names.deep_view());
    }
    MasterData {
        name: m.name.clone(),
        size: m.size.clone(),
        snapshots: names,
        created_at: String::from_str(created_at),
        last_modified: String::from_str(last_modified),
    }
}

} // verus!
