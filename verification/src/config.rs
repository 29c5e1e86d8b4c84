//! The configuration document: the single authoritative record of clients,
//! masters, cached service status and settings.
//!
//! Every mutation of the system goes through read-modify-write of one value
//! of [`Config`]; the operations here are the pure in-memory mutations, and
//! the surrounding binary persists the document after each of them.
use crate::text::{eq_ignore_case, lower, upper};
use vstd::prelude::*;

verus! {

/// A provisioned boot client, as stored in the configuration document.
pub struct Client {
    pub id: String,
    pub name: String,
    pub mac: String,
    pub ip: String,
    pub master: String,
    pub snapshot: Option<String>,
    pub block_store: Option<String>,
    pub target_iqn: Option<String>,
    pub writeback: Option<String>,
    pub created_at: Option<String>,
    pub last_modified: Option<String>,
    pub block_device: Option<String>,
    pub status: Option<String>,
    pub mode: Option<String>,
}

/// Mathematical value of a [`Client`].
pub struct ClientV {
    pub id: Seq<char>,
    pub name: Seq<char>,
    pub mac: Seq<char>,
    pub ip: Seq<char>,
    pub master: Seq<char>,
    pub snapshot: Option<Seq<char>>,
    pub block_store: Option<Seq<char>>,
    pub target_iqn: Option<Seq<char>>,
    pub writeback: Option<Seq<char>>,
    pub created_at: Option<Seq<char>>,
    pub last_modified: Option<Seq<char>>,
    pub block_device: Option<Seq<char>>,
    pub status: Option<Seq<char>>,
    pub mode: Option<Seq<char>>,
}

impl View for Client {
    type V = ClientV;

    open spec fn view(&self) -> ClientV {
        ClientV {
            id: self.id@,
            name: self.name@,
            mac: self.mac@,
            ip: self.ip@,
            master: self.master@,
            snapshot: self.snapshot.deep_view(),
            block_store: self.block_store.deep_view(),
            target_iqn: self.target_iqn.deep_view(),
            writeback: self.writeback.deep_view(),
            created_at: self.created_at.deep_view(),
            last_modified: self.last_modified.deep_view(),
            block_device: self.block_device.deep_view(),
            status: self.status.deep_view(),
            mode: self.mode.deep_view(),
        }
    }
}

impl DeepView for Client {
    type V = ClientV;

    open spec fn deep_view(&self) -> ClientV {
        self.view()
    }
}

/// Clones an optional string, keeping its value.
pub fn clone_opt(o: &Option<String>) -> (r: Option<String>)
    ensures
        r.deep_view() == o.deep_view(),
{
    match o {
        Some(s) => Some(s.clone()),
        None => None,
    }
}

impl Clone for Client {
    fn clone(&self) -> (res: Self)
        ensures
            res@ == self@,
    {
        Client {
            id: self.id.clone(),
            name: self.name.clone(),
            mac: self.mac.clone(),
            ip: self.ip.clone(),
            master: self.master.clone(),
            snapshot: clone_opt(&self.snapshot),
            block_store: clone_opt(&self.block_store),
            target_iqn: clone_opt(&self.target_iqn),
            writeback: clone_opt(&self.writeback),
            created_at: clone_opt(&self.created_at),
            last_modified: clone_opt(&self.last_modified),
            block_device: clone_opt(&self.block_device),
            status: clone_opt(&self.status),
            mode: clone_opt(&self.mode),
        }
    }
}

/// A snapshot of a master volume as listed to the interface.
pub struct Snapshot {
    pub name: String,
    pub created: String,
    pub used: String,
}

/// Mathematical value of a [`Snapshot`].
pub struct SnapshotV {
    pub name: Seq<char>,
    pub created: Seq<char>,
    pub used: Seq<char>,
}

impl View for Snapshot {
    type V = SnapshotV;

    open spec fn view(&self) -> SnapshotV {
        SnapshotV { name: self.name@, created: self.created@, used: self.used@ }
    }
}

impl DeepView for Snapshot {
    type V = SnapshotV;

    open spec fn deep_view(&self) -> SnapshotV {
        self.view()
    }
}

impl Clone for Snapshot {
    fn clone(&self) -> (res: Self)
        ensures
            res@ == self@,
    {
        Snapshot {
            name: self.name.clone(),
            created: self.created.clone(),
            used: self.used.clone(),
        }
    }
}

/// A template volume with its snapshots, as listed to the interface.
pub struct Master {
    pub id: String,
    pub name: String,
    pub is_default: bool,
    pub size: String,
    pub snapshots: Vec<Snapshot>,
}

/// Mathematical value of a [`Master`].
pub struct MasterV {
    pub id: Seq<char>,
    pub name: Seq<char>,
    pub is_default: bool,
    pub size: Seq<char>,
    pub snapshots: Seq<SnapshotV>,
}

impl View for Master {
    type V = MasterV;

    open spec fn view(&self) -> MasterV {
        MasterV {
            id: self.id@,
            name: self.name@,
            is_default: self.is_default,
            size: self.size@,
            snapshots: self.snapshots.deep_view(),
        }
    }
}

impl DeepView for Master {
    type V = MasterV;

    open spec fn deep_view(&self) -> MasterV {
        self.view()
    }
}

/// A master volume's record in the configuration document.
pub struct MasterData {
    pub name: String,
    pub size: String,
    pub snapshots: Vec<String>,
    pub created_at: String,
    pub last_modified: String,
}

/// Mathematical value of a [`MasterData`].
pub struct MasterDataV {
    pub name: Seq<char>,
    pub size: Seq<char>,
    pub snapshots: Seq<Seq<char>>,
    pub created_at: Seq<char>,
    pub last_modified: Seq<char>,
}

impl View for MasterData {
    type V = MasterDataV;

    open spec fn view(&self) -> MasterDataV {
        MasterDataV {
            name: self.name@,
            size: self.size@,
            snapshots: self.snapshots.deep_view(),
            created_at: self.created_at@,
            last_modified: self.last_modified@,
        }
    }
}

impl DeepView for MasterData {
    type V = MasterDataV;

    open spec fn deep_view(&self) -> MasterDataV {
        self.view()
    }
}

/// One entry of the cached service-status table.
pub struct ServiceStatus {
    pub key: String,
    pub name: String,
    pub service: String,
    pub status: String,
}

/// Mathematical value of a [`ServiceStatus`].
pub struct ServiceStatusV {
    pub key: Seq<char>,
    pub name: Seq<char>,
    pub service: Seq<char>,
    pub status: Seq<char>,
}

impl View for ServiceStatus {
    type V = ServiceStatusV;

    open spec fn view(&self) -> ServiceStatusV {
        ServiceStatusV {
            key: self.key@,
            name: self.name@,
            service: self.service@,
            status: self.status@,
        }
    }
}

impl DeepView for ServiceStatus {
    type V = ServiceStatusV;

    open spec fn deep_view(&self) -> ServiceStatusV {
        self.view()
    }
}

/// The settings block of the configuration document.
pub struct Settings {
    /// Name of the master used when a create request names none.
    pub default_master: String,
    /// Pool name chosen in the interface.
    pub zfs_pool: String,
    /// Pool name confirmed by probing the storage layer.
    pub zpool_name: String,
}

/// Mathematical value of a [`Settings`].
pub struct SettingsV {
    pub default_master: Seq<char>,
    pub zfs_pool: Seq<char>,
    pub zpool_name: Seq<char>,
}

impl View for Settings {
    type V = SettingsV;

    open spec fn view(&self) -> SettingsV {
        SettingsV {
            default_master: self.default_master@,
            zfs_pool: self.zfs_pool@,
            zpool_name: self.zpool_name@,
        }
    }
}

impl DeepView for Settings {
    type V = SettingsV;

    open spec fn deep_view(&self) -> SettingsV {
        self.view()
    }
}

/// The whole configuration document.
pub struct Config {
    pub clients: Vec<Client>,
    pub masters: Vec<MasterData>,
    pub services: Vec<ServiceStatus>,
    pub settings: Settings,
}

/// Mathematical value of a [`Config`].
pub struct ConfigV {
    pub clients: Seq<ClientV>,
    pub masters: Seq<MasterDataV>,
    pub services: Seq<ServiceStatusV>,
    pub settings: SettingsV,
}

impl View for Config {
    type V = ConfigV;

    open spec fn view(&self) -> ConfigV {
        ConfigV {
            clients: self.clients.deep_view(),
            masters: self.masters.deep_view(),
            services: self.services.deep_view(),
            settings: self.settings@,
        }
    }
}

impl DeepView for Config {
    type V = ConfigV;

    open spec fn deep_view(&self) -> ConfigV {
        self.view()
    }
}

impl Default for Config {
    /// The empty document used when the backing file is absent or unreadable.
    fn default() -> (res: Self)
        ensures
            res@.clients == Seq::<ClientV>::empty(),
            res@.masters == Seq::<MasterDataV>::empty(),
            res@.services == Seq::<ServiceStatusV>::empty(),
            res@.settings.default_master == Seq::<char>::empty(),
            res@.settings.zfs_pool == Seq::<char>::empty(),
            res@.settings.zpool_name == Seq::<char>::empty(),
    {
        let res = Config {
            clients: Vec::new(),
            masters: Vec::new(),
            services: Vec::new(),
            settings: Settings {
                default_master: String::new(),
                zfs_pool: String::new(),
                zpool_name: String::new(),
            },
        };
        proof {
            assert(res@.clients =~= Seq::<ClientV>::empty());
            assert(res@.masters =~= Seq::<MasterDataV>::empty());
            assert(res@.services =~= Seq::<ServiceStatusV>::empty());
        }
        res
    }
}

/// Index of the first client whose id matches `id` case-insensitively, or the
/// number of clients if none does.
pub open spec fn client_index(cs: Seq<ClientV>, id: Seq<char>) -> int
    decreases cs.len(),
{
    if cs.len() == 0 {
        0
    } else if eq_ignore_case(cs[0].id, id) {
        0
    } else {
        1 + client_index(cs.drop_first(), id)
    }
}

/// Some client's id matches `id` case-insensitively.
pub open spec fn has_client(cs: Seq<ClientV>, id: Seq<char>) -> bool {
    exists|i: int| 0 <= i < cs.len() && eq_ignore_case(cs[i].id, id)
}

/// The first client whose id matches `id` case-insensitively, if any.
pub open spec fn spec_client_by_id(cs: Seq<ClientV>, id: Seq<char>) -> Option<ClientV> {
    if has_client(cs, id) {
        Some(cs[client_index(cs, id)])
    } else {
        None
    }
}

pub proof fn lemma_client_index(cs: Seq<ClientV>, id: Seq<char>)
    ensures
        0 <= client_index(cs, id) <= cs.len(),
        client_index(cs, id) < cs.len() ==> eq_ignore_case(cs[client_index(cs, id)].id, id),
        forall|k: int| 0 <= k < client_index(cs, id) ==> !eq_ignore_case(cs[k].id, id),
        has_client(cs, id) <==> client_index(cs, id) < cs.len(),
    decreases cs.len(),
{
    if cs.len() == 0 || eq_ignore_case(cs[0].id, id) {
    } else {
        lemma_client_index(cs.drop_first(), id);
        assert forall|k: int| 0 <= k < client_index(cs, id) implies !eq_ignore_case(
            cs[k].id,
            id,
        ) by {
            if k > 0 {
                assert(cs.drop_first()[k - 1] == cs[k]);
            }
        }
        if client_index(cs, id) < cs.len() {
            assert(cs.drop_first()[client_index(cs, id) - 1] == cs[client_index(cs, id)]);
        }
        if has_client(cs, id) {
            let w = choose|i: int| 0 <= i < cs.len() && eq_ignore_case(cs[i].id, id);
            assert(cs.drop_first()[w - 1] == cs[w]);
            assert(has_client(cs.drop_first(), id));
        }
        if has_client(cs.drop_first(), id) {
            let w = choose|i: int|
                0 <= i < cs.drop_first().len() && eq_ignore_case(cs.drop_first()[i].id, id);
            assert(cs.drop_first()[w] == cs[w + 1]);
        }
    }
}

/// Looks a client up by id, case-insensitively; the first match wins.
pub fn get_client_by_id(config: &Config, client_id: &str) -> (r: Option<Client>)
    ensures
        r.deep_view() == spec_client_by_id(config@.clients, client_id@),
{
    let n = config.clients.len();
    let mut i: usize = 0;
    proof {
        lemma_client_index(config@.clients, client_id@);
    }
    while i < n
        invariant
            n == config@.clients.len(),
            0 <= i <= n,
            forall|k: int| 0 <= k < i ==> !eq_ignore_case(config@.clients[k].id, client_id@),
        decreases n - i,
    {
        proof {
            assert(config@.clients[i as int] == config.clients@[i as int].deep_view());
        }
        if crate::text::str_eq_ignore_case(config.clients[i].id.as_str(), client_id) {
            let c = config.clients[i].clone();
            proof {
                assert(eq_ignore_case(config@.clients[i as int].id, client_id@));
                assert(has_client(config@.clients, client_id@));
                lemma_client_index(config@.clients, client_id@);
            }
            return Some(c);
        }
        i = i + 1;
    }
    proof {
        lemma_client_index(config@.clients, client_id@);
        if has_client(config@.clients, client_id@) {
            let w = choose|k: int|
                0 <= k < n && eq_ignore_case(config@.clients[k].id, client_id@);
            assert(!eq_ignore_case(config@.clients[w].id, client_id@));
        }
    }
    None
}

/// Conflict message for a duplicate client name.
pub open spec fn msg_dup_name(name: Seq<char>) -> Seq<char> {
    "A client with name '"@ + name + "' already exists"@
}

/// Conflict message for a duplicate client address.
pub open spec fn msg_dup_ip(ip: Seq<char>, other: Seq<char>) -> Seq<char> {
    "IP address "@ + ip + " is already in use by client '"@ + other + "'"@
}

/// Conflict message for a duplicate hardware address.
pub open spec fn msg_dup_mac(mac: Seq<char>, other: Seq<char>) -> Seq<char> {
    "MAC address "@ + mac + " is already in use by client '"@ + other + "'"@
}

/// The first uniqueness conflict of the proposed name, hardware address and
/// address against the existing clients, in client order; within one client
/// the name is checked first, then the address, then the hardware address.
pub open spec fn dup_conflict(
    cs: Seq<ClientV>,
    name: Seq<char>,
    mac: Seq<char>,
    ip: Seq<char>,
) -> Option<Seq<char>>
    decreases cs.len(),
{
    if cs.len() == 0 {
        None
    } else if lower(name) == lower(cs[0].name) {
        Some(msg_dup_name(name))
    } else if ip == cs[0].ip {
        Some(msg_dup_ip(ip, cs[0].name))
    } else if upper(mac) == upper(cs[0].mac) {
        Some(msg_dup_mac(mac, cs[0].name))
    } else {
        dup_conflict(cs.drop_first(), name, mac, ip)
    }
}

/// Checks a proposed client against the uniqueness rules: name unique
/// case-insensitively, address unique exactly, hardware address unique
/// case-insensitively.  Returns the first conflict's message.
pub fn check_duplicate_client(config: &Config, name: &str, mac: &str, ip: &str) -> (r: Option<
    String,
>)
    ensures
        r.deep_view() == dup_conflict(config@.clients, name@, mac@, ip@),
{
    let cs = &config.clients;
    let n = cs.len();
    let mut i: usize = 0;
    proof {
        assert(config@.clients.skip(0) =~= config@.clients);
    }
    while i < n
        invariant
            n == cs@.len(),
            cs@ == config.clients@,
            0 <= i <= n,
            dup_conflict(config@.clients, name@, mac@, ip@) == dup_conflict(
                config@.clients.skip(i as int),
                name@,
                mac@,
                ip@,
            ),
        decreases n - i,
    {
        let ghost tail = config@.clients.skip(i as int);
        proof {
            assert(tail[0] == config@.clients[i as int]);
            assert(config@.clients[i as int] == config.clients@[i as int].deep_view());
            assert(tail.drop_first() =~= config@.clients.skip(i + 1));
        }
        let c = &cs[i];
        if crate::text::str_eq_ignore_case(name, c.name.as_str()) {
            let msg = String::from_str("A client with name '").concat(name).concat(
                "' already exists",
            );
            proof {
                assert(msg@ =~= msg_dup_name(name@));
            }
            return Some(msg);
        }
        if crate::text::str_eq(ip, c.ip.as_str()) {
            let msg = String::from_str("IP address ").concat(ip).concat(
                " is already in use by client '",
            ).concat(c.name.as_str()).concat("'");
            proof {
                assert(msg@ =~= msg_dup_ip(ip@, config@.clients[i as int].name));
            }
            return Some(msg);
        }
        let mac_up = crate::text::to_upper(mac);
        let c_mac_up = crate::text::to_upper(c.mac.as_str());
        if mac_up == c_mac_up {
            let msg = String::from_str("MAC address ").concat(mac).concat(
                " is already in use by client '",
            ).concat(c.name.as_str()).concat("'");
            proof {
                assert(msg@ =~= msg_dup_mac(mac@, config@.clients[i as int].name));
            }
            return Some(msg);
        }
        i = i + 1;
    }
    proof {
        assert(config@.clients.skip(n as int) =~= Seq::<ClientV>::empty());
    }
    None
}

/// The client list with `c` replacing its first record of the same id, or
/// appended if no record has its id.
pub open spec fn upsert_client(cs: Seq<ClientV>, c: ClientV) -> Seq<ClientV>
    decreases cs.len(),
{
    if cs.len() == 0 {
        seq![c]
    } else if cs[0].id == c.id {
        seq![c] + cs.drop_first()
    } else {
        seq![cs[0]] + upsert_client(cs.drop_first(), c)
    }
}

proof fn lemma_upsert_client_update(cs: Seq<ClientV>, c: ClientV, i: int)
    requires
        0 <= i < cs.len(),
        cs[i].id == c.id,
        forall|k: int| 0 <= k < i ==> cs[k].id != c.id,
    ensures
        upsert_client(cs, c) == cs.update(i, c),
    decreases i,
{
    if i == 0 {
        assert(upsert_client(cs, c) =~= cs.update(0, c));
    } else {
        lemma_upsert_client_update(cs.drop_first(), c, i - 1);
        assert(upsert_client(cs, c) =~= cs.update(i, c));
    }
}

pub proof fn lemma_upsert_client_push(cs: Seq<ClientV>, c: ClientV)
    requires
        forall|k: int| 0 <= k < cs.len() ==> cs[k].id != c.id,
    ensures
        upsert_client(cs, c) == cs.push(c),
    decreases cs.len(),
{
    if cs.len() == 0 {
        assert(upsert_client(cs, c) =~= cs.push(c));
    } else {
        lemma_upsert_client_push(cs.drop_first(), c);
        assert(upsert_client(cs, c) =~= cs.push(c));
    }
}

/// Inserts or replaces a client's record, keyed by exact id.
pub fn save_client_config(config: &mut Config, client: &Client)
    ensures
        final(config)@.clients == upsert_client(old(config)@.clients, client@),
        final(config)@.masters == old(config)@.masters,
        final(config)@.services == old(config)@.services,
        final(config)@.settings == old(config)@.settings,
{
    let n = config.clients.len();
    let mut i: usize = 0;
    while i < n
        invariant
            config@ == old(config)@,
            n == config@.clients.len(),
            0 <= i <= n,
            forall|k: int| 0 <= k < i ==> config@.clients[k].id != client@.id,
        decreases n - i,
    {
        proof {
            assert(config@.clients[i as int] == config.clients@[i as int].deep_view());
        }
        if crate::text::str_eq(config.clients[i].id.as_str(), client.id.as_str()) {
            let ghost before = config@;
            config.clients.set(i, client.clone());
            proof {
                assert(config@.clients =~= before.clients.update(i as int, client@));
                lemma_upsert_client_update(before.clients, client@, i as int);
            }
            return ;
        }
        i = i + 1;
    }
    let ghost before = config@;
    config.clients.push(client.clone());
    proof {
        assert(config@.clients =~= before.clients.push(client@));
        lemma_upsert_client_push(before.clients, client@);
    }
}

/// The client list with every record whose id matches `id` case-insensitively
/// removed.
pub open spec fn remove_clients(cs: Seq<ClientV>, id: Seq<char>) -> Seq<ClientV>
    decreases cs.len(),
{
    if cs.len() == 0 {
        Seq::empty()
    } else if eq_ignore_case(cs[0].id, id) {
        remove_clients(cs.drop_first(), id)
    } else {
        seq![cs[0]] + remove_clients(cs.drop_first(), id)
    }
}

/// Removes a client's record, matching the id case-insensitively.
pub fn delete_client_config(config: &mut Config, client_id: &str)
    ensures
        final(config)@.clients == remove_clients(old(config)@.clients, client_id@),
        final(config)@.masters == old(config)@.masters,
        final(config)@.services == old(config)@.services,
        final(config)@.settings == old(config)@.settings,
{
    let n = config.clients.len();
    let mut out: Vec<Client> = Vec::new();
    let mut i: usize = 0;
    proof {
        assert(config@.clients.skip(0) =~= config@.clients);
        assert(out.deep_view() =~= Seq::<ClientV>::empty());
        assert(Seq::<ClientV>::empty() + remove_clients(config@.clients, client_id@)
            =~= remove_clients(config@.clients, client_id@));
    }
    while i < n
        invariant
            config@ == old(config)@,
            n == config@.clients.len(),
            0 <= i <= n,
            remove_clients(config@.clients, client_id@) == out.deep_view() + remove_clients(
                config@.clients.skip(i as int),
                client_id@,
            ),
        decreases n - i,
    {
        let ghost tail = config@.clients.skip(i as int);
        proof {
            assert(tail[0] == config@.clients[i as int]);
            assert(config@.clients[i as int] == config.clients@[i as int].deep_view());
            assert(tail.drop_first() =~= config@.clients.skip(i + 1));
        }
        if !crate::text::str_eq_ignore_case(config.clients[i].id.as_str(), client_id) {
            let ghost before = out.deep_view();
            out.push(config.clients[i].clone());
            proof {
                assert(out.deep_view() =~= before + seq![tail[0]]);
                assert(before + (seq![tail[0]] + remove_clients(tail.drop_first(), client_id@))
                    =~= (before + seq![tail[0]]) + remove_clients(tail.drop_first(), client_id@));
            }
        }
        i = i + 1;
    }
    proof {
        assert(config@.clients.skip(n as int) =~= Seq::<ClientV>::empty());
        assert(out.deep_view() + remove_clients(Seq::<ClientV>::empty(), client_id@)
            =~= out.deep_view());
    }
    config.clients = out;
}

/// After a client's record is inserted, looking its id up finds exactly that
/// record, provided no other record's id collides with it case-insensitively
/// other than by being equal.
pub proof fn lemma_saved_client_found(cs: Seq<ClientV>, c: ClientV)
    requires
        forall|k: int|
            0 <= k < cs.len() && eq_ignore_case(cs[k].id, c.id) ==> cs[k].id == c.id,
    ensures
        spec_client_by_id(upsert_client(cs, c), c.id) == Some(c),
    decreases cs.len(),
{
    let r = upsert_client(cs, c);
    if cs.len() == 0 {
        assert(eq_ignore_case(c.id, c.id));
        assert(r[0] == c);
        assert(has_client(r, c.id));
        lemma_client_index(r, c.id);
    } else if cs[0].id == c.id {
        assert(r[0] == c);
        assert(eq_ignore_case(c.id, c.id));
        assert(has_client(r, c.id));
        lemma_client_index(r, c.id);
        assert(client_index(r, c.id) == 0);
    } else {
        assert(!eq_ignore_case(cs[0].id, c.id));
        lemma_saved_client_found(cs.drop_first(), c);
        let rt = upsert_client(cs.drop_first(), c);
        assert(r =~= seq![cs[0]] + rt);
        assert(r.drop_first() =~= rt);
        lemma_client_index(rt, c.id);
        assert(has_client(rt, c.id));
        let w = client_index(rt, c.id);
        assert(r[w + 1] == rt[w]);
        assert(has_client(r, c.id));
        lemma_client_index(r, c.id);
        let v = client_index(r, c.id);
        assert(v >= 1);
        assert(r[v] == rt[v - 1]);
        assert(forall|k: int| 0 <= k < v - 1 ==> rt[k] == r[k + 1]);
        assert(forall|k: int| 0 <= k < v - 1 ==> !eq_ignore_case(rt[k].id, c.id));
        assert(client_index(rt, c.id) == v - 1) by {
            lemma_client_index(rt, c.id);
        }
    }
}

/// The master list with `m` replacing its first record of the same name, or
/// appended if no record has its name.
pub open spec fn upsert_master(ms: Seq<MasterDataV>, m: MasterDataV) -> Seq<MasterDataV>
    decreases ms.len(),
{
    if ms.len() == 0 {
        seq![m]
    } else if ms[0].name == m.name {
        seq![m] + ms.drop_first()
    } else {
        seq![ms[0]] + upsert_master(ms.drop_first(), m)
    }
}

proof fn lemma_upsert_master_update(ms: Seq<MasterDataV>, m: MasterDataV, i: int)
    requires
        0 <= i < ms.len(),
        ms[i].name == m.name,
        forall|k: int| 0 <= k < i ==> ms[k].name != m.name,
    ensures
        upsert_master(ms, m) == ms.update(i, m),
    decreases i,
{
    if i == 0 {
        assert(upsert_master(ms, m) =~= ms.update(0, m));
    } else {
        lemma_upsert_master_update(ms.drop_first(), m, i - 1);
        assert(upsert_master(ms, m) =~= ms.update(i, m));
    }
}

proof fn lemma_upsert_master_push(ms: Seq<MasterDataV>, m: MasterDataV)
    requires
        forall|k: int| 0 <= k < ms.len() ==> ms[k].name != m.name,
    ensures
        upsert_master(ms, m) == ms.push(m),
    decreases ms.len(),
{
    if ms.len() == 0 {
        assert(upsert_master(ms, m) =~= ms.push(m));
    } else {
        lemma_upsert_master_push(ms.drop_first(), m);
        assert(upsert_master(ms, m) =~= ms.push(m));
    }
}

/// Inserts or replaces a master's record, keyed by exact name.
pub fn save_master_config(config: &mut Config, master: &MasterData)
    ensures
        final(config)@.masters == upsert_master(old(config)@.masters, master@),
        final(config)@.clients == old(config)@.clients,
        final(config)@.services == old(config)@.services,
        final(config)@.settings == old(config)@.settings,
{
    let n = config.masters.len();
    let mut i: usize = 0;
    while i < n
        invariant
            config@ == old(config)@,
            n == config@.masters.len(),
            0 <= i <= n,
            forall|k: int| 0 <= k < i ==> config@.masters[k].name != master@.name,
        decreases n - i,
    {
        proof {
            assert(config@.masters[i as int] == config.masters@[i as int].deep_view());
        }
        if crate::text::str_eq(config.masters[i].name.as_str(), master.name.as_str()) {
            let ghost before = config@;
            config.masters.set(i, clone_master_data(master));
            proof {
                assert(config@.masters =~= before.masters.update(i as int, master@));
                lemma_upsert_master_update(before.masters, master@, i as int);
            }
            return ;
        }
        i = i + 1;
    }
    let ghost before = config@;
    config.masters.push(clone_master_data(master));
    proof {
        assert(config@.masters =~= before.masters.push(master@));
        lemma_upsert_master_push(before.masters, master@);
    }
}

/// Copies a master record, keeping its value.
pub fn clone_master_data(m: &MasterData) -> (r: MasterData)
    ensures
        r@ == m@,
{
    let mut snaps: Vec<String> = Vec::new();
    let mut i: usize = 0;
    let n = m.snapshots.len();
    while i < n
        invariant
            n == m.snapshots@.len(),
            0 <= i <= n,
            snaps.deep_view() == m.snapshots.deep_view().take(i as int),
        decreases n - i,
    {
        let ghost before = snaps.deep_view();
        snaps.push(m.snapshots[i].clone());
        proof {
            assert(snaps.deep_view() =~= before.push(m.snapshots@[i as int]@));
            assert(m.snapshots.deep_view().take(i + 1) =~= m.snapshots.deep_view().take(
                i as int,
            ).push(m.snapshots.deep_view()[i as int]));
        }
        i = i + 1;
    }
    proof {
        assert(m.snapshots.deep_view().take(n as int) =~= m.snapshots.deep_view());
    }
    MasterData {
        name: m.name.clone(),
        size: m.size.clone(),
        snapshots: snaps,
        created_at: m.created_at.clone(),
        last_modified: m.last_modified.clone(),
    }
}

/// The master list with every record of the given exact name removed.
pub open spec fn remove_master(ms: Seq<MasterDataV>, name: Seq<char>) -> Seq<MasterDataV>
    decreases ms.len(),
{
    if ms.len() == 0 {
        Seq::empty()
    } else if ms[0].name == name {
        remove_master(ms.drop_first(), name)
    } else {
        seq![ms[0]] + remove_master(ms.drop_first(), name)
    }
}

/// Removes a master's record, keyed by exact name.
pub fn delete_master_config(config: &mut Config, master_name: &str)
    ensures
        final(config)@.masters == remove_master(old(config)@.masters, master_name@),
        final(config)@.clients == old(config)@.clients,
        final(config)@.services == old(config)@.services,
        final(config)@.settings == old(config)@.settings,
{
    let n = config.masters.len();
    let mut out: Vec<MasterData> = Vec::new();
    let mut i: usize = 0;
    proof {
        assert(config@.masters.skip(0) =~= config@.masters);
        assert(out.deep_view() =~= Seq::<MasterDataV>::empty());
        assert(Seq::<MasterDataV>::empty() + remove_master(config@.masters, master_name@)
            =~= remove_master(config@.masters, master_name@));
    }
    while i < n
        invariant
            config@ == old(config)@,
            n == config@.masters.len(),
            0 <= i <= n,
            remove_master(config@.masters, master_name@) == out.deep_view() + remove_master(
                config@.masters.skip(i as int),
                master_name@,
            ),
        decreases n - i,
    {
        let ghost tail = config@.masters.skip(i as int);
        proof {
            assert(tail[0] == config@.masters[i as int]);
            assert(config@.masters[i as int] == config.masters@[i as int].deep_view());
            assert(tail.drop_first() =~= config@.masters.skip(i + 1));
        }
        if !crate::text::str_eq(config.masters[i].name.as_str(), master_name) {
            let ghost before = out.deep_view();
            out.push(clone_master_data(&config.masters[i]));
            proof {
                assert(out.deep_view() =~= before + seq![tail[0]]);
                assert(before + (seq![tail[0]] + remove_master(tail.drop_first(), master_name@))
                    =~= (before + seq![tail[0]]) + remove_master(tail.drop_first(), master_name@));
            }
        }
        i = i + 1;
    }
    proof {
        assert(config@.masters.skip(n as int) =~= Seq::<MasterDataV>::empty());
        assert(out.deep_view() + remove_master(Seq::<MasterDataV>::empty(), master_name@)
            =~= out.deep_view());
    }
    config.masters = out;
}

/// The names of the clients whose `master` field equals `name` exactly, in
/// client order.
pub open spec fn dependents_of_master(cs: Seq<ClientV>, name: Seq<char>) -> Seq<Seq<char>>
    decreases cs.len(),
{
    if cs.len() == 0 {
        Seq::empty()
    } else if cs[0].master == name {
        seq![cs[0].name] + dependents_of_master(cs.drop_first(), name)
    } else {
        dependents_of_master(cs.drop_first(), name)
    }
}

/// Lists the names of the clients that reference the given master.
pub fn dependent_clients_of_master(config: &Config, master_name: &str) -> (r: Vec<String>)
    ensures
        r.deep_view() == dependents_of_master(config@.clients, master_name@),
{
    let n = config.clients.len();
    let mut out: Vec<String> = Vec::new();
    let mut i: usize = 0;
    proof {
        assert(config@.clients.skip(0) =~= config@.clients);
        assert(Seq::<Seq<char>>::empty() + dependents_of_master(config@.clients, master_name@)
            =~= dependents_of_master(config@.clients, master_name@));
        assert(out.deep_view() =~= Seq::<Seq<char>>::empty());
    }
    while i < n
        invariant
            n == config@.clients.len(),
            0 <= i <= n,
            dependents_of_master(config@.clients, master_name@) == out.deep_view()
                + dependents_of_master(config@.clients.skip(i as int), master_name@),
        decreases n - i,
    {
        let ghost tail = config@.clients.skip(i as int);
        proof {
            assert(tail[0] == config@.clients[i as int]);
            assert(config@.clients[i as int] == config.clients@[i as int].deep_view());
            assert(tail.drop_first() =~= config@.clients.skip(i + 1));
        }
        if crate::text::str_eq(config.clients[i].master.as_str(), master_name) {
            let ghost before = out.deep_view();
            out.push(config.clients[i].name.clone());
            proof {
                assert(out.deep_view() =~= before + seq![tail[0].name]);
                assert(before + (seq![tail[0].name] + dependents_of_master(
                    tail.drop_first(),
                    master_name@,
                )) =~= (before + seq![tail[0].name]) + dependents_of_master(
                    tail.drop_first(),
                    master_name@,
                ));
            }
        }
        i = i + 1;
    }
    proof {
        assert(config@.clients.skip(n as int) =~= Seq::<ClientV>::empty());
        assert(out.deep_view() + dependents_of_master(Seq::<ClientV>::empty(), master_name@)
            =~= out.deep_view());
    }
    out
}

/// The names of the clients whose `snapshot` field equals `name`, in client
/// order.
pub open spec fn dependents_of_snapshot(cs: Seq<ClientV>, name: Seq<char>) -> Seq<Seq<char>>
    decreases cs.len(),
{
    if cs.len() == 0 {
        Seq::empty()
    } else if cs[0].snapshot == Some(name) {
        seq![cs[0].name] + dependents_of_snapshot(cs.drop_first(), name)
    } else {
        dependents_of_snapshot(cs.drop_first(), name)
    }
}

/// Lists the names of the clients that reference the given snapshot.
pub fn dependent_clients_of_snapshot(config: &Config, snapshot_name: &str) -> (r: Vec<String>)
    ensures
        r.deep_view() == dependents_of_snapshot(config@.clients, snapshot_name@),
{
    let n = config.clients.len();
    let mut out: Vec<String> = Vec::new();
    let mut i: usize = 0;
    proof {
        assert(config@.clients.skip(0) =~= config@.clients);
        assert(Seq::<Seq<char>>::empty() + dependents_of_snapshot(config@.clients, snapshot_name@)
            =~= dependents_of_snapshot(config@.clients, snapshot_name@));
        assert(out.deep_view() =~= Seq::<Seq<char>>::empty());
    }
    while i < n
        invariant
            n == config@.clients.len(),
            0 <= i <= n,
            dependents_of_snapshot(config@.clients, snapshot_name@) == out.deep_view()
                + dependents_of_snapshot(config@.clients.skip(i as int), snapshot_name@),
        decreases n - i,
    {
        let ghost tail = config@.clients.skip(i as int);
        proof {
            assert(tail[0] == config@.clients[i as int]);
            assert(config@.clients[i as int] == config.clients@[i as int].deep_view());
            assert(tail.drop_first() =~= config@.clients.skip(i + 1));
        }
        let is_dep = match &config.clients[i].snapshot {
            Some(s) => crate::text::str_eq(s.as_str(), snapshot_name),
            None => false,
        };
        if is_dep {
            let ghost before = out.deep_view();
            out.push(config.clients[i].name.clone());
            proof {
                assert(tail[0].snapshot == Some(snapshot_name@));
                assert(out.deep_view() =~= before + seq![tail[0].name]);
                assert(before + (seq![tail[0].name] + dependents_of_snapshot(
                    tail.drop_first(),
                    snapshot_name@,
                )) =~= (before + seq![tail[0].name]) + dependents_of_snapshot(
                    tail.drop_first(),
                    snapshot_name@,
                ));
            }
        }
        i = i + 1;
    }
    proof {
        assert(config@.clients.skip(n as int) =~= Seq::<ClientV>::empty());
        assert(out.deep_view() + dependents_of_snapshot(Seq::<ClientV>::empty(), snapshot_name@)
            =~= out.deep_view());
    }
    out
}

/// Sets the default master name in the settings.
pub fn set_default_master(config: &mut Config, name: &str)
    ensures
        final(config)@.settings.default_master == name@,
        final(config)@.settings.zfs_pool == old(config)@.settings.zfs_pool,
        final(config)@.settings.zpool_name == old(config)@.settings.zpool_name,
        final(config)@.clients == old(config)@.clients,
        final(config)@.masters == old(config)@.masters,
        final(config)@.services == old(config)@.services,
{
    config.settings.default_master = String::from_str(name);
}

/// Records the pool name chosen in the interface.
pub fn save_config(config: &mut Config, pool_name: &str)
    ensures
        final(config)@.settings.zfs_pool == pool_name@,
        final(config)@.settings.default_master == old(config)@.settings.default_master,
        final(config)@.settings.zpool_name == old(config)@.settings.zpool_name,
        final(config)@.clients == old(config)@.clients,
        final(config)@.masters == old(config)@.masters,
        final(config)@.services == old(config)@.services,
{
    config.settings.zfs_pool = String::from_str(pool_name);
}

/// Records the pool name confirmed by probing the storage layer.
pub fn set_zpool_name(config: &mut Config, name: &str)
    ensures
        final(config)@.settings.zpool_name == name@,
        final(config)@.settings.default_master == old(config)@.settings.default_master,
        final(config)@.settings.zfs_pool == old(config)@.settings.zfs_pool,
        final(config)@.clients == old(config)@.clients,
        final(config)@.masters == old(config)@.masters,
        final(config)@.services == old(config)@.services,
{
    config.settings.zpool_name = String::from_str(name);
}

/// The snapshot list with every occurrence of `snap` removed.
pub open spec fn remove_snap_name(ss: Seq<Seq<char>>, snap: Seq<char>) -> Seq<Seq<char>>
    decreases ss.len(),
{
    if ss.len() == 0 {
        Seq::empty()
    } else if ss[0] == snap {
        remove_snap_name(ss.drop_first(), snap)
    } else {
        seq![ss[0]] + remove_snap_name(ss.drop_first(), snap)
    }
}

/// The master list after a snapshot is recorded under the master of the given
/// exact name: the first such master gains the snapshot unless it already
/// lists it; without such a master nothing changes.
pub open spec fn masters_add_snapshot(
    ms: Seq<MasterDataV>,
    name: Seq<char>,
    snap: Seq<char>,
) -> Seq<MasterDataV>
    decreases ms.len(),
{
    if ms.len() == 0 {
        Seq::empty()
    } else if ms[0].name == name {
        let m0 = if ms[0].snapshots.contains(snap) {
            ms[0]
        } else {
            MasterDataV { snapshots: ms[0].snapshots.push(snap), ..ms[0] }
        };
        seq![m0] + ms.drop_first()
    } else {
        seq![ms[0]] + masters_add_snapshot(ms.drop_first(), name, snap)
    }
}

/// The master list after a snapshot's deletion is recorded: the first master
/// that lists it loses every occurrence; later masters are untouched.
pub open spec fn masters_remove_snapshot(
    ms: Seq<MasterDataV>,
    snap: Seq<char>,
) -> Seq<MasterDataV>
    decreases ms.len(),
{
    if ms.len() == 0 {
        Seq::empty()
    } else if ms[0].snapshots.contains(snap) {
        seq![
            MasterDataV { snapshots: remove_snap_name(ms[0].snapshots, snap), ..ms[0] },
        ] + ms.drop_first()
    } else {
        seq![ms[0]] + masters_remove_snapshot(ms.drop_first(), snap)
    }
}

/// Whether the string list holds `v`, by exact comparison.
fn names_contain(ss: &Vec<String>, v: &str) -> (r: bool)
    ensures
        r == ss.deep_view().contains(v@),
{
    let n = ss.len();
    let mut i: usize = 0;
    while i < n
        invariant
            n == ss@.len(),
            0 <= i <= n,
            forall|k: int| 0 <= k < i ==> ss.deep_view()[k] != v@,
        decreases n - i,
    {
        proof {
            assert(ss.deep_view()[i as int] == ss@[i as int]@);
        }
        if crate::text::str_eq(ss[i].as_str(), v) {
            proof {
                assert(ss.deep_view()[i as int] == v@);
            }
            return true;
        }
        i = i + 1;
    }
    proof {
        if ss.deep_view().contains(v@) {
            let w = choose|k: int| 0 <= k < ss.deep_view().len() && ss.deep_view()[k] == v@;
            assert(ss.deep_view()[w] != v@);
        }
    }
    false
}

/// Records a snapshot under its master in the configuration document.
pub fn add_snapshot_to_master(config: &mut Config, master_name: &str, snapshot_name: &str)
    ensures
        final(config)@.masters == masters_add_snapshot(
            old(config)@.masters,
            master_name@,
            snapshot_name@,
        ),
        final(config)@.clients == old(config)@.clients,
        final(config)@.services == old(config)@.services,
        final(config)@.settings == old(config)@.settings,
{
    let n = config.masters.len();
    let mut i: usize = 0;
    proof {
        assert(config@.masters.skip(0) =~= config@.masters);
    }
    while i < n
        invariant
            config@ == old(config)@,
            n == config@.masters.len(),
            0 <= i <= n,
            forall|k: int| 0 <= k < i ==> config@.masters[k].name != master_name@,
        decreases n - i,
    {
        proof {
            assert(config@.masters[i as int] == config.masters@[i as int].deep_view());
        }
        if crate::text::str_eq(config.masters[i].name.as_str(), master_name) {
            let ghost before = config@.masters;
            if !names_contain(&config.masters[i].snapshots, snapshot_name) {
                let mut md = clone_master_data(&config.masters[i]);
                let ghost snaps_before = md.snapshots.deep_view();
                md.snapshots.push(String::from_str(snapshot_name));
                proof {
                    assert(md.snapshots.deep_view() =~= snaps_before.push(snapshot_name@));
                }
                config.masters.set(i, md);
            }
            proof {
                lemma_masters_add_found(before, master_name@, snapshot_name@, i as int);
                assert(config@.masters =~= masters_add_snapshot(
                    before,
                    master_name@,
                    snapshot_name@,
                ));
            }
            return ;
        }
        i = i + 1;
    }
    proof {
        lemma_masters_add_missing(config@.masters, master_name@, snapshot_name@);
        assert(config@.masters =~= masters_add_snapshot(
            config@.masters,
            master_name@,
            snapshot_name@,
        ));
    }
}

proof fn lemma_masters_add_found(ms: Seq<MasterDataV>, name: Seq<char>, snap: Seq<char>, i: int)
    requires
        0 <= i < ms.len(),
        ms[i].name == name,
        forall|k: int| 0 <= k < i ==> ms[k].name != name,
    ensures
        masters_add_snapshot(ms, name, snap) == ms.update(
            i,
            if ms[i].snapshots.contains(snap) {
                ms[i]
            } else {
                MasterDataV { snapshots: ms[i].snapshots.push(snap), ..ms[i] }
            },
        ),
    decreases i,
{
    if i == 0 {
        assert(masters_add_snapshot(ms, name, snap) =~= ms.update(
            0,
            if ms[0].snapshots.contains(snap) {
                ms[0]
            } else {
                MasterDataV { snapshots: ms[0].snapshots.push(snap), ..ms[0] }
            },
        ));
    } else {
        lemma_masters_add_found(ms.drop_first(), name, snap, i - 1);
        assert(masters_add_snapshot(ms, name, snap) =~= ms.update(
            i,
            if ms[i].snapshots.contains(snap) {
                ms[i]
            } else {
                MasterDataV { snapshots: ms[i].snapshots.push(snap), ..ms[i] }
            },
        ));
    }
}

proof fn lemma_masters_add_missing(ms: Seq<MasterDataV>, name: Seq<char>, snap: Seq<char>)
    requires
        forall|k: int| 0 <= k < ms.len() ==> ms[k].name != name,
    ensures
        masters_add_snapshot(ms, name, snap) == ms,
    decreases ms.len(),
{
    if ms.len() == 0 {
        assert(masters_add_snapshot(ms, name, snap) =~= ms);
    } else {
        lemma_masters_add_missing(ms.drop_first(), name, snap);
        assert(masters_add_snapshot(ms, name, snap) =~= ms);
    }
}

/// Removes a deleted snapshot from the first master that lists it.
pub fn remove_snapshot_from_masters(config: &mut Config, snapshot_name: &str)
    ensures
        final(config)@.masters == masters_remove_snapshot(old(config)@.masters, snapshot_name@),
        final(config)@.clients == old(config)@.clients,
        final(config)@.services == old(config)@.services,
        final(config)@.settings == old(config)@.settings,
{
    let n = config.masters.len();
    let mut i: usize = 0;
    while i < n
        invariant
            config@ == old(config)@,
            n == config@.masters.len(),
            0 <= i <= n,
            forall|k: int|
                0 <= k < i ==> !config@.masters[k].snapshots.contains(snapshot_name@),
        decreases n - i,
    {
        proof {
            assert(config@.masters[i as int] == config.masters@[i as int].deep_view());
        }
        if names_contain(&config.masters[i].snapshots, snapshot_name) {
            let ghost before = config@.masters;
            let src = &config.masters[i];
            let mut kept: Vec<String> = Vec::new();
            let sn = src.snapshots.len();
            let mut j: usize = 0;
            proof {
                assert(src.snapshots.deep_view().skip(0) =~= src.snapshots.deep_view());
                assert(kept.deep_view() =~= Seq::<Seq<char>>::empty());
                assert(Seq::<Seq<char>>::empty() + remove_snap_name(
                    src.snapshots.deep_view(),
                    snapshot_name@,
                ) =~= remove_snap_name(src.snapshots.deep_view(), snapshot_name@));
            }
            while j < sn
                invariant
                    sn == src.snapshots@.len(),
                    0 <= j <= sn,
                    remove_snap_name(src.snapshots.deep_view(), snapshot_name@) == kept.deep_view()
                        + remove_snap_name(
                        src.snapshots.deep_view().skip(j as int),
                        snapshot_name@,
                    ),
                decreases sn - j,
            {
                let ghost tail = src.snapshots.deep_view().skip(j as int);
                proof {
                    assert(tail[0] == src.snapshots.deep_view()[j as int]);
                    assert(src.snapshots.deep_view()[j as int] == src.snapshots@[j as int]@);
                    assert(tail.drop_first() =~= src.snapshots.deep_view().skip(j + 1));
                }
                if !crate::text::str_eq(src.snapshots[j].as_str(), snapshot_name) {
                    let ghost kb = kept.deep_view();
                    kept.push(src.snapshots[j].clone());
                    proof {
                        assert(kept.deep_view() =~= kb + seq![tail[0]]);
                        assert(kb + (seq![tail[0]] + remove_snap_name(
                            tail.drop_first(),
                            snapshot_name@,
                        )) =~= (kb + seq![tail[0]]) + remove_snap_name(
                            tail.drop_first(),
                            snapshot_name@,
                        ));
                    }
                }
                j = j + 1;
            }
            proof {
                assert(src.snapshots.deep_view().skip(sn as int) =~= Seq::<Seq<char>>::empty());
                assert(kept.deep_view() + remove_snap_name(
                    Seq::<Seq<char>>::empty(),
                    snapshot_name@,
                ) =~= kept.deep_view());
            }
            let md = MasterData {
                name: config.masters[i].name.clone(),
                size: config.masters[i].size.clone(),
                snapshots: kept,
                created_at: config.masters[i].created_at.clone(),
                last_modified: config.masters[i].last_modified.clone(),
            };
            config.masters.set(i, md);
            proof {
                lemma_masters_remove_found(before, snapshot_name@, i as int);
                assert(config@.masters =~= masters_remove_snapshot(before, snapshot_name@));
            }
            return ;
        }
        i = i + 1;
    }
    proof {
        lemma_masters_remove_missing(config@.masters, snapshot_name@);
        assert(config@.masters =~= masters_remove_snapshot(config@.masters, snapshot_name@));
    }
}

proof fn lemma_masters_remove_found(ms: Seq<MasterDataV>, snap: Seq<char>, i: int)
    requires
        0 <= i < ms.len(),
        ms[i].snapshots.contains(snap),
        forall|k: int| 0 <= k < i ==> !ms[k].snapshots.contains(snap),
    ensures
        masters_remove_snapshot(ms, snap) == ms.update(
            i,
            MasterDataV { snapshots: remove_snap_name(ms[i].snapshots, snap), ..ms[i] },
        ),
    decreases i,
{
    if i == 0 {
        assert(masters_remove_snapshot(ms, snap) =~= ms.update(
            0,
            MasterDataV { snapshots: remove_snap_name(ms[0].snapshots, snap), ..ms[0] },
        ));
    } else {
        lemma_masters_remove_found(ms.drop_first(), snap, i - 1);
        assert(masters_remove_snapshot(ms, snap) =~= ms.update(
            i,
            MasterDataV { snapshots: remove_snap_name(ms[i].snapshots, snap), ..ms[i] },
        ));
    }
}

proof fn lemma_masters_remove_missing(ms: Seq<MasterDataV>, snap: Seq<char>)
    requires
        forall|k: int| 0 <= k < ms.len() ==> !ms[k].snapshots.contains(snap),
    ensures
        masters_remove_snapshot(ms, snap) == ms,
    decreases ms.len(),
{
    if ms.len() == 0 {
        assert(masters_remove_snapshot(ms, snap) =~= ms);
    } else {
        lemma_masters_remove_missing(ms.drop_first(), snap);
        assert(masters_remove_snapshot(ms, snap) =~= ms);
    }
}

} // verus!
