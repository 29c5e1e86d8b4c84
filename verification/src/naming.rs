//! Derivation of resource names from a client identifier.
//!
//! Every component recomputes a client's storage clone path, export target
//! identity and backing-store name from the id alone, so the derivations live
//! here in one place.  The export identity folds case and drops underscores;
//! the backing-store name folds case only.
use crate::text::{lower, strip_underscores, to_lower, to_upper, upper};
use vstd::prelude::*;

verus! {

/// Character allowed in an identifier: ASCII letter, digit, underscore, hyphen.
pub open spec fn is_id_char(c: char) -> bool {
    ('a' <= c && c <= 'z') || ('A' <= c && c <= 'Z') || ('0' <= c && c <= '9') || c == '_' || c
        == '-'
}

/// A well-formed identifier: non-empty, identifier characters only.
pub open spec fn valid_id(s: Seq<char>) -> bool {
    s.len() > 0 && forall|i: int| 0 <= i < s.len() ==> is_id_char(s[i])
}

/// Whether `s` is a well-formed identifier.
pub fn check_valid_id(s: &str) -> (r: bool)
    ensures
        r == valid_id(s@),
{
    let cs = crate::text::str_chars(s);
    let n = cs.len();
    if n == 0 {
        return false;
    }
    let mut i: usize = 0;
    while i < n
        invariant
            cs@ == s@,
            n == cs@.len(),
            0 <= i <= n,
            forall|k: int| 0 <= k < i ==> is_id_char(s@[k]),
        decreases n - i,
    {
        let c = cs[i];
        let ok = ('a' <= c && c <= 'z') || ('A' <= c && c <= 'Z') || ('0' <= c && c <= '9') || c
            == '_' || c == '-';
        if !ok {
            return false;
        }
        i = i + 1;
    }
    true
}

/// Storage clone path of a client: `<pool>/<ID_UPPERCASE>-disk`.
pub open spec fn clone_path_of(id: Seq<char>) -> Seq<char> {
    crate::ZFS_POOL@ + seq!['/'] + upper(id) + "-disk"@
}

/// Export target identity of a client: a fixed prefix followed by the id
/// lower-cased with underscores removed.
pub open spec fn target_iqn_of(id: Seq<char>) -> Seq<char> {
    "iqn.2025-04.com.nsboot:"@ + strip_underscores(lower(id))
}

/// Export backing-store name of a client: `block_` followed by the id
/// lower-cased.
pub open spec fn block_store_of(id: Seq<char>) -> Seq<char> {
    "block_"@ + lower(id)
}

/// Device path under which a dataset is exposed as a block device.
pub open spec fn zvol_path_of(dataset: Seq<char>) -> Seq<char> {
    "/dev/zvol/"@ + dataset
}

/// Dataset name of a master volume: `<pool>/<name>-master`.
pub open spec fn master_path_of(name: Seq<char>) -> Seq<char> {
    crate::ZFS_POOL@ + seq!['/'] + name + "-master"@
}

/// Conventional base snapshot of a master: `<master>@base`.
pub open spec fn base_snapshot_of(master: Seq<char>) -> Seq<char> {
    master + "@base"@
}

/// Per-client snapshot taken from a master at create time:
/// `<master>@<id>_base`.
pub open spec fn auto_snapshot_of(master: Seq<char>, id: Seq<char>) -> Seq<char> {
    master + seq!['@'] + id + "_base"@
}

/// The derived resource names of one client.
pub struct ClientPaths {
    /// Storage clone dataset backing the client's disk.
    pub clone: String,
    /// Export target identity.
    pub target_iqn: String,
    /// Export backing-store name.
    pub block_store: String,
}

/// Recomputes a client's derived resource names from its id alone.
pub fn get_client_paths(client_id: &str) -> (r: ClientPaths)
    ensures
        r.clone@ == clone_path_of(client_id@),
        r.target_iqn@ == target_iqn_of(client_id@),
        r.block_store@ == block_store_of(client_id@),
{
    let up = to_upper(client_id);
    let lo = to_lower(client_id);
    let stripped = crate::text::remove_underscores(lo.as_str());
    let clone = String::from_str(crate::ZFS_POOL).concat("/").concat(up.as_str()).concat("-disk");
    let target_iqn = String::from_str("iqn.2025-04.com.nsboot:").concat(stripped.as_str());
    let block_store = String::from_str("block_").concat(lo.as_str());
    proof {
        reveal_strlit("/");
        assert(("/")@ =~= seq!['/']);
        assert(clone@ =~= clone_path_of(client_id@));
        assert(target_iqn@ =~= target_iqn_of(client_id@));
        assert(block_store@ =~= block_store_of(client_id@));
    }
    ClientPaths { clone, target_iqn, block_store }
}

proof fn lemma_append_left_cancel(p: Seq<char>, a: Seq<char>, b: Seq<char>)
    ensures
        (p + a == p + b) <==> a == b,
{
    if p + a == p + b {
        assert((p + a).len() == (p + b).len());
        assert(a.len() == b.len());
        assert forall|i: int| 0 <= i < a.len() implies a[i] == b[i] by {
            assert((p + a)[p.len() + i] == a[i]);
            assert((p + b)[p.len() + i] == b[i]);
        }
        assert(a =~= b);
    }
}

/// The export target identity is a pure function of the client id: two ids
/// derive the same identity exactly when they agree after case folding and
/// underscore removal.
pub proof fn lemma_target_iqn_injective(id1: Seq<char>, id2: Seq<char>)
    ensures
        (target_iqn_of(id1) == target_iqn_of(id2)) <==> (strip_underscores(lower(id1))
            == strip_underscores(lower(id2))),
{
    lemma_append_left_cancel(
        "iqn.2025-04.com.nsboot:"@,
        strip_underscores(lower(id1)),
        strip_underscores(lower(id2)),
    );
}

/// The export backing-store name is a pure function of the client id: two ids
/// derive the same name exactly when they agree after case folding.
pub proof fn lemma_block_store_injective(id1: Seq<char>, id2: Seq<char>)
    ensures
        (block_store_of(id1) == block_store_of(id2)) <==> (lower(id1) == lower(id2)),
{
    lemma_append_left_cancel("block_"@, lower(id1), lower(id2));
}

/// Renders the conventional base snapshot name of a master.
pub fn base_snapshot(master: &str) -> (r: String)
    ensures
        r@ == base_snapshot_of(master@),
{
    let r = String::from_str(master).concat("@base");
    proof {
        assert(r@ =~= base_snapshot_of(master@));
    }
    r
}

/// Renders the per-client snapshot name taken from a master at create time.
pub fn auto_snapshot(master: &str, id: &str) -> (r: String)
    ensures
        r@ == auto_snapshot_of(master@, id@),
{
    let r = String::from_str(master).concat("@").concat(id).concat("_base");
    proof {
        reveal_strlit("@");
        assert(("@")@ =~= seq!['@']);
        assert(r@ =~= auto_snapshot_of(master@, id@));
    }
    r
}

/// Renders the device path under which a dataset is exposed.
pub fn zvol_path(dataset: &str) -> (r: String)
    ensures
        r@ == zvol_path_of(dataset@),
{
    let r = String::from_str("/dev/zvol/").concat(dataset);
    proof {
        assert(r@ =~= zvol_path_of(dataset@));
    }
    r
}

} // verus!
