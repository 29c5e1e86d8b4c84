//! The boot-configuration file: one reservation stanza per client.
//!
//! A stanza is keyed by the client's formatted host name, binds the hardware
//! address to a fixed address, selects the boot loader by vendor-class
//! fingerprint, and carries the export root path.  The file transform below
//! removes a client's stanza by scanning for `host <name> {` and its matching
//! close brace (one level of nesting), collapses the blank lines that the
//! removal leaves behind, and appends the replacement stanza at the end.
use crate::text::{
    all_digits, digits_val, first_non_ws, is_ws, last_index_of_char, match_at, pad3_spec, upper,
};
use vstd::prelude::*;

verus! {

/// Formatted host name of a client: ids ending in `_<digits>` become a fixed
/// width `PC###` label keyed on the suffix after the last underscore; every
/// other id is upper-cased.
pub open spec fn format_client_name_spec(name: Seq<char>) -> Seq<char> {
    let i = last_index_of_char(name, '_');
    let d = name.skip(i + 1);
    if i >= 0 && d.len() > 0 && all_digits(d) && digits_val(d) <= u32::MAX {
        "PC"@ + pad3_spec(digits_val(d))
    } else {
        upper(name)
    }
}

/// Formats a client id for use as a boot-reservation host name.
pub fn format_client_name(name: &str) -> (r: String)
    ensures
        r@ == format_client_name_spec(name@),
{
    let cs = crate::text::str_chars(name);
    let n = cs.len();
    match crate::text::find_last_char(name, '_') {
        Some(i) => {
            let digits = crate::text::string_from_chars(&crate::text::subrange_vec(&cs, i + 1, n));
            proof {
                assert(digits@ =~= name@.skip(i + 1));
            }
            match crate::text::parse_u32(digits.as_str()) {
                Some(num) => {
                    let r = String::from_str("PC").concat(crate::text::pad3(num).as_str());
                    proof {
                        assert(r@ =~= format_client_name_spec(name@));
                    }
                    r
                },
                None => crate::text::to_upper(name),
            }
        },
        None => crate::text::to_upper(name),
    }
}

/// The reservation stanza rendered for one client.
pub open spec fn dhcp_entry_spec(
    name: Seq<char>,
    mac: Seq<char>,
    ip: Seq<char>,
    target_iqn: Seq<char>,
    server_ip: Seq<char>,
) -> Seq<char> {
    let f = format_client_name_spec(name);
    "host "@ + f + " {\n    hardware ethernet "@ + mac + ";\n    fixed-address "@ + ip
        + ";\n    option host-name \""@ + f
        + "\";\n    if substring (option vendor-class-identifier, 15, 5) = \"00000\" {\n        filename \"ipxe.kpxe\";\n    }\n    elsif substring (option vendor-class-identifier, 15, 5) = \"00006\" {\n        filename \"ipxe32.efi\";\n    }\n    else {\n        filename \"ipxe.efi\";\n    }\n    option root-path \"iscsi:"@
        + server_ip + "::::"@ + target_iqn + "\";\n}"@
}

/// Renders the reservation stanza for one client.
pub fn create_dhcp_entry(name: &str, mac: &str, ip: &str, target_iqn: &str, server_ip: &str) -> (r:
    String)
    ensures
        r@ == dhcp_entry_spec(name@, mac@, ip@, target_iqn@, server_ip@),
{
    let f = format_client_name(name);
    let r = String::from_str("host ").concat(f.as_str()).concat(
        " {\n    hardware ethernet ",
    ).concat(mac).concat(";\n    fixed-address ").concat(ip).concat(
        ";\n    option host-name \"",
    ).concat(f.as_str()).concat(
        "\";\n    if substring (option vendor-class-identifier, 15, 5) = \"00000\" {\n        filename \"ipxe.kpxe\";\n    }\n    elsif substring (option vendor-class-identifier, 15, 5) = \"00006\" {\n        filename \"ipxe32.efi\";\n    }\n    else {\n        filename \"ipxe.efi\";\n    }\n    option root-path \"iscsi:",
    ).concat(server_ip).concat("::::").concat(target_iqn).concat("\";\n}");
    proof {
        assert(r@ =~= dhcp_entry_spec(name@, mac@, ip@, target_iqn@, server_ip@));
    }
    r
}

/// Position of the opening brace of a host stanza for `name` whose `host`
/// keyword starts at `i`, if the text at `i` is such a stanza head.
pub open spec fn open_brace_at(s: Seq<char>, name: Seq<char>, i: int) -> Option<int> {
    if match_at(s, "host"@, i) {
        let w = i + 4 + first_non_ws(s.skip(i + 4));
        if w > i + 4 && match_at(s, name, w) {
            let b = w + name.len() + first_non_ws(s.skip(w + name.len()));
            if b < s.len() && s[b] == '{' {
                Some(b)
            } else {
                None
            }
        } else {
            None
        }
    } else {
        None
    }
}

/// Position of the close brace matching an open brace, scanning from `i` at
/// the given nesting depth; `None` if the text ends first.
pub open spec fn block_close_from(s: Seq<char>, i: int, depth: int) -> Option<int>
    decreases s.len() - i,
    when i >= 0
{
    if i >= s.len() {
        None
    } else if s[i] == '}' && depth == 0 {
        Some(i)
    } else if s[i] == '}' {
        block_close_from(s, i + 1, depth - 1)
    } else if s[i] == '{' {
        block_close_from(s, i + 1, depth + 1)
    } else {
        block_close_from(s, i + 1, depth)
    }
}

/// The text with the first host stanza for `name` at or after `i` removed,
/// together with the whitespace that follows it.
pub open spec fn remove_block_from(s: Seq<char>, name: Seq<char>, i: int) -> Seq<char>
    decreases s.len() - i,
    when i >= 0
{
    if i >= s.len() {
        s
    } else {
        match open_brace_at(s, name, i) {
            Some(b) => match block_close_from(s, b + 1, 0) {
                Some(j) => {
                    let e = j + 1 + first_non_ws(s.skip(j + 1));
                    s.take(i) + s.skip(e)
                },
                None => remove_block_from(s, name, i + 1),
            },
            None => remove_block_from(s, name, i + 1),
        }
    }
}

/// The text with the first host stanza for `name` removed.
pub open spec fn remove_host_block_spec(s: Seq<char>, name: Seq<char>) -> Seq<char> {
    remove_block_from(s, name, 0)
}

fn scan_close(cs: &Vec<char>, start: usize) -> (r: Option<usize>)
    requires
        start <= cs@.len(),
    ensures
        match r {
            Some(j) => block_close_from(cs@, start as int, 0) == Some(j as int) && j < cs@.len(),
            None => block_close_from(cs@, start as int, 0) is None,
        },
{
    let n = cs.len();
    let mut pos: usize = start;
    let mut depth: usize = 0;
    while pos < n
        invariant
            n == cs@.len(),
            start <= pos <= n,
            depth <= pos,
            block_close_from(cs@, start as int, 0) == block_close_from(
                cs@,
                pos as int,
                depth as int,
            ),
        decreases n - pos,
    {
        let c = cs[pos];
        if c == '}' {
            if depth == 0 {
                return Some(pos);
            }
            depth = depth - 1;
        } else if c == '{' {
            depth = depth + 1;
        }
        pos = pos + 1;
    }
    None
}

fn try_block_at(cs: &Vec<char>, nv: &Vec<char>, i: usize) -> (r: Option<usize>)
    requires
        i < cs@.len(),
    ensures
        match r {
            Some(b) => open_brace_at(cs@, nv@, i as int) == Some(b as int) && (i as int) < b
                < cs@.len(),
            None => open_brace_at(cs@, nv@, i as int) is None,
        },
{
    let n = cs.len();
    let hv = crate::text::str_chars("host");
    proof {
        reveal_strlit("host");
    }
    if n - i < 4 {
        proof {
            assert(!match_at(cs@, "host"@, i as int));
        }
        return None;
    }
    if !crate::text::match_at_exec(cs, &hv, i) {
        return None;
    }
    // whitespace run after the keyword
    let mut w: usize = i + 4;
    while w < n && crate::text::is_ws_exec(cs[w])
        invariant
            n == cs@.len(),
            i + 4 <= w <= n,
            forall|k: int| i + 4 <= k < w ==> is_ws(cs@[k]),
        decreases n - w,
    {
        w = w + 1;
    }
    proof {
        let tail = cs@.skip(i + 4);
        assert forall|k: int| 0 <= k < w - (i + 4) implies is_ws(tail[k]) by {
            assert(tail[k] == cs@[i + 4 + k]);
        }
        if w < n {
            assert(tail[w - (i + 4)] == cs@[w as int]);
        }
        crate::text::lemma_first_non_ws_is(tail, w - (i + 4));
    }
    if w == i + 4 {
        return None;
    }
    if nv.len() > n - w {
        proof {
            assert(!match_at(cs@, nv@, w as int));
        }
        return None;
    }
    if !crate::text::match_at_exec(cs, nv, w) {
        return None;
    }
    // whitespace run after the name
    let m = w + nv.len();
    let mut b: usize = m;
    while b < n && crate::text::is_ws_exec(cs[b])
        invariant
            n == cs@.len(),
            m <= b <= n,
            forall|k: int| m <= k < b ==> is_ws(cs@[k]),
        decreases n - b,
    {
        b = b + 1;
    }
    proof {
        let tail = cs@.skip(m as int);
        assert forall|k: int| 0 <= k < b - m implies is_ws(tail[k]) by {
            assert(tail[k] == cs@[m + k]);
        }
        if b < n {
            assert(tail[b - m] == cs@[b as int]);
        }
        crate::text::lemma_first_non_ws_is(tail, b - m);
    }
    if b < n && cs[b] == '{' {
        Some(b)
    } else {
        None
    }
}

/// Removes the first host stanza for `name` from the text, together with the
/// whitespace that follows it; without a complete stanza the text is kept.
pub fn remove_host_block(content: &str, name: &str) -> (r: String)
    ensures
        r@ == remove_host_block_spec(content@, name@),
{
    let cs = crate::text::str_chars(content);
    let nv = crate::text::str_chars(name);
    let n = cs.len();
    let mut i: usize = 0;
    while i < n
        invariant
            cs@ == content@,
            nv@ == name@,
            n == cs@.len(),
            0 <= i <= n,
            remove_block_from(content@, name@, 0) == remove_block_from(
                content@,
                name@,
                i as int,
            ),
        decreases n - i,
    {
        match try_block_at(&cs, &nv, i) {
            Some(b) => {
                match scan_close(&cs, b + 1) {
                    Some(j) => {
                        // whitespace run after the close brace
                        let mut e: usize = j + 1;
                        while e < n && crate::text::is_ws_exec(cs[e])
                            invariant
                                n == cs@.len(),
                                j + 1 <= e <= n,
                                forall|k: int| j + 1 <= k < e ==> is_ws(cs@[k]),
                            decreases n - e,
                        {
                            e = e + 1;
                        }
                        proof {
                            let tail = cs@.skip(j + 1);
                            assert forall|k: int| 0 <= k < e - (j + 1) implies is_ws(tail[k]) by {
                                assert(tail[k] == cs@[j + 1 + k]);
                            }
                            if e < n {
                                assert(tail[e - (j + 1)] == cs@[e as int]);
                            }
                            crate::text::lemma_first_non_ws_is(tail, e - (j + 1));
                        }
                        let pre = crate::text::subrange_vec(&cs, 0, i);
                        let post = crate::text::subrange_vec(&cs, e, n);
                        let out = crate::text::string_from_chars(&pre).concat(
                            crate::text::string_from_chars(&post).as_str(),
                        );
                        proof {
                            assert(content@.take(i as int) =~= content@.subrange(0, i as int));
                            assert(content@.skip(e as int) =~= content@.subrange(
                                e as int,
                                n as int,
                            ));
                            assert(out@ == content@.take(i as int) + content@.skip(e as int));
                        }
                        return out;
                    },
                    None => {},
                }
            },
            None => {},
        }
        i = i + 1;
    }
    let r = String::from_str(content);
    r
}

/// A line consisting of whitespace only.
pub open spec fn is_blank(l: Seq<char>) -> bool {
    forall|k: int| 0 <= k < l.len() ==> is_ws(l[k])
}

/// The lines with every run of consecutive blank lines reduced to one.
pub open spec fn collapse_blanks(ls: Seq<Seq<char>>) -> Seq<Seq<char>>
    decreases ls.len(),
{
    if ls.len() <= 1 {
        ls
    } else if is_blank(ls[0]) && is_blank(ls[1]) {
        collapse_blanks(ls.drop_first())
    } else {
        seq![ls[0]] + collapse_blanks(ls.drop_first())
    }
}

/// The lines joined with newlines.
pub open spec fn join_lines(ls: Seq<Seq<char>>) -> Seq<char>
    decreases ls.len(),
{
    if ls.len() == 0 {
        Seq::empty()
    } else if ls.len() == 1 {
        ls[0]
    } else {
        ls[0] + seq!['\n'] + join_lines(ls.drop_first())
    }
}

fn is_blank_exec(l: &str) -> (r: bool)
    ensures
        r == is_blank(l@),
{
    let cs = crate::text::str_chars(l);
    let n = cs.len();
    let mut i: usize = 0;
    while i < n
        invariant
            cs@ == l@,
            n == cs@.len(),
            0 <= i <= n,
            forall|k: int| 0 <= k < i ==> is_ws(l@[k]),
        decreases n - i,
    {
        if !crate::text::is_ws_exec(cs[i]) {
            return false;
        }
        i = i + 1;
    }
    true
}

/// The text with every run of consecutive blank lines reduced to one line.
pub open spec fn collapse_blank_lines_spec(s: Seq<char>) -> Seq<char> {
    join_lines(collapse_blanks(crate::text::split_on(s, '\n')))
}

/// Collapses runs of blank lines in the text down to single blank lines.
pub fn collapse_blank_lines(content: &str) -> (r: String)
    ensures
        r@ == collapse_blank_lines_spec(content@),
{
    let lines = crate::text::split_str(content, '\n');
    let ghost lsv = crate::text::split_on(content@, '\n');
    let nl = lines.len();
    // keep the last blank line of each run
    let mut kept: Vec<String> = Vec::new();
    let mut i: usize = 0;
    proof {
        assert(lines.deep_view().skip(0) =~= lines.deep_view());
        assert(kept.deep_view() =~= Seq::<Seq<char>>::empty());
        assert(Seq::<Seq<char>>::empty() + collapse_blanks(lsv) =~= collapse_blanks(lsv));
    }
    while i < nl
        invariant
            nl == lines@.len(),
            lines.deep_view() == lsv,
            collapse_blanks(lsv) == kept.deep_view() + collapse_blanks(lsv.skip(i as int)),
            0 <= i <= nl,
        decreases nl - i,
    {
        let ghost tail = lsv.skip(i as int);
        proof {
            assert(tail[0] == lsv[i as int]);
            assert(lsv[i as int] == lines@[i as int]@);
            assert(tail.drop_first() =~= lsv.skip(i + 1));
        }
        let drop_this = if i + 1 < nl {
            proof {
                assert(tail[1] == lsv[i + 1]);
                assert(lsv[i + 1] == lines@[i + 1]@);
            }
            is_blank_exec(lines[i].as_str()) && is_blank_exec(lines[i + 1].as_str())
        } else {
            false
        };
        if !drop_this {
            let ghost before = kept.deep_view();
            kept.push(lines[i].clone());
            proof {
                assert(kept.deep_view() =~= before + seq![tail[0]]);
                if tail.len() > 1 {
                    assert(before + (seq![tail[0]] + collapse_blanks(tail.drop_first())) =~= (
                    before + seq![tail[0]]) + collapse_blanks(tail.drop_first()));
                } else {
                    assert(tail =~= seq![tail[0]]);
                    assert(collapse_blanks(tail) == tail);
                    assert(tail.drop_first() =~= lsv.skip(i + 1));
                    assert(collapse_blanks(lsv.skip(i + 1)) =~= Seq::<Seq<char>>::empty());
                    assert(before + (seq![tail[0]] + Seq::<Seq<char>>::empty()) =~= (before + seq![
                        tail[0],
                    ]) + Seq::<Seq<char>>::empty());
                    assert(seq![tail[0]] + Seq::<Seq<char>>::empty() =~= tail);
                }
            }
        }
        i = i + 1;
    }
    proof {
        assert(lsv.skip(nl as int) =~= Seq::<Seq<char>>::empty());
        assert(kept.deep_view() + collapse_blanks(Seq::<Seq<char>>::empty()) =~= kept.deep_view());
    }
    // join the kept lines with newlines
    let kn = kept.len();
    let mut out = String::new();
    let mut j: usize = 0;
    proof {
        assert(kept.deep_view().skip(0) =~= kept.deep_view());
    }
    while j < kn
        invariant
            kn == kept@.len(),
            0 <= j <= kn,
            join_lines(kept.deep_view()) == out@ + join_lines(kept.deep_view().skip(j as int)),
        decreases kn - j,
    {
        let ghost tail = kept.deep_view().skip(j as int);
        proof {
            assert(tail[0] == kept.deep_view()[j as int]);
            assert(kept.deep_view()[j as int] == kept@[j as int]@);
            assert(tail.drop_first() =~= kept.deep_view().skip(j + 1));
        }
        out.append(kept[j].as_str());
        if j + 1 < kn {
            out.append("\n");
            proof {
                reveal_strlit("\n");
                assert(("\n")@ =~= seq!['\n']);
                assert(join_lines(tail) == tail[0] + seq!['\n'] + join_lines(tail.drop_first()));
            }
        } else {
            proof {
                assert(tail.len() == 1);
                assert(join_lines(tail) == tail[0]);
                assert(kept.deep_view().skip(j + 1) =~= Seq::<Seq<char>>::empty());
            }
        }
        j = j + 1;
    }
    proof {
        if kn == 0 {
            assert(join_lines(kept.deep_view()) =~= Seq::<char>::empty());
        } else {
            assert(kept.deep_view().skip(kn as int) =~= Seq::<Seq<char>>::empty());
            assert(join_lines(Seq::<Seq<char>>::empty()) =~= Seq::<char>::empty());
        }
    }
    out
}

/// The string with its trailing ASCII whitespace removed.
pub fn trim_end_str(s: &str) -> (r: String)
    ensures
        r@ == crate::text::trim_end_rec(s@),
{
    let cs = crate::text::str_chars(s);
    let n = cs.len();
    let mut j: usize = n;
    while j > 0 && crate::text::is_ws_exec(cs[j - 1])
        invariant
            cs@ == s@,
            n == cs@.len(),
            0 <= j <= n,
            forall|k: int| j <= k < n ==> is_ws(s@[k]),
        decreases j,
    {
        j = j - 1;
    }
    proof {
        crate::text::lemma_trim_end_at(s@, j as int);
    }
    let kept = crate::text::subrange_vec(&cs, 0, j);
    proof {
        assert(s@.subrange(0, j as int) =~= s@.take(j as int));
    }
    crate::text::string_from_chars(&kept)
}

/// The new contents of the boot-configuration file: for an existing client
/// the old stanza is removed and blank runs collapsed; the new stanza is
/// appended after the trimmed text and one blank line.
pub open spec fn upsert_entry_spec(
    content: Seq<char>,
    client_id: Seq<char>,
    entry: Seq<char>,
    is_new: bool,
) -> Seq<char> {
    let base = if is_new {
        content
    } else {
        collapse_blank_lines_spec(
            remove_host_block_spec(content, format_client_name_spec(client_id)),
        )
    };
    crate::text::trim_end_rec(base) + "\n\n"@ + entry
}

/// Computes the new contents of the boot-configuration file when a client's
/// stanza is added, replaced or removed (an empty `entry` removes it).
pub fn update_dhcp_config(content: &str, client_id: &str, entry: &str, is_new: bool) -> (r: String)
    ensures
        r@ == upsert_entry_spec(content@, client_id@, entry@, is_new),
{
    let base = if is_new {
        String::from_str(content)
    } else {
        let formatted = format_client_name(client_id);
        let removed = remove_host_block(content, formatted.as_str());
        collapse_blank_lines(removed.as_str())
    };
    let trimmed = trim_end_str(base.as_str());
    let r = trimmed.concat("\n\n").concat(entry);
    proof {
        assert(r@ =~= upsert_entry_spec(content@, client_id@, entry@, is_new));
    }
    r
}

} // verus!
