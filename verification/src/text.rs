//! ASCII text helpers shared by the whole library.
//!
//! Identifiers, addresses and dataset names in this system are ASCII; case
//! folding and the small validators below therefore treat only the ASCII
//! letters and leave every other character unchanged.
use vstd::prelude::*;

verus! {

/// ASCII lower-casing of one character; characters outside `A`..`Z` are kept.
pub open spec fn lower_char(c: char) -> char {
    if 'A' <= c && c <= 'Z' {
        ((c as u8) + 32) as char
    } else {
        c
    }
}

/// ASCII upper-casing of one character; characters outside `a`..`z` are kept.
pub open spec fn upper_char(c: char) -> char {
    if 'a' <= c && c <= 'z' {
        ((c as u8) - 32) as char
    } else {
        c
    }
}

/// ASCII lower-casing of a character sequence.
pub open spec fn lower(s: Seq<char>) -> Seq<char> {
    s.map_values(|c: char| lower_char(c))
}

/// ASCII upper-casing of a character sequence.
pub open spec fn upper(s: Seq<char>) -> Seq<char> {
    s.map_values(|c: char| upper_char(c))
}

/// Case-insensitive equality, folding only ASCII letters.
pub open spec fn eq_ignore_case(a: Seq<char>, b: Seq<char>) -> bool {
    lower(a) == lower(b)
}

fn lower_char_exec(c: char) -> (r: char)
    ensures
        r == lower_char(c),
{
    if 'A' <= c && c <= 'z' && c <= 'Z' {
        ((c as u8) + 32) as char
    } else {
        c
    }
}

fn upper_char_exec(c: char) -> (r: char)
    ensures
        r == upper_char(c),
{
    if 'a' <= c && c <= 'z' {
        ((c as u8) - 32) as char
    } else {
        c
    }
}

/// Relies on `str::chars`: yields exactly the string's characters in order.
#[verifier::external_body]
pub fn str_chars(s: &str) -> (v: Vec<char>)
    ensures
        v@ == s@,
{
    s.chars().collect()
}

/// Relies on `String`'s `FromIterator<char>`: collecting characters yields
/// the string of exactly those characters in order.
#[verifier::external_body]
pub fn string_from_chars(v: &Vec<char>) -> (s: String)
    ensures
        s@ == v@,
{
    v.iter().collect()
}

/// Exact string equality.
pub fn str_eq(a: &str, b: &str) -> (r: bool)
    ensures
        r == (a@ == b@),
{
    let sa = String::from_str(a);
    let sb = String::from_str(b);
    sa == sb
}

/// Case-insensitive string equality, folding only ASCII letters.
pub fn str_eq_ignore_case(a: &str, b: &str) -> (r: bool)
    ensures
        r == eq_ignore_case(a@, b@),
{
    let la = to_lower(a);
    let lb = to_lower(b);
    la == lb
}

/// ASCII whitespace.
pub open spec fn is_ws(c: char) -> bool {
    c == ' ' || c == '\t' || c == '\n' || c == '\r'
}

/// The sequence with its leading whitespace removed.
pub open spec fn trim_start_rec(s: Seq<char>) -> Seq<char>
    decreases s.len(),
{
    if s.len() > 0 && is_ws(s[0]) {
        trim_start_rec(s.drop_first())
    } else {
        s
    }
}

/// The sequence with its trailing whitespace removed.
pub open spec fn trim_end_rec(s: Seq<char>) -> Seq<char>
    decreases s.len(),
{
    if s.len() > 0 && is_ws(s[s.len() - 1]) {
        trim_end_rec(s.drop_last())
    } else {
        s
    }
}

/// The sequence with leading and trailing whitespace removed.
pub open spec fn trim_spec(s: Seq<char>) -> Seq<char> {
    trim_end_rec(trim_start_rec(s))
}

pub proof fn lemma_trim_start_at(s: Seq<char>, i: int)
    requires
        0 <= i <= s.len(),
        forall|k: int| 0 <= k < i ==> is_ws(s[k]),
        i < s.len() ==> !is_ws(s[i]),
    ensures
        trim_start_rec(s) == s.skip(i),
    decreases i,
{
    if i == 0 {
        assert(s.skip(0) =~= s);
    } else {
        lemma_trim_start_at(s.drop_first(), i - 1);
        assert(s.drop_first().skip(i - 1) =~= s.skip(i));
    }
}

pub proof fn lemma_trim_end_at(s: Seq<char>, j: int)
    requires
        0 <= j <= s.len(),
        forall|k: int| j <= k < s.len() ==> is_ws(s[k]),
        j > 0 ==> !is_ws(s[j - 1]),
    ensures
        trim_end_rec(s) == s.take(j),
    decreases s.len() - j,
{
    if j == s.len() {
        if s.len() > 0 && is_ws(s[s.len() - 1]) {
            lemma_trim_end_at(s.drop_last(), j - 1);
            assert(s.drop_last() =~= s.take(s.len() - 1));
        } else {
            assert(s.take(j) =~= s);
        }
    } else {
        lemma_trim_end_at(s.drop_last(), j);
        assert(s.drop_last().take(j) =~= s.take(j));
    }
}

pub fn is_ws_exec(c: char) -> (r: bool)
    ensures
        r == is_ws(c),
{
    c == ' ' || c == '\t' || c == '\n' || c == '\r'
}

/// The string with leading and trailing ASCII whitespace removed.
pub fn trim(s: &str) -> (r: String)
    ensures
        r@ == trim_spec(s@),
{
    let cs = str_chars(s);
    let n = cs.len();
    let mut i: usize = 0;
    while i < n && is_ws_exec(cs[i])
        invariant
            cs@ == s@,
            n == cs.len(),
            0 <= i <= n,
            forall|k: int| 0 <= k < i ==> is_ws(s@[k]),
        decreases n - i,
    {
        i = i + 1;
    }
    proof {
        lemma_trim_start_at(s@, i as int);
    }
    let mut j: usize = n;
    while j > i && is_ws_exec(cs[j - 1])
        invariant
            cs@ == s@,
            n == cs.len(),
            i <= j <= n,
            forall|k: int| j <= k < n ==> is_ws(s@[k]),
        decreases j,
    {
        j = j - 1;
    }
    let mut out: Vec<char> = Vec::new();
    let mut k: usize = i;
    while k < j
        invariant
            cs@ == s@,
            n == cs.len(),
            i <= j <= n,
            i <= k <= j,
            out@ == s@.subrange(i as int, k as int),
        decreases j - k,
    {
        out.push(cs[k]);
        proof {
            assert(s@.subrange(i as int, k + 1) =~= s@.subrange(i as int, k as int).push(
                s@[k as int],
            ));
        }
        k = k + 1;
    }
    proof {
        let tail = s@.skip(i as int);
        lemma_trim_end_at(tail, j - i);
        assert(tail.take(j - i) =~= s@.subrange(i as int, j as int));
        if j == i && i < n {
            assert(is_ws(s@[i as int]) || !is_ws(s@[i as int]));
        }
    }
    string_from_chars(&out)
}

/// `n` occurs in `h` starting at position `i`.
pub open spec fn match_at(h: Seq<char>, n: Seq<char>, i: int) -> bool {
    0 <= i && i + n.len() <= h.len() && h.subrange(i, i + n.len()) == n
}

/// `n` occurs somewhere in `h`.
pub open spec fn contains_seq(h: Seq<char>, n: Seq<char>) -> bool {
    exists|i: int| match_at(h, n, i)
}

pub fn match_at_exec(h: &Vec<char>, n: &Vec<char>, i: usize) -> (r: bool)
    requires
        i + n@.len() <= h@.len(),
    ensures
        r == match_at(h@, n@, i as int),
{
    let hlen = h.len();
    let mut j: usize = 0;
    while j < n.len()
        invariant
            hlen == h@.len(),
            i + n@.len() <= h@.len(),
            0 <= j <= n@.len(),
            forall|k: int| 0 <= k < j ==> h@[i + k] == n@[k],
        decreases n@.len() - j,
    {
        proof {
            assert(i + j < hlen);
        }
        if h[i + j] != n[j] {
            proof {
                assert(h@.subrange(i as int, i + n@.len())[j as int] == h@[i + j]);
            }
            return false;
        }
        j = j + 1;
    }
    proof {
        assert(h@.subrange(i as int, i + n@.len()) =~= n@);
    }
    true
}

/// Whether `n` occurs as a substring of `h`.
pub fn str_contains(h: &str, n: &str) -> (r: bool)
    ensures
        r == contains_seq(h@, n@),
{
    let hv = str_chars(h);
    let nv = str_chars(n);
    if nv.len() == 0 {
        proof {
            assert(h@.subrange(0, 0) =~= n@);
            assert(match_at(h@, n@, 0));
        }
        return true;
    }
    if nv.len() > hv.len() {
        proof {
            assert(forall|i: int| !match_at(h@, n@, i));
        }
        return false;
    }
    let hlen = hv.len();
    let last = hlen - nv.len();
    let mut i: usize = 0;
    while i <= last
        invariant
            hv@ == h@,
            nv@ == n@,
            1 <= nv@.len() <= hv@.len(),
            hlen == hv@.len(),
            last == hv@.len() - nv@.len(),
            0 <= i <= last + 1,
            forall|k: int| 0 <= k < i ==> !match_at(h@, n@, k),
        decreases last + 1 - i,
    {
        if match_at_exec(&hv, &nv, i) {
            return true;
        }
        i = i + 1;
    }
    proof {
        assert(forall|k: int| match_at(h@, n@, k) ==> 0 <= k <= last);
    }
    false
}

/// `p` is a prefix of `s`.
pub open spec fn starts_with(s: Seq<char>, p: Seq<char>) -> bool {
    p.len() <= s.len() && s.subrange(0, p.len() as int) == p
}

/// Whether `p` is a prefix of `s`.
pub fn str_starts_with(s: &str, p: &str) -> (r: bool)
    ensures
        r == starts_with(s@, p@),
{
    let sv = str_chars(s);
    let pv = str_chars(p);
    if pv.len() > sv.len() {
        return false;
    }
    match_at_exec(&sv, &pv, 0)
}

/// `p` is a suffix of `s`.
pub open spec fn ends_with(s: Seq<char>, p: Seq<char>) -> bool {
    p.len() <= s.len() && s.subrange(s.len() - p.len(), s.len() as int) == p
}

/// Whether `p` is a suffix of `s`.
pub fn str_ends_with(s: &str, p: &str) -> (r: bool)
    ensures
        r == ends_with(s@, p@),
{
    let sv = str_chars(s);
    let pv = str_chars(p);
    if pv.len() > sv.len() {
        return false;
    }
    let r = match_at_exec(&sv, &pv, sv.len() - pv.len());
    proof {
        assert(s@.subrange(s@.len() - p@.len(), s@.len() as int) =~= s@.subrange(
            s@.len() - p@.len(),
            s@.len() - p@.len() + p@.len(),
        ));
    }
    r
}

/// Index of the first occurrence of `c`, or the length if `c` is absent.
pub open spec fn index_of_char(s: Seq<char>, c: char) -> int
    decreases s.len(),
{
    if s.len() == 0 {
        0
    } else if s[0] == c {
        0
    } else {
        1 + index_of_char(s.drop_first(), c)
    }
}

pub proof fn lemma_index_of_char(s: Seq<char>, c: char)
    ensures
        0 <= index_of_char(s, c) <= s.len(),
        index_of_char(s, c) < s.len() ==> s[index_of_char(s, c)] == c,
        forall|k: int| 0 <= k < index_of_char(s, c) ==> s[k] != c,
    decreases s.len(),
{
    if s.len() == 0 || s[0] == c {
    } else {
        lemma_index_of_char(s.drop_first(), c);
        assert forall|k: int| 0 <= k < index_of_char(s, c) implies s[k] != c by {
            if k > 0 {
                assert(s.drop_first()[k - 1] == s[k]);
            }
        }
    }
}

pub proof fn lemma_index_of_char_is(s: Seq<char>, c: char, j: int)
    requires
        0 <= j <= s.len(),
        forall|k: int| 0 <= k < j ==> s[k] != c,
        j < s.len() ==> s[j] == c,
    ensures
        index_of_char(s, c) == j,
    decreases j,
{
    if j == 0 {
    } else {
        lemma_index_of_char_is(s.drop_first(), c, j - 1);
    }
}

/// Index of the first non-whitespace character, or the length if all are.
pub open spec fn first_non_ws(s: Seq<char>) -> int
    decreases s.len(),
{
    if s.len() == 0 {
        0
    } else if !is_ws(s[0]) {
        0
    } else {
        1 + first_non_ws(s.drop_first())
    }
}

pub proof fn lemma_first_non_ws_is(s: Seq<char>, j: int)
    requires
        0 <= j <= s.len(),
        forall|k: int| 0 <= k < j ==> is_ws(s[k]),
        j < s.len() ==> !is_ws(s[j]),
    ensures
        first_non_ws(s) == j,
    decreases j,
{
    if j == 0 {
    } else {
        lemma_first_non_ws_is(s.drop_first(), j - 1);
    }
}

proof fn lemma_first_non_ws_bounds(s: Seq<char>)
    ensures
        0 <= first_non_ws(s) <= s.len(),
        first_non_ws(s) < s.len() ==> !is_ws(s[first_non_ws(s)]),
    decreases s.len(),
{
    if s.len() == 0 || !is_ws(s[0]) {
    } else {
        lemma_first_non_ws_bounds(s.drop_first());
    }
}

/// Index of the first whitespace character, or the length if none is.
pub open spec fn first_ws(s: Seq<char>) -> int
    decreases s.len(),
{
    if s.len() == 0 {
        0
    } else if is_ws(s[0]) {
        0
    } else {
        1 + first_ws(s.drop_first())
    }
}

pub proof fn lemma_first_ws_is(s: Seq<char>, j: int)
    requires
        0 <= j <= s.len(),
        forall|k: int| 0 <= k < j ==> !is_ws(s[k]),
        j < s.len() ==> is_ws(s[j]),
    ensures
        first_ws(s) == j,
    decreases j,
{
    if j == 0 {
    } else {
        lemma_first_ws_is(s.drop_first(), j - 1);
    }
}

proof fn lemma_first_ws_bounds(s: Seq<char>)
    ensures
        0 <= first_ws(s) <= s.len(),
    decreases s.len(),
{
    if s.len() == 0 || is_ws(s[0]) {
    } else {
        lemma_first_ws_bounds(s.drop_first());
    }
}

/// Position of the first occurrence of `c` in `s`, if any.
pub fn find_char(s: &str, c: char) -> (r: Option<usize>)
    ensures
        match r {
            Some(i) => i == index_of_char(s@, c) && i < s@.len(),
            None => index_of_char(s@, c) == s@.len(),
        },
{
    let cs = str_chars(s);
    let n = cs.len();
    let mut i: usize = 0;
    while i < n
        invariant
            cs@ == s@,
            n == cs@.len(),
            0 <= i <= n,
            forall|k: int| 0 <= k < i ==> s@[k] != c,
        decreases n - i,
    {
        if cs[i] == c {
            proof {
                lemma_index_of_char_is(s@, c, i as int);
            }
            return Some(i);
        }
        i = i + 1;
    }
    proof {
        lemma_index_of_char_is(s@, c, n as int);
    }
    None
}

/// The copy of `v` between positions `a` and `b`.
pub fn subrange_vec(v: &Vec<char>, a: usize, b: usize) -> (r: Vec<char>)
    requires
        a <= b <= v@.len(),
    ensures
        r@ == v@.subrange(a as int, b as int),
{
    let mut out: Vec<char> = Vec::new();
    let mut k: usize = a;
    while k < b
        invariant
            a <= k <= b <= v@.len(),
            out@ == v@.subrange(a as int, k as int),
        decreases b - k,
    {
        out.push(v[k]);
        proof {
            assert(v@.subrange(a as int, k + 1) =~= v@.subrange(a as int, k as int).push(
                v@[k as int],
            ));
        }
        k = k + 1;
    }
    out
}

/// The parts of `s` between occurrences of the separator `c`.
pub open spec fn split_on(s: Seq<char>, c: char) -> Seq<Seq<char>>
    decreases s.len(),
    via split_on_dec
{
    let i = index_of_char(s, c);
    if i == s.len() {
        seq![s]
    } else {
        seq![s.take(i)] + split_on(s.skip(i + 1), c)
    }
}

#[via_fn]
proof fn split_on_dec(s: Seq<char>, c: char) {
    lemma_index_of_char(s, c);
}

/// Splits a string on a separator character.
pub fn split_str(s: &str, c: char) -> (r: Vec<String>)
    ensures
        r.deep_view() == split_on(s@, c),
{
    let cs = str_chars(s);
    let n = cs.len();
    let mut parts: Vec<String> = Vec::new();
    let mut start: usize = 0;
    let mut i: usize = 0;
    proof {
        assert(s@.skip(0) =~= s@);
        assert(parts.deep_view() =~= Seq::<Seq<char>>::empty());
        assert(Seq::<Seq<char>>::empty() + split_on(s@, c) =~= split_on(s@, c));
    }
    while i < n
        invariant
            cs@ == s@,
            n == cs@.len(),
            0 <= start <= i <= n,
            forall|k: int| start <= k < i ==> s@[k] != c,
            split_on(s@, c) == parts.deep_view() + split_on(s@.skip(start as int), c),
        decreases n - i,
    {
        if cs[i] == c {
            let part = string_from_chars(&subrange_vec(&cs, start, i));
            proof {
                let tail = s@.skip(start as int);
                assert forall|k: int| 0 <= k < i - start implies tail[k] != c by {
                    assert(tail[k] == s@[start + k]);
                }
                assert(tail[i - start] == s@[i as int]);
                lemma_index_of_char_is(tail, c, i - start);
                assert(split_on(tail, c) == seq![tail.take(i - start)] + split_on(
                    tail.skip(i - start + 1),
                    c,
                ));
                assert(tail.take(i - start) =~= s@.subrange(start as int, i as int));
                assert(tail.skip(i - start + 1) =~= s@.skip(i + 1));
                assert(parts.deep_view().push(part@) =~= parts.deep_view() + seq![part@]);
                assert(parts.deep_view() + (seq![tail.take(i - start)] + split_on(
                    s@.skip(i + 1),
                    c,
                )) =~= (parts.deep_view() + seq![part@]) + split_on(s@.skip(i + 1), c));
            }
            let ghost before = parts.deep_view();
            parts.push(part);
            proof {
                assert(parts.deep_view() =~= before + seq![part@]);
            }
            start = i + 1;
        }
        i = i + 1;
    }
    let last_part = string_from_chars(&subrange_vec(&cs, start, n));
    proof {
        let tail = s@.skip(start as int);
        assert forall|k: int| 0 <= k < tail.len() implies tail[k] != c by {
            assert(tail[k] == s@[start + k]);
        }
        lemma_index_of_char_is(tail, c, tail.len() as int);
        assert(split_on(tail, c) == seq![tail]);
        assert(tail =~= s@.subrange(start as int, n as int));
    }
    let ghost before = parts.deep_view();
    parts.push(last_part);
    proof {
        assert(parts.deep_view() =~= before + seq![s@.skip(start as int)]);
    }
    parts
}

/// The maximal whitespace-free tokens of `s`, in order.
pub open spec fn split_ws_spec(s: Seq<char>) -> Seq<Seq<char>>
    decreases s.len(),
    via split_ws_dec
{
    let a = first_non_ws(s);
    if a == s.len() {
        Seq::empty()
    } else {
        let rest = s.skip(a);
        let b = first_ws(rest);
        seq![rest.take(b)] + split_ws_spec(rest.skip(b))
    }
}

#[via_fn]
proof fn split_ws_dec(s: Seq<char>) {
    let a = first_non_ws(s);
    lemma_first_non_ws_bounds(s);
    if a < s.len() {
        let rest = s.skip(a);
        lemma_first_ws_bounds(rest);
        assert(rest[0] == s[a]);
        lemma_first_ws_bounds(rest.drop_first());
        assert(first_ws(rest) == 1 + first_ws(rest.drop_first()));
    }
}

/// Splits a string into its whitespace-separated tokens.
pub fn split_whitespace(s: &str) -> (r: Vec<String>)
    ensures
        r.deep_view() == split_ws_spec(s@),
{
    let cs = str_chars(s);
    let n = cs.len();
    let mut parts: Vec<String> = Vec::new();
    let mut pos: usize = 0;
    proof {
        assert(s@.skip(0) =~= s@);
        assert(parts.deep_view() =~= Seq::<Seq<char>>::empty());
        assert(Seq::<Seq<char>>::empty() + split_ws_spec(s@) =~= split_ws_spec(s@));
    }
    while pos < n
        invariant
            cs@ == s@,
            n == cs@.len(),
            0 <= pos <= n,
            split_ws_spec(s@) == parts.deep_view() + split_ws_spec(s@.skip(pos as int)),
        decreases n - pos,
    {
        let ghost tail0 = s@.skip(pos as int);
        // scan past whitespace
        let mut a: usize = pos;
        while a < n && is_ws_exec(cs[a])
            invariant
                cs@ == s@,
                n == cs@.len(),
                pos <= a <= n,
                forall|k: int| pos <= k < a ==> is_ws(s@[k]),
            decreases n - a,
        {
            a = a + 1;
        }
        proof {
            assert forall|k: int| 0 <= k < a - pos implies is_ws(tail0[k]) by {
                assert(tail0[k] == s@[pos + k]);
            }
            if a < n {
                assert(tail0[a - pos] == s@[a as int]);
            }
            lemma_first_non_ws_is(tail0, a - pos);
        }
        if a == n {
            proof {
                assert(split_ws_spec(tail0) =~= Seq::<Seq<char>>::empty());
                assert(s@.skip(n as int) =~= Seq::<char>::empty());
                lemma_first_non_ws_is(s@.skip(n as int), 0);
                assert(split_ws_spec(s@.skip(n as int)) =~= Seq::<Seq<char>>::empty());
            }
            pos = n;
        } else {
            // scan the token
            let mut b: usize = a;
            while b < n && !is_ws_exec(cs[b])
                invariant
                    cs@ == s@,
                    n == cs@.len(),
                    a <= b <= n,
                    forall|k: int| a <= k < b ==> !is_ws(s@[k]),
                decreases n - b,
            {
                b = b + 1;
            }
            let token = string_from_chars(&subrange_vec(&cs, a, b));
            proof {
                let rest = tail0.skip(a - pos);
                assert(rest =~= s@.skip(a as int));
                assert forall|k: int| 0 <= k < b - a implies !is_ws(rest[k]) by {
                    assert(rest[k] == s@[a + k]);
                }
                if b < n {
                    assert(rest[b - a] == s@[b as int]);
                }
                lemma_first_ws_is(rest, b - a);
                assert(split_ws_spec(tail0) == seq![rest.take(b - a)] + split_ws_spec(
                    rest.skip(b - a),
                ));
                assert(rest.take(b - a) =~= s@.subrange(a as int, b as int));
                assert(rest.skip(b - a) =~= s@.skip(b as int));
                assert(token@ == s@.subrange(a as int, b as int));
                assert(parts.deep_view() + (seq![rest.take(b - a)] + split_ws_spec(
                    s@.skip(b as int),
                )) =~= (parts.deep_view() + seq![token@]) + split_ws_spec(s@.skip(b as int)));
            }
            let ghost before = parts.deep_view();
            parts.push(token);
            proof {
                assert(parts.deep_view() =~= before + seq![token@]);
            }
            pos = b;
        }
    }
    proof {
        assert(s@.skip(n as int) =~= Seq::<char>::empty());
        lemma_first_non_ws_is(s@.skip(n as int), 0);
        assert(parts.deep_view() + split_ws_spec(s@.skip(n as int)) =~= parts.deep_view());
    }
    parts
}

/// The sequence with every underscore removed.
pub open spec fn strip_underscores(s: Seq<char>) -> Seq<char>
    decreases s.len(),
{
    if s.len() == 0 {
        Seq::empty()
    } else if s.last() == '_' {
        strip_underscores(s.drop_last())
    } else {
        strip_underscores(s.drop_last()).push(s.last())
    }
}

/// The string with every underscore removed.
pub fn remove_underscores(s: &str) -> (r: String)
    ensures
        r@ == strip_underscores(s@),
{
    let cs = str_chars(s);
    let n = cs.len();
    let mut out: Vec<char> = Vec::new();
    let mut i: usize = 0;
    while i < n
        invariant
            cs@ == s@,
            n == cs@.len(),
            0 <= i <= n,
            out@ == strip_underscores(s@.take(i as int)),
        decreases n - i,
    {
        let c = cs[i];
        proof {
            assert(s@.take(i + 1).drop_last() =~= s@.take(i as int));
            assert(s@.take(i + 1).last() == s@[i as int]);
        }
        if c != '_' {
            out.push(c);
        }
        i = i + 1;
    }
    proof {
        assert(s@.take(n as int) =~= s@);
    }
    string_from_chars(&out)
}

/// ASCII decimal digit.
pub open spec fn is_digit(c: char) -> bool {
    '0' <= c && c <= '9'
}

/// Numeric value of a decimal digit character.
pub open spec fn digit_val(c: char) -> int {
    (c as u8) as int - 48
}

/// Every character of `s` is a decimal digit.
pub open spec fn all_digits(s: Seq<char>) -> bool {
    forall|i: int| 0 <= i < s.len() ==> is_digit(s[i])
}

/// Value of a sequence of decimal digits, most significant first.
pub open spec fn digits_val(s: Seq<char>) -> int
    decreases s.len(),
{
    if s.len() == 0 {
        0
    } else {
        digits_val(s.drop_last()) * 10 + digit_val(s.last())
    }
}

proof fn lemma_digits_val_nonneg(s: Seq<char>)
    requires
        all_digits(s),
    ensures
        digits_val(s) >= 0,
    decreases s.len(),
{
    if s.len() > 0 {
        lemma_digits_val_nonneg(s.drop_last());
    }
}

proof fn lemma_digits_val_prefix_le(s: Seq<char>, k: int)
    requires
        all_digits(s),
        0 <= k <= s.len(),
    ensures
        digits_val(s.take(k)) <= digits_val(s),
    decreases s.len() - k,
{
    if k < s.len() {
        lemma_digits_val_prefix_le(s, k + 1);
        assert(s.take(k + 1).drop_last() =~= s.take(k));
        assert(forall|i: int| 0 <= i < k ==> s.take(k)[i] == s[i]);
        lemma_digits_val_nonneg(s.take(k));
        assert(digits_val(s.take(k + 1)) == digits_val(s.take(k)) * 10 + digit_val(
            s.take(k + 1).last(),
        ));
    } else {
        assert(s.take(k) =~= s);
    }
}

fn is_digit_exec(c: char) -> (r: bool)
    ensures
        r == is_digit(c),
{
    '0' <= c && c <= '9'
}

/// Parses an unsigned decimal number, rejecting empty input, non-digit
/// characters, and values that do not fit in `u32`.
pub fn parse_u32(s: &str) -> (r: Option<u32>)
    ensures
        r is Some <==> (s@.len() > 0 && all_digits(s@) && digits_val(s@) <= u32::MAX),
        r is Some ==> r->0 == digits_val(s@),
{
    match parse_u64(s) {
        Some(v) => {
            if v <= u32::MAX as u64 {
                Some(v as u32)
            } else {
                None
            }
        },
        None => None,
    }
}

/// Character of a decimal digit value.
pub open spec fn digit_char(d: int) -> char {
    ((d + 48) as u8) as char
}

/// Decimal rendering of a non-negative number, no leading zeros.
pub open spec fn dec_str(n: int) -> Seq<char>
    decreases n,
{
    if n < 10 {
        seq![digit_char(n)]
    } else {
        dec_str(n / 10).push(digit_char(n % 10))
    }
}

fn u32_dec_vec(n: u32) -> (r: Vec<char>)
    ensures
        r@ == dec_str(n as int),
    decreases n,
{
    if n < 10 {
        let mut v: Vec<char> = Vec::new();
        v.push(((n as u8) + 48) as char);
        proof {
            assert(v@ =~= seq![digit_char(n as int)]);
        }
        v
    } else {
        let mut v = u32_dec_vec(n / 10);
        v.push((((n % 10) as u8) + 48) as char);
        v
    }
}

/// Decimal rendering of a `u32`.
pub fn u32_to_dec(n: u32) -> (r: String)
    ensures
        r@ == dec_str(n as int),
{
    let v = u32_dec_vec(n);
    string_from_chars(&v)
}

/// Decimal rendering of a number, left-padded with zeros to three digits.
pub open spec fn pad3_spec(n: int) -> Seq<char> {
    if n < 10 {
        seq!['0', '0'] + dec_str(n)
    } else if n < 100 {
        seq!['0'] + dec_str(n)
    } else {
        dec_str(n)
    }
}

/// Renders `n` in decimal, left-padded with zeros to three digits.
pub fn pad3(n: u32) -> (r: String)
    ensures
        r@ == pad3_spec(n as int),
{
    let d = u32_to_dec(n);
    if n < 10 {
        let r = String::from_str("00").concat(d.as_str());
        proof {
            reveal_strlit("00");
            assert(("00")@ =~= seq!['0', '0']);
        }
        r
    } else if n < 100 {
        let r = String::from_str("0").concat(d.as_str());
        proof {
            reveal_strlit("0");
            assert(("0")@ =~= seq!['0']);
        }
        r
    } else {
        d
    }
}

/// ASCII lower-casing of a string.
pub fn to_lower(s: &str) -> (r: String)
    ensures
        r@ == lower(s@),
{
    let cs = str_chars(s);
    let mut out: Vec<char> = Vec::new();
    let mut i: usize = 0;
    while i < cs.len()
        invariant
            i <= cs.len(),
            cs@ == s@,
            out@ == lower(s@).take(i as int),
        decreases cs.len() - i,
    {
        out.push(lower_char_exec(cs[i]));
        proof {
            assert(lower(s@).take(i + 1) =~= lower(s@).take(i as int).push(lower_char(s@[i as int])));
        }
        i = i + 1;
    }
    proof {
        assert(lower(s@).take(cs@.len() as int) =~= lower(s@));
    }
    string_from_chars(&out)
}

/// ASCII upper-casing of a string.
pub fn to_upper(s: &str) -> (r: String)
    ensures
        r@ == upper(s@),
{
    let cs = str_chars(s);
    let mut out: Vec<char> = Vec::new();
    let mut i: usize = 0;
    while i < cs.len()
        invariant
            i <= cs.len(),
            cs@ == s@,
            out@ == upper(s@).take(i as int),
        decreases cs.len() - i,
    {
        out.push(upper_char_exec(cs[i]));
        proof {
            assert(upper(s@).take(i + 1) =~= upper(s@).take(i as int).push(upper_char(s@[i as int])));
        }
        i = i + 1;
    }
    proof {
        assert(upper(s@).take(cs@.len() as int) =~= upper(s@));
    }
    string_from_chars(&out)
}

pub proof fn lemma_contains_self(x: Seq<char>)
    ensures
        contains_seq(x, x),
{
    assert(x.subrange(0, x.len() as int) =~= x);
    assert(match_at(x, x, 0));
}

pub proof fn lemma_contains_empty(n: Seq<char>)
    requires
        n.len() > 0,
    ensures
        !contains_seq(Seq::<char>::empty(), n),
{
    assert(forall|i: int| !match_at(Seq::<char>::empty(), n, i));
}

/// The parts joined with the separator between them.
pub open spec fn join_with(parts: Seq<Seq<char>>, sep: Seq<char>) -> Seq<char>
    decreases parts.len(),
{
    if parts.len() == 0 {
        Seq::empty()
    } else if parts.len() == 1 {
        parts[0]
    } else {
        parts[0] + sep + join_with(parts.drop_first(), sep)
    }
}

/// Joins strings with a separator.
pub fn join_strings(v: &Vec<String>, sep: &str) -> (r: String)
    ensures
        r@ == join_with(v.deep_view(), sep@),
{
    let n = v.len();
    let mut out = String::new();
    let mut i: usize = 0;
    proof {
        assert(v.deep_view().skip(0) =~= v.deep_view());
    }
    while i < n
        invariant
            n == v@.len(),
            0 <= i <= n,
            join_with(v.deep_view(), sep@) == out@ + join_with(v.deep_view().skip(i as int), sep@),
        decreases n - i,
    {
        let ghost tail = v.deep_view().skip(i as int);
        proof {
            assert(tail[0] == v.deep_view()[i as int]);
            assert(v.deep_view()[i as int] == v@[i as int]@);
            assert(tail.drop_first() =~= v.deep_view().skip(i + 1));
        }
        out.append(v[i].as_str());
        if i + 1 < n {
            out.append(sep);
            proof {
                assert(join_with(tail, sep@) == tail[0] + sep@ + join_with(
                    tail.drop_first(),
                    sep@,
                ));
            }
        } else {
            proof {
                assert(tail.len() == 1);
                assert(join_with(tail, sep@) == tail[0]);
                assert(v.deep_view().skip(i + 1) =~= Seq::<Seq<char>>::empty());
            }
        }
        i = i + 1;
    }
    proof {
        if n == 0 {
            assert(join_with(v.deep_view(), sep@) =~= Seq::<char>::empty());
        } else {
            assert(v.deep_view().skip(n as int) =~= Seq::<Seq<char>>::empty());
            assert(join_with(Seq::<Seq<char>>::empty(), sep@) =~= Seq::<char>::empty());
        }
    }
    out
}

/// Parses an unsigned decimal number, rejecting empty input, non-digit
/// characters, and values that do not fit in `u64`.
pub fn parse_u64(s: &str) -> (r: Option<u64>)
    ensures
        r is Some <==> (s@.len() > 0 && all_digits(s@) && digits_val(s@) <= u64::MAX),
        r is Some ==> r->0 == digits_val(s@),
{
    let cs = str_chars(s);
    let n = cs.len();
    if n == 0 {
        return None;
    }
    let mut acc: u64 = 0;
    let mut i: usize = 0;
    while i < n
        invariant
            cs@ == s@,
            n == cs@.len(),
            n > 0,
            0 <= i <= n,
            forall|k: int| 0 <= k < i ==> is_digit(s@[k]),
            acc == digits_val(s@.take(i as int)),
        decreases n - i,
    {
        let c = cs[i];
        if !is_digit_exec(c) {
            return None;
        }
        let d = (c as u8) - 48;
        if acc > (u64::MAX - (d as u64)) / 10 {
            proof {
                assert(s@.take(i + 1).drop_last() =~= s@.take(i as int));
                assert(s@.take(i + 1).last() == s@[i as int]);
                if all_digits(s@) {
                    lemma_digits_val_prefix_le(s@, i + 1);
                }
            }
            return None;
        }
        acc = acc * 10 + (d as u64);
        proof {
            assert(s@.take(i + 1).drop_last() =~= s@.take(i as int));
            assert(s@.take(i + 1).last() == s@[i as int]);
        }
        i = i + 1;
    }
    proof {
        assert(s@.take(n as int) =~= s@);
    }
    Some(acc)
}

/// Index of the first position where `n` occurs in `h`; at or past the end
/// when it does not occur.
pub open spec fn sub_index(h: Seq<char>, n: Seq<char>) -> int
    decreases h.len(),
{
    if match_at(h, n, 0) {
        0
    } else if h.len() == 0 {
        0
    } else {
        1 + sub_index(h.drop_first(), n)
    }
}

pub proof fn lemma_sub_index(h: Seq<char>, n: Seq<char>)
    ensures
        contains_seq(h, n) ==> match_at(h, n, sub_index(h, n)),
        forall|k: int| 0 <= k < sub_index(h, n) ==> !match_at(h, n, k),
        !contains_seq(h, n) ==> sub_index(h, n) >= h.len(),
    decreases h.len(),
{
    if match_at(h, n, 0) {
    } else if h.len() == 0 {
        assert(forall|k: int| !match_at(h, n, k));
    } else {
        lemma_sub_index(h.drop_first(), n);
        assert forall|k: int| 1 <= k < 1 + sub_index(h.drop_first(), n) implies !match_at(
            h,
            n,
            k,
        ) by {
            if match_at(h, n, k) {
                assert(h.drop_first().subrange(k - 1, k - 1 + n.len() as int) =~= h.subrange(
                    k,
                    k + n.len() as int,
                ));
                assert(match_at(h.drop_first(), n, k - 1));
            }
        }
        if contains_seq(h, n) {
            let w = choose|k: int| match_at(h, n, k);
            if w >= 1 {
                assert(h.drop_first().subrange(w - 1, w - 1 + n.len() as int) =~= h.subrange(
                    w,
                    w + n.len() as int,
                ));
                assert(match_at(h.drop_first(), n, w - 1));
                assert(contains_seq(h.drop_first(), n));
            }
            assert(contains_seq(h.drop_first(), n));
            let j = sub_index(h.drop_first(), n);
            assert(h.subrange(1 + j, 1 + j + n.len() as int) =~= h.drop_first().subrange(
                j,
                j + n.len() as int,
            ));
        }
        if !contains_seq(h, n) {
            if contains_seq(h.drop_first(), n) {
                let w = choose|k: int| match_at(h.drop_first(), n, k);
                assert(h.subrange(w + 1, w + 1 + n.len() as int) =~= h.drop_first().subrange(
                    w,
                    w + n.len() as int,
                ));
                assert(match_at(h, n, w + 1));
            }
        }
    }
}

/// Position of the first occurrence of `n` in `h`, if any.
pub fn find_sub(h: &str, n: &str) -> (r: Option<usize>)
    ensures
        match r {
            Some(i) => contains_seq(h@, n@) && i == sub_index(h@, n@),
            None => !contains_seq(h@, n@),
        },
{
    let hv = str_chars(h);
    let nv = str_chars(n);
    if nv.len() == 0 {
        proof {
            assert(h@.subrange(0, 0) =~= n@);
            assert(match_at(h@, n@, 0));
        }
        return Some(0);
    }
    if nv.len() > hv.len() {
        proof {
            assert(forall|i: int| !match_at(h@, n@, i));
        }
        return None;
    }
    let hlen = hv.len();
    let last = hlen - nv.len();
    let mut i: usize = 0;
    while i <= last
        invariant
            hv@ == h@,
            nv@ == n@,
            1 <= nv@.len() <= hv@.len(),
            hlen == hv@.len(),
            last == hv@.len() - nv@.len(),
            0 <= i <= last + 1,
            forall|k: int| 0 <= k < i ==> !match_at(h@, n@, k),
        decreases last + 1 - i,
    {
        if match_at_exec(&hv, &nv, i) {
            proof {
                lemma_sub_index(h@, n@);
                assert(contains_seq(h@, n@));
            }
            return Some(i);
        }
        i = i + 1;
    }
    proof {
        assert(forall|k: int| match_at(h@, n@, k) ==> 0 <= k <= last);
    }
    None
}

/// The string with its leading ASCII whitespace removed.
pub fn trim_start_str(s: &str) -> (r: String)
    ensures
        r@ == trim_start_rec(s@),
{
    let cs = str_chars(s);
    let n = cs.len();
    let mut i: usize = 0;
    while i < n && is_ws_exec(cs[i])
        invariant
            cs@ == s@,
            n == cs@.len(),
            0 <= i <= n,
            forall|k: int| 0 <= k < i ==> is_ws(s@[k]),
        decreases n - i,
    {
        i = i + 1;
    }
    proof {
        lemma_trim_start_at(s@, i as int);
    }
    let kept = subrange_vec(&cs, i, n);
    proof {
        assert(s@.subrange(i as int, n as int) =~= s@.skip(i as int));
    }
    string_from_chars(&kept)
}

/// Dictionary order on character sequences, by code point.
pub open spec fn lex_le(a: Seq<char>, b: Seq<char>) -> bool
    decreases a.len(),
{
    if a.len() == 0 {
        true
    } else if b.len() == 0 {
        false
    } else if a[0] < b[0] {
        true
    } else if a[0] > b[0] {
        false
    } else {
        lex_le(a.drop_first(), b.drop_first())
    }
}

pub proof fn lemma_lex_total(a: Seq<char>, b: Seq<char>)
    ensures
        lex_le(a, b) || lex_le(b, a),
    decreases a.len(),
{
    if a.len() == 0 || b.len() == 0 {
    } else if a[0] == b[0] {
        lemma_lex_total(a.drop_first(), b.drop_first());
    }
}

pub proof fn lemma_lex_antisym(a: Seq<char>, b: Seq<char>)
    requires
        lex_le(a, b),
        lex_le(b, a),
    ensures
        a == b,
    decreases a.len(),
{
    if a.len() == 0 {
        assert(b.len() == 0);
        assert(a =~= b);
    } else {
        assert(a[0] == b[0]);
        lemma_lex_antisym(a.drop_first(), b.drop_first());
        assert(a.len() == b.len());
        assert forall|i: int| 0 <= i < a.len() implies a[i] == b[i] by {
            if i > 0 {
                assert(a.drop_first()[i - 1] == a[i]);
                assert(b.drop_first()[i - 1] == b[i]);
            }
        }
        assert(a =~= b);
    }
}

pub proof fn lemma_lex_trans(a: Seq<char>, b: Seq<char>, c: Seq<char>)
    requires
        lex_le(a, b),
        lex_le(b, c),
    ensures
        lex_le(a, c),
    decreases a.len(),
{
    if a.len() == 0 || b.len() == 0 || c.len() == 0 {
    } else if a[0] == b[0] && b[0] == c[0] {
        lemma_lex_trans(a.drop_first(), b.drop_first(), c.drop_first());
    }
}

/// Dictionary comparison of two strings by code point.
pub fn str_lex_le(a: &str, b: &str) -> (r: bool)
    ensures
        r == lex_le(a@, b@),
{
    let av = str_chars(a);
    let bv = str_chars(b);
    let an = av.len();
    let bn = bv.len();
    let mut i: usize = 0;
    proof {
        assert(a@.skip(0) =~= a@);
        assert(b@.skip(0) =~= b@);
    }
    while i < an && i < bn
        invariant
            av@ == a@,
            bv@ == b@,
            an == av@.len(),
            bn == bv@.len(),
            0 <= i <= an,
            0 <= i <= bn,
            lex_le(a@, b@) == lex_le(a@.skip(i as int), b@.skip(i as int)),
        decreases an - i,
    {
        let ca = av[i];
        let cb = bv[i];
        proof {
            assert(a@.skip(i as int)[0] == a@[i as int]);
            assert(b@.skip(i as int)[0] == b@[i as int]);
            assert(a@.skip(i as int).drop_first() =~= a@.skip(i + 1));
            assert(b@.skip(i as int).drop_first() =~= b@.skip(i + 1));
        }
        if ca < cb {
            return true;
        }
        if ca > cb {
            return false;
        }
        i = i + 1;
    }
    proof {
        if i == an {
            assert(a@.skip(i as int) =~= Seq::<char>::empty());
        } else {
            assert(b@.skip(i as int) =~= Seq::<char>::empty());
            assert(a@.skip(i as int).len() > 0);
        }
    }
    i == an
}

/// Strict dictionary comparison of two strings.
pub fn str_lex_lt(a: &str, b: &str) -> (r: bool)
    ensures
        r == (lex_le(a@, b@) && a@ != b@),
{
    let le = str_lex_le(a, b);
    let eq = str_eq(a, b);
    le && !eq
}

/// Case folding is idempotent.
pub proof fn lemma_lower_idem(s: Seq<char>)
    ensures
        lower(lower(s)) == lower(s),
{
    assert forall|i: int| 0 <= i < s.len() implies lower(lower(s))[i] == lower(s)[i] by {
        assert(lower(s)[i] == lower_char(s[i]));
        assert(lower(lower(s))[i] == lower_char(lower_char(s[i])));
    }
    assert(lower(lower(s)) =~= lower(s));
}

/// Folding to lower case after folding to upper case folds to lower case.
pub proof fn lemma_lower_upper(s: Seq<char>)
    ensures
        lower(upper(s)) == lower(s),
{
    assert forall|i: int| 0 <= i < s.len() implies lower(upper(s))[i] == lower(s)[i] by {
        assert(upper(s)[i] == upper_char(s[i]));
        assert(lower(upper(s))[i] == lower_char(upper_char(s[i])));
        assert(lower(s)[i] == lower_char(s[i]));
    }
    assert(lower(upper(s)) =~= lower(s));
}

/// Index of the last occurrence of `c`, or `-1` if `c` is absent.
pub open spec fn last_index_of_char(s: Seq<char>, c: char) -> int
    decreases s.len(),
{
    if s.len() == 0 {
        -1
    } else if s.last() == c {
        s.len() - 1
    } else {
        last_index_of_char(s.drop_last(), c)
    }
}

pub proof fn lemma_last_index_of_char_is(s: Seq<char>, c: char, j: int)
    requires
        -1 <= j < s.len(),
        j >= 0 ==> s[j] == c,
        forall|k: int| j < k < s.len() ==> s[k] != c,
    ensures
        last_index_of_char(s, c) == j,
    decreases s.len(),
{
    if s.len() == 0 {
    } else if s.last() == c {
        assert(j == s.len() - 1);
    } else {
        assert(j < s.len() - 1);
        lemma_last_index_of_char_is(s.drop_last(), c, j);
    }
}

/// Position of the last occurrence of `c` in `s`, if any.
pub fn find_last_char(s: &str, c: char) -> (r: Option<usize>)
    ensures
        match r {
            Some(i) => i == last_index_of_char(s@, c) && i < s@.len(),
            None => last_index_of_char(s@, c) == -1,
        },
{
    let cs = str_chars(s);
    let n = cs.len();
    let mut j: usize = n;
    while j > 0
        invariant
            cs@ == s@,
            n == cs@.len(),
            0 <= j <= n,
            forall|k: int| j <= k < n ==> s@[k] != c,
        decreases j,
    {
        if cs[j - 1] == c {
            proof {
                lemma_last_index_of_char_is(s@, c, j - 1);
            }
            return Some(j - 1);
        }
        j = j - 1;
    }
    proof {
        lemma_last_index_of_char_is(s@, c, -1);
    }
    None
}

} // verus!
