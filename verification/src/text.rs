//! Character-level text operations: prefix and infix search, equality,
//! whitespace trimming, case mapping and pattern replacement.
use vstd::prelude::*;

verus! {

/// `p` is a prefix of `s`.
pub open spec fn has_prefix(s: Seq<char>, p: Seq<char>) -> bool {
    p.len() <= s.len() && s.take(p.len() as int) == p
}

/// `n` occurs in `s` starting at index `i`.
pub open spec fn occurs_at(s: Seq<char>, n: Seq<char>, i: int) -> bool {
    0 <= i && i + n.len() <= s.len() && s.subrange(i, i + n.len()) == n
}

/// `n` occurs somewhere in `s` (the empty sequence occurs in every sequence).
pub open spec fn has_infix(s: Seq<char>, n: Seq<char>) -> bool {
    exists|i: int| occurs_at(s, n, i)
}

/// The Unicode `White_Space` property, as `char::is_whitespace` documents it.
pub open spec fn is_white_space(c: char) -> bool {
    let u = c as u32;
    ||| 0x9 <= u <= 0xd
    ||| u == 0x20
    ||| u == 0x85
    ||| u == 0xa0
    ||| u == 0x1680
    ||| 0x2000 <= u <= 0x200a
    ||| u == 0x2028
    ||| u == 0x2029
    ||| u == 0x202f
    ||| u == 0x205f
    ||| u == 0x3000
}

/// `s` without its leading whitespace.
pub open spec fn trim_start(s: Seq<char>) -> Seq<char>
    decreases s.len(),
{
    if s.len() > 0 && is_white_space(s[0]) {
        trim_start(s.drop_first())
    } else {
        s
    }
}

/// `s` without its trailing whitespace.
pub open spec fn trim_end(s: Seq<char>) -> Seq<char>
    decreases s.len(),
{
    if s.len() > 0 && is_white_space(s.last()) {
        trim_end(s.drop_last())
    } else {
        s
    }
}

/// `s` without leading and trailing whitespace, as `str::trim` returns it.
pub open spec fn trim(s: Seq<char>) -> Seq<char> {
    trim_end(trim_start(s))
}

/// `s` with every leading occurrence of the non-empty `p` removed, repeatedly,
/// as `str::trim_start_matches` does with a string pattern.
pub open spec fn strip_prefix_all(s: Seq<char>, p: Seq<char>) -> Seq<char>
    decreases s.len(),
{
    if p.len() > 0 && has_prefix(s, p) {
        strip_prefix_all(s.skip(p.len() as int), p)
    } else {
        s
    }
}

/// `s` with each non-overlapping occurrence of the non-empty `from`, found left
/// to right, replaced by `to`: what `str::replace` returns for a non-empty pattern.
pub open spec fn replace_all(s: Seq<char>, from: Seq<char>, to: Seq<char>) -> Seq<char>
    decreases s.len(),
{
    if s.len() == 0 || from.len() == 0 {
        s
    } else if has_prefix(s, from) {
        to + replace_all(s.skip(from.len() as int), from, to)
    } else {
        seq![s[0]] + replace_all(s.drop_first(), from, to)
    }
}

/// The ASCII lowercase form of `c`; other characters are kept.
pub open spec fn ascii_lower_char(c: char) -> char {
    if 'A' <= c && c <= 'Z' {
        ((c as u32) + 32) as char
    } else {
        c
    }
}

/// The ASCII uppercase form of `c`; other characters are kept.
pub open spec fn ascii_upper_char(c: char) -> char {
    if 'a' <= c && c <= 'z' {
        ((c as u32) - 32) as char
    } else {
        c
    }
}

/// Every character of `s` is ASCII.
pub open spec fn all_ascii(s: Seq<char>) -> bool {
    forall|i: int| 0 <= i < s.len() ==> (s[i] as u32) < 128
}

pub uninterp spec fn lowercase(s: Seq<char>) -> Seq<char>;

pub uninterp spec fn uppercase(s: Seq<char>) -> Seq<char>;

/// Lowercases `s` by calling `str::to_lowercase`. Trusted: the result is named
/// `lowercase(s@)`; on an all-ASCII string it is the character-wise ASCII
/// lowercase form, as the documentation of `to_lowercase` implies. What it does
/// to other characters (Unicode case mapping) is left unsaid.
#[verifier::external_body]
pub(crate) fn to_lowercase(s: &str) -> (r: String)
    ensures
        r@ == lowercase(s@),
        all_ascii(s@) ==> r@ == s@.map_values(|c: char| ascii_lower_char(c)),
{
    s.to_lowercase()
}

/// Uppercases `s` by calling `str::to_uppercase`. Trusted: the result is named
/// `uppercase(s@)`; on an all-ASCII string it is the character-wise ASCII
/// uppercase form. What it does to other characters is left unsaid.
#[verifier::external_body]
pub(crate) fn to_uppercase(s: &str) -> (r: String)
    ensures
        r@ == uppercase(s@),
        all_ascii(s@) ==> r@ == s@.map_values(|c: char| ascii_upper_char(c)),
{
    s.to_uppercase()
}

/// Collects characters into a `String` with `String::from_iter`. Trusted: the
/// string holds exactly the given characters in order.
#[verifier::external_body]
pub(crate) fn string_from_chars(v: &[char]) -> (s: String)
    ensures
        s@ == v@,
{
    v.iter().collect()
}

/// The characters of `s`, in order.
pub fn chars_of(s: &str) -> (v: Vec<char>)
    ensures
        v@ == s@,
{
    let mut v: Vec<char> = Vec::new();
    for c in it: s.chars()
        invariant
            v@ == it.seq().take(it.index() as int),
    {
        v.push(c);
    }
    v
}

/// Whether `c` has the Unicode `White_Space` property.
pub fn is_whitespace(c: char) -> (r: bool)
    ensures
        r == is_white_space(c),
{
    let u = c as u32;
    (0x9 <= u && u <= 0xd) || u == 0x20 || u == 0x85 || u == 0xa0 || u == 0x1680 || (0x2000 <= u
        && u <= 0x200a) || u == 0x2028 || u == 0x2029 || u == 0x202f || u == 0x205f || u == 0x3000
}

/// Whether the characters `n` occur in `s` at index `i`.
pub fn occurs_at_exec(s: &[char], n: &[char], i: usize) -> (r: bool)
    ensures
        r == occurs_at(s@, n@, i as int),
{
    if i > s.len() || n.len() > s.len() - i {
        return false;
    }
    let mut k: usize = 0;
    while k < n.len()
        invariant
            i + n.len() <= s.len(),
            k <= n.len(),
            forall|j: int| 0 <= j < k ==> s@[i + j] == n@[j],
        decreases n.len() - k,
    {
        if s[i + k] != n[k] {
            assert(s@.subrange(i as int, i + n.len())[k as int] != n@[k as int]);
            return false;
        }
        k = k + 1;
    }
    assert(s@.subrange(i as int, i + n.len()) =~= n@);
    true
}

/// Whether `p` is a prefix of `s`.
pub fn starts_with(s: &[char], p: &[char]) -> (r: bool)
    ensures
        r == has_prefix(s@, p@),
{
    let r = occurs_at_exec(s, p, 0);
    proof {
        if p@.len() <= s@.len() {
            assert(s@.subrange(0, p@.len() as int) =~= s@.take(p@.len() as int));
        }
    }
    r
}

/// Whether `n` occurs somewhere in `s`, as `str::contains` with a string pattern.
pub fn contains(s: &[char], n: &[char]) -> (r: bool)
    ensures
        r == has_infix(s@, n@),
{
    if n.len() > s.len() {
        proof {
            assert forall|i: int| !occurs_at(s@, n@, i) by {}
        }
        return false;
    }
    let last = s.len() - n.len();
    let mut i: usize = 0;
    loop
        invariant
            last == s.len() - n.len(),
            n.len() <= s.len(),
            i <= last,
            forall|j: int| 0 <= j < i ==> !occurs_at(s@, n@, j),
        ensures
            forall|j: int| 0 <= j <= last ==> !occurs_at(s@, n@, j),
        decreases last - i,
    {
        if occurs_at_exec(s, n, i) {
            return true;
        }
        if i == last {
            break;
        }
        i = i + 1;
    }
    proof {
        assert forall|j: int| !occurs_at(s@, n@, j) by {
            if 0 <= j && j <= last {
            }
        }
    }
    false
}

/// Whether `a` and `b` hold the same characters.
pub fn chars_eq(a: &[char], b: &[char]) -> (r: bool)
    ensures
        r == (a@ == b@),
{
    if a.len() != b.len() {
        return false;
    }
    let r = occurs_at_exec(a, b, 0);
    proof {
        if r {
            assert(a@.subrange(0, b@.len() as int) =~= a@);
        } else {
            if a@ == b@ {
                assert(a@.subrange(0, b@.len() as int) =~= b@);
            }
        }
    }
    r
}

/// Whether the string `hay` contains the string `needle`.
pub fn str_contains(hay: &str, needle: &str) -> (r: bool)
    ensures
        r == has_infix(hay@, needle@),
{
    let h = chars_of(hay);
    let n = chars_of(needle);
    contains(h.as_slice(), n.as_slice())
}

/// Whether the strings `a` and `b` are equal.
pub fn str_eq(a: &str, b: &str) -> (r: bool)
    ensures
        r == (a@ == b@),
{
    let x = chars_of(a);
    let y = chars_of(b);
    chars_eq(x.as_slice(), y.as_slice())
}

proof fn lemma_trim_start_step(s: Seq<char>, i: int)
    requires
        0 <= i < s.len(),
        is_white_space(s[i]),
    ensures
        trim_start(s.skip(i)) == trim_start(s.skip(i + 1)),
{
    assert(s.skip(i).drop_first() =~= s.skip(i + 1));
}

proof fn lemma_trim_end_step(s: Seq<char>, j: int)
    requires
        0 < j <= s.len(),
        is_white_space(s[j - 1]),
    ensures
        trim_end(s.take(j)) == trim_end(s.take(j - 1)),
{
    assert(s.take(j).drop_last() =~= s.take(j - 1));
}

/// `s` without leading and trailing whitespace.
pub fn trim_chars(s: &[char]) -> (r: Vec<char>)
    ensures
        r@ == trim(s@),
{
    let n = s.len();
    let mut i: usize = 0;
    assert(s@.skip(0) =~= s@);
    while i < n && is_whitespace(s[i])
        invariant
            n == s.len(),
            i <= n,
            trim_start(s@) == trim_start(s@.skip(i as int)),
        decreases n - i,
    {
        proof {
            lemma_trim_start_step(s@, i as int);
        }
        i = i + 1;
    }
    let ghost rest = s@.skip(i as int);
    assert(trim_start(rest) == rest);
    let mut j: usize = n;
    assert(rest.take(rest.len() as int) =~= rest);
    while j > i && is_whitespace(s[j - 1])
        invariant
            n == s.len(),
            i <= j <= n,
            rest == s@.skip(i as int),
            trim_end(rest) == trim_end(rest.take(j - i)),
        decreases j,
    {
        proof {
            assert(rest[j - i - 1] == s@[j - 1]);
            lemma_trim_end_step(rest, (j - i) as int);
        }
        j = j - 1;
    }
    let ghost kept = rest.take(j - i);
    assert(trim_end(kept) == kept);
    let mut out: Vec<char> = Vec::new();
    let mut k: usize = i;
    while k < j
        invariant
            i <= k <= j <= n,
            n == s.len(),
            out@ == s@.subrange(i as int, k as int),
        decreases j - k,
    {
        out.push(s[k]);
        assert(s@.subrange(i as int, k + 1) =~= s@.subrange(i as int, k as int).push(s@[k as int]));
        k = k + 1;
    }
    assert(out@ =~= kept);
    out
}

/// The string `s` without leading and trailing whitespace, as `str::trim`.
pub fn trim_str(s: &str) -> (r: String)
    ensures
        r@ == trim(s@),
{
    let v = chars_of(s);
    let t = trim_chars(v.as_slice());
    string_from_chars(t.as_slice())
}

proof fn lemma_replace_step_match(s: Seq<char>, from: Seq<char>, to: Seq<char>, i: int)
    requires
        0 <= i < s.len(),
        from.len() > 0,
        occurs_at(s, from, i),
    ensures
        replace_all(s.skip(i), from, to) == to + replace_all(s.skip(i + from.len()), from, to),
{
    assert(s.skip(i).take(from.len() as int) =~= s.subrange(i, i + from.len()));
    assert(s.skip(i).skip(from.len() as int) =~= s.skip(i + from.len()));
}

proof fn lemma_replace_step_no_match(s: Seq<char>, from: Seq<char>, to: Seq<char>, i: int)
    requires
        0 <= i < s.len(),
        from.len() > 0,
        !occurs_at(s, from, i),
    ensures
        replace_all(s.skip(i), from, to) == seq![s[i]] + replace_all(s.skip(i + 1), from, to),
{
    if from.len() <= s.skip(i).len() {
        assert(s.skip(i).take(from.len() as int) =~= s.subrange(i, i + from.len()));
    }
    assert(s.skip(i).drop_first() =~= s.skip(i + 1));
}

/// `s` with every non-overlapping occurrence of `from` replaced by `to`, as
/// `str::replace` with a non-empty pattern.
pub fn replace_chars(s: &[char], from: &[char], to: &[char]) -> (r: Vec<char>)
    requires
        from@.len() > 0,
    ensures
        r@ == replace_all(s@, from@, to@),
{
    let n = s.len();
    let mut out: Vec<char> = Vec::new();
    let mut i: usize = 0;
    assert(s@.skip(0) =~= s@);
    while i < n
        invariant
            n == s.len(),
            i <= n,
            from@.len() > 0,
            replace_all(s@, from@, to@) == out@ + replace_all(s@.skip(i as int), from@, to@),
        decreases n - i,
    {
        if occurs_at_exec(s, from, i) {
            proof {
                lemma_replace_step_match(s@, from@, to@, i as int);
            }
            let ghost before = out@;
            let mut k: usize = 0;
            while k < to.len()
                invariant
                    k <= to.len(),
                    out@ == before + to@.take(k as int),
                decreases to.len() - k,
            {
                out.push(to[k]);
                assert(to@.take(k + 1) =~= to@.take(k as int).push(to@[k as int]));
                k = k + 1;
            }
            assert(to@.take(to@.len() as int) =~= to@);
            assert(before + (to@ + replace_all(s@.skip(i + from@.len()), from@, to@)) =~= out@
                + replace_all(s@.skip(i + from@.len()), from@, to@));
            i = i + from.len();
        } else {
            proof {
                lemma_replace_step_no_match(s@, from@, to@, i as int);
            }
            let ghost before = out@;
            out.push(s[i]);
            assert(before + (seq![s@[i as int]] + replace_all(s@.skip(i + 1), from@, to@))
                =~= out@ + replace_all(s@.skip(i + 1), from@, to@));
            i = i + 1;
        }
    }
    assert(s@.skip(n as int).len() == 0);
    assert(out@ + replace_all(s@.skip(n as int), from@, to@) =~= out@);
    out
}

/// `s` with every leading occurrence of `p` removed, repeatedly, as
/// `str::trim_start_matches` with a non-empty string pattern.
pub fn strip_prefix_all_chars(s: &[char], p: &[char]) -> (r: Vec<char>)
    requires
        p@.len() > 0,
    ensures
        r@ == strip_prefix_all(s@, p@),
{
    let n = s.len();
    let mut i: usize = 0;
    assert(s@.skip(0) =~= s@);
    while occurs_at_exec(s, p, i)
        invariant
            n == s.len(),
            i <= n,
            p@.len() > 0,
            strip_prefix_all(s@, p@) == strip_prefix_all(s@.skip(i as int), p@),
        decreases n - i,
    {
        proof {
            assert(s@.skip(i as int).take(p@.len() as int) =~= s@.subrange(
                i as int,
                i + p@.len(),
            ));
            assert(s@.skip(i as int).skip(p@.len() as int) =~= s@.skip(i + p@.len()));
        }
        i = i + p.len();
    }
    proof {
        if p@.len() <= s@.skip(i as int).len() {
            assert(s@.skip(i as int).take(p@.len() as int) =~= s@.subrange(
                i as int,
                i + p@.len(),
            ));
        }
    }
    let mut out: Vec<char> = Vec::new();
    let mut k: usize = i;
    while k < n
        invariant
            i <= k <= n,
            n == s.len(),
            out@ == s@.subrange(i as int, k as int),
        decreases n - k,
    {
        out.push(s[k]);
        assert(s@.subrange(i as int, k + 1) =~= s@.subrange(i as int, k as int).push(s@[k as int]));
        k = k + 1;
    }
    assert(out@ =~= s@.skip(i as int));
    out
}

/// The index of the first `c` in `s`.
pub open spec fn first_index_of(s: Seq<char>, c: char) -> Option<int>
    decreases s.len(),
{
    if s.len() == 0 {
        None
    } else if s[0] == c {
        Some(0)
    } else {
        match first_index_of(s.drop_first(), c) {
            Some(i) => Some(i + 1),
            None => None,
        }
    }
}

/// `t` without one trailing carriage return.
pub open spec fn without_cr(t: Seq<char>) -> Seq<char> {
    if t.len() > 0 && t.last() == '\r' {
        t.drop_last()
    } else {
        t
    }
}

/// The lines of `s` as `str::lines` yields them: `s` split at each `\n`, a
/// `\r` just before it dropped as well; a final line ending is optional.
pub open spec fn text_lines(s: Seq<char>) -> Seq<Seq<char>>
    decreases s.len(),
{
    if s.len() == 0 {
        Seq::empty()
    } else {
        match first_index_of(s, '\n') {
            Some(i) => {
                proof {
                    lemma_first_index_in_range(s, '\n');
                }
                seq![without_cr(s.take(i))] + text_lines(s.skip(i + 1))
            },
            None => seq![s],
        }
    }
}

/// The first index of `c`, when there is one, is within `s` and holds `c`.
pub proof fn lemma_first_index_in_range(s: Seq<char>, c: char)
    ensures
        first_index_of(s, c) matches Some(i) ==> 0 <= i < s.len() && s[i] == c,
    decreases s.len(),
{
    if s.len() > 0 {
        lemma_first_index_in_range(s.drop_first(), c);
    }
}

/// `first_index_of` is the index of the first occurrence.
proof fn lemma_first_index_at(s: Seq<char>, c: char, i: int)
    requires
        0 <= i <= s.len(),
        forall|j: int| 0 <= j < i ==> s[j] != c,
        i < s.len() ==> s[i] == c,
    ensures
        first_index_of(s, c) == (if i < s.len() {
            Some(i)
        } else {
            None::<int>
        }),
    decreases s.len(),
{
    if s.len() > 0 && i > 0 {
        assert forall|j: int| 0 <= j < i - 1 implies s.drop_first()[j] != c by {
            assert(s.drop_first()[j] == s[j + 1]);
        }
        lemma_first_index_at(s.drop_first(), c, i - 1);
    }
}

fn without_cr_vec(v: Vec<char>) -> (r: Vec<char>)
    ensures
        r@ == without_cr(v@),
{
    let mut v = v;
    if v.len() > 0 && v[v.len() - 1] == '\r' {
        v.pop();
    }
    v
}

/// The lines of `s`, as `str::lines` splits them.
pub fn split_lines(s: &str) -> (r: Vec<String>)
    ensures
        r.deep_view() == text_lines(s@),
{
    let cs = chars_of(s);
    let n = cs.len();
    let mut out: Vec<String> = Vec::new();
    let mut cur: Vec<char> = Vec::new();
    let mut start: usize = 0;
    let mut k: usize = 0;
    assert(cs@.skip(0) =~= cs@);
    while k < n
        invariant
            n == cs@.len(),
            start <= k <= n,
            cur@ == cs@.subrange(start as int, k as int),
            forall|j: int| start <= j < k ==> cs@[j] != '\n',
            text_lines(cs@) == out.deep_view() + text_lines(cs@.skip(start as int)),
        decreases n - k,
    {
        if cs[k] == '\n' {
            proof {
                let t = cs@.skip(start as int);
                assert forall|j: int| 0 <= j < k - start implies t[j] != '\n' by {
                    assert(t[j] == cs@[start + j]);
                }
                assert(t[k - start] == cs@[k as int]);
                lemma_first_index_at(t, '\n', k - start);
                assert(t.take(k - start) =~= cs@.subrange(start as int, k as int));
                assert(t.skip(k - start + 1) =~= cs@.skip(k + 1));
            }
            let line = without_cr_vec(cur);
            let ghost before = out.deep_view();
            out.push(string_from_chars(line.as_slice()));
            proof {
                assert(out.deep_view() =~= before.push(line@));
                assert(before.push(line@) + text_lines(cs@.skip(k + 1)) =~= before + (seq![line@]
                    + text_lines(cs@.skip(k + 1))));
            }
            cur = Vec::new();
            start = k + 1;
            assert(cur@ =~= cs@.subrange(start as int, start as int));
        } else {
            cur.push(cs[k]);
            assert(cs@.subrange(start as int, k + 1) =~= cs@.subrange(start as int, k as int).push(
                cs@[k as int],
            ));
        }
        k = k + 1;
    }
    proof {
        let t = cs@.skip(start as int);
        assert forall|j: int| 0 <= j < t.len() implies t[j] != '\n' by {
            assert(t[j] == cs@[start + j]);
        }
        lemma_first_index_at(t, '\n', t.len() as int);
        assert(t =~= cur@);
    }
    if start < n {
        let ghost before = out.deep_view();
        out.push(string_from_chars(cur.as_slice()));
        assert(out.deep_view() =~= before + seq![cur@]);
    } else {
        assert(cs@.skip(start as int) =~= Seq::<char>::empty());
        assert(out.deep_view() + Seq::<Seq<char>>::empty() =~= out.deep_view());
    }
    out
}

pub uninterp spec fn utf8_lossy(bytes: Seq<u8>) -> Seq<char>;

/// Decodes `bytes` with `String::from_utf8_lossy`. Trusted: the text is named
/// `utf8_lossy(bytes@)`, a function of the bytes alone; bytes that are all
/// ASCII decode to the same characters, one per byte, as UTF-8 and the
/// documentation (valid UTF-8 is returned unchanged) give. How invalid
/// sequences become U+FFFD is left unsaid.
#[verifier::external_body]
pub(crate) fn decode_lossy(bytes: &[u8]) -> (r: String)
    ensures
        r@ == utf8_lossy(bytes@),
        (forall|i: int| 0 <= i < bytes@.len() ==> bytes@[i] < 128) ==> r@ == bytes@.map_values(
            |b: u8| b as char,
        ),
{
    String::from_utf8_lossy(bytes).into_owned()
}

} // verus!
