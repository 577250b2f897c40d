//! Verified character-level string utilities shared by the library.

use vstd::prelude::*;

verus! {

/// Whitespace characters recognised when splitting legacy argument strings.
pub open spec fn is_ws(c: char) -> bool {
    c == ' ' || c == '\t' || c == '\n' || c == '\r'
}

/// The characters of `parts` joined with the separator sequence `sep`.
pub open spec fn spec_join(parts: Seq<Seq<char>>, sep: Seq<char>) -> Seq<char>
    decreases parts.len(),
{
    if parts.len() == 0 {
        Seq::empty()
    } else if parts.len() == 1 {
        parts[0]
    } else {
        parts[0] + sep + spec_join(parts.drop_first(), sep)
    }
}

/// `pat` occurs in `s` starting at position `i`.
pub open spec fn contains_at(s: Seq<char>, pat: Seq<char>, i: int) -> bool {
    0 <= i && i + pat.len() <= s.len() && s.subrange(i, i + pat.len() as int) == pat
}

/// `pat` occurs somewhere in `s`.
pub open spec fn spec_contains(s: Seq<char>, pat: Seq<char>) -> bool {
    exists|i: int| contains_at(s, pat, i)
}

/// `s` split at each occurrence of `sep`, scanning from position `i` with the
/// piece read so far in `cur` and the finished pieces in `acc`. Empty pieces
/// are kept, so joining the result with `sep` restores `s`.
pub open spec fn split_from(
    s: Seq<char>,
    sep: char,
    i: int,
    cur: Seq<char>,
    acc: Seq<Seq<char>>,
) -> Seq<Seq<char>>
    decreases s.len() - i,
{
    if i < 0 || i >= s.len() {
        acc.push(cur)
    } else if s[i] == sep {
        split_from(s, sep, i + 1, Seq::empty(), acc.push(cur))
    } else {
        split_from(s, sep, i + 1, cur.push(s[i]), acc)
    }
}

/// `s` split at each occurrence of `sep`, empty pieces kept.
pub open spec fn spec_split(s: Seq<char>, sep: char) -> Seq<Seq<char>> {
    split_from(s, sep, 0, Seq::empty(), Seq::empty())
}

/// `s` split at whitespace runs, scanning from position `i`; empty pieces are
/// dropped, as `str::split_whitespace` drops them.
pub open spec fn split_ws_from(
    s: Seq<char>,
    i: int,
    cur: Seq<char>,
    acc: Seq<Seq<char>>,
) -> Seq<Seq<char>>
    decreases s.len() - i,
{
    if i < 0 || i >= s.len() {
        if cur.len() > 0 {
            acc.push(cur)
        } else {
            acc
        }
    } else if is_ws(s[i]) {
        if cur.len() > 0 {
            split_ws_from(s, i + 1, Seq::empty(), acc.push(cur))
        } else {
            split_ws_from(s, i + 1, Seq::empty(), acc)
        }
    } else {
        split_ws_from(s, i + 1, cur.push(s[i]), acc)
    }
}

/// `s` split at whitespace runs, empty pieces dropped.
pub open spec fn spec_split_ws(s: Seq<char>) -> Seq<Seq<char>> {
    split_ws_from(s, 0, Seq::empty(), Seq::empty())
}

/// The decimal digit character for a value below ten.
pub open spec fn digit_char(d: nat) -> char {
    if d == 0 { '0' }
    else if d == 1 { '1' }
    else if d == 2 { '2' }
    else if d == 3 { '3' }
    else if d == 4 { '4' }
    else if d == 5 { '5' }
    else if d == 6 { '6' }
    else if d == 7 { '7' }
    else if d == 8 { '8' }
    else { '9' }
}

/// The decimal rendering of `n`, most significant digit first.
pub open spec fn spec_dec(n: nat) -> Seq<char>
    decreases n,
{
    if n < 10 {
        seq![digit_char(n)]
    } else {
        spec_dec(n / 10).push(digit_char(n % 10))
    }
}

/// The views of a sequence of strings.
pub open spec fn views(ss: Seq<String>) -> Seq<Seq<char>> {
    ss.map_values(|s: String| s@)
}

/// `s` with every '.' replaced by '/'.
pub open spec fn dots_to_slashes(s: Seq<char>) -> Seq<char> {
    s.map(|_i: int, c: char| if c == '.' { '/' } else { c })
}

/// Relies on `alloc::string::String::push`: appends the given char to the end
/// of this string.
#[verifier::external_body]
pub fn push_char(s: &mut String, c: char)
    ensures
        final(s)@ == old(s)@.push(c),
{
    s.push(c);
}

/// Character-by-character equality of two string slices.
pub fn str_eq(a: &str, b: &str) -> (r: bool)
    ensures
        r == (a@ == b@),
{
    let alen = a.unicode_len();
    let blen = b.unicode_len();
    if alen != blen {
        assert(a@ != b@) by {
            assert(a@.len() != b@.len());
        }
        return false;
    }
    for i in 0..alen
        invariant
            alen == a@.len(),
            alen == b@.len(),
            forall|j: int| 0 <= j < i ==> a@[j] == b@[j],
    {
        if a.get_char(i) != b.get_char(i) {
            return false;
        }
    }
    proof {
        assert(a@ =~= b@);
    }
    true
}

/// Whether `pat` occurs in `s` at position `i`.
pub fn match_at(s: &str, pat: &str, i: usize) -> (r: bool)
    requires
        i <= s@.len(),
    ensures
        r == contains_at(s@, pat@, i as int),
{
    let slen = s.unicode_len();
    let plen = pat.unicode_len();
    if plen > slen - i {
        return false;
    }
    for j in 0..plen
        invariant
            slen == s@.len(),
            plen == pat@.len(),
            i + plen <= slen,
            forall|k: int| 0 <= k < j ==> s@[i + k] == pat@[k],
    {
        if s.get_char(i + j) != pat.get_char(j) {
            assert(s@.subrange(i as int, i + plen) != pat@) by {
                assert(s@.subrange(i as int, i + plen)[j as int] == s@[i + j]);
            }
            return false;
        }
    }
    proof {
        assert(s@.subrange(i as int, i + plen) =~= pat@);
    }
    true
}

/// Whether `pat` occurs anywhere in `s`.
pub fn contains_sub(s: &str, pat: &str) -> (r: bool)
    ensures
        r == spec_contains(s@, pat@),
{
    let slen = s.unicode_len();
    let plen = pat.unicode_len();
    if plen == 0 {
        assert(contains_at(s@, pat@, 0)) by {
            assert(s@.subrange(0, 0) =~= pat@);
        }
        return true;
    }
    if plen > slen {
        assert(!spec_contains(s@, pat@)) by {
            assert(forall|i: int| !contains_at(s@, pat@, i));
        }
        return false;
    }
    let mut i: usize = 0;
    while i <= slen - plen
        invariant
            slen == s@.len(),
            plen == pat@.len(),
            0 < plen <= slen,
            0 <= i <= slen - plen + 1,
            forall|j: int| 0 <= j < i ==> !contains_at(s@, pat@, j),
        decreases slen - plen - i + 1,
    {
        if match_at(s, pat, i) {
            return true;
        }
        i = i + 1;
    }
    assert(forall|j: int| !contains_at(s@, pat@, j)) by {
        assert(forall|j: int| j > slen - plen ==> !contains_at(s@, pat@, j));
    }
    false
}

/// The decimal rendering of `n`.
pub fn u64_to_dec(n: u64) -> (r: String)
    ensures
        r@ == spec_dec(n as nat),
{
    let mut digits: Vec<char> = Vec::new();
    let mut rest: u64 = n;
    loop
        invariant_except_break
            spec_dec(n as nat) == spec_dec(rest as nat) + digits@,
        ensures
            digits@ == spec_dec(n as nat),
        decreases rest,
    {
        let d: u64 = rest % 10;
        let c = digit_of(d);
        let next: u64 = rest / 10;
        let ghost pre = digits@;
        digits.insert(0, c);
        assert(digits@ =~= seq![digit_char((rest % 10) as nat)] + pre);
        if next == 0 {
            proof {
                assert(rest < 10);
                assert(spec_dec(rest as nat) =~= seq![digit_char((rest % 10) as nat)]);
                assert(digits@ =~= spec_dec(rest as nat) + pre);
                assert(digits@ =~= spec_dec(n as nat));
            }
            break;
        }
        proof {
            assert(rest >= 10);
            assert(spec_dec(rest as nat) == spec_dec((rest / 10) as nat).push(
                digit_char((rest % 10) as nat),
            ));
            assert(spec_dec(rest as nat) + pre =~= spec_dec(next as nat) + digits@);
        }
        rest = next;
    }
    let mut r = String::new();
    let glen = digits.len();
    for i in 0..glen
        invariant
            glen == digits@.len(),
            r@ == digits@.subrange(0, i as int),
            digits@ == spec_dec(n as nat),
    {
        push_char(&mut r, digits[i]);
        assert(r@ =~= digits@.subrange(0, i + 1));
    }
    assert(digits@.subrange(0, glen as int) =~= digits@);
    r
}

/// `s` split at each occurrence of `sep`, empty pieces kept.
pub fn split_char(s: &str, sep: char) -> (r: Vec<String>)
    ensures
        views(r@) == spec_split(s@, sep),
{
    let n = s.unicode_len();
    let mut parts: Vec<String> = Vec::new();
    let mut cur = String::new();
    assert(views(parts@) =~= Seq::<Seq<char>>::empty());
    for i in 0..n
        invariant
            n == s@.len(),
            spec_split(s@, sep) == split_from(s@, sep, i as int, cur@, views(parts@)),
    {
        let c = s.get_char(i);
        if c == sep {
            let ghost pre = views(parts@);
            parts.push(cur);
            assert(views(parts@) =~= pre.push(parts@.last()@));
            cur = String::new();
        } else {
            push_char(&mut cur, c);
        }
    }
    let ghost pre = views(parts@);
    parts.push(cur);
    assert(views(parts@) =~= pre.push(parts@.last()@));
    parts
}

/// `s` with every '.' replaced by '/'.
pub fn replace_dots(s: &str) -> (r: String)
    ensures
        r@ == dots_to_slashes(s@),
{
    let n = s.unicode_len();
    let mut r = String::new();
    for i in 0..n
        invariant
            n == s@.len(),
            r@ == dots_to_slashes(s@.subrange(0, i as int)),
    {
        let c = s.get_char(i);
        if c == '.' {
            push_char(&mut r, '/');
        } else {
            push_char(&mut r, c);
        }
        assert(r@ =~= dots_to_slashes(s@.subrange(0, i + 1)));
    }
    assert(s@.subrange(0, n as int) =~= s@);
    r
}

/// `s` split at whitespace runs, empty pieces dropped.
pub fn split_ws(s: &str) -> (r: Vec<String>)
    ensures
        views(r@) == spec_split_ws(s@),
{
    let n = s.unicode_len();
    let mut parts: Vec<String> = Vec::new();
    let mut cur = String::new();
    assert(views(parts@) =~= Seq::<Seq<char>>::empty());
    for i in 0..n
        invariant
            n == s@.len(),
            spec_split_ws(s@) == split_ws_from(s@, i as int, cur@, views(parts@)),
    {
        let c = s.get_char(i);
        if c == ' ' || c == '\t' || c == '\n' || c == '\r' {
            if cur.unicode_len() > 0 {
                let ghost pre = views(parts@);
                parts.push(cur);
                assert(views(parts@) =~= pre.push(parts@.last()@));
                cur = String::new();
            } else {
                assert(cur@ =~= Seq::<char>::empty());
            }
        } else {
            push_char(&mut cur, c);
        }
    }
    if cur.unicode_len() > 0 {
        let ghost pre = views(parts@);
        parts.push(cur);
        assert(views(parts@) =~= pre.push(parts@.last()@));
    }
    parts
}

/// Clone a string by copying its characters.
pub fn clone_string(s: &String) -> (r: String)
    ensures
        r@ == s@,
{
    String::from_str(s.as_str())
}

/// Append a copy of every string of `src` to `dst`.
pub fn push_all(dst: &mut Vec<String>, src: &Vec<String>)
    ensures
        final(dst)@.len() == old(dst)@.len() + src@.len(),
        views(final(dst)@) == views(old(dst)@) + views(src@),
{
    let n = src.len();
    for i in 0..n
        invariant
            n == src@.len(),
            dst@.len() == old(dst)@.len() + i,
            views(dst@) =~= views(old(dst)@) + views(src@).subrange(0, i as int),
    {
        let ghost pre = views(dst@);
        dst.push(clone_string(&src[i]));
        assert(views(dst@) =~= pre.push(dst@.last()@));
        assert(views(dst@) =~= views(old(dst)@) + views(src@).subrange(0, i + 1));
    }
    assert(views(src@).subrange(0, n as int) =~= views(src@));
}

/// Joining after appending one piece: the join of `parts.push(x)` is the
/// join of `parts`, the separator, then `x`; or `x` alone when `parts` is
/// empty.
pub proof fn lemma_join_push(parts: Seq<Seq<char>>, x: Seq<char>, sep: Seq<char>)
    ensures
        spec_join(parts.push(x), sep) == if parts.len() == 0 {
            x
        } else {
            spec_join(parts, sep) + sep + x
        },
    decreases parts.len(),
{
    if parts.len() == 0 {
        assert(parts.push(x).len() == 1);
        assert(parts.push(x)[0] == x);
    } else if parts.len() == 1 {
        assert(parts.push(x)[0] == parts[0]);
        assert(parts.push(x).drop_first() =~= seq![x]);
        assert(spec_join(seq![x], sep) == x);
        assert(spec_join(parts.push(x), sep) == parts[0] + sep + x);
    } else {
        assert(parts.push(x).drop_first() =~= parts.drop_first().push(x));
        lemma_join_push(parts.drop_first(), x, sep);
        assert(parts.push(x)[0] == parts[0]);
    }
}

/// Join the strings of `parts` with the separator `sep`.
pub fn join_with(parts: &Vec<String>, sep: &str) -> (r: String)
    ensures
        r@ == spec_join(views(parts@), sep@),
{
    let n = parts.len();
    let mut r = String::new();
    for i in 0..n
        invariant
            n == parts@.len(),
            r@ == spec_join(views(parts@).subrange(0, i as int), sep@),
    {
        if i > 0 {
            r.append(sep);
        }
        r.append(parts[i].as_str());
        proof {
            assert(views(parts@).subrange(0, i + 1) =~= views(parts@).subrange(0, i as int).push(
                parts@[i as int]@,
            ));
            lemma_join_push(views(parts@).subrange(0, i as int), parts@[i as int]@, sep@);
        }
    }
    assert(views(parts@).subrange(0, n as int) =~= views(parts@));
    r
}

/// The decimal digit character for a value below ten.
pub fn digit_of(d: u64) -> (c: char)
    requires
        d < 10,
    ensures
        c == digit_char(d as nat),
{
    if d == 0 { '0' }
    else if d == 1 { '1' }
    else if d == 2 { '2' }
    else if d == 3 { '3' }
    else if d == 4 { '4' }
    else if d == 5 { '5' }
    else if d == 6 { '6' }
    else if d == 7 { '7' }
    else if d == 8 { '8' }
    else { '9' }
}

} // verus!
