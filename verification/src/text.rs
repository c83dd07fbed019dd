//! Character-level text utilities with exact specifications over `Seq<char>`.

use vstd::prelude::*;
use vstd::utf8::*;

verus! {

/// Appends one character to a string (std `String::push`).
/// Claimed: the new contents are the old contents followed by `c`.
#[verifier::external_body]
pub(crate) fn push_char(s: &mut String, c: char)
    ensures
        final(s)@ == old(s)@.push(c),
{
    s.push(c);
}

/// The characters of `s`, in order.
pub fn chars_of(s: &str) -> (v: Vec<char>)
    ensures
        v@ == s@,
{
    let mut v: Vec<char> = Vec::new();
    for c in it: s.chars()
        invariant
            v@ == it.seq().take(it.index()),
            it.seq() == s@,
    {
        v.push(c);
    }
    v
}

/// A string holding exactly the given characters.
pub fn string_of(v: &Vec<char>) -> (s: String)
    ensures
        s@ == v@,
{
    let mut s = String::new();
    let mut i: usize = 0;
    while i < v.len()
        invariant
            i <= v.len(),
            s@ == v@.take(i as int),
        decreases v.len() - i,
    {
        push_char(&mut s, v[i]);
        assert(v@.take(i + 1) =~= v@.take(i as int).push(v@[i as int]));
        i = i + 1;
    }
    assert(v@.take(v.len() as int) =~= v@);
    s
}


/// Unicode `White_Space` property, the set that `char::is_whitespace` tests.
pub open spec fn is_ws(c: char) -> bool {
    let u = c as u32;
    ||| (0x09 <= u && u <= 0x0d)
    ||| u == 0x20
    ||| u == 0x85
    ||| u == 0xa0
    ||| u == 0x1680
    ||| (0x2000 <= u && u <= 0x200a)
    ||| u == 0x2028
    ||| u == 0x2029
    ||| u == 0x202f
    ||| u == 0x205f
    ||| u == 0x3000
}

/// Whether `c` is a whitespace character.
pub fn is_whitespace(c: char) -> (b: bool)
    ensures
        b == is_ws(c),
{
    let u = c as u32;
    (0x09 <= u && u <= 0x0d) || u == 0x20 || u == 0x85 || u == 0xa0 || u == 0x1680
        || (0x2000 <= u && u <= 0x200a) || u == 0x2028 || u == 0x2029 || u == 0x202f
        || u == 0x205f || u == 0x3000
}

/// `s` without its leading whitespace.
pub open spec fn trim_start_seq(s: Seq<char>) -> Seq<char>
    decreases s.len(),
{
    if s.len() > 0 && is_ws(s[0]) {
        trim_start_seq(s.drop_first())
    } else {
        s
    }
}

/// `s` without its trailing whitespace.
pub open spec fn trim_end_seq(s: Seq<char>) -> Seq<char>
    decreases s.len(),
{
    if s.len() > 0 && is_ws(s.last()) {
        trim_end_seq(s.drop_last())
    } else {
        s
    }
}

/// `s` without leading and trailing whitespace.
pub open spec fn trim_seq(s: Seq<char>) -> Seq<char> {
    trim_end_seq(trim_start_seq(s))
}

proof fn lemma_trim_start_skip(s: Seq<char>, i: int)
    requires
        0 <= i <= s.len(),
        forall|k: int| 0 <= k < i ==> is_ws(#[trigger] s[k]),
    ensures
        trim_start_seq(s) == trim_start_seq(s.skip(i)),
    decreases i,
{
    if i > 0 {
        assert(s.skip(1) =~= s.drop_first());
        lemma_trim_start_skip(s.drop_first(), i - 1);
        assert(s.drop_first().skip(i - 1) =~= s.skip(i));
    } else {
        assert(s.skip(0) =~= s);
    }
}

proof fn lemma_trim_end_take(s: Seq<char>, j: int)
    requires
        0 <= j <= s.len(),
        forall|k: int| j <= k < s.len() ==> is_ws(#[trigger] s[k]),
    ensures
        trim_end_seq(s) == trim_end_seq(s.take(j)),
    decreases s.len() - j,
{
    if j < s.len() {
        lemma_trim_end_take(s.drop_last(), j);
        assert(s.drop_last().take(j) =~= s.take(j));
    } else {
        assert(s.take(j) =~= s);
    }
}

/// Index of the first non-whitespace character at or after `from`, or `v.len()`.
fn skip_ws(v: &Vec<char>, from: usize) -> (i: usize)
    requires
        from <= v.len(),
    ensures
        from <= i <= v.len(),
        forall|k: int| from <= k < i ==> is_ws(#[trigger] v@[k]),
        i < v.len() ==> !is_ws(v@[i as int]),
{
    let mut i = from;
    while i < v.len() && is_whitespace(v[i])
        invariant
            from <= i <= v.len(),
            forall|k: int| from <= k < i ==> is_ws(#[trigger] v@[k]),
        decreases v.len() - i,
    {
        i = i + 1;
    }
    i
}

/// The characters of `v` in `[lo, hi)`.
pub fn slice_chars(v: &Vec<char>, lo: usize, hi: usize) -> (r: Vec<char>)
    requires
        lo <= hi <= v.len(),
    ensures
        r@ == v@.subrange(lo as int, hi as int),
{
    let mut r: Vec<char> = Vec::new();
    let mut i = lo;
    while i < hi
        invariant
            lo <= i <= hi <= v.len(),
            r@ == v@.subrange(lo as int, i as int),
        decreases hi - i,
    {
        r.push(v[i]);
        assert(v@.subrange(lo as int, i + 1) =~= v@.subrange(lo as int, i as int).push(v@[i as int]));
        i = i + 1;
    }
    r
}

/// The characters of `v` with leading and trailing whitespace removed (`str::trim`).
pub fn trim_chars(v: &Vec<char>) -> (r: Vec<char>)
    ensures
        r@ == trim_seq(v@),
{
    let lo = skip_ws(v, 0);
    proof {
        lemma_trim_start_skip(v@, lo as int);
        if lo < v.len() {
            assert(trim_start_seq(v@.skip(lo as int)) == v@.skip(lo as int));
        } else {
            assert(v@.skip(lo as int).len() == 0);
        }
    }
    let mut hi = v.len();
    while hi > lo && is_whitespace(v[hi - 1])
        invariant
            lo <= hi <= v.len(),
            forall|k: int| hi <= k < v.len() ==> is_ws(#[trigger] v@[k]),
        decreases hi,
    {
        hi = hi - 1;
    }
    let r = slice_chars(v, lo, hi);
    proof {
        let t = v@.skip(lo as int);
        assert(trim_start_seq(v@) == t);
        assert forall|k: int| hi - lo <= k < t.len() implies is_ws(#[trigger] t[k]) by {
            assert(t[k] == v@[k + lo]);
        }
        lemma_trim_end_take(t, hi - lo);
        assert(t.take(hi - lo) =~= v@.subrange(lo as int, hi as int));
        let u = t.take(hi - lo);
        if u.len() > 0 {
            assert(u.last() == v@[hi - 1]);
        }
    }
    r
}

/// `s` with leading and trailing whitespace removed (`str::trim`).
pub fn trim(s: &str) -> (r: String)
    ensures
        r@ == trim_seq(s@),
{
    let v = chars_of(s);
    let t = trim_chars(&v);
    string_of(&t)
}


/// `s` without its trailing whitespace (`str::trim_end`).
pub fn trim_end_chars(v: &Vec<char>) -> (r: Vec<char>)
    ensures
        r@ == trim_end_seq(v@),
{
    let mut hi = v.len();
    while hi > 0 && is_whitespace(v[hi - 1])
        invariant
            hi <= v.len(),
            forall|k: int| hi <= k < v.len() ==> is_ws(#[trigger] v@[k]),
        decreases hi,
    {
        hi = hi - 1;
    }
    proof {
        lemma_trim_end_take(v@, hi as int);
        let u = v@.take(hi as int);
        if u.len() > 0 {
            assert(u.last() == v@[hi - 1]);
        }
    }
    slice_chars(v, 0, hi)
}

/// `p` occurs in `s` starting at index `i`.
pub open spec fn matches_at(s: Seq<char>, p: Seq<char>, i: int) -> bool {
    0 <= i && i + p.len() <= s.len() && s.subrange(i, i + p.len()) == p
}

/// `p` occurs somewhere in `s` (`str::contains` with a string pattern).
pub open spec fn contains_seq(s: Seq<char>, p: Seq<char>) -> bool {
    exists|i: int| matches_at(s, p, i)
}

/// `s` begins with `p`.
pub open spec fn starts_with_seq(s: Seq<char>, p: Seq<char>) -> bool {
    matches_at(s, p, 0)
}

/// `s` ends with `p`.
pub open spec fn ends_with_seq(s: Seq<char>, p: Seq<char>) -> bool {
    p.len() <= s.len() && matches_at(s, p, s.len() - p.len())
}

/// Whether `p` occurs in `s` at index `i`.
pub fn matches_at_exec(s: &Vec<char>, p: &Vec<char>, i: usize) -> (b: bool)
    ensures
        b == matches_at(s@, p@, i as int),
{
    if i > s.len() || p.len() > s.len() - i {
        return false;
    }
    let mut k: usize = 0;
    while k < p.len()
        invariant
            i + p.len() <= s.len(),
            k <= p.len(),
            forall|j: int| 0 <= j < k ==> s@[i + j] == p@[j],
        decreases p.len() - k,
    {
        if s[i + k] != p[k] {
            assert(s@.subrange(i as int, i + p.len())[k as int] != p@[k as int]);
            return false;
        }
        k = k + 1;
    }
    assert(s@.subrange(i as int, i + p.len()) =~= p@);
    true
}

/// The first index at or after `from` where `p` occurs in `s`.
pub fn find_from(s: &Vec<char>, p: &Vec<char>, from: usize) -> (r: Option<usize>)
    requires
        from <= s.len(),
    ensures
        match r {
            Some(i) => from <= i && matches_at(s@, p@, i as int)
                && forall|k: int| from <= k < i ==> !#[trigger] matches_at(s@, p@, k),
            None => forall|k: int| from <= k ==> !#[trigger] matches_at(s@, p@, k),
        },
{
    let mut i = from;
    loop
        invariant
            from <= i <= s.len(),
            forall|k: int| from <= k < i ==> !#[trigger] matches_at(s@, p@, k),
        decreases s.len() - i,
    {
        if matches_at_exec(s, p, i) {
            return Some(i);
        }
        if i == s.len() {
            assert forall|k: int| from <= k implies !#[trigger] matches_at(s@, p@, k) by {
                if k > s.len() {
                    assert(!matches_at(s@, p@, k));
                }
            }
            return None;
        }
        i = i + 1;
    }
}

/// Whether `p` occurs in `s`.
pub fn contains_chars(s: &Vec<char>, p: &Vec<char>) -> (b: bool)
    ensures
        b == contains_seq(s@, p@),
{
    match find_from(s, p, 0) {
        Some(i) => true,
        None => false,
    }
}

/// Whether `s` begins with `p`.
pub fn starts_with_chars(s: &Vec<char>, p: &Vec<char>) -> (b: bool)
    ensures
        b == starts_with_seq(s@, p@),
{
    matches_at_exec(s, p, 0)
}

/// Whether `s` ends with `p`.
pub fn ends_with_chars(s: &Vec<char>, p: &Vec<char>) -> (b: bool)
    ensures
        b == ends_with_seq(s@, p@),
{
    if p.len() > s.len() {
        false
    } else {
        matches_at_exec(s, p, s.len() - p.len())
    }
}

/// Whether the strings `a` and `b` hold the same characters.
pub fn str_eq(a: &str, b: &str) -> (r: bool)
    ensures
        r == (a@ == b@),
{
    let va = chars_of(a);
    let vb = chars_of(b);
    let r = va.len() == vb.len() && matches_at_exec(&va, &vb, 0);
    proof {
        if va.len() == vb.len() {
            assert(va@.subrange(0, vb@.len() as int) =~= va@);
        }
    }
    r
}

/// Whether `s` contains `p`.
pub fn str_contains(s: &str, p: &str) -> (b: bool)
    ensures
        b == contains_seq(s@, p@),
{
    let vs = chars_of(s);
    let vp = chars_of(p);
    contains_chars(&vs, &vp)
}

/// Whether `s` starts with `p`.
pub fn str_starts_with(s: &str, p: &str) -> (b: bool)
    ensures
        b == starts_with_seq(s@, p@),
{
    let vs = chars_of(s);
    let vp = chars_of(p);
    starts_with_chars(&vs, &vp)
}

/// Whether `s` ends with `p`.
pub fn str_ends_with(s: &str, p: &str) -> (b: bool)
    ensures
        b == ends_with_seq(s@, p@),
{
    let vs = chars_of(s);
    let vp = chars_of(p);
    ends_with_chars(&vs, &vp)
}

/// Every non-overlapping occurrence of `p` in `s`, scanning from the left,
/// replaced by `t` (`str::replace`); an empty pattern matches before every
/// character and at the end.
pub open spec fn replace_seq(s: Seq<char>, p: Seq<char>, t: Seq<char>) -> Seq<char>
    decreases s.len(),
{
    if p.len() == 0 {
        if s.len() == 0 {
            t
        } else {
            t + seq![s[0]] + replace_seq(s.drop_first(), p, t)
        }
    } else if s.len() < p.len() {
        s
    } else if s.take(p.len() as int) == p {
        t + replace_seq(s.skip(p.len() as int), p, t)
    } else {
        seq![s[0]] + replace_seq(s.drop_first(), p, t)
    }
}

/// `s` with every occurrence of `p` replaced by `t`.
pub fn replace_chars(s: &Vec<char>, p: &Vec<char>, t: &Vec<char>) -> (r: Vec<char>)
    ensures
        r@ == replace_seq(s@, p@, t@),
{
    let mut r: Vec<char> = Vec::new();
    let mut i: usize = 0;
    assert(s@.skip(0) =~= s@);
    while i < s.len()
        invariant
            i <= s.len(),
            r@ + replace_seq(s@.skip(i as int), p@, t@) == replace_seq(s@, p@, t@),
        decreases s.len() - i,
    {
        let ghost rest = s@.skip(i as int);
        if p.len() == 0 {
            append_chars(&mut r, t);
            r.push(s[i]);
            assert(rest.drop_first() =~= s@.skip(i + 1));
            assert(rest[0] == s@[i as int]);
            assert(r@ + replace_seq(s@.skip(i + 1), p@, t@) =~= r@.drop_last().subrange(0, r@.len() - 1 - t@.len()) + (t@ + seq![rest[0]] + replace_seq(rest.drop_first(), p@, t@)));
            i = i + 1;
        } else if p.len() > s.len() - i {
            assert(rest.len() < p@.len());
            append_chars(&mut r, &slice_chars(s, i, s.len()));
            assert(rest =~= s@.subrange(i as int, s.len() as int));
            assert(s@.skip(s.len() as int).len() == 0);
            i = s.len();
            assert(replace_seq(s@.skip(i as int), p@, t@) =~= seq![]);
        } else if matches_at_exec(s, p, i) {
            assert(rest.take(p.len() as int) =~= s@.subrange(i as int, i + p.len()));
            assert(rest.skip(p.len() as int) =~= s@.skip(i + p.len()));
            append_chars(&mut r, t);
            i = i + p.len();
        } else {
            assert(rest.take(p.len() as int) =~= s@.subrange(i as int, i + p.len()));
            assert(rest.drop_first() =~= s@.skip(i + 1));
            r.push(s[i]);
            i = i + 1;
        }
    }
    if p.len() == 0 {
        append_chars(&mut r, t);
    }
    proof {
        assert(s@.skip(i as int).len() == 0);
    }
    r
}

/// Appends the characters of `t` to `r`.
pub fn append_chars(r: &mut Vec<char>, t: &Vec<char>)
    ensures
        final(r)@ == old(r)@ + t@,
{
    let mut k: usize = 0;
    while k < t.len()
        invariant
            k <= t.len(),
            r@ == old(r)@ + t@.take(k as int),
        decreases t.len() - k,
    {
        r.push(t[k]);
        assert(t@.take(k + 1) =~= t@.take(k as int).push(t@[k as int]));
        k = k + 1;
    }
    assert(t@.take(t.len() as int) =~= t@);
}


/// Length of the run of non-whitespace characters at the start of `s`.
pub open spec fn token_len(s: Seq<char>) -> nat
    decreases s.len(),
{
    if s.len() == 0 || is_ws(s[0]) {
        0
    } else {
        1 + token_len(s.drop_first())
    }
}

pub proof fn lemma_token_len_bound(s: Seq<char>)
    ensures
        token_len(s) <= s.len(),
    decreases s.len(),
{
    if s.len() > 0 && !is_ws(s[0]) {
        lemma_token_len_bound(s.drop_first());
    }
}

/// The maximal whitespace-free runs of `s`, in order (`str::split_whitespace`).
pub open spec fn words_seq(s: Seq<char>) -> Seq<Seq<char>>
    decreases s.len(),
{
    if s.len() == 0 {
        seq![]
    } else if is_ws(s[0]) {
        words_seq(s.drop_first())
    } else {
        let n = token_len(s);
        proof {
            lemma_token_len_bound(s);
        }
        seq![s.take(n as int)] + words_seq(s.skip(n as int))
    }
}

/// The views of a sequence of character vectors.
pub open spec fn seqs_of(v: Seq<Vec<char>>) -> Seq<Seq<char>> {
    v.map_values(|x: Vec<char>| x@)
}

proof fn lemma_token_len_run(s: Seq<char>, i: int, j: int)
    requires
        0 <= i <= j <= s.len(),
        forall|k: int| i <= k < j ==> !is_ws(#[trigger] s[k]),
        j == s.len() || is_ws(s[j]),
    ensures
        token_len(s.skip(i)) == j - i,
    decreases j - i,
{
    if i < j {
        lemma_token_len_run(s, i + 1, j);
        assert(s.skip(i).drop_first() =~= s.skip(i + 1));
    } else {
        if j < s.len() {
            assert(s.skip(i)[0] == s[j]);
        }
    }
}

/// The whitespace-separated words of `s`.
pub fn split_whitespace_chars(s: &Vec<char>) -> (r: Vec<Vec<char>>)
    ensures
        seqs_of(r@) == words_seq(s@),
{
    let mut r: Vec<Vec<char>> = Vec::new();
    let mut i: usize = 0;
    assert(s@.skip(0) =~= s@);
    while i < s.len()
        invariant
            i <= s.len(),
            seqs_of(r@) + words_seq(s@.skip(i as int)) == words_seq(s@),
        decreases s.len() - i,
    {
        let ghost rest = s@.skip(i as int);
        if is_whitespace(s[i]) {
            assert(rest.drop_first() =~= s@.skip(i + 1));
            i = i + 1;
        } else {
            let mut j = i;
            while j < s.len() && !is_whitespace(s[j])
                invariant
                    i <= j <= s.len(),
                    forall|k: int| i <= k < j ==> !is_ws(#[trigger] s@[k]),
                decreases s.len() - j,
            {
                j = j + 1;
            }
            proof {
                lemma_token_len_run(s@, i as int, j as int);
                assert(rest.take(j - i) =~= s@.subrange(i as int, j as int));
                assert(rest.skip(j - i) =~= s@.skip(j as int));
            }
            let w = slice_chars(s, i, j);
            let ghost before = r@;
            r.push(w);
            assert(seqs_of(r@) =~= seqs_of(before) + seq![w@]);
            i = j;
        }
    }
    assert(s@.skip(i as int).len() == 0);
    assert(seqs_of(r@) + seq![] =~= seqs_of(r@));
    r
}

/// The parts joined with `sep` between consecutive parts (`[T]::join`).
pub open spec fn join_seq(parts: Seq<Seq<char>>, sep: Seq<char>) -> Seq<char>
    decreases parts.len(),
{
    if parts.len() == 0 {
        seq![]
    } else if parts.len() == 1 {
        parts[0]
    } else {
        join_seq(parts.drop_last(), sep) + sep + parts.last()
    }
}

/// The parts of `parts` in `[lo, hi)` joined with `sep`.
pub fn join_chars(parts: &Vec<Vec<char>>, lo: usize, sep: &Vec<char>) -> (r: Vec<char>)
    requires
        lo <= parts.len(),
    ensures
        r@ == join_seq(seqs_of(parts@).skip(lo as int), sep@),
{
    let mut r: Vec<char> = Vec::new();
    let mut i = lo;
    while i < parts.len()
        invariant
            lo <= i <= parts.len(),
            r@ == join_seq(seqs_of(parts@).subrange(lo as int, i as int), sep@),
        decreases parts.len() - i,
    {
        let ghost prev = seqs_of(parts@).subrange(lo as int, i as int);
        let ghost next = seqs_of(parts@).subrange(lo as int, i + 1);
        assert(next.drop_last() =~= prev);
        if i > lo {
            append_chars(&mut r, sep);
        }
        append_chars(&mut r, &parts[i]);
        proof {
            if i == lo {
                assert(prev.len() == 0);
                assert(r@ =~= next[0]);
            }
        }
        i = i + 1;
    }
    assert(seqs_of(parts@).subrange(lo as int, parts.len() as int) =~= seqs_of(parts@).skip(lo as int));
    r
}

/// The character for a decimal digit.
pub open spec fn digit_char(d: nat) -> char {
    if d == 0 { '0' } else if d == 1 { '1' } else if d == 2 { '2' } else if d == 3 { '3' }
    else if d == 4 { '4' } else if d == 5 { '5' } else if d == 6 { '6' } else if d == 7 { '7' }
    else if d == 8 { '8' } else { '9' }
}

/// Decimal notation of `n`, as `Display` writes it.
pub open spec fn decimal_seq(n: nat) -> Seq<char>
    decreases n,
{
    if n < 10 {
        seq![digit_char(n)]
    } else {
        decimal_seq(n / 10).push(digit_char(n % 10))
    }
}

/// Decimal notation of a signed integer, with a leading `-` when negative.
pub open spec fn signed_decimal_seq(n: int) -> Seq<char> {
    if n < 0 {
        seq!['-'] + decimal_seq((-n) as nat)
    } else {
        decimal_seq(n as nat)
    }
}

fn digit(d: u64) -> (c: char)
    requires
        d < 10,
    ensures
        c == digit_char(d as nat),
{
    if d == 0 { '0' } else if d == 1 { '1' } else if d == 2 { '2' } else if d == 3 { '3' }
    else if d == 4 { '4' } else if d == 5 { '5' } else if d == 6 { '6' } else if d == 7 { '7' }
    else if d == 8 { '8' } else { '9' }
}

/// Decimal digits of `n`.
pub fn decimal_chars(n: u64) -> (r: Vec<char>)
    ensures
        r@ == decimal_seq(n as nat),
    decreases n,
{
    if n < 10 {
        let mut v: Vec<char> = Vec::new();
        v.push(digit(n));
        assert(v@ =~= seq![digit_char(n as nat)]);
        v
    } else {
        let mut v = decimal_chars(n / 10);
        v.push(digit(n % 10));
        v
    }
}

/// Decimal notation of `n` as a string (`n.to_string()`).
pub fn u64_to_string(n: u64) -> (s: String)
    ensures
        s@ == decimal_seq(n as nat),
{
    string_of(&decimal_chars(n))
}

/// Decimal notation of a signed `n` as a string (`n.to_string()`).
pub fn i64_to_string(n: i64) -> (s: String)
    ensures
        s@ == signed_decimal_seq(n as int),
{
    if n < 0 {
        let m: u64 = if n == i64::MIN { 9223372036854775808u64 } else { (-n) as u64 };
        let mut v: Vec<char> = Vec::new();
        v.push('-');
        append_chars(&mut v, &decimal_chars(m));
        assert(v@ =~= seq!['-'] + decimal_seq((-(n as int)) as nat));
        string_of(&v)
    } else {
        u64_to_string(n as u64)
    }
}


/// Value of an ASCII decimal digit.
pub open spec fn digit_value(c: char) -> nat {
    (c as u32 - '0' as u32) as nat
}

/// Whether `c` is an ASCII decimal digit.
pub open spec fn is_digit(c: char) -> bool {
    '0' <= c && c <= '9'
}

/// Value of a run of decimal digits.
pub open spec fn digits_value(s: Seq<char>) -> nat
    decreases s.len(),
{
    if s.len() == 0 {
        0
    } else {
        digits_value(s.drop_last()) * 10 + digit_value(s.last())
    }
}

/// Whether every character of `s` is a decimal digit.
pub open spec fn all_digits(s: Seq<char>) -> bool {
    forall|i: int| 0 <= i < s.len() ==> is_digit(#[trigger] s[i])
}

/// The digits of an unsigned number's text: without a leading `+`.
pub open spec fn unsigned_body(s: Seq<char>) -> Seq<char> {
    if s.len() > 0 && s[0] == '+' { s.drop_first() } else { s }
}

/// What `str::parse::<u64>` accepts and returns: an optional `+`, then at
/// least one decimal digit and nothing else, with a value that fits.
pub open spec fn parse_u64_spec(s: Seq<char>) -> Option<u64> {
    let body = unsigned_body(s);
    if body.len() > 0 && all_digits(body) && digits_value(body) <= u64::MAX {
        Some(digits_value(body) as u64)
    } else {
        None
    }
}

proof fn lemma_digits_value_prefix(s: Seq<char>, i: int)
    requires
        0 <= i <= s.len(),
    ensures
        digits_value(s.take(i)) <= digits_value(s),
    decreases s.len() - i,
{
    if i < s.len() {
        lemma_digits_value_prefix(s, i + 1);
        assert(s.take(i + 1).drop_last() =~= s.take(i));
    } else {
        assert(s.take(i) =~= s);
    }
}

/// Parses a decimal `u64` as `str::parse::<u64>` does.
pub fn parse_u64(s: &str) -> (r: Option<u64>)
    ensures
        r == parse_u64_spec(s@),
{
    let v = chars_of(s);
    let start: usize = if v.len() > 0 && v[0] == '+' { 1 } else { 0 };
    let ghost body = unsigned_body(s@);
    assert(body =~= v@.skip(start as int));
    if start >= v.len() {
        return None;
    }
    let mut acc: u64 = 0;
    let mut i: usize = start;
    while i < v.len()
        invariant
            start <= i <= v.len(),
            start < v.len(),
            v@ == s@,
            body == unsigned_body(s@),
            body == v@.skip(start as int),
            acc as nat == digits_value(body.take(i - start)),
            forall|j: int| 0 <= j < i - start ==> is_digit(#[trigger] body[j]),
        decreases v.len() - i,
    {
        let c = v[i];
        let ghost k = (i - start) as int;
        assert(body[k] == c);
        assert(body.take(k + 1).drop_last() =~= body.take(k));
        if !('0' <= c && c <= '9') {
            assert(!is_digit(body[k]));
            assert(!all_digits(body));
            return None;
        }
        let d: u64 = ((c as u32) - ('0' as u32)) as u64;
        if acc > (u64::MAX - d) / 10 {
            proof {
                assert(digits_value(body.take(k + 1)) == acc * 10 + d);
                lemma_digits_value_prefix(body, k + 1);
            }
            return None;
        }
        acc = acc * 10 + d;
        i = i + 1;
    }
    assert(body.take(body.len() as int) =~= body);
    Some(acc)
}

/// Length of the run of characters other than `c` at the start of `s`.
pub open spec fn piece_len(s: Seq<char>, c: char) -> nat
    decreases s.len(),
{
    if s.len() == 0 || s[0] == c {
        0
    } else {
        1 + piece_len(s.drop_first(), c)
    }
}

pub proof fn lemma_piece_len_bound(s: Seq<char>, c: char)
    ensures
        piece_len(s, c) <= s.len(),
        piece_len(s, c) < s.len() ==> s[piece_len(s, c) as int] == c,
        forall|k: int| 0 <= k < piece_len(s, c) ==> s[k] != c,
    decreases s.len(),
{
    if s.len() > 0 && s[0] != c {
        lemma_piece_len_bound(s.drop_first(), c);
        assert forall|k: int| 0 <= k < piece_len(s, c) implies s[k] != c by {
            if k > 0 {
                assert(s[k] == s.drop_first()[k - 1]);
            }
        }
    }
}

proof fn lemma_piece_len_run(s: Seq<char>, c: char, i: int, j: int)
    requires
        0 <= i <= j <= s.len(),
        forall|k: int| i <= k < j ==> #[trigger] s[k] != c,
        j == s.len() || s[j] == c,
    ensures
        piece_len(s.skip(i), c) == j - i,
    decreases j - i,
{
    if i < j {
        lemma_piece_len_run(s, c, i + 1, j);
        assert(s.skip(i).drop_first() =~= s.skip(i + 1));
    } else {
        if j < s.len() {
            assert(s.skip(i)[0] == s[j]);
        }
    }
}

/// The pieces of `s` between occurrences of `c` (`str::split` with a char);
/// always at least one piece.
pub open spec fn split_seq(s: Seq<char>, c: char) -> Seq<Seq<char>>
    decreases s.len(),
{
    let n = piece_len(s, c);
    proof {
        lemma_piece_len_bound(s, c);
    }
    if n >= s.len() {
        seq![s]
    } else {
        seq![s.take(n as int)] + split_seq(s.skip((n + 1) as int), c)
    }
}

/// Index of the first `c` in `v` at or after `from`, or `v.len()`.
pub fn next_char_index(v: &Vec<char>, from: usize, c: char) -> (j: usize)
    requires
        from <= v.len(),
    ensures
        from <= j <= v.len(),
        forall|k: int| from <= k < j ==> #[trigger] v@[k] != c,
        j < v.len() ==> v@[j as int] == c,
        piece_len(v@.skip(from as int), c) == j - from,
{
    let mut j = from;
    while j < v.len() && v[j] != c
        invariant
            from <= j <= v.len(),
            forall|k: int| from <= k < j ==> #[trigger] v@[k] != c,
        decreases v.len() - j,
    {
        j = j + 1;
    }
    proof {
        lemma_piece_len_run(v@, c, from as int, j as int);
    }
    j
}

/// The pieces of `s` between occurrences of `c`.
pub fn split_chars(s: &Vec<char>, c: char) -> (r: Vec<Vec<char>>)
    ensures
        seqs_of(r@) == split_seq(s@, c),
{
    let mut r: Vec<Vec<char>> = Vec::new();
    let mut i: usize = 0;
    assert(s@.skip(0) =~= s@);
    loop
        invariant
            i <= s.len(),
            seqs_of(r@) + split_seq(s@.skip(i as int), c) == split_seq(s@, c),
        decreases s.len() - i,
    {
        let ghost rest = s@.skip(i as int);
        let j = next_char_index(s, i, c);
        let piece = slice_chars(s, i, j);
        let ghost before = r@;
        r.push(piece);
        assert(seqs_of(r@) =~= seqs_of(before) + seq![piece@]);
        if j == s.len() {
            assert(piece@ =~= rest);
            assert(seqs_of(r@) =~= seqs_of(before) + split_seq(rest, c));
            return r;
        }
        assert(rest.take(j - i) =~= piece@);
        assert(rest.skip(j - i + 1) =~= s@.skip(j + 1));
        i = j + 1;
    }
}

/// A line without its carriage-return ending.
pub open spec fn strip_cr(l: Seq<char>) -> Seq<char> {
    if l.len() > 0 && l.last() == '\r' {
        l.drop_last()
    } else {
        l
    }
}

/// The lines of `s` (`str::lines`): split after each `\n`, the `\n` and one
/// `\r` before it removed; a final line ending adds no empty line.
pub open spec fn lines_seq(s: Seq<char>) -> Seq<Seq<char>>
    decreases s.len(),
{
    let n = piece_len(s, '\n');
    proof {
        lemma_piece_len_bound(s, '\n');
    }
    if s.len() == 0 {
        seq![]
    } else if n >= s.len() {
        seq![s]
    } else {
        seq![strip_cr(s.take(n as int))] + lines_seq(s.skip((n + 1) as int))
    }
}

/// The lines of `s`.
pub fn lines_chars(s: &Vec<char>) -> (r: Vec<Vec<char>>)
    ensures
        seqs_of(r@) == lines_seq(s@),
{
    let mut r: Vec<Vec<char>> = Vec::new();
    let mut i: usize = 0;
    assert(s@.skip(0) =~= s@);
    while i < s.len()
        invariant
            i <= s.len(),
            seqs_of(r@) + lines_seq(s@.skip(i as int)) == lines_seq(s@),
        decreases s.len() - i,
    {
        let ghost rest = s@.skip(i as int);
        let j = next_char_index(s, i, '\n');
        let ghost before = r@;
        if j == s.len() {
            let piece = slice_chars(s, i, j);
            r.push(piece);
            assert(seqs_of(r@) =~= seqs_of(before) + seq![piece@]);
            assert(piece@ =~= rest);
            assert(s@.skip(j as int).len() == 0);
            assert(seqs_of(r@) + lines_seq(s@.skip(j as int)) =~= seqs_of(before) + lines_seq(rest));
            i = j;
        } else {
            let hi = if j > i && s[j - 1] == '\r' { j - 1 } else { j };
            let piece = slice_chars(s, i, hi);
            r.push(piece);
            assert(seqs_of(r@) =~= seqs_of(before) + seq![piece@]);
            assert(rest.take(j - i) =~= s@.subrange(i as int, j as int));
            assert(strip_cr(rest.take(j - i)) =~= piece@);
            assert(rest.skip(j - i + 1) =~= s@.skip(j + 1));
            i = j + 1;
        }
    }
    assert(s@.skip(i as int).len() == 0);
    assert(seqs_of(r@) + seq![] =~= seqs_of(r@));
    r
}

/// Number of bytes in the UTF-8 encoding of `c`.
pub open spec fn utf8_width(c: char) -> nat {
    encode_scalar(c as u32).len()
}

/// Number of bytes in the UTF-8 encoding of `c`.
pub fn char_width(c: char) -> (w: usize)
    ensures
        w == utf8_width(c),
        1 <= w <= 4,
{
    let u = c as u32;
    proof {
        vstd::utf8::char_is_scalar(c);
    }
    if u <= 0x7f {
        1
    } else if u <= 0x7ff {
        2
    } else if u <= 0xffff {
        3
    } else {
        4
    }
}

pub proof fn lemma_encode_len(s: Seq<char>)
    ensures
        s.len() > 0 ==> encode_utf8(s).len() == utf8_width(s[0]) + encode_utf8(s.drop_first()).len(),
        encode_utf8(s).len() >= s.len(),
    decreases s.len(),
{
    if s.len() > 0 {
        vstd::utf8::char_is_scalar(s[0]);
        lemma_encode_len(s.drop_first());
    }
}

/// Number of leading characters of `s` whose UTF-8 encoding is exactly `k`
/// bytes long, if `k` falls on a character boundary.
pub open spec fn chars_in_bytes(s: Seq<char>, k: int) -> Option<nat>
    decreases s.len(),
{
    if k == 0 {
        Some(0)
    } else if s.len() == 0 || k < 0 {
        None
    } else {
        match chars_in_bytes(s.drop_first(), k - utf8_width(s[0])) {
            Some(n) => Some(n + 1),
            None => None,
        }
    }
}

/// A count of leading characters never exceeds the length.
pub proof fn lemma_chars_in_bytes_bound(s: Seq<char>, k: int)
    ensures
        chars_in_bytes(s, k) matches Some(n) ==> n <= s.len(),
    decreases s.len(),
{
    if k != 0 && s.len() > 0 && k >= 0 {
        lemma_chars_in_bytes_bound(s.drop_first(), k - utf8_width(s[0]));
    }
}

/// The number of leading characters of `v` that fill exactly `k` bytes, if any.
pub fn chars_in_bytes_exec(v: &Vec<char>, k: usize) -> (r: Option<usize>)
    ensures
        r == (match chars_in_bytes(v@, k as int) {
            Some(n) => Some(n as usize),
            None => None::<usize>,
        }),
        r matches Some(n) ==> n <= v.len() && chars_in_bytes(v@, k as int) == Some(n as nat),
{
    proof {
        lemma_chars_in_bytes_bound(v@, k as int);
    }
    let mut i: usize = 0;
    let mut used: usize = 0;
    assert(v@.skip(0) =~= v@);
    while i < v.len() && used < k
        invariant
            i <= v.len(),
            used <= k,
            used < k ==> chars_in_bytes(v@, k as int) == (match chars_in_bytes(v@.skip(i as int), k - used) {
                Some(n) => Some((n + i) as nat),
                None => None,
            }),
            used == k ==> chars_in_bytes(v@, k as int) == Some(i as nat),
        decreases v.len() - i,
    {
        let w = char_width(v[i]);
        assert(v@.skip(i as int).drop_first() =~= v@.skip(i + 1));
        assert(v@.skip(i as int)[0] == v@[i as int]);
        if w > k - used {
            assert(chars_in_bytes(v@.skip(i + 1), (k - used) - w) is None);
            return None;
        }
        used = used + w;
        i = i + 1;
    }
    if used == k {
        Some(i)
    } else {
        assert(v@.skip(i as int).len() == 0);
        None
    }
}


/// Length in bytes of the UTF-8 encoding of `s`.
pub open spec fn utf8_len(s: Seq<char>) -> nat
    decreases s.len(),
{
    if s.len() == 0 {
        0
    } else {
        utf8_width(s[0]) + utf8_len(s.drop_first())
    }
}

/// Whether the UTF-8 encoding of `v` is longer than `k` bytes.
pub fn utf8_len_exceeds(v: &Vec<char>, k: usize) -> (r: bool)
    ensures
        r == (utf8_len(v@) > k),
{
    let mut used: usize = 0;
    let mut i: usize = 0;
    assert(v@.skip(0) =~= v@);
    while i < v.len()
        invariant
            i <= v.len(),
            used <= k,
            utf8_len(v@) == used + utf8_len(v@.skip(i as int)),
        decreases v.len() - i,
    {
        assert(v@.skip(i as int).drop_first() =~= v@.skip(i + 1));
        assert(v@.skip(i as int)[0] == v@[i as int]);
        let w = char_width(v[i]);
        if w > k - used {
            return true;
        }
        used = used + w;
        i = i + 1;
    }
    assert(v@.skip(i as int).len() == 0);
    false
}

/// What `str::to_lowercase` returns for the given characters (Unicode
/// lowercase mapping, which may change the length of the text).
pub uninterp spec fn lowercase_of(s: Seq<char>) -> Seq<char>;

/// Lowercases `s` with `str::to_lowercase`.
/// Claimed: the result is the fixed function `lowercase_of` of the input
/// characters; nothing more is stated of the Unicode case mapping.
#[verifier::external_body]
pub(crate) fn to_lowercase(s: &str) -> (r: String)
    ensures
        r@ == lowercase_of(s@),
{
    s.to_lowercase()
}

/// What the `Debug` format of a `str` writes: the text in double quotes with
/// special characters escaped.
pub uninterp spec fn debug_quoted_of(s: Seq<char>) -> Seq<char>;

/// Formats `s` with `{:?}`.
/// Claimed: the result is the fixed function `debug_quoted_of` of the input
/// characters; the escaping rules themselves are not stated.
#[verifier::external_body]
pub(crate) fn debug_quoted(s: &str) -> (r: String)
    ensures
        r@ == debug_quoted_of(s@),
{
    format!("{:?}", s)
}

/// View of an optional string.
pub open spec fn opt_view(o: Option<String>) -> Option<Seq<char>> {
    match o {
        Some(s) => Some(s@),
        None => None,
    }
}

/// A copy of an optional string.
pub fn clone_opt(o: &Option<String>) -> (r: Option<String>)
    ensures
        opt_view(r) == opt_view(*o),
{
    match o {
        Some(s) => Some(s.clone()),
        None => None,
    }
}

/// A copy of a list of strings.
pub fn clone_strings(v: &Vec<String>) -> (r: Vec<String>)
    ensures
        r.deep_view() == v.deep_view(),
{
    let mut r: Vec<String> = Vec::new();
    let mut i: usize = 0;
    while i < v.len()
        invariant
            i <= v.len(),
            r.len() == i,
            r.deep_view() == v.deep_view().take(i as int),
        decreases v.len() - i,
    {
        let c = v[i].clone();
        let ghost before = r@;
        r.push(c);
        assert(r@ == before.push(c));
        assert(c@ == v@[i as int]@);
        assert forall|j: int| 0 <= j < i + 1 implies r.deep_view()[j] == v.deep_view().take(i + 1)[j] by {
            if j < i {
                assert(r@[j] == before[j]);
            }
        }
        assert(r.deep_view() =~= v.deep_view().take(i + 1));
        i = i + 1;
    }
    assert(v.deep_view().take(v.len() as int) =~= v.deep_view());
    r
}

/// The string `s` followed by `t`.
pub fn concat(s: &str, t: &str) -> (r: String)
    ensures
        r@ == s@ + t@,
{
    let mut r = String::from_str(s);
    r.append(t);
    r
}


/// The strings joined with `sep` between consecutive ones.
pub fn join_strings(parts: &Vec<String>, sep: &str) -> (r: String)
    ensures
        r@ == join_seq(parts.deep_view(), sep@),
{
    let mut r = String::new();
    let mut i: usize = 0;
    while i < parts.len()
        invariant
            i <= parts.len(),
            r@ == join_seq(parts.deep_view().take(i as int), sep@),
        decreases parts.len() - i,
    {
        let ghost prev = parts.deep_view().take(i as int);
        let ghost next = parts.deep_view().take(i + 1);
        assert(next.drop_last() =~= prev);
        if i > 0 {
            r.append(sep);
        }
        r.append(parts[i].as_str());
        proof {
            if i == 0 {
                assert(r@ =~= next[0]);
            }
        }
        i = i + 1;
    }
    assert(parts.deep_view().take(parts.len() as int) =~= parts.deep_view());
    r
}

} // verus!
