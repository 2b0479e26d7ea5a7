//! Character-level helpers shared by the parsers and formatters of the crate.

use vstd::prelude::*;

verus! {

broadcast use vstd::string::group_string_axioms;

/// Compares two string slices for equality, character by character.
pub fn str_equal(a: &str, b: &str) -> (res: bool)
    ensures
        res == (a@ == b@),
{
    let x = chars_of(a);
    let y = chars_of(b);
    if x.len() != y.len() {
        return false;
    }
    let mut i: usize = 0;
    while i < x.len()
        invariant
            i <= x@.len(),
            x@.len() == y@.len(),
            x@ == a@,
            y@ == b@,
            forall|j: int| 0 <= j < i ==> x@[j] == y@[j],
        decreases x.len() - i,
    {
        if x[i] != y[i] {
            return false;
        }
        i = i + 1;
    }
    assert(x@ =~= y@);
    true
}

/// Appends one character to a string (std's `String::push`).
#[verifier::external_body]
pub(crate) fn push_char(s: &mut String, c: char)
    ensures
        final(s)@ == old(s)@.push(c),
{
    s.push(c)
}

/// The characters of a string slice, in order.
pub fn chars_of(s: &str) -> (v: Vec<char>)
    ensures
        v@ == s@,
{
    let mut v: Vec<char> = Vec::new();
    let n = s.unicode_len();
    let mut i: usize = 0;
    while i < n
        invariant
            n == s@.len(),
            i <= n,
            v@ == s@.subrange(0, i as int),
        decreases n - i,
    {
        let c = s.get_char(i);
        v.push(c);
        i = i + 1;
    }
    v
}

/// Builds a string from a run of characters.
pub fn string_from_chars(v: &[char]) -> (s: String)
    ensures
        s@ == v@,
{
    let mut s = String::new();
    let mut i: usize = 0;
    while i < v.len()
        invariant
            i <= v.len(),
            s@ == v@.subrange(0, i as int),
        decreases v.len() - i,
    {
        push_char(&mut s, v[i]);
        i = i + 1;
    }
    s
}

/// Builds a string from the characters `v[from..to]`.
pub fn string_from_range(v: &[char], from: usize, to: usize) -> (s: String)
    requires
        from <= to <= v.len(),
    ensures
        s@ == v@.subrange(from as int, to as int),
{
    let mut s = String::new();
    let mut i: usize = from;
    while i < to
        invariant
            from <= i <= to <= v.len(),
            s@ == v@.subrange(from as int, i as int),
        decreases to - i,
    {
        push_char(&mut s, v[i]);
        i = i + 1;
    }
    s
}

/// An owned copy of a string slice.
pub fn owned(s: &str) -> (r: String)
    ensures
        r@ == s@,
{
    s.to_string()
}

/// Concatenation of two string slices.
pub fn concat2(a: &str, b: &str) -> (r: String)
    ensures
        r@ == a@ + b@,
{
    let mut r = owned(a);
    r.append(b);
    r
}

/// Concatenation of three string slices.
pub fn concat3(a: &str, b: &str, c: &str) -> (r: String)
    ensures
        r@ == a@ + b@ + c@,
{
    let mut r = owned(a);
    r.append(b);
    r.append(c);
    r
}

/// `true` when `p` occurs in `s` at position `i`.
pub open spec fn occurs_at(s: Seq<char>, p: Seq<char>, i: int) -> bool {
    0 <= i && i + p.len() <= s.len() && s.subrange(i, i + p.len()) == p
}

/// `true` when `p` occurs somewhere in `s`.
pub open spec fn contains_seq(s: Seq<char>, p: Seq<char>) -> bool {
    exists|i: int| occurs_at(s, p, i)
}

/// Whether `p` occurs in `v` at position `i`.
pub fn matches_at(v: &[char], p: &[char], i: usize) -> (b: bool)
    ensures
        b == occurs_at(v@, p@, i as int),
{
    if i > v.len() || p.len() > v.len() - i {
        return false;
    }
    let mut k: usize = 0;
    while k < p.len()
        invariant
            i + p.len() <= v.len(),
            k <= p.len(),
            forall|j: int| 0 <= j < k ==> v@[i + j] == p@[j],
        decreases p.len() - k,
    {
        if v[i + k] != p[k] {
            assert(v@.subrange(i as int, i + p.len())[k as int] != p@[k as int]);
            return false;
        }
        k = k + 1;
    }
    assert(v@.subrange(i as int, i + p.len()) =~= p@);
    true
}

/// Whether `p` occurs anywhere in `v`.
pub fn contains_chars(v: &[char], p: &[char]) -> (b: bool)
    ensures
        b == contains_seq(v@, p@),
{
    let mut i: usize = 0;
    while i < v.len()
        invariant
            i <= v.len(),
            forall|j: int| 0 <= j < i ==> !occurs_at(v@, p@, j),
        decreases v.len() - i,
    {
        if matches_at(v, p, i) {
            return true;
        }
        i = i + 1;
    }
    if matches_at(v, p, v.len()) {
        return true;
    }
    assert forall|j: int| !occurs_at(v@, p@, j) by {
        if 0 <= j && j < i {
        } else if j > v.len() {
        }
    }
    false
}


/// Index of the first '\n' in `s`, or `s.len()` when there is none.
pub open spec fn newline_pos(s: Seq<char>) -> int
    decreases s.len(),
{
    if s.len() == 0 {
        0
    } else if s[0] == '\n' {
        0
    } else {
        1 + newline_pos(s.subrange(1, s.len() as int))
    }
}

/// The value of a result whose both sides are strings.
pub open spec fn str_result_view(r: Result<String, String>) -> Result<Seq<char>, Seq<char>> {
    match r {
        Ok(v) => Ok(v@),
        Err(e) => Err(e@),
    }
}

/// The decimal digit for `d` (0 to 9).
pub open spec fn digit_char(d: nat) -> char {
    if d == 0 { '0' } else if d == 1 { '1' } else if d == 2 { '2' } else if d == 3 { '3' }
    else if d == 4 { '4' } else if d == 5 { '5' } else if d == 6 { '6' } else if d == 7 { '7' }
    else if d == 8 { '8' } else { '9' }
}

/// The decimal representation of `n`, as `to_string` writes it.
pub open spec fn decimal(n: nat) -> Seq<char>
    decreases n,
{
    if n < 10 {
        seq![digit_char(n)]
    } else {
        decimal(n / 10).push(digit_char(n % 10))
    }
}

/// The decimal representation of a signed integer, with '-' for negatives.
pub open spec fn signed_decimal(n: int) -> Seq<char> {
    if n < 0 {
        seq!['-'] + decimal((-n) as nat)
    } else {
        decimal(n as nat)
    }
}

fn digit(d: u64) -> (c: char)
    requires
        d < 10,
    ensures
        c == digit_char(d as nat),
{
    if d == 0 { '0' } else if d == 1 { '1' } else if d == 2 { '2' } else if d == 3 { '3' }
    else if d == 4 { '4' } else if d == 5 { '5' } else if d == 6 { '6' } else if d == 7 { '7' }
    else if d == 8 { '8' } else { '9' }
}

/// `n` written in decimal.
pub fn format_u64(n: u64) -> (s: String)
    ensures
        s@ == decimal(n as nat),
    decreases n,
{
    if n < 10 {
        let mut s = String::new();
        push_char(&mut s, digit(n));
        assert(s@ =~= seq![digit_char(n as nat)]);
        s
    } else {
        let mut s = format_u64(n / 10);
        push_char(&mut s, digit(n % 10));
        s
    }
}

/// `n` written in decimal, with '-' for negatives.
pub fn format_i64(n: i64) -> (s: String)
    ensures
        s@ == signed_decimal(n as int),
{
    if n < 0 {
        let m: u64 = if n == i64::MIN {
            9223372036854775808u64
        } else {
            (-n) as u64
        };
        let digits = format_u64(m);
        let r = concat2("-", digits.as_str());
        proof {
            reveal_strlit("-");
            assert("-"@ =~= seq!['-']);
        }
        r
    } else {
        format_u64(n as u64)
    }
}

/// Unicode White_Space, the set that `char::is_whitespace` tests.
pub open spec fn is_ws(c: char) -> bool {
    let u = c as u32;
    (0x9 <= u <= 0xD) || u == 0x20 || u == 0x85 || u == 0xA0 || u == 0x1680 || (0x2000 <= u
        <= 0x200A) || u == 0x2028 || u == 0x2029 || u == 0x202F || u == 0x205F || u == 0x3000
}

/// Whether `c` is Unicode whitespace.
pub fn is_whitespace(c: char) -> (b: bool)
    ensures
        b == is_ws(c),
{
    let u = c as u32;
    (0x9 <= u && u <= 0xD) || u == 0x20 || u == 0x85 || u == 0xA0 || u == 0x1680 || (0x2000 <= u
        && u <= 0x200A) || u == 0x2028 || u == 0x2029 || u == 0x202F || u == 0x205F || u == 0x3000
}

/// Every character of `s` is whitespace (so trimming leaves nothing).
pub open spec fn is_blank(s: Seq<char>) -> bool {
    forall|i: int| 0 <= i < s.len() ==> is_ws(#[trigger] s[i])
}

/// Whether every character of `v` is whitespace.
pub fn all_whitespace(v: &[char]) -> (b: bool)
    ensures
        b == is_blank(v@),
{
    let mut i: usize = 0;
    while i < v.len()
        invariant
            i <= v.len(),
            forall|j: int| 0 <= j < i ==> is_ws(#[trigger] v@[j]),
        decreases v.len() - i,
    {
        if !is_whitespace(v[i]) {
            return false;
        }
        i = i + 1;
    }
    true
}

/// The first newline index lies within `0..=s.len()`.
pub proof fn lemma_newline_pos_bounds(s: Seq<char>)
    ensures
        0 <= newline_pos(s) <= s.len(),
    decreases s.len(),
{
    if s.len() > 0 && s[0] != '\n' {
        lemma_newline_pos_bounds(s.subrange(1, s.len() as int));
    }
}

/// `s` without one trailing '\r', if it has one.
pub open spec fn strip_cr(s: Seq<char>) -> Seq<char> {
    if s.len() > 0 && s[s.len() - 1] == '\r' {
        s.subrange(0, s.len() - 1)
    } else {
        s
    }
}

/// The lines of `s` as `str::lines` yields them: split after each '\n', the
/// line ending ('\n' or "\r\n") removed, and no empty line after a final '\n'.
pub open spec fn lines_of(s: Seq<char>) -> Seq<Seq<char>>
    decreases s.len(),
{
    if s.len() == 0 {
        Seq::empty()
    } else {
        let i = newline_pos(s);
        proof {
            lemma_newline_pos_bounds(s);
        }
        if i >= s.len() {
            seq![s]
        } else {
            seq![strip_cr(s.subrange(0, i))] + lines_of(s.subrange(i + 1, s.len() as int))
        }
    }
}

/// The first newline of `s` is at `k` when none comes before `k` and `k` is the
/// end or holds one.
pub proof fn lemma_newline_pos(s: Seq<char>, k: int)
    requires
        0 <= k <= s.len(),
        forall|i: int| 0 <= i < k ==> s[i] != '\n',
        k == s.len() || s[k] == '\n',
    ensures
        newline_pos(s) == k,
    decreases k,
{
    if s.len() == 0 {
    } else if k == 0 {
    } else {
        let t = s.subrange(1, s.len() as int);
        assert forall|i: int| 0 <= i < k - 1 implies t[i] != '\n' by {
            assert(t[i] == s[i + 1]);
        }
        if k < s.len() {
            assert(t[k - 1] == s[k]);
        }
        lemma_newline_pos(t, k - 1);
    }
}

/// The values of a list of character vectors.
pub open spec fn char_rows(v: Seq<Vec<char>>) -> Seq<Seq<char>> {
    v.map_values(|r: Vec<char>| r@)
}

/// A copy of `v[from..to]`.
pub fn chars_range(v: &[char], from: usize, to: usize) -> (r: Vec<char>)
    requires
        from <= to <= v.len(),
    ensures
        r@ == v@.subrange(from as int, to as int),
{
    let mut r: Vec<char> = Vec::new();
    let mut i = from;
    while i < to
        invariant
            from <= i <= to <= v.len(),
            r@ == v@.subrange(from as int, i as int),
        decreases to - i,
    {
        r.push(v[i]);
        i = i + 1;
    }
    r
}

/// The lines of a run of characters, as `str::lines` yields them.
pub fn split_lines(v: &[char]) -> (r: Vec<Vec<char>>)
    ensures
        char_rows(r@) == lines_of(v@),
{
    let mut r: Vec<Vec<char>> = Vec::new();
    let mut start: usize = 0;
    assert(v@.subrange(0, v@.len() as int) =~= v@);
    assert(char_rows(r@) =~= Seq::<Seq<char>>::empty());
    assert(lines_of(v@) =~= char_rows(r@) + lines_of(v@.subrange(0, v@.len() as int)));
    while start < v.len()
        invariant
            start <= v.len(),
            lines_of(v@) == char_rows(r@) + lines_of(v@.subrange(start as int, v@.len() as int)),
        decreases v.len() - start,
    {
        let ghost rest = v@.subrange(start as int, v@.len() as int);
        let mut j = start;
        while j < v.len() && v[j] != '\n'
            invariant
                start <= j <= v.len(),
                forall|i: int| start <= i < j ==> v@[i] != '\n',
            decreases v.len() - j,
        {
            j = j + 1;
        }
        proof {
            assert forall|i: int| 0 <= i < j - start implies rest[i] != '\n' by {
                assert(rest[i] == v@[start + i]);
            }
            if j < v.len() {
                assert(rest[j - start] == v@[j as int]);
            }
            lemma_newline_pos(rest, j - start);
        }
        if j == v.len() {
            let line = chars_range(v, start, j);
            let ghost old_rows = char_rows(r@);
            proof {
                assert(rest =~= line@);
                assert(lines_of(rest) == seq![rest]);
            }
            r.push(line);
            proof {
                assert(char_rows(r@) =~= old_rows.push(line@));
            }
            start = j;
        } else {
            let end = if j > start && v[j - 1] == '\r' { j - 1 } else { j };
            let line = chars_range(v, start, end);
            let ghost old_rows = char_rows(r@);
            r.push(line);
            proof {
                assert(char_rows(r@) =~= old_rows.push(line@));
                assert(line@ =~= strip_cr(rest.subrange(0, j - start)));
                assert(rest.subrange(j - start + 1, rest.len() as int) =~= v@.subrange(j + 1, v@.len() as int));
            }
            start = j + 1;
        }
    }
    assert(char_rows(r@) + lines_of(Seq::<char>::empty()) =~= char_rows(r@));
    assert(v@.subrange(start as int, v@.len() as int) =~= Seq::<char>::empty());
    r
}

/// `s` with `r` written before each character and once more at the end: what
/// replacing every match of the empty pattern gives.
pub open spec fn interleave(s: Seq<char>, r: Seq<char>) -> Seq<char>
    decreases s.len(),
{
    if s.len() == 0 {
        r
    } else {
        r + seq![s[0]] + interleave(s.subrange(1, s.len() as int), r)
    }
}

/// `s` with every non-overlapping occurrence of `p`, taken from the left,
/// replaced by `r` (the empty pattern matches before each character and at the end).
pub open spec fn replace_all_spec(s: Seq<char>, p: Seq<char>, r: Seq<char>) -> Seq<char>
    decreases s.len(),
{
    if p.len() == 0 {
        interleave(s, r)
    } else if s.len() == 0 {
        s
    } else if occurs_at(s, p, 0) {
        r + replace_all_spec(s.subrange(p.len() as int, s.len() as int), p, r)
    } else {
        seq![s[0]] + replace_all_spec(s.subrange(1, s.len() as int), p, r)
    }
}

/// `i` is where `p` first occurs in `s`.
pub open spec fn is_first_occurrence(s: Seq<char>, p: Seq<char>, i: int) -> bool {
    occurs_at(s, p, i) && forall|j: int| 0 <= j < i ==> !occurs_at(s, p, j)
}

/// `s` with the first occurrence of `p` replaced by `r`; `s` itself when `p`
/// does not occur.
pub open spec fn replace_first_spec(s: Seq<char>, p: Seq<char>, r: Seq<char>) -> Seq<char> {
    if exists|i: int| is_first_occurrence(s, p, i) {
        let i = choose|i: int| is_first_occurrence(s, p, i);
        s.subrange(0, i) + r + s.subrange(i + p.len(), s.len() as int)
    } else {
        s
    }
}

/// Appends the characters of `r` to `out`.
pub fn append_chars(out: &mut Vec<char>, r: &[char])
    ensures
        final(out)@ == old(out)@ + r@,
{
    let mut k: usize = 0;
    while k < r.len()
        invariant
            k <= r@.len(),
            out@ == old(out)@ + r@.subrange(0, k as int),
        decreases r.len() - k,
    {
        out.push(r[k]);
        k = k + 1;
        assert(out@ =~= old(out)@ + r@.subrange(0, k as int));
    }
    assert(r@.subrange(0, k as int) =~= r@);
}

/// Every non-overlapping occurrence of `p` in `v`, from the left, replaced by `r`.
pub fn replace_all_chars(v: &[char], p: &[char], r: &[char]) -> (out: Vec<char>)
    ensures
        out@ == replace_all_spec(v@, p@, r@),
{
    let ghost s = v@;
    let n = v.len();
    let mut out: Vec<char> = Vec::new();
    let mut i: usize = 0;
    assert(s.subrange(0, n as int) =~= s);
    if p.len() == 0 {
        while i < n
            invariant
                s == v@,
                n == s.len(),
                p@.len() == 0,
                i <= n,
                out@ + interleave(s.subrange(i as int, n as int), r@) == interleave(s, r@),
            decreases n - i,
        {
            let ghost t = s.subrange(i as int, n as int);
            let ghost before = out@;
            append_chars(&mut out, r);
            out.push(v[i]);
            assert(t.subrange(1, t.len() as int) =~= s.subrange(i + 1, n as int));
            assert(out@ =~= before + r@ + seq![t[0]]);
            assert(out@ + interleave(s.subrange(i + 1, n as int), r@)
                =~= before + (r@ + seq![t[0]] + interleave(t.subrange(1, t.len() as int), r@)));
            i = i + 1;
        }
        let ghost before = out@;
        append_chars(&mut out, r);
        assert(s.subrange(n as int, n as int) =~= Seq::<char>::empty());
        return out;
    }
    while i < n
        invariant
            s == v@,
            n == s.len(),
            p@.len() > 0,
            i <= n,
            out@ + replace_all_spec(s.subrange(i as int, n as int), p@, r@) == replace_all_spec(s, p@, r@),
        decreases n - i,
    {
        let ghost t = s.subrange(i as int, n as int);
        let ghost before = out@;
        let m = p.len();
        if matches_at(v, p, i) {
            assert(t.subrange(0, m as int) =~= s.subrange(i as int, i + m));
            assert(occurs_at(t, p@, 0));
            assert(t.subrange(m as int, t.len() as int) =~= s.subrange(i + m, n as int));
            append_chars(&mut out, r);
            assert(out@ + replace_all_spec(s.subrange(i + m, n as int), p@, r@)
                =~= before + (r@ + replace_all_spec(t.subrange(m as int, t.len() as int), p@, r@)));
            i = i + m;
        } else {
            assert(!occurs_at(t, p@, 0)) by {
                if occurs_at(t, p@, 0) {
                    assert(s.subrange(i as int, i + m) =~= t.subrange(0, m as int));
                }
            }
            out.push(v[i]);
            assert(t.subrange(1, t.len() as int) =~= s.subrange(i + 1, n as int));
            assert(out@ + replace_all_spec(s.subrange(i + 1, n as int), p@, r@)
                =~= before + (seq![t[0]] + replace_all_spec(t.subrange(1, t.len() as int), p@, r@)));
            i = i + 1;
        }
    }
    assert(s.subrange(n as int, n as int) =~= Seq::<char>::empty());
    assert(out@ + Seq::<char>::empty() =~= out@);
    out
}

/// Where `p` first occurs in `v`, if it occurs.
pub fn first_match(v: &[char], p: &[char]) -> (r: Option<usize>)
    ensures
        r matches Some(i) ==> is_first_occurrence(v@, p@, i as int),
        r is None ==> !exists|i: int| is_first_occurrence(v@, p@, i),
{
    let ghost s = v@;
    let mut i: usize = 0;
    while i < v.len()
        invariant
            s == v@,
            i <= v@.len(),
            forall|j: int| 0 <= j < i ==> !occurs_at(s, p@, j),
        decreases v.len() - i,
    {
        if matches_at(v, p, i) {
            return Some(i);
        }
        i = i + 1;
    }
    if matches_at(v, p, i) {
        return Some(i);
    }
    assert forall|k: int| !#[trigger] is_first_occurrence(s, p@, k) by {
        if 0 <= k && k <= s.len() {
            assert(!occurs_at(s, p@, k));
        }
    }
    None
}

/// The first occurrence of `p` in `v` replaced by `r`; `v` unchanged when `p`
/// does not occur.
pub fn replace_first_chars(v: &[char], p: &[char], r: &[char]) -> (out: Vec<char>)
    ensures
        out@ == replace_first_spec(v@, p@, r@),
{
    let ghost s = v@;
    match first_match(v, p) {
        Some(i) => {
            assert forall|k: int| #[trigger] is_first_occurrence(s, p@, k) implies k == i by {
                if k < i {
                } else if k > i {
                    assert(!occurs_at(s, p@, i as int));
                }
            }
            let mut out: Vec<char> = Vec::new();
            let mut k: usize = 0;
            while k < i
                invariant
                    s == v@,
                    i + p@.len() <= s.len(),
                    k <= i,
                    out@ == s.subrange(0, k as int),
                decreases i - k,
            {
                out.push(v[k]);
                k = k + 1;
                assert(out@ =~= s.subrange(0, k as int));
            }
            append_chars(&mut out, r);
            let m: usize = p.len();
            assert(i + m <= v.len());
            let mut k: usize = i + m;
            let ghost mid = out@;
            while k < v.len()
                invariant
                    s == v@,
                    i + p@.len() <= k <= s.len(),
                    out@ == mid + s.subrange(i + p@.len(), k as int),
                decreases v.len() - k,
            {
                out.push(v[k]);
                k = k + 1;
                assert(out@ =~= mid + s.subrange(i + p@.len(), k as int));
            }
            out
        },
        None => {
            let mut out: Vec<char> = Vec::new();
            append_chars(&mut out, v);
            assert(out@ =~= s);
            out
        },
    }
}

/// Index of the first `c` in `s`, or `s.len()` when there is none.
pub open spec fn first_pos(s: Seq<char>, c: char) -> int
    decreases s.len(),
{
    if s.len() == 0 {
        0
    } else if s[0] == c {
        0
    } else {
        1 + first_pos(s.subrange(1, s.len() as int), c)
    }
}

/// The first `c` of `s` is at `k` when none comes before `k` and `k` is the
/// end or holds one.
pub proof fn lemma_first_pos(s: Seq<char>, c: char, k: int)
    requires
        0 <= k <= s.len(),
        forall|i: int| 0 <= i < k ==> s[i] != c,
        k == s.len() || s[k] == c,
    ensures
        first_pos(s, c) == k,
    decreases k,
{
    if s.len() == 0 {
    } else if k == 0 {
    } else {
        let t = s.subrange(1, s.len() as int);
        assert forall|i: int| 0 <= i < k - 1 implies t[i] != c by {
            assert(t[i] == s[i + 1]);
        }
        if k < s.len() {
            assert(t[k - 1] == s[k]);
        }
        lemma_first_pos(t, c, k - 1);
    }
}

/// The first position of `c` lies within `0..=s.len()`.
pub proof fn lemma_first_pos_bounds(s: Seq<char>, c: char)
    ensures
        0 <= first_pos(s, c) <= s.len(),
    decreases s.len(),
{
    if s.len() > 0 && s[0] != c {
        lemma_first_pos_bounds(s.subrange(1, s.len() as int), c);
    }
}

/// The values of a list of strings.
pub open spec fn strs_view(v: Seq<String>) -> Seq<Seq<char>> {
    v.map_values(|s: String| s@)
}

/// A copy of a list of strings.
pub fn copy_strings(v: &Vec<String>) -> (r: Vec<String>)
    ensures
        strs_view(r@) == strs_view(v@),
{
    let mut r: Vec<String> = Vec::new();
    let mut i: usize = 0;
    while i < v.len()
        invariant
            i <= v@.len(),
            r@.len() == i,
            forall|j: int| 0 <= j < i ==> #[trigger] r@[j]@ == v@[j]@,
        decreases v.len() - i,
    {
        r.push(v[i].clone());
        i = i + 1;
    }
    assert(strs_view(r@) =~= strs_view(v@));
    r
}

/// A pattern has at most one first occurrence.
pub proof fn lemma_first_occurrence_unique(s: Seq<char>, p: Seq<char>, i: int, k: int)
    requires
        is_first_occurrence(s, p, i),
        is_first_occurrence(s, p, k),
    ensures
        i == k,
{
    if k < i {
        assert(!occurs_at(s, p, k));
    } else if i < k {
        assert(!occurs_at(s, p, i));
    }
}

/// `s` without its leading whitespace.
pub open spec fn trim_start_ws(s: Seq<char>) -> Seq<char>
    decreases s.len(),
{
    if s.len() > 0 && is_ws(s[0]) {
        trim_start_ws(s.subrange(1, s.len() as int))
    } else {
        s
    }
}

/// `s` without its trailing whitespace.
pub open spec fn trim_end_ws(s: Seq<char>) -> Seq<char>
    decreases s.len(),
{
    if s.len() > 0 && is_ws(s[s.len() - 1]) {
        trim_end_ws(s.subrange(0, s.len() - 1))
    } else {
        s
    }
}

/// `s` without leading and trailing whitespace, as `str::trim` gives it.
pub open spec fn trim_ws(s: Seq<char>) -> Seq<char> {
    trim_end_ws(trim_start_ws(s))
}

/// `s` without leading and trailing whitespace.
pub fn trim(s: &str) -> (r: String)
    ensures
        r@ == trim_ws(s@),
{
    let v = chars_of(s);
    let n = v.len();
    let mut a: usize = 0;
    assert(v@.subrange(0, n as int) =~= v@);
    while a < n && is_whitespace(v[a])
        invariant
            a <= n == v@.len(),
            trim_start_ws(v@) == trim_start_ws(v@.subrange(a as int, n as int)),
        decreases n - a,
    {
        let ghost t = v@.subrange(a as int, n as int);
        assert(t.subrange(1, t.len() as int) =~= v@.subrange(a + 1, n as int));
        a = a + 1;
    }
    let mut b: usize = n;
    assert(v@.subrange(a as int, n as int).subrange(0, (n - a) as int) =~= v@.subrange(a as int, n as int));
    while b > a && is_whitespace(v[b - 1])
        invariant
            a <= b <= n == v@.len(),
            trim_start_ws(v@) == v@.subrange(a as int, n as int),
            trim_ws(v@) == trim_end_ws(v@.subrange(a as int, b as int)),
        decreases b - a,
    {
        let ghost t = v@.subrange(a as int, b as int);
        assert(t.subrange(0, t.len() - 1) =~= v@.subrange(a as int, b - 1));
        b = b - 1;
    }
    string_from_range(v.as_slice(), a, b)
}

/// The values of a list of string pairs.
pub open spec fn string_pairs_view(v: Seq<(String, String)>) -> Seq<(Seq<char>, Seq<char>)> {
    v.map_values(|p: (String, String)| (p.0@, p.1@))
}

/// A copy of a list of string pairs.
pub fn copy_pairs(v: &Vec<(String, String)>) -> (r: Vec<(String, String)>)
    ensures
        string_pairs_view(r@) == string_pairs_view(v@),
{
    let mut r: Vec<(String, String)> = Vec::new();
    let mut i: usize = 0;
    while i < v.len()
        invariant
            i <= v@.len(),
            r@.len() == i,
            forall|j: int| 0 <= j < i ==> (#[trigger] r@[j]).0@ == v@[j].0@ && r@[j].1@ == v@[j].1@,
        decreases v.len() - i,
    {
        r.push((v[i].0.clone(), v[i].1.clone()));
        i = i + 1;
    }
    assert(string_pairs_view(r@) =~= string_pairs_view(v@));
    r
}

/// What `str::to_lowercase` gives for a text.
pub uninterp spec fn lowercased(s: Seq<char>) -> Seq<char>;

/// `s` in lowercase, by `str::to_lowercase` (Unicode lowercase mapping).
#[verifier::external_body]
pub(crate) fn lowercase(s: &str) -> (r: String)
    ensures
        r@ == lowercased(s@),
{
    s.to_lowercase()
}

/// Replacing every occurrence of a non-empty pattern resumes right after an
/// occurrence it replaced: a text that opens with the pattern becomes the
/// replacement followed by the rest with every occurrence replaced (so `p`
/// twice over becomes `r` twice over).
pub proof fn law_replace_all_resumes_after_match(p: Seq<char>, s: Seq<char>, r: Seq<char>)
    requires
        p.len() > 0,
    ensures
        replace_all_spec(p + s, p, r) == r + replace_all_spec(s, p, r),
{
    let t = p + s;
    assert(t.subrange(0, p.len() as int) =~= p);
    assert(occurs_at(t, p, 0));
    assert(t.subrange(p.len() as int, t.len() as int) =~= s);
}

/// A character where the pattern does not start is kept, and replacing goes
/// on from the next one.
pub proof fn law_replace_all_keeps_unmatched_char(c: char, s: Seq<char>, p: Seq<char>, r: Seq<char>)
    requires
        p.len() > 0,
        !occurs_at(seq![c] + s, p, 0),
    ensures
        replace_all_spec(seq![c] + s, p, r) == seq![c] + replace_all_spec(s, p, r),
{
    let t = seq![c] + s;
    assert(t[0] == c);
    assert(t.subrange(1, t.len() as int) =~= s);
}

/// The text with every occurrence replaced holds the pattern's matches as
/// replacements: for a text made of `k` copies of a non-empty pattern, the
/// result is `k` copies of the replacement.
pub proof fn law_replace_all_copies(p: Seq<char>, r: Seq<char>, k: nat)
    requires
        p.len() > 0,
    ensures
        replace_all_spec(copies(p, k), p, r) == copies(r, k),
    decreases k,
{
    if k == 0 {
        assert(copies(p, 0) =~= Seq::<char>::empty());
    } else {
        law_replace_all_copies(p, r, (k - 1) as nat);
        law_replace_all_resumes_after_match(p, copies(p, (k - 1) as nat), r);
    }
}

/// `s` repeated `k` times.
pub open spec fn copies(s: Seq<char>, k: nat) -> Seq<char>
    decreases k,
{
    if k == 0 {
        Seq::empty()
    } else {
        s + copies(s, (k - 1) as nat)
    }
}

/// Replacing every occurrence of a non-empty pattern that does not occur
/// leaves the text as it is.
pub proof fn law_replace_all_without_match(s: Seq<char>, p: Seq<char>, r: Seq<char>)
    requires
        p.len() > 0,
        !contains_seq(s, p),
    ensures
        replace_all_spec(s, p, r) == s,
    decreases s.len(),
{
    if s.len() > 0 {
        let t = s.subrange(1, s.len() as int);
        assert(!occurs_at(s, p, 0));
        assert(!contains_seq(t, p)) by {
            if contains_seq(t, p) {
                let i = choose|i: int| occurs_at(t, p, i);
                assert(s.subrange(i + 1, i + 1 + p.len()) =~= t.subrange(i, i + p.len()));
                assert(occurs_at(s, p, i + 1));
            }
        }
        law_replace_all_without_match(t, p, r);
        assert(seq![s[0]] + t =~= s);
    }
}

/// Replacing the first occurrence of a pattern that does not occur leaves the
/// text as it is.
pub proof fn law_replace_first_without_match(s: Seq<char>, p: Seq<char>, r: Seq<char>)
    requires
        !contains_seq(s, p),
    ensures
        replace_first_spec(s, p, r) == s,
{
    assert(!exists|i: int| is_first_occurrence(s, p, i));
}

/// Replacing a pattern by itself, everywhere, changes nothing.
pub proof fn law_replace_all_by_itself(s: Seq<char>, p: Seq<char>)
    ensures
        replace_all_spec(s, p, p) == s,
    decreases s.len(),
{
    if p.len() == 0 {
        lemma_interleave_empty(s);
        assert(p =~= Seq::<char>::empty());
    } else if s.len() > 0 {
        if occurs_at(s, p, 0) {
            let t = s.subrange(p.len() as int, s.len() as int);
            law_replace_all_by_itself(t, p);
            assert(p + t =~= s);
        } else {
            let t = s.subrange(1, s.len() as int);
            law_replace_all_by_itself(t, p);
            assert(seq![s[0]] + t =~= s);
        }
    }
}

/// Interleaving nothing gives the text back.
proof fn lemma_interleave_empty(s: Seq<char>)
    ensures
        interleave(s, Seq::empty()) == s,
    decreases s.len(),
{
    if s.len() > 0 {
        let t = s.subrange(1, s.len() as int);
        lemma_interleave_empty(t);
        assert(Seq::<char>::empty() + seq![s[0]] + t =~= s);
    } else {
        assert(interleave(s, Seq::empty()) =~= s);
    }
}

/// The text a first replacement gives is the text before the first
/// occurrence, the replacement, and the text after it.
pub proof fn law_replace_first_at_first_occurrence(s: Seq<char>, p: Seq<char>, r: Seq<char>, i: int)
    requires
        is_first_occurrence(s, p, i),
    ensures
        replace_first_spec(s, p, r) == s.subrange(0, i) + r + s.subrange(i + p.len(), s.len() as int),
{
    let k = choose|k: int| is_first_occurrence(s, p, k);
    lemma_first_occurrence_unique(s, p, i, k);
}

} // verus!
