//! Character-sequence helpers used by the rest of the library: building
//! strings, decimal rendering and parsing of integers, and substring tests.

use vstd::prelude::*;
use vstd::string::*;

verus! {

// ---------------------------------------------------------------------------
// Building strings
// ---------------------------------------------------------------------------

/// Appends one character to a string (std's `String::push`).
#[verifier::external_body]
pub(crate) fn push_char(s: &mut String, c: char)
    ensures
        final(s)@ == old(s)@.push(c),
{
    s.push(c);
}

/// Collects the characters of `s` into a vector.
pub fn chars_of(s: &str) -> (v: Vec<char>)
    ensures
        v@ == s@,
{
    let mut v: Vec<char> = Vec::new();
    for c in it: s.chars()
        invariant
            v@ == it.seq().take(it.index() as int),
            it.seq() == s@,
    {
        v.push(c);
    }
    v
}

/// Builds a string holding exactly the given characters.
pub fn string_from_chars(v: &Vec<char>) -> (s: String)
    ensures
        s@ == v@,
{
    let mut s = String::new();
    let mut i: usize = 0;
    while i < v.len()
        invariant
            i <= v.len(),
            s@ == v@.take(i as int),
        decreases v.len() - i,
    {
        push_char(&mut s, v[i]);
        i = i + 1;
        assert(s@ == v@.take(i as int));
    }
    assert(v@.take(v.len() as int) == v@);
    s
}

/// An owned copy of a string slice.
pub fn owned(s: &str) -> (r: String)
    ensures
        r@ == s@,
{
    s.to_owned()
}

/// The concatenation of two string slices.
pub fn concat2(a: &str, b: &str) -> (r: String)
    ensures
        r@ == a@ + b@,
{
    let mut r = a.to_owned();
    r.append(b);
    r
}

/// The concatenation of three string slices.
pub fn concat3(a: &str, b: &str, c: &str) -> (r: String)
    ensures
        r@ == a@ + b@ + c@,
{
    let mut r = a.to_owned();
    r.append(b);
    r.append(c);
    r
}

// ---------------------------------------------------------------------------
// Decimal rendering
// ---------------------------------------------------------------------------

/// The ASCII digit for `d` (for `d < 10`).
pub open spec fn digit_char(d: nat) -> char {
    if d == 0 {
        '0'
    } else if d == 1 {
        '1'
    } else if d == 2 {
        '2'
    } else if d == 3 {
        '3'
    } else if d == 4 {
        '4'
    } else if d == 5 {
        '5'
    } else if d == 6 {
        '6'
    } else if d == 7 {
        '7'
    } else if d == 8 {
        '8'
    } else {
        '9'
    }
}

/// The shortest decimal rendering of `n`, as `to_string` produces it.
pub open spec fn decimal(n: nat) -> Seq<char>
    decreases n,
{
    if n < 10 {
        seq![digit_char(n)]
    } else {
        decimal(n / 10).push(digit_char(n % 10))
    }
}

fn digit_of_value(d: u64) -> (c: char)
    requires
        d < 10,
    ensures
        c == digit_char(d as nat),
{
    if d == 0 {
        '0'
    } else if d == 1 {
        '1'
    } else if d == 2 {
        '2'
    } else if d == 3 {
        '3'
    } else if d == 4 {
        '4'
    } else if d == 5 {
        '5'
    } else if d == 6 {
        '6'
    } else if d == 7 {
        '7'
    } else if d == 8 {
        '8'
    } else {
        '9'
    }
}

fn push_decimal(out: &mut Vec<char>, n: u64)
    ensures
        final(out)@ == old(out)@ + decimal(n as nat),
    decreases n,
{
    if n >= 10 {
        push_decimal(out, n / 10);
    }
    out.push(digit_of_value(n % 10));
}

/// Renders `n` in decimal.
pub fn u64_to_decimal(n: u64) -> (s: String)
    ensures
        s@ == decimal(n as nat),
{
    let mut v: Vec<char> = Vec::new();
    push_decimal(&mut v, n);
    string_from_chars(&v)
}

/// Appends the decimal rendering of `n` to `s`.
pub fn append_decimal(s: &mut String, n: u64)
    ensures
        final(s)@ == old(s)@ + decimal(n as nat),
{
    let d = u64_to_decimal(n);
    s.append(d.as_str());
}

// ---------------------------------------------------------------------------
// Decimal parsing (the grammar of `str::parse` for `u64` and `i64`)
// ---------------------------------------------------------------------------

pub open spec fn is_digit(c: char) -> bool {
    '0' <= c && c <= '9'
}

pub open spec fn digit_value(c: char) -> nat {
    (c as int - '0' as int) as nat
}

pub open spec fn all_digits(s: Seq<char>) -> bool {
    forall|i: int| 0 <= i < s.len() ==> is_digit(#[trigger] s[i])
}

/// The number that a string of decimal digits denotes.
pub open spec fn digits_value(s: Seq<char>) -> nat
    decreases s.len(),
{
    if s.len() == 0 {
        0
    } else {
        digits_value(s.drop_last()) * 10 + digit_value(s.last())
    }
}

/// The digits after an optional leading `+`.
pub open spec fn unsigned_body(s: Seq<char>) -> Seq<char> {
    if s.len() > 0 && s[0] == '+' {
        s.drop_first()
    } else {
        s
    }
}

/// What `s.parse::<u64>()` accepts: an optional `+`, then one or more
/// decimal digits denoting a value that fits in 64 bits.
pub open spec fn parse_u64_spec(s: Seq<char>) -> Option<u64> {
    let d = unsigned_body(s);
    if d.len() > 0 && all_digits(d) && digits_value(d) <= u64::MAX {
        Some(digits_value(d) as u64)
    } else {
        None
    }
}

/// What `s.parse::<i64>()` accepts: an optional `+` or `-`, then one or
/// more decimal digits denoting a value in the range of `i64`.
pub open spec fn parse_i64_spec(s: Seq<char>) -> Option<i64> {
    if s.len() > 0 && s[0] == '-' {
        let d = s.drop_first();
        if d.len() > 0 && all_digits(d) && digits_value(d) <= 0x8000_0000_0000_0000 {
            Some((0 - digits_value(d)) as i64)
        } else {
            None
        }
    } else {
        let d = unsigned_body(s);
        if d.len() > 0 && all_digits(d) && digits_value(d) <= i64::MAX {
            Some(digits_value(d) as i64)
        } else {
            None
        }
    }
}

proof fn lemma_digit_char_value(k: nat)
    requires
        k < 10,
    ensures
        is_digit(digit_char(k)),
        digit_value(digit_char(k)) == k,
{
    if k == 0 {
        assert(digit_value('0') == 0);
    } else if k == 1 {
        assert(digit_value('1') == 1);
    } else if k == 2 {
        assert(digit_value('2') == 2);
    } else if k == 3 {
        assert(digit_value('3') == 3);
    } else if k == 4 {
        assert(digit_value('4') == 4);
    } else if k == 5 {
        assert(digit_value('5') == 5);
    } else if k == 6 {
        assert(digit_value('6') == 6);
    } else if k == 7 {
        assert(digit_value('7') == 7);
    } else if k == 8 {
        assert(digit_value('8') == 8);
    } else {
        assert(digit_value('9') == 9);
    }
}

/// A decimal rendering is a non-empty run of digits denoting the number.
pub proof fn lemma_decimal_digits(n: nat)
    ensures
        decimal(n).len() > 0,
        all_digits(decimal(n)),
        digits_value(decimal(n)) == n,
    decreases n,
{
    lemma_digit_char_value(n % 10);
    if n < 10 {
        assert(decimal(n).drop_last() =~= Seq::<char>::empty());
        assert(digits_value(decimal(n).drop_last()) == 0);
        assert(decimal(n).last() == digit_char(n));
    } else {
        lemma_decimal_digits(n / 10);
        let d = decimal(n);
        assert(d.drop_last() =~= decimal(n / 10));
        assert(d.last() == digit_char(n % 10));
        assert(digits_value(d) == digits_value(decimal(n / 10)) * 10 + digit_value(d.last()));
        assert((n / 10) * 10 + n % 10 == n);
        assert forall|i: int| 0 <= i < d.len() implies is_digit(#[trigger] d[i]) by {
            if i < d.len() - 1 {
                assert(d[i] == decimal(n / 10)[i]);
            }
        }
    }
}

/// The decimal rendering of a number parses back to that number.
pub proof fn decimal_parses_back(n: u64)
    ensures
        parse_u64_spec(decimal(n as nat)) == Some(n),
{
    lemma_decimal_digits(n as nat);
    assert(is_digit(decimal(n as nat)[0]));
}

proof fn lemma_digits_value_take_le(s: Seq<char>, k: int)
    requires
        all_digits(s),
        0 <= k <= s.len(),
    ensures
        digits_value(s.take(k)) <= digits_value(s),
    decreases s.len() - k,
{
    if k < s.len() {
        lemma_digits_value_take_le(s, k + 1);
        assert(s.take(k + 1).drop_last() == s.take(k));
    } else {
        assert(s.take(k) == s);
    }
}

/// Reads the digit string `d`; `None` when it is empty, holds a non-digit,
/// or denotes a value above `limit`.
fn read_digits(d: &Vec<char>, start: usize, limit: u64) -> (r: Option<u64>)
    requires
        start <= d.len(),
        limit >= 9,
    ensures
        ({
            let body = d@.skip(start as int);
            match r {
                Some(v) => body.len() > 0 && all_digits(body) && digits_value(body) <= limit
                    && v == digits_value(body),
                None => !(body.len() > 0 && all_digits(body) && digits_value(body) <= limit),
            }
        }),
{
    let ghost body = d@.skip(start as int);
    if start == d.len() {
        return None;
    }
    let mut acc: u64 = 0;
    let mut i: usize = start;
    while i < d.len()
        invariant
            start <= i <= d.len(),
            body == d@.skip(start as int),
            all_digits(body.take(i - start)),
            acc as nat == digits_value(body.take(i - start)),
            acc <= limit,
            limit >= 9,
        decreases d.len() - i,
    {
        let c = d[i];
        if !('0' <= c && c <= '9') {
            assert(body[i - start] == c);
            return None;
        }
        let dv = (c as u32 - '0' as u32) as u64;
        assert(body.take(i - start + 1).drop_last() == body.take(i - start));
        assert(body.take(i - start + 1).last() == c);
        if acc > (limit - dv) / 10 {
            proof {
                assert(digits_value(body.take(i - start + 1)) == acc * 10 + dv);
                assert(acc * 10 + dv > limit) by (nonlinear_arith)
                    requires
                        acc > (limit - dv) / 10,
                        dv <= 9,
                        limit >= 9,
                ;
                if all_digits(body) {
                    lemma_digits_value_take_le(body, i - start + 1);
                }
            }
            return None;
        }
        proof {
            assert(acc * 10 + dv <= limit) by (nonlinear_arith)
                requires
                    acc <= (limit - dv) / 10,
                    dv <= 9,
                    dv <= limit,
            ;
        }
        acc = acc * 10 + dv;
        i = i + 1;
        assert(all_digits(body.take(i - start)));
    }
    assert(body.take(i - start) == body);
    Some(acc)
}

/// `s.parse::<u64>().ok()`, computed by hand over the same grammar.
pub fn parse_u64(s: &str) -> (r: Option<u64>)
    ensures
        r == parse_u64_spec(s@),
{
    let v = chars_of(s);
    let start: usize = if v.len() > 0 && v[0] == '+' {
        1
    } else {
        0
    };
    assert(v@.skip(start as int) == unsigned_body(s@));
    read_digits(&v, start, u64::MAX)
}

/// `s.parse::<i64>().ok()`, computed by hand over the same grammar.
pub fn parse_i64(s: &str) -> (r: Option<i64>)
    ensures
        r == parse_i64_spec(s@),
{
    let v = chars_of(s);
    if v.len() > 0 && v[0] == '-' {
        assert(v@.skip(1) == s@.drop_first());
        match read_digits(&v, 1, 0x8000_0000_0000_0000u64) {
            Some(m) => {
                if m == 0x8000_0000_0000_0000u64 {
                    Some(i64::MIN)
                } else {
                    Some(0 - (m as i64))
                }
            },
            None => None,
        }
    } else {
        let start: usize = if v.len() > 0 && v[0] == '+' {
            1
        } else {
            0
        };
        assert(v@.skip(start as int) == unsigned_body(s@));
        match read_digits(&v, start, i64::MAX as u64) {
            Some(m) => Some(m as i64),
            None => None,
        }
    }
}

// ---------------------------------------------------------------------------
// Comparisons and substring tests
// ---------------------------------------------------------------------------

/// `t` occurs in `s` as a contiguous block.
pub open spec fn has_infix(s: Seq<char>, t: Seq<char>) -> bool {
    exists|i: int| 0 <= i && i + t.len() <= s.len() && #[trigger] s.subrange(i, i + t.len()) == t
}

/// `s` holds the character `c`.
pub open spec fn has_char(s: Seq<char>, c: char) -> bool {
    exists|i: int| 0 <= i < s.len() && s[i] == c
}

/// `a` sorts strictly before `b` in the order of `String::cmp`: the first
/// differing character decides, and a proper prefix comes first.
pub open spec fn seq_lt(a: Seq<char>, b: Seq<char>) -> bool
    decreases a.len(),
{
    if b.len() == 0 {
        false
    } else if a.len() == 0 {
        true
    } else if a[0] != b[0] {
        a[0] < b[0]
    } else {
        seq_lt(a.drop_first(), b.drop_first())
    }
}

/// `seq_lt` never holds of a sequence and itself.
pub proof fn lemma_seq_lt_irreflexive(a: Seq<char>)
    ensures
        !seq_lt(a, a),
    decreases a.len(),
{
    if a.len() > 0 {
        lemma_seq_lt_irreflexive(a.drop_first());
    }
}

/// `seq_lt` is transitive.
pub proof fn lemma_seq_lt_transitive(a: Seq<char>, b: Seq<char>, c: Seq<char>)
    requires
        seq_lt(a, b),
        seq_lt(b, c),
    ensures
        seq_lt(a, c),
    decreases a.len(),
{
    if a.len() > 0 && b.len() > 0 && c.len() > 0 && a[0] == b[0] && b[0] == c[0] {
        lemma_seq_lt_transitive(a.drop_first(), b.drop_first(), c.drop_first());
    }
}

/// Two different sequences are ordered one way or the other.
pub proof fn lemma_seq_lt_total(a: Seq<char>, b: Seq<char>)
    requires
        a != b,
    ensures
        seq_lt(a, b) || seq_lt(b, a),
    decreases a.len(),
{
    if a.len() == 0 && b.len() == 0 {
        assert(a =~= b);
    } else if a.len() > 0 && b.len() > 0 && a[0] == b[0] {
        if a.drop_first() == b.drop_first() {
            assert(a =~= seq![a[0]] + a.drop_first());
            assert(b =~= seq![b[0]] + b.drop_first());
        } else {
            lemma_seq_lt_total(a.drop_first(), b.drop_first());
        }
    }
}

/// `s` with every trailing repetition of `suffix` removed (what
/// `str::trim_end_matches` does with a non-empty string pattern).
pub open spec fn trim_suffix_all(s: Seq<char>, suffix: Seq<char>) -> Seq<char>
    decreases s.len(),
{
    if suffix.len() > 0 && suffix.is_suffix_of(s) {
        trim_suffix_all(s.take(s.len() - suffix.len()), suffix)
    } else {
        s
    }
}

/// Removes every trailing repetition of a non-empty `suffix` from `s`.
pub fn trim_end_matches(s: &str, suffix: &str) -> (r: String)
    requires
        suffix@.len() > 0,
    ensures
        r@ == trim_suffix_all(s@, suffix@),
{
    let v = chars_of(s);
    let p = chars_of(suffix);
    let mut end: usize = v.len();
    assert(v@.take(end as int) =~= v@);
    while p.len() <= end && block_at(&v, &p, end - p.len())
        invariant
            v@ == s@,
            p@ == suffix@,
            p.len() > 0,
            end <= v.len(),
            trim_suffix_all(s@, suffix@) == trim_suffix_all(v@.take(end as int), suffix@),
        decreases end,
    {
        let ghost t = v@.take(end as int);
        assert(t.subrange(t.len() - p.len(), t.len() as int) =~= v@.subrange(end - p.len(), end as int));
        assert(t.take(t.len() - p.len()) =~= v@.take(end - p.len()));
        end = end - p.len();
    }
    let ghost t = v@.take(end as int);
    if p.len() <= end {
        assert(t.subrange(t.len() - p.len(), t.len() as int) =~= v@.subrange(end - p.len(), end as int));
    }
    slice_string(&v, 0, end)
}

/// Whether `a` and `b` hold the same characters.
pub fn vec_eq(a: &Vec<char>, b: &Vec<char>) -> (r: bool)
    ensures
        r == (a@ == b@),
{
    if a.len() != b.len() {
        return false;
    }
    let mut i: usize = 0;
    while i < a.len()
        invariant
            a.len() == b.len(),
            i <= a.len(),
            forall|j: int| 0 <= j < i ==> a@[j] == b@[j],
        decreases a.len() - i,
    {
        if a[i] != b[i] {
            return false;
        }
        i = i + 1;
    }
    assert(a@ =~= b@);
    true
}

/// Whether two string slices hold the same characters.
pub fn str_eq(a: &str, b: &str) -> (r: bool)
    ensures
        r == (a@ == b@),
{
    let va = chars_of(a);
    let vb = chars_of(b);
    vec_eq(&va, &vb)
}

/// Whether the block `t` stands in `s` at offset `at`.
fn block_at(s: &Vec<char>, t: &Vec<char>, at: usize) -> (r: bool)
    requires
        at + t.len() <= s.len(),
    ensures
        r == (s@.subrange(at as int, at + t.len()) == t@),
{
    let mut j: usize = 0;
    while j < t.len()
        invariant
            at + t.len() <= s.len(),
            j <= t.len(),
            forall|k: int| 0 <= k < j ==> s@[at + k] == t@[k],
        decreases t.len() - j,
    {
        if s[at + j] != t[j] {
            assert(s@.subrange(at as int, at + t.len())[j as int] != t@[j as int]);
            return false;
        }
        j = j + 1;
    }
    assert(s@.subrange(at as int, at + t.len()) =~= t@);
    true
}

/// Whether `p` is a prefix of `s`.
pub fn vec_starts_with(s: &Vec<char>, p: &Vec<char>) -> (r: bool)
    ensures
        r == p@.is_prefix_of(s@),
{
    if p.len() > s.len() {
        return false;
    }
    block_at(s, p, 0)
}

/// Whether `p` is a suffix of `s`.
pub fn vec_ends_with(s: &Vec<char>, p: &Vec<char>) -> (r: bool)
    ensures
        r == p@.is_suffix_of(s@),
{
    if p.len() > s.len() {
        return false;
    }
    block_at(s, p, s.len() - p.len())
}

/// Whether `t` occurs somewhere in `s`.
pub fn vec_contains(s: &Vec<char>, t: &Vec<char>) -> (r: bool)
    ensures
        r == has_infix(s@, t@),
{
    if t.len() == 0 {
        assert(s@.subrange(0int, 0int + t@.len()) == t@);
        return true;
    }
    let mut i: usize = 0;
    while i < s.len()
        invariant
            t.len() > 0,
            i <= s.len(),
            forall|k: int| 0 <= k < i && k + t.len() <= s.len() ==> #[trigger] s@.subrange(k, k + t.len()) != t@,
        decreases s.len() - i,
    {
        if t.len() <= s.len() - i {
            if block_at(s, t, i) {
                return true;
            }
        }
        i = i + 1;
    }
    false
}

/// Whether `p` is a prefix of `s`.
pub fn str_starts_with(s: &str, p: &str) -> (r: bool)
    ensures
        r == p@.is_prefix_of(s@),
{
    vec_starts_with(&chars_of(s), &chars_of(p))
}

/// Whether `p` is a suffix of `s`.
pub fn str_ends_with(s: &str, p: &str) -> (r: bool)
    ensures
        r == p@.is_suffix_of(s@),
{
    vec_ends_with(&chars_of(s), &chars_of(p))
}

/// Whether `t` occurs in `s`.
pub fn str_contains(s: &str, t: &str) -> (r: bool)
    ensures
        r == has_infix(s@, t@),
{
    vec_contains(&chars_of(s), &chars_of(t))
}

/// Whether the character `c` occurs in `s`.
pub fn str_has_char(s: &str, c: char) -> (r: bool)
    ensures
        r == has_char(s@, c),
{
    let v = chars_of(s);
    let mut i: usize = 0;
    while i < v.len()
        invariant
            v@ == s@,
            i <= v.len(),
            forall|k: int| 0 <= k < i ==> v@[k] != c,
        decreases v.len() - i,
    {
        if v[i] == c {
            return true;
        }
        i = i + 1;
    }
    false
}

/// `a` sorts strictly before `b` (the order of `String::cmp`).
pub fn str_lt(a: &str, b: &str) -> (r: bool)
    ensures
        r == seq_lt(a@, b@),
{
    let va = chars_of(a);
    let vb = chars_of(b);
    let mut i: usize = 0;
    assert(a@.skip(0) == a@);
    assert(b@.skip(0) == b@);
    while i < va.len() && i < vb.len()
        invariant
            va@ == a@,
            vb@ == b@,
            i <= va.len(),
            i <= vb.len(),
            forall|k: int| 0 <= k < i ==> va@[k] == vb@[k],
            seq_lt(a@, b@) == seq_lt(a@.skip(i as int), b@.skip(i as int)),
        decreases va.len() - i,
    {
        if va[i] != vb[i] {
            assert(a@.skip(i as int)[0] == va@[i as int]);
            assert(b@.skip(i as int)[0] == vb@[i as int]);
            return va[i] < vb[i];
        }
        assert(a@.skip(i as int).drop_first() == a@.skip(i + 1));
        assert(b@.skip(i as int).drop_first() == b@.skip(i + 1));
        i = i + 1;
    }
    i < vb.len()
}

/// The string holding `v[from..to]`.
pub fn slice_string(v: &Vec<char>, from: usize, to: usize) -> (r: String)
    requires
        from <= to <= v@.len(),
    ensures
        r@ == v@.subrange(from as int, to as int),
{
    let mut s = String::new();
    let mut k: usize = from;
    while k < to
        invariant
            from <= k <= to <= v@.len(),
            s@ == v@.subrange(from as int, k as int),
        decreases to - k,
    {
        push_char(&mut s, v[k]);
        k = k + 1;
        assert(s@ =~= v@.subrange(from as int, k as int));
    }
    s
}

/// The first index at or after `i` where `c` stands in `s`.
pub open spec fn find_char_from(s: Seq<char>, c: char, i: int) -> Option<int>
    decreases s.len() - i,
{
    if i < 0 || i >= s.len() {
        None
    } else if s[i] == c {
        Some(i)
    } else {
        find_char_from(s, c, i + 1)
    }
}

/// The first index at or after `from` where `c` stands in `v`.
pub fn find_char(v: &Vec<char>, c: char, from: usize) -> (r: Option<usize>)
    ensures
        match r {
            Some(i) => from <= i < v@.len() && find_char_from(v@, c, from as int) == Some(i as int),
            None => find_char_from(v@, c, from as int) is None,
        },
{
    let mut i: usize = from;
    let n = v.len();
    if i >= n {
        return None;
    }
    while i < n
        invariant
            from <= i <= n,
            n == v@.len(),
            find_char_from(v@, c, from as int) == find_char_from(v@, c, i as int),
        decreases n - i,
    {
        if v[i] == c {
            return Some(i);
        }
        i = i + 1;
    }
    None
}

// ---------------------------------------------------------------------------
// Case folding
// ---------------------------------------------------------------------------

/// What `str::to_lowercase` gives for a string (Unicode lowercase mapping).
pub uninterp spec fn lowercase_of(s: Seq<char>) -> Seq<char>;

/// std's `str::to_lowercase`. Its result is a function of the input alone;
/// the Unicode mapping itself is left to the name `lowercase_of`.
#[verifier::external_body]
pub(crate) fn to_lowercase(s: &str) -> (r: String)
    ensures
        r@ == lowercase_of(s@),
{
    s.to_lowercase()
}

} // verus!
