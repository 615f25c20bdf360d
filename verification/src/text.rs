//! Character-level helpers on strings: comparison, search, the part after the
//! last separator, decimal rendering of numbers and parsing them back.
use vstd::prelude::*;
use vstd::string::*;

verus! {

broadcast use vstd::string::group_string_axioms;

// ---------------------------------------------------------------------------
// Specifications
// ---------------------------------------------------------------------------

/// The character that renders the decimal digit `d` (for `0 <= d < 10`).
pub open spec fn digit_char(d: int) -> char {
    "0123456789"@[d]
}

/// Whether `c` is one of the ASCII digits `0` to `9`.
pub open spec fn is_digit(c: char) -> bool {
    48 <= (c as int) && (c as int) <= 57
}

/// The value of an ASCII digit.
pub open spec fn digit_value(c: char) -> int {
    (c as int) - 48
}

/// Whether every character of `s` is an ASCII digit.
pub open spec fn all_digits(s: Seq<char>) -> bool {
    forall|i: int| 0 <= i < s.len() ==> is_digit(#[trigger] s[i])
}

/// The number that the digits `s` denote in base ten (most significant first).
pub open spec fn digits_value(s: Seq<char>) -> int
    decreases s.len(),
{
    if s.len() == 0 {
        0
    } else {
        digits_value(s.drop_last()) * 10 + digit_value(s.last())
    }
}

/// The shortest decimal rendering of `n`: no sign and no leading zero
/// (`"0"` for zero).
pub open spec fn decimal(n: nat) -> Seq<char>
    decreases n,
{
    if n < 10 {
        seq![digit_char(n as int)]
    } else {
        decimal(n / 10).push(digit_char((n % 10) as int))
    }
}

/// `k` zero characters.
pub open spec fn zeros(k: nat) -> Seq<char> {
    Seq::new(k, |i: int| '0')
}

/// `s` with zeros put in front until it is at least `width` characters long.
pub open spec fn zero_padded(s: Seq<char>, width: nat) -> Seq<char> {
    if s.len() >= width {
        s
    } else {
        zeros((width - s.len()) as nat) + s
    }
}

/// The decimal rendering of `n` padded with zeros to three characters: what
/// `format!("{:03}", n)` produces.
pub open spec fn decimal3(n: nat) -> Seq<char> {
    zero_padded(decimal(n), 3)
}

/// What parsing `s` as a `u32` gives: an optional leading `+`, then at least
/// one digit and nothing else, denoting a value that fits in a `u32`.
pub open spec fn parse_u32_spec(s: Seq<char>) -> Option<u32> {
    let digits = if s.len() > 0 && s[0] == '+' {
        s.drop_first()
    } else {
        s
    };
    if digits.len() > 0 && all_digits(digits) && digits_value(digits) <= u32::MAX {
        Some(digits_value(digits) as u32)
    } else {
        None
    }
}

/// The index of the last occurrence of `c` in `s`, or -1 when there is none.
pub open spec fn last_index_of(s: Seq<char>, c: char) -> int
    decreases s.len(),
{
    if s.len() == 0 {
        -1
    } else if s.last() == c {
        s.len() - 1
    } else {
        last_index_of(s.drop_last(), c)
    }
}

/// The part of `s` after the last `c`, or all of `s` when it holds no `c`:
/// the first piece of `s.rsplit(c)` and the last piece of `s.split(c)`.
pub open spec fn after_last(s: Seq<char>, c: char) -> Seq<char> {
    s.subrange(last_index_of(s, c) + 1, s.len() as int)
}

/// Whether `pat` occurs in `s` starting at index `i`.
pub open spec fn occurs_at(s: Seq<char>, pat: Seq<char>, i: int) -> bool {
    0 <= i && i + pat.len() <= s.len() && s.subrange(i, i + pat.len()) == pat
}

/// Whether `pat` occurs somewhere in `s`.
pub open spec fn contains(s: Seq<char>, pat: Seq<char>) -> bool {
    exists|i: int| occurs_at(s, pat, i)
}

// ---------------------------------------------------------------------------
// Lemmas
// ---------------------------------------------------------------------------

/// Each digit character is a digit, and denotes its own value.
pub proof fn lemma_digit_char(d: int)
    requires
        0 <= d < 10,
    ensures
        is_digit(digit_char(d)),
        digit_value(digit_char(d)) == d,
{
    reveal_strlit("0123456789");
    if d == 0 {
        assert(digit_char(d) == '0');
    } else if d == 1 {
        assert(digit_char(d) == '1');
    } else if d == 2 {
        assert(digit_char(d) == '2');
    } else if d == 3 {
        assert(digit_char(d) == '3');
    } else if d == 4 {
        assert(digit_char(d) == '4');
    } else if d == 5 {
        assert(digit_char(d) == '5');
    } else if d == 6 {
        assert(digit_char(d) == '6');
    } else if d == 7 {
        assert(digit_char(d) == '7');
    } else if d == 8 {
        assert(digit_char(d) == '8');
    } else {
        assert(digit_char(d) == '9');
    }
}

/// The decimal rendering of `n` is a nonempty run of digits that denotes `n`.
pub proof fn lemma_decimal(n: nat)
    ensures
        decimal(n).len() >= 1,
        all_digits(decimal(n)),
        digits_value(decimal(n)) == n,
        n < 10 <==> decimal(n).len() == 1,
        n < 100 <==> decimal(n).len() <= 2,
    decreases n,
{
    if n < 10 {
        lemma_digit_char(n as int);
        assert(decimal(n).drop_last() =~= Seq::<char>::empty());
        assert(digits_value(Seq::<char>::empty()) == 0);
    } else {
        lemma_decimal(n / 10);
        lemma_digit_char((n % 10) as int);
        let s = decimal(n);
        assert(s.drop_last() =~= decimal(n / 10));
        assert(digits_value(s) == digits_value(decimal(n / 10)) * 10 + digit_value(digit_char((n % 10) as int)));
        assert((n / 10) * 10 + n % 10 == n);
        assert forall|i: int| 0 <= i < s.len() implies is_digit(#[trigger] s[i]) by {
            if i < s.len() - 1 {
                assert(s[i] == decimal(n / 10)[i]);
            }
        }
    }
}

/// Zeros in front of a run of digits do not change the number it denotes.
pub proof fn lemma_zeros_value(k: nat, s: Seq<char>)
    ensures
        digits_value(zeros(k) + s) == digits_value(s),
        all_digits(s) ==> all_digits(zeros(k) + s),
    decreases s.len(), k,
{
    if s.len() == 0 {
        assert(zeros(k) + s =~= zeros(k));
        if k > 0 {
            assert(zeros(k).drop_last() =~= zeros((k - 1) as nat));
            lemma_zeros_value((k - 1) as nat, s);
            assert(zeros((k - 1) as nat) + s =~= zeros((k - 1) as nat));
        }
    } else {
        lemma_zeros_value(k, s.drop_last());
        assert((zeros(k) + s).drop_last() =~= zeros(k) + s.drop_last());
    }
    assert(forall|i: int| 0 <= i < k ==> (#[trigger] (zeros(k) + s)[i]) == '0');
    assert(forall|i: int| k <= i < k + s.len() ==> (#[trigger] (zeros(k) + s)[i]) == s[i - k]);
}

/// A run of digits denotes a number that is not negative.
pub proof fn lemma_digits_value_nonneg(s: Seq<char>)
    requires
        all_digits(s),
    ensures
        digits_value(s) >= 0,
    decreases s.len(),
{
    if s.len() > 0 {
        assert(is_digit(s[s.len() - 1]));
        assert forall|i: int| 0 <= i < s.drop_last().len() implies is_digit(#[trigger] s.drop_last()[i]) by {
            assert(is_digit(s[i]));
        }
        lemma_digits_value_nonneg(s.drop_last());
    }
}

/// A prefix of a run of digits denotes at most what the whole run denotes.
pub proof fn lemma_prefix_value_le(t: Seq<char>, i: int)
    requires
        all_digits(t),
        0 <= i <= t.len(),
    ensures
        digits_value(t.take(i)) <= digits_value(t),
    decreases t.len() - i,
{
    if i < t.len() {
        lemma_prefix_value_le(t, i + 1);
        assert(t.take(i + 1).drop_last() =~= t.take(i));
        assert(is_digit(t[i]));
        assert forall|k: int| 0 <= k < t.take(i).len() implies is_digit(#[trigger] t.take(i)[k]) by {
            assert(is_digit(t[k]));
        }
        lemma_digits_value_nonneg(t.take(i));
    } else {
        assert(t.take(i) =~= t);
    }
}

/// `last_index_of` is the index of the last `c`, and -1 exactly when `s` holds
/// no `c`.
pub proof fn lemma_last_index_of(s: Seq<char>, c: char)
    ensures
        -1 <= last_index_of(s, c) < s.len(),
        last_index_of(s, c) >= 0 ==> s[last_index_of(s, c)] == c,
        forall|j: int| last_index_of(s, c) < j < s.len() ==> s[j] != c,
    decreases s.len(),
{
    if s.len() > 0 && s.last() != c {
        lemma_last_index_of(s.drop_last(), c);
        assert forall|j: int| last_index_of(s, c) < j < s.len() implies s[j] != c by {
            if j < s.len() - 1 {
                assert(s[j] == s.drop_last()[j]);
            }
        }
    }
}

/// The index that a backward scan stops at is the one `last_index_of` names.
pub proof fn lemma_last_index_unique(s: Seq<char>, c: char, k: int)
    requires
        -1 <= k < s.len(),
        k >= 0 ==> s[k] == c,
        forall|j: int| k < j < s.len() ==> s[j] != c,
    ensures
        last_index_of(s, c) == k,
{
    lemma_last_index_of(s, c);
    let l = last_index_of(s, c);
    if l < k {
        assert(s[k] != c);
    } else if k < l {
        assert(s[l] != c);
    }
}

/// The part after the last `c` holds no `c`, and `s` ends with it.
pub proof fn lemma_after_last(s: Seq<char>, c: char)
    ensures
        !after_last(s, c).contains(c),
        after_last(s, c).len() <= s.len(),
        s.subrange(s.len() - after_last(s, c).len(), s.len() as int) == after_last(s, c),
        after_last(s, c).len() == s.len() || s[s.len() - after_last(s, c).len() - 1] == c,
{
    lemma_last_index_of(s, c);
    let k = last_index_of(s, c);
    let a = after_last(s, c);
    assert forall|i: int| 0 <= i < a.len() implies a[i] != c by {
        assert(a[i] == s[k + 1 + i]);
    }
    assert(s.subrange(s.len() - a.len(), s.len() as int) =~= a);
}

/// What follows the last `c` is the only tail of `s` that holds no `c` and
/// either is all of `s` or comes right after a `c`.
pub proof fn lemma_after_last_unique(s: Seq<char>, c: char, t: Seq<char>)
    requires
        !t.contains(c),
        t.len() <= s.len(),
        s.subrange(s.len() - t.len(), s.len() as int) == t,
        t.len() == s.len() || s[s.len() - t.len() - 1] == c,
    ensures
        t == after_last(s, c),
{
    let k = s.len() - t.len() - 1;
    assert forall|j: int| k < j < s.len() implies s[j] != c by {
        assert(s[j] == t[j - (k + 1)]);
    }
    lemma_last_index_unique(s, c, k);
    assert(t =~= after_last(s, c));
}

// ---------------------------------------------------------------------------
// Executable functions
// ---------------------------------------------------------------------------

/// The characters of `s`, in order.
pub fn chars_of(s: &str) -> (v: Vec<char>)
    ensures
        v@ == s@,
{
    let mut v: Vec<char> = Vec::new();
    for c in it: s.chars()
        invariant
            it.seq() == s@,
            v@ == it.seq().take(it.index() as int),
    {
        v.push(c);
    }
    v
}

/// Whether `a` and `b` hold the same characters.
pub fn str_eq(a: &str, b: &str) -> (r: bool)
    ensures
        r == (a@ == b@),
{
    let va = chars_of(a);
    let vb = chars_of(b);
    if va.len() != vb.len() {
        return false;
    }
    let n = va.len();
    for i in 0..n
        invariant
            n == va.len(),
            n == vb.len(),
            va@ == a@,
            vb@ == b@,
            forall|j: int| 0 <= j < i ==> va@[j] == vb@[j],
    {
        if va[i] != vb[i] {
            return false;
        }
    }
    assert(a@ =~= b@);
    true
}

/// Whether `pat` occurs in `s` at index `i` (characters given as vectors).
fn occurs_at_exec(s: &Vec<char>, pat: &Vec<char>, i: usize) -> (r: bool)
    requires
        i + pat.len() <= s.len(),
    ensures
        r == occurs_at(s@, pat@, i as int),
{
    let m = pat.len();
    for j in 0..m
        invariant
            m == pat.len(),
            i + m <= s.len(),
            forall|k: int| 0 <= k < j ==> s@[i + k] == pat@[k],
    {
        if s[i + j] != pat[j] {
            assert(s@.subrange(i as int, i + m)[j as int] != pat@[j as int]);
            return false;
        }
    }
    assert(s@.subrange(i as int, i + m) =~= pat@);
    true
}

/// Whether `pat` occurs somewhere in `s`.
pub fn str_contains(s: &str, pat: &str) -> (r: bool)
    ensures
        r == contains(s@, pat@),
{
    let vs = chars_of(s);
    let vp = chars_of(pat);
    if vp.len() > vs.len() {
        return false;
    }
    let last = vs.len() - vp.len();
    let mut i: usize = 0;
    while i < last
        invariant
            vs@ == s@,
            vp@ == pat@,
            last == vs.len() - vp.len(),
            vp.len() <= vs.len(),
            0 <= i <= last,
            forall|k: int| 0 <= k < i ==> !occurs_at(s@, pat@, k),
        decreases last - i,
    {
        if occurs_at_exec(&vs, &vp, i) {
            return true;
        }
        i = i + 1;
    }
    if occurs_at_exec(&vs, &vp, last) {
        return true;
    }
    assert forall|k: int| !occurs_at(s@, pat@, k) by {
        if 0 <= k <= last {
        }
    }
    false
}

/// The part of `s` after the last `c`, or all of `s` when it holds no `c`.
pub fn after_last_char(s: &str, c: char) -> (r: String)
    ensures
        r@ == after_last(s@, c),
{
    let v = chars_of(s);
    let n = v.len();
    let mut i: usize = n;
    while i > 0
        invariant
            v@ == s@,
            n == v.len(),
            i <= n,
            forall|j: int| i <= j < n ==> v@[j] != c,
        decreases i,
    {
        if v[i - 1] == c {
            proof {
                lemma_last_index_unique(s@, c, i - 1);
            }
            return s.substring_char(i, n).to_owned();
        }
        i = i - 1;
    }
    proof {
        lemma_last_index_unique(s@, c, -1);
    }
    s.substring_char(0, n).to_owned()
}

/// The one-character string of the decimal digit `d`.
fn digit_str(d: u64) -> (r: &'static str)
    requires
        d < 10,
    ensures
        r@ == seq![digit_char(d as int)],
{
    let digits = "0123456789";
    proof {
        reveal_strlit("0123456789");
    }
    let du = d as usize;
    digits.substring_char(du, du + 1)
}

/// The shortest decimal rendering of `n`, as `n.to_string()` gives it.
pub fn decimal_string(n: u64) -> (r: String)
    ensures
        r@ == decimal(n as nat),
    decreases n,
{
    if n < 10 {
        digit_str(n).to_owned()
    } else {
        let mut s = decimal_string(n / 10);
        s.append(digit_str(n % 10));
        s
    }
}

/// The decimal rendering of `n` padded with zeros to three characters, as
/// `format!("{:03}", n)` gives it.
pub fn decimal3_string(n: u64) -> (r: String)
    ensures
        r@ == decimal3(n as nat),
{
    let d = decimal_string(n);
    proof {
        lemma_decimal(n as nat);
        reveal_strlit("00");
        reveal_strlit("0");
    }
    if n < 10 {
        let mut s = "00".to_owned();
        s.append(d.as_str());
        assert(s@ =~= zeros(2) + decimal(n as nat));
        s
    } else if n < 100 {
        let mut s = "0".to_owned();
        s.append(d.as_str());
        assert(s@ =~= zeros(1) + decimal(n as nat));
        s
    } else {
        d
    }
}

/// The Unicode scalar value of `c`.
fn char_code(c: char) -> (r: u32)
    ensures
        r as int == c as int,
{
    c as u32
}

/// Parses `s` as a `u32` the way `str::parse::<u32>` does: an optional `+`,
/// then one or more digits whose value fits in a `u32`.
pub fn parse_u32(s: &str) -> (r: Option<u32>)
    ensures
        r == parse_u32_spec(s@),
{
    let v = chars_of(s);
    let n = v.len();
    let start: usize = if n > 0 && v[0] == '+' {
        1
    } else {
        0
    };
    let ghost digits = if s@.len() > 0 && s@[0] == '+' {
        s@.drop_first()
    } else {
        s@
    };
    assert(digits =~= s@.subrange(start as int, n as int));
    if start == n {
        return None;
    }
    let mut acc: u64 = 0;
    let mut i: usize = start;
    while i < n
        invariant
            v@ == s@,
            n == v.len(),
            start <= i <= n,
            digits == s@.subrange(start as int, n as int),
            digits == (if s@.len() > 0 && s@[0] == '+' {
                s@.drop_first()
            } else {
                s@
            }),
            digits.len() > 0,
            all_digits(digits.take(i - start)),
            acc as int == digits_value(digits.take(i - start)),
            acc <= u32::MAX,
        decreases n - i,
    {
        let c = v[i];
        let code = char_code(c);
        if code < 48 || code > 57 {
            assert(digits[i - start] == c);
            assert(!is_digit(digits[i - start]));
            assert(!all_digits(digits));
            return None;
        }
        let next = acc * 10 + (code - 48) as u64;
        let ghost pre = digits.take(i - start);
        let ghost post = digits.take(i - start + 1);
        assert(post.drop_last() =~= pre);
        assert(post.last() == c);
        assert forall|k: int| 0 <= k < post.len() implies is_digit(#[trigger] post[k]) by {
            if k < pre.len() {
                assert(post[k] == pre[k]);
                assert(is_digit(pre[k]));
            } else {
                assert(post[k] == c);
            }
        }
        if next > 0xffff_ffffu64 {
            proof {
                if all_digits(digits) {
                    lemma_prefix_value_le(digits, i - start + 1);
                }
            }
            return None;
        }
        acc = next;
        i = i + 1;
    }
    assert(digits.take(n - start) =~= digits);
    Some(acc as u32)
}

/// Parsing the decimal rendering of a `u32` gives the number back.
pub proof fn lemma_parse_decimal(n: u32)
    ensures
        parse_u32_spec(decimal(n as nat)) == Some(n),
{
    lemma_decimal(n as nat);
    lemma_digit_char(0);
    let s = decimal(n as nat);
    assert(is_digit(s[0]));
    reveal_strlit("0123456789");
    assert(s[0] != '+');
}

} // verus!
