//! Character-level helpers on strings, each stated over `Seq<char>`.

use vstd::prelude::*;

verus! {

/// The digit with value `d`, for the bases up to 16: `0` to `9`, then `a` to
/// `f`.
pub open spec fn digit_char(d: nat) -> char {
    if d < 10 {
        (('0' as u32) + d) as char
    } else {
        (('a' as u32) + (d - 10)) as char
    }
}

/// `n` written in the given base, most significant digit first and without
/// leading zeros; zero itself is the one digit `0`.
pub open spec fn digits(n: nat, base: nat) -> Seq<char>
    decreases n,
{
    if base < 2 {
        Seq::empty()
    } else if n < base {
        seq![digit_char(n)]
    } else {
        proof {
            vstd::arithmetic::div_mod::lemma_div_decreases(n as int, base as int);
        }
        digits(n / base, base).push(digit_char(n % base))
    }
}

/// Whether `s` begins with `prefix`.
pub open spec fn has_prefix(s: Seq<char>, prefix: Seq<char>) -> bool {
    prefix.len() <= s.len() && s.take(prefix.len() as int) == prefix
}

/// What stands before the first `c` in `s`, or all of `s` where there is none.
pub open spec fn head(s: Seq<char>, c: char) -> Seq<char>
    decreases s.len(),
{
    if s.len() == 0 || s[0] == c {
        Seq::empty()
    } else {
        seq![s[0]] + head(s.skip(1), c)
    }
}

/// The text before the first `c` is the one without a `c` that is followed by
/// one.
pub(crate) proof fn head_of_split(a: Seq<char>, c: char, b: Seq<char>)
    requires
        !a.contains(c),
    ensures
        head(a + seq![c] + b, c) == a,
    decreases a.len(),
{
    let s = a + seq![c] + b;
    if a.len() == 0 {
        assert(s[0] == c);
    } else {
        assert(s[0] == a[0]);
        assert(a.contains(a[0]));
        assert(s.skip(1) =~= a.skip(1) + seq![c] + b);
        assert forall|i: int| 0 <= i < a.skip(1).len() implies a.skip(1)[i] != c by {
            assert(a.contains(a[i + 1]));
        }
        head_of_split(a.skip(1), c, b);
        assert(a =~= seq![a[0]] + a.skip(1));
    }
}

/// Whether `c` occurs in `s`.
pub fn has_char(s: &str, c: char) -> (found: bool)
    ensures
        found == s@.contains(c),
{
    for ch in it: s.chars()
        invariant
            it.seq() == s@,
            forall|i: int| 0 <= i < it.index() ==> s@[i] != c,
    {
        if ch == c {
            assert(s@[it.index()] == c);
            return true;
        }
    }
    false
}

/// The position of the first `c` in `s`.
pub fn find_char(s: &str, c: char) -> (found: Option<usize>)
    ensures
        match found {
            Some(i) => {
                &&& i < s@.len()
                &&& s@[i as int] == c
                &&& forall|j: int| 0 <= j < i ==> s@[j] != c
            },
            None => !s@.contains(c),
        },
{
    let len: usize = s.unicode_len();
    let mut i: usize = 0;
    while i < len
        invariant
            len == s@.len(),
            i <= len,
            forall|j: int| 0 <= j < i ==> s@[j] != c,
        decreases len - i,
    {
        if s.get_char(i) == c {
            return Some(i);
        }
        i = i + 1;
    }
    None
}

/// Whether `s` begins with the character `c`.
pub fn starts_with_char(s: &str, c: char) -> (r: bool)
    ensures
        r == (s@.len() > 0 && s@[0] == c),
{
    s.unicode_len() > 0 && s.get_char(0) == c
}

/// Whether two strings hold the same characters.
pub fn same_text(a: &str, b: &str) -> (same: bool)
    ensures
        same == (a@ == b@),
{
    a.to_owned() == b.to_owned()
}

/// What follows `prefix` in `s`, where `s` begins with it.
pub fn strip_prefix(s: &str, prefix: &str) -> (r: Option<String>)
    ensures
        match r {
            Some(rest) => has_prefix(s@, prefix@) && rest@ == s@.skip(prefix@.len() as int),
            None => !has_prefix(s@, prefix@),
        },
{
    let n: usize = prefix.unicode_len();
    let len: usize = s.unicode_len();
    if n <= len && same_text(s.substring_char(0, n), prefix) {
        Some(s.substring_char(n, len).to_owned())
    } else {
        None
    }
}

/// Splits `s` around its first `c`.
pub fn split_once(s: &str, c: char) -> (r: Option<(String, String)>)
    ensures
        match r {
            Some((head, tail)) => s@ == head@ + seq![c] + tail@ && !head@.contains(c),
            None => !s@.contains(c),
        },
{
    match find_char(s, c) {
        Some(i) => {
            let len: usize = s.unicode_len();
            let head = s.substring_char(0, i).to_owned();
            let tail = s.substring_char(i + 1, len).to_owned();
            assert(s@ =~= head@ + seq![c] + tail@);
            Some((head, tail))
        },
        None => None,
    }
}

/// `a` and `b` one after the other.
pub fn concat2(a: &str, b: &str) -> (s: String)
    ensures
        s@ == a@ + b@,
{
    let mut s = a.to_owned();
    s.append(b);
    s
}

/// Three strings one after the other.
pub fn concat3(a: &str, b: &str, c: &str) -> (s: String)
    ensures
        s@ == a@ + b@ + c@,
{
    let mut s = concat2(a, b);
    s.append(c);
    s
}

/// Four strings one after the other.
pub fn concat4(a: &str, b: &str, c: &str, d: &str) -> (s: String)
    ensures
        s@ == a@ + b@ + c@ + d@,
{
    let mut s = concat3(a, b, c);
    s.append(d);
    s
}

fn digit(d: u8) -> (s: &'static str)
    requires
        d < 16,
    ensures
        s@ == seq![digit_char(d as nat)],
{
    let s = match d {
        0 => "0",
        1 => "1",
        2 => "2",
        3 => "3",
        4 => "4",
        5 => "5",
        6 => "6",
        7 => "7",
        8 => "8",
        9 => "9",
        10 => "a",
        11 => "b",
        12 => "c",
        13 => "d",
        14 => "e",
        _ => "f",
    };
    proof {
        reveal_strlit("0");
        reveal_strlit("1");
        reveal_strlit("2");
        reveal_strlit("3");
        reveal_strlit("4");
        reveal_strlit("5");
        reveal_strlit("6");
        reveal_strlit("7");
        reveal_strlit("8");
        reveal_strlit("9");
        reveal_strlit("a");
        reveal_strlit("b");
        reveal_strlit("c");
        reveal_strlit("d");
        reveal_strlit("e");
        reveal_strlit("f");
    }
    assert(s@ =~= seq![digit_char(d as nat)]);
    s
}

/// Writes `n` in the given base.
pub fn number(n: u128, base: u8) -> (s: String)
    requires
        2 <= base <= 16,
    ensures
        s@ == digits(n as nat, base as nat),
    decreases n,
{
    let b: u128 = base as u128;
    if n < b {
        digit(n as u8).to_owned()
    } else {
        proof {
            vstd::arithmetic::div_mod::lemma_div_decreases(n as int, b as int);
        }
        let mut s = number(n / b, base);
        s.append(digit((n % b) as u8));
        s
    }
}

/// Writes `n` in decimal.
pub fn decimal(n: u64) -> (s: String)
    ensures
        s@ == digits(n as nat, 10),
{
    number(n as u128, 10)
}

/// No digit has two values.
proof fn digit_chars_distinct(d: nat, e: nat)
    requires
        d < 16,
        e < 16,
        digit_char(d) == digit_char(e),
    ensures
        d == e,
{
}

/// Different numbers are written differently.
pub proof fn digits_distinct(m: nat, n: nat, base: nat)
    requires
        2 <= base <= 16,
        digits(m, base) == digits(n, base),
    ensures
        m == n,
    decreases m,
{
    let a = digits(m, base);
    let b = digits(n, base);
    digits_not_empty(m / base, base);
    digits_not_empty(n / base, base);
    if m < base && n < base {
        assert(a[0] == digit_char(m) && b[0] == digit_char(n));
        digit_chars_distinct(m, n);
    } else if m >= base && n >= base {
        vstd::arithmetic::div_mod::lemma_div_decreases(m as int, base as int);
        vstd::arithmetic::div_mod::lemma_fundamental_div_mod(m as int, base as int);
        vstd::arithmetic::div_mod::lemma_fundamental_div_mod(n as int, base as int);
        vstd::arithmetic::div_mod::lemma_mod_bound(m as int, base as int);
        vstd::arithmetic::div_mod::lemma_mod_bound(n as int, base as int);
        assert(a.drop_last() =~= digits(m / base, base));
        assert(b.drop_last() =~= digits(n / base, base));
        assert(a.last() == digit_char(m % base) && b.last() == digit_char(n % base));
        digit_chars_distinct(m % base, n % base);
        digits_distinct(m / base, n / base, base);
    }
}

proof fn digits_not_empty(n: nat, base: nat)
    requires
        base >= 2,
    ensures
        digits(n, base).len() > 0,
{
}

/// A number's digits in a base up to 16 are never the character `/`.
pub proof fn digits_have_no_slash(n: nat, base: nat)
    requires
        base <= 16,
    ensures
        !digits(n, base).contains('/'),
    decreases n,
{
    if base >= 2 && n >= base {
        vstd::arithmetic::div_mod::lemma_div_decreases(n as int, base as int);
        digits_have_no_slash(n / base, base);
        let head = digits(n / base, base);
        assert forall|i: int| 0 <= i < head.len() + 1 implies digits(n, base)[i] != '/' by {
            if i < head.len() {
                assert(digits(n, base)[i] == head[i]);
                assert(head.contains(head[i]));
            }
        }
    }
}

/// The value of a digit.
pub open spec fn digit_value(c: char) -> int {
    if '0' <= c <= '9' {
        c as int - '0' as int
    } else {
        c as int - 'a' as int + 10
    }
}

/// The number that some digits write in the given base.
pub open spec fn written_number(s: Seq<char>, base: nat) -> int
    decreases s.len(),
{
    if s.len() == 0 {
        0
    } else {
        written_number(s.drop_last(), base) * base + digit_value(s.last())
    }
}

/// The digits of a number write that number, in each base up to 16, and only a
/// number below the base has a single one: there are no leading zeros.
pub proof fn digits_write_the_number(n: nat, base: nat)
    requires
        2 <= base <= 16,
    ensures
        written_number(digits(n, base), base) == n,
        digits(n, base).len() == 1 <==> n < base,
        n > 0 ==> digits(n, base)[0] != '0',
    decreases n,
{
    let s = digits(n, base);
    if n < base {
        assert(s.drop_last() =~= Seq::empty());
        assert(written_number(s.drop_last(), base) == 0);
    } else {
        vstd::arithmetic::div_mod::lemma_div_decreases(n as int, base as int);
        vstd::arithmetic::div_mod::lemma_fundamental_div_mod(n as int, base as int);
        vstd::arithmetic::div_mod::lemma_mod_bound(n as int, base as int);
        vstd::arithmetic::div_mod::lemma_div_non_zero(n as int, base as int);
        vstd::arithmetic::mul::lemma_mul_is_commutative(base as int, n as int / base as int);
        digits_write_the_number(n / base, base);
        digits_not_empty(n / base, base);
        assert(s.drop_last() =~= digits(n / base, base));
        assert(s[0] == s.drop_last()[0]);
    }
}

/// The text before the first `c` has no `c`, begins the whole, and is followed
/// by a `c` or is the whole.
pub proof fn head_ends_at_the_first(s: Seq<char>, c: char)
    ensures
        !head(s, c).contains(c),
        has_prefix(s, head(s, c)),
        head(s, c) == s || (head(s, c).len() < s.len() && s[head(s, c).len() as int] == c),
    decreases s.len(),
{
    let h = head(s, c);
    if s.len() > 0 && s[0] != c {
        let rest = s.skip(1);
        let tail = head(rest, c);
        head_ends_at_the_first(rest, c);
        assert(h =~= seq![s[0]] + tail);
        assert forall|i: int| 0 <= i < h.len() implies h[i] != c by {
            if i > 0 {
                assert(tail.contains(tail[i - 1]));
            }
        }
        assert(tail =~= rest.take(tail.len() as int));
        assert(s.take(h.len() as int) =~= h);
        if tail == rest {
            assert(h =~= s);
        } else {
            assert(rest[tail.len() as int] == s[h.len() as int]);
        }
    } else {
        assert(s.take(0) =~= Seq::empty());
        if s.len() == 0 {
            assert(h =~= s);
        }
    }
}

/// A text begins with exactly those texts that something can be put behind to
/// give it.
pub proof fn prefixes_are_continued(prefix: Seq<char>, tail: Seq<char>, s: Seq<char>)
    ensures
        has_prefix(prefix + tail, prefix),
        has_prefix(s, prefix) ==> s == prefix + s.skip(prefix.len() as int),
{
    assert((prefix + tail).take(prefix.len() as int) =~= prefix);
    if has_prefix(s, prefix) {
        assert(s =~= s.take(prefix.len() as int) + s.skip(prefix.len() as int));
    }
}

/// A number's digits in a base up to 16 are never the character `-`.
pub(crate) proof fn digits_have_no_dash(n: nat, base: nat)
    requires
        base <= 16,
    ensures
        !digits(n, base).contains('-'),
    decreases n,
{
    if base >= 2 && n >= base {
        vstd::arithmetic::div_mod::lemma_div_decreases(n as int, base as int);
        digits_have_no_dash(n / base, base);
        let head = digits(n / base, base);
        assert forall|i: int| 0 <= i < head.len() + 1 implies digits(n, base)[i] != '-' by {
            if i < head.len() {
                assert(digits(n, base)[i] == head[i]);
                assert(head.contains(head[i]));
            }
        }
    }
}

} // verus!
