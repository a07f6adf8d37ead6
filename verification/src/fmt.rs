//! Building text: decimal numbers and concatenation.

use vstd::prelude::*;
use vstd::std_specs::iter::IteratorSpec;

verus! {

/// The character of a decimal digit.
pub open spec fn digit_char(d: int) -> char {
    (d + 48) as char
}

/// The decimal digits of a natural number, most significant first.
pub open spec fn decimal(n: nat) -> Seq<char>
    decreases n,
{
    if n < 10 {
        seq![digit_char(n as int)]
    } else {
        decimal(n / 10).push(digit_char((n % 10) as int))
    }
}

/// The decimal text of an integer, with a leading '-' when negative.
pub open spec fn signed_decimal(n: int) -> Seq<char> {
    if n < 0 {
        seq!['-'] + decimal((-n) as nat)
    } else {
        decimal(n as nat)
    }
}

/// `String::push`: claimed, as its documentation says, that the character
/// is appended at the end of the string and nothing else changes.
#[verifier::external_body]
pub(crate) fn push_char(s: &mut String, c: char)
    ensures
        final(s)@ == old(s)@.push(c),
{
    s.push(c);
}

fn digit(d: u64) -> (c: char)
    requires
        d < 10,
    ensures
        c == digit_char(d as int),
{
    let b: u8 = (d as u8) + 48;
    b as char
}

/// Appends the decimal text of `n`.
pub fn push_decimal(s: &mut String, n: u64)
    ensures
        final(s)@ == old(s)@ + decimal(n as nat),
{
    let ghost start = s@;
    let mut digits: Vec<u64> = Vec::new();
    let mut m = n;
    let ghost mut tail: Seq<char> = Seq::empty();
    loop
        invariant_except_break
            decimal(n as nat) == decimal(m as nat) + tail,
        invariant
            tail.len() == digits@.len(),
            forall|i: int| 0 <= i < digits@.len() ==> #[trigger] digits@[i] < 10,
            forall|i: int|
                0 <= i < digits@.len() ==> #[trigger] tail[tail.len() - 1 - i] == digit_char(
                    digits@[i] as int,
                ),
        ensures
            decimal(n as nat) == tail,
        decreases m,
    {
        let d = m % 10;
        let ghost old_tail = tail;
        let ghost old_digits = digits@;
        proof {
            tail = seq![digit_char(d as int)] + tail;
            assert forall|i: int| 0 <= i < digits@.len() implies #[trigger] tail[tail.len() - 1
                - i] == old_tail[old_tail.len() - 1 - i] by {}
        }
        digits.push(d);
        proof {
            assert(tail[tail.len() - 1 - (digits@.len() - 1)] == digit_char(d as int));
            assert forall|i: int| 0 <= i < digits@.len() implies #[trigger] tail[tail.len() - 1
                - i] == digit_char(digits@[i] as int) by {
                if i < digits@.len() - 1 {
                    assert(digits@[i] == old_digits[i]);
                }
            }
        }
        if m < 10 {
            assert(decimal(m as nat) == seq![digit_char(m as int)]);
            assert(decimal(n as nat) =~= tail);
            break ;
        }
        assert(decimal(m as nat) == decimal((m / 10) as nat).push(digit_char(d as int)));
        m = m / 10;
        assert(decimal(n as nat) =~= decimal(m as nat) + tail);
    }
    let mut k = digits.len();
    while k > 0
        invariant
            k <= digits@.len(),
            tail.len() == digits@.len(),
            forall|i: int| 0 <= i < digits@.len() ==> #[trigger] digits@[i] < 10,
            forall|i: int|
                0 <= i < digits@.len() ==> #[trigger] tail[tail.len() - 1 - i] == digit_char(
                    digits@[i] as int,
                ),
            s@ == start + tail.subrange(0, (digits@.len() - k) as int),
        decreases k,
    {
        let c = digit(digits[k - 1]);
        proof {
            assert(tail[tail.len() - 1 - (k - 1)] == digit_char(digits@[k - 1] as int));
        }
        push_char(s, c);
        k = k - 1;
        assert(s@ =~= start + tail.subrange(0, (digits@.len() - k) as int));
    }
    assert(tail.subrange(0, digits@.len() as int) =~= tail);
}

/// Appends the decimal text of `n`, with a leading '-' when negative.
pub fn push_signed_decimal(s: &mut String, n: i64)
    ensures
        final(s)@ == old(s)@ + signed_decimal(n as int),
{
    if n < 0 {
        push_char(s, '-');
        let magnitude: u64 = if n == i64::MIN {
            0x8000_0000_0000_0000u64
        } else {
            (-n) as u64
        };
        let ghost mid = s@;
        push_decimal(s, magnitude);
        assert(s@ =~= old(s)@ + signed_decimal(n as int));
    } else {
        push_decimal(s, n as u64);
    }
}

/// Appends a string slice.
pub fn push_str(s: &mut String, t: &str)
    ensures
        final(s)@ == old(s)@ + t@,
{
    s.append(t);
}

/// A new string holding a copy of `t`.
pub fn string_of(t: &str) -> (r: String)
    ensures
        r@ == t@,
{
    String::from_str(t)
}

/// A new string holding `prefix` followed by `s`.
pub fn prefixed(prefix: &str, s: &str) -> (r: String)
    ensures
        r@ == prefix@ + s@,
{
    let mut r = string_of(prefix);
    push_str(&mut r, s);
    r
}

/// The characters of a string slice, in order.
pub fn chars_of(s: &str) -> (r: Vec<char>)
    ensures
        r@ == s@,
{
    let mut v: Vec<char> = Vec::new();
    let mut it = s.chars();
    loop
        invariant
            s@ == v@ + it.remaining(),
            it.obeys_prophetic_iter_laws(),
            it.decrease() is Some,
        ensures
            v@ == s@,
        decreases it.decrease()->0,
    {
        let ghost before = it.remaining();
        match it.next() {
            Some(c) => {
                v.push(c);
                assert(s@ =~= v@ + it.remaining());
            },
            None => {
                assert(v@ =~= s@);
                break ;
            },
        }
    }
    v
}

/// Whether `t` occurs in `s` as a run of consecutive characters.
pub open spec fn has_substring(s: Seq<char>, t: Seq<char>) -> bool {
    exists|i: int| 0 <= i && i + t.len() <= s.len() && #[trigger] s.subrange(i, i + t.len()) == t
}

fn matches_at(a: &Vec<char>, b: &Vec<char>, i: usize) -> (r: bool)
    requires
        i + b@.len() <= a@.len(),
    ensures
        r == (a@.subrange(i as int, i + b@.len()) == b@),
{
    let n = a.len();
    let mut k: usize = 0;
    while k < b.len()
        invariant
            n == a@.len(),
            i + b@.len() <= a@.len(),
            k <= b@.len(),
            forall|j: int| 0 <= j < k ==> a@[i + j] == b@[j],
        decreases b@.len() - k,
    {
        assert(i + k < a@.len());
        let j: usize = i + k;
        if a[j] != b[k] {
            assert(a@.subrange(i as int, i + b@.len())[k as int] != b@[k as int]);
            return false;
        }
        k = k + 1;
    }
    assert(a@.subrange(i as int, i + b@.len()) =~= b@);
    true
}

/// Whether `t` occurs in `s` (`str::contains` with a string pattern).
pub fn contains_str(s: &str, t: &str) -> (r: bool)
    ensures
        r == has_substring(s@, t@),
{
    let a = chars_of(s);
    let b = chars_of(t);
    if b.len() > a.len() {
        return false;
    }
    let last = a.len() - b.len();
    let mut i: usize = 0;
    while i <= last
        invariant
            b@.len() <= a@.len(),
            last == a@.len() - b@.len(),
            i <= last,
            a@ == s@,
            b@ == t@,
            forall|k: int| 0 <= k < i ==> #[trigger] a@.subrange(k, k + b@.len()) != b@,
        ensures
            forall|k: int| 0 <= k <= last ==> #[trigger] a@.subrange(k, k + b@.len()) != b@,
        decreases last - i,
    {
        if matches_at(&a, &b, i) {
            return true;
        }
        if i == last {
            break ;
        }
        i = i + 1;
    }
    false
}

/// The character of a hexadecimal digit, lower case.
pub open spec fn hex_digit_char(d: int) -> char {
    if d < 10 {
        (d + 48) as char
    } else {
        (d + 87) as char
    }
}

/// The lower-case hexadecimal digits of a natural number, most significant
/// first.
pub open spec fn hex(n: nat) -> Seq<char>
    decreases n,
{
    if n < 16 {
        seq![hex_digit_char(n as int)]
    } else {
        hex(n / 16).push(hex_digit_char((n % 16) as int))
    }
}

fn hex_digit(d: u64) -> (c: char)
    requires
        d < 16,
    ensures
        c == hex_digit_char(d as int),
{
    if d < 10 {
        ((d as u8) + 48) as char
    } else {
        ((d as u8) + 87) as char
    }
}

/// Appends the lower-case hexadecimal text of `n`.
pub fn push_hex(s: &mut String, n: u64)
    ensures
        final(s)@ == old(s)@ + hex(n as nat),
    decreases n,
{
    if n < 16 {
        push_char(s, hex_digit(n));
    } else {
        push_hex(s, n / 16);
        push_char(s, hex_digit(n % 16));
        assert(s@ =~= old(s)@ + hex(n as nat));
    }
}

/// The number that a text of digits in base `b` stands for, each digit
/// being its character's value above `zero` (and above `'a'` minus ten for
/// the letters of hexadecimal).
pub open spec fn digits_value(s: Seq<char>, b: int) -> int
    decreases s.len(),
{
    if s.len() == 0 {
        0
    } else {
        let c = s.last() as int;
        let d = if c >= 97 {
            c - 87
        } else {
            c - 48
        };
        digits_value(s.drop_last(), b) * b + d
    }
}

/// Decimal text is the digits of the number, most significant first: only
/// the characters `0` to `9`, no leading zero, and read in base ten it gives
/// the number back.
pub proof fn law_decimal(n: nat)
    ensures
        decimal(n).len() > 0,
        forall|i: int| 0 <= i < decimal(n).len() ==> '0' <= #[trigger] decimal(n)[i] <= '9',
        n > 0 ==> decimal(n)[0] != '0',
        digits_value(decimal(n), 10) == n,
    decreases n,
{
    if n < 10 {
        assert(decimal(n).drop_last() =~= Seq::<char>::empty());
        assert(decimal(n).last() as int == n + 48);
        assert(digits_value(decimal(n), 10) == digits_value(decimal(n).drop_last(), 10) * 10 + n);
    }
    if n >= 10 {
        law_decimal(n / 10);
        let d = decimal(n);
        assert(d.drop_last() == decimal(n / 10));
        assert(d.last() == digit_char((n % 10) as int));
        assert((n / 10) * 10 + n % 10 == n);
        assert(d.last() as int == (n % 10) + 48);
        assert(digits_value(d, 10) == digits_value(d.drop_last(), 10) * 10 + (n % 10));
        assert(d[0] == decimal(n / 10)[0]);
        assert forall|i: int| 0 <= i < d.len() implies '0' <= #[trigger] d[i] <= '9' by {
            if i < d.len() - 1 {
                assert(d[i] == decimal(n / 10)[i]);
            }
        }
    }
}

/// Hexadecimal text is the digits of the number, most significant first:
/// only `0` to `9` and `a` to `f`, no leading zero, and read in base
/// sixteen it gives the number back.
pub proof fn law_hex(n: nat)
    ensures
        hex(n).len() > 0,
        forall|i: int|
            0 <= i < hex(n).len() ==> ('0' <= #[trigger] hex(n)[i] <= '9' || 'a' <= hex(n)[i]
                <= 'f'),
        n > 0 ==> hex(n)[0] != '0',
        digits_value(hex(n), 16) == n,
    decreases n,
{
    if n < 16 {
        assert(hex(n).drop_last() =~= Seq::<char>::empty());
        assert(n < 10 ==> hex(n).last() as int == n + 48);
        assert(n >= 10 ==> hex(n).last() as int == n + 87);
        assert(digits_value(hex(n), 16) == digits_value(hex(n).drop_last(), 16) * 16 + n);
    }
    if n >= 16 {
        law_hex(n / 16);
        let d = hex(n);
        assert(d.drop_last() == hex(n / 16));
        assert(d.last() == hex_digit_char((n % 16) as int));
        assert((n / 16) * 16 + n % 16 == n);
        assert(n % 16 < 10 ==> d.last() as int == (n % 16) + 48);
        assert(n % 16 >= 10 ==> d.last() as int == (n % 16) + 87);
        assert(digits_value(d, 16) == digits_value(d.drop_last(), 16) * 16 + (n % 16));
        assert(d[0] == hex(n / 16)[0]);
        assert forall|i: int| 0 <= i < d.len() implies ('0' <= #[trigger] d[i] <= '9' || 'a' <= d[i]
            <= 'f') by {
            if i < d.len() - 1 {
                assert(d[i] == hex(n / 16)[i]);
            }
        }
    }
}

} // verus!
