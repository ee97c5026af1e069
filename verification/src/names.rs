//! Deterministic names for the devices: `vdev<index>` in decimal.
//!
//! Names are a pure function of the device index, so two distinct indices
//! always get distinct names — the uniqueness the device table promises for
//! the lifetime of the family.

use vstd::prelude::*;
use vstd::string::StringExecFns;

verus! {

/// The character for one decimal digit.
pub open spec fn digit_char(d: nat) -> char
    recommends
        d < 10,
{
    if d == 0 {
        '0'
    } else if d == 1 {
        '1'
    } else if d == 2 {
        '2'
    } else if d == 3 {
        '3'
    } else if d == 4 {
        '4'
    } else if d == 5 {
        '5'
    } else if d == 6 {
        '6'
    } else if d == 7 {
        '7'
    } else if d == 8 {
        '8'
    } else {
        '9'
    }
}

/// The decimal digits of `n`, most significant first, with no leading
/// zeros (zero itself is the single digit `0`).
pub open spec fn decimal_digits(n: nat) -> Seq<char>
    decreases n,
{
    if n < 10 {
        seq![digit_char(n)]
    } else {
        decimal_digits(n / 10).push(digit_char(n % 10))
    }
}

/// The externally visible name of the device with the given index.
pub open spec fn device_name_spec(index: nat) -> Seq<char> {
    seq!['v', 'd', 'e', 'v'] + decimal_digits(index)
}

/// The one-character string for a decimal digit.
fn digit_string(d: u64) -> (s: String)
    requires
        d < 10,
    ensures
        s@ == seq![digit_char(d as nat)],
{
    let s = if d == 0 {
        String::from_str("0")
    } else if d == 1 {
        String::from_str("1")
    } else if d == 2 {
        String::from_str("2")
    } else if d == 3 {
        String::from_str("3")
    } else if d == 4 {
        String::from_str("4")
    } else if d == 5 {
        String::from_str("5")
    } else if d == 6 {
        String::from_str("6")
    } else if d == 7 {
        String::from_str("7")
    } else if d == 8 {
        String::from_str("8")
    } else {
        String::from_str("9")
    };
    proof {
        reveal_strlit("0");
        reveal_strlit("1");
        reveal_strlit("2");
        reveal_strlit("3");
        reveal_strlit("4");
        reveal_strlit("5");
        reveal_strlit("6");
        reveal_strlit("7");
        reveal_strlit("8");
        reveal_strlit("9");
        assert(s@ =~= seq![digit_char(d as nat)]);
    }
    s
}

/// `n` written in decimal, most significant digit first.
pub fn decimal_string(n: u64) -> (s: String)
    ensures
        s@ == decimal_digits(n as nat),
    decreases n,
{
    if n < 10 {
        digit_string(n)
    } else {
        let mut s = decimal_string(n / 10);
        let digit = digit_string(n % 10);
        s.append(digit.as_str());
        proof {
            assert(s@ =~= decimal_digits(n as nat));
        }
        s
    }
}

/// The name the device with the given index is registered under.
pub fn device_name(index: u64) -> (name: String)
    ensures
        name@ == device_name_spec(index as nat),
{
    let mut name = String::from_str("vdev");
    let digits = decimal_string(index);
    name.append(digits.as_str());
    proof {
        reveal_strlit("vdev");
        assert(name@ =~= device_name_spec(index as nat));
    }
    name
}

/// A decimal rendering determines its number: distinct numbers never share
/// their digit sequence.
pub proof fn lemma_decimal_digits_injective(a: nat, b: nat)
    ensures
        decimal_digits(a) == decimal_digits(b) ==> a == b,
    decreases a + b,
{
    if decimal_digits(a) == decimal_digits(b) {
        if a < 10 && b < 10 {
            assert(decimal_digits(a)[0] == digit_char(a));
            assert(decimal_digits(b)[0] == digit_char(b));
            assert(a == b);
        } else if a < 10 {
            lemma_decimal_digits_at_least_two(b);
        } else if b < 10 {
            lemma_decimal_digits_at_least_two(a);
        } else {
            let prefix_a = decimal_digits(a / 10);
            let prefix_b = decimal_digits(b / 10);
            assert(decimal_digits(a) == prefix_a.push(digit_char(a % 10)));
            assert(decimal_digits(b) == prefix_b.push(digit_char(b % 10)));
            assert(prefix_a.len() == prefix_b.len());
            let last = prefix_a.len() as int;
            assert(decimal_digits(a)[last] == digit_char(a % 10));
            assert(decimal_digits(b)[last] == digit_char(b % 10));
            assert(a % 10 == b % 10);
            assert(prefix_a =~= prefix_b) by {
                assert forall|i: int| 0 <= i < prefix_a.len() implies prefix_a[i] == prefix_b[i] by {
                    assert(decimal_digits(a)[i] == prefix_a[i]);
                    assert(decimal_digits(b)[i] == prefix_b[i]);
                }
            }
            lemma_decimal_digits_injective(a / 10, b / 10);
            assert(a == (a / 10) * 10 + a % 10);
            assert(b == (b / 10) * 10 + b % 10);
        }
    }
}

/// A number of ten or more has at least two decimal digits (and every
/// number has at least one).
pub proof fn lemma_decimal_digits_at_least_two(n: nat)
    ensures
        1 <= decimal_digits(n).len(),
        n >= 10 ==> 2 <= decimal_digits(n).len(),
    decreases n,
{
    if n >= 10 {
        lemma_decimal_digits_at_least_two(n / 10);
    }
}

/// Device names are unique: distinct indices always carry distinct names.
pub proof fn lemma_device_names_distinct(a: nat, b: nat)
    ensures
        a != b ==> device_name_spec(a) != device_name_spec(b),
{
    if a != b && device_name_spec(a) == device_name_spec(b) {
        let digits_a = decimal_digits(a);
        let digits_b = decimal_digits(b);
        assert(device_name_spec(a).len() == 4 + digits_a.len());
        assert(device_name_spec(b).len() == 4 + digits_b.len());
        assert(digits_a.len() == digits_b.len());
        assert(digits_a =~= digits_b) by {
            assert forall|i: int| 0 <= i < digits_a.len() implies digits_a[i] == digits_b[i] by {
                assert(device_name_spec(a)[4 + i] == digits_a[i]);
                assert(device_name_spec(b)[4 + i] == digits_b[i]);
            }
        }
        lemma_decimal_digits_injective(a, b);
    }
}

} // verus!
