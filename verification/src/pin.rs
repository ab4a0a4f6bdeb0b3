//! The six-digit PIN that both machines type to derive the session key.

use vstd::prelude::*;
use vstd::string::StringExecFns;
use crate::crypto::{os_random_fill, zeroed};

verus! {

/// The PIN is drawn from `0..PIN_RANGE`.
pub const PIN_RANGE: u32 = 999999;

/// The decimal digit character for `d`.
pub open spec fn digit_char(d: nat) -> char {
    ('0' as nat + d % 10) as char
}

/// `n` written with exactly six decimal digits, zero-padded on the left.
pub open spec fn pin_text(n: nat) -> Seq<char> {
    seq![
        digit_char(n / 100000),
        digit_char(n / 10000),
        digit_char(n / 1000),
        digit_char(n / 100),
        digit_char(n / 10),
        digit_char(n),
    ]
}

/// The little-endian value of eight bytes.
pub open spec fn le_u64(b: Seq<u8>) -> nat {
    (b[0] + 0x100 * b[1] + 0x1_0000 * b[2] + 0x100_0000 * b[3] + 0x1_0000_0000 * b[4]
        + 0x100_0000_0000 * b[5] + 0x1_0000_0000_0000 * b[6] + 0x100_0000_0000_0000 * b[7]) as nat
}

/// The PIN number that eight random bytes stand for: their little-endian
/// value reduced modulo `PIN_RANGE`.
pub open spec fn spec_pin_number(b: Seq<u8>) -> nat {
    le_u64(b) % (PIN_RANGE as nat)
}

/// Reduces eight random bytes to a PIN number: their little-endian value
/// modulo `PIN_RANGE`.
pub fn pin_number_from_bytes(b: &[u8; 8]) -> (n: u32)
    ensures
        n == spec_pin_number(b@),
        n < PIN_RANGE,
{
    let x7: u64 = b[7] as u64;
    let x6: u64 = b[6] as u64 + 0x100 * x7;
    let x5: u64 = b[5] as u64 + 0x100 * x6;
    let x4: u64 = b[4] as u64 + 0x100 * x5;
    let x3: u64 = b[3] as u64 + 0x100 * x4;
    let x2: u64 = b[2] as u64 + 0x100 * x3;
    let x1: u64 = b[1] as u64 + 0x100 * x2;
    let x0: u64 = b[0] as u64 + 0x100 * x1;
    assert(x0 == le_u64(b@));
    (x0 % 999999u64) as u32
}

/// The PIN that eight random bytes stand for.
pub fn pin_from_bytes(b: &[u8; 8]) -> (pin: String)
    ensures
        pin@ == pin_text(spec_pin_number(b@)),
{
    let n = pin_number_from_bytes(b);
    format_pin(n)
}

/// Eight bytes from the operating system's random source; `None` when the
/// source fails.
fn random_pin_bytes() -> (bytes: Option<[u8; 8]>) {
    let mut b = zeroed(8);
    if !os_random_fill(&mut b) {
        return None;
    }
    Some([b[0], b[1], b[2], b[3], b[4], b[5], b[6], b[7]])
}

fn digit_str(d: u32) -> (s: &'static str)
    requires
        d < 10,
    ensures
        s@ == seq![digit_char(d as nat)],
{
    match d {
        0 => {
            proof {
                reveal_strlit("0");
            }
            "0"
        },
        1 => {
            proof {
                reveal_strlit("1");
            }
            "1"
        },
        2 => {
            proof {
                reveal_strlit("2");
            }
            "2"
        },
        3 => {
            proof {
                reveal_strlit("3");
            }
            "3"
        },
        4 => {
            proof {
                reveal_strlit("4");
            }
            "4"
        },
        5 => {
            proof {
                reveal_strlit("5");
            }
            "5"
        },
        6 => {
            proof {
                reveal_strlit("6");
            }
            "6"
        },
        7 => {
            proof {
                reveal_strlit("7");
            }
            "7"
        },
        8 => {
            proof {
                reveal_strlit("8");
            }
            "8"
        },
        9 => {
            proof {
                reveal_strlit("9");
            }
            "9"
        },
        _ => {
            proof {
                reveal_strlit("9");
            }
            "9"
        },
    }
}

/// Writes `n` with exactly six decimal digits, zero-padded on the left.
pub fn format_pin(n: u32) -> (pin: String)
    requires
        n < 1_000_000,
    ensures
        pin@ == pin_text(n as nat),
{
    let mut pin = String::new();
    pin.append(digit_str(n / 100000 % 10));
    pin.append(digit_str(n / 10000 % 10));
    pin.append(digit_str(n / 1000 % 10));
    pin.append(digit_str(n / 100 % 10));
    pin.append(digit_str(n / 10 % 10));
    pin.append(digit_str(n % 10));
    assert(pin@ =~= pin_text(n as nat));
    pin
}

/// A fresh random PIN: the PIN that eight bytes from the operating system's
/// random source stand for; `None` when the source fails.
pub fn generate_pin() -> (pin: Option<String>)
    ensures
        pin matches Some(p) ==> exists|b: Seq<u8>|
            b.len() == 8 && p@ == #[trigger] pin_text(spec_pin_number(b)),
{
    match random_pin_bytes() {
        Some(b) => {
            let pin = pin_from_bytes(&b);
            assert(pin@ == pin_text(spec_pin_number(b@)));
            Some(pin)
        },
        None => None,
    }
}

/// Law: a PIN is always six characters long and made of decimal digits.
pub proof fn lemma_pin_is_six_digits(n: nat)
    ensures
        pin_text(n).len() == 6,
        forall|i: int| 0 <= i < 6 ==> '0' <= #[trigger] pin_text(n)[i] <= '9',
{
}

/// Law: every number below `PIN_RANGE` is the PIN number of some eight
/// bytes, so a PIN can be any of the `PIN_RANGE` numbers.
pub proof fn lemma_every_pin_number_reachable(n: nat)
    requires
        n < PIN_RANGE,
    ensures
        exists|b: Seq<u8>| b.len() == 8 && #[trigger] spec_pin_number(b) == n,
{
    let b: Seq<u8> = seq![
        (n % 0x100) as u8,
        ((n / 0x100) % 0x100) as u8,
        (n / 0x1_0000) as u8,
        0u8,
        0u8,
        0u8,
        0u8,
        0u8,
    ];
    assert(n / 0x1_0000 < 0x100);
    assert(le_u64(b) == n);
    assert(spec_pin_number(b) == n);
}

/// Law: different PIN numbers give different PINs.
pub proof fn lemma_pin_text_injective(m: nat, n: nat)
    requires
        m < 1_000_000,
        n < 1_000_000,
        pin_text(m) == pin_text(n),
    ensures
        m == n,
{
    assert(pin_text(m)[0] == pin_text(n)[0]);
    assert(pin_text(m)[1] == pin_text(n)[1]);
    assert(pin_text(m)[2] == pin_text(n)[2]);
    assert(pin_text(m)[3] == pin_text(n)[3]);
    assert(pin_text(m)[4] == pin_text(n)[4]);
    assert(pin_text(m)[5] == pin_text(n)[5]);
    assert(m / 100000 % 10 == n / 100000 % 10);
    assert(m / 10000 % 10 == n / 10000 % 10);
    assert(m / 1000 % 10 == n / 1000 % 10);
    assert(m / 100 % 10 == n / 100 % 10);
    assert(m / 10 % 10 == n / 10 % 10);
    assert(m % 10 == n % 10);
    assert(m == n) by (nonlinear_arith)
        requires
            m < 1_000_000,
            n < 1_000_000,
            m / 100000 % 10 == n / 100000 % 10,
            m / 10000 % 10 == n / 10000 % 10,
            m / 1000 % 10 == n / 1000 % 10,
            m / 100 % 10 == n / 100 % 10,
            m / 10 % 10 == n / 10 % 10,
            m % 10 == n % 10,
    ;
}

} // verus!
