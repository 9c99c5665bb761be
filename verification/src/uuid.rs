//! Fresh identifiers for alarm and error episodes: random version-4 UUIDs.
//! The randomness comes from the `rand` crate; the textual form is built
//! here.

use vstd::prelude::*;

verus! {

/// Relies on `rand::random::<u128>`: 128 random bits. Nothing is promised
/// of the value.
#[verifier::external_body]
fn random_u128() -> u128 {
    rand::random::<u128>()
}

/// The lower-case hexadecimal digit character for a value below sixteen.
pub open spec fn spec_hex_digit(d: nat) -> char {
    if d == 0 {
        '0'
    } else if d == 1 {
        '1'
    } else if d == 2 {
        '2'
    } else if d == 3 {
        '3'
    } else if d == 4 {
        '4'
    } else if d == 5 {
        '5'
    } else if d == 6 {
        '6'
    } else if d == 7 {
        '7'
    } else if d == 8 {
        '8'
    } else if d == 9 {
        '9'
    } else if d == 10 {
        'a'
    } else if d == 11 {
        'b'
    } else if d == 12 {
        'c'
    } else if d == 13 {
        'd'
    } else if d == 14 {
        'e'
    } else {
        'f'
    }
}

/// The one-character string for a hexadecimal digit.
fn hex_str(d: u8) -> (r: &'static str)
    requires
        d < 16,
    ensures
        r@ =~= seq![spec_hex_digit(d as nat)],
{
    proof {
        reveal_strlit("0");
        reveal_strlit("1");
        reveal_strlit("2");
        reveal_strlit("3");
        reveal_strlit("4");
        reveal_strlit("5");
        reveal_strlit("6");
        reveal_strlit("7");
        reveal_strlit("8");
        reveal_strlit("9");
        reveal_strlit("a");
        reveal_strlit("b");
        reveal_strlit("c");
        reveal_strlit("d");
        reveal_strlit("e");
        reveal_strlit("f");
    }
    if d == 0 {
        "0"
    } else if d == 1 {
        "1"
    } else if d == 2 {
        "2"
    } else if d == 3 {
        "3"
    } else if d == 4 {
        "4"
    } else if d == 5 {
        "5"
    } else if d == 6 {
        "6"
    } else if d == 7 {
        "7"
    } else if d == 8 {
        "8"
    } else if d == 9 {
        "9"
    } else if d == 10 {
        "a"
    } else if d == 11 {
        "b"
    } else if d == 12 {
        "c"
    } else if d == 13 {
        "d"
    } else if d == 14 {
        "e"
    } else {
        "f"
    }
}

/// The nibble of `x` with weight `16^k`.
fn nibble(x: u128, k: usize) -> (r: u8)
    requires
        k < 32,
    ensures
        r < 16,
{
    let shifted: u128 = x >> ((4 * k) as u32);
    let masked: u128 = shifted & 0xf;
    proof {
        assert(shifted & 0xf < 16) by (bit_vector);
    }
    masked as u8
}

/// Appends `count` hexadecimal digit characters drawn from the nibbles of
/// `x`, starting at the nibble with weight `16^(31 - start)`.
fn push_hex_nibbles(r: &mut String, x: u128, start: usize, count: usize)
    requires
        start + count <= 32,
    ensures
        final(r)@.len() == old(r)@.len() + count,
        forall|i: int| 0 <= i < old(r)@.len() ==> final(r)@[i] == old(r)@[i],
{
    let ghost base = r@;
    for j in 0..count
        invariant
            start + count <= 32,
            r@.len() == base.len() + j,
            forall|i: int| 0 <= i < base.len() ==> r@[i] == base[i],
    {
        let d = nibble(x, 31 - (start + j));
        r.append(hex_str(d));
    }
}

/// A fresh random identifier in the canonical 8-4-4-4-12 form of RFC 4122,
/// version 4: 36 characters with dashes at positions 8, 13, 18 and 23 and
/// the version digit `4` at position 14.
pub fn new_uuid_v4() -> (r: String)
    ensures
        r@.len() == 36,
        r@[8] == '-',
        r@[13] == '-',
        r@[18] == '-',
        r@[23] == '-',
        r@[14] == '4',
{
    let x = random_u128();
    let mut r = String::new();
    push_hex_nibbles(&mut r, x, 0, 8);
    r.append("-");
    proof {
        reveal_strlit("-");
        assert(r@[8] == '-');
    }
    push_hex_nibbles(&mut r, x, 8, 4);
    r.append("-");
    proof {
        reveal_strlit("-");
        assert(r@.len() == 14);
        assert(r@[13] == '-');
    }
    r.append(hex_str(4));
    proof {
        assert(r@[14] == '4');
    }
    push_hex_nibbles(&mut r, x, 13, 3);
    r.append("-");
    proof {
        reveal_strlit("-");
        assert(r@.len() == 19);
        assert(r@[18] == '-');
    }
    let n16 = nibble(x, 16);
    let v = (n16 & 0x3) | 0x8;
    proof {
        assert((n16 & 0x3) | 0x8 < 16) by (bit_vector);
    }
    r.append(hex_str(v));
    push_hex_nibbles(&mut r, x, 17, 3);
    r.append("-");
    proof {
        reveal_strlit("-");
        assert(r@.len() == 24);
        assert(r@[23] == '-');
    }
    push_hex_nibbles(&mut r, x, 20, 12);
    proof {
        assert(r@.len() == 36);
    }
    r
}

} // verus!
