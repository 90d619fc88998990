//! Sketch identities: 128-bit UUIDs with a hexadecimal rendering.

use vstd::prelude::*;

verus! {

/// A 128-bit universally unique identifier.
#[derive(Debug, Clone, Copy, PartialEq, Eq)]
pub struct Uuid {
    pub bytes: [u8; 16],
}

/// The lowercase hexadecimal digit for one value below 16.
pub open spec fn hex_digit(n: int) -> char {
    if n == 0 {
        '0'
    } else if n == 1 {
        '1'
    } else if n == 2 {
        '2'
    } else if n == 3 {
        '3'
    } else if n == 4 {
        '4'
    } else if n == 5 {
        '5'
    } else if n == 6 {
        '6'
    } else if n == 7 {
        '7'
    } else if n == 8 {
        '8'
    } else if n == 9 {
        '9'
    } else if n == 10 {
        'a'
    } else if n == 11 {
        'b'
    } else if n == 12 {
        'c'
    } else if n == 13 {
        'd'
    } else if n == 14 {
        'e'
    } else {
        'f'
    }
}

/// The two lowercase hexadecimal digits of one byte, high nibble first.
pub open spec fn hex_pair(b: u8) -> Seq<char> {
    seq![hex_digit(b as int / 16), hex_digit(b as int % 16)]
}

/// The lowercase hexadecimal rendering of a byte sequence, two digits a
/// byte, in order.
pub open spec fn hex_of(bytes: Seq<u8>) -> Seq<char>
    decreases bytes.len(),
{
    if bytes.len() == 0 {
        Seq::empty()
    } else {
        hex_of(bytes.drop_last()) + hex_pair(bytes.last())
    }
}

/// One round of 64-bit bit mixing, spelled out: two xor-shift steps
/// interleaved with two wrapping multiplications, then a final xor-shift.
pub open spec fn mix64_of(z0: u64) -> u64 {
    let z1 = vstd::wrapping::u64_specs::wrapping_mul(z0 ^ (z0 >> 30), 0xbf58476d1ce4e5b9u64);
    let z2 = vstd::wrapping::u64_specs::wrapping_mul(z1 ^ (z1 >> 27), 0x94d049bb133111ebu64);
    z2 ^ (z2 >> 31)
}

/// The identifier bytes drawn from one clock reading: the low word mixed
/// into bytes 0 to 7, the high word offset by the mixed low word and
/// mixed into bytes 8 to 15, least significant byte first, with the
/// version-4 and variant-1 marker bits forced in bytes 6 and 8.
pub open spec fn uuid_bytes_of_nanos(t: u128) -> Seq<u8> {
    let lo = mix64_of(t as u64);
    let hi = mix64_of(
        ((t >> 64) as u64) ^ vstd::wrapping::u64_specs::wrapping_add(lo, 0x9e3779b97f4a7c15u64),
    );
    seq![
        (lo & 0xff) as u8,
        ((lo >> 8) & 0xff) as u8,
        ((lo >> 16) & 0xff) as u8,
        ((lo >> 24) & 0xff) as u8,
        ((lo >> 32) & 0xff) as u8,
        ((lo >> 40) & 0xff) as u8,
        ((((lo >> 48) & 0xff) as u8) & 0x0f) | 0x40,
        ((lo >> 56) & 0xff) as u8,
        (((hi & 0xff) as u8) & 0x3f) | 0x80,
        ((hi >> 8) & 0xff) as u8,
        ((hi >> 16) & 0xff) as u8,
        ((hi >> 24) & 0xff) as u8,
        ((hi >> 32) & 0xff) as u8,
        ((hi >> 40) & 0xff) as u8,
        ((hi >> 48) & 0xff) as u8,
        ((hi >> 56) & 0xff) as u8,
    ]
}

/// Reads the wall clock. The result depends on the moment of the call, so
/// nothing is promised of it; the caller treats it as arbitrary.
///
/// Relies on std::time::SystemTime::now for a nanosecond timestamp.
#[verifier::external_body]
fn clock_nanos() -> u128 {
    std::time::SystemTime::now()
        .duration_since(std::time::SystemTime::UNIX_EPOCH)
        .map(|d| d.as_nanos())
        .unwrap_or(0)
}

/// One round of 64-bit bit mixing, spreading every input bit over the
/// whole word.
fn mix64(z0: u64) -> (r: u64)
    ensures
        r == mix64_of(z0),
{
    let z1 = (z0 ^ (z0 >> 30)).wrapping_mul(0xbf58476d1ce4e5b9u64);
    let z2 = (z1 ^ (z1 >> 27)).wrapping_mul(0x94d049bb133111ebu64);
    z2 ^ (z2 >> 31)
}

/// The lowercase hexadecimal digit for one nibble, as a one-character
/// string slice.
fn hex_digit_str(n: u8) -> (r: &'static str)
    requires
        n < 16,
    ensures
        r@ =~= seq![hex_digit(n as int)],
{
    proof {
        reveal_strlit("0");
        reveal_strlit("1");
        reveal_strlit("2");
        reveal_strlit("3");
        reveal_strlit("4");
        reveal_strlit("5");
        reveal_strlit("6");
        reveal_strlit("7");
        reveal_strlit("8");
        reveal_strlit("9");
        reveal_strlit("a");
        reveal_strlit("b");
        reveal_strlit("c");
        reveal_strlit("d");
        reveal_strlit("e");
        reveal_strlit("f");
    }
    match n {
        0 => "0",
        1 => "1",
        2 => "2",
        3 => "3",
        4 => "4",
        5 => "5",
        6 => "6",
        7 => "7",
        8 => "8",
        9 => "9",
        10 => "a",
        11 => "b",
        12 => "c",
        13 => "d",
        14 => "e",
        _ => "f",
    }
}

impl Uuid {
    /// The identifier carries the version-4 and variant-1 marker bits.
    pub open spec fn has_v4_markers(self) -> bool {
        &&& self.bytes@[6] & 0xf0 == 0x40
        &&& self.bytes@[8] & 0xc0 == 0x80
    }

    /// The identifier computed from one clock reading: exactly the bytes
    /// `uuid_bytes_of_nanos` describes, marker bits included.
    pub fn from_nanos(t: u128) -> (r: Uuid)
        ensures
            r.bytes@ == uuid_bytes_of_nanos(t),
            r.has_v4_markers(),
    {
        let lo = mix64(t as u64);
        let hi = mix64(((t >> 64) as u64) ^ lo.wrapping_add(0x9e3779b97f4a7c15u64));
        let bytes: [u8; 16] = [
            (lo & 0xff) as u8,
            ((lo >> 8) & 0xff) as u8,
            ((lo >> 16) & 0xff) as u8,
            ((lo >> 24) & 0xff) as u8,
            ((lo >> 32) & 0xff) as u8,
            ((lo >> 40) & 0xff) as u8,
            ((((lo >> 48) & 0xff) as u8) & 0x0f) | 0x40,
            ((lo >> 56) & 0xff) as u8,
            (((hi & 0xff) as u8) & 0x3f) | 0x80,
            ((hi >> 8) & 0xff) as u8,
            ((hi >> 16) & 0xff) as u8,
            ((hi >> 24) & 0xff) as u8,
            ((hi >> 32) & 0xff) as u8,
            ((hi >> 40) & 0xff) as u8,
            ((hi >> 48) & 0xff) as u8,
            ((hi >> 56) & 0xff) as u8,
        ];
        proof {
            assert(bytes@ =~= uuid_bytes_of_nanos(t));
            assert(forall|x: u8| #[trigger] ((x & 0x0f) | 0x40) & 0xf0 == 0x40) by (bit_vector);
            assert(forall|x: u8| #[trigger] ((x & 0x3f) | 0x80) & 0xc0 == 0x80) by (bit_vector);
        }
        Uuid { bytes }
    }

    /// Draw a fresh identifier from the wall clock. Which identifier
    /// comes out depends on the moment of the call — two draws are
    /// expected, though not guaranteed, to differ — but the computation
    /// from the clock reading is fixed: the result is
    /// `uuid_bytes_of_nanos` of the reading, so the marker bits are
    /// always set.
    pub fn generate() -> (r: Uuid)
        ensures
            r.has_v4_markers(),
    {
        Uuid::from_nanos(clock_nanos())
    }

    /// Render the identifier as 32 lowercase hexadecimal digits.
    pub fn to_hex(&self) -> (r: String)
        ensures
            r@ == hex_of(self.bytes@),
            r@.len() == 32,
    {
        let mut s = String::new();
        let mut i: usize = 0;
        while i < 16
            invariant
                i <= 16,
                s@ =~= hex_of(self.bytes@.take(i as int)),
                s@.len() == 2 * i,
            decreases 16 - i,
        {
            let b = self.bytes[i];
            let hi_str = hex_digit_str(b / 16);
            let lo_str = hex_digit_str(b % 16);
            s.append(hi_str);
            s.append(lo_str);
            proof {
                let full = self.bytes@.take(i + 1);
                assert(full.drop_last() =~= self.bytes@.take(i as int));
                assert(full.last() == self.bytes@[i as int]);
                assert(s@ =~= hex_of(self.bytes@.take(i as int)) + hex_pair(self.bytes@[i as int]));
            }
            i = i + 1;
        }
        proof {
            assert(self.bytes@.take(16) =~= self.bytes@);
        }
        s
    }
}

} // verus!
