//! Line fingerprints: a short content token used to detect that a line
//! changed since a caller last saw it.
use vstd::prelude::*;
use vstd::string::StringSliceAdditionalSpecFns;

verus! {

/// Starting value of the running hash.
pub const HASH_SEED: u32 = 2166136261;

/// Odd multiplier applied to the running hash before each byte.
pub const HASH_PRIME: u32 = 16777619;

/// Mask keeping the low twelve bits of the final hash.
pub const HASH_MASK: u32 = 0xFFF;

/// One step of the running hash: wrap-multiply, then fold the byte in.
pub open spec fn hash_step(h: u32, b: u8) -> u32 {
    (((h as nat * HASH_PRIME as nat) % 0x1_0000_0000) as u32) ^ (b as u32)
}

/// The running hash after consuming `bytes` in order.
pub open spec fn running_hash(bytes: Seq<u8>) -> u32
    decreases bytes.len(),
{
    if bytes.len() == 0 {
        HASH_SEED
    } else {
        hash_step(running_hash(bytes.drop_last()), bytes.last())
    }
}

/// The numeric fingerprint of a line: the low twelve bits of its hash.
pub open spec fn fingerprint_value(bytes: Seq<u8>) -> u32 {
    running_hash(bytes) & HASH_MASK
}

/// The lowercase hexadecimal digit for `d < 16`.
pub open spec fn hex_char(d: nat) -> char {
    if d < 10 {
        ((48 + d) as u8) as char
    } else {
        ((87 + d) as u8) as char
    }
}

/// Lowercase hexadecimal digits of `v`, with no leading zeros (`"0"` for zero).
pub open spec fn hex_digits(v: nat) -> Seq<char>
    decreases v,
{
    if v < 16 {
        seq![hex_char(v)]
    } else {
        hex_digits(v / 16).push(hex_char(v % 16))
    }
}

/// Hexadecimal rendering padded with zeros to at least two digits.
pub open spec fn hex_min2(v: nat) -> Seq<char> {
    if v < 16 {
        seq!['0'] + hex_digits(v)
    } else {
        hex_digits(v)
    }
}

/// The fingerprint text of a line given by its bytes.
pub open spec fn fingerprint_of(bytes: Seq<u8>) -> Seq<char> {
    hex_min2(fingerprint_value(bytes) as nat)
}

pub(crate) fn hex_digit_str(d: u32) -> (r: &'static str)
    requires
        d < 16,
    ensures
        r@ == seq![hex_char(d as nat)],
{
    proof {
        reveal_strlit("0");
        reveal_strlit("1");
        reveal_strlit("2");
        reveal_strlit("3");
        reveal_strlit("4");
        reveal_strlit("5");
        reveal_strlit("6");
        reveal_strlit("7");
        reveal_strlit("8");
        reveal_strlit("9");
        reveal_strlit("a");
        reveal_strlit("b");
        reveal_strlit("c");
        reveal_strlit("d");
        reveal_strlit("e");
        reveal_strlit("f");
    }
    let r = match d {
        0 => "0",
        1 => "1",
        2 => "2",
        3 => "3",
        4 => "4",
        5 => "5",
        6 => "6",
        7 => "7",
        8 => "8",
        9 => "9",
        10 => "a",
        11 => "b",
        12 => "c",
        13 => "d",
        14 => "e",
        _ => "f",
    };
    assert(r@ =~= seq![hex_char(d as nat)]);
    r
}

/// Renders a value below 4096 as lowercase hex, at least two digits wide.
pub fn render_fingerprint(v: u32) -> (r: String)
    requires
        v < 4096,
    ensures
        r@ == hex_min2(v as nat),
{
    let mut r = String::new();
    if v < 16 {
        proof {
            reveal_strlit("0");
        }
        r.append("0");
        r.append(hex_digit_str(v));
        assert(r@ =~= hex_min2(v as nat));
    } else if v < 256 {
        r.append(hex_digit_str(v / 16));
        r.append(hex_digit_str(v % 16));
        assert(hex_digits((v / 16) as nat) == seq![hex_char((v / 16) as nat)]);
        assert(r@ =~= hex_min2(v as nat));
    } else {
        r.append(hex_digit_str(v / 256));
        r.append(hex_digit_str((v / 16) % 16));
        r.append(hex_digit_str(v % 16));
        assert((v / 16) / 16 == v / 256);
        assert(hex_digits((v / 256) as nat) == seq![hex_char((v / 256) as nat)]);
        assert(hex_digits((v / 16) as nat) =~= seq![hex_char((v / 256) as nat)].push(
            hex_char(((v / 16) % 16) as nat),
        ));
        assert(r@ =~= hex_min2(v as nat));
    }
    r
}

/// Numeric fingerprint of a line's bytes.
pub fn fingerprint_bytes(bytes: &[u8]) -> (r: u32)
    ensures
        r == fingerprint_value(bytes@),
        r < 4096,
{
    let mut hash: u32 = HASH_SEED;
    let mut i: usize = 0;
    while i < bytes.len()
        invariant
            i <= bytes@.len(),
            hash == running_hash(bytes@.subrange(0, i as int)),
        decreases bytes@.len() - i,
    {
        hash = hash.wrapping_mul(HASH_PRIME);
        hash = hash ^ (bytes[i] as u32);
        assert(bytes@.subrange(0, i + 1).drop_last() =~= bytes@.subrange(0, i as int));
        i = i + 1;
    }
    assert(bytes@.subrange(0, bytes@.len() as int) =~= bytes@);
    let r = hash & HASH_MASK;
    assert(r <= 0xFFF) by (bit_vector)
        requires
            r == hash & 0xFFF,
    ;
    r
}

/// Fingerprint text of one line (line ending already removed).
///
/// The same content always gives the same text; values of 256 and above
/// render as three digits.
pub fn compute_line_hash(line: &str) -> (r: String)
    ensures
        r@ == fingerprint_of(line.spec_bytes()),
{
    let v = fingerprint_bytes(line.as_bytes());
    render_fingerprint(v)
}

/// A fingerprint depends on the line's bytes alone: equal lines, wherever
/// they stand, give equal fingerprints.
pub proof fn lemma_fingerprint_deterministic(a: Seq<u8>, b: Seq<u8>)
    requires
        a == b,
    ensures
        fingerprint_of(a) == fingerprint_of(b),
{
}

/// A fingerprint is two hex digits below 256 and three from 256 on.
pub proof fn lemma_fingerprint_width(bytes: Seq<u8>)
    ensures
        fingerprint_value(bytes) < 256 ==> fingerprint_of(bytes).len() == 2,
        fingerprint_value(bytes) >= 256 ==> fingerprint_of(bytes).len() == 3,
{
    let v = fingerprint_value(bytes);
    let h = running_hash(bytes);
    assert(h & 0xFFF <= 0xFFF) by (bit_vector);
    let n = v as nat;
    if n >= 16 {
        assert(hex_digits(n / 16) == if n / 16 < 16 {
            seq![hex_char(n / 16)]
        } else {
            hex_digits(n / 256).push(hex_char((n / 16) % 16))
        });
        if n >= 256 {
            assert(n / 16 / 16 == n / 256);
            assert(n / 256 < 16);
        }
    }
}

} // verus!
