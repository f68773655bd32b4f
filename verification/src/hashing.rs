//! A stable, non-cryptographic 64-bit hash for deriving storage keys.
//!
//! The sandboxed-web backend cannot use filesystem-shaped paths as keys,
//! so a missing `browser` candidate falls back to the hash of the
//! `generic` candidate: FNV-1a over the string's UTF-8 bytes, rendered
//! as lowercase hexadecimal.  The same input always yields the same key,
//! in every process and on every machine.

use vstd::prelude::*;
use vstd::string::StrSliceExecFns;
use vstd::string::StringExecFns;

verus! {

/// FNV-1a 64-bit offset basis.
pub const FNV_OFFSET: u64 = 0xcbf2_9ce4_8422_2325;

/// FNV-1a 64-bit prime.
pub const FNV_PRIME: u64 = 0x100_0000_01b3;

/// One FNV-1a round: fold a byte into the running state.
pub open spec fn fnv1a_step(h: u64, b: u8) -> u64 {
    vstd::wrapping::u64_specs::wrapping_mul(h ^ (b as u64), FNV_PRIME)
}

/// The FNV-1a 64-bit hash of a byte sequence.
pub open spec fn fnv1a(bytes: Seq<u8>) -> u64
    decreases bytes.len(),
{
    if bytes.len() == 0 {
        FNV_OFFSET
    } else {
        fnv1a_step(fnv1a(bytes.drop_last()), bytes.last())
    }
}

/// The lowercase hexadecimal digit for a value below 16.
pub open spec fn hex_digit(d: u64) -> char {
    if d == 0 {
        '0'
    } else if d == 1 {
        '1'
    } else if d == 2 {
        '2'
    } else if d == 3 {
        '3'
    } else if d == 4 {
        '4'
    } else if d == 5 {
        '5'
    } else if d == 6 {
        '6'
    } else if d == 7 {
        '7'
    } else if d == 8 {
        '8'
    } else if d == 9 {
        '9'
    } else if d == 10 {
        'a'
    } else if d == 11 {
        'b'
    } else if d == 12 {
        'c'
    } else if d == 13 {
        'd'
    } else if d == 14 {
        'e'
    } else {
        'f'
    }
}

/// The lowercase hexadecimal rendering of `v`, without leading zeros.
pub open spec fn hex_of(v: u64) -> Seq<char>
    decreases v,
{
    if v < 16 {
        seq![hex_digit(v)]
    } else {
        hex_of(v / 16).push(hex_digit(v % 16))
    }
}

/// The storage key derived from a string: the FNV-1a hash of its UTF-8
/// bytes, rendered as lowercase hexadecimal.
pub open spec fn hash_of(s: Seq<char>) -> Seq<char> {
    hex_of(fnv1a(vstd::utf8::encode_utf8(s)))
}

/// True for the sixteen characters a rendered hash may contain.
pub open spec fn is_lower_hex_digit(c: char) -> bool {
    ('0' <= c && c <= '9') || ('a' <= c && c <= 'f')
}

/// Every character of a rendered hash value is a lowercase hexadecimal
/// digit, so a derived key holds no path separator or home marker.
pub proof fn lemma_hex_chars(v: u64)
    ensures
        forall|i: int| 0 <= i < hex_of(v).len() ==> is_lower_hex_digit(#[trigger] hex_of(v)[i]),
    decreases v,
{
    if v < 16 {
        assert(is_lower_hex_digit(hex_of(v)[0]));
    } else {
        lemma_hex_chars(v / 16);
        assert forall|i: int| 0 <= i < hex_of(v).len() implies is_lower_hex_digit(
            hex_of(v)[i],
        ) by {
            if i < hex_of(v).len() - 1 {
                assert(hex_of(v)[i] == hex_of(v / 16)[i]);
            } else {
                assert(hex_of(v)[i] == hex_digit(v % 16));
            }
        }
    }
}

/// Every character of a derived storage key is a lowercase hexadecimal
/// digit: keys are safe for a flat key-value store.
pub proof fn lemma_hash_key_safe(s: Seq<char>)
    ensures
        forall|i: int| 0 <= i < hash_of(s).len() ==> is_lower_hex_digit(#[trigger] hash_of(s)[i]),
{
    lemma_hex_chars(fnv1a(vstd::utf8::encode_utf8(s)));
}

fn hex_digit_str(d: u64) -> (r: &'static str)
    requires
        d < 16,
    ensures
        r@ == seq![hex_digit(d)],
{
    let r: &'static str = if d == 0 {
        "0"
    } else if d == 1 {
        "1"
    } else if d == 2 {
        "2"
    } else if d == 3 {
        "3"
    } else if d == 4 {
        "4"
    } else if d == 5 {
        "5"
    } else if d == 6 {
        "6"
    } else if d == 7 {
        "7"
    } else if d == 8 {
        "8"
    } else if d == 9 {
        "9"
    } else if d == 10 {
        "a"
    } else if d == 11 {
        "b"
    } else if d == 12 {
        "c"
    } else if d == 13 {
        "d"
    } else if d == 14 {
        "e"
    } else {
        "f"
    };
    proof {
        reveal_strlit("0");
        reveal_strlit("1");
        reveal_strlit("2");
        reveal_strlit("3");
        reveal_strlit("4");
        reveal_strlit("5");
        reveal_strlit("6");
        reveal_strlit("7");
        reveal_strlit("8");
        reveal_strlit("9");
        reveal_strlit("a");
        reveal_strlit("b");
        reveal_strlit("c");
        reveal_strlit("d");
        reveal_strlit("e");
        reveal_strlit("f");
        assert(r@ =~= seq![hex_digit(d)]);
    }
    r
}

fn hex_string(v: u64) -> (r: String)
    ensures
        r@ == hex_of(v),
    decreases v,
{
    let d = v % 16;
    let digit = hex_digit_str(d);
    if v < 16 {
        assert(d == v);
        digit.to_owned()
    } else {
        let mut prefix = hex_string(v / 16);
        prefix.append(digit);
        proof {
            assert(prefix@ =~= hex_of(v));
        }
        prefix
    }
}

/// Hashes a string to its storage key: a stable FNV-1a 64-bit hash of
/// its UTF-8 bytes, rendered as lowercase hexadecimal.  Equal inputs
/// always yield equal keys.
pub fn hash(s: &str) -> (r: String)
    ensures
        r@ == hash_of(s@),
{
    let bytes = s.as_bytes();
    let n = bytes.len();
    let mut h: u64 = FNV_OFFSET;
    let mut i: usize = 0;
    while i < n
        invariant
            i <= n,
            n == bytes@.len(),
            bytes@ == vstd::utf8::encode_utf8(s@),
            h == fnv1a(bytes@.take(i as int)),
        decreases n - i,
    {
        let b = *vstd::slice::slice_index_get(bytes, i);
        h = (h ^ (b as u64)).wrapping_mul(FNV_PRIME);
        proof {
            assert(bytes@.take(i + 1).drop_last() =~= bytes@.take(i as int));
            assert(bytes@.take(i + 1).last() == bytes@[i as int]);
        }
        i = i + 1;
    }
    proof {
        assert(bytes@.take(n as int) =~= bytes@);
    }
    hex_string(h)
}

} // verus!
