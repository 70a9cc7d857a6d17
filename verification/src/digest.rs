use vstd::prelude::*;
use vstd::wrapping::u64_specs;

verus! {

/// The starting state of the running hash.
pub const DIGEST_OFFSET: u64 = 0xcbf2_9ce4_8422_2325;

/// The multiplier folded in after each byte.
pub const DIGEST_PRIME: u64 = 0x0000_0100_0000_01b3;

/// Number of hex characters in a digest.
pub const DIGEST_LEN: usize = 16;

/// The running 64-bit hash over a byte sequence: start from
/// `DIGEST_OFFSET`, and for each byte xor it in and multiply by
/// `DIGEST_PRIME` with wraparound.
pub open spec fn fold_spec(data: Seq<u8>) -> u64
    decreases data.len(),
{
    if data.len() == 0 {
        DIGEST_OFFSET
    } else {
        u64_specs::wrapping_mul(fold_spec(data.drop_last()) ^ (data.last() as u64), DIGEST_PRIME)
    }
}

/// The lowercase hex character for a value below 16.
pub open spec fn hex_digit(n: u64) -> char {
    if n == 0 {
        '0'
    } else if n == 1 {
        '1'
    } else if n == 2 {
        '2'
    } else if n == 3 {
        '3'
    } else if n == 4 {
        '4'
    } else if n == 5 {
        '5'
    } else if n == 6 {
        '6'
    } else if n == 7 {
        '7'
    } else if n == 8 {
        '8'
    } else if n == 9 {
        '9'
    } else if n == 10 {
        'a'
    } else if n == 11 {
        'b'
    } else if n == 12 {
        'c'
    } else if n == 13 {
        'd'
    } else if n == 14 {
        'e'
    } else {
        'f'
    }
}

/// The 16-character lowercase hex rendering of a 64-bit value,
/// most significant nibble first.
pub open spec fn hex_seq(h: u64) -> Seq<char> {
    Seq::new(16, |i: int| hex_digit((h >> (((15 - i) * 4) as u64)) & 0xf))
}

/// What the textual digest of a byte sequence is: the hex rendering of
/// the folded hash. Every digest has exactly 16 characters.
pub open spec fn digest_spec(data: Seq<u8>) -> Seq<char> {
    hex_seq(fold_spec(data))
}

fn hex_char(n: u64) -> (c: &'static str)
    requires
        n < 16,
    ensures
        c@.len() == 1,
        c@[0] == hex_digit(n),
{
    proof {
        reveal_strlit("0");
        reveal_strlit("1");
        reveal_strlit("2");
        reveal_strlit("3");
        reveal_strlit("4");
        reveal_strlit("5");
        reveal_strlit("6");
        reveal_strlit("7");
        reveal_strlit("8");
        reveal_strlit("9");
        reveal_strlit("a");
        reveal_strlit("b");
        reveal_strlit("c");
        reveal_strlit("d");
        reveal_strlit("e");
        reveal_strlit("f");
    }
    match n {
        0 => "0",
        1 => "1",
        2 => "2",
        3 => "3",
        4 => "4",
        5 => "5",
        6 => "6",
        7 => "7",
        8 => "8",
        9 => "9",
        10 => "a",
        11 => "b",
        12 => "c",
        13 => "d",
        14 => "e",
        _ => "f",
    }
}

/// Computes the textual digest of a byte sequence: a fixed-width,
/// lowercase-hex string determined by the bytes alone. Any sequence,
/// including the empty one, has a digest.
pub fn digest(data: &Vec<u8>) -> (r: String)
    ensures
        r@ == digest_spec(data@),
        r@.len() == 16,
{
    let mut h: u64 = DIGEST_OFFSET;
    let mut i: usize = 0;
    while i < data.len()
        invariant
            i <= data.len(),
            h == fold_spec(data@.take(i as int)),
        decreases data.len() - i,
    {
        h = (h ^ (data[i] as u64)).wrapping_mul(DIGEST_PRIME);
        i = i + 1;
        proof {
            assert(data@.take(i as int).drop_last() =~= data@.take(i - 1));
            assert(data@.take(i as int).last() == data@[i - 1]);
        }
    }
    proof {
        assert(data@.take(data.len() as int) =~= data@);
    }
    let mut s = String::new();
    let mut k: usize = 0;
    while k < 16
        invariant
            k <= 16,
            s@ =~= hex_seq(h).take(k as int),
        decreases 16 - k,
    {
        let shift: u64 = ((15 - k) as u64) * 4;
        let masked: u64 = (h >> shift) & 0xf;
        proof {
            assert((h >> shift) & 0xf < 16) by (bit_vector);
        }
        s.append(hex_char(masked));
        k = k + 1;
        proof {
            assert(s@ =~= hex_seq(h).take(k as int));
        }
    }
    proof {
        assert(hex_seq(h).take(16) =~= hex_seq(h));
    }
    s
}

/// Hashing is deterministic: the digest is a function of the byte
/// sequence alone, so equal contents always produce equal digests.
pub proof fn lemma_digest_deterministic(b1: Seq<u8>, b2: Seq<u8>)
    requires
        b1 == b2,
    ensures
        digest_spec(b1) == digest_spec(b2),
{
}

} // verus!
