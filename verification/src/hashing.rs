use vstd::prelude::*;

verus! {

/// Folds one more word into a running hash.
pub open spec fn mix_spec(h: u64, x: u64) -> u64 {
    (h ^ x).wrapping_mul(0x0000_0100_0000_01b3)
}

pub fn mix(h: u64, x: u64) -> (r: u64)
    ensures
        r == mix_spec(h, x),
{
    (h ^ x).wrapping_mul(0x0000_0100_0000_01b3)
}

/// The hash of a sequence of words: the words folded in from left to right.
pub open spec fn fold_spec(words: Seq<u64>) -> u64
    decreases words.len(),
{
    if words.len() == 0 {
        0xcbf2_9ce4_8422_2325
    } else {
        mix_spec(fold_spec(words.drop_last()), words.last())
    }
}

/// The hash of a byte string.
pub open spec fn bytes_spec(bytes: Seq<u8>) -> u64 {
    fold_spec(bytes.map_values(|b: u8| b as u64))
}

pub fn hash_bytes(bytes: &[u8]) -> (r: u64)
    ensures
        r == bytes_spec(bytes@),
{
    let ghost words = bytes@.map_values(|b: u8| b as u64);
    let mut acc: u64 = 0xcbf2_9ce4_8422_2325;
    let mut i: usize = 0;
    while i < bytes.len()
        invariant
            i <= bytes@.len(),
            words == bytes@.map_values(|b: u8| b as u64),
            acc == fold_spec(words.take(i as int)),
        decreases bytes@.len() - i,
    {
        proof {
            assert(words.take(i as int + 1).drop_last() =~= words.take(i as int));
        }
        acc = mix(acc, bytes[i] as u64);
        i += 1;
    }
    proof {
        assert(words.take(i as int) =~= words);
    }
    acc
}

} // verus!
