use vstd::prelude::*;

verus! {

/// Sixteen to the power `k`: the weight of the `k`-th nibble of a word.
pub open spec fn pow16(k: nat) -> nat
    decreases k,
{
    if k == 0 {
        1
    } else {
        16 * pow16((k - 1) as nat)
    }
}

/// The `d` nibbles of `n` that start `o` nibbles from the low end, as a number.
pub open spec fn hex_digits(n: u16, d: nat, o: nat) -> nat {
    ((n as nat) / pow16(o)) % pow16(d)
}

/// The value of bit `n` of `byte`, as 0 or 1.
pub open spec fn bit_of(byte: u8, n: u8) -> u8 {
    ((byte >> n) & 1u8) as u8
}

proof fn lemma_pow16_small(k: nat)
    requires
        k <= 3,
    ensures
        1 <= pow16(k) <= 4096,
        k < 3 ==> pow16(k + 1) == 16 * pow16(k),
        k < 3 ==> pow16(k) <= 256,
{
    reveal_with_fuel(pow16, 4);
}

/// `16^k` for `k <= 3`, the largest power of sixteen that a `u16` holds.
fn nibble_weight(k: u32) -> (r: u16)
    requires
        k <= 3,
    ensures
        r as nat == pow16(k as nat),
{
    let mut w: u16 = 1;
    let mut j: u32 = 0;
    while j < k
        invariant
            j <= k <= 3,
            w as nat == pow16(j as nat),
        decreases k - j,
    {
        proof {
            lemma_pow16_small(j as nat);
        }
        w = w * 16;
        j = j + 1;
    }
    w
}

/// Extracts `d` nibbles of `n`, starting `o` nibbles from its low end.
pub fn get_hex_digits(n: &u16, d: u32, o: u32) -> (r: usize)
    requires
        d <= 3,
        o <= 3,
    ensures
        r as nat == hex_digits(*n, d as nat, o as nat),
        r < pow16(d as nat),
{
    proof {
        lemma_pow16_small(d as nat);
        lemma_pow16_small(o as nat);
    }
    let base = nibble_weight(o);
    let modulus = nibble_weight(d);
    ((*n / base) % modulus) as usize
}

/// Whether bit `n` (counted from the least significant) of `byte` is 1.
pub fn is_bit_set(byte: &u8, n: u8) -> (r: bool)
    requires
        n < 8,
    ensures
        r == (bit_of(*byte, n) == 1),
{
    let b = *byte;
    let set = b & (1u8 << n) != 0;
    assert(set == (((b >> n) & 1u8) as u8 == 1)) by (bit_vector)
        requires
            n < 8,
            set == (b & (1u8 << n) != 0),
    ;
    set
}

/// Bit `n` of `byte`, as 0 or 1.
pub fn get_bit(byte: &u8, n: u8) -> (r: u8)
    requires
        n < 8,
    ensures
        r == bit_of(*byte, n),
        r <= 1,
{
    proof {
        let b = *byte;
        assert(((b >> n) & 1u8) as u8 <= 1) by (bit_vector);
    }
    if is_bit_set(byte, n) {
        1
    } else {
        0
    }
}

} // verus!
