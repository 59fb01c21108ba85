use vstd::prelude::*;

verus! {

/// The fixed key of the byte cipher.
pub const KEY: u8 = 42;

/// The key used to encrypt and decrypt.
pub fn get_key() -> (r: u8)
    ensures
        r == KEY,
{
    KEY
}

/// `data` with every byte exclusive-or'ed with `key`.
pub open spec fn xor_all(data: Seq<u8>, key: u8) -> Seq<u8> {
    Seq::new(data.len(), |j: int| data[j] ^ key)
}

/// Encrypts or decrypts `data` in place: every byte is exclusive-or'ed with `key`, so
/// applying it twice with the same key restores the input.
pub fn encrypt_decrypt(data: &mut [u8], key: u8)
    ensures
        final(data)@ == xor_all(old(data)@, key),
{
    let mut j: usize = 0;
    while j < data.len()
        invariant
            j <= data@.len(),
            data@.len() == old(data)@.len(),
            forall|k: int| 0 <= k < j ==> #[trigger] data@[k] == old(data)@[k] ^ key,
            forall|k: int| j <= k < data@.len() ==> #[trigger] data@[k] == old(data)@[k],
        decreases data@.len() - j,
    {
        let b = data[j];
        data[j] = b ^ key;
        j = j + 1;
    }
    assert(data@ =~= xor_all(old(data)@, key));
}

/// Applying the cipher twice with the same key gives back the original bytes.
pub proof fn lemma_xor_involution(data: Seq<u8>, key: u8)
    ensures
        xor_all(xor_all(data, key), key) == data,
{
    assert forall|j: int| 0 <= j < data.len() implies #[trigger] xor_all(
        xor_all(data, key),
        key,
    )[j] == data[j] by {
        let b = data[j];
        assert((b ^ key) ^ key == b) by (bit_vector);
    }
    assert(xor_all(xor_all(data, key), key) =~= data);
}

} // verus!
