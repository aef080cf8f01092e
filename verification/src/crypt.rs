//! Function to encrypt / decrypt data in the Pico file.

use vstd::prelude::*;

verus! {

/// The byte of the repeating keystream that covers `index`.
///
/// The keystream is the key repeated without end, so position `index` is
/// covered by the key byte at `index mod key.len()`.
pub open spec fn keystream(key: Seq<u8>, index: int) -> u8
    recommends
        key.len() > 0,
        index >= 0,
{
    key[index % (key.len() as int)]
}

/// The result of running the cipher over `data`, where the first byte of
/// `data` sits at `position` in the data region.
///
/// Byte `i` of the result is byte `i` of `data` xor the keystream byte at
/// `position + i`.
pub open spec fn crypt_seq(position: int, data: Seq<u8>, key: Seq<u8>) -> Seq<u8>
    recommends
        key.len() > 0,
        position >= 0,
{
    Seq::new(data.len(), |i: int| data[i] ^ keystream(key, position + i))
}

/// Xor with the same byte twice gives the byte back.
pub proof fn lemma_xor_twice(a: u8, b: u8)
    ensures
        (a ^ b) ^ b == a,
{
    assert((a ^ b) ^ b == a) by (bit_vector);
}

/// The cipher is an involution: run twice with the same position and key it
/// restores the data, for every position and every key.
pub proof fn lemma_crypt_involution(position: int, data: Seq<u8>, key: Seq<u8>)
    ensures
        crypt_seq(position, crypt_seq(position, data, key), key) == data,
{
    let once = crypt_seq(position, data, key);
    let twice = crypt_seq(position, once, key);
    assert forall|i: int| 0 <= i < data.len() implies twice[i] == data[i] by {
        lemma_xor_twice(data[i], keystream(key, position + i));
    }
}

/// Encrypt or decrypt, in place, the given data.
///
/// Because Pico uses simple symmetric xor encryption, this method will
/// both encrypt and decrypt.
///
/// # Arguments
/// * `position` - Zero-based position where the data will reside in the file.
/// * `data`     - The data to encrypt or decrypt.
/// * `key`      - The key to use for encryption and decryption.
pub fn crypt(position: usize, data: &mut [u8], key: &Vec<u8>)
    requires
        key@.len() > 0,
    ensures
        final(data)@ == crypt_seq(position as int, old(data)@, key@),
{
    let klen: usize = key.len();
    let mut kpos: usize = position % klen;
    let mut index: usize = 0;
    while index < data.len()
        invariant
            klen == key@.len(),
            klen > 0,
            index <= data@.len(),
            data@.len() == old(data)@.len(),
            kpos < klen,
            kpos as int == (position + index) % (klen as int),
            forall|i: int|
                0 <= i < index ==> data@[i] == old(data)@[i] ^ keystream(key@, position + i),
            forall|i: int| index <= i < data@.len() ==> data@[i] == old(data)@[i],
        decreases data@.len() - index,
    {
        let byte: u8 = data[index] ^ key[kpos];
        data[index] = byte;
        proof {
            lemma_keystream_step(position as int, index as int, klen as int);
        }
        index = index + 1;
        kpos = if kpos + 1 == klen {
            0
        } else {
            kpos + 1
        };
    }
}

/// Stepping the keystream index by one wraps at the key length.
proof fn lemma_keystream_step(position: int, index: int, klen: int)
    requires
        position >= 0,
        index >= 0,
        klen > 0,
    ensures
        (position + index + 1) % klen == if (position + index) % klen + 1 == klen {
            0
        } else {
            (position + index) % klen + 1
        },
{
    let n = position + index;
    let q = n / klen;
    let r = n % klen;
    vstd::arithmetic::div_mod::lemma_fundamental_div_mod(n, klen);
    if r + 1 == klen {
        vstd::arithmetic::mul::lemma_mul_is_distributive_add_other_way(klen, q, 1);
        vstd::arithmetic::div_mod::lemma_fundamental_div_mod_converse(n + 1, klen, q + 1, 0);
    } else {
        vstd::arithmetic::div_mod::lemma_fundamental_div_mod_converse(n + 1, klen, q, r + 1);
    }
}

} // verus!
