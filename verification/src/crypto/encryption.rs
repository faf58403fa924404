//! Encryption and decryption using OAEP padding.
//!
//! A single RSA operation covers at most one key-sized block, and OAEP
//! padding costs `2 * hash_output_size + 2` bytes of it, so a payload
//! is split into plaintext chunks of `block_size - overhead` bytes,
//! each encrypted into one `block_size`-byte ciphertext block.

use vstd::prelude::*;

use vstd::slice::slice_subrange;

use super::backend::oaep_decrypt_block;
use super::backend::oaep_encrypt_block;
use super::backend::private_modulus_bits;
use super::backend::public_modulus_bits;
use super::hash_functions::HashFunction;
use super::CryptoError;

verus! {

/// Number of blocks that a payload of `n` bytes occupies when each
/// block carries up to `avail` bytes.
pub open spec fn spec_block_count(n: int, avail: int) -> int
    recommends
        avail >= 1,
{
    (n + avail - 1) / avail
}

/// Division advances by exactly one block per chunk: the arithmetic
/// facts behind one iteration of the encryption loop.
proof fn lemma_div_exact(q: int, d: int, r: int)
    requires
        d >= 1,
        0 <= r < d,
    ensures
        (q * d + r) / d == q,
        (q * d + r) % d == r,
{
    vstd::arithmetic::div_mod::lemma_fundamental_div_mod_converse(q * d + r, d, q, r);
}

/// After one chunk of `take` bytes, the ciphertext grew by one block
/// and the cursor stands at the next chunk boundary.
proof fn lemma_encrypt_step(i: int, take: int, len: int, avail: int, bs: int, cur: int)
    requires
        avail >= 1,
        0 <= i < len,
        i % avail == 0,
        cur == (i / avail) * bs,
        take == if len - i < avail {
            len - i
        } else {
            avail
        },
    ensures
        i + take < len ==> (i + take) % avail == 0 && cur + bs == ((i + take) / avail) * bs,
        i + take == len ==> cur + bs == spec_block_count(len, avail) * bs,
{
    let q = i / avail;
    vstd::arithmetic::div_mod::lemma_fundamental_div_mod(i, avail);
    vstd::arithmetic::mul::lemma_mul_is_commutative(avail, q);
    assert(i == q * avail);
    vstd::arithmetic::mul::lemma_mul_is_distributive_add_other_way(avail, q, 1);
    vstd::arithmetic::mul::lemma_mul_is_distributive_add_other_way(bs, q, 1);
    vstd::arithmetic::mul::lemma_mul_basics(avail);
    vstd::arithmetic::mul::lemma_mul_basics(bs);
    assert((q + 1) * avail == q * avail + avail);
    assert((q + 1) * bs == q * bs + bs);
    if take == avail {
        lemma_div_exact(q + 1, avail, 0);
        assert(i + take == (q + 1) * avail + 0);
        if i + take == len {
            lemma_div_exact(q + 1, avail, avail - 1);
            assert(len + avail - 1 == (q + 1) * avail + (avail - 1));
        }
    } else {
        assert(i + take == len);
        lemma_div_exact(q + 1, avail, take - 1);
        assert(len + avail - 1 == (q + 1) * avail + (take - 1));
    }
}

/// Encryption using OAEP padding.
pub struct Encrypt {
    pub public_key: rsa::RsaPublicKey,
    /// The hash function that parameterises the OAEP padding.
    pub hash: HashFunction,
    /// RSA block size in bytes, derived from the key modulus.
    pub block_size: usize,
    /// Plaintext bytes that fit in one block beside the padding.
    pub available_block_size: usize,
}

impl Encrypt {
    /// The block sizes are consistent with the key and hash choice:
    /// the padding overhead leaves room for at least one payload byte.
    pub open spec fn wf(self) -> bool {
        &&& self.block_size == self.available_block_size + 2 * self.hash.spec_output_size() + 2
        &&& self.available_block_size >= 1
    }

    /// Creates a new [`Encrypt`].
    ///
    /// Fails with `HashFunctionOutputTooLarge` when the OAEP overhead
    /// of the chosen hash fills or exceeds one RSA block.
    pub fn try_new(hash_function: &HashFunction, public_key: rsa::RsaPublicKey) -> (r: Result<
        Encrypt,
        CryptoError,
    >)
        ensures
            r matches Ok(e) ==> e.wf() && e.hash == *hash_function,
            r matches Err(e) ==> e is HashFunctionOutputTooLarge,
    {
        // OAEP padding adds an overhead of 2 * hash_output_size + 2 bytes.
        let overhead = hash_function.output_size() * 2 + 2;
        // RSA encryption is limited to the key size in bytes.
        let block_size = public_modulus_bits(&public_key) / 8;
        // It is impossible to encrypt when OAEP overhead exceeds RSA size.
        if overhead >= block_size {
            return Err(CryptoError::HashFunctionOutputTooLarge);
        }
        Ok(
            Encrypt {
                public_key,
                hash: *hash_function,
                block_size,
                available_block_size: block_size - overhead,
            },
        )
    }

    /// Returns the hash function this instance was built with.
    pub fn hash_type(&self) -> (r: HashFunction)
        ensures
            r == self.hash,
    {
        self.hash
    }

    /// Encrypts the payload.
    ///
    /// The payload is split into chunks of `available_block_size`
    /// bytes, each encrypted into one `block_size`-byte block, so a
    /// successful result holds exactly one block per chunk.
    pub fn encrypt(&self, payload: &[u8]) -> (r: Result<Vec<u8>, CryptoError>)
        requires
            self.wf(),
        ensures
            r matches Ok(c) ==> c@.len() == spec_block_count(
                payload@.len() as int,
                self.available_block_size as int,
            ) * self.block_size,
            payload@.len() == 0 ==> (r matches Ok(c) && c@.len() == 0),
            r matches Err(e) ==> e matches CryptoError::Rsa(_) || e is InvalidBlockSize,
    {
        let len: usize = payload.len();
        let avail = self.available_block_size;
        let mut encrypted: Vec<u8> = Vec::new();
        let mut i: usize = 0;
        proof {
            lemma_div_exact(0, avail as int, 0);
            if len == 0 {
                lemma_div_exact(0, avail as int, avail - 1);
            }
        }
        while i < len
            invariant
                self.wf(),
                avail == self.available_block_size,
                len == payload@.len(),
                i <= len,
                i < len ==> i as int % avail as int == 0 && encrypted@.len() == (
                i as int / avail as int) * self.block_size,
                i == len ==> encrypted@.len() == spec_block_count(len as int, avail as int)
                    * self.block_size,
            decreases len - i,
        {
            let take = if len - i < avail {
                len - i
            } else {
                avail
            };
            let block = slice_subrange(payload, i, i + take);
            let mut ciphertext = match oaep_encrypt_block(&self.public_key, &self.hash, block) {
                Ok(c) => c,
                Err(e) => {
                    return Err(CryptoError::Rsa(e));
                },
            };
            if ciphertext.len() != self.block_size {
                return Err(CryptoError::InvalidBlockSize);
            }
            proof {
                lemma_encrypt_step(
                    i as int,
                    take as int,
                    len as int,
                    avail as int,
                    self.block_size as int,
                    encrypted@.len() as int,
                );
            }
            encrypted.append(&mut ciphertext);
            i = i + take;
        }
        Ok(encrypted)
    }
}

/// Decryption using OAEP padding.
pub struct Decrypt {
    pub private_key: rsa::RsaPrivateKey,
    /// The hash function that parameterises the OAEP padding.
    pub hash: HashFunction,
    /// RSA block size in bytes, derived from the key modulus.
    pub block_size: usize,
    /// Plaintext bytes that fit in one block beside the padding.
    pub available_block_size: usize,
}

/// Stepping one whole block forward stays inside a ciphertext whose
/// length is a multiple of the block size.
proof fn lemma_decrypt_step(pos: int, n: int, bs: int)
    requires
        bs >= 1,
        0 <= pos < n,
        pos % bs == 0,
        n % bs == 0,
    ensures
        pos + bs <= n,
        (pos + bs) % bs == 0,
        (pos + bs) / bs == pos / bs + 1,
{
    let qp = pos / bs;
    let qn = n / bs;
    vstd::arithmetic::div_mod::lemma_fundamental_div_mod(pos, bs);
    vstd::arithmetic::div_mod::lemma_fundamental_div_mod(n, bs);
    vstd::arithmetic::mul::lemma_mul_is_commutative(bs, qp);
    vstd::arithmetic::mul::lemma_mul_is_commutative(bs, qn);
    assert(pos == qp * bs && n == qn * bs);
    assert(qp < qn) by {
        if qn <= qp {
            vstd::arithmetic::mul::lemma_mul_inequality(qn, qp, bs);
        }
    }
    vstd::arithmetic::mul::lemma_mul_inequality(qp + 1, qn, bs);
    vstd::arithmetic::mul::lemma_mul_is_distributive_add_other_way(bs, qp, 1);
    vstd::arithmetic::mul::lemma_mul_basics(bs);
    assert((qp + 1) * bs == qp * bs + bs);
    lemma_div_exact(qp + 1, bs, 0);
}

impl Decrypt {
    /// The block sizes are consistent with the key and hash choice:
    /// the padding overhead leaves room for at least one payload byte.
    pub open spec fn wf(self) -> bool {
        &&& self.block_size == self.available_block_size + 2 * self.hash.spec_output_size() + 2
        &&& self.available_block_size >= 1
    }

    /// Creates a new [`Decrypt`].
    ///
    /// Fails with `HashFunctionOutputTooLarge` when the OAEP overhead
    /// of the chosen hash fills or exceeds one RSA block.
    pub fn try_new(hash_function: &HashFunction, private_key: rsa::RsaPrivateKey) -> (r: Result<
        Decrypt,
        CryptoError,
    >)
        ensures
            r matches Ok(d) ==> d.wf() && d.hash == *hash_function,
            r matches Err(e) ==> e is HashFunctionOutputTooLarge,
    {
        let overhead = hash_function.output_size() * 2 + 2;
        let block_size = private_modulus_bits(&private_key) / 8;
        if overhead >= block_size {
            return Err(CryptoError::HashFunctionOutputTooLarge);
        }
        Ok(
            Decrypt {
                private_key,
                hash: *hash_function,
                block_size,
                available_block_size: block_size - overhead,
            },
        )
    }

    /// Returns the hash function this instance was built with.
    pub fn hash_type(&self) -> (r: HashFunction)
        ensures
            r == self.hash,
    {
        self.hash
    }

    /// Decrypts the payload in place.
    ///
    /// A ciphertext whose length is not a multiple of the block size is
    /// rejected with `InvalidBlockSize` and left untouched; otherwise
    /// each block is decrypted and the plaintext chunks replace the
    /// ciphertext, at most `available_block_size` bytes per block.
    pub fn decrypt_owned(&self, payload: &mut Vec<u8>) -> (r: Result<(), CryptoError>)
        requires
            self.wf(),
        ensures
            old(payload)@.len() as int % self.block_size as int != 0 ==> r matches Err(
                CryptoError::InvalidBlockSize,
            ),
            old(payload)@.len() == 0 ==> (r matches Ok(p) && final(payload)@.len() == 0),
            r matches Ok(p) ==> final(payload)@.len() <= (old(payload)@.len() as int
                / self.block_size as int) * self.available_block_size,
            r is Err ==> final(payload)@ == old(payload)@,
            r matches Err(e) ==> e matches CryptoError::Rsa(_) || e is InvalidBlockSize,
    {
        let n: usize = payload.len();
        let bs = self.block_size;
        let avail = self.available_block_size;
        proof {
            vstd::arithmetic::div_mod::lemma_small_mod(0, bs as nat);
        }
        if n % bs != 0 {
            return Err(CryptoError::InvalidBlockSize);
        }
        let mut decrypted: Vec<u8> = Vec::new();
        let mut pos: usize = 0;
        proof {
            lemma_div_exact(0, bs as int, 0);
        }
        while pos < n
            invariant
                self.wf(),
                bs == self.block_size,
                avail == self.available_block_size,
                payload@ == old(payload)@,
                n == payload@.len(),
                n as int % bs as int == 0,
                pos <= n,
                pos as int % bs as int == 0,
                decrypted@.len() <= (pos as int / bs as int) * avail,
            decreases n - pos,
        {
            proof {
                lemma_decrypt_step(pos as int, n as int, bs as int);
            }
            let block = slice_subrange(payload.as_slice(), pos, pos + bs);
            let mut chunk = match oaep_decrypt_block(&self.private_key, &self.hash, block) {
                Ok(c) => c,
                Err(e) => {
                    return Err(CryptoError::Rsa(e));
                },
            };
            if chunk.len() > avail {
                return Err(CryptoError::InvalidBlockSize);
            }
            proof {
                vstd::arithmetic::mul::lemma_mul_is_distributive_add_other_way(
                    avail as int,
                    pos as int / bs as int,
                    1,
                );
                vstd::arithmetic::mul::lemma_mul_basics(avail as int);
            }
            decrypted.append(&mut chunk);
            pos = pos + bs;
        }
        *payload = decrypted;
        Ok(())
    }
}

} // verus!
