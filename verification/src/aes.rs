//! The AES-256-SHA-256 layer: the key derived by hashing rounds of the
//! password and a counter, zero padding to whole blocks, and CBC
//! encryption of a folder's stream.

use vstd::prelude::*;
use vstd::bytes::spec_u64_to_le_bytes;
use vstd::bytes::u64_to_le_bytes;
use aes::cipher::BlockModeEncrypt;
use aes::cipher::KeyIvInit;
use crate::options::AesOptions;
use crate::util::push_all;

verus! {

/// SHA-256 of a byte sequence.
pub uninterp spec fn sha256_of(data: Seq<u8>) -> Seq<u8>;

/// AES-256-CBC encryption of whole blocks under a 32-byte key and a
/// 16-byte IV.
pub uninterp spec fn aes256_cbc_of(key: Seq<u8>, iv: Seq<u8>, data: Seq<u8>) -> Seq<u8>;

/// Relies on sha2::Sha256 through Digest::digest: 32 bytes, a function
/// of the input alone.
#[verifier::external_body]
fn sha256_digest(data: &[u8]) -> (r: Vec<u8>)
    ensures
        r@ == sha256_of(data@),
        r@.len() == 32,
{
    let d = <sha2::Sha256 as sha2::Digest>::digest(data);
    d.to_vec()
}

/// Relies on cbc::Encryptor over aes::Aes256 with NoPadding, which
/// panics unless the message is whole blocks: ciphertext of the same
/// length, a function of key, IV and data alone.
#[verifier::external_body]
fn aes256_cbc_encrypt(key: &[u8], iv: &[u8], data: &[u8]) -> (r: Vec<u8>)
    requires
        key@.len() == 32,
        iv@.len() == 16,
        data@.len() % 16 == 0,
    ensures
        r@ == aes256_cbc_of(key@, iv@, data@),
        r@.len() == data@.len(),
{
    let key_arr: [u8; 32] = key.try_into().unwrap();
    let iv_arr: [u8; 16] = iv.try_into().unwrap();
    let enc = cbc::Encryptor::<aes::Aes256>::new(&key_arr.into(), &iv_arr.into());
    enc.encrypt_padded_vec::<aes::cipher::block_padding::NoPadding>(data)
}

/// The bytes hashed for the key: `n` rounds, each the password followed
/// by the round counter in little-endian order.
pub open spec fn derive_rounds(password: Seq<u8>, n: int) -> Seq<u8>
    decreases n,
{
    if n <= 0 {
        Seq::empty()
    } else {
        derive_rounds(password, n - 1) + password + spec_u64_to_le_bytes((n - 1) as u64)
    }
}

/// The password's first 32 bytes, zero-extended: the key when the cycle
/// exponent says the password is used directly.
pub open spec fn zero_extended_key(password: Seq<u8>) -> Seq<u8> {
    Seq::new(
        32,
        |i: int|
            if i < password.len() {
                password[i]
            } else {
                0u8
            },
    )
}

/// The 32-byte AES key for a password and cycle exponent: 0x40 takes the
/// password itself, 0x3F hashes it once, anything lower hashes
/// `1 << exponent` rounds of password-and-counter.
pub open spec fn derived_key_spec(password: Seq<u8>, num_cycles_power: u8) -> Seq<u8> {
    if num_cycles_power == 0x40 {
        zero_extended_key(password)
    } else if num_cycles_power == 0x3F {
        sha256_of(password)
    } else {
        sha256_of(derive_rounds(password, (1u64 << num_cycles_power) as int))
    }
}

/// `data` carried to the next multiple of 16 bytes with zeros.
pub open spec fn zero_padded(data: Seq<u8>) -> Seq<u8> {
    data + Seq::new(((16 - data.len() % 16) % 16) as nat, |i: int| 0u8)
}

/// Derive the 32-byte AES key for `password` (UTF-16LE bytes) and the
/// cycle exponent.
pub fn derive_key(password: &[u8], num_cycles_power: u8) -> (r: Vec<u8>)
    requires
        num_cycles_power <= 0x40,
        num_cycles_power < 0x3F ==> (password@.len() + 8) * ((1u64 << num_cycles_power) as int)
            <= usize::MAX,
    ensures
        r@ == derived_key_spec(password@, num_cycles_power),
        r@.len() == 32,
{
    if num_cycles_power == 0x40 {
        let mut key: Vec<u8> = Vec::new();
        let mut i: usize = 0;
        while i < 32
            invariant
                0 <= i <= 32,
                key@.len() == i,
                forall|j: int| 0 <= j < i ==> #[trigger] key@[j] == zero_extended_key(password@)[j],
            decreases 32 - i,
        {
            if i < password.len() {
                key.push(password[i]);
            } else {
                key.push(0);
            }
            i = i + 1;
        }
        proof {
            assert(key@ =~= zero_extended_key(password@));
        }
        key
    } else if num_cycles_power == 0x3F {
        sha256_digest(password)
    } else {
        let count: u64 = 1u64 << num_cycles_power;
        let mut input: Vec<u8> = Vec::new();
        let mut i: u64 = 0;
        while i < count
            invariant
                0 <= i <= count,
                input@ == derive_rounds(password@, i as int),
            decreases count - i,
        {
            push_all(&mut input, password);
            let counter = u64_to_le_bytes(i);
            push_all(&mut input, counter.as_slice());
            i = i + 1;
            proof {
                assert(input@ =~= derive_rounds(password@, i as int));
            }
        }
        sha256_digest(input.as_slice())
    }
}

impl AesOptions {
    /// The derivation buffer for this password and exponent fits the
    /// machine.
    pub open spec fn derivation_feasible(self) -> bool {
        self.num_cycles_power < 0x3F ==> (self.password@.len() + 8) * ((1u64
            << self.num_cycles_power) as int) <= usize::MAX
    }

    /// Whether this layer can be driven: the runtime form of
    /// `wf() && derivation_feasible()`.
    pub fn is_usable(&self) -> (b: bool)
        ensures
            b == (self.wf() && self.derivation_feasible()),
    {
        if !(self.salt.len() == 16 && self.iv.len() == 16 && self.num_cycles_power <= 0x3F) {
            return false;
        }
        if self.num_cycles_power == 0x3F {
            return true;
        }
        let rounds: u64 = 1u64 << self.num_cycles_power;
        proof {
            let c = self.num_cycles_power;
            assert(1u64 << c >= 1) by (bit_vector)
                requires
                    c < 0x3F,
            ;
        }
        let per_round = match (self.password.len() as u64).checked_add(8) {
            Some(p) => p,
            None => {
                proof {
                    assert((self.password@.len() + 8) * (rounds as int) > usize::MAX)
                        by (nonlinear_arith)
                        requires
                            self.password@.len() + 8 > u64::MAX >= usize::MAX,
                            rounds >= 1,
                    ;
                }
                return false;
            },
        };
        match per_round.checked_mul(rounds) {
            Some(total) => total <= usize::MAX as u64,
            None => {
                proof {
                    assert((self.password@.len() + 8) * (rounds as int) > usize::MAX)
                        by (nonlinear_arith)
                        requires
                            (self.password@.len() + 8) * (rounds as int) > u64::MAX,
                            u64::MAX >= usize::MAX,
                    ;
                }
                false
            },
        }
    }

    /// Encrypt one folder's uncompressed stream under this layer: pad it
    /// to whole blocks with zeros, derive the key, run AES-256-CBC.
    pub fn encrypt_stream(&self, data: &[u8]) -> (r: Vec<u8>)
        requires
            self.wf(),
            self.derivation_feasible(),
        ensures
            r@ == aes256_cbc_of(
                derived_key_spec(self.password@, self.num_cycles_power),
                self.iv@,
                zero_padded(data@),
            ),
            r@.len() == zero_padded(data@).len(),
    {
        let key = derive_key(self.password.as_slice(), self.num_cycles_power);
        let ghost pad = (16 - data@.len() % 16) % 16;
        let mut padded: Vec<u8> = Vec::new();
        push_all(&mut padded, data);
        while padded.len() % 16 != 0
            invariant
                pad == (16 - data@.len() % 16) % 16,
                data@.len() <= padded@.len() <= data@.len() + pad,
                padded@ == data@ + Seq::new((padded@.len() - data@.len()) as nat, |i: int| 0u8),
            decreases (16 - padded@.len() % 16) % 16,
        {
            proof {
                assert((data@.len() + pad) % 16 == 0 && padded@.len() < data@.len() + pad)
                    by (nonlinear_arith)
                    requires
                        pad == (16 - data@.len() % 16) % 16,
                        data@.len() <= padded@.len() <= data@.len() + pad,
                        padded@.len() % 16 != 0,
                ;
            }
            padded.push(0);
            proof {
                assert(padded@ =~= data@ + Seq::new(
                    (padded@.len() - data@.len()) as nat,
                    |i: int| 0u8,
                ));
            }
        }
        proof {
            assert(padded@.len() == data@.len() + pad) by (nonlinear_arith)
                requires
                    pad == (16 - data@.len() % 16) % 16,
                    data@.len() <= padded@.len() <= data@.len() + pad,
                    padded@.len() % 16 == 0,
            ;
            assert(padded@ =~= zero_padded(data@));
        }
        aes256_cbc_encrypt(key.as_slice(), self.iv.as_slice(), padded.as_slice())
    }
}

} // verus!
