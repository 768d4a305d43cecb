//! Hashing, SCALE encoding and the pallet account, from the runtime crates.
use vstd::prelude::*;

use frame_support::{Blake2_128Concat, PalletId, StorageHasher};
use parity_scale_codec::Encode;
use sp_runtime::traits::AccountIdConversion;

use crate::types::{AccountId, Balance, BlockNumber};

verus! {

/// The 256-bit BLAKE2b digest that `sp_io::hashing::blake2_256` returns for
/// the given bytes.
pub uninterp spec fn blake2_256_digest(data: Seq<u8>) -> Seq<u8>;

/// Calls `sp_io::hashing::blake2_256`. Trusted: the digest is the named
/// result `blake2_256_digest` of exactly the bytes handed over.
#[verifier::external_body]
pub(crate) fn blake2_256(data: &[u8]) -> (h: [u8; 32])
    ensures
        h@ == blake2_256_digest(data@),
{
    sp_io::hashing::blake2_256(data)
}

/// The `n` low bytes of `v`, least significant first.
pub open spec fn le_bytes(v: nat, n: nat) -> Seq<u8>
    decreases n,
{
    if n == 0 {
        Seq::empty()
    } else {
        seq![(v % 256) as u8] + le_bytes(v / 256, (n - 1) as nat)
    }
}

/// `le_bytes(v, n)` has `n` bytes.
pub proof fn lemma_le_bytes_len(v: nat, n: nat)
    ensures
        le_bytes(v, n).len() == n,
    decreases n,
{
    if n > 0 {
        lemma_le_bytes_len(v / 256, (n - 1) as nat);
    }
}

/// Calls `Encode::encode` of `parity-scale-codec` on an account id (`u64`).
/// Trusted: SCALE encodes a fixed-width integer as its little-endian bytes.
#[verifier::external_body]
pub(crate) fn encode_account(a: AccountId) -> (e: Vec<u8>)
    ensures
        e@ == le_bytes(a as nat, 8),
{
    a.encode()
}

/// Calls `Encode::encode` of `parity-scale-codec` on the tuple
/// `(account, balance, block)`. Trusted: SCALE encodes a tuple as the
/// concatenation of its fields, each fixed-width integer little-endian.
#[verifier::external_body]
pub(crate) fn encode_exit_payload(a: AccountId, b: Balance, n: BlockNumber) -> (e: Vec<u8>)
    ensures
        e@ == le_bytes(a as nat, 8) + le_bytes(b as nat, 16) + le_bytes(n as nat, 8),
{
    (a, b, n).encode()
}

/// Calls `Encode::encode` of `parity-scale-codec` on a proposal id (`u32`).
/// Trusted: SCALE encodes a fixed-width integer as its little-endian bytes.
#[verifier::external_body]
pub(crate) fn encode_proposal_id(id: u32) -> (e: Vec<u8>)
    ensures
        e@ == le_bytes(id as nat, 4),
{
    id.encode()
}

/// The 128-bit BLAKE2b digest that `sp_crypto_hashing::blake2_128` returns
/// for the given bytes.
pub uninterp spec fn blake2_128_digest(data: Seq<u8>) -> Seq<u8>;

/// Calls `StorageHasher::hash` of `frame_support::Blake2_128Concat`, which
/// storage maps use for their keys. Trusted: as the source shows, the result
/// is the 16-byte BLAKE2b digest of the bytes followed by the bytes.
#[verifier::external_body]
pub(crate) fn blake2_128_concat(data: &[u8]) -> (k: Vec<u8>)
    ensures
        k@.len() == data@.len() + 16 && k@ == blake2_128_digest(data@) + data@,
{
    Blake2_128Concat::hash(data)
}

/// `u64::from_le_bytes(*b"modlpy/g")`: the account that `PalletId(*b"py/gover")`
/// converts to when account ids are `u64`.
pub open spec fn treasury_account_id() -> AccountId {
    0x672f_7970_6c64_6f6du64
}

/// Calls `AccountIdConversion::into_account_truncating` of `sp-runtime` on
/// `frame_support::PalletId(*b"py/gover")`. Trusted: the source encodes
/// `b"modl"`, the pallet id and `()`, and decodes a `u64` from the first
/// eight of those bytes, little-endian.
#[verifier::external_body]
pub(crate) fn pallet_account() -> (a: AccountId)
    ensures
        a == treasury_account_id(),
{
    PalletId(*b"py/gover").into_account_truncating()
}

} // verus!
