//! Fixed-width values of the chain, held as big-endian bytes, and the
//! address derivations that are taken from `revm::primitives`.

use vstd::prelude::*;

verus! {

/// A 20-byte account address.
#[derive(Clone, Copy, Debug, PartialEq, Eq, Hash)]
pub struct Address {
    pub bytes: [u8; 20],
}

/// A 32-byte hash.
#[derive(Clone, Copy, Debug, PartialEq, Eq, Hash)]
pub struct B256 {
    pub bytes: [u8; 32],
}

/// A 256-bit unsigned integer, most significant byte first.
#[derive(Clone, Copy, Debug, PartialEq, Eq, Hash)]
pub struct U256 {
    pub bytes: [u8; 32],
}

impl View for Address {
    type V = Seq<u8>;

    open spec fn view(&self) -> Seq<u8> {
        self.bytes@
    }
}

impl View for B256 {
    type V = Seq<u8>;

    open spec fn view(&self) -> Seq<u8> {
        self.bytes@
    }
}

impl View for U256 {
    type V = Seq<u8>;

    open spec fn view(&self) -> Seq<u8> {
        self.bytes@
    }
}

/// The Keccak-256 digest of `data`: what `revm::primitives::keccak256`
/// returns for it.
pub uninterp spec fn keccak256_digest(data: Seq<u8>) -> Seq<u8>;

/// The bytes of `n`, most significant first, without leading zeros.
pub open spec fn be_trimmed(n: nat) -> Seq<u8>
    decreases n,
{
    if n == 0 {
        Seq::empty()
    } else {
        be_trimmed(n / 256).push((n % 256) as u8)
    }
}

/// The RLP encoding of an unsigned integer: the empty string for zero, the
/// byte itself below `0x80`, else the trimmed bytes behind their count.
pub open spec fn rlp_uint(n: u64) -> Seq<u8> {
    if n == 0 {
        seq![0x80u8]
    } else if n < 0x80 {
        seq![n as u8]
    } else {
        seq![(0x80 + be_trimmed(n as nat).len()) as u8] + be_trimmed(n as nat)
    }
}

/// The RLP encoding of the list of a sender of twenty bytes and a nonce.
pub open spec fn rlp_sender_nonce(sender: Seq<u8>, nonce: u64) -> Seq<u8> {
    let payload = seq![0x94u8] + sender + rlp_uint(nonce);
    seq![(0xc0 + payload.len()) as u8] + payload
}

/// The address of a contract that `sender` deploys by `CREATE` at `nonce`:
/// the last twenty bytes of the digest of the RLP list of the two.
pub open spec fn create_address(sender: Seq<u8>, nonce: u64) -> Seq<u8> {
    keccak256_digest(rlp_sender_nonce(sender, nonce)).subrange(12, 32)
}

/// The address of a contract that `sender` deploys by `CREATE2` with `salt`
/// and the digest of its init code: the last twenty bytes of the digest of
/// `0xff`, the sender, the salt and that digest.
pub open spec fn create2_address(sender: Seq<u8>, salt: Seq<u8>, init_code_hash: Seq<u8>) -> Seq<
    u8,
> {
    keccak256_digest(seq![0xffu8] + sender + salt + init_code_hash).subrange(12, 32)
}

/// Calls `revm::primitives::keccak256`. Trusted: the digest depends on the
/// bytes alone, so it is named by `keccak256_digest`; nothing else is claimed.
#[verifier::external_body]
pub(crate) fn keccak256(data: &[u8]) -> (digest: B256)
    ensures
        digest@ == keccak256_digest(data@),
{
    B256 { bytes: revm::primitives::keccak256(data).0 }
}

/// Calls `revm::primitives::Address::create`. Trusted: the result is the
/// last twenty bytes of what `keccak256` gives for the RLP list of the
/// sender and the nonce.
#[verifier::external_body]
pub(crate) fn address_create(sender: &Address, nonce: u64) -> (created: Address)
    ensures
        created@ == create_address(sender@, nonce),
{
    Address { bytes: revm::primitives::Address::new(sender.bytes).create(nonce).into_array() }
}

/// Calls `revm::primitives::Address::create2`. Trusted: the result is the
/// last twenty bytes of what `keccak256` gives for `0xff`, the sender, the
/// salt and the init-code digest, in this order.
#[verifier::external_body]
pub(crate) fn address_create2(sender: &Address, salt: &U256, init_code_hash: &B256) -> (created: Address)
    ensures
        created@ == create2_address(sender@, salt@, init_code_hash@),
{
    let from = revm::primitives::Address::new(sender.bytes);
    Address { bytes: from.create2(salt.bytes, init_code_hash.bytes).into_array() }
}

} // verus!
