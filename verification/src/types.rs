//! Core value types: account identifiers, EVM addresses, signatures, errors
//! and events, with their byte-level views and well-formedness conditions.

use vstd::prelude::*;

verus! {

/// A native ledger account identifier: exactly 32 bytes.
#[derive(Debug)]
pub struct AccountId {
    pub bytes: Vec<u8>,
}

impl View for AccountId {
    type V = Seq<u8>;

    open spec fn view(&self) -> Seq<u8> {
        self.bytes@
    }
}

impl AccountId {
    /// A well-formed account identifier holds exactly 32 bytes.
    pub open spec fn wf(&self) -> bool {
        self.bytes@.len() == 32
    }

    pub fn new(bytes: Vec<u8>) -> (r: AccountId)
        requires
            bytes@.len() == 32,
        ensures
            r.wf(),
            r@ == bytes@,
    {
        AccountId { bytes }
    }

    pub fn dup(&self) -> (r: AccountId)
        ensures
            r@ == self@,
    {
        AccountId { bytes: copy_bytes(&self.bytes) }
    }
}

/// An address in the secondary (Ethereum-style) address space: exactly 20
/// bytes.
#[derive(Debug)]
pub struct EvmAddress {
    pub bytes: Vec<u8>,
}

impl View for EvmAddress {
    type V = Seq<u8>;

    open spec fn view(&self) -> Seq<u8> {
        self.bytes@
    }
}

impl EvmAddress {
    /// A well-formed address holds exactly 20 bytes.
    pub open spec fn wf(&self) -> bool {
        self.bytes@.len() == 20
    }

    pub fn new(bytes: Vec<u8>) -> (r: EvmAddress)
        requires
            bytes@.len() == 20,
        ensures
            r.wf(),
            r@ == bytes@,
    {
        EvmAddress { bytes }
    }

    pub fn dup(&self) -> (r: EvmAddress)
        ensures
            r@ == self@,
    {
        EvmAddress { bytes: copy_bytes(&self.bytes) }
    }
}

/// A recoverable ECDSA signature: 64 signature bytes followed by one
/// recovery-id byte.
pub struct EcdsaSignature {
    pub bytes: Vec<u8>,
}

impl View for EcdsaSignature {
    type V = Seq<u8>;

    open spec fn view(&self) -> Seq<u8> {
        self.bytes@
    }
}

impl EcdsaSignature {
    /// A well-formed recoverable signature holds exactly 65 bytes.
    pub open spec fn wf(&self) -> bool {
        self.bytes@.len() == 65
    }

    pub fn new(bytes: Vec<u8>) -> (r: EcdsaSignature)
        requires
            bytes@.len() == 65,
        ensures
            r.wf(),
            r@ == bytes@,
    {
        EcdsaSignature { bytes }
    }
}

/// Everything a claim request can fail with.
#[derive(PartialEq, Eq, Structural, Clone, Copy, Debug)]
pub enum Error {
    /// The caller's account already has an explicit address entry.
    AccountIdHasMapped,
    /// The target address already has an explicit account entry.
    EthAddressHasMapped,
    /// Public-key recovery failed for the supplied signature.
    BadSignature,
    /// Recovery succeeded but yielded a different address.
    InvalidSignature,
    /// The balance merge refused: the shadow account is still referenced.
    NonZeroRefCount,
    /// The balance merge refused: the shadow account still has reserves.
    StillHasActiveReserved,
}

/// The two ways the external balance-merge capability can refuse.
#[derive(PartialEq, Eq, Structural, Clone, Copy, Debug)]
pub enum MergeError {
    NonZeroRefCount,
    StillHasActiveReserved,
}

impl MergeError {
    pub open spec fn to_error_spec(self) -> Error {
        match self {
            MergeError::NonZeroRefCount => Error::NonZeroRefCount,
            MergeError::StillHasActiveReserved => Error::StillHasActiveReserved,
        }
    }

    pub fn to_error(self) -> (r: Error)
        ensures
            r == self.to_error_spec(),
    {
        match self {
            MergeError::NonZeroRefCount => Error::NonZeroRefCount,
            MergeError::StillHasActiveReserved => Error::StillHasActiveReserved,
        }
    }
}

/// The event a successful claim emits.
#[derive(Debug)]
pub struct ClaimAccountEvent {
    pub account_id: AccountId,
    pub evm_address: EvmAddress,
}

/// A multi-format address, as the surrounding dispatch layer hands it in.
pub enum MultiAddress {
    /// A native account identifier.
    Id(AccountId),
    /// An account index.
    Index(u64),
    /// Raw bytes of unspecified meaning.
    Raw(Vec<u8>),
    /// An opaque 32-byte value.
    Address32(Vec<u8>),
    /// A 20-byte EVM-style address.
    Address20(EvmAddress),
}

/// Failure of the lookup adapter: the source variant cannot be resolved.
#[derive(PartialEq, Eq, Structural, Clone, Copy, Debug)]
pub struct LookupError;

/// Copies a byte vector.
pub fn copy_bytes(v: &Vec<u8>) -> (r: Vec<u8>)
    ensures
        r@ == v@,
{
    let mut r: Vec<u8> = Vec::new();
    let mut i: usize = 0;
    while i < v.len()
        invariant
            i <= v@.len(),
            r@ == v@.subrange(0, i as int),
        decreases v@.len() - i,
    {
        r.push(v[i]);
        proof {
            assert(r@ =~= v@.subrange(0, i + 1 as int));
        }
        i += 1;
    }
    proof {
        assert(r@ =~= v@);
    }
    r
}

/// Copies `v[start..end]` into a fresh vector.
pub fn sub_bytes(v: &Vec<u8>, start: usize, end: usize) -> (r: Vec<u8>)
    requires
        start <= end <= v@.len(),
    ensures
        r@ == v@.subrange(start as int, end as int),
{
    let mut r: Vec<u8> = Vec::new();
    let mut i: usize = start;
    while i < end
        invariant
            start <= i <= end <= v@.len(),
            r@ == v@.subrange(start as int, i as int),
        decreases end - i,
    {
        r.push(v[i]);
        proof {
            assert(v@.subrange(start as int, i + 1 as int) =~= v@.subrange(
                start as int,
                i as int,
            ).push(v@[i as int]));
        }
        i += 1;
    }
    r
}

/// Compares two byte vectors for equality of contents.
pub fn bytes_eq(a: &Vec<u8>, b: &Vec<u8>) -> (r: bool)
    ensures
        r == (a@ == b@),
{
    if a.len() != b.len() {
        return false;
    }
    let mut i: usize = 0;
    while i < a.len()
        invariant
            a@.len() == b@.len(),
            i <= a@.len(),
            forall|j: int| 0 <= j < i ==> a@[j] == b@[j],
        decreases a@.len() - i,
    {
        if a[i] != b[i] {
            return false;
        }
        i += 1;
    }
    proof {
        assert(a@ =~= b@);
    }
    true
}

} // verus!
