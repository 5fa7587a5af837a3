//! The claim protocol: a single-shot, all-or-nothing transition that proves
//! ownership of an address by signature, reconciles any balance held by the
//! address's shadow account, and commits the explicit mapping pair.

use vstd::prelude::*;
use crate::message::{hex_of, lemma_hex_of_len, to_ascii_hex};
use crate::resolver::EvmAccounts;
use crate::secp::{eth_recover, eth_recover_of};
use crate::types::{bytes_eq, AccountId, ClaimAccountEvent, EcdsaSignature, Error, EvmAddress,
    MergeError};

verus! {

/// The external ledger capabilities the claim protocol consumes: account
/// presence, balance merge, and account removal. The surrounding system
/// supplies the implementation; nothing is assumed of it here.
pub trait LedgerCapability {
    /// Whether the account has any on-chain presence.
    fn contains_account(&self, account_id: &AccountId) -> bool;

    /// Moves the source account's free balance into the destination
    /// account; refuses when references or reserves block the merge.
    fn merge_account(&mut self, source: &AccountId, dest: &AccountId) -> Result<(), MergeError>;

    /// Removes a fully-empty account.
    fn kill_account(&mut self, account_id: &AccountId);
}

/// A claim request is valid when neither side is explicitly mapped yet and
/// the signature recovers to exactly the claimed address over the hex-ASCII
/// encoding of the caller's account bytes with empty extra bytes.
pub open spec fn claim_request_valid(
    accounts: Map<Seq<u8>, Seq<u8>>,
    evm_addresses: Map<Seq<u8>, Seq<u8>>,
    who: Seq<u8>,
    eth_address: Seq<u8>,
    sig: Seq<u8>,
) -> bool {
    &&& !evm_addresses.contains_key(who)
    &&& !accounts.contains_key(eth_address)
    &&& eth_recover_of(sig, hex_of(who), Seq::empty()) == Some(eth_address)
}

impl EvmAccounts {
    /// Claims an explicit mapping between the caller's account and an
    /// address, against a signature over the hex-ASCII encoding of the
    /// caller's account bytes. Both guards are checked before any
    /// cryptography, the signature is verified, any balance accrued at the
    /// address's shadow account is merged into the caller and the shadow
    /// account killed, and only then is the pair committed — any failure
    /// leaves the mapping state untouched.
    pub fn claim_account<L: LedgerCapability>(
        &mut self,
        ledger: &mut L,
        who: &AccountId,
        eth_address: &EvmAddress,
        eth_signature: &EcdsaSignature,
    ) -> (r: Result<ClaimAccountEvent, Error>)
        requires
            old(self).wf(),
            who.wf(),
            eth_address.wf(),
            eth_signature.wf(),
        ensures
            final(self).wf(),
            r == Err::<ClaimAccountEvent, Error>(Error::AccountIdHasMapped)
                <==> old(self).evm_addresses().contains_key(who@),
            r == Err::<ClaimAccountEvent, Error>(Error::EthAddressHasMapped)
                <==> (!old(self).evm_addresses().contains_key(who@)
                    && old(self).accounts().contains_key(eth_address@)),
            r == Err::<ClaimAccountEvent, Error>(Error::BadSignature)
                <==> (!old(self).evm_addresses().contains_key(who@)
                    && !old(self).accounts().contains_key(eth_address@)
                    && eth_recover_of(eth_signature@, hex_of(who@), Seq::empty()) is None),
            r == Err::<ClaimAccountEvent, Error>(Error::InvalidSignature)
                <==> (!old(self).evm_addresses().contains_key(who@)
                    && !old(self).accounts().contains_key(eth_address@)
                    && match eth_recover_of(eth_signature@, hex_of(who@), Seq::empty()) {
                        Some(recovered) => recovered != eth_address@,
                        None => false,
                    }),
            r is Err ==> final(self).accounts() == old(self).accounts()
                && final(self).evm_addresses() == old(self).evm_addresses(),
            r matches Err(e) && (e == Error::NonZeroRefCount || e == Error::StillHasActiveReserved)
                ==> claim_request_valid(
                old(self).accounts(),
                old(self).evm_addresses(),
                who@,
                eth_address@,
                eth_signature@,
            ),
            r matches Ok(event) ==> {
                &&& claim_request_valid(
                    old(self).accounts(),
                    old(self).evm_addresses(),
                    who@,
                    eth_address@,
                    eth_signature@,
                )
                &&& final(self).accounts() == old(self).accounts().insert(eth_address@, who@)
                &&& final(self).evm_addresses() == old(self).evm_addresses().insert(
                    who@,
                    eth_address@,
                )
                &&& event.account_id.wf() && event.account_id@ == who@
                &&& event.evm_address.wf() && event.evm_address@ == eth_address@
            },
            claim_request_valid(
                old(self).accounts(),
                old(self).evm_addresses(),
                who@,
                eth_address@,
                eth_signature@,
            ) ==> (r is Ok || r == Err::<ClaimAccountEvent, Error>(Error::NonZeroRefCount) || r
                == Err::<ClaimAccountEvent, Error>(Error::StillHasActiveReserved)),
    {
        if self.evm_addresses_contains(who) {
            return Err(Error::AccountIdHasMapped);
        }
        if self.accounts_contains(eth_address) {
            return Err(Error::EthAddressHasMapped);
        }
        proof {
            lemma_hex_of_len(who@);
        }
        let hexed = to_ascii_hex(&who.bytes);
        let extra: Vec<u8> = Vec::new();
        let recovered = match eth_recover(eth_signature, &hexed, &extra) {
            Some(addr) => addr,
            None => {
                return Err(Error::BadSignature);
            },
        };
        if !bytes_eq(&recovered.bytes, &eth_address.bytes) {
            return Err(Error::InvalidSignature);
        }
        // the address is unmapped here, so this is its padded shadow account
        let shadow = self.get_account_id(eth_address);
        if ledger.contains_account(&shadow) {
            match ledger.merge_account(&shadow, who) {
                Ok(_) => {
                    ledger.kill_account(&shadow);
                },
                Err(e) => {
                    return Err(e.to_error());
                },
            }
        }
        self.commit_pair(who, eth_address);
        Ok(ClaimAccountEvent { account_id: who.dup(), evm_address: eth_address.dup() })
    }

    /// Commits the explicit mapping pair in both directions at once.
    fn commit_pair(&mut self, who: &AccountId, eth_address: &EvmAddress)
        requires
            old(self).wf(),
            who.wf(),
            eth_address.wf(),
        ensures
            final(self).wf(),
            final(self).accounts() == old(self).accounts().insert(eth_address@, who@),
            final(self).evm_addresses() == old(self).evm_addresses().insert(who@, eth_address@),
    {
        self.insert_accounts_entry(eth_address, who);
        self.insert_evm_addresses_entry(who, eth_address);
    }
}

} // verus!
