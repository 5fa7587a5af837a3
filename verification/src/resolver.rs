//! The address resolver: the two persistent mapping tables between native
//! accounts and EVM-style addresses, the two coexisting derivation schemes
//! (the padded shadow account and the hashed default address), and the
//! cleanup hook run when an account is deleted from the ledger.

use vstd::prelude::*;
use crate::hashes::{blake2_256, blake2b256_of};
use crate::message::{append_bytes, evm_tag, evm_tag_vec};
use crate::store::{alist_contains, alist_get, alist_insert, alist_remove, alist_view,
    keys_unique};
use crate::types::{bytes_eq, copy_bytes, sub_bytes, AccountId, EvmAddress, LookupError,
    MultiAddress};

verus! {

/// The padded shadow account synthesized from an address: the tag `"evm:"`,
/// the 20 address bytes, then 8 zero bytes.
pub open spec fn padded_account_of(e: Seq<u8>) -> Seq<u8> {
    evm_tag() + e + Seq::new(8, |i: int| 0u8)
}

/// The hashed default address derived from an account: the first 20 bytes
/// of the BLAKE2b-256 digest of the tag `"evm:"` followed by the account
/// bytes.
pub open spec fn default_evm_address_of(a: Seq<u8>) -> Seq<u8> {
    blake2b256_of(evm_tag() + a).subrange(0, 20)
}

/// What the resolver reports for an address: the explicit entry if one
/// exists, the padded shadow account otherwise.
pub open spec fn get_account_id_of(accounts: Map<Seq<u8>, Seq<u8>>, e: Seq<u8>) -> Seq<u8> {
    if accounts.contains_key(e) {
        accounts[e]
    } else {
        padded_account_of(e)
    }
}

/// What the resolver reports for an account: the explicit entry if one
/// exists; otherwise, if the account is itself a padded shadow account, the
/// embedded 20 address bytes; otherwise nothing.
pub open spec fn get_evm_address_of(evm_addresses: Map<Seq<u8>, Seq<u8>>, a: Seq<u8>) -> Option<
    Seq<u8>,
> {
    if evm_addresses.contains_key(a) {
        Some(evm_addresses[a])
    } else if a.len() >= 24 && a.subrange(0, 4) == evm_tag() {
        Some(a.subrange(4, 24))
    } else {
        None
    }
}

/// Whether an account and an address are linked: either the resolver
/// reports exactly this address for the account, or the address is the
/// account's hashed default address.
pub open spec fn is_linked_of(evm_addresses: Map<Seq<u8>, Seq<u8>>, a: Seq<u8>, e: Seq<u8>) -> bool {
    get_evm_address_of(evm_addresses, a) == Some(e) || default_evm_address_of(a) == e
}

/// The address `get_or_create_evm_address` returns.
pub open spec fn get_or_create_result(evm_addresses: Map<Seq<u8>, Seq<u8>>, a: Seq<u8>) -> Seq<
    u8,
> {
    match get_evm_address_of(evm_addresses, a) {
        Some(e) => e,
        None => default_evm_address_of(a),
    }
}

/// The accounts table `get_or_create_evm_address` leaves behind: unchanged
/// when the account already resolves, otherwise extended by the one entry
/// promoting the derived address.
pub open spec fn get_or_create_accounts(
    accounts: Map<Seq<u8>, Seq<u8>>,
    evm_addresses: Map<Seq<u8>, Seq<u8>>,
    a: Seq<u8>,
) -> Map<Seq<u8>, Seq<u8>> {
    match get_evm_address_of(evm_addresses, a) {
        Some(e) => accounts,
        None => accounts.insert(default_evm_address_of(a), a),
    }
}

/// The accounts table the cleanup hook leaves behind: the entry under the
/// account's hashed default address is gone, and so is the entry under the
/// account's explicit address when one existed.
pub open spec fn on_killed_accounts(
    accounts: Map<Seq<u8>, Seq<u8>>,
    evm_addresses: Map<Seq<u8>, Seq<u8>>,
    a: Seq<u8>,
) -> Map<Seq<u8>, Seq<u8>> {
    let cleaned = accounts.remove(default_evm_address_of(a));
    if evm_addresses.contains_key(a) {
        cleaned.remove(evm_addresses[a])
    } else {
        cleaned
    }
}

/// The derived address of an account: hash the tag `"evm:"` followed by the
/// account bytes, keep the first 20 digest bytes. Never persisted here.
pub fn account_to_default_evm_address(account_id: &AccountId) -> (r: EvmAddress)
    requires
        account_id.wf(),
    ensures
        r.wf(),
        r@ == default_evm_address_of(account_id@),
{
    let mut payload = evm_tag_vec();
    append_bytes(&mut payload, &account_id.bytes);
    let digest = blake2_256(&payload);
    let mut out: Vec<u8> = Vec::new();
    let mut i: usize = 0;
    while i < 20
        invariant
            i <= 20,
            digest@.len() == 32,
            digest@ == blake2b256_of(evm_tag() + account_id@),
            out@ == digest@.subrange(0, i as int),
        decreases 20 - i,
    {
        out.push(digest[i]);
        proof {
            assert(digest@.subrange(0, i + 1 as int) =~= digest@.subrange(0, i as int).push(
                digest@[i as int],
            ));
        }
        i += 1;
    }
    EvmAddress::new(out)
}

/// The two persistent mapping tables: addresses to accounts, and accounts
/// to addresses.
pub struct EvmAccounts {
    accounts: Vec<(Vec<u8>, Vec<u8>)>,
    evm_addresses: Vec<(Vec<u8>, Vec<u8>)>,
}

impl EvmAccounts {
    /// The address-to-account table, as a finite map over byte strings.
    pub closed spec fn accounts(&self) -> Map<Seq<u8>, Seq<u8>> {
        alist_view(self.accounts@)
    }

    /// The account-to-address table, as a finite map over byte strings.
    pub closed spec fn evm_addresses(&self) -> Map<Seq<u8>, Seq<u8>> {
        alist_view(self.evm_addresses@)
    }

    /// Well-formedness: unique keys in both tables, every address key 20
    /// bytes against a 32-byte account value, and symmetrically.
    pub closed spec fn wf(&self) -> bool {
        &&& keys_unique(self.accounts@)
        &&& keys_unique(self.evm_addresses@)
        &&& forall|k: Seq<u8>| #[trigger]
            self.accounts().contains_key(k) ==> k.len() == 20 && self.accounts()[k].len() == 32
        &&& forall|k: Seq<u8>| #[trigger]
            self.evm_addresses().contains_key(k) ==> k.len() == 32 && self.evm_addresses()[k].len()
                == 20
    }

    /// An empty store: no explicit entries in either direction.
    pub fn new() -> (r: EvmAccounts)
        ensures
            r.wf(),
            r.accounts() == Map::<Seq<u8>, Seq<u8>>::empty(),
            r.evm_addresses() == Map::<Seq<u8>, Seq<u8>>::empty(),
    {
        EvmAccounts { accounts: Vec::new(), evm_addresses: Vec::new() }
    }

    /// The explicit account entry stored under an address, if any.
    pub fn accounts_get(&self, address: &EvmAddress) -> (r: Option<AccountId>)
        requires
            self.wf(),
        ensures
            match r {
                Some(a) => self.accounts().contains_key(address@) && a.wf() && a@
                    == self.accounts()[address@],
                None => !self.accounts().contains_key(address@),
            },
    {
        match alist_get(&self.accounts, &address.bytes) {
            Some(bytes) => {
                proof {
                    assert(self.accounts().contains_key(address@));
                }
                Some(AccountId::new(bytes))
            },
            None => None,
        }
    }

    /// The explicit address entry stored under an account, if any.
    pub fn evm_addresses_get(&self, account_id: &AccountId) -> (r: Option<EvmAddress>)
        requires
            self.wf(),
        ensures
            match r {
                Some(e) => self.evm_addresses().contains_key(account_id@) && e@
                    == self.evm_addresses()[account_id@] && e.wf(),
                None => !self.evm_addresses().contains_key(account_id@),
            },
    {
        match alist_get(&self.evm_addresses, &account_id.bytes) {
            Some(bytes) => {
                proof {
                    assert(self.evm_addresses().contains_key(account_id@));
                }
                Some(EvmAddress::new(bytes))
            },
            None => None,
        }
    }

    /// Whether an address has an explicit account entry.
    pub fn accounts_contains(&self, address: &EvmAddress) -> (r: bool)
        requires
            self.wf(),
        ensures
            r == self.accounts().contains_key(address@),
    {
        alist_contains(&self.accounts, &address.bytes)
    }

    /// Whether an account has an explicit address entry.
    pub fn evm_addresses_contains(&self, account_id: &AccountId) -> (r: bool)
        requires
            self.wf(),
        ensures
            r == self.evm_addresses().contains_key(account_id@),
    {
        alist_contains(&self.evm_addresses, &account_id.bytes)
    }

    /// The account an address resolves to: the explicit entry if present,
    /// the padded shadow account otherwise. Never persists anything.
    pub fn get_account_id(&self, address: &EvmAddress) -> (r: AccountId)
        requires
            self.wf(),
            address.wf(),
        ensures
            r.wf(),
            r@ == get_account_id_of(self.accounts(), address@),
    {
        match self.accounts_get(address) {
            Some(a) => a,
            None => {
                let mut data = evm_tag_vec();
                append_bytes(&mut data, &address.bytes);
                data.push(0);
                data.push(0);
                data.push(0);
                data.push(0);
                data.push(0);
                data.push(0);
                data.push(0);
                data.push(0);
                proof {
                    assert(data@ =~= padded_account_of(address@));
                }
                AccountId::new(data)
            },
        }
    }

    /// The address an account resolves to: the explicit entry if present;
    /// otherwise the embedded bytes when the account is a padded shadow
    /// account; otherwise nothing.
    pub fn get_evm_address(&self, account_id: &AccountId) -> (r: Option<EvmAddress>)
        requires
            self.wf(),
            account_id.wf(),
        ensures
            match r {
                Some(e) => get_evm_address_of(self.evm_addresses(), account_id@) == Some(e@)
                    && e.wf(),
                None => get_evm_address_of(self.evm_addresses(), account_id@) is None,
            },
    {
        match self.evm_addresses_get(account_id) {
            Some(e) => Some(e),
            None => {
                let tag = evm_tag_vec();
                let head = sub_bytes(&account_id.bytes, 0, 4);
                if bytes_eq(&head, &tag) {
                    Some(EvmAddress::new(sub_bytes(&account_id.bytes, 4, 24)))
                } else {
                    None
                }
            },
        }
    }

    /// The account's hashed default address. Never persists anything.
    pub fn get_default_evm_address(&self, account_id: &AccountId) -> (r: EvmAddress)
        requires
            account_id.wf(),
        ensures
            r.wf(),
            r@ == default_evm_address_of(account_id@),
    {
        account_to_default_evm_address(account_id)
    }

    /// Resolves an account to an address, promoting the hashed default
    /// address into an explicit address-to-account entry when the account
    /// did not yet resolve. The reverse direction is never written here.
    pub fn get_or_create_evm_address(&mut self, account_id: &AccountId) -> (r: EvmAddress)
        requires
            old(self).wf(),
            account_id.wf(),
        ensures
            final(self).wf(),
            r.wf(),
            r@ == get_or_create_result(old(self).evm_addresses(), account_id@),
            final(self).accounts() == get_or_create_accounts(
                old(self).accounts(),
                old(self).evm_addresses(),
                account_id@,
            ),
            final(self).evm_addresses() == old(self).evm_addresses(),
    {
        match self.get_evm_address(account_id) {
            Some(e) => e,
            None => {
                let addr = account_to_default_evm_address(account_id);
                alist_insert(
                    &mut self.accounts,
                    copy_bytes(&addr.bytes),
                    copy_bytes(&account_id.bytes),
                );
                proof {
                    assert forall|k: Seq<u8>| #[trigger] self.accounts().contains_key(k) implies k.len()
                        == 20 && self.accounts()[k].len() == 32 by {
                        if k != addr@ {
                            assert(old(self).accounts().contains_key(k));
                        }
                    }
                }
                addr
            },
        }
    }

    /// Whether the account and the address are linked, by explicit entry,
    /// by the padded scheme, or by the hashed default scheme.
    pub fn is_linked(&self, account_id: &AccountId, evm: &EvmAddress) -> (r: bool)
        requires
            self.wf(),
            account_id.wf(),
            evm.wf(),
        ensures
            r == is_linked_of(self.evm_addresses(), account_id@, evm@),
    {
        let explicit = match self.get_evm_address(account_id) {
            Some(e) => bytes_eq(&e.bytes, &evm.bytes),
            None => false,
        };
        if explicit {
            true
        } else {
            let d = account_to_default_evm_address(account_id);
            bytes_eq(&d.bytes, &evm.bytes)
        }
    }

    /// The cleanup hook, run when the account is deleted from the ledger:
    /// drops the promoted entry under the account's hashed default address,
    /// and any explicit pair the account had claimed. Idempotent, and a
    /// no-op for an account with no entries.
    pub fn on_killed_account(&mut self, who: &AccountId)
        requires
            old(self).wf(),
            who.wf(),
        ensures
            final(self).wf(),
            final(self).accounts() == on_killed_accounts(
                old(self).accounts(),
                old(self).evm_addresses(),
                who@,
            ),
            final(self).evm_addresses() == old(self).evm_addresses().remove(who@),
    {
        let d = account_to_default_evm_address(who);
        alist_remove(&mut self.accounts, &d.bytes);
        let existing = alist_get(&self.evm_addresses, &who.bytes);
        match existing {
            Some(evm_addr) => {
                alist_remove(&mut self.accounts, &evm_addr);
                alist_remove(&mut self.evm_addresses, &who.bytes);
            },
            None => {
                proof {
                    assert(self.evm_addresses() =~= old(self).evm_addresses().remove(who@));
                }
            },
        }
        proof {
            assert forall|k: Seq<u8>| #[trigger] self.accounts().contains_key(k) implies k.len()
                == 20 && self.accounts()[k].len() == 32 by {
                assert(old(self).accounts().contains_key(k));
            }
            assert forall|k: Seq<u8>| #[trigger] self.evm_addresses().contains_key(k) implies k.len()
                == 32 && self.evm_addresses()[k].len() == 20 by {
                assert(old(self).evm_addresses().contains_key(k));
            }
        }
    }

    /// Writes one explicit address-to-account entry.
    pub(crate) fn insert_accounts_entry(&mut self, address: &EvmAddress, account_id: &AccountId)
        requires
            old(self).wf(),
            address.wf(),
            account_id.wf(),
        ensures
            final(self).wf(),
            final(self).accounts() == old(self).accounts().insert(address@, account_id@),
            final(self).evm_addresses() == old(self).evm_addresses(),
    {
        alist_insert(&mut self.accounts, copy_bytes(&address.bytes), copy_bytes(&account_id.bytes));
        proof {
            assert forall|k: Seq<u8>| #[trigger] self.accounts().contains_key(k) implies k.len()
                == 20 && self.accounts()[k].len() == 32 by {
                if k != address@ {
                    assert(old(self).accounts().contains_key(k));
                }
            }
            assert forall|k: Seq<u8>| #[trigger] self.evm_addresses().contains_key(k) implies k.len()
                == 32 && self.evm_addresses()[k].len() == 20 by {
                assert(old(self).evm_addresses().contains_key(k));
            }
        }
    }

    /// Writes one explicit account-to-address entry.
    pub(crate) fn insert_evm_addresses_entry(&mut self, account_id: &AccountId, address: &EvmAddress)
        requires
            old(self).wf(),
            address.wf(),
            account_id.wf(),
        ensures
            final(self).wf(),
            final(self).evm_addresses() == old(self).evm_addresses().insert(account_id@, address@),
            final(self).accounts() == old(self).accounts(),
    {
        alist_insert(
            &mut self.evm_addresses,
            copy_bytes(&account_id.bytes),
            copy_bytes(&address.bytes),
        );
        proof {
            assert forall|k: Seq<u8>| #[trigger] self.evm_addresses().contains_key(k) implies k.len()
                == 32 && self.evm_addresses()[k].len() == 20 by {
                if k != account_id@ {
                    assert(old(self).evm_addresses().contains_key(k));
                }
            }
            assert forall|k: Seq<u8>| #[trigger] self.accounts().contains_key(k) implies k.len()
                == 20 && self.accounts()[k].len() == 32 by {
                assert(old(self).accounts().contains_key(k));
            }
        }
    }

    /// The lookup adapter: only the 20-byte address variant resolves, via
    /// `get_account_id`; every other variant is unresolvable.
    pub fn lookup(&self, a: MultiAddress) -> (r: Result<AccountId, LookupError>)
        requires
            self.wf(),
            a matches MultiAddress::Address20(addr) ==> addr.wf(),
        ensures
            match a {
                MultiAddress::Address20(addr) => r matches Ok(account) && account.wf()
                    && account@ == get_account_id_of(self.accounts(), addr@),
                _ => r is Err,
            },
    {
        match a {
            MultiAddress::Address20(addr) => Ok(self.get_account_id(&addr)),
            _ => Err(LookupError),
        }
    }

    /// The reverse adapter: always the identity-tagged variant.
    pub fn unlookup(account_id: AccountId) -> (r: MultiAddress)
        ensures
            r matches MultiAddress::Id(x) && x@ == account_id@,
    {
        MultiAddress::Id(account_id)
    }
}

} // verus!
