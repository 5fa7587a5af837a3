//! Laws the resolver and the cleanup hook obey, stated over the map views
//! that the operations' own contracts use.

use vstd::prelude::*;
use crate::message::evm_tag;
use crate::resolver::{default_evm_address_of, get_account_id_of, get_evm_address_of,
    get_or_create_accounts, is_linked_of, on_killed_accounts,
    padded_account_of};

verus! {

/// For an address with no explicit entry, the resolver's account is the
/// padded shadow account: a pure function of the address alone, so any two
/// states that leave the address unmapped — in particular the same state
/// across repeated calls — resolve it to the same account.
pub proof fn lemma_get_account_id_unmapped(
    accounts1: Map<Seq<u8>, Seq<u8>>,
    accounts2: Map<Seq<u8>, Seq<u8>>,
    e: Seq<u8>,
)
    requires
        !accounts1.contains_key(e),
        !accounts2.contains_key(e),
    ensures
        get_account_id_of(accounts1, e) == padded_account_of(e),
        get_account_id_of(accounts1, e) == get_account_id_of(accounts2, e),
{
}

/// Resolving an account with promotion is idempotent. The returned address
/// depends only on the account-to-address table, which the call never
/// writes, so a second call returns the same address; this lemma adds that
/// the second call also leaves the address-to-account table exactly as the
/// first left it, and that when the account did not yet resolve, the first
/// call adds exactly the one entry mapping the derived address back to the
/// account.
pub proof fn lemma_get_or_create_idempotent(
    accounts: Map<Seq<u8>, Seq<u8>>,
    evm_addresses: Map<Seq<u8>, Seq<u8>>,
    a: Seq<u8>,
)
    ensures
        get_or_create_accounts(
            get_or_create_accounts(accounts, evm_addresses, a),
            evm_addresses,
            a,
        ) == get_or_create_accounts(accounts, evm_addresses, a),
        get_evm_address_of(evm_addresses, a) is None ==> get_or_create_accounts(
            accounts,
            evm_addresses,
            a,
        ) == accounts.insert(default_evm_address_of(a), a),
{
    if get_evm_address_of(evm_addresses, a) is None {
        let d = default_evm_address_of(a);
        assert(accounts.insert(d, a).insert(d, a) =~= accounts.insert(d, a));
    }
}

/// An account is always linked to its own hashed default address, whatever
/// the explicit entries say — in particular before any claim involving it.
pub proof fn lemma_default_address_always_linked(
    evm_addresses: Map<Seq<u8>, Seq<u8>>,
    a: Seq<u8>,
)
    ensures
        is_linked_of(evm_addresses, a, default_evm_address_of(a)),
{
}

/// The cleanup hook is idempotent: running it a second time for the same
/// account, from the state the first run left, changes nothing.
pub proof fn lemma_on_killed_idempotent(
    accounts: Map<Seq<u8>, Seq<u8>>,
    evm_addresses: Map<Seq<u8>, Seq<u8>>,
    a: Seq<u8>,
)
    ensures
        on_killed_accounts(
            on_killed_accounts(accounts, evm_addresses, a),
            evm_addresses.remove(a),
            a,
        ) == on_killed_accounts(accounts, evm_addresses, a),
        evm_addresses.remove(a).remove(a) == evm_addresses.remove(a),
{
    let once = on_killed_accounts(accounts, evm_addresses, a);
    assert(once.remove(default_evm_address_of(a)) =~= once);
    assert(evm_addresses.remove(a).remove(a) =~= evm_addresses.remove(a));
}

/// After the cleanup hook runs for an account that had successfully
/// claimed an address, both explicit entries are gone and the pair is no
/// longer linked. The claimed address must differ from the account's
/// hashed default address, and the account must not itself be a padded
/// shadow account embedding that address: for those inputs the derivation
/// schemes link the pair without any stored entry.
pub proof fn lemma_on_killed_clears_claim(
    accounts: Map<Seq<u8>, Seq<u8>>,
    evm_addresses: Map<Seq<u8>, Seq<u8>>,
    a: Seq<u8>,
    e: Seq<u8>,
)
    requires
        accounts.contains_key(e) && accounts[e] == a,
        evm_addresses.contains_key(a) && evm_addresses[a] == e,
        e != default_evm_address_of(a),
        !(a.len() >= 24 && a.subrange(0, 4) == evm_tag() && e == a.subrange(4, 24)),
    ensures
        !on_killed_accounts(accounts, evm_addresses, a).contains_key(e),
        !evm_addresses.remove(a).contains_key(a),
        !is_linked_of(evm_addresses.remove(a), a, e),
{
}

} // verus!
