//! The address resolver, the two derivation schemes, the lookup adapter
//! and the cleanup hook.

use evm_accounts::claim::LedgerCapability;
use evm_accounts::message::{ethereum_signable_message, to_ascii_hex};
use evm_accounts::resolver::EvmAccounts;
use evm_accounts::secp::{eth_address, eth_sign};
use evm_accounts::types::{AccountId, EvmAddress, MergeError, MultiAddress};

struct NoLedger;

impl LedgerCapability for NoLedger {
    fn contains_account(&self, _account_id: &AccountId) -> bool {
        false
    }

    fn merge_account(&mut self, _source: &AccountId, _dest: &AccountId) -> Result<(), MergeError> {
        Ok(())
    }

    fn kill_account(&mut self, _account_id: &AccountId) {}
}

fn account(n: u8) -> AccountId {
    AccountId::new(vec![n; 32])
}

fn blake2b_256(data: &[u8]) -> Vec<u8> {
    blake2b_simd::Params::new().hash_length(32).hash(data).as_bytes().to_vec()
}

#[test]
fn unmapped_address_resolves_to_padded_shadow_account() {
    let store = EvmAccounts::new();
    let address = EvmAddress::new((1u8..=20).collect());
    let first = store.get_account_id(&address);
    let second = store.get_account_id(&address);
    assert_eq!(first.bytes, second.bytes);
    let mut expected = b"evm:".to_vec();
    expected.extend_from_slice(&address.bytes);
    expected.extend_from_slice(&[0u8; 8]);
    assert_eq!(first.bytes, expected);
}

#[test]
fn padded_account_resolves_back_to_embedded_address() {
    let store = EvmAccounts::new();
    let mut bytes = b"evm:".to_vec();
    bytes.extend_from_slice(&[0x55u8; 20]);
    bytes.extend_from_slice(&[0u8; 8]);
    let padded = AccountId::new(bytes);
    let resolved = store.get_evm_address(&padded).expect("padded account must resolve");
    assert_eq!(resolved.bytes, vec![0x55u8; 20]);
}

#[test]
fn ordinary_unmapped_account_has_no_address() {
    let store = EvmAccounts::new();
    assert!(store.get_evm_address(&account(0x42)).is_none());
}

#[test]
fn default_address_is_leading_blake2b_of_tagged_account() {
    let store = EvmAccounts::new();
    let a = account(0x30);
    let mut payload = b"evm:".to_vec();
    payload.extend_from_slice(&a.bytes);
    let expected = blake2b_256(&payload)[0..20].to_vec();
    assert_eq!(store.get_default_evm_address(&a).bytes, expected);
}

#[test]
fn scenario_get_or_create_is_idempotent() {
    let mut store = EvmAccounts::new();
    let a = account(0x31);
    let first = store.get_or_create_evm_address(&a);
    let second = store.get_or_create_evm_address(&a);
    assert_eq!(first.bytes, second.bytes);
    assert_eq!(first.bytes, store.get_default_evm_address(&a).bytes);
    // the reverse entry was promoted by the first call
    assert_eq!(store.accounts_get(&first).unwrap().bytes, a.bytes);
    // the forward direction is never written by promotion
    assert!(store.evm_addresses_get(&a).is_none());
}

#[test]
fn account_is_linked_to_its_default_address() {
    let store = EvmAccounts::new();
    let a = account(0x32);
    let d = store.get_default_evm_address(&a);
    assert!(store.is_linked(&a, &d));
    assert!(!store.is_linked(&a, &EvmAddress::new(vec![0x99; 20])));
}

#[test]
fn on_killed_account_clears_both_claimed_entries() {
    let sk = libsecp256k1::SecretKey::parse(&[0x51u8; 32]).unwrap();
    let who = account(0x33);
    let evm_addr = eth_address(&sk);
    let mut store = EvmAccounts::new();
    let mut ledger = NoLedger;
    let sig = eth_sign(&sk, &who.bytes, &Vec::new());
    store
        .claim_account(&mut ledger, &who, &evm_addr, &sig)
        .expect("claim must succeed");
    assert!(store.is_linked(&who, &evm_addr));
    store.on_killed_account(&who);
    assert!(store.accounts_get(&evm_addr).is_none());
    assert!(store.evm_addresses_get(&who).is_none());
    assert!(!store.is_linked(&who, &evm_addr));
}

#[test]
fn claimed_address_resolves_to_the_claiming_account() {
    let sk = libsecp256k1::SecretKey::parse(&[0x52u8; 32]).unwrap();
    let who = account(0x36);
    let evm_addr = eth_address(&sk);
    let mut store = EvmAccounts::new();
    let mut ledger = NoLedger;
    let sig = eth_sign(&sk, &who.bytes, &Vec::new());
    store
        .claim_account(&mut ledger, &who, &evm_addr, &sig)
        .expect("claim must succeed");
    assert_eq!(store.get_account_id(&evm_addr).bytes, who.bytes);
    assert_eq!(store.get_evm_address(&who).unwrap().bytes, evm_addr.bytes);
    assert!(store.is_linked(&who, &evm_addr));
}

#[test]
fn on_killed_account_clears_promoted_entry_and_is_a_no_op_otherwise() {
    let mut store = EvmAccounts::new();
    let a = account(0x34);
    let d = store.get_or_create_evm_address(&a);
    assert!(store.accounts_get(&d).is_some());
    store.on_killed_account(&a);
    assert!(store.accounts_get(&d).is_none());
    // running the hook again on an account with no entries changes nothing
    store.on_killed_account(&a);
    assert!(store.accounts_get(&d).is_none());
    assert!(store.evm_addresses_get(&a).is_none());
}

#[test]
fn lookup_resolves_only_the_address_variant() {
    let store = EvmAccounts::new();
    let address = EvmAddress::new(vec![0x77; 20]);
    let resolved = store
        .lookup(MultiAddress::Address20(EvmAddress::new(vec![0x77; 20])))
        .expect("address variant must resolve");
    assert_eq!(resolved.bytes, store.get_account_id(&address).bytes);
    assert!(store.lookup(MultiAddress::Id(account(1))).is_err());
    assert!(store.lookup(MultiAddress::Index(7)).is_err());
    assert!(store.lookup(MultiAddress::Raw(vec![1, 2, 3])).is_err());
    assert!(store.lookup(MultiAddress::Address32(vec![0u8; 32])).is_err());
}

#[test]
fn unlookup_wraps_the_account_in_the_identity_variant() {
    let a = account(0x35);
    match EvmAccounts::unlookup(account(0x35)) {
        MultiAddress::Id(inner) => assert_eq!(inner.bytes, a.bytes),
        _ => panic!("unlookup must produce the identity variant"),
    }
}

#[test]
fn to_ascii_hex_encodes_each_byte_as_two_lowercase_digits() {
    let data = vec![0x00u8, 0x01, 0x0f, 0x10, 0xab, 0xff];
    assert_eq!(to_ascii_hex(&data), b"00010f10abff".to_vec());
    assert_eq!(to_ascii_hex(&Vec::new()), Vec::<u8>::new());
}

#[test]
fn signable_message_frames_length_tag_and_payload() {
    let what = b"AB".to_vec();
    let extra = b"CD".to_vec();
    let message = ethereum_signable_message(&what, &extra);
    assert_eq!(message, b"\x19Ethereum Signed Message:\n14acala evm:ABCD".to_vec());
}
