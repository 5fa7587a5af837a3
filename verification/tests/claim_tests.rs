//! The claim protocol end to end, with real secp256k1 signatures.

use evm_accounts::claim::LedgerCapability;
use evm_accounts::resolver::EvmAccounts;
use evm_accounts::secp::{eth_address, eth_public, eth_recover, eth_sign};
use evm_accounts::types::{AccountId, EcdsaSignature, Error, EvmAddress, MergeError};
use tiny_keccak::Hasher;

struct TestLedger {
    existing: Vec<Vec<u8>>,
    merge_result: Result<(), MergeError>,
    merges: Vec<(Vec<u8>, Vec<u8>)>,
    kills: Vec<Vec<u8>>,
}

impl TestLedger {
    fn empty() -> TestLedger {
        TestLedger { existing: Vec::new(), merge_result: Ok(()), merges: Vec::new(), kills: Vec::new() }
    }
}

impl LedgerCapability for TestLedger {
    fn contains_account(&self, account_id: &AccountId) -> bool {
        self.existing.iter().any(|x| x == &account_id.bytes)
    }

    fn merge_account(&mut self, source: &AccountId, dest: &AccountId) -> Result<(), MergeError> {
        self.merges.push((source.bytes.clone(), dest.bytes.clone()));
        self.merge_result
    }

    fn kill_account(&mut self, account_id: &AccountId) {
        self.kills.push(account_id.bytes.clone());
    }
}

fn account(n: u8) -> AccountId {
    AccountId::new(vec![n; 32])
}

fn secret(n: u8) -> libsecp256k1::SecretKey {
    let mut bytes = [0u8; 32];
    bytes[31] = n;
    libsecp256k1::SecretKey::parse(&bytes).unwrap()
}

fn padded_shadow(address: &EvmAddress) -> Vec<u8> {
    let mut bytes = vec![101u8, 118, 109, 58];
    bytes.extend_from_slice(&address.bytes);
    bytes.extend_from_slice(&[0u8; 8]);
    bytes
}

#[test]
fn scenario_claim_succeeds() {
    let sk = secret(1);
    let who = account(0xAA);
    let evm_addr = eth_address(&sk);
    let sig = eth_sign(&sk, &who.bytes, &Vec::new());
    let mut store = EvmAccounts::new();
    let mut ledger = TestLedger::empty();
    let event = store
        .claim_account(&mut ledger, &who, &evm_addr, &sig)
        .expect("valid claim must succeed");
    assert_eq!(event.account_id.bytes, who.bytes);
    assert_eq!(event.evm_address.bytes, evm_addr.bytes);
    assert_eq!(store.accounts_get(&evm_addr).unwrap().bytes, who.bytes);
    assert_eq!(store.evm_addresses_get(&who).unwrap().bytes, evm_addr.bytes);
    assert!(ledger.merges.is_empty());
    assert!(ledger.kills.is_empty());
}

#[test]
fn scenario_second_account_cannot_claim_same_address() {
    let sk = secret(2);
    let a1 = account(0x01);
    let a2 = account(0x02);
    let evm_addr = eth_address(&sk);
    let mut store = EvmAccounts::new();
    let mut ledger = TestLedger::empty();
    let sig1 = eth_sign(&sk, &a1.bytes, &Vec::new());
    store
        .claim_account(&mut ledger, &a1, &evm_addr, &sig1)
        .expect("first claim must succeed");
    let sig2 = eth_sign(&sk, &a2.bytes, &Vec::new());
    let r = store.claim_account(&mut ledger, &a2, &evm_addr, &sig2);
    assert_eq!(r.unwrap_err(), Error::EthAddressHasMapped);
}

#[test]
fn claim_fails_when_account_already_mapped() {
    let sk = secret(3);
    let who = account(0x03);
    let evm_addr = eth_address(&sk);
    let mut store = EvmAccounts::new();
    let mut ledger = TestLedger::empty();
    let sig = eth_sign(&sk, &who.bytes, &Vec::new());
    store
        .claim_account(&mut ledger, &who, &evm_addr, &sig)
        .expect("first claim must succeed");
    let sk2 = secret(4);
    let other_addr = eth_address(&sk2);
    let sig2 = eth_sign(&sk2, &who.bytes, &Vec::new());
    let r = store.claim_account(&mut ledger, &who, &other_addr, &sig2);
    assert_eq!(r.unwrap_err(), Error::AccountIdHasMapped);
}

#[test]
fn claim_fails_with_bad_signature_when_recovery_fails() {
    let who = account(0x05);
    let evm_addr = EvmAddress::new(vec![0x11; 20]);
    // recovery id byte 10 is below 27 and not a valid raw id, so recovery fails
    let sig = EcdsaSignature::new({
        let mut bytes = vec![0u8; 65];
        bytes[64] = 10;
        bytes
    });
    let mut store = EvmAccounts::new();
    let mut ledger = TestLedger::empty();
    let r = store.claim_account(&mut ledger, &who, &evm_addr, &sig);
    assert_eq!(r.unwrap_err(), Error::BadSignature);
    assert!(store.accounts_get(&evm_addr).is_none());
    assert!(store.evm_addresses_get(&who).is_none());
}

#[test]
fn claim_fails_with_invalid_signature_when_address_differs() {
    let sk = secret(6);
    let who = account(0x06);
    let wrong_addr = EvmAddress::new(vec![0x22; 20]);
    assert_ne!(eth_address(&sk).bytes, wrong_addr.bytes);
    let sig = eth_sign(&sk, &who.bytes, &Vec::new());
    let mut store = EvmAccounts::new();
    let mut ledger = TestLedger::empty();
    let r = store.claim_account(&mut ledger, &who, &wrong_addr, &sig);
    assert_eq!(r.unwrap_err(), Error::InvalidSignature);
}

#[test]
fn claim_merges_and_kills_live_shadow_account() {
    let sk = secret(7);
    let who = account(0x07);
    let evm_addr = eth_address(&sk);
    let shadow = padded_shadow(&evm_addr);
    let mut store = EvmAccounts::new();
    let mut ledger = TestLedger::empty();
    ledger.existing.push(shadow.clone());
    let sig = eth_sign(&sk, &who.bytes, &Vec::new());
    store
        .claim_account(&mut ledger, &who, &evm_addr, &sig)
        .expect("claim with mergeable shadow must succeed");
    assert_eq!(ledger.merges, vec![(shadow.clone(), who.bytes.clone())]);
    assert_eq!(ledger.kills, vec![shadow]);
}

#[test]
fn claim_fails_when_merge_reports_nonzero_ref_count() {
    let sk = secret(8);
    let who = account(0x08);
    let evm_addr = eth_address(&sk);
    let mut store = EvmAccounts::new();
    let mut ledger = TestLedger::empty();
    ledger.existing.push(padded_shadow(&evm_addr));
    ledger.merge_result = Err(MergeError::NonZeroRefCount);
    let sig = eth_sign(&sk, &who.bytes, &Vec::new());
    let r = store.claim_account(&mut ledger, &who, &evm_addr, &sig);
    assert_eq!(r.unwrap_err(), Error::NonZeroRefCount);
    assert!(store.accounts_get(&evm_addr).is_none());
    assert!(store.evm_addresses_get(&who).is_none());
    assert!(ledger.kills.is_empty());
}

#[test]
fn claim_fails_when_merge_reports_active_reserves() {
    let sk = secret(9);
    let who = account(0x09);
    let evm_addr = eth_address(&sk);
    let mut store = EvmAccounts::new();
    let mut ledger = TestLedger::empty();
    ledger.existing.push(padded_shadow(&evm_addr));
    ledger.merge_result = Err(MergeError::StillHasActiveReserved);
    let sig = eth_sign(&sk, &who.bytes, &Vec::new());
    let r = store.claim_account(&mut ledger, &who, &evm_addr, &sig);
    assert_eq!(r.unwrap_err(), Error::StillHasActiveReserved);
    assert!(store.evm_addresses_get(&who).is_none());
}

#[test]
fn eth_recover_round_trips_eth_sign() {
    let sk = secret(10);
    let payload = vec![0xABu8; 32];
    let sig = eth_sign(&sk, &payload, &Vec::new());
    // eth_sign signs the hex encoding of its payload
    let mut hexed = Vec::new();
    for b in payload.iter() {
        let digit = |n: u8| if n < 10 { b'0' + n } else { b'a' - 10 + n };
        hexed.push(digit(b / 16));
        hexed.push(digit(b % 16));
    }
    let recovered = eth_recover(&sig, &hexed, &Vec::new()).expect("recovery must succeed");
    assert_eq!(recovered.bytes, eth_address(&sk).bytes);
}

#[test]
fn eth_address_matches_keccak_of_public_key() {
    let sk = secret(11);
    let pk = eth_public(&sk);
    let serialized = pk.serialize();
    let mut hasher = tiny_keccak::Keccak::v256();
    hasher.update(&serialized[1..65]);
    let mut digest = [0u8; 32];
    hasher.finalize(&mut digest);
    assert_eq!(eth_address(&sk).bytes, digest[12..32].to_vec());
}

#[test]
fn eth_address_of_key_one_is_the_known_address() {
    let sk = secret(1);
    let expected: Vec<u8> = vec![
        0x7e, 0x5f, 0x45, 0x52, 0x09, 0x1a, 0x69, 0x12, 0x5d, 0x5d, 0xfc, 0xb7, 0xb8, 0xc2,
        0x65, 0x90, 0x29, 0x39, 0x5b, 0xdf,
    ];
    assert_eq!(eth_address(&sk).bytes, expected);
}
