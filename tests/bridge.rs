use bridge_assist::{
    split_fee, BridgeAssist, BridgeError, CallContext, Transaction, TransferOutcome,
};

const RELAYER: &str = "secp256k1:5r22SrjrDvgY3wdQsnjgxkeAbU1VcM71FYvALEQWihjM3Xk4Be1CpETTqFccChQr4iJwDroSDVmgaWZv2AcXvYeL";
const ED_KEY: &str = "ed25519:6E8sCci9badyRkXb3JoRpBj5p8C6Tw41ELDZoiihKEtp";

fn bridge(limit: u128, fee_numerator: u16) -> BridgeAssist {
    BridgeAssist::init(
        "owner.near".to_string(),
        RELAYER.to_string(),
        "token.near".to_string(),
        "fees.near".to_string(),
        limit,
        fee_numerator,
    )
    .unwrap()
}

fn ctx(predecessor: &str, signer: &str, attached_deposit: u128) -> CallContext {
    CallContext {
        predecessor: predecessor.to_string(),
        signer: signer.to_string(),
        timestamp: 42,
        attached_deposit,
    }
}

fn inbound(to: &str, amount: u128, nonce: u128) -> Transaction {
    Transaction::new("bob-evm".to_string(), to.to_string(), amount, 5, nonce)
}

#[test]
fn init_rejects_fee_at_denominator() {
    let r = BridgeAssist::init(
        "owner.near".to_string(),
        RELAYER.to_string(),
        "token.near".to_string(),
        "fees.near".to_string(),
        1000,
        10000,
    );
    assert_eq!(r.err(), Some(BridgeError::FeeTooHigh));
    let r = BridgeAssist::init(
        "owner.near".to_string(),
        RELAYER.to_string(),
        "token.near".to_string(),
        "fees.near".to_string(),
        1000,
        u16::MAX,
    );
    assert_eq!(r.err(), Some(BridgeError::FeeTooHigh));
}

#[test]
fn init_accepts_highest_fee_below_denominator() {
    let b = bridge(1000, 9999);
    assert_eq!(b.fee_numerator(), 9999);
    assert_eq!(b.nonce(), 0);
    assert_eq!(b.log_len(), 0);
    assert_eq!(b.relayer_key().len(), 65);
    assert_eq!(b.relayer_key()[0], 1);
    assert_eq!(b.owner(), "owner.near");
    assert_eq!(b.token(), "token.near");
    assert_eq!(b.fee_wallet(), "fees.near");
    assert_eq!(b.limit_per_send(), 1000);
}

#[test]
fn init_rejects_text_that_is_not_a_key() {
    for key in ["not a key", "secp256k1:abc", "rsa:6E8sCci9badyRkXb3JoRpBj5p8C6Tw41ELDZoiihKEtp"] {
        let r = BridgeAssist::init(
            "owner.near".to_string(),
            key.to_string(),
            "token.near".to_string(),
            "fees.near".to_string(),
            1000,
            100,
        );
        assert_eq!(r.err(), Some(BridgeError::InvalidRelayerKey));
    }
}

#[test]
fn deposit_above_limit_returns_excess() {
    let mut b = bridge(1000, 100);
    let r = b.ft_on_transfer(
        &ctx("token.near", "alice.near", 0),
        "alice.near".to_string(),
        1500,
        "alice-evm".to_string(),
    );
    assert_eq!(r, Ok(500));
    assert_eq!(b.log_len(), 1);
    let t = b.log_entry(0);
    assert_eq!(t.from, "alice.near");
    assert_eq!(t.to, "alice-evm");
    assert_eq!(t.amount, 1000);
    assert_eq!(t.timestamp, 42);
    assert_eq!(t.nonce, 0);
    assert_eq!(b.nonce(), 1);
}

#[test]
fn deposit_within_limit_keeps_everything() {
    let mut b = bridge(1000, 100);
    for (amount, nonce) in [(1000u128, 0u128), (1, 1), (0, 2)] {
        let r = b.ft_on_transfer(
            &ctx("token.near", "alice.near", 0),
            "alice.near".to_string(),
            amount,
            "alice-evm".to_string(),
        );
        assert_eq!(r, Ok(0));
        let t = b.log_entry(nonce as usize);
        assert_eq!(t.amount, amount);
        assert_eq!(t.nonce, nonce);
    }
    assert_eq!(b.nonce(), 3);
}

#[test]
fn deposit_rejections_change_nothing() {
    let mut b = bridge(1000, 100);
    let cases = [
        (ctx("other.near", "alice.near", 0), "alice.near", BridgeError::WrongToken),
        (ctx("token.near", "token.near", 0), "token.near", BridgeError::NotCrossContract),
        (ctx("token.near", "alice.near", 0), "mallory.near", BridgeError::SenderNotSigner),
    ];
    for (c, sender, e) in cases {
        let r = b.ft_on_transfer(&c, sender.to_string(), 10, "x-evm".to_string());
        assert_eq!(r, Err(e));
    }
    assert_eq!(b.nonce(), 0);
    assert_eq!(b.log_len(), 0);
}

#[test]
fn fee_split_is_floor_division() {
    assert_eq!(split_fee(1000, 100), (10, 990));
    assert_eq!(split_fee(123456789, 250), (3086419, 120370370));
    assert_eq!(split_fee(9999, 1), (0, 9999));
    assert_eq!(split_fee(10000, 1), (1, 9999));
    assert_eq!(split_fee(0, 9999), (0, 0));
    assert_eq!(split_fee(5, 0), (0, 5));
    let (fee, dispense) = split_fee(u128::MAX, 9999);
    assert_eq!(fee + dispense, u128::MAX);
    assert_eq!(fee, 340248338684246369617028269971025034633);
}

#[test]
fn transaction_hash_is_a_stable_digest() {
    let a = inbound("carol.near", 1000, 7).hash();
    let b = inbound("carol.near", 1000, 7).hash();
    let c = inbound("carol.near", 1000, 8).hash();
    assert_eq!(a.len(), 32);
    assert_eq!(a, b);
    assert_ne!(a, c);
}

#[test]
fn fulfill_splits_dispense_and_fee() {
    let mut b = bridge(1000, 100);
    let t = inbound("carol", 1000, 7);
    let hash = t.hash();
    let key = b.relayer_key()[1..].to_vec();
    let plan = b.fulfill_checked(1, t, true, hash.clone(), Some(key)).unwrap();
    assert_eq!(plan.dispense.receiver, "carol");
    assert_eq!(plan.dispense.amount, 990);
    let fee = plan.fee.unwrap();
    assert_eq!(fee.receiver, "fees.near");
    assert_eq!(fee.amount, 10);
    assert_eq!(plan.tx_hash, hash);
    assert!(b.is_fulfilled(&hash));
    assert_eq!(b.log_len(), 1);
    assert_eq!(b.log_entry(0).from, "bob-evm");
}

#[test]
fn fulfill_without_fee_issues_one_transfer() {
    let mut b = bridge(1000, 0);
    let t = inbound("carol", 1000, 7);
    let hash = t.hash();
    let key = b.relayer_key()[1..].to_vec();
    let plan = b.fulfill_checked(1, t, true, hash, Some(key)).unwrap();
    assert_eq!(plan.dispense.amount, 1000);
    assert!(plan.fee.is_none());
}

#[test]
fn fulfill_twice_is_a_replay() {
    let mut b = bridge(1000, 100);
    let hash = inbound("carol", 1000, 7).hash();
    let key = b.relayer_key()[1..].to_vec();
    let first = b.fulfill_checked(1, inbound("carol", 1000, 7), true, hash.clone(), Some(key.clone()));
    assert!(first.is_ok());
    let second = b.fulfill_checked(1, inbound("carol", 1000, 7), true, hash.clone(), Some(key));
    assert_eq!(second.err(), Some(BridgeError::AlreadyFulfilled));
    assert_eq!(b.log_len(), 1);
}

#[test]
fn failed_dispense_reopens_the_transaction() {
    let mut b = bridge(1000, 100);
    let hash = inbound("carol", 1000, 7).hash();
    let key = b.relayer_key()[1..].to_vec();
    let plan = b
        .fulfill_checked(1, inbound("carol", 1000, 7), true, hash.clone(), Some(key.clone()))
        .unwrap();
    let reverted = b.resolve_fulfill(plan.dispense.amount, &plan.tx_hash, TransferOutcome::Failed);
    assert_eq!(reverted, 990);
    assert!(!b.is_fulfilled(&hash));
    let again = b.fulfill_checked(1, inbound("carol", 1000, 7), true, hash.clone(), Some(key));
    assert!(again.is_ok());
    assert!(b.is_fulfilled(&hash));
    assert_eq!(b.log_len(), 2);
}

#[test]
fn successful_dispense_keeps_the_mark() {
    let mut b = bridge(1000, 100);
    let hash = inbound("carol", 1000, 7).hash();
    let key = b.relayer_key()[1..].to_vec();
    let plan = b
        .fulfill_checked(1, inbound("carol", 1000, 7), true, hash.clone(), Some(key))
        .unwrap();
    let reverted = b.resolve_fulfill(plan.dispense.amount, &plan.tx_hash, TransferOutcome::Succeeded);
    assert_eq!(reverted, 0);
    assert!(b.is_fulfilled(&hash));
}

#[test]
fn fulfill_rejections_in_order() {
    let mut b = bridge(1000, 100);
    let hash = inbound("carol", 1000, 7).hash();
    let key = b.relayer_key()[1..].to_vec();
    let mut other = key.clone();
    other[0] ^= 1;
    let r = b.fulfill_checked(0, inbound("carol", 1000, 7), true, hash.clone(), Some(key.clone()));
    assert_eq!(r.err(), Some(BridgeError::DepositRequired));
    let r = b.fulfill_checked(2, inbound("carol", 1000, 7), true, hash.clone(), Some(key.clone()));
    assert_eq!(r.err(), Some(BridgeError::DepositRequired));
    let r = b.fulfill_checked(1, inbound("carol", 1000, 7), false, hash.clone(), Some(key.clone()));
    assert_eq!(r.err(), Some(BridgeError::InvalidReceiver));
    let r = b.fulfill_checked(1, inbound("carol", 1000, 7), true, hash.clone(), Some(other));
    assert_eq!(r.err(), Some(BridgeError::WrongSignature));
    let r = b.fulfill_checked(1, inbound("carol", 1000, 7), true, hash.clone(), None);
    assert_eq!(r.err(), Some(BridgeError::WrongSignature));
    assert_eq!(b.log_len(), 0);
    assert!(!b.is_fulfilled(&hash));
}

#[test]
fn fulfill_rejects_a_signature_of_another_key() {
    let mut b = bridge(1000, 100);
    let sig = vec![7u8; 64];
    let r = b.fulfill(&ctx("anyone.near", "anyone.near", 1), inbound("carol.near", 1000, 7), &sig);
    assert_eq!(r.err(), Some(BridgeError::WrongSignature));
    let not_text: Vec<u8> = (0..64u8).map(|i| 0x80 | i).collect();
    let r = b.fulfill(&ctx("anyone.near", "anyone.near", 1), inbound("carol.near", 1000, 7), &not_text);
    assert_eq!(r.err(), Some(BridgeError::WrongSignature));
    let r = b.fulfill(&ctx("anyone.near", "anyone.near", 1), inbound("carol.near", 1000, 7), &vec![1u8; 5]);
    assert_eq!(r.err(), Some(BridgeError::WrongSignature));
    assert_eq!(b.log_len(), 0);
}

#[test]
fn fulfill_rejects_malformed_receiver() {
    let mut b = bridge(1000, 100);
    let sig = vec![7u8; 64];
    let r = b.fulfill(&ctx("anyone.near", "anyone.near", 1), inbound("Carol!", 1000, 7), &sig);
    assert_eq!(r.err(), Some(BridgeError::InvalidReceiver));
    let r = b.fulfill(&ctx("anyone.near", "anyone.near", 0), inbound("carol.near", 1000, 7), &sig);
    assert_eq!(r.err(), Some(BridgeError::DepositRequired));
}

#[test]
fn init_accepts_a_key_on_another_curve_that_never_signs() {
    let mut b = BridgeAssist::init(
        "owner.near".to_string(),
        ED_KEY.to_string(),
        "token.near".to_string(),
        "fees.near".to_string(),
        1000,
        100,
    )
    .unwrap();
    assert_eq!(b.relayer_key().len(), 33);
    assert_eq!(b.relayer_key()[0], 0);
    let t = inbound("carol", 1000, 7);
    let hash = t.hash();
    let mut data = b.relayer_key()[1..].to_vec();
    data.extend_from_slice(&[0u8; 32]);
    let r = b.fulfill_checked(1, t, true, hash, Some(data));
    assert_eq!(r.err(), Some(BridgeError::WrongSignature));
    assert_eq!(b.log_len(), 0);
}

#[test]
fn history_is_kept_per_account() {
    let mut b = bridge(1000, 100);
    for (sender, amount) in [("alice.near", 5u128), ("dave.near", 6), ("alice.near", 7)] {
        let r = b.ft_on_transfer(&ctx("token.near", sender, 0), sender.to_string(), amount, "x-evm".to_string());
        assert_eq!(r, Ok(0));
    }
    let alice = b.transactions_of(&"alice.near".to_string());
    assert_eq!(alice.len(), 2);
    assert_eq!((alice[0].amount, alice[0].nonce), (5, 0));
    assert_eq!((alice[1].amount, alice[1].nonce), (7, 2));
    let dave = b.transactions_of(&"dave.near".to_string());
    assert_eq!(dave.len(), 1);
    assert_eq!(dave[0].amount, 6);
    assert!(b.transactions_of(&"erin.near".to_string()).is_empty());
}

#[test]
fn transaction_encoding_is_canonical() {
    let t = Transaction::new("ab".to_string(), "c".to_string(), 258, 7, 10);
    let mut expected: Vec<u8> = vec![2, 0, 0, 0, 0, 0, 0, 0, b'a', b'b'];
    expected.extend_from_slice(&[1, 0, 0, 0, 0, 0, 0, 0, b'c']);
    expected.extend_from_slice(&[2, 1, 0, 0, 0, 0, 0, 0, 0, 0, 0, 0, 0, 0, 0, 0]);
    expected.extend_from_slice(&[1, 0, 0, 0, 0, 0, 0, 0, b'7']);
    expected.extend_from_slice(&[2, 0, 0, 0, 0, 0, 0, 0, b'1', b'0']);
    assert_eq!(t.encode(), expected);
    assert_ne!(t.hash(), t.encode());
}

#[test]
fn receiver_must_be_a_well_formed_account() {
    let mut b = bridge(1000, 100);
    let sig = vec![7u8; 64];
    let c = ctx("anyone.near", "anyone.near", 1);
    let long_ok = "x".repeat(64);
    let too_long = "x".repeat(65);
    for good in ["ab", "carol.near", "a-b_c.d9", long_ok.as_str()] {
        let r = b.fulfill(&c, inbound(good, 1000, 7), &sig);
        assert_eq!(r.err(), Some(BridgeError::WrongSignature), "{}", good);
    }
    for bad in ["a", "", "Carol", "a..b", "-ab", "ab.", "a b", "caf\u{e9}", too_long.as_str()] {
        let r = b.fulfill(&c, inbound(bad, 1000, 7), &sig);
        assert_eq!(r.err(), Some(BridgeError::InvalidReceiver), "{}", bad);
    }
}
