use aptos_sdk::account::Ed25519Account;
use aptos_sdk::aptos_bcs;
use aptos_sdk::transaction::{
    sign_transaction, RawTransaction, TransactionAuthenticator, TransactionBuilder,
    TransactionPayload,
};
use aptos_sdk::types::AccountAddress;
use aptos_tx::account::Account;
use aptos_tx::call::{encode_call, FunctionCall, Payload};
use aptos_tx::transaction::{
    build_transaction, build_transaction_at, build_transaction_with_clock, expiration_after, seal,
    sign, BuildError, ChainId, SignedTransaction, UnsignedTransaction, EXPIRATION_WINDOW_SECS,
    GAS_UNIT_PRICE, MAX_GAS_AMOUNT,
};
use aptos_tx::value::MoveValue;
use std::time::{SystemTime, UNIX_EPOCH};

const KEY: [u8; 32] = [
    1, 2, 3, 4, 5, 6, 7, 8, 9, 10, 11, 12, 13, 14, 15, 16, 17, 18, 19, 20, 21, 22, 23, 24, 25, 26,
    27, 28, 29, 30, 31, 32,
];

fn signer() -> Ed25519Account {
    Ed25519Account::from_private_key_bytes(&KEY).unwrap()
}

fn account_at(sequence_number: u64) -> Account {
    Account::new(signer().address().to_bytes(), KEY.to_vec(), sequence_number)
}

fn set_message(text: &str) -> Payload {
    let call = FunctionCall::new(
        signer().address().to_bytes(),
        "message".to_string(),
        "set_message".to_string(),
        vec![],
        vec![MoveValue::from_bytes(text.as_bytes())],
    );
    encode_call(&call).unwrap()
}

fn as_the_sdk_sees_it(tx: &UnsignedTransaction) -> RawTransaction {
    let payload: TransactionPayload = aptos_bcs::from_bytes(tx.payload().as_bytes()).unwrap();
    TransactionBuilder::new()
        .sender(AccountAddress::new(tx.sender()))
        .sequence_number(tx.sequence_number())
        .payload(payload)
        .max_gas_amount(tx.max_gas_amount())
        .gas_unit_price(tx.gas_unit_price())
        .expiration_timestamp_secs(tx.expiration_timestamp())
        .chain_id(aptos_sdk::types::ChainId::new(tx.chain_id().id()))
        .build()
        .unwrap()
}

fn submittable_form(tx: &SignedTransaction) -> aptos_sdk::transaction::SignedTransaction {
    aptos_sdk::transaction::SignedTransaction::new(
        as_the_sdk_sees_it(tx.raw()),
        TransactionAuthenticator::ed25519(
            signer().public_key().to_bytes().to_vec(),
            tx.signature().clone(),
        ),
    )
}

#[test]
fn policy_values_are_fixed() {
    assert_eq!(EXPIRATION_WINDOW_SECS, 60);
    assert_eq!(MAX_GAS_AMOUNT, 200_000);
    assert_eq!(GAS_UNIT_PRICE, 100);
}

#[test]
fn chain_id_keeps_its_number() {
    assert_eq!(ChainId::new(4).id(), 4);
    assert_eq!(ChainId::new(4), ChainId(4));
    assert_ne!(ChainId::new(4), ChainId::new(5));
}

#[test]
fn expiry_is_sixty_seconds_after_the_build() {
    assert_eq!(expiration_after(0), 60);
    assert_eq!(expiration_after(1_700_000_000), 1_700_000_060);
    assert_eq!(expiration_after(u64::MAX - 60), u64::MAX);
}

#[test]
fn built_transaction_has_every_field_set() {
    let mut account = account_at(11);
    let payload = set_message("hello world!!");
    let tx = build_transaction_at(payload.clone(), &mut account, ChainId::new(4), 1_700_000_000)
        .unwrap();

    assert_eq!(tx.raw().payload(), &payload);
    assert_eq!(tx.raw().sender(), signer().address().to_bytes());
    assert_eq!(tx.raw().sequence_number(), 11);
    assert_eq!(tx.sequence_number(), 11);
    assert_eq!(tx.raw().expiration_timestamp(), 1_700_000_060);
    assert_eq!(tx.raw().chain_id(), ChainId::new(4));
    assert_eq!(tx.raw().max_gas_amount(), 200_000);
    assert_eq!(tx.raw().gas_unit_price(), 100);
    assert_eq!(tx.signature().len(), 64);
    assert_eq!(account.sequence_number(), 12);
}

#[test]
fn signature_is_accepted_by_the_sdk() {
    let mut account = account_at(0);
    let tx = build_transaction_at(
        set_message("hello world!!"),
        &mut account,
        ChainId::new(4),
        1_700_000_000,
    )
    .unwrap();
    submittable_form(&tx).verify_signature().unwrap();
}

#[test]
fn signature_is_the_one_the_sdk_makes() {
    let mut account = account_at(3);
    let tx = build_transaction_at(
        set_message("hello world!!"),
        &mut account,
        ChainId::new(4),
        1_700_000_000,
    )
    .unwrap();
    let by_the_sdk = sign_transaction(&as_the_sdk_sees_it(tx.raw()), &signer()).unwrap();
    assert_eq!(submittable_form(&tx), by_the_sdk);
    match by_the_sdk.authenticator {
        TransactionAuthenticator::Ed25519 { signature, .. } => {
            assert_eq!(tx.signature(), &signature.0.to_vec());
        }
        other => panic!("unexpected authenticator: {:?}", other),
    }
}

#[test]
fn signature_covers_every_field() {
    let payload = set_message("hello world!!");
    let reference = build_transaction_at(
        payload.clone(),
        &mut account_at(0),
        ChainId::new(4),
        1_700_000_000,
    )
    .unwrap();

    let other_number =
        build_transaction_at(payload.clone(), &mut account_at(1), ChainId::new(4), 1_700_000_000)
            .unwrap();
    let other_chain =
        build_transaction_at(payload.clone(), &mut account_at(0), ChainId::new(5), 1_700_000_000)
            .unwrap();
    let other_time =
        build_transaction_at(payload.clone(), &mut account_at(0), ChainId::new(4), 1_700_000_001)
            .unwrap();
    let other_payload = build_transaction_at(
        set_message("hello world!?"),
        &mut account_at(0),
        ChainId::new(4),
        1_700_000_000,
    )
    .unwrap();

    assert_ne!(reference.signature(), other_number.signature());
    assert_ne!(reference.signature(), other_chain.signature());
    assert_ne!(reference.signature(), other_time.signature());
    assert_ne!(reference.signature(), other_payload.signature());
}

#[test]
fn same_inputs_give_the_same_transaction() {
    let first = build_transaction_at(
        set_message("hello world!!"),
        &mut account_at(8),
        ChainId::new(4),
        1_700_000_000,
    )
    .unwrap();
    let second = build_transaction_at(
        set_message("hello world!!"),
        &mut account_at(8),
        ChainId::new(4),
        1_700_000_000,
    )
    .unwrap();
    assert_eq!(first, second);
}

#[test]
fn two_builds_in_a_row_differ_by_one_in_sequence_number() {
    let mut account = account_at(20);
    let first = build_transaction_at(
        set_message("hello world!!"),
        &mut account,
        ChainId::new(4),
        1_700_000_000,
    )
    .unwrap();
    let second = build_transaction_at(
        set_message("second message"),
        &mut account,
        ChainId::new(4),
        1_700_000_030,
    )
    .unwrap();
    assert_eq!(first.sequence_number(), 20);
    assert_eq!(second.sequence_number(), 21);
    assert_eq!(second.sequence_number() - first.sequence_number(), 1);
    assert_eq!(account.sequence_number(), 22);
    submittable_form(&first).verify_signature().unwrap();
    submittable_form(&second).verify_signature().unwrap();
}

#[test]
fn rebuilding_the_same_payload_takes_the_next_number() {
    let mut account = account_at(0);
    let payload = set_message("hello world!!");
    let first =
        build_transaction_at(payload.clone(), &mut account, ChainId::new(4), 1_700_000_000)
            .unwrap();
    let second =
        build_transaction_at(payload, &mut account, ChainId::new(4), 1_700_000_000).unwrap();
    assert_eq!(second.sequence_number(), first.sequence_number() + 1);
    assert_ne!(first.signature(), second.signature());
}

#[test]
fn synchronised_counter_is_the_number_that_gets_signed() {
    let mut account = account_at(0);
    account.set_sequence_number(77);
    let tx = build_transaction_at(
        set_message("hello world!!"),
        &mut account,
        ChainId::new(4),
        1_700_000_000,
    )
    .unwrap();
    assert_eq!(tx.sequence_number(), 77);
    assert_eq!(as_the_sdk_sees_it(tx.raw()).sequence_number, 77);
}

#[test]
fn a_key_of_the_wrong_length_cannot_sign() {
    let mut account = Account::new([7u8; 32], vec![1u8; 31], 5);
    let result = build_transaction_at(
        set_message("hello world!!"),
        &mut account,
        ChainId::new(4),
        1_700_000_000,
    );
    assert_eq!(result, Err(BuildError::Signature));
    assert_eq!(account.sequence_number(), 6);

    let mut keyless = Account::new([7u8; 32], vec![], 5);
    let result = build_transaction_at(
        set_message("hello world!!"),
        &mut keyless,
        ChainId::new(4),
        1_700_000_000,
    );
    assert_eq!(result, Err(BuildError::Signature));
}

#[test]
fn bytes_that_are_no_payload_cannot_be_encoded() {
    let mut account = account_at(5);
    let result = build_transaction_at(
        Payload::from_bytes(vec![0xff, 0xff, 0xff]),
        &mut account,
        ChainId::new(4),
        1_700_000_000,
    );
    assert_eq!(result, Err(BuildError::Encoding));
    assert_eq!(account.sequence_number(), 6);

    let result =
        build_transaction_at(Payload::from_bytes(vec![]), &mut account, ChainId::new(4), 0);
    assert_eq!(result, Err(BuildError::Encoding));
}

#[test]
fn sign_signs_the_transaction_it_is_given() {
    let raw = UnsignedTransaction::new(
        set_message("hello world!!"),
        signer().address().to_bytes(),
        9,
        1_700_000_060,
        ChainId::new(4),
        MAX_GAS_AMOUNT,
        GAS_UNIT_PRICE,
    );
    let tx = sign(raw.clone(), &KEY.to_vec()).unwrap();
    assert_eq!(tx.raw(), &raw);
    submittable_form(&tx).verify_signature().unwrap();

    assert_eq!(sign(raw, &vec![0u8; 33]), Err(BuildError::Signature));
}

#[test]
fn seal_attaches_the_signature_or_reports_its_absence() {
    let raw = UnsignedTransaction::new(
        Payload::from_bytes(vec![1]),
        [2u8; 32],
        3,
        4,
        ChainId::new(5),
        6,
        7,
    );
    let sealed = seal(raw.clone(), Some(vec![8u8; 64])).unwrap();
    assert_eq!(sealed.raw(), &raw);
    assert_eq!(sealed.signature(), &vec![8u8; 64]);
    assert_eq!(seal(raw, None), Err(BuildError::Signature));
}

#[test]
fn build_with_the_clock_expires_a_minute_from_now() {
    let mut account = account_at(2);
    let before = SystemTime::now()
        .duration_since(UNIX_EPOCH)
        .unwrap()
        .as_secs();
    let tx = build_transaction(set_message("hello world!!"), &mut account, ChainId::new(4))
        .unwrap();
    let after = SystemTime::now()
        .duration_since(UNIX_EPOCH)
        .unwrap()
        .as_secs();

    assert!(before + 60 <= tx.raw().expiration_timestamp());
    assert!(tx.raw().expiration_timestamp() <= after + 60);
    assert_eq!(tx.sequence_number(), 2);
    assert_eq!(account.sequence_number(), 3);
    assert_eq!(tx.raw().max_gas_amount(), 200_000);
    assert_eq!(tx.raw().gas_unit_price(), 100);
    assert_eq!(tx.raw().chain_id(), ChainId::new(4));
    submittable_form(&tx).verify_signature().unwrap();
}

#[test]
fn build_with_the_clock_twice_uses_two_numbers() {
    let mut account = account_at(40);
    let first =
        build_transaction(set_message("one"), &mut account, ChainId::new(4)).unwrap();
    let second =
        build_transaction(set_message("two"), &mut account, ChainId::new(4)).unwrap();
    assert_eq!(first.sequence_number(), 40);
    assert_eq!(second.sequence_number(), 41);
}

#[test]
fn without_a_reading_of_the_clock_nothing_is_built() {
    let mut account = account_at(5);
    let result =
        build_transaction_with_clock(set_message("hello world!!"), &mut account, ChainId::new(4), None);
    assert_eq!(result, Err(BuildError::Clock));
    assert_eq!(account.sequence_number(), 5);
}

#[test]
fn a_reading_too_late_for_an_expiry_builds_nothing() {
    let mut account = account_at(5);
    for reading in [u64::MAX, u64::MAX - 1, u64::MAX - 59] {
        let result = build_transaction_with_clock(
            set_message("hello world!!"),
            &mut account,
            ChainId::new(4),
            Some(reading),
        );
        assert_eq!(result, Err(BuildError::Clock));
        assert_eq!(account.sequence_number(), 5);
    }
}

#[test]
fn the_latest_reading_with_an_expiry_still_builds() {
    let mut account = account_at(5);
    let tx = build_transaction_with_clock(
        set_message("hello world!!"),
        &mut account,
        ChainId::new(4),
        Some(u64::MAX - 60),
    )
    .unwrap();
    assert_eq!(tx.raw().expiration_timestamp(), u64::MAX);
    assert_eq!(tx.sequence_number(), 5);
    assert_eq!(account.sequence_number(), 6);
}

#[test]
fn a_reading_builds_what_building_at_that_time_builds() {
    let with_clock = build_transaction_with_clock(
        set_message("hello world!!"),
        &mut account_at(9),
        ChainId::new(4),
        Some(1_700_000_000),
    );
    let at = build_transaction_at(
        set_message("hello world!!"),
        &mut account_at(9),
        ChainId::new(4),
        1_700_000_000,
    );
    assert_eq!(with_clock, at);
    assert_eq!(with_clock.unwrap().raw().expiration_timestamp(), 1_700_000_060);

    let mut keyless = Account::new([7u8; 32], vec![], 3);
    let result = build_transaction_with_clock(
        set_message("hello world!!"),
        &mut keyless,
        ChainId::new(4),
        Some(0),
    );
    assert_eq!(result, Err(BuildError::Signature));
    assert_eq!(keyless.sequence_number(), 4);
}

#[test]
fn the_signed_message_holds_the_fields_in_their_places() {
    let mut account = account_at(0x0102030405060708);
    let tx = build_transaction_at(
        set_message("hello world!!"),
        &mut account,
        ChainId::new(0xc4),
        0x1112131415161718 - 60,
    )
    .unwrap();
    let message = as_the_sdk_sees_it(tx.raw()).signing_message().unwrap();
    let end = message.len();

    assert!(end >= 97);
    assert_eq!(&message[32..64], &tx.raw().sender()[..]);
    assert_eq!(&message[64..72], &[8, 7, 6, 5, 4, 3, 2, 1]);
    assert_eq!(&message[72..end - 25], &tx.raw().payload().as_bytes()[..]);
    assert_eq!(&message[end - 25..end - 17], &200_000u64.to_le_bytes());
    assert_eq!(&message[end - 17..end - 9], &100u64.to_le_bytes());
    assert_eq!(
        &message[end - 9..end - 1],
        &[0x18, 0x17, 0x16, 0x15, 0x14, 0x13, 0x12, 0x11]
    );
    assert_eq!(message[end - 1], 0xc4);
    assert_eq!(
        &message[end - 9..end - 1],
        &MoveValue::U64(tx.raw().expiration_timestamp()).encode()[..]
    );
}

#[test]
fn building_survives_bytes_that_are_no_payload() {
    let valid = set_message("hello world!!").as_bytes().clone();
    let mut state: u64 = 0x2545_f491_4f6c_dd1d;
    let mut next = |bound: usize| {
        state = state
            .wrapping_mul(6_364_136_223_846_793_005)
            .wrapping_add(1_442_695_040_888_963_407);
        ((state >> 33) as usize) % bound
    };
    let mut built = 0usize;
    let mut refused = 0usize;
    for round in 0..30_000 {
        let mut bytes = if round % 2 == 0 {
            valid.clone()
        } else {
            (0..next(48)).map(|_| next(256) as u8).collect()
        };
        for _ in 0..next(4) {
            if bytes.is_empty() {
                break;
            }
            let at = next(bytes.len());
            match next(3) {
                0 => bytes[at] = next(256) as u8,
                1 => bytes.truncate(at),
                _ => bytes.insert(at, next(8) as u8),
            }
        }
        let mut account = account_at(round as u64);
        match build_transaction_at(
            Payload::from_bytes(bytes),
            &mut account,
            ChainId::new(4),
            1_700_000_000,
        ) {
            Ok(tx) => {
                assert_eq!(tx.signature().len(), 64);
                built += 1;
            }
            Err(error) => {
                assert_eq!(error, BuildError::Encoding);
                refused += 1;
            }
        }
        assert_eq!(account.sequence_number(), round as u64 + 1);
    }
    assert!(built > 1_000);
    assert!(refused > 1_000);
}
