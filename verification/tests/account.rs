use aptos_tx::account::Account;

fn account_at(sequence_number: u64) -> Account {
    Account::new([7u8; 32], vec![1u8; 32], sequence_number)
}

#[test]
fn new_account_keeps_what_it_was_given() {
    let account = Account::new([9u8; 32], vec![3u8; 32], 0);
    assert_eq!(account.address(), [9u8; 32]);
    assert_eq!(account.private_key(), &vec![3u8; 32]);
    assert_eq!(account.sequence_number(), 0);
}

#[test]
fn sequence_numbers_come_out_in_order() {
    let mut account = account_at(5);
    assert_eq!(account.next_sequence_number(), 5);
    assert_eq!(account.next_sequence_number(), 6);
    assert_eq!(account.next_sequence_number(), 7);
    assert_eq!(account.sequence_number(), 8);
}

#[test]
fn a_hundred_numbers_have_no_gap() {
    let mut account = account_at(1_000);
    for expected in 1_000u64..1_100 {
        assert_eq!(account.next_sequence_number(), expected);
    }
}

#[test]
fn reading_the_counter_does_not_consume_it() {
    let mut account = account_at(41);
    assert_eq!(account.sequence_number(), 41);
    assert_eq!(account.sequence_number(), 41);
    assert_eq!(account.next_sequence_number(), 41);
    assert_eq!(account.sequence_number(), 42);
}

#[test]
fn set_sequence_number_overwrites_the_counter() {
    let mut account = account_at(0);
    account.set_sequence_number(17);
    assert_eq!(account.sequence_number(), 17);
    assert_eq!(account.next_sequence_number(), 17);
    assert_eq!(account.next_sequence_number(), 18);
    account.set_sequence_number(3);
    assert_eq!(account.next_sequence_number(), 3);
}

#[test]
fn handing_out_a_number_leaves_the_identity_alone() {
    let mut account = Account::new([9u8; 32], vec![3u8; 32], 0);
    account.next_sequence_number();
    account.set_sequence_number(12);
    assert_eq!(account.address(), [9u8; 32]);
    assert_eq!(account.private_key(), &vec![3u8; 32]);
}

#[test]
fn counter_wraps_after_the_largest_number() {
    let mut account = account_at(u64::MAX - 1);
    assert_eq!(account.next_sequence_number(), u64::MAX - 1);
    assert_eq!(account.next_sequence_number(), u64::MAX);
    assert_eq!(account.next_sequence_number(), 0);
    assert_eq!(account.next_sequence_number(), 1);
}
