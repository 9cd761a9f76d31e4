//! The sender of a transaction: an address, a signing key and the sequence
//! number that the next transaction will carry.

use vstd::prelude::*;

verus! {

/// The sequence number that follows `n`. The counter is a `u64` and wraps:
/// after `u64::MAX` comes `0`.
pub open spec fn successor(n: u64) -> u64 {
    if n == u64::MAX {
        0
    } else {
        (n + 1) as u64
    }
}

/// Mathematical model of an [`Account`].
pub struct AccountView {
    pub address: Seq<u8>,
    pub private_key: Seq<u8>,
    pub sequence_number: u64,
}

impl AccountView {
    /// The number that the next call of [`Account::next_sequence_number`] hands out.
    pub open spec fn issued(self) -> u64 {
        self.sequence_number
    }

    /// The account once that number has been handed out.
    pub open spec fn advanced(self) -> AccountView {
        AccountView { sequence_number: successor(self.sequence_number), ..self }
    }

    /// The account after `count` numbers have been handed out in a row.
    pub open spec fn advanced_by(self, count: nat) -> AccountView
        decreases count,
    {
        if count == 0 {
            self
        } else {
            self.advanced().advanced_by((count - 1) as nat)
        }
    }

    /// The account with its counter overwritten.
    pub open spec fn with_sequence_number(self, n: u64) -> AccountView {
        AccountView { sequence_number: n, ..self }
    }
}

/// A locally held account. The counter is owned by this value and has a single
/// writer: callers that share an account must serialise access themselves.
/// It holds key material, so it is neither printable nor copied implicitly.
pub struct Account {
    address: [u8; 32],
    private_key: Vec<u8>,
    sequence_number: u64,
}

impl View for Account {
    type V = AccountView;

    closed spec fn view(&self) -> AccountView {
        AccountView {
            address: self.address@,
            private_key: self.private_key@,
            sequence_number: self.sequence_number,
        }
    }
}

impl Account {
    /// An account with the given identity whose next transaction carries
    /// `sequence_number`. The key material is taken as it is; a key that
    /// cannot sign is reported when a transaction is built.
    pub fn new(address: [u8; 32], private_key: Vec<u8>, sequence_number: u64) -> (account: Account)
        ensures
            account@.address == address@,
            account@.private_key == private_key@,
            account@.sequence_number == sequence_number,
    {
        Account { address, private_key, sequence_number }
    }

    /// The account's address.
    pub fn address(&self) -> (address: [u8; 32])
        ensures
            address@ == self@.address,
    {
        self.address
    }

    /// The key that signs for this account.
    pub fn private_key(&self) -> (key: &Vec<u8>)
        ensures
            key@ == self@.private_key,
    {
        &self.private_key
    }

    /// The number that the next transaction will carry. Reading it does not
    /// consume it.
    pub fn sequence_number(&self) -> (n: u64)
        ensures
            n == self@.sequence_number,
    {
        self.sequence_number
    }

    /// Hands out the current sequence number and moves the counter on by one.
    pub fn next_sequence_number(&mut self) -> (n: u64)
        ensures
            n == old(self)@.issued(),
            final(self)@ == old(self)@.advanced(),
    {
        let n: u64 = self.sequence_number;
        self.sequence_number = n.wrapping_add(1);
        n
    }

    /// Overwrites the counter, to bring it in line with what the chain reports.
    pub fn set_sequence_number(&mut self, n: u64)
        ensures
            final(self)@ == old(self)@.with_sequence_number(n),
    {
        self.sequence_number = n;
    }
}

/// Handing out a number never touches the identity of the account.
pub proof fn lemma_advanced_by_keeps_identity(account: AccountView, count: nat)
    ensures
        account.advanced_by(count).address == account.address,
        account.advanced_by(count).private_key == account.private_key,
    decreases count,
{
    if count > 0 {
        lemma_advanced_by_keeps_identity(account.advanced(), (count - 1) as nat);
    }
}

/// Consecutive sequence numbers increase by exactly one, without gaps: as long
/// as the counter has not reached `u64::MAX`, the call that follows `count`
/// earlier ones hands out the starting number plus `count`.
pub proof fn lemma_sequence_numbers_are_consecutive(account: AccountView, count: nat)
    requires
        account.sequence_number + count <= u64::MAX,
    ensures
        account.advanced_by(count).issued() == account.sequence_number + count,
    decreases count,
{
    if count > 0 {
        lemma_sequence_numbers_are_consecutive(account.advanced(), (count - 1) as nat);
    }
}

/// Two calls in a row: the second number is the first plus one.
pub proof fn lemma_next_follows_previous(account: AccountView)
    requires
        account.sequence_number < u64::MAX,
    ensures
        account.advanced().issued() == account.issued() + 1,
        account.advanced().issued() > account.issued(),
{
}

} // verus!
