//! Building a signed transaction: expiry, sequence number, fee policy,
//! canonical encoding and signature, in that order.

use crate::account::{Account, AccountView};
use crate::call::{optional_bytes, Payload};
use crate::value::{le_bytes, lemma_le_bytes_tell_numbers_apart, radix_power};
use aptos_sdk::aptos_bcs;
use aptos_sdk::crypto::Ed25519PrivateKey;
use aptos_sdk::transaction::{TransactionBuilder, TransactionPayload};
use aptos_sdk::types::AccountAddress;
use std::time::UNIX_EPOCH;
use vstd::prelude::*;

verus! {

/// Seconds between the moment a transaction is built and the moment it
/// expires.
pub const EXPIRATION_WINDOW_SECS: u64 = 60;

/// Gas units that every transaction is allowed to burn.
pub const MAX_GAS_AMOUNT: u64 = 200_000;

/// Price offered per gas unit, in octas.
pub const GAS_UNIT_PRICE: u64 = 100;

/// Number of bytes in an Ed25519 private key.
pub const PRIVATE_KEY_LENGTH: usize = 32;

/// Number of bytes in an Ed25519 signature.
pub const SIGNATURE_LENGTH: usize = 64;

/// Identifies the network a transaction is meant for.
#[derive(Debug, Clone, Copy, PartialEq, Eq, Structural)]
pub struct ChainId(pub u8);

impl ChainId {
    /// The chain with the given number.
    pub fn new(id: u8) -> (chain: ChainId)
        ensures
            chain == ChainId(id),
    {
        ChainId(id)
    }

    /// The chain's number.
    pub fn id(&self) -> (id: u8)
        ensures
            id == self.0,
    {
        self.0
    }
}

/// Why no transaction came out of the builder.
#[derive(Debug, Clone, Copy, PartialEq, Eq)]
pub enum BuildError {
    /// The clock reads a time before 1970 or so late that the expiry does not
    /// fit in 64 bits. The account has not been touched.
    Clock,
    /// The transaction has no canonical encoding: its payload is not one.
    Encoding,
    /// The account's key cannot sign.
    Signature,
}

/// Mathematical model of an [`UnsignedTransaction`].
pub struct UnsignedTransactionView {
    pub payload: Seq<u8>,
    pub sender: Seq<u8>,
    pub sequence_number: u64,
    pub expiration_timestamp: u64,
    pub chain_id: ChainId,
    pub max_gas_amount: u64,
    pub gas_unit_price: u64,
}

/// Everything the node needs to know about a transaction but the signature.
#[derive(Debug, Clone, PartialEq, Eq)]
pub struct UnsignedTransaction {
    payload: Payload,
    sender: [u8; 32],
    sequence_number: u64,
    expiration_timestamp: u64,
    chain_id: ChainId,
    max_gas_amount: u64,
    gas_unit_price: u64,
}

impl View for UnsignedTransaction {
    type V = UnsignedTransactionView;

    closed spec fn view(&self) -> UnsignedTransactionView {
        UnsignedTransactionView {
            payload: self.payload@,
            sender: self.sender@,
            sequence_number: self.sequence_number,
            expiration_timestamp: self.expiration_timestamp,
            chain_id: self.chain_id,
            max_gas_amount: self.max_gas_amount,
            gas_unit_price: self.gas_unit_price,
        }
    }
}

impl UnsignedTransaction {
    /// A transaction made of exactly these parts. Every part is required.
    pub fn new(
        payload: Payload,
        sender: [u8; 32],
        sequence_number: u64,
        expiration_timestamp: u64,
        chain_id: ChainId,
        max_gas_amount: u64,
        gas_unit_price: u64,
    ) -> (tx: UnsignedTransaction)
        ensures
            tx@ == (UnsignedTransactionView {
                payload: payload@,
                sender: sender@,
                sequence_number,
                expiration_timestamp,
                chain_id,
                max_gas_amount,
                gas_unit_price,
            }),
    {
        UnsignedTransaction {
            payload,
            sender,
            sequence_number,
            expiration_timestamp,
            chain_id,
            max_gas_amount,
            gas_unit_price,
        }
    }

    /// The serialised call.
    pub fn payload(&self) -> (payload: &Payload)
        ensures
            payload@ == self@.payload,
    {
        &self.payload
    }

    /// Address of the sending account.
    pub fn sender(&self) -> (sender: [u8; 32])
        ensures
            sender@ == self@.sender,
    {
        self.sender
    }

    /// The sender's sequence number that this transaction uses up.
    pub fn sequence_number(&self) -> (n: u64)
        ensures
            n == self@.sequence_number,
    {
        self.sequence_number
    }

    /// Seconds since the epoch after which the node no longer accepts the
    /// transaction.
    pub fn expiration_timestamp(&self) -> (secs: u64)
        ensures
            secs == self@.expiration_timestamp,
    {
        self.expiration_timestamp
    }

    /// The network the transaction is meant for.
    pub fn chain_id(&self) -> (chain: ChainId)
        ensures
            chain == self@.chain_id,
    {
        self.chain_id
    }

    /// Gas units the sender is willing to pay for.
    pub fn max_gas_amount(&self) -> (units: u64)
        ensures
            units == self@.max_gas_amount,
    {
        self.max_gas_amount
    }

    /// Price offered per gas unit.
    pub fn gas_unit_price(&self) -> (price: u64)
        ensures
            price == self@.gas_unit_price,
    {
        self.gas_unit_price
    }
}

/// Mathematical model of a [`SignedTransaction`].
pub struct SignedTransactionView {
    pub raw: UnsignedTransactionView,
    pub signature: Seq<u8>,
}

/// A transaction together with the sender's signature over its canonical
/// encoding. It cannot be changed, and it is meant to be submitted once.
#[derive(Debug, Clone, PartialEq, Eq)]
pub struct SignedTransaction {
    raw: UnsignedTransaction,
    signature: Vec<u8>,
}

impl View for SignedTransaction {
    type V = SignedTransactionView;

    closed spec fn view(&self) -> SignedTransactionView {
        SignedTransactionView { raw: self.raw@, signature: self.signature@ }
    }
}

impl SignedTransaction {
    /// The transaction that was signed.
    pub fn raw(&self) -> (raw: &UnsignedTransaction)
        ensures
            raw@ == self@.raw,
    {
        &self.raw
    }

    /// The signature.
    pub fn signature(&self) -> (signature: &Vec<u8>)
        ensures
            signature@ == self@.signature,
    {
        &self.signature
    }

    /// The sequence number that the transaction carries.
    pub fn sequence_number(&self) -> (n: u64)
        ensures
            n == self@.raw.sequence_number,
    {
        self.raw.sequence_number()
    }
}

/// The message that the sender signs for a transaction with these parts, as
/// `aptos_sdk` computes it, or `None` where it cannot.
pub uninterp spec fn signing_message(
    payload: Seq<u8>,
    sender: Seq<u8>,
    sequence_number: u64,
    max_gas_amount: u64,
    gas_unit_price: u64,
    expiration_timestamp: u64,
    chain_id: u8,
) -> Option<Seq<u8>>;

/// The Ed25519 signature of `message` under a 32-byte `private_key`.
pub uninterp spec fn ed25519_signature(private_key: Seq<u8>, message: Seq<u8>) -> Seq<u8>;

impl UnsignedTransactionView {
    /// The message to sign for this transaction.
    pub open spec fn message_to_sign(self) -> Option<Seq<u8>> {
        signing_message(
            self.payload,
            self.sender,
            self.sequence_number,
            self.max_gas_amount,
            self.gas_unit_price,
            self.expiration_timestamp,
            self.chain_id.0,
        )
    }
}

/// Whether `message` holds the fields of `tx` where the canonical encoding
/// puts them. A signing message is a hash of 32 bytes that names the kind of
/// message, then the transaction field by field: the sender's 32 bytes, the
/// sequence number, the payload, the gas limit, the gas price, the expiry,
/// each number in 8 bytes least significant first, and the chain id in one
/// byte. The hash and the payload are not spelt out here.
pub open spec fn carries_fields(message: Seq<u8>, tx: UnsignedTransactionView) -> bool {
    let end = message.len() as int;
    &&& end >= 97
    &&& message.subrange(32, 64) == tx.sender
    &&& message.subrange(64, 72) == le_bytes(tx.sequence_number as nat, 8)
    &&& message.subrange(end - 25, end - 17) == le_bytes(tx.max_gas_amount as nat, 8)
    &&& message.subrange(end - 17, end - 9) == le_bytes(tx.gas_unit_price as nat, 8)
    &&& message.subrange(end - 9, end - 1) == le_bytes(tx.expiration_timestamp as nat, 8)
    &&& message[end - 1] == tx.chain_id.0
}

impl UnsignedTransactionView {
    /// Whether the message to sign, where there is one, holds the fields of
    /// this transaction in their places.
    pub open spec fn is_framed(self) -> bool {
        match self.message_to_sign() {
            Some(message) => carries_fields(message, self),
            None => true,
        }
    }
}

/// Assumed, not proved: the result is what `RawTransaction::signing_message`
/// of `aptos_sdk` returns. That is the one call that the name stands for;
/// `aptos_bcs::from_bytes`, which reads the payload back, and
/// `TransactionBuilder`, which takes the fields, only put the raw
/// transaction together. `None` where any of the three fails. With the
/// expiry given, none of them looks at anything but its arguments.
///
/// Of the message itself this much is claimed: it is the 32 bytes of
/// `sha3_256` followed by what `aptos_bcs::to_bytes` makes of the raw
/// transaction, a struct whose fields are written in the order in which
/// they are declared, an address as its 32 bytes, a `u64` with
/// `to_le_bytes`, the chain id as one byte.
#[verifier::external_body]
fn sdk_signing_message(tx: &UnsignedTransaction) -> (message: Option<Vec<u8>>)
    ensures
        optional_bytes(message) == signing_message(
            tx@.payload,
            tx@.sender,
            tx@.sequence_number,
            tx@.max_gas_amount,
            tx@.gas_unit_price,
            tx@.expiration_timestamp,
            tx@.chain_id.0,
        ),
        message matches Some(bytes) ==> carries_fields(bytes@, tx@),
{
    let payload: TransactionPayload = aptos_bcs::from_bytes(tx.payload.as_bytes()).ok()?;
    let raw = TransactionBuilder::new()
        .sender(AccountAddress::new(tx.sender))
        .sequence_number(tx.sequence_number)
        .payload(payload)
        .max_gas_amount(tx.max_gas_amount)
        .gas_unit_price(tx.gas_unit_price)
        .expiration_timestamp_secs(tx.expiration_timestamp)
        .chain_id(aptos_sdk::types::ChainId::new(tx.chain_id.0))
        .build();
    raw.ok()?.signing_message().ok()
}

/// Assumed, not proved: `Ed25519PrivateKey::from_bytes` of `aptos_sdk`
/// accepts exactly the keys of 32 bytes, and `Ed25519PrivateKey::sign` then
/// returns a signature of 64 bytes that depends on the key and the message
/// alone (Ed25519 signing draws no randomness).
#[verifier::external_body]
fn sdk_sign(private_key: &Vec<u8>, message: &Vec<u8>) -> (signature: Option<Vec<u8>>)
    ensures
        signature is Some <==> private_key@.len() == PRIVATE_KEY_LENGTH,
        signature matches Some(s) ==> s@ == ed25519_signature(private_key@, message@) && s@.len()
            == SIGNATURE_LENGTH,
{
    let key = Ed25519PrivateKey::from_bytes(private_key).ok()?;
    Some(key.sign(message).to_bytes().to_vec())
}

/// Assumed, not proved: the whole seconds of what
/// `std::time::SystemTime::elapsed` returns for the Unix epoch, that is the
/// time from the epoch to now, or `None` where the clock reads a time before
/// the epoch. Nothing is promised about the number.
#[verifier::external_body]
fn unix_time_secs() -> (now: Option<u64>) {
    UNIX_EPOCH.elapsed().ok().map(|elapsed| elapsed.as_secs())
}

/// The transaction that the builder assembles for `payload` when the clock
/// reads `now_secs`: sent by `sender` under its next sequence number, expiring
/// one window after `now_secs`, with the fixed fee policy.
pub open spec fn assembled(
    payload: Seq<u8>,
    sender: AccountView,
    chain_id: ChainId,
    now_secs: u64,
) -> UnsignedTransactionView {
    UnsignedTransactionView {
        payload,
        sender: sender.address,
        sequence_number: sender.issued(),
        expiration_timestamp: (now_secs + EXPIRATION_WINDOW_SECS) as u64,
        chain_id,
        max_gas_amount: MAX_GAS_AMOUNT,
        gas_unit_price: GAS_UNIT_PRICE,
    }
}

/// What signing `raw` with `private_key` yields.
pub open spec fn signed(raw: UnsignedTransactionView, private_key: Seq<u8>) -> Result<
    SignedTransactionView,
    BuildError,
> {
    match raw.message_to_sign() {
        None => Err(BuildError::Encoding),
        Some(message) => if private_key.len() == PRIVATE_KEY_LENGTH {
            Ok(SignedTransactionView { raw, signature: ed25519_signature(private_key, message) })
        } else {
            Err(BuildError::Signature)
        },
    }
}

/// The model of the outcome of a build.
pub open spec fn build_result_view(result: Result<SignedTransaction, BuildError>) -> Result<
    SignedTransactionView,
    BuildError,
> {
    match result {
        Ok(tx) => Ok(tx@),
        Err(e) => Err(e),
    }
}

/// When a transaction built at `now_secs` expires.
pub fn expiration_after(now_secs: u64) -> (expires: u64)
    requires
        now_secs + EXPIRATION_WINDOW_SECS <= u64::MAX,
    ensures
        expires == now_secs + EXPIRATION_WINDOW_SECS,
{
    now_secs + EXPIRATION_WINDOW_SECS
}

/// Attaches a signature to the transaction it was made for. A missing
/// signature means that the key was refused.
pub fn seal(raw: UnsignedTransaction, signature: Option<Vec<u8>>) -> (result: Result<
    SignedTransaction,
    BuildError,
>)
    ensures
        build_result_view(result) == match signature {
            Some(s) => Ok::<SignedTransactionView, BuildError>(
                SignedTransactionView { raw: raw@, signature: s@ },
            ),
            None => Err(BuildError::Signature),
        },
{
    match signature {
        Some(signature) => Ok(SignedTransaction { raw, signature }),
        None => Err(BuildError::Signature),
    }
}

/// Signs `raw` with `private_key`. What is signed holds the fields of `raw`
/// in their places.
pub fn sign(raw: UnsignedTransaction, private_key: &Vec<u8>) -> (result: Result<
    SignedTransaction,
    BuildError,
>)
    ensures
        build_result_view(result) == signed(raw@, private_key@),
        raw@.is_framed(),
{
    match sdk_signing_message(&raw) {
        None => Err(BuildError::Encoding),
        Some(message) => {
            let signature = sdk_sign(private_key, &message);
            seal(raw, signature)
        },
    }
}

/// Builds and signs a transaction for `payload` as if the clock read
/// `now_secs`. The sender's counter moves on by one whether or not signing
/// succeeds, because the number is taken before the signature is attempted.
pub fn build_transaction_at(
    payload: Payload,
    sender: &mut Account,
    chain_id: ChainId,
    now_secs: u64,
) -> (result: Result<SignedTransaction, BuildError>)
    requires
        now_secs + EXPIRATION_WINDOW_SECS <= u64::MAX,
    ensures
        final(sender)@ == old(sender)@.advanced(),
        build_result_view(result) == signed(
            assembled(payload@, old(sender)@, chain_id, now_secs),
            old(sender)@.private_key,
        ),
        assembled(payload@, old(sender)@, chain_id, now_secs).is_framed(),
{
    let expiration_timestamp = expiration_after(now_secs);
    let sequence_number = sender.next_sequence_number();
    let raw = UnsignedTransaction::new(
        payload,
        sender.address(),
        sequence_number,
        expiration_timestamp,
        chain_id,
        MAX_GAS_AMOUNT,
        GAS_UNIT_PRICE,
    );
    sign(raw, sender.private_key())
}

/// What a build yields when the clock has answered `clock`, and the account
/// it leaves behind. A reading for which an expiry exists gives the outcome
/// of signing what was assembled for it, and uses up one sequence number. No
/// reading, or one so late that the expiry does not fit in 64 bits, gives
/// `Clock` and leaves the account as it was.
pub open spec fn built_with_clock(
    payload: Seq<u8>,
    sender: AccountView,
    chain_id: ChainId,
    clock: Option<u64>,
) -> (Result<SignedTransactionView, BuildError>, AccountView) {
    match clock {
        Some(now_secs) if now_secs + EXPIRATION_WINDOW_SECS <= u64::MAX => (
            signed(assembled(payload, sender, chain_id, now_secs), sender.private_key),
            sender.advanced(),
        ),
        _ => (Err(BuildError::Clock), sender),
    }
}

/// Builds and signs a transaction for `payload`, given what the clock
/// answered: the seconds since the epoch, or nothing. What is signed holds
/// the fields of the transaction in their places.
pub fn build_transaction_with_clock(
    payload: Payload,
    sender: &mut Account,
    chain_id: ChainId,
    clock: Option<u64>,
) -> (result: Result<SignedTransaction, BuildError>)
    ensures
        build_result_view(result) == built_with_clock(payload@, old(sender)@, chain_id, clock).0,
        final(sender)@ == built_with_clock(payload@, old(sender)@, chain_id, clock).1,
        build_result_view(result) matches Ok(tx) ==> tx.raw.is_framed(),
{
    match clock {
        Some(now_secs) => {
            if now_secs <= u64::MAX - EXPIRATION_WINDOW_SECS {
                build_transaction_at(payload, sender, chain_id, now_secs)
            } else {
                Err(BuildError::Clock)
            }
        },
        None => Err(BuildError::Clock),
    }
}

/// Builds and signs a transaction for `payload`, expiring one window after
/// the current wall-clock time. The outcome is that of
/// [`build_transaction_with_clock`] for whatever the clock answered, and
/// what is signed holds the fields of the transaction in their places.
pub fn build_transaction(payload: Payload, sender: &mut Account, chain_id: ChainId) -> (result:
    Result<SignedTransaction, BuildError>)
    ensures
        exists|clock: Option<u64>|
            build_result_view(result) == (#[trigger] built_with_clock(
                payload@,
                old(sender)@,
                chain_id,
                clock,
            )).0 && final(sender)@ == built_with_clock(payload@, old(sender)@, chain_id, clock).1,
        build_result_view(result) matches Ok(tx) ==> tx.raw.is_framed(),
{
    let clock = unix_time_secs();
    build_transaction_with_clock(payload, sender, chain_id, clock)
}

/// Signing leaves the transaction as it was assembled. In particular the
/// sequence number inside a signed transaction is the one that the account
/// handed out just before signing.
pub proof fn lemma_signed_carries_issued_number(
    payload: Seq<u8>,
    sender: AccountView,
    chain_id: ChainId,
    now_secs: u64,
)
    ensures
        signed(assembled(payload, sender, chain_id, now_secs), sender.private_key) matches Ok(tx)
            ==> tx.raw == assembled(payload, sender, chain_id, now_secs)
            && tx.raw.sequence_number == sender.issued(),
{
}

/// Building twice in a row from one account, with whatever payloads, gives
/// two transactions whose sequence numbers differ by exactly one. What
/// became of the first transaction after it was built plays no part.
pub proof fn lemma_rebuild_uses_next_number(
    sender: AccountView,
    first_payload: Seq<u8>,
    first_chain: ChainId,
    first_now: u64,
    second_payload: Seq<u8>,
    second_chain: ChainId,
    second_now: u64,
)
    requires
        sender.sequence_number < u64::MAX,
    ensures
        ({
            let first = signed(
                assembled(first_payload, sender, first_chain, first_now),
                sender.private_key,
            );
            let second = signed(
                assembled(second_payload, sender.advanced(), second_chain, second_now),
                sender.advanced().private_key,
            );
            first is Ok && second is Ok ==> second->Ok_0.raw.sequence_number
                == first->Ok_0.raw.sequence_number + 1
        }),
{
}

/// A transaction expires exactly one window after it was built.
pub proof fn lemma_expiry_is_one_window_ahead(
    payload: Seq<u8>,
    sender: AccountView,
    chain_id: ChainId,
    now_secs: u64,
)
    requires
        now_secs + EXPIRATION_WINDOW_SECS <= u64::MAX,
    ensures
        assembled(payload, sender, chain_id, now_secs).expiration_timestamp == now_secs + 60,
        assembled(payload, sender, chain_id, now_secs).expiration_timestamp > now_secs,
{
}

/// What is signed names the chain: two transactions for different chains
/// are never signed over the same message, so a signature made for one chain
/// says nothing on another.
pub proof fn lemma_chain_is_signed_over(
    first: UnsignedTransactionView,
    second: UnsignedTransactionView,
)
    requires
        first.is_framed(),
        second.is_framed(),
        first.message_to_sign() is Some,
        second.message_to_sign() is Some,
        first.chain_id != second.chain_id,
    ensures
        first.message_to_sign() != second.message_to_sign(),
{
}

/// What is signed names the sequence number: two transactions with
/// different numbers are never signed over the same message, so no
/// signature can be used for a second number.
pub proof fn lemma_sequence_number_is_signed_over(
    first: UnsignedTransactionView,
    second: UnsignedTransactionView,
)
    requires
        first.is_framed(),
        second.is_framed(),
        first.message_to_sign() is Some,
        second.message_to_sign() is Some,
        first.sequence_number != second.sequence_number,
    ensures
        first.message_to_sign() != second.message_to_sign(),
{
    assert(radix_power(8) == 0x1_0000_0000_0000_0000) by {
        reveal_with_fuel(radix_power, 9);
    }
    if first.message_to_sign() == second.message_to_sign() {
        lemma_le_bytes_tell_numbers_apart(
            first.sequence_number as nat,
            second.sequence_number as nat,
            8,
        );
    }
}

} // verus!
