//! Deciding what to make of a node's answers.
//!
//! The functions here perform no I/O. The caller talks to the node: it asks
//! for the chain id and the time, submits where [`begin_submission`] allows
//! it, reports what came back as a [`NodeEvent`], and runs the view query.

use crate::call::{check_identifier, is_valid_identifier, EncodingError};
use crate::transaction::{ChainId, SignedTransaction, SignedTransactionView};
use vstd::prelude::*;

verus! {

/// Where a transaction is in its life. A transaction only ever moves
/// forward: from `Built` to `Submitted`, and from there to one of the three
/// final states.
#[derive(Debug, Clone, Copy, PartialEq, Eq, Structural)]
pub enum TxState {
    Built,
    Submitted,
    Executed { success: bool },
    Rejected,
    Expired,
}

impl TxState {
    /// Whether nothing can happen to the transaction any more.
    pub open spec fn is_final(self) -> bool {
        self is Executed || self is Rejected || self is Expired
    }

    /// How far along its life the transaction is.
    pub open spec fn progress(self) -> nat {
        match self {
            TxState::Built => 0,
            TxState::Submitted => 1,
            _ => 2,
        }
    }

    /// Whether nothing can happen to the transaction any more.
    pub fn is_terminal(&self) -> (terminal: bool)
        ensures
            terminal == self.is_final(),
    {
        match self {
            TxState::Built => false,
            TxState::Submitted => false,
            _ => true,
        }
    }

    /// The state after the caller has learnt `event` about the transaction.
    pub fn observe(self, event: &NodeEvent) -> (next: TxState)
        ensures
            next == after_event(self, *event),
    {
        match self {
            TxState::Submitted => match event {
                NodeEvent::Executed { success, vm_status: _ } => TxState::Executed {
                    success: *success,
                },
                NodeEvent::Rejected { reason: _ } => TxState::Rejected,
                NodeEvent::Expired => TxState::Expired,
                NodeEvent::Unreachable { detail: _ } => TxState::Submitted,
            },
            _ => self,
        }
    }
}

/// What the caller learnt from the node about a submitted transaction.
#[derive(Debug, Clone, PartialEq, Eq)]
pub enum NodeEvent {
    /// The transaction was included in a block and ran.
    Executed { success: bool, vm_status: String },
    /// The node refused the transaction.
    Rejected { reason: String },
    /// The transaction's expiry passed before it was included.
    Expired,
    /// The node could not be reached, or did not answer in time. Nothing is
    /// known about the transaction.
    Unreachable { detail: String },
}

/// The result of submitting a transaction and waiting for the node's verdict.
/// Being accepted and running successfully are separate things.
#[derive(Debug, Clone, PartialEq, Eq)]
pub struct SubmissionOutcome {
    pub accepted: bool,
    pub execution_success: bool,
    pub failure_reason: Option<String>,
}

/// What can go wrong between a signed transaction and a verified one.
#[derive(Debug, Clone, PartialEq, Eq)]
pub enum ClientError {
    /// Connection trouble or a timeout. The caller may try again.
    Network(String),
    /// The transaction was signed for another chain than the node serves.
    ChainMismatch { transaction: ChainId, node: ChainId },
    /// The node refused the transaction. It has to be rebuilt.
    SubmissionRejected(String),
    /// The transaction was included, but its code aborted.
    ExecutionFailed(String),
    /// The expiry passed before the transaction was included. It has to be
    /// rebuilt.
    Expired,
}

/// What a caller can do about an error.
#[derive(Debug, Clone, Copy, PartialEq, Eq, Structural)]
pub enum Remedy {
    /// Try the same request again; nothing has to be rebuilt.
    Retry,
    /// Build a new transaction, with a fresh sequence number and expiry.
    Rebuild,
    /// Neither helps: the setup or the call itself is at fault.
    GiveUp,
}

impl ClientError {
    /// What can be done about this error: network trouble is transient, a
    /// rejected or expired transaction has to be rebuilt, and a wrong chain
    /// or a call that aborted will fail again however often it is sent.
    pub open spec fn remedy_spec(self) -> Remedy {
        match self {
            ClientError::Network(_) => Remedy::Retry,
            ClientError::SubmissionRejected(_) => Remedy::Rebuild,
            ClientError::Expired => Remedy::Rebuild,
            ClientError::ChainMismatch { .. } => Remedy::GiveUp,
            ClientError::ExecutionFailed(_) => Remedy::GiveUp,
        }
    }

    /// What can be done about this error.
    pub fn remedy(&self) -> (remedy: Remedy)
        ensures
            remedy == self.remedy_spec(),
    {
        match self {
            ClientError::Network(_) => Remedy::Retry,
            ClientError::SubmissionRejected(_) => Remedy::Rebuild,
            ClientError::Expired => Remedy::Rebuild,
            ClientError::ChainMismatch { .. } => Remedy::GiveUp,
            ClientError::ExecutionFailed(_) => Remedy::GiveUp,
        }
    }
}

/// Whether `tx` may be sent to a node that serves `node_chain_id` when the
/// time is `now_secs`. A wrong chain is reported before a passed expiry.
pub open spec fn submittable(
    tx: SignedTransactionView,
    node_chain_id: ChainId,
    now_secs: u64,
) -> Result<(), ClientError> {
    if tx.raw.chain_id != node_chain_id {
        Err(ClientError::ChainMismatch { transaction: tx.raw.chain_id, node: node_chain_id })
    } else if tx.raw.expiration_timestamp < now_secs {
        Err(ClientError::Expired)
    } else {
        Ok(())
    }
}

/// The state that `event` takes a transaction to. Only a submitted
/// transaction reacts, and an unreachable node leaves it where it is.
pub open spec fn after_event(state: TxState, event: NodeEvent) -> TxState {
    match state {
        TxState::Submitted => match event {
            NodeEvent::Executed { success, vm_status } => TxState::Executed { success },
            NodeEvent::Rejected { reason } => TxState::Rejected,
            NodeEvent::Expired => TxState::Expired,
            NodeEvent::Unreachable { detail } => TxState::Submitted,
        },
        _ => state,
    }
}

/// What the caller is told once it has learnt `event`.
pub open spec fn outcome_of(event: NodeEvent) -> Result<SubmissionOutcome, ClientError> {
    match event {
        NodeEvent::Executed { success, vm_status } => Ok(
            SubmissionOutcome {
                accepted: true,
                execution_success: success,
                failure_reason: if success {
                    None
                } else {
                    Some(vm_status)
                },
            },
        ),
        NodeEvent::Rejected { reason } => Ok(
            SubmissionOutcome {
                accepted: false,
                execution_success: false,
                failure_reason: Some(reason),
            },
        ),
        NodeEvent::Expired => Err(ClientError::Expired),
        NodeEvent::Unreachable { detail } => Err(ClientError::Network(detail)),
    }
}

/// The node's message in `outcome`, or the empty string where it gave none.
pub open spec fn reason_of(outcome: SubmissionOutcome) -> Seq<char> {
    match outcome.failure_reason {
        Some(reason) => reason@,
        None => Seq::empty(),
    }
}

/// Whether `outcome` counts as success. Only a transaction that was accepted
/// and ran successfully does.
pub open spec fn succeeded(outcome: SubmissionOutcome) -> bool {
    outcome.accepted && outcome.execution_success
}

/// Checks a transaction before it is sent: it must be meant for the node's
/// chain and must not have expired. On `Ok` the transaction is `Submitted`
/// as soon as the caller has sent it; on `Err` nothing must be sent.
pub fn begin_submission(tx: &SignedTransaction, node_chain_id: ChainId, now_secs: u64) -> (result:
    Result<TxState, ClientError>)
    ensures
        match submittable(tx@, node_chain_id, now_secs) {
            Ok(_) => result == Ok::<TxState, ClientError>(TxState::Submitted),
            Err(e) => result == Err::<TxState, ClientError>(e),
        },
{
    let chain_id = tx.raw().chain_id();
    if chain_id != node_chain_id {
        Err(ClientError::ChainMismatch { transaction: chain_id, node: node_chain_id })
    } else if tx.raw().expiration_timestamp() < now_secs {
        Err(ClientError::Expired)
    } else {
        Ok(TxState::Submitted)
    }
}

/// Microseconds in a second. The ledger counts time in microseconds.
pub const MICROS_PER_SECOND: u64 = 1_000_000;

/// What silence about a submitted transaction means when the ledger's clock
/// reads `ledger_usecs` microseconds, or cannot be read.
pub open spec fn silence_means(
    tx: SignedTransactionView,
    ledger_usecs: Option<u64>,
    detail: String,
) -> NodeEvent {
    match ledger_usecs {
        Some(usecs) if tx.raw.expiration_timestamp < usecs / MICROS_PER_SECOND => NodeEvent::Expired,
        _ => NodeEvent::Unreachable { detail },
    }
}

/// What it means that the node has not answered for a submitted transaction:
/// once the ledger's clock is past the expiry, the transaction can no longer
/// be included and has expired; until then, and where the ledger's clock
/// cannot be read, nothing is known.
pub fn on_silence(tx: &SignedTransaction, ledger_usecs: Option<u64>, detail: String) -> (event:
    NodeEvent)
    ensures
        event == silence_means(tx@, ledger_usecs, detail),
{
    match ledger_usecs {
        Some(usecs) => {
            if tx.raw().expiration_timestamp() < usecs / MICROS_PER_SECOND {
                NodeEvent::Expired
            } else {
                NodeEvent::Unreachable { detail }
            }
        },
        None => NodeEvent::Unreachable { detail },
    }
}

/// Whether an HTTP status says that the node looked at the request and
/// refused it. That is what the 4xx statuses say, but for 408 and 429, which
/// like every other status speak of the moment and not of the request.
pub open spec fn is_refusal(status_code: u16) -> bool {
    400 <= status_code <= 499 && status_code != 408 && status_code != 429
}

/// What an error answer of the node's interface means for a submitted
/// transaction: a refusal rejects it, anything else leaves it unknown.
pub fn on_api_error(status_code: u16, message: String) -> (event: NodeEvent)
    ensures
        event == if is_refusal(status_code) {
            NodeEvent::Rejected { reason: message }
        } else {
            NodeEvent::Unreachable { detail: message }
        },
{
    if 400 <= status_code && status_code <= 499 && status_code != 408 && status_code != 429 {
        NodeEvent::Rejected { reason: message }
    } else {
        NodeEvent::Unreachable { detail: message }
    }
}

/// Turns what the node said into the outcome of the submission.
pub fn conclude(event: &NodeEvent) -> (result: Result<SubmissionOutcome, ClientError>)
    ensures
        result == outcome_of(*event),
{
    match event {
        NodeEvent::Executed { success, vm_status } => {
            let failure_reason = if *success {
                None
            } else {
                Some(vm_status.clone())
            };
            Ok(SubmissionOutcome { accepted: true, execution_success: *success, failure_reason })
        },
        NodeEvent::Rejected { reason } => Ok(
            SubmissionOutcome {
                accepted: false,
                execution_success: false,
                failure_reason: Some(reason.clone()),
            },
        ),
        NodeEvent::Expired => Err(ClientError::Expired),
        NodeEvent::Unreachable { detail } => Err(ClientError::Network(detail.clone())),
    }
}

/// Holds an outcome to the standard of success: a transaction that was not
/// accepted was rejected, and one that was accepted but did not run
/// successfully failed in execution.
pub fn verify_outcome(outcome: &SubmissionOutcome) -> (result: Result<(), ClientError>)
    ensures
        match result {
            Ok(_) => succeeded(*outcome),
            Err(ClientError::SubmissionRejected(reason)) => !outcome.accepted && reason@
                == reason_of(*outcome),
            Err(ClientError::ExecutionFailed(reason)) => outcome.accepted
                && !outcome.execution_success && reason@ == reason_of(*outcome),
            Err(_) => false,
        },
{
    if outcome.accepted && outcome.execution_success {
        return Ok(());
    }
    let reason = match &outcome.failure_reason {
        Some(reason) => reason.clone(),
        None => String::new(),
    };
    if outcome.accepted {
        Err(ClientError::ExecutionFailed(reason))
    } else {
        Err(ClientError::SubmissionRejected(reason))
    }
}

/// A value as the node's JSON interface carries it: in the arguments of a
/// view query and in what the query returns. Integers of 64 bits and more
/// travel as decimal text, hence `Number` holds a string. An `Object` keeps
/// its fields in the order in which they came.
#[derive(Debug, PartialEq, Eq)]
pub enum ViewValue {
    Null,
    Bool(bool),
    Number(String),
    Text(String),
    Address([u8; 32]),
    List(Vec<ViewValue>),
    Object(Vec<ViewField>),
}

/// A named field of an object.
#[derive(Debug, PartialEq, Eq)]
pub struct ViewField {
    pub name: String,
    pub value: ViewValue,
}

/// Mathematical model of a [`ViewRequest`].
pub struct ViewRequestView {
    pub module_address: Seq<u8>,
    pub module_name: Seq<char>,
    pub function_name: Seq<char>,
    pub type_arguments: Seq<String>,
    pub arguments: Seq<ViewValue>,
}

/// A read-only query of `module_address::module_name::function_name`. It is
/// not a transaction: it needs no sequence number and no signature.
#[derive(Debug, PartialEq, Eq)]
pub struct ViewRequest {
    module_address: [u8; 32],
    module_name: String,
    function_name: String,
    type_arguments: Vec<String>,
    arguments: Vec<ViewValue>,
}

impl View for ViewRequest {
    type V = ViewRequestView;

    closed spec fn view(&self) -> ViewRequestView {
        ViewRequestView {
            module_address: self.module_address@,
            module_name: self.module_name@,
            function_name: self.function_name@,
            type_arguments: self.type_arguments@,
            arguments: self.arguments@,
        }
    }
}

impl ViewRequest {
    /// Puts a query together, provided that the module and the function are
    /// named by identifiers. A malformed name is caught here, before any
    /// round trip to the node.
    pub fn new(
        module_address: [u8; 32],
        module_name: String,
        function_name: String,
        type_arguments: Vec<String>,
        arguments: Vec<ViewValue>,
    ) -> (result: Result<ViewRequest, EncodingError>)
        ensures
            match result {
                Ok(request) => is_valid_identifier(module_name@) && is_valid_identifier(
                    function_name@,
                ) && request@ == (ViewRequestView {
                    module_address: module_address@,
                    module_name: module_name@,
                    function_name: function_name@,
                    type_arguments: type_arguments@,
                    arguments: arguments@,
                }),
                Err(e) => e == EncodingError::InvalidIdentifier && !(is_valid_identifier(
                    module_name@,
                ) && is_valid_identifier(function_name@)),
            },
    {
        if check_identifier(module_name.as_str()).is_err() {
            return Err(EncodingError::InvalidIdentifier);
        }
        if check_identifier(function_name.as_str()).is_err() {
            return Err(EncodingError::InvalidIdentifier);
        }
        Ok(ViewRequest { module_address, module_name, function_name, type_arguments, arguments })
    }

    /// Address of the account that published the module.
    pub fn module_address(&self) -> (address: [u8; 32])
        ensures
            address@ == self@.module_address,
    {
        self.module_address
    }

    /// Name of the module.
    pub fn module_name(&self) -> (name: &str)
        ensures
            name@ == self@.module_name,
    {
        self.module_name.as_str()
    }

    /// Name of the function.
    pub fn function_name(&self) -> (name: &str)
        ensures
            name@ == self@.function_name,
    {
        self.function_name.as_str()
    }

    /// The type arguments, in order.
    pub fn type_arguments(&self) -> (tags: &Vec<String>)
        ensures
            tags@ == self@.type_arguments,
    {
        &self.type_arguments
    }

    /// The value arguments, in order.
    pub fn arguments(&self) -> (values: &Vec<ViewValue>)
        ensures
            values@ == self@.arguments,
    {
        &self.arguments
    }
}

/// What a view query returned: the function's results, in order.
#[derive(Debug, PartialEq, Eq)]
pub struct ViewResult {
    pub values: Vec<ViewValue>,
}

/// Whether `values` is exactly one string, and that string is `expected`.
pub open spec fn is_single_text(values: Seq<ViewValue>, expected: Seq<char>) -> bool {
    values.len() == 1 && match values[0] {
        ViewValue::Text(text) => text@ == expected,
        _ => false,
    }
}

/// Whether the query returned exactly one string, and that string is
/// `expected`.
pub fn returns_text(result: &ViewResult, expected: &str) -> (same: bool)
    ensures
        same == is_single_text(result.values@, expected@),
{
    if result.values.len() != 1 {
        return false;
    }
    match &result.values[0] {
        ViewValue::Text(text) => {
            let wanted: String = expected.to_owned();
            *text == wanted
        },
        _ => false,
    }
}

/// Whether a call has been verified: the transaction was accepted and ran
/// successfully, and the query that followed returned the expected string.
/// There is no partial success.
pub fn is_verified(outcome: &SubmissionOutcome, result: &ViewResult, expected: &str) -> (verified:
    bool)
    ensures
        verified == (succeeded(*outcome) && is_single_text(result.values@, expected@)),
{
    outcome.accepted && outcome.execution_success && returns_text(result, expected)
}

/// A transaction signed for another chain is turned away with
/// `ChainMismatch`, whatever else is true of it, and nothing is sent.
pub proof fn lemma_wrong_chain_is_turned_away(
    tx: SignedTransactionView,
    node_chain_id: ChainId,
    now_secs: u64,
)
    requires
        tx.raw.chain_id != node_chain_id,
    ensures
        submittable(tx, node_chain_id, now_secs) == Err::<(), ClientError>(
            ClientError::ChainMismatch { transaction: tx.raw.chain_id, node: node_chain_id },
        ),
{
}

/// A transaction whose expiry lies in the past is never sent, so it cannot
/// end up executed; where the chain is the right one, it is reported as
/// `Expired`.
pub proof fn lemma_expired_is_not_submitted(
    tx: SignedTransactionView,
    node_chain_id: ChainId,
    now_secs: u64,
)
    requires
        tx.raw.expiration_timestamp < now_secs,
    ensures
        submittable(tx, node_chain_id, now_secs) is Err,
        tx.raw.chain_id == node_chain_id ==> submittable(tx, node_chain_id, now_secs) == Err::<
            (),
            ClientError,
        >(ClientError::Expired),
{
}

/// A transaction never moves backwards: no event lowers its progress, and
/// no event changes a final state.
pub proof fn lemma_no_way_back(state: TxState, event: NodeEvent)
    ensures
        after_event(state, event).progress() >= state.progress(),
        state.is_final() ==> after_event(state, event) == state,
        state is Built ==> after_event(state, event) is Built,
{
}

/// A submitted transaction reaches a final state with every answer of the
/// node; only an unreachable node leaves it pending.
pub proof fn lemma_answer_is_final(event: NodeEvent)
    ensures
        after_event(TxState::Submitted, event).is_final() <==> !(event is Unreachable),
        after_event(TxState::Submitted, event) matches TxState::Executed { success } ==> (
        event matches NodeEvent::Executed { success: ran, .. } && ran == success),
{
}

/// The outcome agrees with the state the transaction ends in: it counts as
/// success exactly when the transaction was executed successfully.
pub proof fn lemma_outcome_matches_state(event: NodeEvent)
    ensures
        (outcome_of(event) matches Ok(outcome) && succeeded(outcome)) <==> after_event(
            TxState::Submitted,
            event,
        ) == (TxState::Executed { success: true }),
        after_event(TxState::Submitted, event) is Expired <==> outcome_of(event) == Err::<
            SubmissionOutcome,
            ClientError,
        >(ClientError::Expired),
{
}

} // verus!
