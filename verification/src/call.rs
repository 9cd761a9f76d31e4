//! Turning a function call into a transaction payload.

use crate::value::{serialize_values, MoveValue};
use aptos_sdk::aptos_bcs;
use aptos_sdk::transaction::{EntryFunction, TransactionPayload};
use aptos_sdk::types::{AccountAddress, Identifier, MoveModuleId, TypeTag};
use vstd::prelude::*;

verus! {

/// Longest identifier, in characters, that the chain accepts.
pub const MAX_IDENTIFIER_LENGTH: usize = 128;

/// Why a call could not be turned into a payload. Both are local failures:
/// nothing has been sent anywhere when they are reported.
#[derive(Debug, Clone, Copy, PartialEq, Eq)]
pub enum EncodingError {
    /// The module name or the function name is not an identifier.
    InvalidIdentifier,
    /// The names are fine, but a type argument is not a type or the call is
    /// too large to be serialised.
    Unencodable,
}

/// Mathematical model of a [`FunctionCall`].
pub struct FunctionCallView {
    pub module_address: Seq<u8>,
    pub module_name: Seq<char>,
    pub function_name: Seq<char>,
    pub type_arguments: Seq<Seq<char>>,
    pub arguments: Seq<MoveValue>,
}

/// An invocation of `module_address::module_name::function_name`. Type
/// arguments are written as type tags (`u64`, `0x1::aptos_coin::AptosCoin`).
/// A call cannot be changed once it has been put together.
#[derive(Debug, PartialEq, Eq)]
pub struct FunctionCall {
    module_address: [u8; 32],
    module_name: String,
    function_name: String,
    type_arguments: Vec<String>,
    arguments: Vec<MoveValue>,
}

/// The characters of each string of `texts`.
pub open spec fn texts_view(texts: Seq<String>) -> Seq<Seq<char>> {
    Seq::new(texts.len(), |i: int| texts[i]@)
}

/// The bytes of each vector of `blobs`.
pub open spec fn blobs_view(blobs: Seq<Vec<u8>>) -> Seq<Seq<u8>> {
    Seq::new(blobs.len(), |i: int| blobs[i]@)
}

/// The bytes inside an optional byte vector.
pub open spec fn optional_bytes(bytes: Option<Vec<u8>>) -> Option<Seq<u8>> {
    match bytes {
        Some(b) => Some(b@),
        None => None,
    }
}

impl View for FunctionCall {
    type V = FunctionCallView;

    closed spec fn view(&self) -> FunctionCallView {
        FunctionCallView {
            module_address: self.module_address@,
            module_name: self.module_name@,
            function_name: self.function_name@,
            type_arguments: texts_view(self.type_arguments@),
            arguments: self.arguments@,
        }
    }
}

impl FunctionCall {
    /// Puts a call together. Nothing is checked here: a malformed name is
    /// reported when the call is encoded.
    pub fn new(
        module_address: [u8; 32],
        module_name: String,
        function_name: String,
        type_arguments: Vec<String>,
        arguments: Vec<MoveValue>,
    ) -> (call: FunctionCall)
        ensures
            call@.module_address == module_address@,
            call@.module_name == module_name@,
            call@.function_name == function_name@,
            call@.type_arguments == texts_view(type_arguments@),
            call@.arguments == arguments@,
    {
        FunctionCall { module_address, module_name, function_name, type_arguments, arguments }
    }

    /// Address of the account that published the module.
    pub fn module_address(&self) -> (address: [u8; 32])
        ensures
            address@ == self@.module_address,
    {
        self.module_address
    }

    /// Name of the module.
    pub fn module_name(&self) -> (name: &str)
        ensures
            name@ == self@.module_name,
    {
        self.module_name.as_str()
    }

    /// Name of the function.
    pub fn function_name(&self) -> (name: &str)
        ensures
            name@ == self@.function_name,
    {
        self.function_name.as_str()
    }

    /// The type arguments, in order.
    pub fn type_arguments(&self) -> (tags: &Vec<String>)
        ensures
            texts_view(tags@) == self@.type_arguments,
    {
        &self.type_arguments
    }

    /// The value arguments, in order.
    pub fn arguments(&self) -> (values: &Vec<MoveValue>)
        ensures
            values@ == self@.arguments,
    {
        &self.arguments
    }
}

/// The serialised form of a call, ready to be embedded in a transaction.
#[derive(Debug, Clone, PartialEq, Eq)]
pub struct Payload {
    bytes: Vec<u8>,
}

impl View for Payload {
    type V = Seq<u8>;

    closed spec fn view(&self) -> Seq<u8> {
        self.bytes@
    }
}

impl Payload {
    /// Wraps bytes that are already a serialised payload.
    pub fn from_bytes(bytes: Vec<u8>) -> (payload: Payload)
        ensures
            payload@ == bytes@,
    {
        Payload { bytes }
    }

    /// The serialised bytes.
    pub fn as_bytes(&self) -> (bytes: &Vec<u8>)
        ensures
            bytes@ == self@,
    {
        &self.bytes
    }
}

/// Whether an identifier may begin with `c`.
pub open spec fn is_identifier_start(c: char) -> bool {
    ('a' <= c && c <= 'z') || ('A' <= c && c <= 'Z') || c == '_'
}

/// Whether `c` may occur in an identifier.
pub open spec fn is_identifier_char(c: char) -> bool {
    is_identifier_start(c) || ('0' <= c && c <= '9')
}

/// Whether `name` is an identifier: between 1 and 128 ASCII letters, digits
/// and underscores, the first of which is not a digit.
pub open spec fn is_valid_identifier(name: Seq<char>) -> bool {
    &&& 0 < name.len() <= MAX_IDENTIFIER_LENGTH
    &&& is_identifier_start(name[0])
    &&& forall|i: int| 0 <= i < name.len() ==> is_identifier_char(#[trigger] name[i])
}

/// The bytes that `aptos_sdk` serialises an entry-function payload to, or
/// `None` where it refuses to build or serialise one.
pub uninterp spec fn entry_function_payload(
    module_address: Seq<u8>,
    module_name: Seq<char>,
    function_name: Seq<char>,
    type_arguments: Seq<Seq<char>>,
    arguments: Seq<Seq<u8>>,
) -> Option<Seq<u8>>;

/// Assumed, not proved: `aptos_sdk::types::Identifier::new` accepts exactly
/// the names that [`is_valid_identifier`] describes. Its source rejects a name
/// of more than 128 bytes, an empty name, a first character that is neither an
/// ASCII letter nor `_`, and any character that is neither ASCII alphanumeric
/// nor `_`; it accepts everything else.
#[verifier::external_body]
fn sdk_accepts_identifier(name: &str) -> (accepted: bool)
    ensures
        accepted == is_valid_identifier(name@),
{
    Identifier::new(name).is_ok()
}

/// Longest sequence, in elements, that the serialiser writes.
pub const MAX_SEQUENCE_LENGTH: usize = 2_147_483_647;

/// Whether `c` is the letter that marks a hexadecimal literal.
pub open spec fn is_hex_marker(c: char) -> bool {
    c == 'x' || c == 'X'
}

/// Whether the hexadecimal prefix stands at `at`: a zero followed by the
/// marker.
pub open spec fn opens_hex_at(text: Seq<char>, at: int) -> bool {
    0 <= at && at + 1 < text.len() && text[at] == '0' && is_hex_marker(text[at + 1])
}

/// Whether a word may begin at `at` that is not a name after `::`: at the
/// start of the text, and after every character that is neither a colon nor
/// a character of an identifier. White space, `<` and `,` are such
/// characters, and an address in a type tag follows nothing else.
pub open spec fn begins_word_at(text: Seq<char>, at: int) -> bool {
    0 <= at < text.len() && (at == 0 || !(is_identifier_char(text[at - 1]) || text[at - 1]
        == ':'))
}

/// Whether what stands at `at` opens no address: the marker with no zero
/// before it, or the prefix followed by the marker or by the prefix again.
/// An address is hexadecimal digits after one prefix at most.
pub open spec fn misopens_address_at(text: Seq<char>, at: int) -> bool {
    ||| 0 <= at < text.len() && is_hex_marker(text[at])
    ||| opens_hex_at(text, at) && at + 2 < text.len() && is_hex_marker(text[at + 2])
    ||| opens_hex_at(text, at) && opens_hex_at(text, at + 2)
}

/// Whether a word that cannot be an address begins at `at` where an address
/// may stand.
pub open spec fn has_misopened_address_at(text: Seq<char>, at: int) -> bool {
    begins_word_at(text, at) && misopens_address_at(text, at)
}

/// Whether `text` has such a word. No type tag has: where an address may
/// stand there is an address, `vector` or the name of a primitive type, and
/// none of these begins in that way.
pub open spec fn has_misopened_address(text: Seq<char>) -> bool {
    exists|at: int| #[trigger] has_misopened_address_at(text, at)
}

/// Whether one of `texts` has such a word.
pub open spec fn any_has_misopened_address(texts: Seq<Seq<char>>) -> bool {
    exists|i: int| 0 <= i < texts.len() && has_misopened_address(#[trigger] texts[i])
}

/// Whether `blobs` are few enough and each short enough for the serialiser.
pub open spec fn all_within_sequence_limit(blobs: Seq<Seq<u8>>) -> bool {
    &&& blobs.len() <= MAX_SEQUENCE_LENGTH
    &&& forall|i: int| 0 <= i < blobs.len() ==> (#[trigger] blobs[i]).len() <= MAX_SEQUENCE_LENGTH
}

/// Assumed, not proved: the result is what `aptos_sdk::aptos_bcs::to_bytes`
/// returns for the `TransactionPayload::EntryFunction` made of these parts.
/// That is the one call that the name stands for; `AccountAddress::new`,
/// `Identifier::new`, `TypeTag::from_str_strict` and `EntryFunction::new`
/// only put its argument together, and the result is `None` where one of
/// them refuses its part. All depend on their arguments alone. The function
/// name is not looked at: `EntryFunction::new` takes any string.
///
/// `None` comes in three ways only: `Identifier::new` refuses the module
/// name, `TypeTag::from_str_strict` refuses a type argument, or the
/// serialiser meets a sequence of more than 2^31 - 1 elements. The
/// sequences of a payload are the two names, the list of type arguments, the
/// list of arguments and each argument. Hence the second clause.
///
/// `TypeTag::from_str_strict` panics on some addresses, all of which
/// `requires` leaves out. It removes one prefix from the address, fills what
/// is left with zeros on the left up to 64 characters and hands that to a
/// decoder that removes a prefix of its own. Where the decoder finds one and
/// 62 digits after it, it returns 31 bytes, which do not fill an address.
/// That happens to an address of 62 digits after the marker alone (the zero
/// that is filled in completes a prefix), after the prefix and the marker,
/// or after the prefix twice. An address is the first word of a type tag, of
/// what stands inside `vector<..>`, or of a type argument of a struct, so it
/// begins the text or follows white space, `<` or `,`.
#[verifier::external_body]
fn sdk_entry_function_payload(
    module_address: &[u8; 32],
    module_name: &str,
    function_name: &str,
    type_arguments: &Vec<String>,
    arguments: &Vec<Vec<u8>>,
) -> (encoded: Option<Vec<u8>>)
    requires
        !any_has_misopened_address(texts_view(type_arguments@)),
    ensures
        optional_bytes(encoded) == entry_function_payload(
            module_address@,
            module_name@,
            function_name@,
            texts_view(type_arguments@),
            blobs_view(arguments@),
        ),
        is_valid_identifier(module_name@) && is_valid_identifier(function_name@)
            && type_arguments@.len() == 0 && all_within_sequence_limit(blobs_view(arguments@))
            ==> encoded is Some,
{
    let address = AccountAddress::new(*module_address);
    let module = MoveModuleId::new(address, Identifier::new(module_name).ok()?);
    let tags: Result<Vec<TypeTag>, _> =
        type_arguments.iter().map(|tag| TypeTag::from_str_strict(tag)).collect();
    let entry = EntryFunction::new(module, function_name, tags.ok()?, arguments.clone());
    aptos_bcs::to_bytes(&TransactionPayload::EntryFunction(entry)).ok()
}

/// The canonical bytes of each argument, in order.
pub open spec fn argument_encodings(arguments: Seq<MoveValue>) -> Seq<Seq<u8>> {
    Seq::new(arguments.len(), |i: int| arguments[i].encoding())
}

/// What encoding `call` yields: `InvalidIdentifier` where either name is
/// malformed; `Unencodable` where a type argument has, in the place of an
/// address, a word that opens no address; otherwise whatever the serialiser
/// makes of the call.
pub open spec fn call_encoding(call: FunctionCallView) -> Result<Seq<u8>, EncodingError> {
    if !is_valid_identifier(call.module_name) || !is_valid_identifier(call.function_name) {
        Err(EncodingError::InvalidIdentifier)
    } else if any_has_misopened_address(call.type_arguments) {
        Err(EncodingError::Unencodable)
    } else {
        payload_of_encoding(
            entry_function_payload(
                call.module_address,
                call.module_name,
                call.function_name,
                call.type_arguments,
                argument_encodings(call.arguments),
            ),
        )
    }
}

/// What the serialiser's answer means for a call whose names are well formed.
pub open spec fn payload_of_encoding(encoded: Option<Seq<u8>>) -> Result<Seq<u8>, EncodingError> {
    match encoded {
        Some(bytes) => Ok(bytes),
        None => Err(EncodingError::Unencodable),
    }
}

/// The bytes inside the outcome of an encoding.
pub open spec fn payload_result_view(result: Result<Payload, EncodingError>) -> Result<
    Seq<u8>,
    EncodingError,
> {
    match result {
        Ok(payload) => Ok(payload@),
        Err(e) => Err(e),
    }
}

/// Wraps the serialiser's answer: the bytes become the payload, a refusal
/// becomes `Unencodable`.
pub fn payload_from_encoding(encoded: Option<Vec<u8>>) -> (result: Result<Payload, EncodingError>)
    ensures
        payload_result_view(result) == payload_of_encoding(optional_bytes(encoded)),
{
    match encoded {
        Some(bytes) => Ok(Payload::from_bytes(bytes)),
        None => Err(EncodingError::Unencodable),
    }
}

/// Whether `name` can name a module or a function.
pub fn check_identifier(name: &str) -> (result: Result<(), EncodingError>)
    ensures
        result == if is_valid_identifier(name@) {
            Ok::<(), EncodingError>(())
        } else {
            Err(EncodingError::InvalidIdentifier)
        },
{
    if sdk_accepts_identifier(name) {
        Ok(())
    } else {
        Err(EncodingError::InvalidIdentifier)
    }
}

/// The characters of `text`, one by one.
fn characters(text: &str) -> (chars: Vec<char>)
    ensures
        chars@ == text@,
{
    let mut chars: Vec<char> = Vec::new();
    for c in it: text.chars()
        invariant
            it.seq() == text@,
            chars@ == it.seq().take(it.index() as int),
    {
        chars.push(c);
        assert(chars@ =~= it.seq().take(it.index() + 1));
    }
    assert(chars@ =~= text@);
    chars
}

/// Whether `c` may occur in an identifier.
fn may_occur_in_identifier(c: char) -> (may: bool)
    ensures
        may == is_identifier_char(c),
{
    ('a' <= c && c <= 'z') || ('A' <= c && c <= 'Z') || ('0' <= c && c <= '9') || c == '_'
}

/// Whether `c` is the letter that marks a hexadecimal literal.
fn marks_hex(c: char) -> (marks: bool)
    ensures
        marks == is_hex_marker(c),
{
    c == 'x' || c == 'X'
}

/// Whether `text` has, where an address may stand, a word that opens no
/// address.
pub fn misopens_an_address(text: &str) -> (found: bool)
    ensures
        found == has_misopened_address(text@),
{
    let chars = characters(text);
    let length = chars.len();
    let mut at: usize = 0;
    while at < length
        invariant
            chars@ == text@,
            length == chars.len(),
            at <= length,
            forall|earlier: int| 0 <= earlier < at ==> !has_misopened_address_at(text@, earlier),
        decreases length - at,
    {
        let begins_word = at == 0 || !(may_occur_in_identifier(chars[at - 1]) || chars[at - 1]
            == ':');
        if begins_word {
            let prefixed = length - at >= 2 && chars[at] == '0' && marks_hex(chars[at + 1]);
            let marker_first = marks_hex(chars[at]);
            let marker_next = prefixed && length - at >= 3 && marks_hex(chars[at + 2]);
            let prefix_next = prefixed && length - at >= 4 && chars[at + 2] == '0' && marks_hex(
                chars[at + 3],
            );
            if marker_first || marker_next || prefix_next {
                assert(has_misopened_address_at(text@, at as int));
                return true;
            }
        }
        at = at + 1;
    }
    false
}

/// Whether one of `texts` has such a word.
fn any_misopens_an_address(texts: &Vec<String>) -> (found: bool)
    ensures
        found == any_has_misopened_address(texts_view(texts@)),
{
    let mut next: usize = 0;
    while next < texts.len()
        invariant
            next <= texts.len(),
            forall|i: int|
                0 <= i < next ==> !has_misopened_address(#[trigger] texts_view(texts@)[i]),
        decreases texts.len() - next,
    {
        if misopens_an_address(texts[next].as_str()) {
            assert(has_misopened_address(texts_view(texts@)[next as int]));
            return true;
        }
        next = next + 1;
    }
    false
}

/// Whether encoding `call` is sure to succeed: the names are identifiers,
/// there are no type arguments, and the arguments are within the limit of
/// the serialiser.
pub open spec fn is_plainly_encodable(call: FunctionCallView) -> bool {
    &&& is_valid_identifier(call.module_name)
    &&& is_valid_identifier(call.function_name)
    &&& call.type_arguments.len() == 0
    &&& all_within_sequence_limit(argument_encodings(call.arguments))
}

/// Serialises a call into a payload. The names are checked first, so a
/// malformed identifier is reported before anything else is looked at. A
/// type argument that has, in the place of an address, a word that opens no
/// address is turned away here, before the serialiser sees it. A call
/// without type arguments whose names are identifiers and whose arguments
/// are within the limit of the serialiser is always encoded.
pub fn encode_call(call: &FunctionCall) -> (result: Result<Payload, EncodingError>)
    ensures
        payload_result_view(result) == call_encoding(call@),
        is_plainly_encodable(call@) ==> result is Ok,
{
    if check_identifier(call.module_name()).is_err() {
        return Err(EncodingError::InvalidIdentifier);
    }
    if check_identifier(call.function_name()).is_err() {
        return Err(EncodingError::InvalidIdentifier);
    }
    if any_misopens_an_address(call.type_arguments()) {
        return Err(EncodingError::Unencodable);
    }
    let arguments = serialize_values(call.arguments());
    assert(blobs_view(arguments@) =~= argument_encodings(call@.arguments));
    let address = call.module_address();
    let encoded = sdk_entry_function_payload(
        &address,
        call.module_name(),
        call.function_name(),
        call.type_arguments(),
        &arguments,
    );
    payload_from_encoding(encoded)
}

/// Encoding is deterministic: calls with the same parts encode to the same
/// payload, or fail in the same way.
pub proof fn lemma_encoding_is_deterministic(first: FunctionCallView, second: FunctionCallView)
    requires
        first.module_address =~= second.module_address,
        first.module_name =~= second.module_name,
        first.function_name =~= second.function_name,
        first.type_arguments =~~= second.type_arguments,
        first.arguments =~= second.arguments,
    ensures
        call_encoding(first) == call_encoding(second),
{
}

/// A name with a character that no identifier may hold is rejected, whatever
/// the rest of the call looks like.
pub proof fn lemma_invalid_character_is_rejected(call: FunctionCallView, position: int)
    requires
        (0 <= position < call.module_name.len() && !is_identifier_char(
            call.module_name[position],
        )) || (0 <= position < call.function_name.len() && !is_identifier_char(
            call.function_name[position],
        )),
    ensures
        call_encoding(call) == Err::<Seq<u8>, EncodingError>(EncodingError::InvalidIdentifier),
{
}

/// So is an empty name.
pub proof fn lemma_empty_name_is_rejected(call: FunctionCallView)
    requires
        call.module_name.len() == 0 || call.function_name.len() == 0,
    ensures
        call_encoding(call) == Err::<Seq<u8>, EncodingError>(EncodingError::InvalidIdentifier),
{
}

} // verus!
