//! The send-message use case: moderate, encrypt, then transmit.
//!
//! The use case talks to three ports in turn and decides after each answer
//! what to do next.  Those decisions are the functions below, each from the
//! use case's input and the port's answer to the next step: the next port
//! request, or the final result.  The driver that performs the requests
//! against real ports only carries the answers back.
//!
//! The order is:
//! 1. validate the input against the domain rules: content over
//!    `MAX_MESSAGE_SIZE` bytes, or a direct message addressed to its own
//!    sender, ends the use case with a domain error before any port is asked
//!    anything;
//! 2. analyse the plaintext with the moderation port;
//! 3. if a violation is detected, stop: the result says moderation was
//!    triggered and nothing is encrypted nor sent;
//! 4. otherwise encrypt the plaintext with the crypto port in the given session;
//! 5. hand the ciphertext to the transport port: in a direct chat straight
//!    to the other participant, in a group chat as a broadcast;
//! 6. report success with a fresh message identifier.
//! A port error ends the use case with that error, wrapped.

use vstd::prelude::*;

use crate::application::ports::crypto_port::CryptoError;
use crate::application::ports::messaging_port::TransportError;
use crate::application::ports::moderation_port::ModerationError;
use crate::application::ports::storage_port::StorageError;
use crate::domain::errors::DomainError;
use crate::domain::value_objects::{
    ChatId, MessageContent, MessageId, SessionId, UserId, utf8_size, MAX_MESSAGE_SIZE,
};
use crate::platform::is_random_uuid;

verus! {

/// Where the ciphertext of a message goes.
#[derive(Debug)]
pub enum Recipient {
    /// Straight to this user, the other participant of a direct chat.
    Direct(UserId),
    /// To all connected peers, for a group chat.
    Group,
}

/// Input data for the send message use case.
#[derive(Debug)]
pub struct SendMessageInput {
    /// The chat to send the message to.
    pub chat_id: ChatId,
    /// The sender's user identifier.
    pub sender_id: UserId,
    /// The plaintext message content.
    pub content: String,
    /// The E2EE session to use for encryption.
    pub session_id: SessionId,
    /// Where the encrypted message goes.
    pub recipient: Recipient,
}

/// Output data for the send message use case.
#[derive(Debug)]
pub struct SendMessageOutput {
    /// The unique identifier of the sent message.
    pub message_id: MessageId,
    /// Whether a moderation violation was detected.
    pub moderation_triggered: bool,
}

/// Errors that can occur during the send message use case.
#[derive(Debug)]
pub enum SendMessageError {
    /// A cryptographic operation failed.
    Crypto(CryptoError),
    /// A transport operation failed.
    Transport(TransportError),
    /// A storage operation failed.
    Storage(StorageError),
    /// A moderation operation failed.
    Moderation(ModerationError),
    /// The input breaks a domain rule.
    Domain(DomainError),
}

impl SendMessageError {
    /// The human-readable description of the error.
    pub open spec fn text(&self) -> Seq<char> {
        match self {
            SendMessageError::Crypto(e) => "Crypto error: "@ + e.text(),
            SendMessageError::Transport(e) => "Transport error: "@ + e.text(),
            SendMessageError::Storage(e) => "Storage error: "@ + e.text(),
            SendMessageError::Moderation(e) => "Moderation error: "@ + e.text(),
            SendMessageError::Domain(e) => "Domain error: "@ + e.text(),
        }
    }

    /// Writes the human-readable description of the error.
    pub fn to_string(&self) -> (r: String)
        ensures
            r@ == self.text(),
    {
        let (mut r, t) = match self {
            SendMessageError::Crypto(e) => (String::from_str("Crypto error: "), e.to_string()),
            SendMessageError::Transport(e) => (
                String::from_str("Transport error: "),
                e.to_string(),
            ),
            SendMessageError::Storage(e) => (String::from_str("Storage error: "), e.to_string()),
            SendMessageError::Moderation(e) => (
                String::from_str("Moderation error: "),
                e.to_string(),
            ),
            SendMessageError::Domain(e) => (String::from_str("Domain error: "), e.to_string()),
        };
        r.append(t.as_str());
        r
    }
}

impl From<CryptoError> for SendMessageError {
    fn from(e: CryptoError) -> (r: Self) {
        SendMessageError::Crypto(e)
    }
}

impl vstd::std_specs::convert::FromSpecImpl<CryptoError> for SendMessageError {
    open spec fn obeys_from_spec() -> bool {
        true
    }

    open spec fn from_spec(v: CryptoError) -> Self {
        SendMessageError::Crypto(v)
    }
}

impl From<TransportError> for SendMessageError {
    fn from(e: TransportError) -> (r: Self) {
        SendMessageError::Transport(e)
    }
}

impl vstd::std_specs::convert::FromSpecImpl<TransportError> for SendMessageError {
    open spec fn obeys_from_spec() -> bool {
        true
    }

    open spec fn from_spec(v: TransportError) -> Self {
        SendMessageError::Transport(v)
    }
}

impl From<StorageError> for SendMessageError {
    fn from(e: StorageError) -> (r: Self) {
        SendMessageError::Storage(e)
    }
}

impl vstd::std_specs::convert::FromSpecImpl<StorageError> for SendMessageError {
    open spec fn obeys_from_spec() -> bool {
        true
    }

    open spec fn from_spec(v: StorageError) -> Self {
        SendMessageError::Storage(v)
    }
}

impl From<ModerationError> for SendMessageError {
    fn from(e: ModerationError) -> (r: Self) {
        SendMessageError::Moderation(e)
    }
}

impl vstd::std_specs::convert::FromSpecImpl<ModerationError> for SendMessageError {
    open spec fn obeys_from_spec() -> bool {
        true
    }

    open spec fn from_spec(v: ModerationError) -> Self {
        SendMessageError::Moderation(v)
    }
}

impl From<DomainError> for SendMessageError {
    fn from(e: DomainError) -> (r: Self) {
        SendMessageError::Domain(e)
    }
}

impl vstd::std_specs::convert::FromSpecImpl<DomainError> for SendMessageError {
    open spec fn obeys_from_spec() -> bool {
        true
    }

    open spec fn from_spec(v: DomainError) -> Self {
        SendMessageError::Domain(v)
    }
}

/// `step` ends the use case because `content` is over the size limit.
pub open spec fn is_too_large_end(step: SendMessageStep, content: Seq<char>) -> bool {
    &&& step matches SendMessageStep::Finished(
        Err(SendMessageError::Domain(DomainError::MessageTooLarge { actual, max })),
    )
    &&& actual == utf8_size(content)
    &&& max == MAX_MESSAGE_SIZE
}

/// `input` addresses a direct message to its own sender.
pub open spec fn is_self_addressed(input: SendMessageInput) -> bool {
    input.recipient matches Recipient::Direct(r) && r@ == input.sender_id@
}

/// `input` meets the domain rules: content within the size limit, and not
/// addressed to its own sender.
pub open spec fn is_valid_input(input: SendMessageInput) -> bool {
    utf8_size(input.content@) <= MAX_MESSAGE_SIZE && !is_self_addressed(input)
}

/// `e` is the error owed to an input that breaks the domain rules: the size
/// limit is checked first, then the address.
pub open spec fn is_input_error(e: DomainError, input: SendMessageInput) -> bool {
    if utf8_size(input.content@) > MAX_MESSAGE_SIZE {
        &&& e matches DomainError::MessageTooLarge { actual, max }
        &&& actual == utf8_size(input.content@)
        &&& max == MAX_MESSAGE_SIZE
    } else {
        &&& e matches DomainError::InvalidOperation { reason }
        &&& reason@ == "Cannot send a message to yourself"@
    }
}

/// `step` ends the use case with the error owed to an invalid `input`.
pub open spec fn is_rejection_of(step: SendMessageStep, input: SendMessageInput) -> bool {
    step matches SendMessageStep::Finished(Err(SendMessageError::Domain(e))) && is_input_error(
        e,
        input,
    )
}

/// Checks `input` against the domain rules.
fn validate(input: &SendMessageInput) -> (r: Option<DomainError>)
    ensures
        is_valid_input(*input) ==> r is None,
        !is_valid_input(*input) ==> (r matches Some(e) && is_input_error(e, *input)),
{
    if let Some(e) = content_too_large(&input.content) {
        return Some(e);
    }
    match &input.recipient {
        Recipient::Direct(r) => {
            if *r == input.sender_id {
                return Some(
                    DomainError::InvalidOperation {
                        reason: String::from_str("Cannot send a message to yourself"),
                    },
                );
            }
            None
        },
        Recipient::Group => None,
    }
}

/// Checks `content` against the size limit, without keeping it.
fn content_too_large(content: &String) -> (r: Option<DomainError>)
    ensures
        utf8_size(content@) > MAX_MESSAGE_SIZE ==> (r matches Some(
            DomainError::MessageTooLarge { actual, max },
        ) && actual == utf8_size(content@) && max == MAX_MESSAGE_SIZE),
        utf8_size(content@) <= MAX_MESSAGE_SIZE ==> r is None,
{
    match MessageContent::try_new(content.clone()) {
        Ok(_) => None,
        Err(e) => Some(e),
    }
}

/// What the use case asks for next.
#[derive(Debug)]
pub enum SendMessageStep {
    /// Ask the moderation port to analyse this content; answer with whether
    /// a violation was detected, or the port's error.
    AnalyzeContent { content: String },
    /// Ask the crypto port to encrypt `plaintext` (its UTF-8 bytes) in session
    /// `session_id`; answer with the ciphertext, or the port's error.
    Encrypt { session_id: SessionId, plaintext: String },
    /// Ask the transport port to send `ciphertext` to `recipient`; answer
    /// with success, or the port's error.
    Transmit { recipient: UserId, ciphertext: Vec<u8> },
    /// Ask the transport port to broadcast `ciphertext` to all connected
    /// peers; answer with success, or the port's error.
    Broadcast { ciphertext: Vec<u8> },
    /// The use case is over, with this result.
    Finished(Result<SendMessageOutput, SendMessageError>),
}

/// `step` ends the use case successfully, with a fresh message identifier and
/// the given moderation flag.
pub open spec fn is_success(step: SendMessageStep, moderation_triggered: bool) -> bool {
    &&& step matches SendMessageStep::Finished(Ok(out))
    &&& out.moderation_triggered == moderation_triggered
    &&& is_random_uuid(out.message_id@)
}

/// The first step: validate the input, then moderate the plaintext.
///
/// Content over `MAX_MESSAGE_SIZE` bytes ends the use case at once with
/// `SendMessageError::Domain(DomainError::MessageTooLarge { .. })`, and a
/// direct message to the sender itself with
/// `SendMessageError::Domain(DomainError::InvalidOperation { .. })`.
pub fn start(input: &SendMessageInput) -> (step: SendMessageStep)
    ensures
        utf8_size(input.content@) > MAX_MESSAGE_SIZE ==> is_too_large_end(step, input.content@),
        !is_valid_input(*input) ==> is_rejection_of(step, *input),
        is_valid_input(*input) ==> (step matches SendMessageStep::AnalyzeContent { content }
            && content@ == input.content@),
{
    match validate(input) {
        Some(e) => SendMessageStep::Finished(Err(SendMessageError::Domain(e))),
        None => SendMessageStep::AnalyzeContent { content: input.content.clone() },
    }
}

/// The step after the moderation port answered `violation_detected` (or failed).
///
/// A detected violation ends the use case at once: the content is neither
/// encrypted nor sent, and the result reports that moderation was triggered.
/// An input that breaks the domain rules is never handed to encryption either.
pub fn after_moderation(
    input: &SendMessageInput,
    violation_detected: Result<bool, ModerationError>,
) -> (step: SendMessageStep)
    ensures
        violation_detected matches Err(e) ==> step == SendMessageStep::Finished(
            Err(SendMessageError::Moderation(e)),
        ),
        violation_detected == Ok::<bool, ModerationError>(true) ==> is_success(step, true),
        violation_detected == Ok::<bool, ModerationError>(false) && is_valid_input(*input) ==> (
        step matches SendMessageStep::Encrypt { session_id, plaintext } && session_id@
            == input.session_id@ && plaintext@ == input.content@),
        violation_detected == Ok::<bool, ModerationError>(false) && !is_valid_input(*input)
            ==> is_rejection_of(step, *input),
{
    match violation_detected {
        Err(e) => SendMessageStep::Finished(Err(SendMessageError::Moderation(e))),
        Ok(true) => SendMessageStep::Finished(
            Ok(SendMessageOutput { message_id: MessageId::random(), moderation_triggered: true }),
        ),
        Ok(false) => match validate(input) {
            Some(e) => SendMessageStep::Finished(Err(SendMessageError::Domain(e))),
            None => SendMessageStep::Encrypt {
                session_id: input.session_id.clone(),
                plaintext: input.content.clone(),
            },
        },
    }
}

/// The step after the crypto port answered with a ciphertext (or failed).
///
/// The ciphertext goes to the transport port unchanged: straight to the
/// recipient of a direct message, or as a broadcast for a group.  It never
/// goes back to its own sender: such an input is rejected instead.
pub fn after_encryption(input: &SendMessageInput, ciphertext: Result<Vec<u8>, CryptoError>) -> (step:
    SendMessageStep)
    ensures
        ciphertext matches Err(e) ==> step == SendMessageStep::Finished(
            Err(SendMessageError::Crypto(e)),
        ),
        ciphertext is Ok && !is_valid_input(*input) ==> is_rejection_of(step, *input),
        ciphertext matches Ok(c) ==> is_valid_input(*input) ==> match input.recipient {
            Recipient::Direct(to) => {
                &&& step matches SendMessageStep::Transmit { recipient, ciphertext: sent }
                &&& recipient@ == to@
                &&& recipient@ != input.sender_id@
                &&& sent@ == c@
            },
            Recipient::Group => step matches SendMessageStep::Broadcast { ciphertext: sent }
                && sent@ == c@,
        },
{
    match ciphertext {
        Err(e) => SendMessageStep::Finished(Err(SendMessageError::Crypto(e))),
        Ok(c) => match validate(input) {
            Some(e) => SendMessageStep::Finished(Err(SendMessageError::Domain(e))),
            None => match &input.recipient {
                Recipient::Direct(to) => SendMessageStep::Transmit {
                    recipient: to.clone(),
                    ciphertext: c,
                },
                Recipient::Group => SendMessageStep::Broadcast { ciphertext: c },
            },
        },
    }
}

/// The step after the transport port answered a transmission or a broadcast
/// (or failed): the end.
pub fn after_transmission(sent: Result<(), TransportError>) -> (step: SendMessageStep)
    ensures
        sent matches Err(e) ==> step == SendMessageStep::Finished(
            Err(SendMessageError::Transport(e)),
        ),
        sent is Ok ==> is_success(step, false),
{
    match sent {
        Err(e) => SendMessageStep::Finished(Err(SendMessageError::Transport(e))),
        Ok(()) => SendMessageStep::Finished(
            Ok(SendMessageOutput { message_id: MessageId::random(), moderation_triggered: false }),
        ),
    }
}

} // verus!
