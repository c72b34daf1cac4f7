//! Value objects: immutable domain primitives compared by value.
//!
//! Identifiers are strings; `MessageContent` is text of bounded size;
//! `Timestamp` is a count of milliseconds since the Unix epoch and
//! `MessageId` a UUID read as a big-endian 128-bit number.

use vstd::prelude::*;

use crate::domain::errors::DomainError;
use crate::platform::{current_millis, is_random_uuid, random_uuid_value, uuid_string};
use crate::render::uuid_text;

verus! {

/// The text of a freshly drawn random UUID: some version 4 UUID, hyphenated.
pub open spec fn is_random_uuid_text(s: Seq<char>) -> bool {
    exists|v: u128| is_random_uuid(v) && s == uuid_text(v)
}

/// Draws a random UUID and renders it as text.
pub(crate) fn random_uuid_string() -> (s: String)
    ensures
        is_random_uuid_text(s@),
{
    let v = random_uuid_value();
    let s = uuid_string(v);
    assert(is_random_uuid(v) && s@ == uuid_text(v));
    s
}

/// Unique identifier for a user in the Presidium network.
///
/// A string-based value object, typically derived from the user's public key
/// fingerprint or a human-readable alias.
#[derive(Debug, Hash)]
pub struct UserId(String);

impl View for UserId {
    type V = Seq<char>;

    closed spec fn view(&self) -> Seq<char> {
        self.0@
    }
}

impl UserId {
    /// Creates a new `UserId` from a string.
    pub fn new(id: String) -> (r: Self)
        ensures
            r@ == id@,
    {
        UserId(id)
    }

    /// Returns the identifier's text.
    pub fn as_str(&self) -> (r: &str)
        ensures
            r@ == self@,
    {
        self.0.as_str()
    }

    /// Generates a random `UserId`: the text of a fresh version 4 UUID.
    pub fn random() -> (r: Self)
        ensures
            is_random_uuid_text(r@),
    {
        UserId(random_uuid_string())
    }

    /// The identifier's display text: the identifier itself.
    pub fn to_string(&self) -> (r: String)
        ensures
            r@ == self@,
    {
        self.0.clone()
    }
}

impl Clone for UserId {
    fn clone(&self) -> (r: Self)
        ensures
            r@ == self@,
    {
        UserId(self.0.clone())
    }
}

impl PartialEq for UserId {
    fn eq(&self, other: &Self) -> (r: bool) {
        self.0 == other.0
    }
}

impl vstd::std_specs::cmp::PartialEqSpecImpl for UserId {
    open spec fn obeys_eq_spec() -> bool {
        true
    }

    open spec fn eq_spec(&self, other: &Self) -> bool {
        self@ == other@
    }
}

impl Eq for UserId {}

/// Unique identifier for a device within a user's device fleet.
///
/// Each device has its own E2EE session and pre-key bundle.
#[derive(Debug, Hash)]
pub struct DeviceId(String);

impl View for DeviceId {
    type V = Seq<char>;

    closed spec fn view(&self) -> Seq<char> {
        self.0@
    }
}

impl DeviceId {
    /// Creates a new `DeviceId` from a string.
    pub fn new(id: String) -> (r: Self)
        ensures
            r@ == id@,
    {
        DeviceId(id)
    }

    /// Returns the identifier's text.
    pub fn as_str(&self) -> (r: &str)
        ensures
            r@ == self@,
    {
        self.0.as_str()
    }

    /// Generates a random `DeviceId`: the text of a fresh version 4 UUID.
    pub fn random() -> (r: Self)
        ensures
            is_random_uuid_text(r@),
    {
        DeviceId(random_uuid_string())
    }

    /// The identifier's display text: the identifier itself.
    pub fn to_string(&self) -> (r: String)
        ensures
            r@ == self@,
    {
        self.0.clone()
    }
}

impl Clone for DeviceId {
    fn clone(&self) -> (r: Self)
        ensures
            r@ == self@,
    {
        DeviceId(self.0.clone())
    }
}

impl PartialEq for DeviceId {
    fn eq(&self, other: &Self) -> (r: bool) {
        self.0 == other.0
    }
}

impl vstd::std_specs::cmp::PartialEqSpecImpl for DeviceId {
    open spec fn obeys_eq_spec() -> bool {
        true
    }

    open spec fn eq_spec(&self, other: &Self) -> bool {
        self@ == other@
    }
}

impl Eq for DeviceId {}

/// Unique identifier for an E2EE session between two devices.
///
/// Each session corresponds to a Double Ratchet instance.
#[derive(Debug, Hash)]
pub struct SessionId(String);

impl View for SessionId {
    type V = Seq<char>;

    closed spec fn view(&self) -> Seq<char> {
        self.0@
    }
}

impl SessionId {
    /// Creates a new `SessionId` from a string.
    pub fn new(id: String) -> (r: Self)
        ensures
            r@ == id@,
    {
        SessionId(id)
    }

    /// Returns the identifier's text.
    pub fn as_str(&self) -> (r: &str)
        ensures
            r@ == self@,
    {
        self.0.as_str()
    }

    /// Generates a random `SessionId`: the text of a fresh version 4 UUID.
    pub fn random() -> (r: Self)
        ensures
            is_random_uuid_text(r@),
    {
        SessionId(random_uuid_string())
    }

    /// The identifier's display text: the identifier itself.
    pub fn to_string(&self) -> (r: String)
        ensures
            r@ == self@,
    {
        self.0.clone()
    }
}

impl Clone for SessionId {
    fn clone(&self) -> (r: Self)
        ensures
            r@ == self@,
    {
        SessionId(self.0.clone())
    }
}

impl PartialEq for SessionId {
    fn eq(&self, other: &Self) -> (r: bool) {
        self.0 == other.0
    }
}

impl vstd::std_specs::cmp::PartialEqSpecImpl for SessionId {
    open spec fn obeys_eq_spec() -> bool {
        true
    }

    open spec fn eq_spec(&self, other: &Self) -> bool {
        self@ == other@
    }
}

impl Eq for SessionId {}

/// Unique identifier for a chat (1:1 or group).
#[derive(Debug, Hash)]
pub struct ChatId(String);

impl View for ChatId {
    type V = Seq<char>;

    closed spec fn view(&self) -> Seq<char> {
        self.0@
    }
}

impl ChatId {
    /// Creates a new `ChatId` from a string.
    pub fn new(id: String) -> (r: Self)
        ensures
            r@ == id@,
    {
        ChatId(id)
    }

    /// Returns the identifier's text.
    pub fn as_str(&self) -> (r: &str)
        ensures
            r@ == self@,
    {
        self.0.as_str()
    }

    /// Generates a random `ChatId`: the text of a fresh version 4 UUID.
    pub fn random() -> (r: Self)
        ensures
            is_random_uuid_text(r@),
    {
        ChatId(random_uuid_string())
    }

    /// The identifier's display text: the identifier itself.
    pub fn to_string(&self) -> (r: String)
        ensures
            r@ == self@,
    {
        self.0.clone()
    }
}

impl Clone for ChatId {
    fn clone(&self) -> (r: Self)
        ensures
            r@ == self@,
    {
        ChatId(self.0.clone())
    }
}

impl PartialEq for ChatId {
    fn eq(&self, other: &Self) -> (r: bool) {
        self.0 == other.0
    }
}

impl vstd::std_specs::cmp::PartialEqSpecImpl for ChatId {
    open spec fn obeys_eq_spec() -> bool {
        true
    }

    open spec fn eq_spec(&self, other: &Self) -> bool {
        self@ == other@
    }
}

impl Eq for ChatId {}

/// Maximum message content size in bytes (64 KB).
pub const MAX_MESSAGE_SIZE: usize = 65536;

/// The size in bytes of text `s` encoded as UTF-8, as `str::len` reports it.
pub open spec fn utf8_size(s: Seq<char>) -> nat {
    vstd::utf8::encode_utf8(s).len()
}

/// Text takes no bytes exactly when it has no characters: every character
/// encodes to at least one byte.
pub proof fn lemma_utf8_size_zero(s: Seq<char>)
    ensures
        (utf8_size(s) == 0) == (s.len() == 0),
{
    if s.len() > 0 {
        assert(vstd::utf8::encode_scalar(s[0] as u32).len() >= 1);
        assert(vstd::utf8::encode_utf8(s) == vstd::utf8::encode_scalar(s[0] as u32)
            + vstd::utf8::encode_utf8(s.drop_first()));
    }
}

/// The content of a message, with enforced size limits.
///
/// Message content is limited to 64 KB of UTF-8 to prevent abuse and keep
/// P2P transmission efficient.
#[derive(Debug)]
pub struct MessageContent(String);

impl View for MessageContent {
    type V = Seq<char>;

    closed spec fn view(&self) -> Seq<char> {
        self.0@
    }
}

impl MessageContent {
    #[verifier::type_invariant]
    spec fn within_limit(self) -> bool {
        utf8_size(self.0@) <= MAX_MESSAGE_SIZE
    }

    /// Creates a new `MessageContent` after validating its size.
    ///
    /// Fails with `DomainError::MessageTooLarge` exactly when the content is
    /// more than `MAX_MESSAGE_SIZE` bytes long.
    pub fn try_new(content: String) -> (r: Result<Self, DomainError>)
        ensures
            utf8_size(content@) <= MAX_MESSAGE_SIZE ==> (r matches Ok(c) && c@ == content@),
            utf8_size(content@) > MAX_MESSAGE_SIZE ==> (r matches Err(
                DomainError::MessageTooLarge { actual, max },
            ) && actual == utf8_size(content@) && max == MAX_MESSAGE_SIZE),
    {
        let size = content.as_str().as_bytes().len();
        if size > MAX_MESSAGE_SIZE {
            return Err(DomainError::MessageTooLarge { actual: size, max: MAX_MESSAGE_SIZE });
        }
        Ok(MessageContent(content))
    }

    /// Returns the message text.
    pub fn as_str(&self) -> (r: &str)
        ensures
            r@ == self@,
    {
        self.0.as_str()
    }

    /// Returns the length of the content in bytes (UTF-8).
    pub fn len(&self) -> (r: usize)
        ensures
            r == utf8_size(self@),
            r <= MAX_MESSAGE_SIZE,
    {
        proof {
            use_type_invariant(self);
        }
        self.0.as_str().as_bytes().len()
    }

    /// Returns `true` if the content is empty.
    pub fn is_empty(&self) -> (r: bool)
        ensures
            r == (self@.len() == 0),
            r == (utf8_size(self@) == 0),
    {
        proof {
            lemma_utf8_size_zero(self@);
        }
        self.0.as_str().is_empty()
    }
}

impl Clone for MessageContent {
    fn clone(&self) -> (r: Self)
        ensures
            r@ == self@,
    {
        proof {
            use_type_invariant(self);
        }
        MessageContent(self.0.clone())
    }
}

impl PartialEq for MessageContent {
    fn eq(&self, other: &Self) -> (r: bool) {
        self.0 == other.0
    }
}

impl vstd::std_specs::cmp::PartialEqSpecImpl for MessageContent {
    open spec fn obeys_eq_spec() -> bool {
        true
    }

    open spec fn eq_spec(&self, other: &Self) -> bool {
        self@ == other@
    }
}

impl Eq for MessageContent {}

/// The type of a chat: a 1:1 private conversation or a group chat.
#[derive(Debug, Clone, Copy, PartialEq, Eq, Structural, Hash)]
pub enum ChatType {
    /// Direct 1:1 encrypted conversation.
    Direct,
    /// Group conversation with multiple participants.
    Group,
}

/// A point in time: milliseconds since the Unix epoch.
#[derive(Debug, Clone, Copy, PartialEq, Eq, Structural, Hash)]
pub struct Timestamp(i64);

impl View for Timestamp {
    type V = int;

    closed spec fn view(&self) -> int {
        self.0 as int
    }
}

impl Timestamp {
    /// Creates a timestamp from milliseconds since the Unix epoch.
    pub fn new(millis: i64) -> (r: Self)
        ensures
            r@ == millis,
    {
        Timestamp(millis)
    }

    /// Returns the milliseconds since the Unix epoch.
    pub fn as_millis(&self) -> (r: i64)
        ensures
            r == self@,
    {
        self.0
    }

    /// The current time, read from the system clock.
    pub fn now() -> (r: Self)
        ensures
            r@ >= 0,
    {
        Timestamp(current_millis())
    }
}

/// Unique message identifier: a UUID, read as a big-endian 128-bit number.
#[derive(Debug, Clone, Copy, PartialEq, Eq, Structural, Hash)]
pub struct MessageId(u128);

impl View for MessageId {
    type V = u128;

    closed spec fn view(&self) -> u128 {
        self.0
    }
}

impl MessageId {
    /// Generates a random (version 4) message identifier.
    pub fn random() -> (r: Self)
        ensures
            is_random_uuid(r@),
    {
        MessageId(random_uuid_value())
    }

    /// The identifier's display text: the hyphenated lowercase UUID.
    pub fn to_string(&self) -> (r: String)
        ensures
            r@ == uuid_text(self@),
    {
        uuid_string(self.0)
    }
}

} // verus!
