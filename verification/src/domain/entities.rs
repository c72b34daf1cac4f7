//! Entities: domain objects with an identity and a lifecycle.
//!
//! Each entity has a view, a plain mathematical record of its fields, over
//! which the contracts below are written.  Times are milliseconds since the
//! Unix epoch, read from the system clock when an entity changes.

use vstd::prelude::*;

use crate::domain::errors::DomainError;
use crate::domain::value_objects::{
    ChatId, ChatType, DeviceId, MessageContent, MessageId, Timestamp, UserId,
    is_random_uuid_text, random_uuid_string, utf8_size, MAX_MESSAGE_SIZE,
};
use crate::platform::is_random_uuid;

verus! {

/// What a `Device` holds.
pub struct DeviceView {
    pub device_id: Seq<char>,
    pub name: Seq<char>,
    pub is_online: bool,
    pub registered_at: int,
    pub last_seen_at: int,
}

/// A device registered to a user, with its own E2EE key material.
#[derive(Debug)]
pub struct Device {
    device_id: DeviceId,
    name: String,
    is_online: bool,
    registered_at: Timestamp,
    last_seen_at: Timestamp,
}

impl View for Device {
    type V = DeviceView;

    closed spec fn view(&self) -> DeviceView {
        DeviceView {
            device_id: self.device_id@,
            name: self.name@,
            is_online: self.is_online,
            registered_at: self.registered_at@,
            last_seen_at: self.last_seen_at@,
        }
    }
}

impl Device {
    /// Creates a new device, offline, registered and last seen now.
    pub fn new(device_id: DeviceId, name: String) -> (r: Self)
        ensures
            r@.device_id == device_id@,
            r@.name == name@,
            !r@.is_online,
            r@.registered_at == r@.last_seen_at,
            r@.registered_at >= 0,
    {
        let now = Timestamp::now();
        Device { device_id, name, is_online: false, registered_at: now, last_seen_at: now }
    }

    /// Returns the device's identifier.
    pub fn device_id(&self) -> (r: &DeviceId)
        ensures
            r@ == self@.device_id,
    {
        &self.device_id
    }

    /// Returns the device name.
    pub fn name(&self) -> (r: &str)
        ensures
            r@ == self@.name,
    {
        self.name.as_str()
    }

    /// Returns whether the device is currently online.
    pub fn is_online(&self) -> (r: bool)
        ensures
            r == self@.is_online,
    {
        self.is_online
    }

    /// Marks the device as online, seen now.
    pub fn set_online(&mut self)
        ensures
            final(self)@.is_online,
            final(self)@.device_id == old(self)@.device_id,
            final(self)@.name == old(self)@.name,
            final(self)@.registered_at == old(self)@.registered_at,
            final(self)@.last_seen_at >= 0,
    {
        self.is_online = true;
        self.last_seen_at = Timestamp::now();
    }

    /// Marks the device as offline, seen now.
    pub fn set_offline(&mut self)
        ensures
            !final(self)@.is_online,
            final(self)@.device_id == old(self)@.device_id,
            final(self)@.name == old(self)@.name,
            final(self)@.registered_at == old(self)@.registered_at,
            final(self)@.last_seen_at >= 0,
    {
        self.is_online = false;
        self.last_seen_at = Timestamp::now();
    }
}

impl Clone for Device {
    fn clone(&self) -> (r: Self)
        ensures
            r@ == self@,
    {
        Device {
            device_id: self.device_id.clone(),
            name: self.name.clone(),
            is_online: self.is_online,
            registered_at: self.registered_at,
            last_seen_at: self.last_seen_at,
        }
    }
}

/// Two devices are the same device when their identifiers are equal.
impl PartialEq for Device {
    fn eq(&self, other: &Self) -> (r: bool) {
        self.device_id == other.device_id
    }
}

impl vstd::std_specs::cmp::PartialEqSpecImpl for Device {
    open spec fn obeys_eq_spec() -> bool {
        true
    }

    open spec fn eq_spec(&self, other: &Self) -> bool {
        self@.device_id == other@.device_id
    }
}

impl Eq for Device {}

/// The views of a sequence of devices.
pub open spec fn device_views(devices: Seq<Device>) -> Seq<DeviceView> {
    devices.map_values(|d: Device| d@)
}

/// `i` is the position of the first device in `devices` whose identifier is `id`.
pub open spec fn is_first_device_with(devices: Seq<DeviceView>, id: Seq<char>, i: int) -> bool {
    &&& 0 <= i < devices.len()
    &&& devices[i].device_id == id
    &&& forall|j: int| 0 <= j < i ==> devices[j].device_id != id
}

/// A device that was just added is found by its identifier: `find_device`
/// then returns the first device with that identifier, which is the added
/// one unless an earlier device already had it.
pub proof fn law_added_device_is_found(devices: Seq<DeviceView>, added: DeviceView)
    ensures
        exists|i: int| is_first_device_with(devices.push(added), added.device_id, i),
        (forall|j: int| 0 <= j < devices.len() ==> devices[j].device_id != added.device_id)
            ==> is_first_device_with(devices.push(added), added.device_id, devices.len() as int),
{
    let all = devices.push(added);
    if exists|j: int| 0 <= j < devices.len() && devices[j].device_id == added.device_id {
        let k = choose|j: int| 0 <= j < devices.len() && devices[j].device_id == added.device_id;
        lemma_first_device_exists(all, added.device_id, k);
    } else {
        assert(is_first_device_with(all, added.device_id, devices.len() as int));
    }
}

/// If some device has identifier `id`, a first one does.
proof fn lemma_first_device_exists(devices: Seq<DeviceView>, id: Seq<char>, k: int)
    requires
        0 <= k < devices.len(),
        devices[k].device_id == id,
    ensures
        exists|i: int| is_first_device_with(devices, id, i),
    decreases k,
{
    if forall|j: int| 0 <= j < k ==> devices[j].device_id != id {
        assert(is_first_device_with(devices, id, k));
    } else {
        let j = choose|j: int| 0 <= j < k && devices[j].device_id == id;
        lemma_first_device_exists(devices, id, j);
    }
}

/// What a `User` holds.
pub struct UserView {
    pub user_id: Seq<char>,
    pub display_name: Option<Seq<char>>,
    pub devices: Seq<DeviceView>,
    pub created_at: int,
    pub last_active_at: int,
}

/// A user of the Presidium network, who may own several devices.
#[derive(Debug)]
pub struct User {
    user_id: UserId,
    display_name: Option<String>,
    devices: Vec<Device>,
    created_at: Timestamp,
    last_active_at: Timestamp,
}

impl View for User {
    type V = UserView;

    closed spec fn view(&self) -> UserView {
        UserView {
            user_id: self.user_id@,
            display_name: match self.display_name {
                Some(n) => Some(n@),
                None => None,
            },
            devices: device_views(self.devices@),
            created_at: self.created_at@,
            last_active_at: self.last_active_at@,
        }
    }
}

impl User {
    /// Creates a new user with the given identifier, no display name and no devices.
    pub fn new(user_id: UserId) -> (r: Self)
        ensures
            r@.user_id == user_id@,
            r@.display_name is None,
            r@.devices.len() == 0,
            r@.created_at == r@.last_active_at,
            r@.created_at >= 0,
    {
        let now = Timestamp::now();
        let r = User {
            user_id,
            display_name: None,
            devices: Vec::new(),
            created_at: now,
            last_active_at: now,
        };
        assert(r@.devices =~= Seq::<DeviceView>::empty());
        r
    }

    /// Returns the user's identifier.
    pub fn user_id(&self) -> (r: &UserId)
        ensures
            r@ == self@.user_id,
    {
        &self.user_id
    }

    /// Returns the display name, if set.
    pub fn display_name(&self) -> (r: Option<&str>)
        ensures
            match r {
                Some(n) => self@.display_name == Some(n@),
                None => self@.display_name is None,
            },
    {
        match &self.display_name {
            Some(n) => Some(n.as_str()),
            None => None,
        }
    }

    /// Sets or updates the display name; the user was active now.
    pub fn set_display_name(&mut self, name: String)
        ensures
            final(self)@.display_name == Some(name@),
            final(self)@.user_id == old(self)@.user_id,
            final(self)@.devices == old(self)@.devices,
            final(self)@.created_at == old(self)@.created_at,
            final(self)@.last_active_at >= 0,
    {
        self.display_name = Some(name);
        self.last_active_at = Timestamp::now();
    }

    /// Returns the user's devices, in the order they were added.
    pub fn devices(&self) -> (r: &[Device])
        ensures
            device_views(r@) == self@.devices,
    {
        self.devices.as_slice()
    }

    /// Registers a new device for this user; the user was active now.
    pub fn add_device(&mut self, device: Device)
        ensures
            final(self)@.devices == old(self)@.devices.push(device@),
            final(self)@.user_id == old(self)@.user_id,
            final(self)@.display_name == old(self)@.display_name,
            final(self)@.created_at == old(self)@.created_at,
            final(self)@.last_active_at >= 0,
    {
        let ghost dv = device@;
        self.devices.push(device);
        self.last_active_at = Timestamp::now();
        assert(device_views(self.devices@) =~= device_views(old(self).devices@).push(dv));
    }

    /// Finds the first device with the given identifier.
    pub fn find_device(&self, device_id: &DeviceId) -> (r: Option<&Device>)
        ensures
            match r {
                Some(d) => exists|i: int|
                    is_first_device_with(self@.devices, device_id@, i) && d@ == self@.devices[i],
                None => forall|i: int|
                    0 <= i < self@.devices.len() ==> self@.devices[i].device_id != device_id@,
            },
    {
        let n = self.devices.len();
        let mut i: usize = 0;
        while i < n
            invariant
                n == self.devices@.len(),
                0 <= i <= n,
                self@.devices == device_views(self.devices@),
                forall|j: int| 0 <= j < i ==> self@.devices[j].device_id != device_id@,
            decreases n - i,
        {
            if self.devices[i].device_id() == device_id {
                assert(is_first_device_with(self@.devices, device_id@, i as int));
                return Some(&self.devices[i]);
            }
            i = i + 1;
        }
        None
    }

    /// Returns when the user was first seen.
    pub fn created_at(&self) -> (r: Timestamp)
        ensures
            r@ == self@.created_at,
    {
        self.created_at
    }

    /// Returns when the user was last active.
    pub fn last_active_at(&self) -> (r: Timestamp)
        ensures
            r@ == self@.last_active_at,
    {
        self.last_active_at
    }
}

/// Two users are the same user when their identifiers are equal.
impl PartialEq for User {
    fn eq(&self, other: &Self) -> (r: bool) {
        self.user_id == other.user_id
    }
}

impl vstd::std_specs::cmp::PartialEqSpecImpl for User {
    open spec fn obeys_eq_spec() -> bool {
        true
    }

    open spec fn eq_spec(&self, other: &Self) -> bool {
        self@.user_id == other@.user_id
    }
}

impl Eq for User {}

/// What a `Message` holds.
pub struct MessageView {
    pub message_id: u128,
    pub chat_id: Seq<char>,
    pub sender_id: Seq<char>,
    pub content: Seq<char>,
    pub sent_at: int,
    pub delivered_at: Option<int>,
    pub read_at: Option<int>,
}

/// A message sent within a chat.
#[derive(Debug)]
pub struct Message {
    message_id: MessageId,
    chat_id: ChatId,
    sender_id: UserId,
    content: MessageContent,
    sent_at: Timestamp,
    delivered_at: Option<Timestamp>,
    read_at: Option<Timestamp>,
}

/// The milliseconds of an optional timestamp.
pub open spec fn optional_millis(t: Option<Timestamp>) -> Option<int> {
    match t {
        Some(t) => Some(t@),
        None => None,
    }
}

impl View for Message {
    type V = MessageView;

    closed spec fn view(&self) -> MessageView {
        MessageView {
            message_id: self.message_id@,
            chat_id: self.chat_id@,
            sender_id: self.sender_id@,
            content: self.content@,
            sent_at: self.sent_at@,
            delivered_at: optional_millis(self.delivered_at),
            read_at: optional_millis(self.read_at),
        }
    }
}

/// `m` is a message freshly written now in `chat_id` by `sender_id` with `content`:
/// a random identifier, not yet delivered nor read.
pub open spec fn is_fresh_message(
    m: MessageView,
    chat_id: Seq<char>,
    sender_id: Seq<char>,
    content: Seq<char>,
) -> bool {
    &&& is_random_uuid(m.message_id)
    &&& m.chat_id == chat_id
    &&& m.sender_id == sender_id
    &&& m.content == content
    &&& m.sent_at >= 0
    &&& m.delivered_at is None
    &&& m.read_at is None
}

impl Message {
    /// Creates a new message from already validated content.
    pub(crate) fn from_content(chat_id: ChatId, sender_id: UserId, content: MessageContent) -> (r:
        Self)
        ensures
            is_fresh_message(r@, chat_id@, sender_id@, content@),
    {
        Message {
            message_id: MessageId::random(),
            chat_id,
            sender_id,
            content,
            sent_at: Timestamp::now(),
            delivered_at: None,
            read_at: None,
        }
    }

    /// Creates a new message, sent now.
    ///
    /// Fails with `DomainError::MessageTooLarge` exactly when the content
    /// exceeds the size limit.
    pub fn try_new(chat_id: ChatId, sender_id: UserId, content: String) -> (r: Result<
        Self,
        DomainError,
    >)
        ensures
            utf8_size(content@) <= MAX_MESSAGE_SIZE ==> (r matches Ok(m) && is_fresh_message(
                m@,
                chat_id@,
                sender_id@,
                content@,
            )),
            utf8_size(content@) > MAX_MESSAGE_SIZE ==> (r matches Err(
                DomainError::MessageTooLarge { actual, max },
            ) && actual == utf8_size(content@) && max == MAX_MESSAGE_SIZE),
    {
        match MessageContent::try_new(content) {
            Ok(c) => Ok(Message::from_content(chat_id, sender_id, c)),
            Err(e) => Err(e),
        }
    }

    /// Returns the message identifier.
    pub fn message_id(&self) -> (r: MessageId)
        ensures
            r@ == self@.message_id,
    {
        self.message_id
    }

    /// Returns the chat the message belongs to.
    pub fn chat_id(&self) -> (r: &ChatId)
        ensures
            r@ == self@.chat_id,
    {
        &self.chat_id
    }

    /// Returns the sender's identifier.
    pub fn sender_id(&self) -> (r: &UserId)
        ensures
            r@ == self@.sender_id,
    {
        &self.sender_id
    }

    /// Returns the message content.
    pub fn content(&self) -> (r: &MessageContent)
        ensures
            r@ == self@.content,
    {
        &self.content
    }

    /// Returns when the message was sent.
    pub fn sent_at(&self) -> (r: Timestamp)
        ensures
            r@ == self@.sent_at,
    {
        self.sent_at
    }

    /// Marks the message as delivered now.
    pub fn mark_delivered(&mut self)
        ensures
            final(self)@.delivered_at matches Some(t) && t >= 0,
            final(self)@ == (MessageView { delivered_at: final(self)@.delivered_at, ..old(self)@ }),
    {
        self.delivered_at = Some(Timestamp::now());
    }

    /// Marks the message as read now.
    pub fn mark_read(&mut self)
        ensures
            final(self)@.read_at matches Some(t) && t >= 0,
            final(self)@ == (MessageView { read_at: final(self)@.read_at, ..old(self)@ }),
    {
        self.read_at = Some(Timestamp::now());
    }

    /// Returns whether the message has been delivered.
    pub fn is_delivered(&self) -> (r: bool)
        ensures
            r == self@.delivered_at is Some,
    {
        self.delivered_at.is_some()
    }

    /// Returns whether the message has been read.
    pub fn is_read(&self) -> (r: bool)
        ensures
            r == self@.read_at is Some,
    {
        self.read_at.is_some()
    }
}

impl Clone for Message {
    fn clone(&self) -> (r: Self)
        ensures
            r@ == self@,
    {
        Message {
            message_id: self.message_id,
            chat_id: self.chat_id.clone(),
            sender_id: self.sender_id.clone(),
            content: self.content.clone(),
            sent_at: self.sent_at,
            delivered_at: self.delivered_at,
            read_at: self.read_at,
        }
    }
}

/// What a `Chat` holds.
pub struct ChatView {
    pub chat_id: Seq<char>,
    pub chat_type: ChatType,
    pub participants: Seq<Seq<char>>,
    pub created_at: int,
    pub last_message_at: Option<int>,
}

/// The identifiers' texts of a sequence of user identifiers.
pub open spec fn user_views(users: Seq<UserId>) -> Seq<Seq<char>> {
    users.map_values(|u: UserId| u@)
}

/// A chat (1:1 or group) between users.
#[derive(Debug)]
pub struct Chat {
    chat_id: ChatId,
    chat_type: ChatType,
    participants: Vec<UserId>,
    created_at: Timestamp,
    last_message_at: Option<Timestamp>,
}

impl View for Chat {
    type V = ChatView;

    closed spec fn view(&self) -> ChatView {
        ChatView {
            chat_id: self.chat_id@,
            chat_type: self.chat_type,
            participants: user_views(self.participants@),
            created_at: self.created_at@,
            last_message_at: optional_millis(self.last_message_at),
        }
    }
}

/// `c` is a chat created now, with a random identifier and no message yet.
pub open spec fn is_fresh_chat(c: ChatView, chat_type: ChatType, participants: Seq<Seq<char>>) -> bool {
    &&& is_random_uuid_text(c.chat_id)
    &&& c.chat_type == chat_type
    &&& c.participants == participants
    &&& c.created_at >= 0
    &&& c.last_message_at is None
}

impl Chat {
    /// Creates a new direct (1:1) chat between two users.
    ///
    /// Fails with `DomainError::InvalidOperation` exactly when both users are the same.
    pub fn new_direct(user_a: UserId, user_b: UserId) -> (r: Result<Self, DomainError>)
        ensures
            user_a@ != user_b@ ==> (r matches Ok(c) && is_fresh_chat(
                c@,
                ChatType::Direct,
                seq![user_a@, user_b@],
            )),
            user_a@ == user_b@ ==> (r matches Err(DomainError::InvalidOperation { reason })
                && reason@ == "Cannot create a direct chat with yourself"@),
    {
        if user_a == user_b {
            return Err(
                DomainError::InvalidOperation {
                    reason: String::from_str("Cannot create a direct chat with yourself"),
                },
            );
        }
        let ghost (a, b) = (user_a@, user_b@);
        let participants = vec![user_a, user_b];
        let c = Chat {
            chat_id: ChatId::new(random_uuid_string()),
            chat_type: ChatType::Direct,
            participants,
            created_at: Timestamp::now(),
            last_message_at: None,
        };
        assert(c@.participants =~= seq![a, b]);
        Ok(c)
    }

    /// Creates a new group chat with the given participants.
    ///
    /// Fails with `DomainError::InvalidOperation` exactly when there are
    /// fewer than 2 participants.
    pub fn new_group(participants: Vec<UserId>) -> (r: Result<Self, DomainError>)
        ensures
            participants@.len() >= 2 ==> (r matches Ok(c) && is_fresh_chat(
                c@,
                ChatType::Group,
                user_views(participants@),
            )),
            participants@.len() < 2 ==> (r matches Err(DomainError::InvalidOperation { reason })
                && reason@ == "A group chat requires at least 2 participants"@),
    {
        if participants.len() < 2 {
            return Err(
                DomainError::InvalidOperation {
                    reason: String::from_str("A group chat requires at least 2 participants"),
                },
            );
        }
        Ok(
            Chat {
                chat_id: ChatId::new(random_uuid_string()),
                chat_type: ChatType::Group,
                participants,
                created_at: Timestamp::now(),
                last_message_at: None,
            },
        )
    }

    /// Returns the chat identifier.
    pub fn chat_id(&self) -> (r: &ChatId)
        ensures
            r@ == self@.chat_id,
    {
        &self.chat_id
    }

    /// Returns the chat type.
    pub fn chat_type(&self) -> (r: ChatType)
        ensures
            r == self@.chat_type,
    {
        self.chat_type
    }

    /// Returns the participants, in order.
    pub fn participants(&self) -> (r: &[UserId])
        ensures
            user_views(r@) == self@.participants,
    {
        self.participants.as_slice()
    }

    /// Returns when the chat was created.
    pub fn created_at(&self) -> (r: Timestamp)
        ensures
            r@ == self@.created_at,
    {
        self.created_at
    }

    /// Appends a participant to the chat.
    pub(crate) fn push_participant(&mut self, user_id: UserId)
        ensures
            final(self)@ == (ChatView {
                participants: old(self)@.participants.push(user_id@),
                ..old(self)@
            }),
    {
        let ghost u = user_id@;
        self.participants.push(user_id);
        assert(user_views(self.participants@) =~= user_views(old(self).participants@).push(u));
    }

    /// Records that a message was just posted in the chat.
    pub fn touch_last_message(&mut self)
        ensures
            final(self)@.last_message_at matches Some(t) && t >= 0,
            final(self)@ == (ChatView { last_message_at: final(self)@.last_message_at, ..old(self)@ }),
    {
        self.last_message_at = Some(Timestamp::now());
    }
}

impl Clone for Chat {
    fn clone(&self) -> (r: Self)
        ensures
            r@ == self@,
    {
        let participants = self.participants.clone();
        proof {
            assert forall|i: int| 0 <= i < participants@.len() implies participants@[i]@
                == self.participants@[i]@ by {
                assert(cloned::<UserId>(self.participants@[i], participants@[i]));
            }
            assert(user_views(participants@) =~= user_views(self.participants@));
        }
        Chat {
            chat_id: self.chat_id.clone(),
            chat_type: self.chat_type,
            participants,
            created_at: self.created_at,
            last_message_at: self.last_message_at,
        }
    }
}

/// Two chats are the same chat when their identifiers are equal.
impl PartialEq for Chat {
    fn eq(&self, other: &Self) -> (r: bool) {
        self.chat_id == other.chat_id
    }
}

impl vstd::std_specs::cmp::PartialEqSpecImpl for Chat {
    open spec fn obeys_eq_spec() -> bool {
        true
    }

    open spec fn eq_spec(&self, other: &Self) -> bool {
        self@.chat_id == other@.chat_id
    }
}

impl Eq for Chat {}

} // verus!
