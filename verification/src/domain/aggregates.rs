//! Aggregates: consistency boundaries around groups of entities.
//!
//! The `Conversation` aggregate keeps a chat, its messages in order and the
//! domain events waiting to be published, and enforces that
//! - messages are only sent by participants of the chat,
//! - message content respects the size limit,
//! - direct chats stay 1:1 and groups stay within their size limit.

use vstd::prelude::*;

use crate::domain::entities::{
    Chat, ChatView, Message, MessageView, is_fresh_chat, is_fresh_message, user_views,
};
use crate::domain::errors::DomainError;
use crate::domain::events::{AnyDomainEvent, MessageSent};
use crate::domain::value_objects::{
    ChatId, ChatType, MessageContent, Timestamp, UserId, utf8_size, MAX_MESSAGE_SIZE,
};

verus! {

/// Maximum number of participants in a group chat.
pub const MAX_GROUP_PARTICIPANTS: usize = 512;

/// What a `Conversation` holds.
pub struct ConversationView {
    pub chat: ChatView,
    pub messages: Seq<MessageView>,
    pub events: Seq<AnyDomainEvent>,
}

/// The views of a sequence of messages.
pub open spec fn message_views(messages: Seq<Message>) -> Seq<MessageView> {
    messages.map_values(|m: Message| m@)
}

/// `user` takes part in `chat`.
pub open spec fn is_participant(chat: ChatView, user: Seq<char>) -> bool {
    chat.participants.contains(user)
}

/// `e` records that `sender` sent a message in chat `chat_id`, now.
pub open spec fn is_message_sent_event(e: AnyDomainEvent, chat_id: Seq<char>, sender: Seq<char>) -> bool {
    &&& e matches AnyDomainEvent::MessageSent(m)
    &&& m.chat_id@ == chat_id
    &&& m.sender_id@ == sender
    &&& m.occurred_at@ >= 0
}

/// `post` is `pre` after `sender` successfully sent `content`: one fresh message
/// appended, one `MessageSent` event queued, and the chat touched, nothing else.
pub open spec fn is_sent(
    pre: ConversationView,
    sender: Seq<char>,
    content: Seq<char>,
    post: ConversationView,
) -> bool {
    &&& post.messages.len() == pre.messages.len() + 1
    &&& post.messages.drop_last() == pre.messages
    &&& is_fresh_message(post.messages.last(), pre.chat.chat_id, sender, content)
    &&& post.events.len() == pre.events.len() + 1
    &&& post.events.drop_last() == pre.events
    &&& is_message_sent_event(post.events.last(), pre.chat.chat_id, sender)
    &&& post.chat == (ChatView { last_message_at: post.chat.last_message_at, ..pre.chat })
    &&& post.chat.last_message_at matches Some(t) && t >= 0
}

/// The reason given when a non-participant tries to send.
pub open spec fn not_participant_reason(sender: Seq<char>) -> Seq<char> {
    "User "@ + sender + " is not a participant in this chat"@
}

/// `v` after `user` joined its chat.
pub open spec fn with_participant(v: ConversationView, user: Seq<char>) -> ConversationView {
    ConversationView {
        chat: ChatView { participants: v.chat.participants.push(user), ..v.chat },
        ..v
    }
}

/// The chat of `v` has the size its kind allows: two people in a direct
/// chat, from 2 to `MAX_GROUP_PARTICIPANTS` in a group.
pub open spec fn respects_size_rules(v: ConversationView) -> bool {
    &&& v.chat.chat_type == ChatType::Direct ==> v.chat.participants.len() == 2
    &&& v.chat.chat_type == ChatType::Group ==> 2 <= v.chat.participants.len()
        <= MAX_GROUP_PARTICIPANTS
}

/// `v` after its pending events have been handed out.
pub open spec fn drained(v: ConversationView) -> ConversationView {
    ConversationView { events: Seq::empty(), ..v }
}

/// Every message of `v` was written in its chat by one of its participants.
pub open spec fn senders_are_participants(v: ConversationView) -> bool {
    forall|i: int|
        0 <= i < v.messages.len() ==> {
            &&& is_participant(v.chat, #[trigger] v.messages[i].sender_id)
            &&& v.messages[i].chat_id == v.chat.chat_id
        }
}

/// A fresh conversation around a freshly created chat.
pub open spec fn is_fresh_conversation(
    v: ConversationView,
    chat_type: ChatType,
    participants: Seq<Seq<char>>,
) -> bool {
    &&& is_fresh_chat(v.chat, chat_type, participants)
    &&& v.messages.len() == 0
    &&& v.events.len() == 0
}

/// A conversation aggregate root that manages messages and invariants
/// within a single chat.
#[derive(Debug)]
pub struct Conversation {
    chat: Chat,
    messages: Vec<Message>,
    pending_events: Vec<AnyDomainEvent>,
}

impl View for Conversation {
    type V = ConversationView;

    closed spec fn view(&self) -> ConversationView {
        ConversationView {
            chat: self.chat@,
            messages: message_views(self.messages@),
            events: self.pending_events@,
        }
    }
}

impl Conversation {
    /// Creates a new direct conversation between two users.
    ///
    /// Fails with `DomainError::InvalidOperation` exactly when both users are the same.
    pub fn new_direct(user_a: UserId, user_b: UserId) -> (r: Result<Self, DomainError>)
        ensures
            user_a@ != user_b@ ==> (r matches Ok(c) && is_fresh_conversation(
                c@,
                ChatType::Direct,
                seq![user_a@, user_b@],
            )),
            user_a@ == user_b@ ==> (r matches Err(DomainError::InvalidOperation { reason })
                && reason@ == "Cannot create a direct chat with yourself"@),
    {
        match Chat::new_direct(user_a, user_b) {
            Ok(chat) => {
                let c = Conversation { chat, messages: Vec::new(), pending_events: Vec::new() };
                assert(c@.messages =~= Seq::<MessageView>::empty());
                Ok(c)
            },
            Err(e) => Err(e),
        }
    }

    /// Creates a new group conversation with the given participants.
    ///
    /// Fails with `DomainError::InvalidOperation` exactly when there are
    /// fewer than 2 participants, or more than `MAX_GROUP_PARTICIPANTS`.
    pub fn new_group(participants: Vec<UserId>) -> (r: Result<Self, DomainError>)
        ensures
            2 <= participants@.len() <= MAX_GROUP_PARTICIPANTS ==> (r matches Ok(c)
                && is_fresh_conversation(c@, ChatType::Group, user_views(participants@))),
            participants@.len() < 2 ==> (r matches Err(DomainError::InvalidOperation { reason })
                && reason@ == "A group chat requires at least 2 participants"@),
            participants@.len() > MAX_GROUP_PARTICIPANTS ==> (r matches Err(
                DomainError::InvalidOperation { reason },
            ) && reason@ == "Group chat cannot exceed 512 participants"@),
    {
        if participants.len() > MAX_GROUP_PARTICIPANTS {
            return Err(
                DomainError::InvalidOperation {
                    reason: String::from_str("Group chat cannot exceed 512 participants"),
                },
            );
        }
        match Chat::new_group(participants) {
            Ok(chat) => {
                let c = Conversation { chat, messages: Vec::new(), pending_events: Vec::new() };
                assert(c@.messages =~= Seq::<MessageView>::empty());
                Ok(c)
            },
            Err(e) => Err(e),
        }
    }

    /// Reconstructs a conversation from existing state (for repository loading),
    /// with no pending events.
    pub fn from_parts(chat: Chat, messages: Vec<Message>) -> (r: Self)
        ensures
            r@.chat == chat@,
            r@.messages == message_views(messages@),
            r@.events.len() == 0,
    {
        Conversation { chat, messages, pending_events: Vec::new() }
    }

    /// Sends a message in this conversation.
    ///
    /// Fails, leaving the conversation unchanged, with
    /// `DomainError::InvalidOperation` when the sender is not a participant, and
    /// otherwise with `DomainError::MessageTooLarge` when the content exceeds
    /// the size limit.  On success the message is appended and a `MessageSent`
    /// event is queued.
    pub fn send_message(&mut self, sender_id: UserId, content: String) -> (r: Result<
        (),
        DomainError,
    >)
        ensures
            !is_participant(old(self)@.chat, sender_id@) ==> {
                &&& r matches Err(DomainError::InvalidOperation { reason })
                &&& reason@ == not_participant_reason(sender_id@)
                &&& final(self)@ == old(self)@
            },
            is_participant(old(self)@.chat, sender_id@) && utf8_size(content@) > MAX_MESSAGE_SIZE
                ==> {
                &&& r matches Err(DomainError::MessageTooLarge { actual, max })
                &&& actual == utf8_size(content@)
                &&& max == MAX_MESSAGE_SIZE
                &&& final(self)@ == old(self)@
            },
            is_participant(old(self)@.chat, sender_id@) && utf8_size(content@) <= MAX_MESSAGE_SIZE
                ==> {
                &&& r is Ok
                &&& is_sent(old(self)@, sender_id@, content@, final(self)@)
            },
    {
        let found = {
            let parts = self.chat.participants();
            let n = parts.len();
            let mut i: usize = 0;
            let mut found = false;
            while i < n
                invariant_except_break
                    !found,
                    forall|j: int| 0 <= j < i ==> parts@[j]@ != sender_id@,
                invariant
                    n == parts@.len(),
                    0 <= i <= n,
                    user_views(parts@) == self@.chat.participants,
                    found ==> is_participant(self@.chat, sender_id@),
                ensures
                    found ==> is_participant(self@.chat, sender_id@),
                    !found ==> forall|j: int| 0 <= j < n ==> parts@[j]@ != sender_id@,
                decreases n - i,
            {
                if parts[i] == sender_id {
                    found = true;
                    assert(user_views(parts@)[i as int] == sender_id@);
                    break;
                }
                i = i + 1;
            }
            if !found {
                assert forall|j: int| 0 <= j < self@.chat.participants.len() implies
                    self@.chat.participants[j] != sender_id@ by {
                    assert(user_views(parts@)[j] == parts@[j]@);
                }
            }
            found
        };
        if !found {
            let mut reason = String::from_str("User ");
            reason.append(sender_id.as_str());
            reason.append(" is not a participant in this chat");
            return Err(DomainError::InvalidOperation { reason });
        }
        let content = match MessageContent::try_new(content) {
            Ok(c) => c,
            Err(e) => return Err(e),
        };
        let ghost pre = self@;
        let message = Message::from_content(self.chat.chat_id().clone(), sender_id, content);
        let event = MessageSent {
            chat_id: self.chat.chat_id().clone(),
            sender_id: message.sender_id().clone(),
            occurred_at: Timestamp::now(),
        };
        self.pending_events.push(AnyDomainEvent::MessageSent(event));
        let ghost mv = message@;
        self.messages.push(message);
        self.chat.touch_last_message();
        assert(message_views(self.messages@) =~= pre.messages.push(mv));
        assert(self@.messages.drop_last() =~= pre.messages);
        assert(self@.events.drop_last() =~= pre.events);
        Ok(())
    }

    /// Returns the underlying chat entity.
    pub fn chat(&self) -> (r: &Chat)
        ensures
            r@ == self@.chat,
    {
        &self.chat
    }

    /// Returns the messages of this conversation, in the order they were sent.
    pub fn messages(&self) -> (r: &[Message])
        ensures
            message_views(r@) == self@.messages,
    {
        self.messages.as_slice()
    }

    /// Returns the chat identifier.
    pub fn chat_id(&self) -> (r: &ChatId)
        ensures
            r@ == self@.chat.chat_id,
    {
        self.chat.chat_id()
    }

    /// Returns the chat type.
    pub fn chat_type(&self) -> (r: ChatType)
        ensures
            r == self@.chat.chat_type,
    {
        self.chat.chat_type()
    }

    /// Adds a participant to a group chat.
    ///
    /// Fails with `DomainError::InvalidOperation`, leaving the conversation
    /// unchanged, when the chat is a direct chat, or when the group already
    /// has `MAX_GROUP_PARTICIPANTS` participants.  Otherwise the user is
    /// appended to the participants and nothing else changes.
    pub fn add_participant(&mut self, user_id: UserId) -> (r: Result<(), DomainError>)
        ensures
            old(self)@.chat.chat_type != ChatType::Group ==> {
                &&& r matches Err(DomainError::InvalidOperation { reason })
                &&& reason@ == "Cannot add participants to a direct chat"@
                &&& final(self)@ == old(self)@
            },
            old(self)@.chat.chat_type == ChatType::Group && old(self)@.chat.participants.len()
                >= MAX_GROUP_PARTICIPANTS ==> {
                &&& r matches Err(DomainError::InvalidOperation { reason })
                &&& reason@ == "Group chat cannot exceed 512 participants"@
                &&& final(self)@ == old(self)@
            },
            old(self)@.chat.chat_type == ChatType::Group && old(self)@.chat.participants.len()
                < MAX_GROUP_PARTICIPANTS ==> {
                &&& r is Ok
                &&& final(self)@ == with_participant(old(self)@, user_id@)
            },
    {
        if self.chat.chat_type() != ChatType::Group {
            return Err(
                DomainError::InvalidOperation {
                    reason: String::from_str("Cannot add participants to a direct chat"),
                },
            );
        }
        if self.chat.participants().len() >= MAX_GROUP_PARTICIPANTS {
            return Err(
                DomainError::InvalidOperation {
                    reason: String::from_str("Group chat cannot exceed 512 participants"),
                },
            );
        }
        self.chat.push_participant(user_id);
        Ok(())
    }

    /// Hands out all pending domain events; afterwards none are pending.
    pub fn drain_pending_events(&mut self) -> (r: Vec<AnyDomainEvent>)
        ensures
            r@ == old(self)@.events,
            final(self)@ == drained(old(self)@),
    {
        let mut events = Vec::new();
        std::mem::swap(&mut events, &mut self.pending_events);
        assert(self@.events =~= Seq::<AnyDomainEvent>::empty());
        events
    }
}

/// A conversation that has just been created holds no message, so every one of
/// its messages (there are none) is from a participant.
pub proof fn law_fresh_conversation_senders_are_participants(
    v: ConversationView,
    chat_type: ChatType,
    participants: Seq<Seq<char>>,
)
    requires
        is_fresh_conversation(v, chat_type, participants),
    ensures
        senders_are_participants(v),
{
}

/// Conversations as `new_direct` and `new_group` create them have the size
/// their kind allows.
pub proof fn law_fresh_conversation_respects_size_rules(
    v: ConversationView,
    chat_type: ChatType,
    participants: Seq<Seq<char>>,
)
    requires
        is_fresh_conversation(v, chat_type, participants),
        chat_type == ChatType::Direct ==> participants.len() == 2,
        chat_type == ChatType::Group ==> 2 <= participants.len() <= MAX_GROUP_PARTICIPANTS,
    ensures
        respects_size_rules(v),
{
}

/// Adding a participant, which happens only to a group below the limit,
/// keeps the group within the limit; sending keeps the size unchanged.
pub proof fn law_membership_changes_respect_size_rules(
    pre: ConversationView,
    user: Seq<char>,
    sender: Seq<char>,
    content: Seq<char>,
    post: ConversationView,
)
    requires
        respects_size_rules(pre),
    ensures
        pre.chat.chat_type == ChatType::Group && pre.chat.participants.len()
            < MAX_GROUP_PARTICIPANTS ==> respects_size_rules(with_participant(pre, user)),
        is_sent(pre, sender, content, post) ==> respects_size_rules(post),
{
}

/// Adding a participant keeps the rule that every message was written in
/// the chat by one of its participants, and keeps the messages and events.
pub proof fn law_add_participant_keeps_senders_participants(pre: ConversationView, user: Seq<char>)
    requires
        senders_are_participants(pre),
    ensures
        senders_are_participants(with_participant(pre, user)),
        with_participant(pre, user).messages == pre.messages,
        with_participant(pre, user).events == pre.events,
        with_participant(pre, user).chat.participants.contains(user),
{
    let post = with_participant(pre, user);
    assert forall|i: int| 0 <= i < post.messages.len() implies {
        &&& is_participant(post.chat, #[trigger] post.messages[i].sender_id)
        &&& post.messages[i].chat_id == post.chat.chat_id
    } by {
        let s = post.messages[i].sender_id;
        assert(is_participant(pre.chat, s));
        let k = choose|k: int| 0 <= k < pre.chat.participants.len() && pre.chat.participants[k] == s;
        assert(post.chat.participants[k] == s);
    }
    assert(post.chat.participants[pre.chat.participants.len() as int] == user);
}

/// Sending keeps the rule that every message of a conversation was written in
/// its chat by one of its participants.
pub proof fn law_send_keeps_senders_participants(
    pre: ConversationView,
    sender: Seq<char>,
    content: Seq<char>,
    post: ConversationView,
)
    requires
        senders_are_participants(pre),
        is_participant(pre.chat, sender),
        is_sent(pre, sender, content, post),
    ensures
        senders_are_participants(post),
{
    assert forall|i: int| 0 <= i < post.messages.len() implies {
        &&& is_participant(post.chat, #[trigger] post.messages[i].sender_id)
        &&& post.messages[i].chat_id == post.chat.chat_id
    } by {
        if i < pre.messages.len() {
            assert(post.messages[i] == post.messages.drop_last()[i]);
        }
    }
}

/// Sending never changes who takes part in a chat, nor its kind or identity:
/// direct chats stay 1:1 and groups keep their members.
pub proof fn law_send_keeps_membership(
    pre: ConversationView,
    sender: Seq<char>,
    content: Seq<char>,
    post: ConversationView,
)
    requires
        is_sent(pre, sender, content, post),
    ensures
        post.chat.participants == pre.chat.participants,
        post.chat.chat_type == pre.chat.chat_type,
        post.chat.chat_id == pre.chat.chat_id,
        post.chat.created_at == pre.chat.created_at,
{
}

/// Each successful send adds exactly one message and queues exactly one event,
/// so between two drains the queue grows in step with the messages.
pub proof fn law_send_grows_messages_and_events_in_step(
    pre: ConversationView,
    sender: Seq<char>,
    content: Seq<char>,
    post: ConversationView,
)
    requires
        is_sent(pre, sender, content, post),
    ensures
        post.messages.len() - post.events.len() == pre.messages.len() - pre.events.len(),
        post.messages.subrange(0, pre.messages.len() as int) == pre.messages,
        post.events.subrange(0, pre.events.len() as int) == pre.events,
{
    assert(post.messages.subrange(0, pre.messages.len() as int) =~= post.messages.drop_last());
    assert(post.events.subrange(0, pre.events.len() as int) =~= post.events.drop_last());
}

/// Draining empties the queue and touches nothing else; draining again hands
/// out nothing.
pub proof fn law_drain_empties_queue(v: ConversationView)
    ensures
        drained(v).events.len() == 0,
        drained(v).chat == v.chat,
        drained(v).messages == v.messages,
        drained(drained(v)) == drained(v),
{
    assert(drained(drained(v)).events =~= drained(v).events);
}

} // verus!
