//! Conversation memory: an owned transcript plus an in-memory session store.
//!
//! [`ChatHistory`] is an owned, ordered list of messages with helpers to grow
//! it and to start a request from it. [`InMemoryChatStore`] keeps transcripts by
//! session id; sharing one between tasks is the caller's business.

use vstd::prelude::*;
use vstd::hash_map::StringHashMap;
use vstd::string::*;

use crate::message::{clone_messages, text_message, Message, MessageView, Role};
use crate::request::{empty_request, ChatRequest, ChatRequestBuilder, ChatRequestView};
use crate::response::ChatResponse;

verus! {

broadcast use vstd::string::group_string_axioms;

/// An owned, ordered conversation transcript.
#[derive(Debug, PartialEq)]
pub struct ChatHistory {
    messages: Vec<Message>,
}

impl View for ChatHistory {
    type V = Seq<MessageView>;

    closed spec fn view(&self) -> Seq<MessageView> {
        self.messages.deep_view()
    }
}

impl Clone for ChatHistory {
    fn clone(&self) -> (res: Self)
        ensures
            res@ == self@,
    {
        ChatHistory { messages: clone_messages(&self.messages) }
    }
}

impl ChatHistory {
    /// An empty history.
    pub fn new() -> (h: ChatHistory)
        ensures
            h@ == Seq::<MessageView>::empty(),
    {
        let h = ChatHistory { messages: Vec::new() };
        assert(h@ =~= Seq::<MessageView>::empty());
        h
    }

    /// A history seeded from existing messages (e.g. loaded from a store).
    pub fn from_messages(messages: Vec<Message>) -> (h: ChatHistory)
        ensures
            h@ == messages.deep_view(),
    {
        ChatHistory { messages }
    }

    /// Append a message.
    pub fn push(&mut self, message: Message) -> (h: &mut Self)
        ensures
            h@ == old(self)@.push(message@),
            *final(self) == *final(h),
    {
        let ghost m = message@;
        self.messages.push(message);
        assert(self@ =~= old(self)@.push(m));
        self
    }

    /// Append a user text message.
    pub fn user(&mut self, text: &str) -> (h: &mut Self)
        ensures
            h@ == old(self)@.push(text_message(Role::User, text@)),
            *final(self) == *final(h),
    {
        self.push(Message::user(text))
    }

    /// Append an assistant text message.
    pub fn assistant(&mut self, text: &str) -> (h: &mut Self)
        ensures
            h@ == old(self)@.push(text_message(Role::Assistant, text@)),
            *final(self) == *final(h),
    {
        self.push(Message::assistant(text))
    }

    /// Append several messages, in order.
    pub fn extend(&mut self, messages: Vec<Message>) -> (h: &mut Self)
        ensures
            h@ == old(self)@ + messages.deep_view(),
            *final(self) == *final(h),
    {
        let mut more = messages;
        let ghost added = more.deep_view();
        self.messages.append(&mut more);
        assert(self@ =~= old(self)@ + added);
        self
    }

    /// Append the assistant message of a model response.
    pub fn record_response(&mut self, response: &ChatResponse) -> (h: &mut Self)
        ensures
            h@ == old(self)@.push(response@.message),
            *final(self) == *final(h),
    {
        self.push(response.message.clone())
    }

    /// A request builder for `model`, pre-loaded with this history's messages.
    pub fn to_request(&self, model: &str) -> (b: ChatRequestBuilder)
        ensures
            b@ == (ChatRequestView { messages: self@, ..empty_request(model@) }),
    {
        let b = ChatRequest::builder(model).messages(clone_messages(&self.messages));
        assert(b@.messages =~= self@);
        b
    }

    /// The messages, in order.
    pub fn messages(&self) -> (m: &[Message])
        ensures
            m@.map_values(|x: Message| x@) == self@,
    {
        let m = self.messages.as_slice();
        assert(m@.map_values(|x: Message| x@) =~= self@);
        m
    }

    /// Consume the history, returning its messages.
    pub fn into_messages(self) -> (m: Vec<Message>)
        ensures
            m.deep_view() == self@,
    {
        self.messages
    }

    /// The most recent message, if any.
    pub fn last(&self) -> (m: Option<&Message>)
        ensures
            self@.len() == 0 ==> m is None,
            self@.len() > 0 ==> (m matches Some(x) && x@ == self@.last()),
    {
        if self.messages.len() == 0 {
            None
        } else {
            Some(&self.messages[self.messages.len() - 1])
        }
    }

    /// Remove all messages.
    pub fn clear(&mut self)
        ensures
            final(self)@ == Seq::<MessageView>::empty(),
    {
        self.messages.clear();
        assert(self@ =~= Seq::<MessageView>::empty());
    }

    /// Number of messages.
    pub fn len(&self) -> (n: usize)
        ensures
            n == self@.len(),
    {
        self.messages.len()
    }

    /// Whether the history is empty.
    pub fn is_empty(&self) -> (b: bool)
        ensures
            b == (self@.len() == 0),
    {
        self.messages.len() == 0
    }
}

/// The transcript a store holds for `session` (empty when it holds none).
pub open spec fn session_messages(
    sessions: Map<Seq<char>, Seq<MessageView>>,
    session: Seq<char>,
) -> Seq<MessageView> {
    if sessions.contains_key(session) {
        sessions[session]
    } else {
        Seq::empty()
    }
}

/// An in-memory conversation store, keyed by session id.
pub struct InMemoryChatStore {
    sessions: StringHashMap<Vec<Message>>,
}

impl View for InMemoryChatStore {
    type V = Map<Seq<char>, Seq<MessageView>>;

    closed spec fn view(&self) -> Map<Seq<char>, Seq<MessageView>> {
        self.sessions@.map_values(|v: Vec<Message>| v.deep_view())
    }
}

impl InMemoryChatStore {
    /// The store's invariant: it holds finitely many sessions.
    #[verifier::type_invariant]
    spec fn finitely_many(self) -> bool {
        self.sessions@.dom().finite()
    }

    /// An empty store.
    pub fn new() -> (s: InMemoryChatStore)
        ensures
            s@ == Map::<Seq<char>, Seq<MessageView>>::empty(),
            s@.dom().finite(),
    {
        let s = InMemoryChatStore { sessions: StringHashMap::new() };
        assert(s@ =~= Map::<Seq<char>, Seq<MessageView>>::empty());
        assert(s@.dom() =~= Set::<Seq<char>>::empty());
        s
    }

    /// Number of stored sessions.
    pub fn session_count(&self) -> (n: usize)
        ensures
            n == self@.dom().len(),
            self@.dom().finite(),
    {
        proof {
            use_type_invariant(self);
            assert(self@.dom() =~= self.sessions@.dom());
        }
        self.sessions.len()
    }

    /// A session's messages (empty if the session is unknown).
    pub fn load(&self, session: &str) -> (m: Vec<Message>)
        ensures
            m.deep_view() == session_messages(self@, session@),
    {
        match self.sessions.get(session) {
            Some(v) => clone_messages(v),
            None => {
                let m = Vec::new();
                assert(m.deep_view() =~= Seq::<MessageView>::empty());
                m
            },
        }
    }

    /// Replace a session's messages.
    pub fn save(&mut self, session: &str, messages: Vec<Message>)
        ensures
            final(self)@ == old(self)@.insert(session@, messages.deep_view()),
            final(self)@.dom().finite(),
    {
        proof {
            use_type_invariant(&*self);
        }
        let ghost added = messages.deep_view();
        let mut sessions: StringHashMap<Vec<Message>> = StringHashMap::new();
        std::mem::swap(&mut sessions, &mut self.sessions);
        sessions.insert(String::from_str(session), messages);
        self.sessions = sessions;
        assert(self.sessions@.dom() =~= old(self).sessions@.dom().insert(session@));
        assert(self@ =~= old(self)@.insert(session@, added));
        assert(self@.dom() =~= self.sessions@.dom());
    }

    /// Append one message to a session (creating it if needed).
    pub fn append(&mut self, session: &str, message: Message)
        ensures
            final(self)@ == old(self)@.insert(
                session@,
                session_messages(old(self)@, session@).push(message@),
            ),
            final(self)@.dom().finite(),
    {
        let mut current = self.load(session);
        let ghost m = message@;
        current.push(message);
        let ghost grown = current.deep_view();
        assert(grown =~= session_messages(old(self)@, session@).push(m));
        self.save(session, current);
    }

    /// Append several messages to a session, in order (creating it if needed).
    pub fn append_many(&mut self, session: &str, messages: Vec<Message>)
        ensures
            final(self)@ == old(self)@.insert(
                session@,
                session_messages(old(self)@, session@) + messages.deep_view(),
            ),
            final(self)@.dom().finite(),
    {
        let mut current = self.load(session);
        let mut more = messages;
        let ghost added = more.deep_view();
        current.append(&mut more);
        assert(current.deep_view() =~= session_messages(old(self)@, session@) + added);
        self.save(session, current);
    }

    /// Delete a session.
    pub fn clear(&mut self, session: &str)
        ensures
            final(self)@ == old(self)@.remove(session@),
            final(self)@.dom().finite(),
    {
        proof {
            use_type_invariant(&*self);
        }
        let mut sessions: StringHashMap<Vec<Message>> = StringHashMap::new();
        std::mem::swap(&mut sessions, &mut self.sessions);
        sessions.remove(session);
        self.sessions = sessions;
        assert(self.sessions@.dom() =~= old(self).sessions@.dom().remove(session@));
        assert(self@ =~= old(self)@.remove(session@));
        assert(self@.dom() =~= self.sessions@.dom());
    }
}

/// A saved transcript loads back as saved; saving touches no other session.
pub proof fn law_save_then_load(
    store: Map<Seq<char>, Seq<MessageView>>,
    session: Seq<char>,
    other: Seq<char>,
    messages: Seq<MessageView>,
)
    ensures
        session_messages(store.insert(session, messages), session) == messages,
        other != session ==> session_messages(store.insert(session, messages), other)
            == session_messages(store, other),
{
}

/// Appending grows the session's transcript by exactly the appended messages,
/// after what it held (nothing, for a new session).
pub proof fn law_append_then_load(
    store: Map<Seq<char>, Seq<MessageView>>,
    session: Seq<char>,
    messages: Seq<MessageView>,
)
    ensures
        session_messages(
            store.insert(session, session_messages(store, session) + messages),
            session,
        ) == session_messages(store, session) + messages,
{
}

/// A cleared session loads as empty, and the other sessions are untouched.
pub proof fn law_clear_then_load(
    store: Map<Seq<char>, Seq<MessageView>>,
    session: Seq<char>,
    other: Seq<char>,
)
    ensures
        session_messages(store.remove(session), session) == Seq::<MessageView>::empty(),
        other != session ==> session_messages(store.remove(session), other) == session_messages(
            store,
            other,
        ),
{
}

/// Saving or appending to a session adds one session exactly when it was new;
/// clearing removes one exactly when it existed. (A store holds finitely many
/// sessions, so its count is the size of its domain.)
pub proof fn law_session_count(
    store: Map<Seq<char>, Seq<MessageView>>,
    session: Seq<char>,
    messages: Seq<MessageView>,
)
    requires
        store.dom().finite(),
    ensures
        store.insert(session, messages).dom().len() == store.dom().len() + if store.contains_key(
            session,
        ) {
            0int
        } else {
            1int
        },
        store.remove(session).dom().len() == store.dom().len() - if store.contains_key(session) {
            1int
        } else {
            0int
        },
{
    if store.contains_key(session) {
        assert(store.insert(session, messages).dom() =~= store.dom());
    } else {
        assert(store.remove(session).dom() =~= store.dom());
    }
}

} // verus!
