//! The broker session: one subscription that is kept alive for the life of
//! the process.
//!
//! The session decides and its owner acts. Each step names what to do
//! next (wait, connect, receive, process) and is told what happened.

use crate::pipeline::Outcome;
use crate::settings::{BrokerParameters, MqttSettings};
use vstd::prelude::*;

verus! {

/// The delay before the settings are looked at again, or a failed
/// connection is tried again, in seconds.
pub const POLL_DELAY_SECS: u64 = 10;

/// The length of a UUID in its hyphenated form.
pub const UUID_TEXT_LENGTH: usize = 36;

/// Where the session stands.
#[derive(Clone, Copy, Debug, PartialEq, Eq, Structural)]
pub enum SessionState {
    /// No connection.
    Disconnected,
    /// A connection attempt, with the subscription, is under way.
    Connecting,
    /// Connected and subscribed; messages arrive on the stream.
    Subscribed,
}

/// What the owner of the connection reports to the session.
#[derive(Clone, Copy, Debug, PartialEq, Eq, Structural)]
pub enum SessionEvent {
    /// The session starts, or a wait is over.
    Poll,
    /// The connection is made and the topic subscribed.
    Connected,
    /// The connection attempt or the subscription failed.
    ConnectFailed,
    /// The stream yielded a message.
    Arrived,
    /// The stream yielded no message: the transport lost the broker, or
    /// found it again.
    Interrupted,
    /// The message went through the pipeline, with this outcome.
    Processed(Outcome),
}

/// What the session asks for.
#[derive(Clone, Copy, Debug, PartialEq, Eq, Structural)]
pub enum SessionAction {
    /// Wait this many seconds, then report `Poll`.
    Wait(u64),
    /// Connect with the parameters of the session and subscribe.
    Connect,
    /// Wait for the stream to yield.
    Receive,
    /// Hand the message that arrived to the pipeline.
    Process,
}

impl SessionState {
    /// The state that follows and what the session asks for.
    ///
    /// Without a connection the session polls: with complete settings it
    /// connects, otherwise it waits. A failed attempt waits as well. Once
    /// subscribed the session stays so: each message is processed before
    /// the next is received, and whatever comes of it, or of the
    /// transport, the session goes on receiving.
    pub open spec fn next(self, complete: bool, event: SessionEvent) -> (SessionState, SessionAction) {
        match self {
            SessionState::Disconnected => if event == SessionEvent::Poll && complete {
                (SessionState::Connecting, SessionAction::Connect)
            } else {
                (SessionState::Disconnected, SessionAction::Wait(POLL_DELAY_SECS))
            },
            SessionState::Connecting => if event == SessionEvent::Connected {
                (SessionState::Subscribed, SessionAction::Receive)
            } else {
                (SessionState::Disconnected, SessionAction::Wait(POLL_DELAY_SECS))
            },
            SessionState::Subscribed => if event == SessionEvent::Arrived {
                (SessionState::Subscribed, SessionAction::Process)
            } else {
                (SessionState::Subscribed, SessionAction::Receive)
            },
        }
    }

    /// The state after a run of events.
    pub open spec fn after(self, complete: bool, events: Seq<SessionEvent>) -> SessionState
        decreases events.len(),
    {
        if events.len() == 0 {
            self
        } else {
            self.after(complete, events.drop_last()).next(complete, events.last()).0
        }
    }

    /// What the session asks for at the end of a run of events.
    pub open spec fn last_action(self, complete: bool, events: Seq<SessionEvent>) -> SessionAction
        recommends
            events.len() > 0,
    {
        self.after(complete, events.drop_last()).next(complete, events.last()).1
    }
}

/// The words that every client identifier begins with.
pub open spec fn client_id_prefix() -> Seq<char> {
    "glowmarkt_logger-"@
}

/// True of a lower-case hexadecimal digit.
pub open spec fn is_lower_hex(c: char) -> bool {
    ('0' <= c && c <= '9') || ('a' <= c && c <= 'f')
}

/// True of a UUID in its hyphenated lower-case form: 36 characters, hyphens
/// after the 8th, 12th, 16th and 20th digit, hexadecimal digits elsewhere.
pub open spec fn is_hyphenated_uuid(text: Seq<char>) -> bool {
    &&& text.len() == UUID_TEXT_LENGTH
    &&& forall|i: int|
        0 <= i < text.len() ==> if i == 8 || i == 13 || i == 18 || i == 23 {
            #[trigger] text[i] == '-'
        } else {
            is_lower_hex(text[i])
        }
}

/// True of a client identifier: the prefix, then a hyphenated UUID.
pub open spec fn is_client_id(text: Seq<char>) -> bool {
    exists|uuid: Seq<char>| is_hyphenated_uuid(uuid) && text == client_id_prefix() + uuid
}

/// Calls `uuid::Uuid::new_v4` and renders the UUID with its `Display`,
/// which is the hyphenated lower-case form. The UUID is random, so only
/// the shape of the text is claimed. The generator panics where the
/// operating system yields no random bytes.
#[verifier::external_body]
fn random_uuid_text() -> (text: String)
    ensures
        is_hyphenated_uuid(text@),
{
    uuid::Uuid::new_v4().to_string()
}

/// The client identifier that is made of this UUID.
pub fn client_id_for(uuid: &str) -> (client_id: String)
    ensures
        client_id@ == client_id_prefix() + uuid@,
{
    "glowmarkt_logger-".to_owned().concat(uuid)
}

/// A fresh client identifier. It is generated once per process and used
/// for every connection of the session.
pub fn generate_client_id() -> (client_id: String)
    ensures
        is_client_id(client_id@),
{
    let uuid = random_uuid_text();
    client_id_for(uuid.as_str())
}

/// The session: its state, the settings it connects with, and the client
/// identifier it connects as.
pub struct Session {
    state: SessionState,
    settings: MqttSettings,
    client_id: String,
}

impl Session {
    /// Where the session stands.
    pub closed spec fn state(&self) -> SessionState {
        self.state
    }

    /// The settings that the session connects with.
    pub closed spec fn settings(&self) -> MqttSettings {
        self.settings
    }

    /// The client identifier that the session connects as.
    pub closed spec fn client_id(&self) -> Seq<char> {
        self.client_id@
    }

    /// A session without a connection.
    pub fn new(settings: MqttSettings, client_id: String) -> (session: Session)
        ensures
            session.state() == SessionState::Disconnected,
            session.settings() == settings,
            session.client_id() == client_id@,
    {
        Session { state: SessionState::Disconnected, settings, client_id }
    }

    /// Where the session stands.
    pub fn current_state(&self) -> (state: SessionState)
        ensures
            state == self.state(),
    {
        self.state
    }

    /// Takes a report and names what to do next. The settings and the
    /// client identifier stay what they are.
    pub fn step(&mut self, event: SessionEvent) -> (action: SessionAction)
        ensures
            (final(self).state(), action) == old(self).state().next(old(self).settings().complete(), event),
            final(self).settings() == old(self).settings(),
            final(self).client_id() == old(self).client_id(),
    {
        let (state, action) = match self.state {
            SessionState::Disconnected => match event {
                SessionEvent::Poll => if self.settings.is_complete() {
                    (SessionState::Connecting, SessionAction::Connect)
                } else {
                    (SessionState::Disconnected, SessionAction::Wait(POLL_DELAY_SECS))
                },
                _ => (SessionState::Disconnected, SessionAction::Wait(POLL_DELAY_SECS)),
            },
            SessionState::Connecting => match event {
                SessionEvent::Connected => (SessionState::Subscribed, SessionAction::Receive),
                _ => (SessionState::Disconnected, SessionAction::Wait(POLL_DELAY_SECS)),
            },
            SessionState::Subscribed => match event {
                SessionEvent::Arrived => (SessionState::Subscribed, SessionAction::Process),
                _ => (SessionState::Subscribed, SessionAction::Receive),
            },
        };
        self.state = state;
        action
    }

    /// The parameters of the connection that the session asks for: always
    /// those of its settings, under its one client identifier.
    pub fn connect_request(&self) -> (parameters: BrokerParameters)
        ensures
            parameters.describes(self.client_id(), &self.settings()),
    {
        BrokerParameters::new(self.client_id.as_str(), &self.settings)
    }
}

/// A subscription survives what happens to it: once subscribed, the
/// session stays subscribed through any run of events, be it lost
/// transport, failed decoding or failed storage, and it never asks to wait
/// or to connect again.
pub proof fn law_subscription_survives(complete: bool, events: Seq<SessionEvent>)
    ensures
        SessionState::Subscribed.after(complete, events) == SessionState::Subscribed,
        events.len() > 0 ==> SessionState::Subscribed.last_action(complete, events) == (if events.last()
            == SessionEvent::Arrived {
            SessionAction::Process
        } else {
            SessionAction::Receive
        }),
    decreases events.len(),
{
    if events.len() > 0 {
        law_subscription_survives(complete, events.drop_last());
    }
}

/// An interrupted transport needs no one's help: the session stays
/// subscribed and goes on receiving, and so it does after a message was
/// processed, whatever the outcome.
pub proof fn law_session_resumes(complete: bool, outcome: Outcome)
    ensures
        SessionState::Subscribed.next(complete, SessionEvent::Interrupted) == (
            SessionState::Subscribed,
            SessionAction::Receive,
        ),
        SessionState::Subscribed.next(complete, SessionEvent::Processed(outcome)) == (
            SessionState::Subscribed,
            SessionAction::Receive,
        ),
{
}

/// The session never spins: every step that leaves it without a
/// connection asks for the full poll delay, and a connection is attempted
/// only from a poll with complete settings.
pub proof fn law_session_never_spins(state: SessionState, complete: bool, event: SessionEvent)
    ensures
        state.next(complete, event).0 == SessionState::Disconnected ==> state.next(complete, event).1
            == SessionAction::Wait(POLL_DELAY_SECS),
        state.next(complete, event).1 == SessionAction::Connect <==> state == SessionState::Disconnected
            && event == SessionEvent::Poll && complete,
        !complete ==> state.next(complete, event).0 != SessionState::Connecting,
{
}

} // verus!
