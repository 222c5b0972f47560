//! The payload envelope accompanying an event.
//!
//! A message owns the typed payload the remote endpoint attached to an
//! event; callers extract typed views from it on demand.
use vstd::prelude::*;
use crate::types::TextMessage;
use crate::types::User;
use crate::types::UserAccount;

verus! {

/// The typed payload carried by a message.
#[derive(Debug)]
pub enum Payload {
    /// No payload accompanies the event.
    Empty,
    /// A user snapshot.
    User(User),
    /// A text message.
    Text(TextMessage),
    /// A user account record.
    Account(UserAccount),
}

/// An opaque envelope accompanying an event; produced exactly once per
/// poll call that returns data.
#[derive(Debug)]
pub struct Message {
    source: i32,
    payload: Payload,
}

impl Message {
    /// The id of the session-side object the message originated from.
    pub closed spec fn spec_source(&self) -> i32 {
        self.source
    }

    /// The payload carried by the message.
    pub closed spec fn spec_payload(&self) -> &Payload {
        &self.payload
    }

    /// The message value with the given source id and payload, as seen by
    /// specifications.
    pub closed spec fn spec_new(source: i32, payload: Payload) -> Message {
        Message { source, payload }
    }

    /// Assembles a message from a source id and a payload.
    pub fn from_parts(source: i32, payload: Payload) -> (r: Self)
        ensures
            r == Message::spec_new(source, payload),
            r.spec_source() == source,
            *r.spec_payload() == payload,
    {
        Message { source, payload }
    }

    /// Returns the payload by reference.
    pub fn payload(&self) -> (r: &Payload)
        ensures
            r == self.spec_payload(),
    {
        &self.payload
    }

    /// Returns the source id.
    pub fn source(&self) -> (r: i32)
        ensures
            r == self.spec_source(),
    {
        self.source
    }

    /// Returns the user snapshot, if the message carries one.
    pub fn user(&self) -> (r: Option<User>)
        ensures
            match self.spec_payload() {
                Payload::User(u) => r == Option::Some(*u),
                _ => r is None,
            },
    {
        match &self.payload {
            Payload::User(u) => Option::Some(u.clone()),
            _ => Option::None,
        }
    }

    /// Returns the text message, if the message carries one.
    pub fn text(&self) -> (r: Option<TextMessage>)
        ensures
            match self.spec_payload() {
                Payload::Text(t) => r == Option::Some(*t),
                _ => r is None,
            },
    {
        match &self.payload {
            Payload::Text(t) => Option::Some(t.clone()),
            _ => Option::None,
        }
    }

    /// Returns the account record, if the message carries one.
    pub fn account(&self) -> (r: Option<UserAccount>)
        ensures
            match self.spec_payload() {
                Payload::Account(a) => {
                    &&& r is Some
                    &&& account_like(r.unwrap(), *a)
                },
                _ => r is None,
            },
    {
        match &self.payload {
            Payload::Account(a) => Option::Some(a.clone()),
            _ => Option::None,
        }
    }
}

/// The spec-level message constructor projects back to its parts: a
/// message built from a source id and a payload carries exactly them.
pub proof fn lemma_spec_new_parts(source: i32, payload: Payload)
    ensures
        Message::spec_new(source, payload).spec_source() == source,
        *Message::spec_new(source, payload).spec_payload() == payload,
{
}

/// Two account records carry the same data, field for field.
pub open spec fn account_like(a: UserAccount, b: UserAccount) -> bool {
    &&& a.username == b.username
    &&& a.password == b.password
    &&& a.user_type == b.user_type
    &&& a.user_rights == b.user_rights
    &&& a.note == b.note
    &&& a.init_channel == b.init_channel
    &&& a.user_data == b.user_data
    &&& a.auto_operator_channels@ == b.auto_operator_channels@
    &&& a.audio_codec_bps_limit == b.audio_codec_bps_limit
    &&& a.abuse_prevent == b.abuse_prevent
}

} // verus!
