//! Log messages and what becomes of them on the way to the wire.

pub mod compression;
pub mod metadata;
pub mod timestamp;
pub mod wire_message;

use vstd::prelude::*;
use crate::level::{Level, RecordLevel};
use crate::message::metadata::{lookup, with_entry, Entries, Metadata};
use crate::message::timestamp::Timestamp;

verus! {

/// What a message holds, as plain values.
pub struct MessageView {
    pub short_message: Seq<char>,
    pub full_message: Option<Seq<char>>,
    pub level: Level,
    /// Milliseconds since the Unix epoch.
    pub timestamp: nat,
    pub metadata: Entries,
}

/// The level of a message for which none was given.
pub open spec fn level_or_default(level: Option<Level>) -> Level {
    match level {
        Some(l) => l,
        None => Level::Informational,
    }
}

/// The message that a constructor makes, but for its timestamp: the text and
/// the level as given, no long text and no additional field.
pub open spec fn fresh(short_message: Seq<char>, level: Option<Level>, timestamp: nat) -> MessageView {
    MessageView {
        short_message,
        full_message: None,
        level: level_or_default(level),
        timestamp,
        metadata: Entries::empty(),
    }
}

/// One log event: a short text that is never empty, an optional long text, a
/// severity, the time of the event and additional fields.
#[derive(Debug)]
pub struct Message {
    short_message: String,
    full_message: Option<String>,
    level: Level,
    timestamp: Timestamp,
    metadata: Metadata,
}

impl View for Message {
    type V = MessageView;

    closed spec fn view(&self) -> MessageView {
        MessageView {
            short_message: self.short_message@,
            full_message: match self.full_message {
                Some(text) => Some(text@),
                None => None,
            },
            level: self.level,
            timestamp: self.timestamp@,
            metadata: self.metadata@,
        }
    }
}

impl Message {
    /// Every message has a short text.
    #[verifier::type_invariant]
    pub closed spec fn well_formed(self) -> bool {
        self.short_message@.len() > 0
    }

    /// A message of the given text at a given time. Without a level it is
    /// informational.
    pub fn new_with_timestamp(short_message: String, level: Option<Level>, timestamp: Timestamp) -> (m:
        Message)
        requires
            short_message@.len() > 0,
        ensures
            m@ == fresh(short_message@, level, timestamp@),
    {
        let level = match level {
            Some(l) => l,
            None => Level::Informational,
        };
        Message { short_message, full_message: None, level, timestamp, metadata: Metadata::new() }
    }

    /// A message of the given text, created now. Without a level it is
    /// informational. The system clock decides the timestamp.
    pub fn new(short_message: String, level: Option<Level>) -> (m: Message)
        requires
            short_message@.len() > 0,
        ensures
            m@ == fresh(short_message@, level, m@.timestamp),
    {
        Message::new_with_timestamp(short_message, level, Timestamp::now())
    }

    /// The message for a record of a generic logging facility, created now:
    /// none for a record without text.
    pub fn from_record(level: RecordLevel, text: String) -> (m: Option<Message>)
        ensures
            m is Some == (text@.len() > 0),
            m matches Some(message) ==> message@ == fresh(
                text@,
                Some(Level::of_record(level)),
                message@.timestamp,
            ),
    {
        if text.as_str().is_empty() {
            None
        } else {
            Some(Message::new(text, Some(Level::from_record_level(level))))
        }
    }

    /// The short text; it is never empty.
    pub fn short_message(&self) -> (text: &String)
        ensures
            text@ == self@.short_message,
            text@.len() > 0,
    {
        proof {
            use_type_invariant(self);
        }
        &self.short_message
    }

    /// The long text, if one is set.
    pub fn full_message(&self) -> (text: Option<&String>)
        ensures
            match text {
                Some(t) => self@.full_message == Some(t@),
                None => self@.full_message is None,
            },
    {
        match &self.full_message {
            Some(t) => Some(t),
            None => None,
        }
    }

    /// The severity.
    pub fn level(&self) -> (level: Level)
        ensures
            level == self@.level,
    {
        self.level
    }

    /// The time of the event.
    pub fn timestamp(&self) -> (timestamp: Timestamp)
        ensures
            timestamp@ == self@.timestamp,
    {
        self.timestamp
    }

    /// The value of an additional field, if the field is set.
    pub fn metadata(&self, key: &str) -> (value: Option<&String>)
        ensures
            match value {
                Some(v) => lookup(self@.metadata, key@) == Some(v@),
                None => lookup(self@.metadata, key@) is None,
            },
    {
        self.metadata.get(key)
    }

    /// All additional fields.
    pub fn all_metadata(&self) -> (fields: &Metadata)
        ensures
            fields@ == self@.metadata,
    {
        &self.metadata
    }

    /// Sets the long text.
    pub fn set_full_message(&mut self, full_message: String) -> (this: &mut Self)
        ensures
            this@ == (MessageView { full_message: Some(full_message@), ..old(self)@ }),
            final(self)@ == final(this)@,
    {
        proof {
            use_type_invariant(&*self);
        }
        self.full_message = Some(full_message);
        self
    }

    /// Sets the severity.
    pub fn set_level(&mut self, level: Level) -> (this: &mut Self)
        ensures
            this@ == (MessageView { level, ..old(self)@ }),
            final(self)@ == final(this)@,
    {
        proof {
            use_type_invariant(&*self);
        }
        self.level = level;
        self
    }

    /// Sets the time of the event.
    pub fn set_timestamp(&mut self, timestamp: Timestamp) -> (this: &mut Self)
        ensures
            this@ == (MessageView { timestamp: timestamp@, ..old(self)@ }),
            final(self)@ == final(this)@,
    {
        proof {
            use_type_invariant(&*self);
        }
        self.timestamp = timestamp;
        self
    }

    /// The same message with one additional field set.
    pub fn with_metadata(self, key: String, value: String) -> (m: Message)
        ensures
            m@ == (MessageView { metadata: with_entry(self@.metadata, key@, value@), ..self@ }),
    {
        proof {
            use_type_invariant(&self);
        }
        Message {
            short_message: self.short_message,
            full_message: self.full_message,
            level: self.level,
            timestamp: self.timestamp,
            metadata: self.metadata.with(key, value),
        }
    }

    /// Sets an additional field: an earlier value under the name is overwritten.
    /// Any name is taken here; the reserved ones are refused when the message
    /// is rendered.
    pub fn set_metadata(&mut self, key: String, value: String) -> (this: &mut Self)
        ensures
            this@ == (MessageView {
                metadata: with_entry(old(self)@.metadata, key@, value@),
                ..old(self)@
            }),
            final(self)@ == final(this)@,
    {
        let mut taken = Message::stand_in();
        std::mem::swap(self, &mut taken);
        *self = taken.with_metadata(key, value);
        self
    }

    /// A message to leave behind while another is taken apart: an
    /// informational message of a single dash, at the epoch.
    fn stand_in() -> (m: Message)
        ensures
            m@ == fresh("-"@, None, 0),
    {
        proof {
            reveal_strlit("-");
        }
        Message::new_with_timestamp(String::from_str("-"), None, Timestamp::from_millis(0))
    }
}

} // verus!
