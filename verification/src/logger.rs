//! The logger: a hostname, default fields and a transport.

use vstd::prelude::*;
use crate::backends::Backend;
use crate::errors::Error;
use crate::level::RecordLevel;
use crate::message::metadata::{with_entry, Entries, Metadata};
use crate::message::wire_message::{normalized, WireMessage};
use crate::message::Message;

verus! {

/// `hostname::get_hostname` asks the operating system for the name of this
/// host, and gives none where the system call fails. The machine decides the
/// outcome: nothing is claimed of it.
#[verifier::external_body]
fn detect_hostname() -> (name: Option<String>) {
    hostname::get_hostname()
}

/// What a logger holds beside its transport, as plain values.
pub struct LoggerView {
    pub hostname: Seq<char>,
    pub default_metadata: Entries,
}

/// Sends log messages in GELF to a transport. It names the host that the
/// messages come from and holds default fields for them.
pub struct Logger {
    hostname: String,
    backend: Box<dyn Backend>,
    default_metadata: Metadata,
}

impl View for Logger {
    type V = LoggerView;

    closed spec fn view(&self) -> LoggerView {
        LoggerView { hostname: self.hostname@, default_metadata: self.default_metadata@ }
    }
}

impl Logger {
    /// The logger over a transport for an outcome of hostname detection: it
    /// carries the detected name and no default field, and there is none
    /// where no name was detected.
    pub fn from_detected(backend: Box<dyn Backend>, detected: Option<String>) -> (r: Result<
        Logger,
        Error,
    >)
        ensures
            match (detected, r) {
                (Some(name), Ok(logger)) => logger@ == (LoggerView {
                    hostname: name@,
                    default_metadata: Entries::empty(),
                }),
                (None, Err(e)) => e == Error::LoggerCreateFailed,
                _ => false,
            },
    {
        match detected {
            Some(name) => Ok(Logger::new_with_hostname(backend, name.as_str())),
            None => Err(Error::LoggerCreateFailed),
        }
    }

    /// A logger over a transport, named after this host. The operating system
    /// decides whether a name is found; `from_detected` says what becomes of
    /// each outcome.
    pub fn new(backend: Box<dyn Backend>) -> (r: Result<Logger, Error>)
        ensures
            match r {
                Ok(logger) => logger@.default_metadata == Entries::empty(),
                Err(e) => e == Error::LoggerCreateFailed,
            },
    {
        Logger::from_detected(backend, detect_hostname())
    }

    /// A logger over a transport with a given hostname and no default field.
    pub fn new_with_hostname(backend: Box<dyn Backend>, hostname: &str) -> (logger: Logger)
        ensures
            logger@ == (LoggerView { hostname: hostname@, default_metadata: Entries::empty() }),
    {
        Logger { hostname: hostname.to_owned(), backend, default_metadata: Metadata::new() }
    }

    /// What the transport is handed for a message: the message with the
    /// logger's hostname and with the default fields that it does not set
    /// itself.
    pub fn wire_message(&self, msg: Message) -> (wire: WireMessage)
        ensures
            wire@ == normalized(msg@, self@),
    {
        WireMessage::new(msg, self)
    }

    /// Logs a message: hands `wire_message(msg)` to the transport.
    pub fn log_message(&self, msg: Message) {
        self.backend.log(self.wire_message(msg));
    }

    /// Whether a record of a generic logging facility is taken: each one is,
    /// whatever its level. Filtering is left to whoever feeds the records.
    pub fn enabled(&self, _level: RecordLevel) -> (taken: bool)
        ensures
            taken,
    {
        true
    }

    /// Logs a record of a generic logging facility as a message of its text,
    /// at the level that stands for the record's. A record without text is
    /// passed over, and the result says so.
    pub fn log(&self, level: RecordLevel, text: String) -> (logged: bool)
        ensures
            logged == (text@.len() > 0),
    {
        match Message::from_record(level, text) {
            Some(msg) => {
                self.log_message(msg);
                true
            },
            None => false,
        }
    }

    /// The hostname that goes into the `host` field.
    pub fn hostname(&self) -> (name: &String)
        ensures
            name@ == self@.hostname,
    {
        &self.hostname
    }

    /// Sets the hostname that goes into the `host` field.
    pub fn set_hostname(&mut self, hostname: String) -> (this: &mut Self)
        ensures
            this@ == (LoggerView { hostname: hostname@, ..old(self)@ }),
            final(self)@ == final(this)@,
    {
        self.hostname = hostname;
        self
    }

    /// The default fields.
    pub fn default_metadata(&self) -> (fields: &Metadata)
        ensures
            fields@ == self@.default_metadata,
    {
        &self.default_metadata
    }

    /// Sets a default field: an earlier default under the name is
    /// overwritten. A message gets the field unless it sets the name itself.
    pub fn add_default_metadata(&mut self, key: String, value: String) -> (this: &mut Self)
        ensures
            this@ == (LoggerView {
                default_metadata: with_entry(old(self)@.default_metadata, key@, value@),
                ..old(self)@
            }),
            final(self)@ == final(this)@,
    {
        self.default_metadata.insert(key, value);
        self
    }
}

} // verus!
