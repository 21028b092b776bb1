//! A message as it goes over the wire: merged with a logger's hostname and
//! default fields, and rendered as one flat JSON object.

use vstd::prelude::*;
use vstd::utf8::encode_utf8;
use crate::errors::Error;
use crate::json::{
    begin_member, decimal, digit_char, escaped, escaped_concat, escaped_single, member_appended,
    members_text, object_text, push_escaped, push_string_literal, separator, string_literal,
    Member,
};
use crate::level::Level;
use crate::logger::{Logger, LoggerView};
use crate::message::metadata::{
    distinct_keys, has_key, index_of, lookup, with_entry, with_entry_sets_one_key, Entries,
};
use crate::message::timestamp::timestamp_text;
use crate::message::{fresh, level_or_default, Message, MessageView};

verus! {

/// What a wire message holds, as plain values.
pub struct WireView {
    pub host: Seq<char>,
    pub message: MessageView,
}

/// A message's own fields, followed by the default fields whose names the
/// message does not set, in the order of the defaults.
pub open spec fn merged(own: Entries, defaults: Entries) -> Entries
    decreases defaults.len(),
{
    if defaults.len() == 0 {
        own
    } else {
        let before = merged(own, defaults.drop_last());
        if has_key(own, defaults.last().0) {
            before
        } else {
            before.push(defaults.last())
        }
    }
}

/// The wire message for a message that is logged through a logger.
pub open spec fn normalized(msg: MessageView, logger: LoggerView) -> WireView {
    WireView {
        host: logger.hostname,
        message: MessageView { metadata: merged(msg.metadata, logger.default_metadata), ..msg },
    }
}

/// A name without the underscores that it begins with.
pub open spec fn without_leading_underscores(name: Seq<char>) -> Seq<char>
    decreases name.len(),
{
    if name.len() > 0 && name[0] == '_' {
        without_leading_underscores(name.skip(1))
    } else {
        name
    }
}

/// The names of the fields that GELF itself defines.
pub open spec fn is_reserved(name: Seq<char>) -> bool {
    ||| name == "version"@
    ||| name == "host"@
    ||| name == "short_message"@
    ||| name == "full_message"@
    ||| name == "timestamp"@
    ||| name == "level"@
}

/// An additional field may not stand for a reserved one: its name, with or
/// without underscores before it, may not be a reserved name.
pub open spec fn collides_with_reserved(key: Seq<char>) -> bool {
    is_reserved(without_leading_underscores(key))
}

/// The name of the first field that stands for a reserved one, if there is one.
pub open spec fn first_collision(entries: Entries) -> Option<Seq<char>>
    decreases entries.len(),
{
    if entries.len() == 0 {
        None
    } else if collides_with_reserved(entries[0].0) {
        Some(entries[0].0)
    } else {
        first_collision(entries.skip(1))
    }
}

/// The member that an additional field becomes: its name behind an
/// underscore, its value as a string.
pub open spec fn additional_member(entry: (Seq<char>, Seq<char>)) -> Member {
    Member { name: seq!['_'] + entry.0, value: string_literal(entry.1) }
}

/// The members of the additional fields, in their order.
pub open spec fn additional_members(entries: Entries) -> Seq<Member> {
    Seq::new(entries.len(), |i: int| additional_member(entries[i]))
}

/// The members that GELF itself defines, in the order in which they are
/// written: the version, the host, the short text, the long text where there
/// is one, the timestamp and the level.
pub open spec fn structural_members(wire: WireView) -> Seq<Member> {
    seq![
        Member { name: "version"@, value: string_literal("1.1"@) },
        Member { name: "host"@, value: string_literal(wire.host) },
        Member { name: "short_message"@, value: string_literal(wire.message.short_message) },
    ] + match wire.message.full_message {
        Some(text) => seq![Member { name: "full_message"@, value: string_literal(text) }],
        None => Seq::empty(),
    } + seq![
        Member { name: "timestamp"@, value: timestamp_text(wire.message.timestamp) },
        Member { name: "level"@, value: decimal(wire.message.level.code_of()) },
    ]
}

/// All members of the rendered object: the structural ones, then the
/// additional fields.
pub open spec fn staged_members(wire: WireView) -> Seq<Member> {
    structural_members(wire) + additional_members(wire.message.metadata)
}

/// How a wire message is rendered: as the object of its members, unless an
/// additional field stands for a reserved one; then the first such name is
/// reported.
pub open spec fn encoding(wire: WireView) -> Result<Seq<char>, Seq<char>> {
    match first_collision(wire.message.metadata) {
        Some(name) => Err(name),
        None => Ok(object_text(staged_members(wire))),
    }
}

/// What rendering may give for a wire message: the text of `encoding`, or the
/// failure that holds the name which `encoding` reports.
pub open spec fn renders_as(wire: WireView, outcome: Result<String, Error>) -> bool {
    match outcome {
        Ok(text) => encoding(wire) == Ok::<Seq<char>, Seq<char>>(text@),
        Err(Error::EncodingFailed(name)) => encoding(wire) == Err::<Seq<char>, Seq<char>>(name@),
        Err(_) => false,
    }
}

/// A name is among the merged fields exactly if the message or the defaults
/// set it.
pub proof fn merged_has_key(own: Entries, defaults: Entries, key: Seq<char>)
    ensures
        has_key(merged(own, defaults), key) <==> has_key(own, key) || has_key(defaults, key),
    decreases defaults.len(),
{
    if defaults.len() > 0 {
        let rest = defaults.drop_last();
        let before = merged(own, rest);
        let last = defaults.last();
        merged_has_key(own, rest, key);
        if has_key(defaults, key) {
            let i = index_of(defaults, key);
            if i < rest.len() {
                assert(rest[i].0 == key);
            }
        }
        if has_key(rest, key) {
            let i = index_of(rest, key);
            assert(defaults[i].0 == key);
        }
        if last.0 == key {
            assert(defaults[defaults.len() - 1].0 == key);
        }
        if !has_key(own, last.0) {
            let after = before.push(last);
            if has_key(before, key) {
                let i = index_of(before, key);
                assert(after[i].0 == key);
            }
            if last.0 == key {
                assert(after[before.len() as int].0 == key);
            }
            if has_key(after, key) {
                let i = index_of(after, key);
                if i < before.len() {
                    assert(before[i].0 == key);
                }
            }
        }
    }
}

/// Field precedence. Where the message and the defaults set the same name,
/// the message's value stands; a default fills only a name that the message
/// does not set. The merged fields hold each name once.
pub proof fn message_metadata_wins(own: Entries, defaults: Entries, key: Seq<char>)
    requires
        distinct_keys(own),
        distinct_keys(defaults),
    ensures
        distinct_keys(merged(own, defaults)),
        lookup(merged(own, defaults), key) == if has_key(own, key) {
            lookup(own, key)
        } else {
            lookup(defaults, key)
        },
    decreases defaults.len(),
{
    if defaults.len() > 0 {
        let rest = defaults.drop_last();
        let before = merged(own, rest);
        let last = defaults.last();
        assert(distinct_keys(rest));
        message_metadata_wins(own, rest, key);
        merged_has_key(own, rest, last.0);
        assert(!has_key(rest, last.0)) by {
            if has_key(rest, last.0) {
                let i = index_of(rest, last.0);
                assert(defaults[i].0 == defaults[defaults.len() - 1].0);
            }
        }
        assert(with_entry(rest, last.0, last.1) =~= defaults);
        with_entry_sets_one_key(rest, last.0, last.1, key);
        if has_key(own, last.0) {
            assert(key != last.0 || has_key(own, key));
        } else {
            assert(with_entry(before, last.0, last.1) =~= before.push(last));
            with_entry_sets_one_key(before, last.0, last.1, key);
        }
    }
}

/// Default fallback and precedence, spelled out for one name.
pub proof fn merged_value(own: Entries, defaults: Entries, key: Seq<char>, value: Seq<char>)
    requires
        distinct_keys(own),
        distinct_keys(defaults),
    ensures
        lookup(own, key) == Some(value) ==> lookup(merged(own, defaults), key) == Some(value),
        !has_key(own, key) && lookup(defaults, key) == Some(value) ==> lookup(
            merged(own, defaults),
            key,
        ) == Some(value),
{
    message_metadata_wins(own, defaults, key);
}

/// No field is refused exactly if no name among the fields stands for a
/// reserved field; a name that is reported is one of the names.
pub proof fn collision_free_iff(entries: Entries)
    ensures
        first_collision(entries) is None <==> forall|i: int|
            0 <= i < entries.len() ==> !collides_with_reserved(#[trigger] entries[i].0),
        first_collision(entries) matches Some(name) ==> has_key(entries, name)
            && collides_with_reserved(name),
    decreases entries.len(),
{
    if entries.len() > 0 {
        let rest = entries.skip(1);
        collision_free_iff(rest);
        assert(forall|i: int| 0 <= i < rest.len() ==> rest[i] == entries[i + 1]);
        if !collides_with_reserved(entries[0].0) {
            if first_collision(rest) is None {
                assert forall|i: int| 0 <= i < entries.len() implies !collides_with_reserved(
                    #[trigger] entries[i].0,
                ) by {
                    if i > 0 {
                        assert(rest[i - 1] == entries[i]);
                    }
                }
            } else {
                let name = first_collision(rest)->0;
                let j = index_of(rest, name);
                assert(entries[j + 1].0 == name);
            }
        } else {
            assert(has_key(entries, entries[0].0));
        }
    }
}

/// Underscores before a name change nothing about what it stands for.
pub proof fn underscores_do_not_hide(name: Seq<char>)
    ensures
        without_leading_underscores(seq!['_'] + name) == without_leading_underscores(name),
        collides_with_reserved(seq!['_'] + name) == collides_with_reserved(name),
{
    assert((seq!['_'] + name).skip(1) =~= name);
}

/// The reserved names themselves are refused as names of additional fields.
pub proof fn reserved_names_collide(name: Seq<char>)
    requires
        is_reserved(name),
    ensures
        collides_with_reserved(name),
{
    reveal_strlit("version");
    reveal_strlit("host");
    reveal_strlit("short_message");
    reveal_strlit("full_message");
    reveal_strlit("timestamp");
    reveal_strlit("level");
    assert(name.len() > 0 && name[0] != '_');
}

/// A message with nothing but its short text, logged through a logger
/// without default fields, is rendered with the structural members alone:
/// the version, the host, the short text, the timestamp and the level. No
/// long text and no additional field stands in the object.
pub proof fn bare_message_has_structural_members_only(
    short_message: Seq<char>,
    level: Option<Level>,
    timestamp: nat,
    hostname: Seq<char>,
)
    ensures
        ({
            let logger = LoggerView { hostname, default_metadata: Entries::empty() };
            let wire = normalized(fresh(short_message, level, timestamp), logger);
            let members = seq![
                Member { name: "version"@, value: string_literal("1.1"@) },
                Member { name: "host"@, value: string_literal(hostname) },
                Member { name: "short_message"@, value: string_literal(short_message) },
                Member { name: "timestamp"@, value: timestamp_text(timestamp) },
                Member {
                    name: "level"@,
                    value: decimal(level_or_default(level).code_of()),
                },
            ];
            &&& staged_members(wire) == members
            &&& encoding(wire) == Ok::<Seq<char>, Seq<char>>(object_text(members))
        }),
{
    let logger = LoggerView { hostname, default_metadata: Entries::empty() };
    let wire = normalized(fresh(short_message, level, timestamp), logger);
    assert(wire.message.metadata =~= Entries::empty());
    assert(additional_members(wire.message.metadata) =~= Seq::<Member>::empty());
    assert(staged_members(wire) =~= seq![
        Member { name: "version"@, value: string_literal("1.1"@) },
        Member { name: "host"@, value: string_literal(hostname) },
        Member { name: "short_message"@, value: string_literal(short_message) },
        Member { name: "timestamp"@, value: timestamp_text(timestamp) },
        Member {
            name: "level"@,
            value: decimal(level_or_default(level).code_of()),
        },
    ]);
}

/// The version comes first in every rendering, and it is 1.1.
pub proof fn version_is_always_present(wire: WireView)
    ensures
        staged_members(wire).len() >= 5,
        staged_members(wire)[0] == (Member { name: "version"@, value: string_literal("1.1"@) }),
{
}

/// Hostname propagation. The wire message of any message logged through a
/// logger names the logger's host, and the rendered `host` member holds it.
pub proof fn host_is_the_loggers(msg: MessageView, logger: LoggerView)
    ensures
        normalized(msg, logger).host == logger.hostname,
        staged_members(normalized(msg, logger))[1] == (Member {
            name: "host"@,
            value: string_literal(logger.hostname),
        }),
{
}

/// The additional field of every merged entry is rendered under the entry's
/// name behind one underscore, with the entry's value as a string.
pub proof fn additional_fields_are_prefixed(wire: WireView, i: int)
    requires
        0 <= i < wire.message.metadata.len(),
    ensures
        ({
            let at = staged_members(wire).len() - wire.message.metadata.len() + i;
            let member = staged_members(wire)[at];
            &&& member.name == seq!['_'] + wire.message.metadata[i].0
            &&& member.value == string_literal(wire.message.metadata[i].1)
        }),
{
}

/// Idempotence. Two renderings of the same wire message agree: both give
/// the same text, byte for byte, or both report the same name.
pub proof fn rendering_is_repeatable(
    wire: WireView,
    first: Result<String, Error>,
    second: Result<String, Error>,
)
    requires
        renders_as(wire, first),
        renders_as(wire, second),
    ensures
        first is Ok <==> second is Ok,
        first matches Ok(a) ==> second matches Ok(b) ==> a@ == b@ && encode_utf8(a@)
            == encode_utf8(b@),
        first matches Err(Error::EncodingFailed(a)) ==> second matches Err(
            Error::EncodingFailed(b),
        ) && a@ == b@,
{
}

/// Tells whether the name of an additional field stands for a reserved field.
pub fn is_reserved_alias(key: &str) -> (b: bool)
    ensures
        b == collides_with_reserved(key@),
{
    let n = key.unicode_len();
    let mut start: usize = 0;
    assert(key@.skip(0) =~= key@);
    while start < n && key.get_char(start) == '_'
        invariant
            start <= n,
            n == key@.len(),
            without_leading_underscores(key@) == without_leading_underscores(
                key@.skip(start as int),
            ),
        decreases n - start,
    {
        assert(key@.skip(start as int).skip(1) =~= key@.skip(start as int + 1));
        start += 1;
    }
    let name = key.substring_char(start, n);
    assert(name@ =~= key@.skip(start as int));
    name.eq("version") || name.eq("host") || name.eq("short_message") || name.eq("full_message")
        || name.eq("timestamp") || name.eq("level")
}

/// A log message that is ready for the wire: it names its host and holds the
/// logger's default fields beside its own.
#[derive(Debug)]
pub struct WireMessage {
    host: String,
    message: Message,
}

impl View for WireMessage {
    type V = WireView;

    closed spec fn view(&self) -> WireView {
        WireView { host: self.host@, message: self.message@ }
    }
}

impl WireMessage {
    /// The wire message for a message that is logged through a logger: it
    /// carries the logger's hostname, the message's own fields, and each
    /// default field whose name the message does not set.
    pub fn new(msg: Message, logger: &Logger) -> (wire: WireMessage)
        ensures
            wire@ == normalized(msg@, logger@),
    {
        let defaults = logger.default_metadata();
        let n = defaults.len();
        let ghost given = msg@;
        let mut message = msg;
        let mut i: usize = 0;
        while i < n
            invariant
                i <= n,
                n == defaults@.len(),
                distinct_keys(defaults@),
                message@ == (MessageView {
                    metadata: merged(given.metadata, defaults@.take(i as int)),
                    ..given
                }),
            decreases n - i,
        {
            let key = defaults.key_at(i);
            let ghost seen = defaults@.take(i as int);
            let ghost next = defaults@.take(i as int + 1);
            proof {
                assert(next.drop_last() =~= seen);
                assert(next.last() == defaults@[i as int]);
                merged_has_key(given.metadata, seen, key@);
                if has_key(seen, key@) {
                    let j = index_of(seen, key@);
                    assert(defaults@[j].0 == defaults@[i as int].0);
                }
            }
            if !message.all_metadata().contains_key(key.as_str()) {
                let value = defaults.value_at(i);
                let ghost before = message@.metadata;
                message = message.with_metadata(key.clone(), value.clone());
                assert(message@.metadata =~= before.push(defaults@[i as int]));
            }
            i += 1;
        }
        assert(defaults@.take(n as int) =~= defaults@);
        WireMessage { host: logger.hostname().clone(), message }
    }

    /// The host that the message comes from.
    pub fn host(&self) -> (host: &String)
        ensures
            host@ == self@.host,
    {
        &self.host
    }

    /// The message, with the default fields merged in.
    pub fn message(&self) -> (message: &Message)
        ensures
            message@ == self@.message,
    {
        &self.message
    }

    /// The place of the first additional field whose name stands for a
    /// reserved field.
    fn find_collision(&self) -> (found: Option<usize>)
        ensures
            match found {
                Some(i) => i < self@.message.metadata.len() && first_collision(
                    self@.message.metadata,
                ) == Some(self@.message.metadata[i as int].0),
                None => first_collision(self@.message.metadata) is None,
            },
    {
        let fields = self.message.all_metadata();
        let n = fields.len();
        let mut i: usize = 0;
        assert(fields@.skip(0) =~= fields@);
        while i < n
            invariant
                i <= n,
                n == fields@.len(),
                fields@ == self@.message.metadata,
                first_collision(fields@) == first_collision(fields@.skip(i as int)),
            decreases n - i,
        {
            assert(fields@.skip(i as int)[0] == fields@[i as int]);
            if is_reserved_alias(fields.key_at(i).as_str()) {
                return Some(i);
            }
            assert(fields@.skip(i as int).skip(1) =~= fields@.skip(i as int + 1));
            i += 1;
        }
        None
    }

    /// Appends the members that GELF itself defines.
    fn push_structural(&self, out: &mut String)
        ensures
            final(out)@ == old(out)@ + members_text(structural_members(self@)),
    {
        let ghost base = out@;
        let ghost mut done: Seq<Member> = Seq::empty();
        assert(out@ =~= base + members_text(done));

        let ghost version = Member { name: "version"@, value: string_literal("1.1"@) };
        begin_member(out, "version", true);
        push_string_literal(out, "1.1");
        proof {
            member_appended(base, done, version, out@);
            done = done.push(version);
        }

        let ghost host = Member { name: "host"@, value: string_literal(self@.host) };
        begin_member(out, "host", false);
        push_string_literal(out, self.host.as_str());
        proof {
            member_appended(base, done, host, out@);
            done = done.push(host);
        }

        let ghost short = Member {
            name: "short_message"@,
            value: string_literal(self@.message.short_message),
        };
        begin_member(out, "short_message", false);
        push_string_literal(out, self.message.short_message().as_str());
        proof {
            member_appended(base, done, short, out@);
            done = done.push(short);
        }

        match self.message.full_message() {
            Some(text) => {
                let ghost full = Member { name: "full_message"@, value: string_literal(text@) };
                begin_member(out, "full_message", false);
                push_string_literal(out, text.as_str());
                proof {
                    member_appended(base, done, full, out@);
                    done = done.push(full);
                }
            },
            None => {},
        }

        let ghost time = Member {
            name: "timestamp"@,
            value: timestamp_text(self@.message.timestamp),
        };
        begin_member(out, "timestamp", false);
        self.message.timestamp().push_text(out);
        proof {
            member_appended(base, done, time, out@);
            done = done.push(time);
        }

        let ghost level = Member {
            name: "level"@,
            value: decimal(self@.message.level.code_of()),
        };
        begin_member(out, "level", false);
        out.push(digit_char(self.message.level().code()));
        proof {
            assert(out@ =~= base + members_text(done) + separator(false) + string_literal(level.name)
                + seq![':'] + level.value);
            member_appended(base, done, level, out@);
            done = done.push(level);
            assert(done =~= structural_members(self@));
        }
    }

    /// Appends one additional field behind the members before it.
    fn push_additional(out: &mut String, key: &str, value: &str)
        ensures
            final(out)@ == old(out)@ + separator(false) + string_literal(seq!['_'] + key@) + seq![':']
                + string_literal(value@),
    {
        out.push(',');
        out.push('"');
        out.push('_');
        push_escaped(out, key);
        out.push('"');
        out.push(':');
        let ghost named = out@;
        push_string_literal(out, value);
        proof {
            escaped_concat(seq!['_'], key@);
            escaped_single('_');
            assert(string_literal(seq!['_'] + key@) =~= seq!['"', '_'] + escaped(key@) + seq!['"']);
            assert(named =~= old(out)@ + separator(false) + string_literal(seq!['_'] + key@) + seq![
                ':',
            ]);
        }
    }

    /// Renders the message as GELF: one flat JSON object of the structural
    /// members and the additional fields, each additional name behind an
    /// underscore. A field that stands for a reserved one is refused, and the
    /// first such name reported. Nothing else is refused: every text can be
    /// written as a JSON string.
    pub fn to_gelf(&self) -> (r: Result<String, Error>)
        ensures
            renders_as(self@, r),
    {
        let fields = self.message.all_metadata();
        match self.find_collision() {
            Some(i) => { return Err(Error::EncodingFailed(fields.key_at(i).clone())); },
            None => {},
        }
        let n = fields.len();
        let ghost fixed = structural_members(self@);
        let ghost open = seq!['{'];
        let mut out = String::new();
        out.push('{');
        assert(out@ =~= open);
        self.push_structural(&mut out);
        assert(fixed + additional_members(fields@.take(0)) =~= fixed);
        let mut i: usize = 0;
        while i < n
            invariant
                i <= n,
                n == fields@.len(),
                fixed.len() > 0,
                out@ == open + members_text(fixed + additional_members(fields@.take(i as int))),
            decreases n - i,
        {
            let ghost done = fixed + additional_members(fields@.take(i as int));
            let ghost next = additional_member(fields@[i as int]);
            WireMessage::push_additional(&mut out, fields.key_at(i).as_str(), fields.value_at(i).as_str());
            proof {
                member_appended(open, done, next, out@);
                assert(done.push(next) =~= fixed + additional_members(fields@.take(i as int + 1)));
            }
            i += 1;
        }
        assert(fields@.take(n as int) =~= fields@);
        out.push('}');
        assert(out@ =~= object_text(staged_members(self@)));
        Ok(out)
    }
}

} // verus!
