use gelf::{Backend, Error, Level, Logger, Message, Timestamp, WireMessage};

struct Nowhere;

impl Backend for Nowhere {
    fn log(&self, _msg: WireMessage) {}
}

fn s(text: &str) -> String {
    String::from(text)
}

fn logger(host: &str) -> Logger {
    Logger::new_with_hostname(Box::new(Nowhere), host)
}

fn message(text: &str) -> Message {
    Message::new_with_timestamp(s(text), None, Timestamp::from_millis(1_500_000_000_123))
}

fn parsed(wire: &WireMessage) -> serde_json::Map<String, serde_json::Value> {
    let text = wire.to_gelf().unwrap();
    let value: serde_json::Value = serde_json::from_str(&text).unwrap();
    value.as_object().unwrap().clone()
}

#[test]
fn bare_message_is_rendered_with_the_structural_fields_only() {
    let wire = WireMessage::new(message("hi"), &logger("myhost"));
    assert_eq!(
        wire.to_gelf().unwrap(),
        "{\"version\":\"1.1\",\"host\":\"myhost\",\"short_message\":\"hi\",\"timestamp\":1500000000.123,\"level\":6}"
    );
    let object = parsed(&wire);
    let mut names: Vec<&str> = object.keys().map(|k| k.as_str()).collect();
    names.sort();
    assert_eq!(names, vec!["host", "level", "short_message", "timestamp", "version"]);
    assert!(!object.contains_key("full_message"));
    assert!(object.keys().all(|k| !k.starts_with('_')));
}

#[test]
fn bare_message_created_now_has_the_same_members() {
    let wire = WireMessage::new(Message::new(s("only short"), None), &logger("h"));
    let object = parsed(&wire);
    assert_eq!(object.len(), 5);
    assert_eq!(object["version"], serde_json::Value::from("1.1"));
    assert_eq!(object["host"], serde_json::Value::from("h"));
    assert_eq!(object["short_message"], serde_json::Value::from("only short"));
    assert_eq!(object["level"], serde_json::Value::from(6));
    assert!(object["timestamp"].as_f64().unwrap() > 1_500_000_000.0);
}

#[test]
fn full_message_stands_behind_the_short_one() {
    let mut msg = message("short");
    msg.set_full_message(s("the long\nstory"));
    msg.set_level(Level::Error);
    let wire = WireMessage::new(msg, &logger("box"));
    assert_eq!(
        wire.to_gelf().unwrap(),
        "{\"version\":\"1.1\",\"host\":\"box\",\"short_message\":\"short\",\"full_message\":\"the long\\nstory\",\"timestamp\":1500000000.123,\"level\":3}"
    );
    assert_eq!(parsed(&wire)["full_message"], serde_json::Value::from("the long\nstory"));
}

#[test]
fn message_metadata_wins_over_default() {
    let mut l = logger("h");
    l.add_default_metadata(s("facility"), s("a"));
    let mut msg = message("hi");
    msg.set_metadata(s("facility"), s("b"));
    let wire = WireMessage::new(msg, &l);
    let object = parsed(&wire);
    assert_eq!(object["_facility"], serde_json::Value::from("b"));
    assert_eq!(object.len(), 6);
    assert_eq!(wire.message().metadata("facility"), Some(&s("b")));
}

#[test]
fn default_fills_what_the_message_leaves_out() {
    let mut l = logger("h");
    l.add_default_metadata(s("facility"), s("a"));
    let wire = WireMessage::new(message("hi"), &l);
    let object = parsed(&wire);
    assert_eq!(object["_facility"], serde_json::Value::from("a"));
    assert_eq!(
        wire.to_gelf().unwrap(),
        "{\"version\":\"1.1\",\"host\":\"h\",\"short_message\":\"hi\",\"timestamp\":1500000000.123,\"level\":6,\"_facility\":\"a\"}"
    );
}

#[test]
fn own_fields_come_first_and_defaults_follow_in_their_order() {
    let mut l = logger("h");
    l.add_default_metadata(s("d1"), s("1"));
    l.add_default_metadata(s("shared"), s("default"));
    l.add_default_metadata(s("d2"), s("2"));
    let mut msg = message("hi");
    msg.set_metadata(s("own"), s("o"));
    msg.set_metadata(s("shared"), s("mine"));
    let wire = WireMessage::new(msg, &l);
    let fields = wire.message().all_metadata();
    assert_eq!(fields.len(), 4);
    assert_eq!((fields.key_at(0).as_str(), fields.value_at(0).as_str()), ("own", "o"));
    assert_eq!((fields.key_at(1).as_str(), fields.value_at(1).as_str()), ("shared", "mine"));
    assert_eq!((fields.key_at(2).as_str(), fields.value_at(2).as_str()), ("d1", "1"));
    assert_eq!((fields.key_at(3).as_str(), fields.value_at(3).as_str()), ("d2", "2"));
    assert_eq!(
        wire.to_gelf().unwrap(),
        "{\"version\":\"1.1\",\"host\":\"h\",\"short_message\":\"hi\",\"timestamp\":1500000000.123,\"level\":6,\"_own\":\"o\",\"_shared\":\"mine\",\"_d1\":\"1\",\"_d2\":\"2\"}"
    );
}

#[test]
fn wire_message_carries_the_rest_of_the_message_unchanged() {
    let mut l = logger("h");
    l.add_default_metadata(s("d"), s("1"));
    let mut msg = message("short");
    msg.set_full_message(s("full"));
    msg.set_level(Level::Alert);
    let wire = WireMessage::new(msg, &l);
    assert_eq!(wire.host(), "h");
    assert_eq!(wire.message().short_message(), "short");
    assert_eq!(wire.message().full_message(), Some(&s("full")));
    assert_eq!(wire.message().level(), Level::Alert);
    assert_eq!(wire.message().timestamp().as_millis(), 1_500_000_000_123);
}

#[test]
fn rendering_twice_gives_the_same_bytes() {
    let mut l = logger("h");
    l.add_default_metadata(s("facility"), s("a"));
    let mut msg = message("hi \"there\"");
    msg.set_metadata(s("k"), s("v"));
    let wire = WireMessage::new(msg, &l);
    let first = wire.to_gelf().unwrap();
    let second = wire.to_gelf().unwrap();
    assert_eq!(first.as_bytes(), second.as_bytes());
}

#[test]
fn id_is_accepted_as_a_field_name() {
    let mut msg = message("hi");
    msg.set_metadata(s("id"), s("42"));
    let wire = WireMessage::new(msg, &logger("h"));
    assert_eq!(parsed(&wire)["_id"], serde_json::Value::from("42"));
}

#[test]
fn reserved_name_is_refused() {
    let mut msg = message("hi");
    msg.set_metadata(s("host"), s("other"));
    let wire = WireMessage::new(msg, &logger("h"));
    assert_eq!(wire.to_gelf(), Err(Error::EncodingFailed(s("host"))));
}

#[test]
fn every_reserved_name_is_refused() {
    for name in ["version", "host", "short_message", "full_message", "timestamp", "level"] {
        let mut msg = message("hi");
        msg.set_metadata(s("fine"), s("1"));
        msg.set_metadata(s(name), s("x"));
        let wire = WireMessage::new(msg, &logger("h"));
        assert_eq!(wire.to_gelf(), Err(Error::EncodingFailed(s(name))));
    }
}

#[test]
fn reserved_name_behind_underscores_is_refused() {
    for name in ["_host", "__host", "_level", "___timestamp"] {
        let mut msg = message("hi");
        msg.set_metadata(s(name), s("x"));
        let wire = WireMessage::new(msg, &logger("h"));
        assert_eq!(wire.to_gelf(), Err(Error::EncodingFailed(s(name))));
    }
}

#[test]
fn names_that_only_resemble_reserved_ones_are_accepted() {
    for name in ["hostname", "Host", "host_", "ho_st", "levels", "", "_", "__", "version2", "id"] {
        let mut msg = message("hi");
        msg.set_metadata(s(name), s("x"));
        let wire = WireMessage::new(msg, &logger("h"));
        let object = parsed(&wire);
        assert_eq!(object[&format!("_{}", name)], serde_json::Value::from("x"));
        assert_eq!(object.len(), 6);
    }
}

#[test]
fn recognises_aliases_of_reserved_names() {
    assert!(gelf::message::wire_message::is_reserved_alias("host"));
    assert!(gelf::message::wire_message::is_reserved_alias("_short_message"));
    assert!(gelf::message::wire_message::is_reserved_alias("__full_message"));
    assert!(!gelf::message::wire_message::is_reserved_alias("id"));
    assert!(!gelf::message::wire_message::is_reserved_alias(""));
    assert!(!gelf::message::wire_message::is_reserved_alias("___"));
    assert!(!gelf::message::wire_message::is_reserved_alias("host\u{e9}"));
    assert!(!gelf::message::wire_message::is_reserved_alias("\u{e9}_host"));
}

#[test]
fn first_refused_name_is_reported() {
    let mut msg = message("hi");
    msg.set_metadata(s("ok"), s("1"));
    msg.set_metadata(s("level"), s("2"));
    msg.set_metadata(s("host"), s("3"));
    let wire = WireMessage::new(msg, &logger("h"));
    assert_eq!(wire.to_gelf(), Err(Error::EncodingFailed(s("level"))));
}

#[test]
fn reserved_default_is_refused_too() {
    let mut l = logger("h");
    l.add_default_metadata(s("version"), s("9"));
    let wire = WireMessage::new(message("hi"), &l);
    assert_eq!(wire.to_gelf(), Err(Error::EncodingFailed(s("version"))));
}

#[test]
fn texts_are_escaped_where_json_asks_for_it() {
    let mut l = logger("my\"host\\");
    l.add_default_metadata(s("tab\tkey"), s("bell\u{7}"));
    let mut msg = message("line\nbreak");
    msg.set_full_message(s("gr\u{fc}\u{df}e \u{1f980}"));
    msg.set_metadata(s("quote\""), s("back\\slash"));
    let wire = WireMessage::new(msg, &l);
    assert_eq!(
        wire.to_gelf().unwrap(),
        "{\"version\":\"1.1\",\"host\":\"my\\\"host\\\\\",\"short_message\":\"line\\nbreak\",\"full_message\":\"gr\u{fc}\u{df}e \u{1f980}\",\"timestamp\":1500000000.123,\"level\":6,\"_quote\\\"\":\"back\\\\slash\",\"_tab\\tkey\":\"bell\\u0007\"}"
    );
    let object = parsed(&wire);
    assert_eq!(object["host"], serde_json::Value::from("my\"host\\"));
    assert_eq!(object["short_message"], serde_json::Value::from("line\nbreak"));
    assert_eq!(object["full_message"], serde_json::Value::from("gr\u{fc}\u{df}e \u{1f980}"));
    assert_eq!(object["_quote\""], serde_json::Value::from("back\\slash"));
    assert_eq!(object["_tab\tkey"], serde_json::Value::from("bell\u{7}"));
}

#[test]
fn level_is_rendered_as_its_code() {
    for (level, code) in [(Level::Emergency, 0), (Level::Warning, 4), (Level::Debug, 7)] {
        let mut msg = message("hi");
        msg.set_level(level);
        let wire = WireMessage::new(msg, &logger("h"));
        assert_eq!(parsed(&wire)["level"], serde_json::Value::from(code));
    }
}

#[test]
fn timestamp_is_rendered_in_fractional_seconds() {
    let mut msg = message("hi");
    msg.set_timestamp(Timestamp::from_millis(7));
    let wire = WireMessage::new(msg, &logger("h"));
    assert_eq!(
        wire.to_gelf().unwrap(),
        "{\"version\":\"1.1\",\"host\":\"h\",\"short_message\":\"hi\",\"timestamp\":0.007,\"level\":6}"
    );
}
