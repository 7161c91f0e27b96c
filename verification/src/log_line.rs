//! Lines of the engine's mjai log, on their way to becoming events.

use vstd::prelude::*;
use serde_json::Value;
use crate::text::same_text;

verus! {

/// A JSON value. Opaque: what it holds is named below.
#[verifier::external_type_specification]
#[verifier::external_body]
pub struct ExValue(serde_json::Value);

/// The JSON value that a text is read as, none where it is no JSON, as `serde_json::from_str` has it.
pub uninterp spec fn json_value(text: Seq<char>) -> Option<Value>;

/// The member of a JSON value under a key, none where there is none, as `Value::get` has it.
pub uninterp spec fn json_member(v: Value, key: Seq<char>) -> Option<Value>;

/// The text that a JSON value is, none where it is no string, as `Value::as_str` has it.
pub uninterp spec fn json_text(v: Value) -> Option<Seq<char>>;

/// The JSON value of a number, as `Number::from` and `Value::Number` have it.
pub uninterp spec fn json_number(n: u8) -> Value;

/// A JSON object with a member put under a key, any other JSON value as it is, as `Map::insert` on
/// `Value::as_object_mut` has it.
pub uninterp spec fn json_with(v: Value, key: Seq<char>, member: Value) -> Value;

/// `serde_json::from_str` to a `Value`. Its result is named; the error is dropped.
#[verifier::external_body]
fn read_json(text: &str) -> (r: Option<Value>)
    ensures
        r == json_value(text@),
{
    serde_json::from_str::<Value>(text).ok()
}

/// `Value::get` with a key. Its result is named.
#[verifier::external_body]
fn member<'a>(v: &'a Value, key: &str) -> (r: Option<&'a Value>)
    ensures
        r is Some == json_member(*v, key@) is Some,
        r is Some ==> *r->0 == json_member(*v, key@)->0,
{
    v.get(key)
}

/// `Value::as_str`. Its result is named.
#[verifier::external_body]
fn as_text(v: &Value) -> (r: Option<&str>)
    ensures
        r is Some == json_text(*v) is Some,
        r is Some ==> r->0@ == json_text(*v)->0,
{
    v.as_str()
}

/// `Number::from` a `u8`, as a `Value`. Its result is named.
#[verifier::external_body]
fn number_value(n: u8) -> (r: Value)
    ensures
        r == json_number(n),
{
    Value::Number(n.into())
}

/// `Map::insert` on `Value::as_object_mut`. The value that is left is named. Its members under other
/// keys are claimed to stay, and a value that had a member, which is an object, to hold the new one
/// under the key, whatever stood there before.
#[verifier::external_body]
fn put_member(v: &mut Value, key: &str, member: Value)
    ensures
        *final(v) == json_with(*old(v), key@, member),
        forall|k: Seq<char>|
            k != key@ ==> #[trigger] json_member(*final(v), k) == json_member(*old(v), k),
        forall|k: Seq<char>| #[trigger]
            json_member(*old(v), k) is Some ==> json_member(*final(v), key@) == Some(member),
{
    if let Some(members) = v.as_object_mut() {
        members.insert(key.to_string(), member);
    }
}

/// What becomes of a log line.
#[derive(Debug)]
pub enum LogLine {
    /// The line is no JSON.
    Malformed,
    /// The line is no event, or one that the table announces itself.
    Skipped,
    /// The event that the line holds.
    Event(Value),
}

/// What is done with an event of the log.
#[derive(Debug, Clone, Copy, PartialEq, Eq, Structural)]
pub enum LineRule {
    Skip,
    AddPlayers,
    Keep,
}

/// The rule for an event of the kind `kind`: the table announces the start of a game itself, and the
/// start of a round gets the number of players.
pub open spec fn rule_for(kind: Seq<char>) -> LineRule {
    if kind == "start_game"@ {
        LineRule::Skip
    } else if kind == "start_kyoku"@ {
        LineRule::AddPlayers
    } else {
        LineRule::Keep
    }
}

/// The rule for an event of the kind `kind`.
pub fn line_rule(kind: &str) -> (r: LineRule)
    ensures
        r == rule_for(kind@),
{
    if same_text(kind, "start_game") {
        LineRule::Skip
    } else if same_text(kind, "start_kyoku") {
        LineRule::AddPlayers
    } else {
        LineRule::Keep
    }
}

/// The kind of event that a JSON value is: the text of its member `type`.
pub open spec fn kind_of(v: Value) -> Option<Seq<char>> {
    match json_member(v, "type"@) {
        Some(kind) => json_text(kind),
        None => None,
    }
}

/// What becomes of a line that was read as `value`, at a table of `seats` players.
pub open spec fn fate_of(value: Option<Value>, seats: u8) -> LogLine {
    match value {
        None => LogLine::Malformed,
        Some(v) => match kind_of(v) {
            None => LogLine::Skipped,
            Some(kind) => match rule_for(kind) {
                LineRule::Skip => LogLine::Skipped,
                LineRule::AddPlayers => LogLine::Event(
                    json_with(v, "num_players"@, json_number(seats)),
                ),
                LineRule::Keep => LogLine::Event(v),
            },
        },
    }
}

/// Whether a JSON value is an event that is sent on: its member `type` is a text, and any but
/// `start_game`.
pub open spec fn tells_an_event(v: Value) -> bool {
    json_member(v, "type"@) matches Some(kind) && json_text(kind) matches Some(kind) && kind
        != "start_game"@
}

/// Whether `v` is the event `from` with nothing changed but, at the start of a round, the number of
/// players, which is `seats` then.
pub open spec fn same_event(v: Value, from: Value, seats: u8) -> bool {
    let is_start = json_member(from, "type"@) matches Some(kind) && json_text(kind) == Some(
        "start_kyoku"@,
    );
    &&& forall|k: Seq<char>|
        k != "num_players"@ ==> #[trigger] json_member(v, k) == json_member(from, k)
    &&& json_member(v, "type"@) == json_member(from, "type"@)
    &&& kind_of(v) == kind_of(from)
    &&& if is_start {
        &&& v == json_with(from, "num_players"@, json_number(seats))
        &&& json_member(v, "num_players"@) == Some(json_number(seats))
    } else {
        v == from
    }
}

/// What becomes of a line that was read as `value`, at a table of `num_players` players. An event
/// that is kept stays the same, but that the start of a round tells the number of players.
pub fn prepare_value(value: Option<Value>, num_players: u8) -> (r: LogLine)
    ensures
        r == fate_of(value, num_players),
        r is Malformed <==> value is None,
        r is Skipped <==> value is Some && !tells_an_event(value->0),
        r matches LogLine::Event(v) ==> same_event(v, value->0, num_players),
{
    proof {
        reveal_strlit("type");
        reveal_strlit("num_players");
        assert("type"@.len() != "num_players"@.len());
    }
    let mut v = match value {
        None => {
            return LogLine::Malformed;
        },
        Some(v) => v,
    };
    let rule = match member(&v, "type") {
        None => LineRule::Skip,
        Some(kind) => match as_text(kind) {
            None => LineRule::Skip,
            Some(kind) => line_rule(kind),
        },
    };
    match rule {
        LineRule::Skip => LogLine::Skipped,
        LineRule::AddPlayers => {
            put_member(&mut v, "num_players", number_value(num_players));
            LogLine::Event(v)
        },
        LineRule::Keep => LogLine::Event(v),
    }
}

/// What becomes of a log line, at a table of `num_players` players. An event that is kept stays the
/// same, but that the start of a round tells the number of players.
pub fn prepare_line(line: &str, num_players: u8) -> (r: LogLine)
    ensures
        r == fate_of(json_value(line@), num_players),
        r is Malformed <==> json_value(line@) is None,
        r is Skipped <==> json_value(line@) is Some && !tells_an_event(json_value(line@)->0),
        r matches LogLine::Event(v) ==> same_event(v, json_value(line@)->0, num_players),
{
    prepare_value(read_json(line), num_players)
}

/// Every event of the log is carried on: a line is malformed exactly if it is no JSON, and it is left
/// out exactly if its value has no textual `type` or that is `start_game`. What is carried on is the
/// line's own value, at the start of a round with the number of players put in.
pub proof fn law_every_event_is_carried_on(value: Option<Value>, seats: u8)
    ensures
        fate_of(value, seats) is Malformed <==> value is None,
        fate_of(value, seats) is Event <==> (value matches Some(v) && json_member(
            v,
            "type"@,
        ) matches Some(kind) && json_text(kind) matches Some(kind) && kind != "start_game"@),
        value matches Some(v) ==> (json_member(v, "type"@) matches Some(kind) ==> (json_text(
            kind,
        ) matches Some(kind) ==> {
            &&& kind == "start_game"@ ==> fate_of(value, seats) is Skipped
            &&& kind == "start_kyoku"@ ==> fate_of(value, seats) == LogLine::Event(
                json_with(v, "num_players"@, json_number(seats)),
            )
            &&& kind != "start_game"@ && kind != "start_kyoku"@ ==> fate_of(value, seats)
                == LogLine::Event(v)
        })),
{
    reveal_strlit("start_game");
    reveal_strlit("start_kyoku");
    assert("start_game"@.len() != "start_kyoku"@.len());
}

} // verus!
