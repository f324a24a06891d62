//! The command schema: which payloads are commands, and which command each
//! one is.

use crate::command::{
    command_of, outcome_view, text_view, CommandView, DecodeError, SceneCommand,
};
use crate::json::{count_of, json_of, member, parse_value, parsed_json, text_of, Json};
use vstd::prelude::*;

verus! {

/// The key of the required member.
pub const ACTION_KEY: &'static str = "action";

/// The key of the optional member that names a scene.
pub const SCENE_ID_KEY: &'static str = "scene_id";

/// The key of the optional member that gives a duration in milliseconds.
pub const FADE_TIME_KEY: &'static str = "fade_time";

/// The text under `key` in `document`: `None` unless `document` is an object
/// whose member under `key` is a string.
pub open spec fn text_at(document: Json, key: Seq<char>) -> Option<Seq<char>> {
    match document.member(key) {
        Some(found) => found.as_text(),
        None => None,
    }
}

/// The count under `key` in `document`: `None` unless `document` is an
/// object whose member under `key` is a number held as an unsigned integer.
pub open spec fn count_at(document: Json, key: Seq<char>) -> Option<u64> {
    match document.member(key) {
        Some(found) => found.as_count(),
        None => None,
    }
}

/// The command that a JSON value is, or the reason for which it is none.
/// Members under other keys play no part, and neither does a `scene_id` or a
/// `fade_time` of another type than the schema gives it.
pub open spec fn command_in(document: Json) -> Result<CommandView, DecodeError> {
    command_of(
        text_at(document, ACTION_KEY@),
        text_at(document, SCENE_ID_KEY@),
        count_at(document, FADE_TIME_KEY@),
    )
}

/// The outcome of decoding a payload, given what parsing it as JSON gave.
pub open spec fn decoded(parsed: Option<Json>) -> Result<CommandView, DecodeError> {
    match parsed {
        Some(document) => command_in(document),
        None => Err(DecodeError::Malformed),
    }
}

fn text_member(value: &serde_json::Value, key: &str) -> (r: Option<String>)
    ensures
        text_view(r) == text_at(json_of(*value), key@),
{
    match member(value, key) {
        Some(found) => match text_of(found) {
            Some(text) => Some(text.to_owned()),
            None => None,
        },
        None => None,
    }
}

fn count_member(value: &serde_json::Value, key: &str) -> (r: Option<u64>)
    ensures
        r == count_at(json_of(*value), key@),
{
    match member(value, key) {
        Some(found) => count_of(found),
        None => None,
    }
}

/// Reads a command out of a parsed JSON value.
pub fn command_from_value(value: &serde_json::Value) -> (r: Result<SceneCommand, DecodeError>)
    ensures
        outcome_view(r) == command_in(json_of(*value)),
{
    let action = text_member(value, ACTION_KEY);
    let scene_id = text_member(value, SCENE_ID_KEY);
    let fade_time = count_member(value, FADE_TIME_KEY);
    SceneCommand::from_members(action, scene_id, fade_time)
}

/// Decodes one payload. It is a command exactly when it parses as a JSON
/// object with a non-empty string under `action`; nothing else in it can
/// make the decoding fail.
pub fn decode(text: &str) -> (r: Result<SceneCommand, DecodeError>)
    ensures
        outcome_view(r) == decoded(parsed_json(text@)),
{
    match parse_value(text) {
        Ok(value) => command_from_value(&value),
        Err(_) => Err(DecodeError::Malformed),
    }
}

/// The three keys of the schema differ from one another.
pub proof fn lemma_keys_differ()
    ensures
        ACTION_KEY@ != SCENE_ID_KEY@,
        ACTION_KEY@ != FADE_TIME_KEY@,
        SCENE_ID_KEY@ != FADE_TIME_KEY@,
{
    reveal_strlit("action");
    reveal_strlit("scene_id");
    reveal_strlit("fade_time");
    assert(ACTION_KEY@.len() == 6);
    assert(SCENE_ID_KEY@.len() == 8);
    assert(FADE_TIME_KEY@.len() == 9);
}

/// A payload that holds a non-empty action and nothing else decodes to the
/// command with that action, no scene and no duration.
pub proof fn lemma_action_alone(name: Seq<char>)
    requires
        name.len() > 0,
    ensures
        decoded(Some(Json::Object(map![ACTION_KEY@ => Json::Text(name)]))) == Ok::<
            CommandView,
            DecodeError,
        >(CommandView { action: name, scene_id: None, fade_time: None }),
{
    lemma_keys_differ();
}

/// Members under other keys than the three of the schema are ignored: with
/// or without one, a payload is the same command, or none for the same
/// reason.
pub proof fn lemma_other_members_are_ignored(
    members: Map<Seq<char>, Json>,
    key: Seq<char>,
    value: Json,
)
    requires
        key != ACTION_KEY@,
        key != SCENE_ID_KEY@,
        key != FADE_TIME_KEY@,
    ensures
        command_in(Json::Object(members.insert(key, value))) == command_in(Json::Object(members)),
        command_in(Json::Object(members.remove(key))) == command_in(Json::Object(members)),
{
}

/// A `scene_id` that is no string and a `fade_time` that is no count from 0
/// to `u32::MAX` are as good as absent: the payload is a command all the
/// same, with that attribute unset.
pub proof fn lemma_unusable_options_are_unset(members: Map<Seq<char>, Json>, value: Json)
    ensures
        value.as_text() is None ==> command_in(Json::Object(members.insert(SCENE_ID_KEY@, value)))
            == command_in(Json::Object(members.remove(SCENE_ID_KEY@))),
        !(value.as_count() matches Some(n) && n <= u32::MAX) ==> command_in(
            Json::Object(members.insert(FADE_TIME_KEY@, value)),
        ) == command_in(Json::Object(members.remove(FADE_TIME_KEY@))),
{
    lemma_keys_differ();
}

/// Decoding succeeds exactly on an object with a non-empty string under
/// `action`: a payload where that member is missing, empty or no string is
/// no command, whatever else it holds. The command has that string for its
/// action.
pub proof fn lemma_action_required(parsed: Option<Json>)
    ensures
        decoded(parsed) is Ok <==> ({
            &&& parsed matches Some(Json::Object(members))
            &&& members.contains_key(ACTION_KEY@)
            &&& members[ACTION_KEY@] matches Json::Text(name)
            &&& name.len() > 0
        }),
        decoded(parsed) matches Ok(command) ==> ({
            &&& parsed matches Some(Json::Object(members))
            &&& members[ACTION_KEY@] == Json::Text(command.action)
        }),
{
}

/// A payload that is no JSON is no command, and only such a payload is
/// reported as malformed.
pub proof fn lemma_malformed(parsed: Option<Json>)
    ensures
        parsed is None <==> decoded(parsed) == Err::<CommandView, DecodeError>(
            DecodeError::Malformed,
        ),
{
}

} // verus!
