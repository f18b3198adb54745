//! The status queue of processing tasks: which broker address to use, how to
//! show one in a log, and what a task's reported state means for its upload.

use vstd::prelude::*;
use crate::json::{decode_json, json_decoded, lemma_array_view, Json, JsonView};
use crate::models::opt_text;
use crate::text::{contains_text, copy_range, find_last, from_chars, last_index, str_contains, str_eq, to_chars};

verus! {

/// Whether a broker address points at this machine.
pub open spec fn is_local_rabbit(url: Seq<char>) -> bool {
    contains_text(url, "@localhost"@) || contains_text(url, "://localhost"@) || contains_text(
        url,
        "127.0.0.1"@,
    )
}

/// Says whether a broker address points at this machine.
pub fn looks_local_rabbit(url: &str) -> (local: bool)
    ensures
        local == is_local_rabbit(url@),
{
    str_contains(url, "@localhost") || str_contains(url, "://localhost") || str_contains(
        url,
        "127.0.0.1",
    )
}

/// A broker address without its password: what stands between the last `:`
/// before the last `@` and that `@` is replaced by `***`. An address without
/// `@`, or without `:` before it, is left as it is.
pub open spec fn redacted(url: Seq<char>) -> Seq<char> {
    match last_index(url, '@', url.len() as int) {
        None => url,
        Some(at) => match last_index(url, ':', at) {
            None => url,
            Some(colon) => url.subrange(0, colon) + ":***"@ + url.subrange(at, url.len() as int),
        },
    }
}

/// Hides the password of a broker address.
pub fn redact_amqp_url(url: &str) -> (shown: String)
    ensures
        shown@ == redacted(url@),
{
    let chars = to_chars(url);
    let at = match find_last(&chars, '@', chars.len()) {
        Some(at) => at,
        None => {
            return url.to_string();
        },
    };
    let colon = match find_last(&chars, ':', at) {
        Some(colon) => colon,
        None => {
            return url.to_string();
        },
    };
    let head = copy_range(&chars, 0, colon);
    let tail = copy_range(&chars, at, chars.len());
    let mut shown = from_chars(&head);
    shown.append(":***");
    shown.append(from_chars(&tail).as_str());
    shown
}

/// The broker address to use, of the one in the environment and the one in
/// the settings file: the environment's, unless it points at this machine and
/// the file names another.
pub open spec fn chosen_rabbit_url(env_url: Option<Seq<char>>, file_url: Option<Seq<char>>) -> Option<
    Seq<char>,
> {
    match (env_url, file_url) {
        (Some(env), Some(file)) => if is_local_rabbit(env) && env != file {
            Some(file)
        } else {
            Some(env)
        },
        (Some(env), None) => Some(env),
        (None, Some(file)) => Some(file),
        (None, None) => None,
    }
}

/// Chooses the broker address to use.
pub fn resolve_rabbit_url(env_url: Option<String>, file_url: Option<String>) -> (url: Option<String>)
    ensures
        opt_text(url) == chosen_rabbit_url(opt_text(env_url), opt_text(file_url)),
{
    match (env_url, file_url) {
        (Some(env), Some(file)) => {
            if looks_local_rabbit(env.as_str()) && !str_eq(env.as_str(), file.as_str()) {
                Some(file)
            } else {
                Some(env)
            }
        },
        (Some(env), None) => Some(env),
        (None, Some(file)) => Some(file),
        (None, None) => None,
    }
}

/// The first address that a JSON value names: the first item of its member
/// `resultUrls`, if that is a text.
pub open spec fn result_url_in(value: JsonView) -> Option<Seq<char>> {
    match value.member("resultUrls"@) {
        Some(JsonView::Array(items)) => if items.len() > 0 {
            match items[0] {
                JsonView::Text(url) => Some(url),
                _ => None,
            }
        } else {
            None
        },
        _ => None,
    }
}

/// The first address that a task's result, a JSON text, names.
pub open spec fn result_url_of(result_json: Seq<char>) -> Option<Seq<char>> {
    match json_decoded(vstd::utf8::encode_utf8(result_json)) {
        Some(value) => result_url_in(value),
        None => None,
    }
}

/// Reads the first address that a JSON value names.
pub fn read_result_url(value: &Json) -> (url: Option<String>)
    ensures
        opt_text(url) == result_url_in(value@),
{
    match value.get("resultUrls") {
        Some(Json::Array(items)) => {
            proof {
                lemma_array_view(*items);
            }
            if items.len() > 0 {
                match &items[0] {
                    Json::Text(url) => Some(url.clone()),
                    _ => None,
                }
            } else {
                None
            }
        },
        _ => None,
    }
}

/// Reads the first address that a task's result names.
pub fn first_result_url(result_json: &str) -> (url: Option<String>)
    ensures
        opt_text(url) == result_url_of(result_json@),
{
    let value = match decode_json(result_json.as_bytes()) {
        Some(value) => value,
        None => {
            return None;
        },
    };
    read_result_url(&value)
}

/// What the job service reports of a task.
#[derive(Clone, Debug, PartialEq, Eq)]
pub struct KieStatus {
    pub state: Option<String>,
    pub result_url: Option<String>,
}

/// Why a report of the job service cannot be used.
#[derive(Clone, Copy, Debug, PartialEq, Eq, Structural)]
pub enum KieStatusError {
    /// The report's code is not 200.
    BadCode(i32),
    /// The report holds no data.
    MissingData,
}

/// Reads the report of the job service on a task: `code` is the report's
/// code, `data` the state and the result of the task where the report holds
/// them.
pub fn fetch_kie_status(code: i32, data: Option<(Option<String>, Option<String>)>) -> (status:
    Result<KieStatus, KieStatusError>)
    ensures
        match status {
            Ok(s) => {
                &&& code == 200
                &&& data matches Some((state, result))
                &&& opt_text(s.state) == opt_text(state)
                &&& opt_text(s.result_url) == (match result {
                    Some(text) => result_url_of(text@),
                    None => None,
                })
            },
            Err(KieStatusError::BadCode(c)) => code != 200 && c == code,
            Err(KieStatusError::MissingData) => code == 200 && data is None,
        },
{
    if code != 200 {
        return Err(KieStatusError::BadCode(code));
    }
    match data {
        Some((state, result)) => {
            let result_url = match &result {
                Some(text) => first_result_url(text.as_str()),
                None => None,
            };
            Ok(KieStatus { state, result_url })
        },
        None => Err(KieStatusError::MissingData),
    }
}

/// What a task's report means for its upload.
#[derive(Debug, PartialEq, Eq)]
pub enum TaskUpdate {
    /// The upload is ready at this address.
    Ready(String),
    /// The upload failed.
    Failed,
    /// Nothing is known yet.
    Unchanged,
}

/// What a task's report means for its upload: a success with a result makes
/// it ready, a failure makes it failed, anything else changes nothing.
pub fn handle_task_message(status: KieStatus) -> (update: TaskUpdate)
    ensures
        match update {
            TaskUpdate::Ready(url) => opt_text(status.state) == Some("success"@) && opt_text(
                status.result_url,
            ) == Some(url@),
            TaskUpdate::Failed => opt_text(status.state) == Some("fail"@),
            TaskUpdate::Unchanged => opt_text(status.state) != Some("fail"@) && !(opt_text(
                status.state,
            ) == Some("success"@) && status.result_url is Some),
        },
{
    proof {
        reveal_strlit("success");
        reveal_strlit("fail");
        assert("success"@.len() == 7);
        assert("fail"@.len() == 4);
    }
    let state = match &status.state {
        Some(s) => s,
        None => {
            return TaskUpdate::Unchanged;
        },
    };
    if str_eq(state.as_str(), "success") {
        match status.result_url {
            Some(url) => TaskUpdate::Ready(url),
            None => TaskUpdate::Unchanged,
        }
    } else if str_eq(state.as_str(), "fail") {
        TaskUpdate::Failed
    } else {
        TaskUpdate::Unchanged
    }
}

} // verus!
