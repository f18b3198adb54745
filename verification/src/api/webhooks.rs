//! Callbacks of the job service: whether a finished task delivered a result,
//! and where that result is stored.

use vstd::prelude::*;
use crate::models::opt_text;
use crate::queue::{first_result_url, result_url_of};
use crate::s3_utils::{build_public_url, public_url};
use crate::text::str_eq;

verus! {

/// The body of a callback.
#[derive(Clone, Debug, PartialEq, Eq)]
pub struct CallbackPayload {
    pub code: i32,
    pub msg: Option<String>,
    pub data: CallbackData,
}

/// What a callback says of its task.
#[derive(Clone, Debug, PartialEq, Eq)]
pub struct CallbackData {
    pub task_id: String,
    pub status: Option<String>,
    pub state: Option<String>,
    pub output_url: Option<String>,
    pub result_json: Option<String>,
}

/// A finished task and where its result is.
#[derive(Clone, Debug, PartialEq, Eq)]
pub struct FinishedTask {
    pub task_id: String,
    /// The address where the job service offers the result.
    pub output_url: String,
    /// The key under which the result is stored.
    pub s3_key: String,
}

/// The callback reports no result that can be used.
#[derive(Clone, Copy, Debug, PartialEq, Eq, Structural)]
pub struct TaskFailed;

/// Whether a status or a state, where given, says anything but success.
pub open spec fn denies_success(word: Option<Seq<char>>) -> bool {
    word matches Some(w) && w != "success"@
}

/// The address of the result that a callback names: its output address, else
/// the first address of its result.
pub open spec fn callback_output(data: CallbackData) -> Option<Seq<char>> {
    match data.output_url {
        Some(url) => Some(url@),
        None => match data.result_json {
            Some(text) => result_url_of(text@),
            None => None,
        },
    }
}

/// Whether a callback is accepted: its code is 200, neither its status nor
/// its state denies success, and it names a result.
pub open spec fn callback_accepted(payload: CallbackPayload) -> bool {
    &&& payload.code == 200
    &&& !denies_success(opt_text(payload.data.status))
    &&& !denies_success(opt_text(payload.data.state))
    &&& callback_output(payload.data) is Some
}

/// The key under which the result of a task is stored.
pub open spec fn cleaned_key(task_id: Seq<char>) -> Seq<char> {
    "cleaned/"@ + task_id + ".mp4"@
}

/// Whether a word, where given, says anything but success.
fn denies(word: &Option<String>) -> (yes: bool)
    ensures
        yes == denies_success(opt_text(*word)),
{
    match word {
        Some(w) => !str_eq(w.as_str(), "success"),
        None => false,
    }
}

/// Reads a callback of the job service.
pub fn handle_watermark_callback(payload: &CallbackPayload) -> (task: Result<
    FinishedTask,
    TaskFailed,
>)
    ensures
        task is Ok <==> callback_accepted(*payload),
        task matches Ok(t) ==> {
            &&& t.task_id@ == payload.data.task_id@
            &&& Some(t.output_url@) == callback_output(payload.data)
            &&& t.s3_key@ == cleaned_key(payload.data.task_id@)
        },
{
    if payload.code != 200 {
        return Err(TaskFailed);
    }
    if denies(&payload.data.status) || denies(&payload.data.state) {
        return Err(TaskFailed);
    }
    let output = match &payload.data.output_url {
        Some(url) => Some(url.clone()),
        None => match &payload.data.result_json {
            Some(text) => first_result_url(text.as_str()),
            None => None,
        },
    };
    let output_url = match output {
        Some(url) => url,
        None => {
            return Err(TaskFailed);
        },
    };
    let mut s3_key = "cleaned/".to_string();
    s3_key.append(payload.data.task_id.as_str());
    s3_key.append(".mp4");
    Ok(FinishedTask { task_id: payload.data.task_id.clone(), output_url, s3_key })
}

/// The address under which a finished task's result is shown: where nothing
/// is stored, the job service's own; else the public address of the stored
/// object.
pub fn cleaned_url(task: &FinishedTask, stored: bool, base: &str, bucket: &str) -> (url: String)
    ensures
        url@ == (if stored {
            public_url(base@, bucket@, task.s3_key@)
        } else {
            task.output_url@
        }),
{
    if stored {
        build_public_url(base, bucket, task.s3_key.as_str())
    } else {
        task.output_url.clone()
    }
}

} // verus!
