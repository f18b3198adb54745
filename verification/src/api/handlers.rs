//! Uploads: names of uploaded files, paging of lists, and what the upload
//! endpoints answer.

use vstd::prelude::*;
use crate::json::{decode_json, json_decoded, Json, JsonView};
use crate::ledger::{first_from, user_has_id, Ledger};
use crate::text::{
    alphanumeric, copy_range, find_first, find_last, first_index, from_chars, is_alphanumeric,
    last_index, opt_str, parse_i64, parsed_i64, to_chars, trim, trimmed_text,
};

verus! {

/// The body of an upload by address.
#[derive(Clone, Debug, PartialEq, Eq)]
pub struct UrlUploadBody {
    /// The public address of the video.
    pub url: String,
}

/// The answer to an accepted upload.
#[derive(Clone, Debug, PartialEq, Eq)]
pub struct UploadResponse {
    pub message: String,
    pub upload_id: i32,
    pub task_id: String,
}

/// The balances of a user.
#[derive(Clone, Copy, Debug, PartialEq, Eq, Structural)]
pub struct CreditsStatusResponse {
    pub credits: i32,
    pub monthly_quota: i32,
    pub free_generation_used: bool,
}

/// One upload in a list.
#[derive(Clone, Debug, PartialEq, Eq)]
pub struct UploadItemResponse {
    pub id: i32,
    pub status: String,
    pub original_filename: String,
    pub cleaned_url: Option<String>,
    pub created_at: Option<i64>,
}

/// The characters that a file name keeps: letters, digits, `.`, `_` and `-`.
pub open spec fn keeps_in_file_name() -> spec_fn(char) -> bool {
    |c: char| alphanumeric(c) || c == '.' || c == '_' || c == '-'
}

/// A file name without the characters that it may not hold.
pub open spec fn sanitized(filename: Seq<char>) -> Seq<char> {
    filename.filter(keeps_in_file_name())
}

/// Removes from a file name every character but letters, digits, `.`, `_`
/// and `-`.
pub fn sanitize(filename: &str) -> (clean: String)
    ensures
        clean@ == sanitized(filename@),
{
    let chars = to_chars(filename);
    let mut kept: Vec<char> = Vec::new();
    let mut i: usize = 0;
    assert(chars@.take(0) =~= Seq::empty());
    proof {
        reveal(Seq::filter);
    }
    while i < chars.len()
        invariant
            i <= chars.len(),
            kept@ == chars@.take(i as int).filter(keeps_in_file_name()),
        decreases chars.len() - i,
    {
        let c = chars[i];
        proof {
            chars@.take(i as int).lemma_filter_push(c, keeps_in_file_name());
            assert(chars@.take(i + 1) =~= chars@.take(i as int).push(c));
        }
        if is_alphanumeric(c) || c == '.' || c == '_' || c == '-' {
            kept.push(c);
        }
        i += 1;
    }
    assert(chars@.take(i as int) =~= chars@);
    from_chars(&kept)
}

/// What follows the last `/` of an address; the address itself where it
/// holds none.
pub open spec fn last_segment(url: Seq<char>) -> Seq<char> {
    match last_index(url, '/', url.len() as int) {
        Some(at) => url.subrange(at + 1, url.len() as int),
        None => url,
    }
}

/// What stands before the first `c`; the text itself where it holds none.
pub open spec fn before_first(s: Seq<char>, c: char) -> Seq<char> {
    match first_index(s, c, 0) {
        Some(at) => s.subrange(0, at),
        None => s,
    }
}

/// The name under which a video fetched from `url` is stored: the last
/// segment of the address without query and fragment, sanitized; `video.mp4`
/// where that segment is empty.
pub open spec fn file_name_of(url: Seq<char>) -> Seq<char> {
    let name = before_first(before_first(last_segment(url), '?'), '#');
    if name.len() > 0 {
        sanitized(name)
    } else {
        "video.mp4"@
    }
}

/// The name under which a video fetched from `url` is stored.
pub fn file_name_from_url(url: &str) -> (name: String)
    ensures
        name@ == file_name_of(url@),
{
    let chars = to_chars(url);
    let segment = match find_last(&chars, '/', chars.len()) {
        Some(at) => copy_range(&chars, at + 1, chars.len()),
        None => chars,
    };
    let no_query = match find_first(&segment, '?', 0) {
        Some(at) => copy_range(&segment, 0, at),
        None => segment,
    };
    let name = match find_first(&no_query, '#', 0) {
        Some(at) => copy_range(&no_query, 0, at),
        None => no_query,
    };
    if name.len() > 0 {
        sanitize(from_chars(&name).as_str())
    } else {
        "video.mp4".to_string()
    }
}

/// Why an upload is refused.
#[derive(Clone, Copy, Debug, PartialEq, Eq, Structural)]
pub enum UploadRejection {
    /// A file was sent; only addresses are taken.
    FileProvided,
    /// No address was sent.
    MissingUrl,
}

/// What an upload starts from: the address of the video and the name under
/// which it is stored.
#[derive(Clone, Debug, PartialEq, Eq)]
pub struct UploadPlan {
    pub url: String,
    pub original_filename: String,
}

/// The address that an upload form names: its `url` field without
/// surrounding whitespace, if anything is left.
pub open spec fn form_url(url_field: Option<Seq<char>>) -> Option<Seq<char>> {
    match url_field {
        Some(text) => if trimmed_text(text).len() > 0 {
            Some(trimmed_text(text))
        } else {
            None
        },
        None => None,
    }
}

/// Decides what an upload starts from. `url_field` is the form's `url` field,
/// `file_provided` says whether the form held any other field. A form with a
/// file is refused; so is one without an address.
pub fn upload(url_field: Option<&str>, file_provided: bool) -> (plan: Result<
    UploadPlan,
    UploadRejection,
>)
    ensures
        match plan {
            Ok(p) => !file_provided && form_url(opt_str(url_field)) == Some(p.url@)
                && p.original_filename@ == file_name_of(p.url@),
            Err(UploadRejection::FileProvided) => file_provided,
            Err(UploadRejection::MissingUrl) => !file_provided && form_url(opt_str(url_field))
                is None,
        },
{
    if file_provided {
        return Err(UploadRejection::FileProvided);
    }
    let url = match url_field {
        Some(text) => {
            let t = trim(text);
            if t.as_str().unicode_len() > 0 {
                t
            } else {
                return Err(UploadRejection::MissingUrl);
            }
        },
        None => {
            return Err(UploadRejection::MissingUrl);
        },
    };
    let original_filename = file_name_from_url(url.as_str());
    Ok(UploadPlan { url, original_filename })
}

/// The account has no balance that an upload could be charged to.
#[derive(Clone, Copy, Debug, PartialEq, Eq, Structural)]
pub struct InsufficientCredits;

/// Decides whether an upload goes ahead. `available` is the balance that the
/// account's next use is charged to, if it has one. With a balance the upload
/// goes ahead and is charged to it, once, when the upload is stored; without
/// one it is refused and nothing is charged.
pub fn upload_gate(available: Option<String>) -> (charged_to: Result<String, InsufficientCredits>)
    ensures
        match charged_to {
            Ok(kind) => available matches Some(k) && kind@ == k@,
            Err(_) => available is None,
        },
{
    match available {
        Some(kind) => Ok(kind),
        None => Err(InsufficientCredits),
    }
}

/// The balances of a user, if the user exists.
pub fn credits_status(ledger: &Ledger, user_id: i32) -> (status: Option<CreditsStatusResponse>)
    ensures
        match status {
            Some(s) => first_from(ledger@.users, user_has_id(user_id as int), 0) matches Some(at)
                && s.credits == ledger@.users[at].credits && s.monthly_quota
                == ledger@.users[at].monthly_quota && s.free_generation_used
                == ledger@.users[at].free_generation_used,
            None => first_from(ledger@.users, user_has_id(user_id as int), 0) is None,
        },
{
    match ledger.find_user(user_id) {
        Some(at) => Some(
            CreditsStatusResponse {
                credits: ledger.users[at].credits,
                monthly_quota: ledger.users[at].monthly_quota,
                free_generation_used: ledger.users[at].free_generation_used,
            },
        ),
        None => None,
    }
}

/// The number that a query parameter states, if it states one.
pub open spec fn stated_number(parameter: Option<Seq<char>>) -> Option<int> {
    match parameter {
        Some(text) => match parsed_i64(text) {
            Some(n) => Some(n as int),
            None => None,
        },
        None => None,
    }
}

/// How many uploads a list shows: the stated number, 100 where none is
/// stated, and never fewer than 1 nor more than 1000.
pub open spec fn limit_for(stated: Option<int>) -> int {
    match stated {
        Some(n) => if n < 1 {
            1
        } else if n > 1000 {
            1000
        } else {
            n
        },
        None => 100,
    }
}

/// How many uploads a list skips: the stated number, 0 where none is stated
/// or a negative one.
pub open spec fn offset_for(stated: Option<int>) -> int {
    match stated {
        Some(n) => if n < 0 {
            0
        } else {
            n
        },
        None => 0,
    }
}

/// How many uploads a list shows, for the query parameter `limit`.
pub open spec fn page_limit(limit: Option<Seq<char>>) -> int {
    limit_for(stated_number(limit))
}

/// How many uploads a list skips, for the query parameter `offset`.
pub open spec fn page_offset(offset: Option<Seq<char>>) -> int {
    offset_for(stated_number(offset))
}

/// How many uploads a list shows, for the stated number.
pub fn clamp_limit(stated: Option<i64>) -> (limit: i64)
    ensures
        limit == limit_for(crate::models::opt_time(stated)),
{
    match stated {
        Some(n) => if n < 1 {
            1
        } else if n > 1000 {
            1000
        } else {
            n
        },
        None => 100,
    }
}

/// How many uploads a list skips, for the stated number.
pub fn clamp_offset(stated: Option<i64>) -> (offset: i64)
    ensures
        offset == offset_for(crate::models::opt_time(stated)),
{
    match stated {
        Some(n) => if n < 0 {
            0
        } else {
            n
        },
        None => 0,
    }
}

/// The page of uploads that a request asks for, as limit and offset.
pub fn list_uploads(limit: Option<&str>, offset: Option<&str>) -> (page: (i64, i64))
    ensures
        page.0 == page_limit(opt_str(limit)),
        page.1 == page_offset(opt_str(offset)),
{
    let stated_limit = match limit {
        Some(text) => parse_i64(text),
        None => None,
    };
    let stated_offset = match offset {
        Some(text) => parse_i64(text),
        None => None,
    };
    (clamp_limit(stated_limit), clamp_offset(stated_offset))
}

/// Why the job service's answer to a new task cannot be used.
#[derive(Clone, Copy, Debug, PartialEq, Eq, Structural)]
pub enum TaskStartError {
    /// The answer's status is no success.
    Status,
    /// The answer's body is no JSON.
    Decode,
    /// The answer names no task.
    NoTaskId,
}

/// The task that a JSON value names: its text `data.taskId`.
pub open spec fn task_id_in(value: JsonView) -> Result<Seq<char>, TaskStartError> {
    match value.member("data"@) {
        Some(data) => match data.member("taskId"@) {
            Some(JsonView::Text(id)) => Ok(id),
            _ => Err(TaskStartError::NoTaskId),
        },
        None => Err(TaskStartError::NoTaskId),
    }
}

/// The task that the job service's answer names: the text `data.taskId` of
/// the JSON body.
pub open spec fn task_id_of(body: Seq<char>) -> Result<Seq<char>, TaskStartError> {
    match json_decoded(vstd::utf8::encode_utf8(body)) {
        None => Err(TaskStartError::Decode),
        Some(value) => task_id_in(value),
    }
}

/// Reads the task that a JSON value names.
pub fn read_task_id(value: &Json) -> (task: Result<String, TaskStartError>)
    ensures
        match task {
            Ok(id) => task_id_in(value@) == Ok::<Seq<char>, TaskStartError>(id@),
            Err(e) => task_id_in(value@) == Err::<Seq<char>, TaskStartError>(e),
        },
{
    match value.get("data") {
        Some(data) => match data.get("taskId") {
            Some(Json::Text(id)) => Ok(id.clone()),
            _ => Err(TaskStartError::NoTaskId),
        },
        None => Err(TaskStartError::NoTaskId),
    }
}

/// Reads the job service's answer to a new task: `success` says whether its
/// status reports success, `body` is its body.
pub fn start_remove_watermark(success: bool, body: &str) -> (task: Result<String, TaskStartError>)
    ensures
        match task {
            Ok(id) => success && task_id_of(body@) == Ok::<Seq<char>, TaskStartError>(id@),
            Err(e) => if success {
                task_id_of(body@) == Err::<Seq<char>, TaskStartError>(e)
            } else {
                e == TaskStartError::Status
            },
        },
{
    if !success {
        return Err(TaskStartError::Status);
    }
    let value = match decode_json(body.as_bytes()) {
        Some(value) => value,
        None => {
            return Err(TaskStartError::Decode);
        },
    };
    read_task_id(&value)
}

} // verus!
