//! The notifier: which open sessions hear of an upload's progress, and what
//! they are told.

use vstd::prelude::*;
use crate::models::opt_text;

verus! {

/// What is told of an upload.
#[derive(Clone, Debug, PartialEq, Eq)]
pub struct UploadEventData {
    pub id: i32,
    pub task_id: Option<String>,
    pub status: String,
    pub cleaned_url: Option<String>,
    pub original_filename: String,
    pub created_at: Option<i64>,
}

/// A message to the sessions of a user.
#[derive(Clone, Debug, PartialEq, Eq)]
pub struct UploadEvent {
    pub event: &'static str,
    pub data: UploadEventData,
}

/// An event and the user whose sessions hear of it.
#[derive(Clone, Debug, PartialEq, Eq)]
pub struct NotifyUpload {
    pub user_id: i32,
    pub event: UploadEvent,
}

/// The message that an upload of the user was updated.
pub fn notify_upload_by_task(user_id: i32, data: UploadEventData) -> (message: NotifyUpload)
    ensures
        message.user_id == user_id,
        message.event.event@ == "upload.updated"@,
        message.event.data == data,
{
    NotifyUpload { user_id, event: UploadEvent { event: "upload.updated", data } }
}

/// The token that a session is opened with: the query's `token`, if it is
/// not empty.
pub fn uploads_ws(token: Option<String>) -> (accepted: Option<String>)
    ensures
        opt_text(accepted) == (match token {
            Some(t) => if t@.len() > 0 {
                Some(t@)
            } else {
                None
            },
            None => None,
        }),
{
    match token {
        Some(t) => if t.as_str().unicode_len() > 0 {
            Some(t)
        } else {
            None
        },
        None => None,
    }
}

/// The open sessions, each with its user. No session is held twice.
#[derive(Clone, Debug, PartialEq, Eq)]
pub struct WsHub {
    sessions: Vec<(i32, usize)>,
}

impl View for WsHub {
    type V = Set<(i32, usize)>;

    /// The pairs of a user and one of the user's open sessions.
    closed spec fn view(&self) -> Set<(i32, usize)> {
        self.sessions@.to_set()
    }
}

impl WsHub {
    /// No session occurs twice.
    pub closed spec fn well_formed(&self) -> bool {
        self.sessions@.no_duplicates()
    }

    /// A hub without sessions.
    pub fn new() -> (hub: WsHub)
        ensures
            hub@ == Set::<(i32, usize)>::empty(),
            hub.well_formed(),
    {
        let hub = WsHub { sessions: Vec::new() };
        assert(hub@ =~= Set::<(i32, usize)>::empty());
        hub
    }

    /// The position of a session.
    fn position(&self, user_id: i32, session_id: usize) -> (found: Option<usize>)
        ensures
            match found {
                Some(i) => i < self.sessions@.len() && self.sessions@[i as int] == (
                    user_id,
                    session_id,
                ),
                None => !self.sessions@.contains((user_id, session_id)),
            },
    {
        let mut i: usize = 0;
        while i < self.sessions.len()
            invariant
                i <= self.sessions.len(),
                forall|k: int| 0 <= k < i ==> self.sessions@[k] != (user_id, session_id),
            decreases self.sessions.len() - i,
        {
            if self.sessions[i].0 == user_id && self.sessions[i].1 == session_id {
                return Some(i);
            }
            i += 1;
        }
        None
    }

    /// Takes note of a session of a user.
    pub fn connect(&mut self, user_id: i32, session_id: usize)
        requires
            old(self).well_formed(),
        ensures
            final(self).well_formed(),
            final(self)@ == old(self)@.insert((user_id, session_id)),
    {
        if self.position(user_id, session_id).is_none() {
            self.sessions.push((user_id, session_id));
            proof {
                let before = old(self).sessions@;
                let pair = (user_id, session_id);
                assert forall|x: (i32, usize)|
                    self.sessions@.contains(x) <==> before.contains(x) || x == pair by {
                    if self.sessions@.contains(x) {
                        let i = choose|i: int| 0 <= i < self.sessions@.len() && self.sessions@[i] == x;
                        if i < before.len() {
                            assert(before[i] == x);
                        }
                    }
                    if before.contains(x) {
                        let i = choose|i: int| 0 <= i < before.len() && before[i] == x;
                        assert(self.sessions@[i] == x);
                    }
                    if x == pair {
                        assert(self.sessions@[before.len() as int] == x);
                    }
                }
                assert(self@ =~= old(self)@.insert(pair));
            }
        } else {
            assert(self@ =~= old(self)@.insert((user_id, session_id)));
        }
    }

    /// Forgets a session of a user.
    pub fn disconnect(&mut self, user_id: i32, session_id: usize)
        requires
            old(self).well_formed(),
        ensures
            final(self).well_formed(),
            final(self)@ == old(self)@.remove((user_id, session_id)),
    {
        match self.position(user_id, session_id) {
            Some(at) => {
                self.sessions.remove(at);
                proof {
                    let before = old(self).sessions@;
                    let pair = (user_id, session_id);
                    assert forall|x: (i32, usize)|
                        self.sessions@.contains(x) <==> before.contains(x) && x != pair by {
                        if self.sessions@.contains(x) {
                            let i = choose|i: int|
                                0 <= i < self.sessions@.len() && self.sessions@[i] == x;
                            if i < at {
                                assert(before[i] == x);
                            } else {
                                assert(before[i + 1] == x);
                            }
                        }
                        if before.contains(x) && x != pair {
                            let i = choose|i: int| 0 <= i < before.len() && before[i] == x;
                            if i < at {
                                assert(self.sessions@[i] == x);
                            } else {
                                assert(self.sessions@[i - 1] == x);
                            }
                        }
                    }
                    assert(self@ =~= old(self)@.remove(pair));
                }
            },
            None => {
                assert(self@ =~= old(self)@.remove((user_id, session_id)));
            },
        }
    }

    /// The sessions of a user, which hear of the user's uploads; each once.
    pub fn sessions_of(&self, user_id: i32) -> (sessions: Vec<usize>)
        requires
            self.well_formed(),
        ensures
            forall|s: usize| sessions@.contains(s) <==> self@.contains((user_id, s)),
            sessions@.no_duplicates(),
    {
        let mut out: Vec<usize> = Vec::new();
        let mut i: usize = 0;
        while i < self.sessions.len()
            invariant
                i <= self.sessions.len(),
                self.sessions@.no_duplicates(),
                forall|s: usize|
                    out@.contains(s) <==> self.sessions@.take(i as int).contains((user_id, s)),
                out@.no_duplicates(),
            decreases self.sessions.len() - i,
        {
            let ghost before = out@;
            let ghost seen = self.sessions@.take(i as int);
            assert(forall|s: usize| before.contains(s) <==> seen.contains((user_id, s)));
            if self.sessions[i].0 == user_id {
                proof {
                    let s = self.sessions@[i as int].1;
                    if before.contains(s) {
                        let k = choose|k: int| 0 <= k < seen.len() && seen[k] == (user_id, s);
                        assert(self.sessions@[k] == self.sessions@[i as int]);
                    }
                }
                out.push(self.sessions[i].1);
            }
            proof {
                let next = self.sessions@.take(i + 1);
                assert(next =~= seen.push(self.sessions@[i as int]));
                assert forall|s: usize| out@.contains(s) <==> next.contains((user_id, s)) by {
                    if out@.contains(s) {
                        let j = choose|j: int| 0 <= j < out@.len() && out@[j] == s;
                        if j < before.len() {
                            assert(before[j] == s);
                            assert(before.contains(s));
                            let k = choose|k: int| 0 <= k < seen.len() && seen[k] == (user_id, s);
                            assert(next[k] == (user_id, s));
                        } else {
                            assert(next[i as int] == (user_id, s));
                        }
                    }
                    if next.contains((user_id, s)) {
                        let k = choose|k: int| 0 <= k < next.len() && next[k] == (user_id, s);
                        if k < i {
                            assert(seen[k] == (user_id, s));
                            assert(seen.contains((user_id, s)));
                            assert(before.contains(s));
                            let j = choose|j: int| 0 <= j < before.len() && before[j] == s;
                            assert(out@[j] == s);
                        } else {
                            assert(out@[out@.len() - 1] == s);
                        }
                    }
                }
            }
            i += 1;
        }
        assert(self.sessions@.take(i as int) =~= self.sessions@);
        out
    }
}

} // verus!
