use vstd::prelude::*;
use crate::session_id::SessionId;

verus! {

/// One entry of the session manager's session list.
#[derive(Debug)]
pub struct SessionRecord {
    pub session_id: String,
    pub uid: u32,
    pub user_name: String,
    pub seat: String,
    pub object_path: String,
}

/// Whether `record` describes the session named `id`.
pub open spec fn names_session(record: SessionRecord, id: Seq<char>) -> bool {
    record.session_id@ == id
}

/// Picks the object path of the first listed session whose identifier is
/// `session_id`; `None` when no listed session has it.
pub fn session_path_from_id(sessions: &Vec<SessionRecord>, session_id: SessionId) -> (r: Option<
    String,
>)
    ensures
        match r {
            Some(path) => exists|i: int|
                0 <= i < sessions@.len() && names_session(#[trigger] sessions@[i], session_id@)
                    && path@ == sessions@[i].object_path@ && forall|j: int|
                    0 <= j < i ==> !names_session(#[trigger] sessions@[j], session_id@),
            None => forall|i: int|
                0 <= i < sessions@.len() ==> !names_session(#[trigger] sessions@[i], session_id@),
        },
{
    let mut i: usize = 0;
    while i < sessions.len()
        invariant
            i <= sessions@.len(),
            forall|j: int| 0 <= j < i ==> !names_session(#[trigger] sessions@[j], session_id@),
        decreases sessions@.len() - i,
    {
        let record = &sessions[i];
        if session_id.is_named_by(record.session_id.as_str()) {
            return Some(record.object_path.clone());
        }
        i = i + 1;
    }
    None
}

} // verus!
