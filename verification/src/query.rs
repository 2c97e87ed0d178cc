//! The text of the statements whose shape depends on the request.

use crate::session::{next_status, SessionCommand, SessionStatus};
use crate::text::{push_signed_decimal, signed_decimal};
use vstd::prelude::*;
use vstd::string::*;

verus! {

/// The statement that lists sessions, newest first: of one device where
/// `by_device` is set, and at most `limit` of them where a limit is given.
pub open spec fn list_sessions_text(by_device: bool, limit: Option<i32>) -> Seq<char> {
    "SELECT * FROM roast_sessions"@ + (if by_device {
        " WHERE device_id = ?"@
    } else {
        Seq::<char>::empty()
    }) + " ORDER BY created_at DESC"@ + (match limit {
        Some(n) => " LIMIT "@ + signed_decimal(n as int),
        None => Seq::<char>::empty(),
    })
}

/// The statement that lists sessions.
pub fn list_sessions_query(by_device: bool, limit: Option<i32>) -> (r: String)
    ensures
        r@ == list_sessions_text(by_device, limit),
{
    let mut query = String::from_str("SELECT * FROM roast_sessions");
    if by_device {
        query.append(" WHERE device_id = ?");
    }
    query.append(" ORDER BY created_at DESC");
    match limit {
        Some(n) => {
            query.append(" LIMIT ");
            push_signed_decimal(&mut query, n as i64);
        },
        None => {},
    }
    proof {
        assert(query@ == list_sessions_text(by_device, limit));
    }
    query
}

/// The statement that lists profiles: all of them, or the public ones only.
pub fn list_profiles_query(include_private: bool) -> (r: &'static str)
    ensures
        r@ == if include_private {
            "SELECT * FROM roast_profiles ORDER BY created_at DESC"@
        } else {
            "SELECT * FROM roast_profiles WHERE is_public = 1 ORDER BY created_at DESC"@
        },
{
    if include_private {
        "SELECT * FROM roast_profiles ORDER BY created_at DESC"
    } else {
        "SELECT * FROM roast_profiles WHERE is_public = 1 ORDER BY created_at DESC"
    }
}

/// Which fields of a session an update sets.
#[derive(Debug, Clone, Copy, PartialEq, Eq, Structural)]
pub struct SessionFields {
    pub name: bool,
    pub roasted_weight: bool,
    pub notes: bool,
    pub first_crack_time: bool,
    pub development_time_ratio: bool,
}

impl SessionFields {
    /// Whether the update sets nothing.
    pub open spec fn is_empty(self) -> bool {
        !self.name && !self.roasted_weight && !self.notes && !self.first_crack_time
            && !self.development_time_ratio
    }
}

/// `text` where `present`, else nothing.
pub open spec fn when(present: bool, text: Seq<char>) -> Seq<char> {
    if present {
        text
    } else {
        Seq::<char>::empty()
    }
}

/// The statement that updates the fields given of one session. The time of
/// the update is always set, and bound first; the fields follow in the order
/// of the statement, and the id of the session is bound last.
pub open spec fn update_session_text(fields: SessionFields) -> Seq<char> {
    "UPDATE roast_sessions SET updated_at = ?"@ + when(fields.name, ", name = ?"@) + when(
        fields.roasted_weight,
        ", roasted_weight = ?"@,
    ) + when(fields.notes, ", notes = ?"@) + when(
        fields.first_crack_time,
        ", first_crack_time = ?"@,
    ) + when(fields.development_time_ratio, ", development_time_ratio = ?"@)
        + " WHERE id = ? RETURNING *"@
}

fn append_when(query: &mut String, present: bool, text: &str)
    ensures
        final(query)@ == old(query)@ + when(present, text@),
{
    if present {
        query.append(text);
    } else {
        assert(query@ + Seq::<char>::empty() == query@);
    }
}

/// The statement that updates a session, or `None` where there is nothing to
/// update and the session is only read.
pub fn update_session_query(fields: SessionFields) -> (r: Option<String>)
    ensures
        match r {
            Some(query) => !fields.is_empty() && query@ == update_session_text(fields),
            None => fields.is_empty(),
        },
{
    if !fields.name && !fields.roasted_weight && !fields.notes && !fields.first_crack_time
        && !fields.development_time_ratio {
        return None;
    }
    let mut query = String::from_str("UPDATE roast_sessions SET updated_at = ?");
    append_when(&mut query, fields.name, ", name = ?");
    append_when(&mut query, fields.roasted_weight, ", roasted_weight = ?");
    append_when(&mut query, fields.notes, ", notes = ?");
    append_when(&mut query, fields.first_crack_time, ", first_crack_time = ?");
    append_when(&mut query, fields.development_time_ratio, ", development_time_ratio = ?");
    query.append(" WHERE id = ? RETURNING *");
    Some(query)
}

/// Which fields of a roast event an update sets.
#[derive(Debug, Clone, Copy, PartialEq, Eq, Structural)]
pub struct EventFields {
    pub elapsed_seconds: bool,
    pub temperature: bool,
    pub notes: bool,
}

impl EventFields {
    /// Whether the update sets nothing.
    pub open spec fn is_empty(self) -> bool {
        !self.elapsed_seconds && !self.temperature && !self.notes
    }
}

/// An update of a roast event has to set a field.
#[derive(Debug, Clone, Copy, PartialEq, Eq, Structural)]
pub struct NoFields;

impl NoFields {
    /// What the caller is told.
    pub fn message(&self) -> (r: &'static str)
        ensures
            r@ == "No fields to update"@,
    {
        "No fields to update"
    }
}

/// The statement that updates the fields given of one roast event. The fields
/// are bound in the order of the statement, and the id of the event last.
pub open spec fn update_event_text(fields: EventFields) -> Seq<char> {
    "UPDATE roast_events SET "@ + when(fields.elapsed_seconds, "elapsed_seconds = ?, "@) + when(
        fields.temperature,
        "temperature = ?, "@,
    ) + when(fields.notes, "notes = ?, "@)
        + "updated_at = CURRENT_TIMESTAMP WHERE id = ? RETURNING *"@
}

/// The statement that updates a roast event. An update that sets nothing is refused.
pub fn update_roast_event_query(fields: EventFields) -> (r: Result<String, NoFields>)
    ensures
        match r {
            Ok(query) => !fields.is_empty() && query@ == update_event_text(fields),
            Err(_) => fields.is_empty(),
        },
{
    if !fields.elapsed_seconds && !fields.temperature && !fields.notes {
        return Err(NoFields);
    }
    let mut query = String::from_str("UPDATE roast_events SET ");
    append_when(&mut query, fields.elapsed_seconds, "elapsed_seconds = ?, ");
    append_when(&mut query, fields.temperature, "temperature = ?, ");
    append_when(&mut query, fields.notes, "notes = ?, ");
    query.append("updated_at = CURRENT_TIMESTAMP WHERE id = ? RETURNING *");
    Ok(query)
}

/// The statement that carries out a command on one session. It binds, in
/// order: the status the command leads to; the times it sets; for a
/// completion the total time and the highest temperature; the id of the
/// session; and the statuses from which the command applies. A session that
/// stands elsewhere is left alone.
pub fn transition_query(command: SessionCommand) -> (r: &'static str)
    ensures
        r@ == match command {
            SessionCommand::Start => "UPDATE roast_sessions SET status = ?, start_time = ?, updated_at = ? WHERE id = ? AND status = ? RETURNING *"@,
            SessionCommand::Pause => "UPDATE roast_sessions SET status = ?, updated_at = ? WHERE id = ? AND status = ? RETURNING *"@,
            SessionCommand::Resume => "UPDATE roast_sessions SET status = ?, updated_at = ? WHERE id = ? AND status = ? RETURNING *"@,
            SessionCommand::Complete => "UPDATE roast_sessions SET status = ?, end_time = ?, updated_at = ?, total_time_seconds = ?, max_temp = ? WHERE id = ? AND status IN (?, ?) RETURNING *"@,
        },
{
    match command {
        SessionCommand::Start => "UPDATE roast_sessions SET status = ?, start_time = ?, updated_at = ? WHERE id = ? AND status = ? RETURNING *",
        SessionCommand::Pause => "UPDATE roast_sessions SET status = ?, updated_at = ? WHERE id = ? AND status = ? RETURNING *",
        SessionCommand::Resume => "UPDATE roast_sessions SET status = ?, updated_at = ? WHERE id = ? AND status = ? RETURNING *",
        SessionCommand::Complete => "UPDATE roast_sessions SET status = ?, end_time = ?, updated_at = ?, total_time_seconds = ?, max_temp = ? WHERE id = ? AND status IN (?, ?) RETURNING *",
    }
}

impl SessionCommand {
    /// The status that the command leads to.
    pub fn target(&self) -> (r: SessionStatus)
        ensures
            forall|from: SessionStatus| #[trigger]
                next_status(from, *self) matches Some(to) ==> to == r,
    {
        match self {
            SessionCommand::Start => SessionStatus::Active,
            SessionCommand::Pause => SessionStatus::Paused,
            SessionCommand::Resume => SessionStatus::Active,
            SessionCommand::Complete => SessionStatus::Completed,
        }
    }

    /// The statuses from which the command applies, each once.
    pub fn sources(&self) -> (r: Vec<SessionStatus>)
        ensures
            r@ == match *self {
                SessionCommand::Start => seq![SessionStatus::Planning],
                SessionCommand::Pause => seq![SessionStatus::Active],
                SessionCommand::Resume => seq![SessionStatus::Paused],
                SessionCommand::Complete => seq![SessionStatus::Active, SessionStatus::Paused],
            },
            forall|from: SessionStatus| r@.contains(from) <==> #[trigger] next_status(from, *self)
                is Some,
            r@.no_duplicates(),
    {
        let mut out: Vec<SessionStatus> = Vec::new();
        match self {
            SessionCommand::Start => {
                out.push(SessionStatus::Planning);
            },
            SessionCommand::Pause => {
                out.push(SessionStatus::Active);
            },
            SessionCommand::Resume => {
                out.push(SessionStatus::Paused);
            },
            SessionCommand::Complete => {
                out.push(SessionStatus::Active);
                out.push(SessionStatus::Paused);
            },
        }
        proof {
            assert forall|from: SessionStatus| out@.contains(from) <==> #[trigger] next_status(
                from,
                *self,
            ) is Some by {
                if next_status(from, *self) is Some {
                    if out@[0] != from {
                        assert(out@[1] == from);
                    }
                }
            }
        }
        out
    }
}

} // verus!
