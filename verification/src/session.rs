//! Roast sessions as far as the gateway reads them: the status of a session,
//! the commands that move it from one status to the next, and the rule that
//! picks the session to which the telemetry of a device belongs.

use crate::text::str_eq;
use vstd::prelude::*;
use vstd::string::*;

verus! {

/// Where a roast session stands.
#[derive(Debug, Clone, Copy, PartialEq, Eq, Structural)]
pub enum SessionStatus {
    /// Created but not started.
    Planning,
    /// Roasting.
    Active,
    /// Halted for a while.
    Paused,
    /// Finished.
    Completed,
    /// Ended by an error.
    Failed,
    /// Called off.
    Cancelled,
}

/// The name under which a status is stored.
pub open spec fn status_name(status: SessionStatus) -> Seq<char> {
    match status {
        SessionStatus::Planning => "planning"@,
        SessionStatus::Active => "active"@,
        SessionStatus::Paused => "paused"@,
        SessionStatus::Completed => "completed"@,
        SessionStatus::Failed => "failed"@,
        SessionStatus::Cancelled => "cancelled"@,
    }
}

/// The status that a name stands for.
pub open spec fn status_named(name: Seq<char>) -> Option<SessionStatus> {
    if name == "planning"@ {
        Some(SessionStatus::Planning)
    } else if name == "active"@ {
        Some(SessionStatus::Active)
    } else if name == "paused"@ {
        Some(SessionStatus::Paused)
    } else if name == "completed"@ {
        Some(SessionStatus::Completed)
    } else if name == "failed"@ {
        Some(SessionStatus::Failed)
    } else if name == "cancelled"@ {
        Some(SessionStatus::Cancelled)
    } else {
        None
    }
}

/// What can be asked of a session.
#[derive(Debug, Clone, Copy, PartialEq, Eq, Structural)]
pub enum SessionCommand {
    Start,
    Pause,
    Resume,
    Complete,
}

/// The status that `command` leads to from `status`, if it applies there.
pub open spec fn next_status(status: SessionStatus, command: SessionCommand) -> Option<
    SessionStatus,
> {
    match (command, status) {
        (SessionCommand::Start, SessionStatus::Planning) => Some(SessionStatus::Active),
        (SessionCommand::Pause, SessionStatus::Active) => Some(SessionStatus::Paused),
        (SessionCommand::Resume, SessionStatus::Paused) => Some(SessionStatus::Active),
        (SessionCommand::Complete, SessionStatus::Active) => Some(SessionStatus::Completed),
        (SessionCommand::Complete, SessionStatus::Paused) => Some(SessionStatus::Completed),
        _ => None,
    }
}

impl SessionStatus {
    /// Whether telemetry is attributed to a session of this status: it is
    /// roasting or halted for a while.
    pub open spec fn is_live(self) -> bool {
        self == SessionStatus::Active || self == SessionStatus::Paused
    }

    /// Whether no command applies any more.
    pub open spec fn is_final(self) -> bool {
        self == SessionStatus::Completed || self == SessionStatus::Failed || self
            == SessionStatus::Cancelled
    }

    /// The name under which the status is stored.
    pub fn as_str(&self) -> (r: &'static str)
        ensures
            r@ == status_name(*self),
    {
        match self {
            SessionStatus::Planning => "planning",
            SessionStatus::Active => "active",
            SessionStatus::Paused => "paused",
            SessionStatus::Completed => "completed",
            SessionStatus::Failed => "failed",
            SessionStatus::Cancelled => "cancelled",
        }
    }

    /// The name under which the status is stored, as an owned string.
    pub fn to_string(&self) -> (r: String)
        ensures
            r@ == status_name(*self),
    {
        String::from_str(self.as_str())
    }

    /// Reads a status from its name. Any other text is refused with a message
    /// that quotes it.
    pub fn from_str(s: &str) -> (r: Result<SessionStatus, String>)
        ensures
            match r {
                Ok(status) => status_named(s@) == Some(status),
                Err(message) => status_named(s@) is None && message@
                    == "Invalid session status: "@ + s@,
            },
    {
        if str_eq(s, "planning") {
            Ok(SessionStatus::Planning)
        } else if str_eq(s, "active") {
            Ok(SessionStatus::Active)
        } else if str_eq(s, "paused") {
            Ok(SessionStatus::Paused)
        } else if str_eq(s, "completed") {
            Ok(SessionStatus::Completed)
        } else if str_eq(s, "failed") {
            Ok(SessionStatus::Failed)
        } else if str_eq(s, "cancelled") {
            Ok(SessionStatus::Cancelled)
        } else {
            let mut message = String::from_str("Invalid session status: ");
            message.append(s);
            Err(message)
        }
    }

    /// Whether telemetry is attributed to a session of this status.
    pub fn live(&self) -> (r: bool)
        ensures
            r == self.is_live(),
    {
        match self {
            SessionStatus::Active => true,
            SessionStatus::Paused => true,
            _ => false,
        }
    }

    /// The status after `command`, or `None` where the command does not apply.
    pub fn apply(&self, command: SessionCommand) -> (r: Option<SessionStatus>)
        ensures
            r == next_status(*self, command),
    {
        match (command, *self) {
            (SessionCommand::Start, SessionStatus::Planning) => Some(SessionStatus::Active),
            (SessionCommand::Pause, SessionStatus::Active) => Some(SessionStatus::Paused),
            (SessionCommand::Resume, SessionStatus::Paused) => Some(SessionStatus::Active),
            (SessionCommand::Complete, SessionStatus::Active) => Some(SessionStatus::Completed),
            (SessionCommand::Complete, SessionStatus::Paused) => Some(SessionStatus::Completed),
            _ => None,
        }
    }
}

/// Every status is read back from its own name.
pub proof fn lemma_status_name_round_trip(status: SessionStatus)
    ensures
        status_named(status_name(status)) == Some(status),
{
    reveal_strlit("planning");
    reveal_strlit("active");
    reveal_strlit("paused");
    reveal_strlit("completed");
    reveal_strlit("failed");
    reveal_strlit("cancelled");
    assert("planning"@.len() == 8);
    assert("active"@.len() == 6);
    assert("paused"@.len() == 6);
    assert("completed"@.len() == 9);
    assert("failed"@.len() == 6);
    assert("cancelled"@.len() == 9);
    assert("active"@[0] == 'a');
    assert("paused"@[0] == 'p');
    assert("failed"@[0] == 'f');
    assert("completed"@[1] == 'o');
    assert("cancelled"@[1] == 'a');
}

/// A finished session takes no command, and no command leads back to planning.
pub proof fn lemma_session_lifecycle(status: SessionStatus, command: SessionCommand)
    ensures
        status.is_final() ==> next_status(status, command) is None,
        next_status(status, command) != Some(SessionStatus::Planning),
        next_status(status, command) matches Some(next) ==> next.is_live() || next
            == SessionStatus::Completed,
        status.is_live() && command != SessionCommand::Complete && next_status(status, command)
            is Some ==> next_status(status, command)->0.is_live(),
{
}

/// A kind of event that is marked during a roast.
#[derive(Debug, Clone, Copy, PartialEq, Eq, Structural)]
pub enum RoastEventType {
    Drop,
    DryingEnd,
    FirstCrackStart,
    FirstCrackEnd,
    SecondCrackStart,
    SecondCrackEnd,
    DevelopmentStart,
    DropOut,
    Custom,
}

/// The name under which a kind of roast event is stored.
pub open spec fn event_type_name(kind: RoastEventType) -> Seq<char> {
    match kind {
        RoastEventType::Drop => "drop"@,
        RoastEventType::DryingEnd => "drying_end"@,
        RoastEventType::FirstCrackStart => "first_crack_start"@,
        RoastEventType::FirstCrackEnd => "first_crack_end"@,
        RoastEventType::SecondCrackStart => "second_crack_start"@,
        RoastEventType::SecondCrackEnd => "second_crack_end"@,
        RoastEventType::DevelopmentStart => "development_start"@,
        RoastEventType::DropOut => "drop_out"@,
        RoastEventType::Custom => "custom"@,
    }
}

/// The kind of roast event that a name stands for.
pub open spec fn event_type_named(name: Seq<char>) -> Option<RoastEventType> {
    if name == "drop"@ {
        Some(RoastEventType::Drop)
    } else if name == "drying_end"@ {
        Some(RoastEventType::DryingEnd)
    } else if name == "first_crack_start"@ {
        Some(RoastEventType::FirstCrackStart)
    } else if name == "first_crack_end"@ {
        Some(RoastEventType::FirstCrackEnd)
    } else if name == "second_crack_start"@ {
        Some(RoastEventType::SecondCrackStart)
    } else if name == "second_crack_end"@ {
        Some(RoastEventType::SecondCrackEnd)
    } else if name == "development_start"@ {
        Some(RoastEventType::DevelopmentStart)
    } else if name == "drop_out"@ {
        Some(RoastEventType::DropOut)
    } else if name == "custom"@ {
        Some(RoastEventType::Custom)
    } else {
        None
    }
}

impl RoastEventType {
    /// The name under which the kind is stored.
    pub fn as_str(&self) -> (r: &'static str)
        ensures
            r@ == event_type_name(*self),
    {
        match self {
            RoastEventType::Drop => "drop",
            RoastEventType::DryingEnd => "drying_end",
            RoastEventType::FirstCrackStart => "first_crack_start",
            RoastEventType::FirstCrackEnd => "first_crack_end",
            RoastEventType::SecondCrackStart => "second_crack_start",
            RoastEventType::SecondCrackEnd => "second_crack_end",
            RoastEventType::DevelopmentStart => "development_start",
            RoastEventType::DropOut => "drop_out",
            RoastEventType::Custom => "custom",
        }
    }

    /// The name under which the kind is stored, as an owned string.
    pub fn to_string(&self) -> (r: String)
        ensures
            r@ == event_type_name(*self),
    {
        String::from_str(self.as_str())
    }

    /// Reads a kind of roast event from its name. Any other text is refused
    /// with a message that quotes it.
    pub fn from_str(s: &str) -> (r: Result<RoastEventType, String>)
        ensures
            match r {
                Ok(kind) => event_type_named(s@) == Some(kind),
                Err(message) => event_type_named(s@) is None && message@
                    == "Invalid roast event type: "@ + s@,
            },
    {
        if str_eq(s, "drop") {
            Ok(RoastEventType::Drop)
        } else if str_eq(s, "drying_end") {
            Ok(RoastEventType::DryingEnd)
        } else if str_eq(s, "first_crack_start") {
            Ok(RoastEventType::FirstCrackStart)
        } else if str_eq(s, "first_crack_end") {
            Ok(RoastEventType::FirstCrackEnd)
        } else if str_eq(s, "second_crack_start") {
            Ok(RoastEventType::SecondCrackStart)
        } else if str_eq(s, "second_crack_end") {
            Ok(RoastEventType::SecondCrackEnd)
        } else if str_eq(s, "development_start") {
            Ok(RoastEventType::DevelopmentStart)
        } else if str_eq(s, "drop_out") {
            Ok(RoastEventType::DropOut)
        } else if str_eq(s, "custom") {
            Ok(RoastEventType::Custom)
        } else {
            let mut message = String::from_str("Invalid roast event type: ");
            message.append(s);
            Err(message)
        }
    }
}

/// Every kind of roast event is read back from its own name.
pub proof fn lemma_event_type_name_round_trip(kind: RoastEventType)
    ensures
        event_type_named(event_type_name(kind)) == Some(kind),
{
    reveal_strlit("drop");
    reveal_strlit("drying_end");
    reveal_strlit("first_crack_start");
    reveal_strlit("first_crack_end");
    reveal_strlit("second_crack_start");
    reveal_strlit("second_crack_end");
    reveal_strlit("development_start");
    reveal_strlit("drop_out");
    reveal_strlit("custom");
    assert("drop"@.len() == 4);
    assert("drying_end"@.len() == 10);
    assert("first_crack_start"@.len() == 17);
    assert("first_crack_end"@.len() == 15);
    assert("second_crack_start"@.len() == 18);
    assert("second_crack_end"@.len() == 16);
    assert("development_start"@.len() == 17);
    assert("drop_out"@.len() == 8);
    assert("custom"@.len() == 6);
    assert("first_crack_start"@[0] == 'f');
    assert("development_start"@[0] == 'd');
}

/// What the gateway reads of a roast session.
#[derive(Debug, Clone, PartialEq, Eq)]
pub struct SessionRecord {
    pub id: String,
    pub device_id: String,
    pub status: SessionStatus,
    /// When the session was started, in seconds since the epoch; `None` for a
    /// session that never was.
    pub start_time: Option<i64>,
}

impl SessionRecord {
    /// Whether telemetry of `device` may belong to this session: it is a
    /// session of that device, roasting or halted for a while.
    pub open spec fn claims(self, device: Seq<char>) -> bool {
        self.device_id@ == device && self.status.is_live()
    }

    /// The start of the session as a number that orders sessions: a session
    /// without a start comes before every session with one.
    pub open spec fn started(self) -> int {
        match self.start_time {
            Some(t) => t as int,
            None => i64::MIN - 1,
        }
    }
}

/// The index of the active session of `device` among `sessions`: of the
/// sessions that claim the device, the one that started last, and of several
/// that started together the first.
pub open spec fn active_index(sessions: Seq<SessionRecord>, device: Seq<char>) -> Option<int>
    decreases sessions.len(),
{
    if sessions.len() == 0 {
        None
    } else {
        let earlier = active_index(sessions.drop_last(), device);
        let last = sessions.len() - 1;
        if sessions[last].claims(device) && (earlier matches Some(i) ==> sessions[i].started()
            < sessions[last].started()) {
            Some(last)
        } else {
            earlier
        }
    }
}

/// The active session is one that claims the device, none that claims it
/// started later, and none before it started as late. There is none exactly
/// when no session claims the device.
pub proof fn lemma_active_index(sessions: Seq<SessionRecord>, device: Seq<char>)
    ensures
        match active_index(sessions, device) {
            Some(i) => {
                &&& 0 <= i < sessions.len()
                &&& sessions[i].claims(device)
                &&& forall|j: int|
                    0 <= j < sessions.len() && sessions[j].claims(device) ==> sessions[j].started()
                        <= sessions[i].started()
                &&& forall|j: int|
                    0 <= j < i && sessions[j].claims(device) ==> sessions[j].started()
                        < sessions[i].started()
            },
            None => forall|j: int| 0 <= j < sessions.len() ==> !sessions[j].claims(device),
        },
    decreases sessions.len(),
{
    if sessions.len() > 0 {
        let head = sessions.drop_last();
        lemma_active_index(head, device);
        assert forall|j: int| 0 <= j < head.len() implies head[j] == sessions[j] by {}
    }
}

/// Picks the active session of `device_id`: the index, in `sessions`, of the
/// session of that device that is roasting or halted and started last.
pub fn active_session(sessions: &Vec<SessionRecord>, device_id: &str) -> (r: Option<usize>)
    ensures
        match r {
            Some(i) => active_index(sessions@, device_id@) == Some(i as int) && i < sessions.len(),
            None => active_index(sessions@, device_id@) is None,
        },
{
    let mut best: Option<usize> = None;
    let mut i: usize = 0;
    proof {
        assert(sessions@.take(0) == Seq::<SessionRecord>::empty());
    }
    while i < sessions.len()
        invariant
            i <= sessions.len(),
            match best {
                Some(b) => active_index(sessions@.take(i as int), device_id@) == Some(b as int)
                    && b < i,
                None => active_index(sessions@.take(i as int), device_id@) is None,
            },
        decreases sessions.len() - i,
    {
        proof {
            assert(sessions@.take(i + 1).drop_last() == sessions@.take(i as int));
        }
        let candidate = &sessions[i];
        if str_eq(candidate.device_id.as_str(), device_id) && candidate.status.live() {
            let later = match best {
                Some(b) => starts_before(&sessions[b], candidate),
                None => true,
            };
            if later {
                best = Some(i);
            }
        }
        i += 1;
    }
    proof {
        assert(sessions@.take(sessions.len() as int) == sessions@);
    }
    best
}

fn starts_before(a: &SessionRecord, b: &SessionRecord) -> (r: bool)
    ensures
        r == (a.started() < b.started()),
{
    match (a.start_time, b.start_time) {
        (Some(x), Some(y)) => x < y,
        (None, Some(_)) => true,
        (_, None) => false,
    }
}

} // verus!
