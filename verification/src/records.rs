//! Rows that the handlers have written. What is not given here (ids, instants)
//! the database fills in.

use vstd::prelude::*;

use crate::text::opt_text;

verus! {

/// A report that was just submitted.
pub struct NewReport {
    pub summary: String,
    pub body: String,
    pub severity: String,
    pub channel: String,
    pub status: String,
    pub reporter_email: Option<String>,
    pub reporter_token: String,
}

/// A case for a report, not yet assigned to anyone.
pub struct NewCase {
    pub report_id: i64,
    pub status: String,
}

/// An entry in the history of a case.
pub struct NewCaseAction {
    pub case_id: i64,
    pub actor_id: i64,
    pub action_type: String,
    pub note: String,
}

/// A disclosure of a reporter's identity.
pub struct NewDisclosure {
    pub case_id: i64,
    pub requested_by: i64,
    pub reason: String,
}

impl NewReport {
    /// Whether the row holds these values.
    pub open spec fn holds(
        self,
        summary: Seq<char>,
        body: Seq<char>,
        severity: Seq<char>,
        channel: Seq<char>,
        status: Seq<char>,
        reporter_email: Option<Seq<char>>,
        reporter_token: Seq<char>,
    ) -> bool {
        &&& self.summary@ == summary
        &&& self.body@ == body
        &&& self.severity@ == severity
        &&& self.channel@ == channel
        &&& self.status@ == status
        &&& opt_text(self.reporter_email) == reporter_email
        &&& self.reporter_token@ == reporter_token
    }
}

impl NewCase {
    /// Whether the row holds these values.
    pub open spec fn holds(self, report_id: i64, status: Seq<char>) -> bool {
        self.report_id == report_id && self.status@ == status
    }
}

impl NewCaseAction {
    /// Whether the row holds these values.
    pub open spec fn holds(
        self,
        case_id: i64,
        actor_id: i64,
        action_type: Seq<char>,
        note: Seq<char>,
    ) -> bool {
        &&& self.case_id == case_id
        &&& self.actor_id == actor_id
        &&& self.action_type@ == action_type
        &&& self.note@ == note
    }
}

impl NewDisclosure {
    /// Whether the row holds these values.
    pub open spec fn holds(self, case_id: i64, requested_by: i64, reason: Seq<char>) -> bool {
        self.case_id == case_id && self.requested_by == requested_by && self.reason@ == reason
    }
}

}
