//! Mentor accounts: their status and the requests that create or change them.
use vstd::prelude::*;
use vstd::string::StringExecFns;

verus! {

/// Whether a mentor may currently publish tasks.
#[derive(Clone, Copy, Debug, PartialEq, Eq, Structural)]
pub enum MentorStatus {
    Active,
    Inactive,
}

impl Default for MentorStatus {
    fn default() -> (r: MentorStatus)
        ensures
            r == MentorStatus::Inactive,
    {
        MentorStatus::Inactive
    }
}

/// What std's `str::to_lowercase` returns for a text.
pub uninterp spec fn lower_of(s: Seq<char>) -> Seq<char>;

/// Relies on std's `str::to_lowercase`: the lower-case form of the text,
/// which depends on its characters alone.
#[verifier::external_body]
fn lowercase(s: &str) -> (r: String)
    ensures
        r@ == lower_of(s@),
{
    s.to_lowercase()
}

/// The status a lower-cased stored text names: `active`, and anything else
/// counts as inactive.
pub open spec fn status_named(lower: Seq<char>) -> MentorStatus {
    if lower == "active"@ {
        MentorStatus::Active
    } else {
        MentorStatus::Inactive
    }
}

/// The stored text of a status.
pub open spec fn status_text(s: MentorStatus) -> Seq<char> {
    match s {
        MentorStatus::Active => "active"@,
        MentorStatus::Inactive => "inactive"@,
    }
}

impl MentorStatus {
    /// Reads a stored status, ignoring case; an unknown text is inactive.
    pub fn parse(s: &str) -> (r: MentorStatus)
        ensures
            r == status_named(lower_of(s@)),
    {
        let lower = lowercase(s);
        if lower == String::from_str("active") {
            MentorStatus::Active
        } else {
            MentorStatus::Inactive
        }
    }

    /// The text a status is stored as.
    pub fn as_text(&self) -> (r: String)
        ensures
            r@ == status_text(*self),
    {
        match self {
            MentorStatus::Active => String::from_str("active"),
            MentorStatus::Inactive => String::from_str("inactive"),
        }
    }
}

impl From<String> for MentorStatus {
    fn from(s: String) -> (r: MentorStatus) {
        MentorStatus::parse(s.as_str())
    }
}

impl vstd::std_specs::convert::FromSpecImpl<String> for MentorStatus {
    open spec fn obeys_from_spec() -> bool {
        true
    }

    open spec fn from_spec(s: String) -> MentorStatus {
        status_named(lower_of(s@))
    }
}

/// Asks to register a mentor.
#[derive(Clone, Debug, PartialEq, Eq)]
pub struct NewMentor {
    pub name: String,
    pub email: String,
    pub github_login: String,
    pub status: String,
}

/// Asks to change a mentor's status.
#[derive(Clone, Debug, PartialEq, Eq)]
pub struct UpdateMentorStatusRequest {
    pub login: String,
    pub status: MentorStatus,
}

} // verus!
