//! The student directory as the ledger sees it: what the external
//! validation service reports, and the directory record kept from it.
use vstd::prelude::*;
use crate::date::{contract_end_month, parsed_date_time, CalendarDate};
use crate::model::CommonError;

verus! {

/// A student known to the directory.
#[derive(Clone, Debug, PartialEq, Eq)]
pub struct Student {
    pub github_login: String,
    pub student_name: String,
    pub email: String,
    /// The first day of the month the contract ends in, if it has an end.
    pub contract_end_date: Option<CalendarDate>,
}

/// Asks for the tasks of a student.
#[derive(Clone, Debug, PartialEq, Eq)]
pub struct SearchStuTask {
    pub login: String,
}

/// Asks the validation service about a login.
#[derive(Clone, Debug, PartialEq, Eq)]
pub struct ValidateStudent {
    pub login: String,
}

/// The validation service's answer, as it sends it.
#[derive(Clone, Debug, PartialEq, Eq)]
pub struct OsppValidateStudentRes {
    pub code: i32,
    pub err_code: i32,
    pub student_exist: bool,
    pub message: String,
    pub su_student_name: Option<String>,
    pub contract_deadline: Option<String>,
    pub email: Option<String>,
}

/// The validation outcome the rest of the system works with.
#[derive(Clone, Debug, PartialEq, Eq)]
pub struct ValidateStudentRes {
    pub success: bool,
    pub student_name: Option<String>,
    pub contract_deadline: Option<String>,
    pub email: Option<String>,
}

/// A write the caller performs on its student store.
#[derive(Clone, Debug, PartialEq, Eq)]
pub enum StudentWrite {
    /// Add this student; none is stored under the login yet.
    Insert(Student),
    /// Replace the stored student of the same login by this one.
    Update(Student),
}

/// Turns the service's answer into a validation outcome; an answer that
/// could not be read (`None`) counts as a failed validation.
pub fn validation_result(answer: Option<OsppValidateStudentRes>) -> (r: ValidateStudentRes)
    ensures
        answer matches Some(a) ==> r == (ValidateStudentRes {
            success: a.student_exist,
            student_name: a.su_student_name,
            contract_deadline: a.contract_deadline,
            email: a.email,
        }),
        answer is None ==> r == (ValidateStudentRes {
            success: false,
            student_name: None,
            contract_deadline: None,
            email: None,
        }),
{
    match answer {
        Some(a) => ValidateStudentRes {
            success: a.student_exist,
            student_name: a.su_student_name,
            contract_deadline: a.contract_deadline,
            email: a.email,
        },
        None => ValidateStudentRes {
            success: false,
            student_name: None,
            contract_deadline: None,
            email: None,
        },
    }
}

/// The contract end month that a deadline text gives, when it parses.
pub open spec fn deadline_month(text: Seq<char>) -> Option<(int, int)> {
    match parsed_date_time(text) {
        Some(p) => Some((p.0, p.1)),
        None => None,
    }
}

/// The month as a pair of numbers.
pub open spec fn month_of(d: CalendarDate) -> (int, int) {
    (d.year as int, d.month as int)
}

/// Records a validated student under `login`. `existing` is the stored
/// record, if any: it keeps its name and email and takes the new contract
/// end month. A new record needs the name and email from the validation.
/// The deadline, if given, must read as `%Y-%m-%d %H:%M:%S`; it is kept as
/// the first day of its month.
pub fn record_validation(login: String, data: ValidateStudentRes, existing: Option<Student>) -> (r:
    Result<StudentWrite, CommonError>)
    ensures
        r is Err <==> ((data.contract_deadline matches Some(t) && deadline_month(t@) is None) || (
        existing is None && (data.student_name is None || data.email is None))),
        r matches Err(e) ==> e is InvalidInput,
        r matches Ok(w) ==> {
            let s = match w {
                StudentWrite::Insert(s) => s,
                StudentWrite::Update(s) => s,
            };
            &&& (data.contract_deadline is None ==> s.contract_end_date is None)
            &&& (data.contract_deadline matches Some(t) ==> (s.contract_end_date matches Some(d)
                && d.wf() && d.day == 1 && deadline_month(t@) == Some(month_of(d))))
            &&& match existing {
                Some(old) => w == StudentWrite::Update(
                    Student { contract_end_date: s.contract_end_date, ..old },
                ),
                None => w == StudentWrite::Insert(
                    Student {
                        github_login: login,
                        student_name: data.student_name->Some_0,
                        email: data.email->Some_0,
                        contract_end_date: s.contract_end_date,
                    },
                ),
            }
        },
{
    let contract_end_date = match &data.contract_deadline {
        Some(text) => match contract_end_month(text.as_str()) {
            Some(d) => Some(d),
            None => {
                return Err(CommonError::invalid_input("contract deadline is not a date"));
            },
        },
        None => None,
    };
    match existing {
        Some(old) => Ok(StudentWrite::Update(Student { contract_end_date, ..old })),
        None => match (data.student_name, data.email) {
            (Some(student_name), Some(email)) => Ok(
                StudentWrite::Insert(
                    Student { github_login: login, student_name, email, contract_end_date },
                ),
            ),
            _ => Err(CommonError::invalid_input("a new student needs a name and an email")),
        },
    }
}

} // verus!
