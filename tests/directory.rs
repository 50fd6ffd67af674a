use r2cn_core::date::CalendarDate;
use r2cn_core::mentor::MentorStatus;
use r2cn_core::model::{CommonError, CommonResult};
use r2cn_core::student::{
    record_validation, validation_result, OsppValidateStudentRes, Student, StudentWrite,
    ValidateStudentRes,
};

fn answer(exists: bool) -> OsppValidateStudentRes {
    OsppValidateStudentRes {
        code: 200,
        err_code: 0,
        student_exist: exists,
        message: "ok".to_string(),
        su_student_name: Some("Alice".to_string()),
        contract_deadline: Some("2025-09-30 00:00:00".to_string()),
        email: Some("alice@example.org".to_string()),
    }
}

#[test]
fn validation_maps_the_service_answer() {
    let r = validation_result(Some(answer(true)));
    assert_eq!(
        r,
        ValidateStudentRes {
            success: true,
            student_name: Some("Alice".to_string()),
            contract_deadline: Some("2025-09-30 00:00:00".to_string()),
            email: Some("alice@example.org".to_string()),
        }
    );
    assert!(!validation_result(Some(answer(false))).success);
}

#[test]
fn unreadable_answer_is_a_failed_validation() {
    let r = validation_result(None);
    assert_eq!(
        r,
        ValidateStudentRes { success: false, student_name: None, contract_deadline: None, email: None }
    );
}

#[test]
fn new_student_is_recorded_with_contract_month() {
    let data = validation_result(Some(answer(true)));
    let w = record_validation("alice".to_string(), data, None).unwrap();
    assert_eq!(
        w,
        StudentWrite::Insert(Student {
            github_login: "alice".to_string(),
            student_name: "Alice".to_string(),
            email: "alice@example.org".to_string(),
            contract_end_date: Some(CalendarDate::new(2025, 9, 1)),
        })
    );
}

#[test]
fn known_student_only_takes_the_new_contract_month() {
    let old = Student {
        github_login: "alice".to_string(),
        student_name: "Old Name".to_string(),
        email: "old@example.org".to_string(),
        contract_end_date: None,
    };
    let data = validation_result(Some(answer(true)));
    let w = record_validation("alice".to_string(), data, Some(old.clone())).unwrap();
    assert_eq!(
        w,
        StudentWrite::Update(Student { contract_end_date: Some(CalendarDate::new(2025, 9, 1)), ..old })
    );
}

#[test]
fn unreadable_deadline_or_missing_details_are_invalid_input() {
    let mut data = validation_result(Some(answer(true)));
    data.contract_deadline = Some("30/09/2025".to_string());
    let r = record_validation("alice".to_string(), data, None);
    assert!(matches!(r, Err(CommonError::InvalidInput(_))));
    let mut data = validation_result(Some(answer(true)));
    data.email = None;
    let r = record_validation("alice".to_string(), data, None);
    assert!(matches!(r, Err(CommonError::InvalidInput(_))));
}

#[test]
fn mentor_status_reads_case_insensitively() {
    assert_eq!(MentorStatus::from("active".to_string()), MentorStatus::Active);
    assert_eq!(MentorStatus::from("ACTIVE".to_string()), MentorStatus::Active);
    assert_eq!(MentorStatus::from("Inactive".to_string()), MentorStatus::Inactive);
    assert_eq!(MentorStatus::from("retired".to_string()), MentorStatus::Inactive);
    assert_eq!(MentorStatus::default(), MentorStatus::Inactive);
    assert_eq!(MentorStatus::Active.as_text(), "active");
    assert_eq!(MentorStatus::Inactive.as_text(), "inactive");
}

#[test]
fn result_envelope() {
    let ok: CommonResult<bool> = CommonResult::success(Some(true));
    assert_eq!(ok, CommonResult { data: Some(true), message: String::new() });
    let failed: CommonResult<bool> = CommonResult::failed("Task Not Found");
    assert_eq!(failed, CommonResult { data: None, message: "Task Not Found".to_string() });
}

#[test]
fn error_messages() {
    let e = CommonError::not_found("task not found");
    assert_eq!(e.message(), "task not found");
    assert!(matches!(CommonError::conflict("x"), CommonError::Conflict(_)));
}
