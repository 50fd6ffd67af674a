use r2cn_core::date::{get_last_month, CalendarDate};
use r2cn_core::model::CommonError;
use r2cn_core::policy::PayoutPolicy;
use r2cn_core::score::{
    accrue, accrue_for_task, carry_over, inactive_entries, is_inactive_entry, load_score_strategy, select_policy, settle_entry,
    settle_inactive, settle_month, settle_student, settlement_notice_due, LedgerWrite, NewScore, ScoreDto,
};
use r2cn_core::student::Student;
use r2cn_core::task::{NewTask, Task};

fn entry(login: &str, year: i32, month: i32, carryover: i32, new: i32) -> ScoreDto {
    ScoreDto {
        id: 7,
        github_login: login.to_string(),
        student_name: "Alice".to_string(),
        github_id: 42,
        year,
        month,
        carryover_score: carryover,
        new_score: new,
        consumption_score: 0,
        exchanged: 0,
    }
}

fn july() -> CalendarDate {
    CalendarDate::new(2025, 7, 1)
}

fn student(contract_end: Option<CalendarDate>) -> Student {
    Student {
        github_login: "alice".to_string(),
        student_name: "Alice".to_string(),
        email: "alice@example.org".to_string(),
        contract_end_date: contract_end,
    }
}

#[test]
fn first_accrual_without_history_carries_nothing() {
    let w = accrue(None, None, "alice".to_string(), "Alice".to_string(), 42, july(), 25).unwrap();
    let LedgerWrite::Insert(e) = w else { panic!("expected an insert") };
    assert_eq!(e.carryover_score, 0);
    assert_eq!(e.new_score, 25);
    assert_eq!(e.consumption_score, 0);
    assert_eq!(e.exchanged, 0);
    assert_eq!((e.year, e.month), (2025, 7));
    assert_eq!(e.github_login, "alice");
}

#[test]
fn first_accrual_carries_the_latest_balance() {
    let mut latest = entry("alice", 2025, 5, 50, 20);
    latest.consumption_score = 40;
    latest.exchanged = 2000;
    assert_eq!(latest.score_balance(), 30);
    let w = accrue(None, Some(latest), "alice".to_string(), "Alice".to_string(), 42, july(), 10).unwrap();
    assert_eq!(w.entry().carryover_score, 30);
    assert_eq!(w.entry().new_score, 10);
    assert_eq!(w.entry().score_total(), 40);
}

#[test]
fn later_accrual_adds_to_the_month() {
    let current = entry("alice", 2025, 7, 30, 25);
    let w = accrue(Some(current.clone()), None, "alice".to_string(), "Alice".to_string(), 42, july(), 15).unwrap();
    let mut expected = current;
    expected.new_score = 40;
    assert_eq!(w, LedgerWrite::Update(expected));
    assert_eq!(w.entry().score_total(), 70);
}

#[test]
fn accrual_refuses_negative_points_and_overflow() {
    let r = accrue(None, None, "alice".to_string(), "Alice".to_string(), 42, july(), -1);
    assert!(matches!(r, Err(CommonError::InvalidInput(_))));
    let current = entry("alice", 2025, 7, i32::MAX - 10, 10);
    let r = accrue(Some(current), None, "alice".to_string(), "Alice".to_string(), 42, july(), 1);
    assert!(matches!(r, Err(CommonError::InvalidInput(_))));
}

#[test]
fn new_score_starts_an_unsettled_entry() {
    let n = NewScore {
        score: 25,
        carryover_score: 5,
        github_id: 42,
        github_login: "alice".to_string(),
        student_name: "Alice".to_string(),
    };
    let e = n.into_entry(CalendarDate::new(2025, 7, 9));
    assert_eq!(e, ScoreDto { id: 0, ..entry("alice", 2025, 7, 5, 25) });
}

#[test]
fn policy_follows_the_contract_end() {
    assert_eq!(load_score_strategy(&student(None), july()), PayoutPolicy::Standard);
    assert_eq!(load_score_strategy(&student(Some(july())), july()), PayoutPolicy::Deadline);
    assert_eq!(
        load_score_strategy(&student(Some(CalendarDate::new(2025, 3, 1))), july()),
        PayoutPolicy::Deadline
    );
    assert_eq!(
        load_score_strategy(&student(Some(CalendarDate::new(2025, 8, 1))), july()),
        PayoutPolicy::Standard
    );
    assert_eq!(select_policy(None, july()), PayoutPolicy::Standard);
}

#[test]
fn settlement_records_consumption_and_payout() {
    let e = entry("alice", 2025, 7, 30, 69);
    let s = settle_entry(&e, PayoutPolicy::Standard);
    assert_eq!(s.consumption_score, 80);
    assert_eq!(s.exchanged, 4000);
    assert_eq!(s.score_balance(), 19);
    let d = settle_entry(&e, PayoutPolicy::Deadline);
    assert_eq!(d.consumption_score, 99);
    assert_eq!(d.exchanged, 4950);
    assert_eq!(d.score_balance(), 0);
}

#[test]
fn settling_twice_changes_nothing() {
    let e = entry("alice", 2025, 7, 45, 20);
    let once = settle_entry(&e, PayoutPolicy::Standard);
    let twice = settle_entry(&once, PayoutPolicy::Standard);
    assert_eq!(once, twice);
    assert_eq!(twice.consumption_score, 60);
    assert_eq!(twice.exchanged, 3000);
}

#[test]
fn settle_month_settles_each_entry_under_its_policy() {
    let entries = vec![entry("a", 2025, 7, 0, 45), entry("b", 2025, 7, 0, 45)];
    let policies = vec![PayoutPolicy::Standard, PayoutPolicy::Deadline];
    let out = settle_month(&entries, &policies);
    assert_eq!(out.len(), 2);
    assert_eq!(out[0].consumption_score, 40);
    assert_eq!(out[1].consumption_score, 45);
}

#[test]
fn carryover_creates_or_updates_the_next_month() {
    let settled = settle_entry(&entry("alice", 2025, 7, 10, 50), PayoutPolicy::Standard);
    let aug = CalendarDate::new(2025, 8, 1);
    let w = carry_over(&settled, None, aug).unwrap();
    assert_eq!(w, LedgerWrite::Insert(ScoreDto { id: 0, ..entry("alice", 2025, 8, 0, 0) }));
    let current = entry("alice", 2025, 8, 3, 12);
    let w = carry_over(&settled, Some(current.clone()), aug).unwrap();
    assert_eq!(w, LedgerWrite::Update(ScoreDto { carryover_score: 0, ..current }));
    let settled = settle_entry(&entry("alice", 2025, 7, 10, 25), PayoutPolicy::Standard);
    let w = carry_over(&settled, None, aug).unwrap();
    assert_eq!(w.entry().carryover_score, 35);
}

#[test]
fn carryover_into_a_settled_month_replaces_its_carryover() {
    let settled = settle_entry(&entry("alice", 2025, 7, 10, 25), PayoutPolicy::Standard);
    let already = settle_entry(&entry("alice", 2025, 8, 0, 50), PayoutPolicy::Standard);
    assert_eq!(already.consumption_score, 40);
    let w = carry_over(&settled, Some(already.clone()), CalendarDate::new(2025, 8, 1)).unwrap();
    assert_eq!(w, LedgerWrite::Update(ScoreDto { carryover_score: 35, ..already }));
}

#[test]
fn carryover_that_the_entry_cannot_hold_is_a_conflict() {
    let settled = settle_entry(&entry("alice", 2025, 7, 0, 0), PayoutPolicy::Standard);
    let already = settle_entry(&entry("alice", 2025, 8, 40, 10), PayoutPolicy::Standard);
    assert_eq!(already.consumption_score, 40);
    let r = carry_over(&settled, Some(already), CalendarDate::new(2025, 8, 1));
    assert!(matches!(r, Err(CommonError::Conflict(_))));
    let rich = entry("alice", 2025, 7, i32::MAX - 5, 0);
    let settled = settle_entry(&rich, PayoutPolicy::Standard);
    let current = entry("alice", 2025, 8, 0, 200);
    let r = carry_over(&settled, Some(current), CalendarDate::new(2025, 8, 1));
    assert!(matches!(r, Err(CommonError::Conflict(_))));
}

#[test]
fn latest_entry_with_negative_balance_is_a_conflict() {
    let mut latest = entry("alice", 2025, 5, 10, 0);
    latest.consumption_score = 20;
    let r = accrue(None, Some(latest), "alice".to_string(), "Alice".to_string(), 42, july(), 5);
    assert!(matches!(r, Err(CommonError::Conflict(_))));
}

#[test]
fn balance_of_an_entry_settled_under_another_table() {
    let mut e = entry("alice", 2025, 5, 10, 50);
    e.consumption_score = 60;
    e.exchanged = 4000;
    assert!(!e.is_well_formed());
    assert!(e.balance_in_range());
    assert_eq!(e.score_balance(), 0);
    assert_eq!(e.score_total(), 60);
}

#[test]
fn inactive_students_are_taken_from_their_latest_earlier_entry() {
    let aug = CalendarDate::new(2025, 8, 1);
    let ledger = vec![
        entry("alice", 2025, 5, 0, 10),
        entry("bob", 2025, 6, 0, 5),
        entry("alice", 2025, 7, 10, 0),
        entry("carol", 2025, 7, 0, 3),
        entry("carol", 2025, 8, 3, 0),
        entry("dave", 2025, 9, 0, 1),
        entry("alice", 2025, 7, 10, 0),
    ];
    assert_eq!(inactive_entries(&ledger, aug), vec![1, 2]);
    assert!(is_inactive_entry(&ledger, 2, aug));
    assert!(!is_inactive_entry(&ledger, 0, aug));
    assert!(!is_inactive_entry(&ledger, 6, aug));
    assert!(inactive_entries(&vec![], aug).is_empty());
}

#[test]
fn notice_only_when_points_were_earned() {
    assert!(settlement_notice_due(&entry("alice", 2025, 7, 10, 5)));
    assert!(!settlement_notice_due(&entry("alice", 2025, 7, 10, 0)));
}

fn finished_task_for_alice(score: i32, month: CalendarDate) -> Task {
    let mut t = Task::open(NewTask {
        owner: "o".to_string(),
        repo: "r".to_string(),
        github_issue_number: 1,
        github_repo_id: 2,
        github_issue_id: 3,
        score,
        mentor_github_login: "m".to_string(),
    })
    .unwrap();
    t.request_assign("alice".to_string()).unwrap();
    t.intern_approve().unwrap();
    t.request_complete().unwrap();
    t.intern_done(month).unwrap();
    t
}

/// Runs accrual for a finished task and the next month's settlement, and
/// returns the accrued entry, the settled entry and next month's entry.
fn accrue_and_settle(contract_end: Option<CalendarDate>) -> (ScoreDto, ScoreDto, ScoreDto) {
    let this_month = CalendarDate::new(2025, 7, 18);
    let task = finished_task_for_alice(25, this_month);
    let w = accrue_for_task(&task, "Alice".to_string(), None, None, 42, this_month).unwrap();
    let LedgerWrite::Insert(accrued) = w else { panic!("expected an insert") };
    let run_day = CalendarDate::new(2025, 8, 2);
    let month = get_last_month(run_day);
    assert_eq!(month, CalendarDate::new(2025, 7, 1));
    let st = student(contract_end);
    let settled = settle_student(&accrued, Some(&st), month);
    let next = carry_over(&settled, None, run_day.first_of_month()).unwrap();
    (accrued, settled, next.entry().clone())
}

#[test]
fn end_to_end_standard_policy_keeps_small_balance() {
    let (accrued, settled, next) = accrue_and_settle(None);
    assert_eq!(
        (accrued.carryover_score, accrued.new_score, accrued.consumption_score),
        (0, 25, 0)
    );
    assert_eq!((accrued.year, accrued.month), (2025, 7));
    assert_eq!(settled.consumption_score, 0);
    assert_eq!(settled.exchanged, 0);
    assert_eq!((next.year, next.month), (2025, 8));
    assert_eq!(next.carryover_score, 25);
    assert_eq!(next.new_score, 0);
}

#[test]
fn end_to_end_deadline_policy_pays_everything() {
    let (accrued, settled, next) = accrue_and_settle(Some(CalendarDate::new(2025, 7, 1)));
    assert_eq!(
        (accrued.carryover_score, accrued.new_score, accrued.consumption_score),
        (0, 25, 0)
    );
    assert_eq!(settled.consumption_score, 25);
    assert_eq!(settled.exchanged, 1250);
    assert_eq!(next.carryover_score, 0);
}

#[test]
fn accrual_for_an_unfinished_task_is_refused() {
    let t = Task::open(NewTask {
        owner: "o".to_string(),
        repo: "r".to_string(),
        github_issue_number: 1,
        github_repo_id: 2,
        github_issue_id: 3,
        score: 10,
        mentor_github_login: "m".to_string(),
    })
    .unwrap();
    let r = accrue_for_task(&t, "Alice".to_string(), None, None, 42, july());
    assert!(matches!(r, Err(CommonError::InvalidTransition(_))));
}

#[test]
fn inactive_student_is_settled_on_a_fresh_entry() {
    let mut earlier = entry("alice", 2025, 5, 30, 20);
    earlier.consumption_score = 40;
    earlier.exchanged = 2000;
    let st = student(Some(CalendarDate::new(2025, 7, 1)));
    let s = settle_inactive(&earlier, Some(&st), july());
    assert_eq!((s.year, s.month), (2025, 7));
    assert_eq!((s.carryover_score, s.new_score), (10, 0));
    assert_eq!((s.consumption_score, s.exchanged), (10, 500));
    let s = settle_inactive(&earlier, None, july());
    assert_eq!((s.consumption_score, s.exchanged, s.score_balance()), (0, 0, 10));
}
