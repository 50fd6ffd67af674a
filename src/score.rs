//! The monthly score ledger: accrual of completed tasks, settlement of a
//! month under a payout policy, and carryover of what is left to the next
//! month.
//!
//! The functions here decide what to write; the caller reads the entries
//! from its store, hands them over, and performs the write that comes back.
use vstd::prelude::*;
use crate::date::CalendarDate;
use crate::model::CommonError;
use crate::policy::{payout, payout_of, PayoutPolicy, ScoreStrategy};
use crate::student::Student;
use crate::task::{Task, TaskStatus};

verus! {

/// One student's point record for one calendar month.
#[derive(Clone, Debug, PartialEq, Eq)]
pub struct ScoreDto {
    pub id: i32,
    pub github_login: String,
    pub student_name: String,
    pub github_id: i64,
    pub year: i32,
    pub month: i32,
    pub carryover_score: i32,
    pub new_score: i32,
    pub consumption_score: i32,
    pub exchanged: i32,
}

/// The first points a student earns in a month, with what carries over.
#[derive(Clone, Debug, PartialEq, Eq)]
pub struct NewScore {
    pub score: i32,
    pub carryover_score: i32,
    pub github_id: i64,
    pub github_login: String,
    pub student_name: String,
}

impl NewScore {
    /// The ledger entry for the month of `today` that this starts: nothing
    /// consumed or paid yet.
    pub fn into_entry(self, today: CalendarDate) -> (r: ScoreDto)
        ensures
            r == (ScoreDto {
                id: 0,
                github_login: self.github_login,
                student_name: self.student_name,
                github_id: self.github_id,
                year: today.year,
                month: today.month as i32,
                carryover_score: self.carryover_score,
                new_score: self.score,
                consumption_score: 0,
                exchanged: 0,
            }),
    {
        ScoreDto {
            id: 0,
            github_login: self.github_login,
            student_name: self.student_name,
            github_id: self.github_id,
            year: today.year,
            month: today.month as i32,
            carryover_score: self.carryover_score,
            new_score: self.score,
            consumption_score: 0,
            exchanged: 0,
        }
    }
}

/// A write the caller performs on its ledger store.
#[derive(Clone, Debug, PartialEq, Eq)]
pub enum LedgerWrite {
    /// Add this entry; no entry exists yet for its student and month.
    Insert(ScoreDto),
    /// Replace the stored entry of the same student and month by this one.
    Update(ScoreDto),
}

impl LedgerWrite {
    pub open spec fn spec_entry(self) -> ScoreDto {
        match self {
            LedgerWrite::Insert(e) => e,
            LedgerWrite::Update(e) => e,
        }
    }

    /// The entry that the write stores.
    pub fn entry(&self) -> (r: &ScoreDto)
        ensures
            *r == self.spec_entry(),
    {
        match self {
            LedgerWrite::Insert(e) => e,
            LedgerWrite::Update(e) => e,
        }
    }
}

impl ScoreDto {
    /// Points held before settlement: carried over plus newly earned.
    pub open spec fn total(self) -> int {
        self.carryover_score + self.new_score
    }

    /// Points left after settlement.
    pub open spec fn balance(self) -> int {
        self.carryover_score + self.new_score - self.consumption_score
    }

    /// Carryover plus new score fits an `i32`.
    pub open spec fn total_fits(self) -> bool {
        i32::MIN <= self.total() <= i32::MAX
    }

    /// The total, and the balance left after the consumption, fit an `i32`.
    pub open spec fn balance_fits(self) -> bool {
        self.total_fits() && i32::MIN <= self.balance() <= i32::MAX
    }

    /// The entry's invariant: a calendar month, non-negative scores whose
    /// total fits an `i32`, a consumption bounded by the total, and a payout
    /// that matches the consumption (so it is zero until settlement).
    pub open spec fn wf(self) -> bool {
        &&& 1 <= self.month <= 12
        &&& self.carryover_score >= 0
        &&& self.new_score >= 0
        &&& self.total() <= i32::MAX
        &&& 0 <= self.consumption_score <= self.total()
        &&& self.exchanged == payout_of(self.consumption_score as int)
    }

    /// The entry belongs to `login` and to the month of `day`.
    pub open spec fn is_for(self, login: String, day: CalendarDate) -> bool {
        self.github_login@ == login@ && self.year == day.year && self.month == day.month as int
    }

    /// The entry once settled: the policy's consumption of the total and
    /// its payout.
    pub open spec fn settled_under(self, policy: PayoutPolicy) -> ScoreDto {
        let consumed = policy.consumption_of(self.total());
        ScoreDto {
            consumption_score: consumed as i32,
            exchanged: payout_of(consumed) as i32,
            ..self
        }
    }

    /// Whether the entry satisfies its invariant.
    pub fn is_well_formed(&self) -> (r: bool)
        ensures
            r == self.wf(),
    {
        1 <= self.month && self.month <= 12 && self.carryover_score >= 0 && self.new_score >= 0
            && self.carryover_score <= i32::MAX - self.new_score && 0 <= self.consumption_score
            && self.consumption_score <= self.carryover_score + self.new_score
            && -42_949_672 <= self.consumption_score && self.consumption_score <= 42_949_672
            && self.exchanged == payout(self.consumption_score)
    }

    /// Whether the total and the balance fit an `i32`.
    pub fn balance_in_range(&self) -> (r: bool)
        ensures
            r == self.balance_fits(),
    {
        let total = self.carryover_score as i64 + self.new_score as i64;
        let balance = total - self.consumption_score as i64;
        i32::MIN as i64 <= total && total <= i32::MAX as i64 && i32::MIN as i64 <= balance
            && balance <= i32::MAX as i64
    }

    /// Whether the entry belongs to `login` and to the month of `day`.
    pub fn belongs_to(&self, login: &String, day: &CalendarDate) -> (r: bool)
        ensures
            r == self.is_for(*login, *day),
    {
        self.github_login == *login && self.year == day.year && self.month as i64 == day.month
            as i64
    }

    /// A copy of the entry, field by field.
    pub fn duplicate(&self) -> (r: ScoreDto)
        ensures
            r == *self,
    {
        ScoreDto {
            id: self.id,
            github_login: self.github_login.clone(),
            student_name: self.student_name.clone(),
            github_id: self.github_id,
            year: self.year,
            month: self.month,
            carryover_score: self.carryover_score,
            new_score: self.new_score,
            consumption_score: self.consumption_score,
            exchanged: self.exchanged,
        }
    }

    /// Carryover plus new score, minus what settlement consumed.
    pub fn score_balance(&self) -> (r: i32)
        requires
            self.balance_fits(),
        ensures
            r == self.balance(),
            self.wf() ==> r >= 0,
    {
        self.carryover_score + self.new_score - self.consumption_score
    }

    /// Carryover plus new score.
    pub fn score_total(&self) -> (r: i32)
        requires
            self.total_fits(),
        ensures
            r == self.total(),
    {
        self.carryover_score + self.new_score
    }
}

/// What the first accrual of a month carries over: the latest entry's
/// balance, or nothing when the student has no entry yet.
pub open spec fn carried(latest: Option<ScoreDto>) -> int {
    match latest {
        Some(l) => l.balance(),
        None => 0,
    }
}

/// The fresh entry that the first accrual of a month creates.
pub open spec fn first_entry(
    latest: Option<ScoreDto>,
    login: String,
    student_name: String,
    github_id: i64,
    today: CalendarDate,
    points: int,
) -> ScoreDto {
    ScoreDto {
        id: 0,
        github_login: login,
        student_name,
        github_id,
        year: today.year,
        month: today.month as i32,
        carryover_score: carried(latest) as i32,
        new_score: points as i32,
        consumption_score: 0,
        exchanged: 0,
    }
}

/// Credits `points` of a completed task to `login`'s entry for the month of
/// `today`. `current` is that entry if the store holds one; `latest` is the
/// student's most recent entry of any month, whose balance a new entry
/// carries over. Negative points and a total beyond `i32` are invalid input;
/// a latest entry with a negative balance is a conflict.
pub fn accrue(
    current: Option<ScoreDto>,
    latest: Option<ScoreDto>,
    login: String,
    student_name: String,
    github_id: i64,
    today: CalendarDate,
    points: i32,
) -> (r: Result<LedgerWrite, CommonError>)
    requires
        today.wf(),
        current matches Some(c) ==> c.wf() && c.is_for(login, today),
        latest matches Some(l) ==> l.balance_fits(),
    ensures
        r is Err <==> points < 0 || match current {
            Some(c) => c.total() + points > i32::MAX,
            None => carried(latest) < 0 || carried(latest) + points > i32::MAX,
        },
        r matches Err(e) ==> (if points >= 0 && current is None && carried(latest) < 0 {
            e is Conflict
        } else {
            e is InvalidInput
        }),
        r matches Ok(w) ==> w.spec_entry().wf() && w.spec_entry().is_for(login, today),
        current matches Some(c) ==> (r matches Ok(w) ==> w == LedgerWrite::Update(
            ScoreDto { new_score: (c.new_score + points) as i32, ..c },
        )),
        current is None ==> (r matches Ok(w) ==> w == LedgerWrite::Insert(
            first_entry(latest, login, student_name, github_id, today, points as int),
        )),
{
    if points < 0 {
        return Err(CommonError::invalid_input("task points must not be negative"));
    }
    match current {
        Some(c) => {
            if c.carryover_score + c.new_score > i32::MAX - points {
                return Err(CommonError::invalid_input("score total out of range"));
            }
            let new_score = c.new_score + points;
            Ok(LedgerWrite::Update(ScoreDto { new_score, ..c }))
        },
        None => {
            let carryover_score = match &latest {
                Some(l) => l.score_balance(),
                None => 0,
            };
            if carryover_score < 0 {
                return Err(CommonError::conflict("the latest entry has a negative balance"));
            }
            if carryover_score > i32::MAX - points {
                return Err(CommonError::invalid_input("score total out of range"));
            }
            let first = NewScore {
                score: points,
                carryover_score,
                github_id,
                github_login: login,
                student_name,
            };
            Ok(LedgerWrite::Insert(first.into_entry(today)))
        },
    }
}

/// Credits a finished task's points to its student for the month of
/// `today`. A new entry takes `student_name`; `current` and `latest` are as
/// for [`accrue`]. A task that is not finished is refused.
pub fn accrue_for_task(
    task: &Task,
    student_name: String,
    current: Option<ScoreDto>,
    latest: Option<ScoreDto>,
    github_id: i64,
    today: CalendarDate,
) -> (r: Result<LedgerWrite, CommonError>)
    requires
        task.wf(),
        today.wf(),
        task.task_status == TaskStatus::Finished ==> (current matches Some(c) ==> c.wf()
            && c.is_for(task.student_github_login->Some_0, today)),
        latest matches Some(l) ==> l.balance_fits(),
    ensures
        task.task_status != TaskStatus::Finished ==> (r matches Err(e) && e is InvalidTransition),
        task.task_status == TaskStatus::Finished ==> {
            let login = task.student_github_login->Some_0;
            let name = student_name;
            &&& r is Err <==> match current {
                Some(c) => c.total() + task.score > i32::MAX,
                None => carried(latest) < 0 || carried(latest) + task.score > i32::MAX,
            }
            &&& r matches Err(e) ==> (if current is None && carried(latest) < 0 {
                e is Conflict
            } else {
                e is InvalidInput
            })
            &&& r matches Ok(w) ==> w.spec_entry().wf() && w.spec_entry().is_for(login, today)
            &&& current matches Some(c) ==> (r matches Ok(w) ==> w == LedgerWrite::Update(
                ScoreDto { new_score: (c.new_score + task.score) as i32, ..c },
            ))
            &&& current is None ==> (r matches Ok(w) ==> w == LedgerWrite::Insert(
                first_entry(latest, login, name, github_id, today, task.score as int),
            ))
        },
{
    if task.task_status != TaskStatus::Finished {
        return Err(CommonError::invalid_transition("the task is not finished"));
    }
    let login = match &task.student_github_login {
        Some(l) => l.clone(),
        None => String::new(),
    };
    accrue(current, latest, login, student_name, github_id, today, task.score)
}

/// The payout policy for a student at settlement: the deadline policy when
/// the contract ends on or before `month`, the standard policy otherwise.
pub fn load_score_strategy(student: &Student, month: CalendarDate) -> (r: PayoutPolicy)
    ensures
        r == (if student.contract_end_date matches Some(end) && end.on_or_before(month) {
            PayoutPolicy::Deadline
        } else {
            PayoutPolicy::Standard
        }),
{
    match &student.contract_end_date {
        Some(end) => {
            if end.is_on_or_before(&month) {
                PayoutPolicy::Deadline
            } else {
                PayoutPolicy::Standard
            }
        },
        None => PayoutPolicy::Standard,
    }
}

/// The policy for an entry's student; a student the directory does not know
/// falls back to the standard policy.
pub fn select_policy(student: Option<&Student>, month: CalendarDate) -> (r: PayoutPolicy)
    ensures
        r == (match student {
            Some(s) => if s.contract_end_date matches Some(end) && end.on_or_before(month) {
                PayoutPolicy::Deadline
            } else {
                PayoutPolicy::Standard
            },
            None => PayoutPolicy::Standard,
        }),
{
    match student {
        Some(s) => load_score_strategy(s, month),
        None => PayoutPolicy::Standard,
    }
}

/// Settles one entry: consumes the policy's share of carryover plus new
/// score and records its payout. Settling again gives the same entry.
pub fn settle_entry(entry: &ScoreDto, policy: PayoutPolicy) -> (r: ScoreDto)
    requires
        entry.wf(),
    ensures
        r == entry.settled_under(policy),
        r.wf(),
        r.balance() == entry.total() - policy.consumption_of(entry.total()),
        r.balance() >= 0,
{
    let sum = entry.carryover_score + entry.new_score;
    let consumed = policy.consumed_score(sum);
    ScoreDto {
        id: entry.id,
        github_login: entry.github_login.clone(),
        student_name: entry.student_name.clone(),
        github_id: entry.github_id,
        year: entry.year,
        month: entry.month,
        carryover_score: entry.carryover_score,
        new_score: entry.new_score,
        consumption_score: consumed,
        exchanged: payout(consumed),
    }
}

/// Settles one entry under the policy of its student for `month`; a student
/// the directory does not know is settled under the standard policy.
pub fn settle_student(entry: &ScoreDto, student: Option<&Student>, month: CalendarDate) -> (r:
    ScoreDto)
    requires
        entry.wf(),
    ensures
        r == entry.settled_under(
            match student {
                Some(s) => if s.contract_end_date matches Some(end) && end.on_or_before(month) {
                    PayoutPolicy::Deadline
                } else {
                    PayoutPolicy::Standard
                },
                None => PayoutPolicy::Standard,
            },
        ),
        r.wf(),
        r.balance() >= 0,
{
    settle_entry(entry, select_policy(student, month))
}

/// Settles every entry of a month, each under the policy at the same
/// position of `policies`.
pub fn settle_month(entries: &Vec<ScoreDto>, policies: &Vec<PayoutPolicy>) -> (r: Vec<ScoreDto>)
    requires
        entries@.len() == policies@.len(),
        forall|i: int| 0 <= i < entries@.len() ==> #[trigger] entries@[i].wf(),
    ensures
        r@.len() == entries@.len(),
        forall|i: int|
            0 <= i < r@.len() ==> #[trigger] r@[i] == entries@[i].settled_under(policies@[i]),
{
    let mut out: Vec<ScoreDto> = Vec::new();
    let mut i: usize = 0;
    while i < entries.len()
        invariant
            i <= entries@.len(),
            entries@.len() == policies@.len(),
            forall|k: int| 0 <= k < entries@.len() ==> #[trigger] entries@[k].wf(),
            out@.len() == i,
            forall|k: int|
                0 <= k < i ==> #[trigger] out@[k] == entries@[k].settled_under(policies@[k]),
        decreases entries@.len() - i,
    {
        let settled = settle_entry(&entries[i], policies[i]);
        out.push(settled);
        i = i + 1;
    }
    out
}

/// The fresh entry that carries a settled balance into a month with no entry.
pub open spec fn carryover_only_entry(settled: ScoreDto, month: CalendarDate) -> ScoreDto {
    ScoreDto {
        id: 0,
        github_login: settled.github_login,
        student_name: settled.student_name,
        github_id: settled.github_id,
        year: month.year,
        month: month.month as i32,
        carryover_score: settled.balance() as i32,
        new_score: 0,
        consumption_score: 0,
        exchanged: 0,
    }
}

/// Carries a settled entry's balance into the student's entry for the month
/// of `month`: `current` is that entry if the store holds one, and its
/// carryover is replaced; otherwise an entry with only the carryover is
/// created. The write is refused as a conflict only where the entry could not
/// hold it: a total beyond `i32`, or a consumption above the new total.
pub fn carry_over(settled: &ScoreDto, current: Option<ScoreDto>, month: CalendarDate) -> (r:
    Result<LedgerWrite, CommonError>)
    requires
        settled.wf(),
        month.wf(),
        current matches Some(c) ==> c.wf() && c.is_for(settled.github_login, month),
    ensures
        r is Err <==> (current matches Some(c) && (settled.balance() + c.new_score > i32::MAX
            || c.consumption_score > settled.balance() + c.new_score)),
        r matches Err(e) ==> e is Conflict,
        r matches Ok(w) ==> w.spec_entry().wf() && w.spec_entry().is_for(
            settled.github_login,
            month,
        ) && w.spec_entry().carryover_score == settled.balance(),
        current matches Some(c) ==> (r matches Ok(w) ==> w == LedgerWrite::Update(
            ScoreDto { carryover_score: settled.balance() as i32, ..c },
        )),
        current is None ==> r == Ok::<LedgerWrite, CommonError>(
            LedgerWrite::Insert(carryover_only_entry(*settled, month)),
        ),
{
    let balance = settled.score_balance();
    match current {
        Some(c) => {
            if balance > i32::MAX - c.new_score {
                return Err(CommonError::conflict("score total out of range"));
            }
            if c.consumption_score > balance + c.new_score {
                return Err(CommonError::conflict("the month consumed more than it would hold"));
            }
            Ok(LedgerWrite::Update(ScoreDto { carryover_score: balance, ..c }))
        },
        None => {
            Ok(
                LedgerWrite::Insert(
                    ScoreDto {
                        id: 0,
                        github_login: settled.github_login.clone(),
                        student_name: settled.student_name.clone(),
                        github_id: settled.github_id,
                        year: month.year,
                        month: month.month as i32,
                        carryover_score: balance,
                        new_score: 0,
                        consumption_score: 0,
                        exchanged: 0,
                    },
                ),
            )
        },
    }
}

/// Settles a student who has no entry for `month`: a fresh entry for that
/// month carries over the balance of `latest`, the student's most recent
/// earlier entry, earns nothing new, and is settled under the student's
/// policy like any other entry.
pub fn settle_inactive(latest: &ScoreDto, student: Option<&Student>, month: CalendarDate) -> (r:
    ScoreDto)
    requires
        latest.wf(),
        month.wf(),
    ensures
        r == carryover_only_entry(*latest, month).settled_under(
            match student {
                Some(s) => if s.contract_end_date matches Some(end) && end.on_or_before(month) {
                    PayoutPolicy::Deadline
                } else {
                    PayoutPolicy::Standard
                },
                None => PayoutPolicy::Standard,
            },
        ),
        r.wf(),
        r.is_for(latest.github_login, month),
        r.carryover_score == latest.balance(),
        r.new_score == 0,
{
    let fresh = ScoreDto {
        id: 0,
        github_login: latest.github_login.clone(),
        student_name: latest.student_name.clone(),
        github_id: latest.github_id,
        year: month.year,
        month: month.month as i32,
        carryover_score: latest.score_balance(),
        new_score: 0,
        consumption_score: 0,
        exchanged: 0,
    };
    settle_student(&fresh, student, month)
}

/// The month of an entry, counted from year zero.
pub open spec fn entry_month(e: ScoreDto) -> int {
    e.year * 12 + e.month - 1
}

/// Both entries belong to the same student.
pub open spec fn same_student(a: ScoreDto, b: ScoreDto) -> bool {
    a.github_login@ == b.github_login@
}

/// The entry is the one of `month`.
pub open spec fn is_of_month(e: ScoreDto, month: CalendarDate) -> bool {
    e.year == month.year && e.month == month.month as int
}

/// Entry `i` of `s` is what an inactive student is settled from for `month`:
/// it is earlier than `month`, its student has no entry for `month`, and it
/// is that student's latest earlier entry (the first of them, should two
/// share a month).
pub open spec fn is_inactive_source(s: Seq<ScoreDto>, i: int, month: CalendarDate) -> bool {
    &&& 0 <= i < s.len()
    &&& entry_month(s[i]) < month.month_index()
    &&& forall|j: int| 0 <= j < s.len() && same_student(#[trigger] s[j], s[i]) ==> !is_of_month(s[j], month)
    &&& forall|j: int|
        0 <= j < s.len() && same_student(#[trigger] s[j], s[i]) && entry_month(s[j])
            < month.month_index() ==> entry_month(s[j]) < entry_month(s[i]) || (entry_month(s[j])
            == entry_month(s[i]) && j >= i)
}

fn month_number(e: &ScoreDto) -> (r: i64)
    ensures
        r == entry_month(*e),
{
    e.year as i64 * 12 + e.month as i64 - 1
}

/// Whether entry `i` is what an inactive student is settled from for `month`.
pub fn is_inactive_entry(entries: &Vec<ScoreDto>, i: usize, month: CalendarDate) -> (r: bool)
    requires
        i < entries@.len(),
    ensures
        r == is_inactive_source(entries@, i as int, month),
{
    let target = month.year as i64 * 12 + month.month as i64 - 1;
    let mine = month_number(&entries[i]);
    if mine >= target {
        return false;
    }
    let mut j: usize = 0;
    while j < entries.len()
        invariant
            i < entries@.len(),
            j <= entries@.len(),
            target == month.month_index(),
            mine == entry_month(entries@[i as int]),
            mine < target,
            forall|k: int|
                0 <= k < j && same_student(#[trigger] entries@[k], entries@[i as int])
                    ==> !is_of_month(entries@[k], month),
            forall|k: int|
                0 <= k < j && same_student(#[trigger] entries@[k], entries@[i as int])
                    && entry_month(entries@[k]) < target ==> entry_month(entries@[k]) < mine || (
                entry_month(entries@[k]) == mine && k >= i),
        decreases entries@.len() - j,
    {
        let other = &entries[j];
        if other.github_login == entries[i].github_login {
            if other.year == month.year && other.month as i64 == month.month as i64 {
                return false;
            }
            let theirs = month_number(other);
            if theirs < target && (theirs > mine || (theirs == mine && j < i)) {
                return false;
            }
        }
        j = j + 1;
    }
    true
}

/// The positions of the entries that inactive students are settled from for
/// `month`, in increasing order: every student who has entries before
/// `month` but none for it contributes their latest earlier entry.
pub fn inactive_entries(entries: &Vec<ScoreDto>, month: CalendarDate) -> (r: Vec<usize>)
    ensures
        forall|t: int|
            0 <= t < r@.len() ==> #[trigger] r@[t] < entries@.len() && is_inactive_source(
                entries@,
                r@[t] as int,
                month,
            ),
        forall|i: int| is_inactive_source(entries@, i, month) ==> r@.contains(i as usize),
        forall|t1: int, t2: int| 0 <= t1 < t2 < r@.len() ==> r@[t1] < r@[t2],
{
    let mut out: Vec<usize> = Vec::new();
    let mut i: usize = 0;
    while i < entries.len()
        invariant
            i <= entries@.len(),
            forall|t: int|
                0 <= t < out@.len() ==> #[trigger] out@[t] < i && is_inactive_source(
                    entries@,
                    out@[t] as int,
                    month,
                ),
            forall|k: int| 0 <= k < i && is_inactive_source(entries@, k, month) ==> out@.contains(
                k as usize,
            ),
            forall|t1: int, t2: int| 0 <= t1 < t2 < out@.len() ==> out@[t1] < out@[t2],
        decreases entries@.len() - i,
    {
        let ghost prev = out@;
        if is_inactive_entry(entries, i, month) {
            out.push(i);
            assert(out@[out@.len() - 1] == i);
        }
        proof {
            assert forall|k: int|
                0 <= k < i + 1 && is_inactive_source(entries@, k, month) implies out@.contains(
                k as usize,
            ) by {
                if k < i {
                    let t = choose|t: int| 0 <= t < prev.len() && prev[t] == k as usize;
                    assert(out@[t] == prev[t]);
                } else {
                    assert(out@[out@.len() - 1] == k as usize);
                }
            }
        }
        i = i + 1;
    }
    out
}

/// Inactive settlement takes at most one entry per student.
pub proof fn lemma_inactive_one_per_student(
    s: Seq<ScoreDto>,
    i1: int,
    i2: int,
    month: CalendarDate,
)
    requires
        is_inactive_source(s, i1, month),
        is_inactive_source(s, i2, month),
        i1 != i2,
    ensures
        !same_student(s[i1], s[i2]),
{
    if same_student(s[i1], s[i2]) {
        assert(same_student(s[i2], s[i1]));
        assert(same_student(s[i1], s[i1]));
    }
}

/// Every student with an entry before `month` and none for `month` has an
/// entry that inactive settlement takes.
pub proof fn lemma_inactive_source_exists(s: Seq<ScoreDto>, c: int, month: CalendarDate)
    requires
        0 <= c < s.len(),
        entry_month(s[c]) < month.month_index(),
        forall|j: int| 0 <= j < s.len() && same_student(#[trigger] s[j], s[c]) ==> !is_of_month(s[j], month),
    ensures
        exists|k: int| is_inactive_source(s, k, month) && same_student(#[trigger] s[k], s[c]),
    decreases (month.month_index() - entry_month(s[c])) * s.len() + c,
{
    if is_inactive_source(s, c, month) {
        assert(same_student(s[c], s[c]));
    } else {
        let j = choose|j: int|
            0 <= j < s.len() && same_student(#[trigger] s[j], s[c]) && entry_month(s[j])
                < month.month_index() && !(entry_month(s[j]) < entry_month(s[c]) || (entry_month(
                s[j]) == entry_month(s[c]) && j >= c));
        let n = s.len() as int;
        let dc = month.month_index() - entry_month(s[c]);
        let dj = month.month_index() - entry_month(s[j]);
        assert(dj * n + j < dc * n + c) by (nonlinear_arith)
            requires
                0 < dj <= dc,
                dj < dc || j < c,
                0 <= j < n,
                0 <= c < n,
        ;
        assert(0 <= dj * n + j) by (nonlinear_arith)
            requires
                0 < dj,
                0 <= j < n,
        ;
        assert forall|k: int| 0 <= k < s.len() && same_student(#[trigger] s[k], s[j]) implies !is_of_month(
            s[k],
            month,
        ) by {
            assert(same_student(s[k], s[c]));
        }
        lemma_inactive_source_exists(s, j, month);
        let k = choose|k: int| is_inactive_source(s, k, month) && same_student(#[trigger] s[k], s[j]);
        assert(same_student(s[k], s[c]));
    }
}

/// A settled entry is reported to its student when points were earned in
/// the month.
pub fn settlement_notice_due(settled: &ScoreDto) -> (r: bool)
    ensures
        r == (settled.new_score != 0),
{
    settled.new_score != 0
}

/// After settlement the balance is carryover plus new score minus the
/// consumption, and it is never negative.
pub proof fn lemma_settled_balance(entry: ScoreDto, policy: PayoutPolicy)
    requires
        entry.wf(),
    ensures
        ({
            let s = entry.settled_under(policy);
            &&& s.wf()
            &&& s.balance() == s.carryover_score + s.new_score - s.consumption_score
            &&& s.consumption_score <= s.carryover_score + s.new_score
            &&& s.balance() >= 0
        }),
{
}

/// Settling an entry that is already settled, with nothing accrued in
/// between, changes neither its consumption nor its payout.
pub proof fn lemma_settlement_idempotent(entry: ScoreDto, policy: PayoutPolicy)
    requires
        entry.wf(),
    ensures
        entry.settled_under(policy).settled_under(policy) == entry.settled_under(policy),
{
}

/// A carryover write stores the settled balance, with no consumption yet.
pub proof fn lemma_carryover_entry_balance(settled: ScoreDto, month: CalendarDate)
    requires
        settled.wf(),
        month.wf(),
    ensures
        carryover_only_entry(settled, month).wf(),
        carryover_only_entry(settled, month).balance() == settled.balance(),
{
}

/// The first accrual of a month carries over nothing when the student has no
/// earlier entry, and the latest entry's balance otherwise; the new entry
/// holds the task's points and nothing consumed, and is well formed when the
/// total fits an `i32`.
pub proof fn lemma_first_entry_carryover(
    latest: Option<ScoreDto>,
    login: String,
    student_name: String,
    github_id: i64,
    today: CalendarDate,
    points: int,
)
    requires
        latest matches Some(l) ==> l.balance_fits(),
        today.wf(),
        0 <= points,
        0 <= carried(latest),
        carried(latest) + points <= i32::MAX,
    ensures
        ({
            let e = first_entry(latest, login, student_name, github_id, today, points);
            &&& latest is None ==> e.carryover_score == 0
            &&& latest matches Some(l) ==> e.carryover_score == l.balance()
            &&& e.new_score == points
            &&& e.consumption_score == 0
            &&& e.exchanged == 0
            &&& e.wf()
            &&& e.is_for(login, today)
        }),
{
}

/// Under the standard policy a total below the lowest tier is not consumed,
/// pays nothing, and is all carried into the next month: into a fresh
/// entry, or as the carryover of the next month's existing entry.
pub proof fn lemma_standard_small_total_rolls_over(entry: ScoreDto, next: CalendarDate)
    requires
        entry.wf(),
        next.wf(),
        entry.total() < 40,
    ensures
        ({
            let s = entry.settled_under(PayoutPolicy::Standard);
            &&& s.consumption_score == 0
            &&& s.exchanged == 0
            &&& s.balance() == entry.total()
            &&& carryover_only_entry(s, next).carryover_score == entry.total()
        }),
{
}

/// Under the deadline policy a total of at most 100 is consumed whole, pays
/// the rate for every point, and leaves nothing to carry into the next month.
pub proof fn lemma_deadline_pays_out_small_total(entry: ScoreDto, next: CalendarDate)
    requires
        entry.wf(),
        next.wf(),
        entry.total() <= 100,
    ensures
        ({
            let s = entry.settled_under(PayoutPolicy::Deadline);
            &&& s.consumption_score == entry.total()
            &&& s.exchanged == payout_of(entry.total())
            &&& s.balance() == 0
            &&& carryover_only_entry(s, next).carryover_score == 0
        }),
{
}

/// From a student's first points to the next month: points earned with no
/// earlier entry start an entry that carries nothing over; when fewer than the
/// lowest tier, the standard policy consumes none of them and they are all
/// carried over; when at most 100, the deadline policy consumes and pays all
/// of them and nothing is carried over.
pub proof fn lemma_first_points_through_settlement(
    login: String,
    student_name: String,
    github_id: i64,
    today: CalendarDate,
    next: CalendarDate,
    points: int,
)
    requires
        today.wf(),
        next.wf(),
        0 <= points <= 100,
    ensures
        ({
            let e = first_entry(None, login, student_name, github_id, today, points);
            let standard = e.settled_under(PayoutPolicy::Standard);
            let deadline = e.settled_under(PayoutPolicy::Deadline);
            &&& e.carryover_score == 0 && e.new_score == points && e.consumption_score == 0
            &&& points < 40 ==> standard.consumption_score == 0 && standard.exchanged == 0
                && carryover_only_entry(standard, next).carryover_score == points
            &&& deadline.consumption_score == points
            &&& deadline.exchanged == payout_of(points)
            &&& carryover_only_entry(deadline, next).carryover_score == 0
        }),
{
    lemma_first_entry_carryover(None, login, student_name, github_id, today, points);
    let e = first_entry(None, login, student_name, github_id, today, points);
    if points < 40 {
        lemma_standard_small_total_rolls_over(e, next);
    }
    lemma_deadline_pays_out_small_total(e, next);
}

} // verus!
