//! The task lifecycle state machine.
//!
//! A task moves `Open -> RequestAssign -> Assigned -> RequestFinish -> Finished`.
//! Each command checks the status it starts from and refuses with
//! `InvalidTransition` otherwise. Closing a task that is not finished removes
//! it; a finished task is kept for good.
use vstd::prelude::*;
use crate::date::CalendarDate;
use crate::model::CommonError;

verus! {

/// Status of a task.
#[derive(Clone, Copy, Debug, PartialEq, Eq, Structural)]
pub enum TaskStatus {
    Open,
    Invalid,
    RequestAssign,
    Assigned,
    RequestFinish,
    Finished,
}

impl TaskStatus {
    /// The statuses of a task that is still in progress.
    pub fn processing_task_status() -> (r: Vec<TaskStatus>)
        ensures
            r@ == seq![
                TaskStatus::Open,
                TaskStatus::RequestAssign,
                TaskStatus::Assigned,
                TaskStatus::RequestFinish,
            ],
    {
        vec![
            TaskStatus::Open,
            TaskStatus::RequestAssign,
            TaskStatus::Assigned,
            TaskStatus::RequestFinish,
        ]
    }

    /// The statuses of a completed task.
    pub fn finish_task_status() -> (r: Vec<TaskStatus>)
        ensures
            r@ == seq![TaskStatus::Finished],
    {
        vec![TaskStatus::Finished]
    }

    /// A student is attached to the task in this status.
    pub open spec fn holds_student(self) -> bool {
        self == TaskStatus::RequestAssign || self == TaskStatus::Assigned || self
            == TaskStatus::RequestFinish || self == TaskStatus::Finished
    }
}

/// What a mentor submits to open a task for an issue.
#[derive(Clone, Debug, PartialEq, Eq)]
pub struct NewTask {
    pub owner: String,
    pub repo: String,
    pub github_issue_number: i32,
    pub github_repo_id: i64,
    pub github_issue_id: i64,
    pub score: i32,
    pub mentor_github_login: String,
}

/// A lifecycle command on the task of an issue.
#[derive(Clone, Debug, PartialEq, Eq)]
pub struct CommandRequest {
    pub github_issue_id: i64,
    pub login: String,
    pub github_id: i64,
}

/// Asks for the tasks in progress of a repository.
#[derive(Clone, Debug, PartialEq, Eq)]
pub struct SearchTask {
    pub github_repo_id: i64,
}

/// A task tied to one external issue.
#[derive(Clone, Debug, PartialEq, Eq)]
pub struct Task {
    pub id: i32,
    pub owner: String,
    pub repo: String,
    pub github_issue_number: i32,
    pub github_repo_id: i64,
    pub github_issue_id: i64,
    pub score: i32,
    pub task_status: TaskStatus,
    pub finish_year: Option<i32>,
    pub finish_month: Option<i32>,
    pub student_github_login: Option<String>,
    pub mentor_github_login: String,
    pub github_issue_title: String,
    pub github_issue_link: String,
}

/// Outcome of closing a task.
#[derive(Clone, Debug, PartialEq, Eq)]
pub enum CloseOutcome {
    /// The record is to be removed.
    Deleted,
    /// The task is finished and stays as it was.
    Retained(Task),
}

impl Task {
    /// The task's invariant: a non-negative point value; a finish month
    /// exactly when finished; a student exactly while one is attached.
    pub open spec fn wf(self) -> bool {
        &&& self.score >= 0
        &&& (self.task_status == TaskStatus::Finished) == (self.finish_year is Some)
        &&& (self.task_status == TaskStatus::Finished) == (self.finish_month is Some)
        &&& self.finish_month matches Some(m) ==> 1 <= m <= 12
        &&& self.task_status.holds_student() ==> self.student_github_login is Some
        &&& self.task_status == TaskStatus::Open ==> self.student_github_login is None
    }

    /// Whether the task satisfies its invariant.
    pub fn is_well_formed(&self) -> (r: bool)
        ensures
            r == self.wf(),
    {
        let holds_student = match self.task_status {
            TaskStatus::RequestAssign | TaskStatus::Assigned | TaskStatus::RequestFinish
            | TaskStatus::Finished => true,
            _ => false,
        };
        let finished = self.task_status == TaskStatus::Finished;
        let month_ok = match self.finish_month {
            Some(m) => 1 <= m && m <= 12,
            None => true,
        };
        self.score >= 0 && finished == self.finish_year.is_some() && finished
            == self.finish_month.is_some() && month_ok && (!holds_student
            || self.student_github_login.is_some()) && (self.task_status != TaskStatus::Open
            || self.student_github_login.is_none())
    }

    /// The task with another status.
    pub open spec fn with_status(self, s: TaskStatus) -> Task {
        Task { task_status: s, ..self }
    }

    /// The task after a student asked for it.
    pub open spec fn assigned_to(self, login: String) -> Task {
        Task { task_status: TaskStatus::RequestAssign, student_github_login: Some(login), ..self }
    }

    /// The task after it was given back.
    pub open spec fn released(self) -> Task {
        Task { task_status: TaskStatus::Open, student_github_login: None, ..self }
    }

    /// The task after the mentor accepted the work in the month of `day`.
    pub open spec fn finished_on(self, day: CalendarDate) -> Task {
        Task {
            task_status: TaskStatus::Finished,
            finish_year: Some(day.year),
            finish_month: Some(day.month as i32),
            ..self
        }
    }

    /// A new open task for the issue in `req`, with no student attached.
    /// A negative point value is refused.
    pub fn open(req: NewTask) -> (r: Result<Task, CommonError>)
        ensures
            req.score < 0 <==> r is Err,
            r matches Err(e) ==> e is InvalidInput,
            r matches Ok(t) ==> {
                &&& t.wf()
                &&& t.task_status == TaskStatus::Open
                &&& t.owner == req.owner && t.repo == req.repo
                &&& t.github_issue_number == req.github_issue_number
                &&& t.github_repo_id == req.github_repo_id
                &&& t.github_issue_id == req.github_issue_id
                &&& t.score == req.score
                &&& t.mentor_github_login == req.mentor_github_login
                &&& t.finish_year is None && t.finish_month is None
                &&& t.student_github_login is None
            },
    {
        if req.score < 0 {
            return Err(CommonError::invalid_input("task score must not be negative"));
        }
        Ok(Task {
            id: 0,
            owner: req.owner,
            repo: req.repo,
            github_issue_number: req.github_issue_number,
            github_repo_id: req.github_repo_id,
            github_issue_id: req.github_issue_id,
            score: req.score,
            task_status: TaskStatus::Open,
            finish_year: None,
            finish_month: None,
            student_github_login: None,
            mentor_github_login: req.mentor_github_login,
            github_issue_title: String::new(),
            github_issue_link: String::new(),
        })
    }

    /// Changes the point value of a task that is not finished yet.
    pub fn update_score(&mut self, score: i32) -> (r: Result<(), CommonError>)
        requires
            old(self).wf(),
        ensures
            final(self).wf(),
            r is Ok <==> (old(self).task_status != TaskStatus::Finished && score >= 0),
            r is Ok ==> *final(self) == (Task { score, ..*old(self) }),
            r is Err ==> *final(self) == *old(self),
            r matches Err(e) ==> (if old(self).task_status == TaskStatus::Finished {
                e is InvalidTransition
            } else {
                e is InvalidInput
            }),
    {
        if self.task_status == TaskStatus::Finished {
            return Err(CommonError::invalid_transition("a finished task keeps its score"));
        }
        if score < 0 {
            return Err(CommonError::invalid_input("task score must not be negative"));
        }
        self.score = score;
        Ok(())
    }

    /// A student asks for an open task.
    pub fn request_assign(&mut self, student_login: String) -> (r: Result<(), CommonError>)
        requires
            old(self).wf(),
        ensures
            final(self).wf(),
            r is Ok <==> old(self).task_status == TaskStatus::Open,
            r is Ok ==> *final(self) == old(self).assigned_to(student_login),
            r is Err ==> *final(self) == *old(self),
            r matches Err(e) ==> e is InvalidTransition,
    {
        if self.task_status != TaskStatus::Open {
            return Err(CommonError::invalid_transition("only an open task can be requested"));
        }
        self.task_status = TaskStatus::RequestAssign;
        self.student_github_login = Some(student_login);
        Ok(())
    }

    /// The mentor approves a pending assignment.
    pub fn intern_approve(&mut self) -> (r: Result<(), CommonError>)
        requires
            old(self).wf(),
        ensures
            final(self).wf(),
            r is Ok <==> old(self).task_status == TaskStatus::RequestAssign,
            r is Ok ==> *final(self) == old(self).with_status(TaskStatus::Assigned),
            r is Err ==> *final(self) == *old(self),
            r matches Err(e) ==> e is InvalidTransition,
    {
        if self.task_status != TaskStatus::RequestAssign {
            return Err(CommonError::invalid_transition("no assignment is pending"));
        }
        self.task_status = TaskStatus::Assigned;
        Ok(())
    }

    /// The student is detached and the task is open again. Allowed while a
    /// student is attached and the task is not finished.
    pub fn release(&mut self) -> (r: Result<(), CommonError>)
        requires
            old(self).wf(),
        ensures
            final(self).wf(),
            r is Ok <==> (old(self).task_status == TaskStatus::RequestAssign
                || old(self).task_status == TaskStatus::Assigned || old(self).task_status
                == TaskStatus::RequestFinish),
            r is Ok ==> *final(self) == old(self).released(),
            r is Err ==> *final(self) == *old(self),
            r matches Err(e) ==> e is InvalidTransition,
    {
        match self.task_status {
            TaskStatus::RequestAssign | TaskStatus::Assigned | TaskStatus::RequestFinish => {
                self.task_status = TaskStatus::Open;
                self.student_github_login = None;
                Ok(())
            },
            _ => Err(CommonError::invalid_transition("the task has no student to release")),
        }
    }

    /// The student asks the mentor to accept the work.
    pub fn request_complete(&mut self) -> (r: Result<(), CommonError>)
        requires
            old(self).wf(),
        ensures
            final(self).wf(),
            r is Ok <==> old(self).task_status == TaskStatus::Assigned,
            r is Ok ==> *final(self) == old(self).with_status(TaskStatus::RequestFinish),
            r is Err ==> *final(self) == *old(self),
            r matches Err(e) ==> e is InvalidTransition,
    {
        if self.task_status != TaskStatus::Assigned {
            return Err(CommonError::invalid_transition("the task is not assigned"));
        }
        self.task_status = TaskStatus::RequestFinish;
        Ok(())
    }

    /// The mentor accepts the work: the task is finished in the month of
    /// `today`, which the caller reads from the clock.
    pub fn intern_done(&mut self, today: CalendarDate) -> (r: Result<(), CommonError>)
        requires
            old(self).wf(),
            today.wf(),
        ensures
            final(self).wf(),
            r is Ok <==> old(self).task_status == TaskStatus::RequestFinish,
            r is Ok ==> *final(self) == old(self).finished_on(today),
            r is Err ==> *final(self) == *old(self),
            r matches Err(e) ==> e is InvalidTransition,
    {
        if self.task_status != TaskStatus::RequestFinish {
            return Err(CommonError::invalid_transition("completion was not requested"));
        }
        self.task_status = TaskStatus::Finished;
        self.finish_year = Some(today.year);
        self.finish_month = Some(today.month as i32);
        Ok(())
    }

    /// Closes the task: a task that is not finished is removed, a finished
    /// one is kept unchanged.
    pub fn intern_close(self) -> (r: CloseOutcome)
        ensures
            self.task_status == TaskStatus::Finished ==> r == CloseOutcome::Retained(self),
            self.task_status != TaskStatus::Finished ==> r == CloseOutcome::Deleted,
    {
        if self.task_status == TaskStatus::Finished {
            CloseOutcome::Retained(self)
        } else {
            CloseOutcome::Deleted
        }
    }
}

/// The task a lookup by issue id found, or `NotFound`.
pub fn found_task(found: Option<Task>) -> (r: Result<Task, CommonError>)
    ensures
        found matches Some(t) ==> r == Ok::<Task, CommonError>(t),
        found is None ==> (r matches Err(e) && e is NotFound),
{
    match found {
        Some(t) => Ok(t),
        None => Err(CommonError::not_found("task not found")),
    }
}

/// Along the full lifecycle from an open task, the finish month is unset at
/// every step before the final one and is set, to the month of acceptance, by
/// that step.
pub proof fn lemma_finish_month_set_once(t: Task, login: String, today: CalendarDate)
    requires
        t.wf(),
        t.task_status == TaskStatus::Open,
        today.wf(),
    ensures
        ({
            let t1 = t.assigned_to(login);
            let t2 = t1.with_status(TaskStatus::Assigned);
            let t3 = t2.with_status(TaskStatus::RequestFinish);
            let t4 = t3.finished_on(today);
            &&& t1.wf() && t2.wf() && t3.wf() && t4.wf()
            &&& t1.finish_year is None && t1.finish_month is None
            &&& t2.finish_year is None && t2.finish_month is None
            &&& t3.finish_year is None && t3.finish_month is None
            &&& t4.task_status == TaskStatus::Finished
            &&& t4.finish_year == Some(today.year)
            &&& t4.finish_month == Some(today.month as i32)
        }),
{
}

} // verus!
