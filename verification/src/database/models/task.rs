//! Tasks as the user interface sees them.

use vstd::prelude::*;

verus! {

/// How pressing a task is.
#[derive(Debug, Clone, Copy, PartialEq, Eq, Structural)]
pub enum TaskPriority {
    Low,
    Medium,
    High,
    Critical,
}

/// Where a task stands.
#[derive(Debug, Clone, Copy, PartialEq, Eq, Structural)]
pub enum TaskStatus {
    Todo,
    InProgress,
    Completed,
    Cancelled,
}

/// A task with its dates, status and estimates.
#[derive(Debug)]
pub struct Task {
    pub id: String,
    pub project_id: String,
    pub name: String,
    pub description: Option<String>,
    pub due_date: Option<i64>,
    pub completed_at: Option<i64>,
    pub priority: TaskPriority,
    pub status: TaskStatus,
    pub estimated_minutes: Option<i32>,
    pub actual_minutes: Option<i32>,
    pub recurrence_rule: Option<String>,
    pub created_at: i64,
    pub updated_at: i64,
}

/// The request to create a task.
#[derive(Debug)]
pub struct CreateTaskDto {
    pub project_id: String,
    pub name: String,
    pub description: Option<String>,
    pub due_date: Option<i64>,
    pub priority: TaskPriority,
    pub estimated_minutes: Option<i32>,
    pub recurrence_rule: Option<String>,
}

/// The request to change a task; an absent field stays as it is.
#[derive(Debug)]
pub struct UpdateTaskDto {
    pub name: Option<String>,
    pub description: Option<String>,
    pub due_date: Option<i64>,
    pub priority: Option<TaskPriority>,
    pub status: Option<TaskStatus>,
    pub estimated_minutes: Option<i32>,
    pub actual_minutes: Option<i32>,
    pub recurrence_rule: Option<String>,
}

impl TaskPriority {
    /// The name under which a priority is stored and exchanged.
    pub open spec fn text(self) -> Seq<char> {
        match self {
            TaskPriority::Low => "low"@,
            TaskPriority::Medium => "medium"@,
            TaskPriority::High => "high"@,
            TaskPriority::Critical => "critical"@,
        }
    }

    /// The name under which the value is stored and exchanged.
    pub fn as_str(&self) -> (s: &'static str)
        ensures
            s@ == self.text(),
    {
        match self {
            TaskPriority::Low => "low",
            TaskPriority::Medium => "medium",
            TaskPriority::High => "high",
            TaskPriority::Critical => "critical",
        }
    }
}

impl TaskStatus {
    /// The name under which a status is stored and exchanged.
    pub open spec fn text(self) -> Seq<char> {
        match self {
            TaskStatus::Todo => "todo"@,
            TaskStatus::InProgress => "in_progress"@,
            TaskStatus::Completed => "completed"@,
            TaskStatus::Cancelled => "cancelled"@,
        }
    }

    /// The name under which the value is stored and exchanged.
    pub fn as_str(&self) -> (s: &'static str)
        ensures
            s@ == self.text(),
    {
        match self {
            TaskStatus::Todo => "todo",
            TaskStatus::InProgress => "in_progress",
            TaskStatus::Completed => "completed",
            TaskStatus::Cancelled => "cancelled",
        }
    }
}

impl Default for UpdateTaskDto {
    fn default() -> (dto: Self)
        ensures
            dto.name is None,
            dto.description is None,
            dto.due_date is None,
            dto.priority is None,
            dto.status is None,
            dto.estimated_minutes is None,
            dto.actual_minutes is None,
            dto.recurrence_rule is None,
    {
        UpdateTaskDto {
            name: None,
            description: None,
            due_date: None,
            priority: None,
            status: None,
            estimated_minutes: None,
            actual_minutes: None,
            recurrence_rule: None,
        }
    }
}

} // verus!
