//! Projects as the user interface sees them.

use vstd::prelude::*;

verus! {

/// Where a project stands.
#[derive(Debug, Clone, Copy, PartialEq, Eq, Structural)]
pub enum ProjectStatus {
    Planning,
    Active,
    Completed,
    OnHold,
    Cancelled,
}

/// A project with its dates, status and progress.
#[derive(Debug)]
pub struct Project {
    pub id: String,
    pub goal_id: String,
    pub name: String,
    pub description: Option<String>,
    pub start_date: Option<i64>,
    pub due_date: Option<i64>,
    pub status: ProjectStatus,
    pub progress: i32,
    pub created_at: i64,
    pub updated_at: i64,
}

/// The request to create a project.
#[derive(Debug)]
pub struct CreateProjectDto {
    pub goal_id: String,
    pub name: String,
    pub description: Option<String>,
    pub start_date: Option<i64>,
    pub due_date: Option<i64>,
    pub status: ProjectStatus,
}

/// The request to change a project; an absent field stays as it is.
#[derive(Debug)]
pub struct UpdateProjectDto {
    pub name: Option<String>,
    pub description: Option<String>,
    pub goal_id: Option<String>,
    pub start_date: Option<i64>,
    pub due_date: Option<i64>,
    pub status: Option<ProjectStatus>,
    pub progress: Option<i32>,
}

impl ProjectStatus {
    /// The name under which a status is stored and exchanged.
    pub open spec fn text(self) -> Seq<char> {
        match self {
            ProjectStatus::Planning => "planning"@,
            ProjectStatus::Active => "active"@,
            ProjectStatus::Completed => "completed"@,
            ProjectStatus::OnHold => "on_hold"@,
            ProjectStatus::Cancelled => "cancelled"@,
        }
    }

    /// The name under which the value is stored and exchanged.
    pub fn as_str(&self) -> (s: &'static str)
        ensures
            s@ == self.text(),
    {
        match self {
            ProjectStatus::Planning => "planning",
            ProjectStatus::Active => "active",
            ProjectStatus::Completed => "completed",
            ProjectStatus::OnHold => "on_hold",
            ProjectStatus::Cancelled => "cancelled",
        }
    }
}

impl Default for UpdateProjectDto {
    fn default() -> (dto: Self)
        ensures
            dto.name is None,
            dto.description is None,
            dto.goal_id is None,
            dto.start_date is None,
            dto.due_date is None,
            dto.status is None,
            dto.progress is None,
    {
        UpdateProjectDto {
            name: None,
            description: None,
            goal_id: None,
            start_date: None,
            due_date: None,
            status: None,
            progress: None,
        }
    }
}

} // verus!
