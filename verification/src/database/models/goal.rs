//! Goals as the user interface sees them.

use vstd::prelude::*;

verus! {

/// Where a goal stands.
#[derive(Debug, Clone, Copy, PartialEq, Eq, Structural)]
pub enum GoalStatus {
    Active,
    Completed,
    Paused,
    Cancelled,
}

/// A goal with its status and progress.
#[derive(Debug)]
pub struct Goal {
    pub id: String,
    pub life_area_id: String,
    pub name: String,
    pub description: Option<String>,
    pub target_date: Option<i64>,
    pub status: GoalStatus,
    pub progress: i32,
    pub created_at: i64,
    pub updated_at: i64,
}

/// The request to create a goal.
#[derive(Debug)]
pub struct CreateGoalDto {
    pub life_area_id: String,
    pub name: String,
    pub description: Option<String>,
    pub target_date: Option<i64>,
    pub status: GoalStatus,
}

/// The request to change a goal; an absent field stays as it is.
#[derive(Debug)]
pub struct UpdateGoalDto {
    pub name: Option<String>,
    pub description: Option<String>,
    pub life_area_id: Option<String>,
    pub target_date: Option<i64>,
    pub status: Option<GoalStatus>,
    pub progress: Option<i32>,
}

impl GoalStatus {
    /// The name under which a status is stored and exchanged.
    pub open spec fn text(self) -> Seq<char> {
        match self {
            GoalStatus::Active => "active"@,
            GoalStatus::Completed => "completed"@,
            GoalStatus::Paused => "paused"@,
            GoalStatus::Cancelled => "cancelled"@,
        }
    }

    /// The name under which the value is stored and exchanged.
    pub fn as_str(&self) -> (s: &'static str)
        ensures
            s@ == self.text(),
    {
        match self {
            GoalStatus::Active => "active",
            GoalStatus::Completed => "completed",
            GoalStatus::Paused => "paused",
            GoalStatus::Cancelled => "cancelled",
        }
    }
}

impl Default for UpdateGoalDto {
    fn default() -> (dto: Self)
        ensures
            dto.name is None,
            dto.description is None,
            dto.life_area_id is None,
            dto.target_date is None,
            dto.status is None,
            dto.progress is None,
    {
        UpdateGoalDto {
            name: None,
            description: None,
            life_area_id: None,
            target_date: None,
            status: None,
            progress: None,
        }
    }
}

} // verus!
