//! The checks on requests about projects.

use vstd::prelude::*;
use crate::clock::{now_micros, MICROS_PER_DAY};
use crate::database::models::project::{CreateProjectDto, ProjectStatus, UpdateProjectDto};
use crate::text::opt_view;
use crate::validation::goal::{optional_progress_fault, validate_optional_progress};
use crate::validation::life_area::{
    nothing_to_update, optional_name_fault, validate_optional_name, validate_something_to_update,
};
use crate::validation::{
    description_fault, field_fault, first_fault, name_fault, reports, uuid_fault,
    validate_description, validate_name, validate_status, validate_uuid, Fault, ValidateDto,
    ValidationError, MAX_DESCRIPTION_LENGTH,
};

verus! {

/// How far back a project may start: 365 days, in microseconds.
pub open spec fn one_year() -> int {
    365 * MICROS_PER_DAY
}

/// How far ahead a project may be due: five times 365 days, in microseconds.
pub open spec fn five_years() -> int {
    5 * 365 * MICROS_PER_DAY
}

/// The fault of the dates of a project at the time `now`: the start must not
/// lie after the due date nor more than a year back, and the due date not
/// more than five years ahead.
pub open spec fn project_dates_fault(start_date: Option<i64>, due_date: Option<i64>, now: i64) -> Option<
    Fault,
> {
    if start_date matches Some(start) && due_date matches Some(due) && start > due {
        field_fault("date_range"@, "start date must be before or equal to due date"@)
    } else if start_date matches Some(start) && start < now - one_year() {
        field_fault("start_date"@, "cannot be more than 1 year in the past"@)
    } else if due_date matches Some(due) && due > now + five_years() {
        field_fault("due_date"@, "cannot be more than 5 years in the future"@)
    } else {
        None
    }
}

/// Checks the dates of a project against the time `now`.
pub fn validate_project_dates(start_date: Option<i64>, due_date: Option<i64>, now: i64) -> (r: Result<
    (),
    ValidationError,
>)
    ensures
        reports(r, project_dates_fault(start_date, due_date, now)),
{
    match (start_date, due_date) {
        (Some(start), Some(due)) => {
            if start > due {
                return Err(
                    ValidationError::field(
                        "date_range",
                        "start date must be before or equal to due date",
                    ),
                );
            }
        },
        _ => {},
    }
    match start_date {
        Some(start) => {
            let one_year_ago: i128 = now as i128 - 365 * (MICROS_PER_DAY as i128);
            if (start as i128) < one_year_ago {
                return Err(
                    ValidationError::field("start_date", "cannot be more than 1 year in the past"),
                );
            }
        },
        None => {},
    }
    match due_date {
        Some(due) => {
            let five_years_future: i128 = now as i128 + 5 * 365 * (MICROS_PER_DAY as i128);
            if (due as i128) > five_years_future {
                return Err(
                    ValidationError::field("due_date", "cannot be more than 5 years in the future"),
                );
            }
        },
        None => {},
    }
    Ok(())
}

/// Every status of a project is one that a project can have.
pub proof fn project_status_is_valid(status: ProjectStatus)
    ensures
        crate::validation::status_fault(status.text(), "project"@) is None,
{
    reveal_strlit("project");
    reveal_strlit("goal");
    assert("project"@.len() != "goal"@.len());
}

impl ValidateDto for CreateProjectDto {
    open spec fn fault_at(&self, now: i64) -> Option<Fault> {
        first_fault(
            uuid_fault(self.goal_id@),
            first_fault(
                name_fault(self.name@),
                first_fault(
                    description_fault(opt_view(self.description), MAX_DESCRIPTION_LENGTH as nat),
                    project_dates_fault(self.start_date, self.due_date, now),
                ),
            ),
        )
    }

    fn validate_at(&self, now: i64) -> (r: Result<(), ValidationError>) {
        validate_uuid(self.goal_id.as_str())?;
        validate_name(self.name.as_str())?;
        validate_description(&self.description, MAX_DESCRIPTION_LENGTH)?;
        validate_project_dates(self.start_date, self.due_date, now)
    }

    fn validate(&self) -> (r: Result<(), ValidationError>) {
        let now = now_micros();
        let r = self.validate_at(now);
        assert(reports(r, self.fault_at(now)));
        r
    }
}

impl ValidateDto for UpdateProjectDto {
    open spec fn fault_at(&self, now: i64) -> Option<Fault> {
        first_fault(
            optional_name_fault(self.name),
            first_fault(
                description_fault(opt_view(self.description), MAX_DESCRIPTION_LENGTH as nat),
                first_fault(
                    project_dates_fault(self.start_date, self.due_date, now),
                    first_fault(
                        optional_progress_fault(self.progress),
                        nothing_to_update(
                            self.name is None && self.description is None && self.start_date is None
                                && self.due_date is None && self.status is None
                                && self.progress is None,
                        ),
                    ),
                ),
            ),
        )
    }

    fn validate_at(&self, now: i64) -> (r: Result<(), ValidationError>) {
        validate_optional_name(&self.name)?;
        validate_description(&self.description, MAX_DESCRIPTION_LENGTH)?;
        validate_project_dates(self.start_date, self.due_date, now)?;
        match &self.status {
            Some(status) => {
                proof {
                    project_status_is_valid(*status);
                }
                validate_status(status.as_str(), "project")?;
            },
            None => {},
        }
        validate_optional_progress(self.progress)?;
        validate_something_to_update(
            self.name.is_none() && self.description.is_none() && self.start_date.is_none()
                && self.due_date.is_none() && self.status.is_none() && self.progress.is_none(),
        )
    }

    fn validate(&self) -> (r: Result<(), ValidationError>) {
        let now = now_micros();
        let r = self.validate_at(now);
        assert(reports(r, self.fault_at(now)));
        r
    }
}

} // verus!
