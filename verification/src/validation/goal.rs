//! The checks on requests about goals.

use vstd::prelude::*;
use crate::clock::now_micros;
use crate::database::models::goal::{CreateGoalDto, GoalStatus, UpdateGoalDto};
use crate::text::opt_view;
use crate::validation::life_area::{
    nothing_to_update, optional_name_fault, validate_optional_name, validate_something_to_update,
};
use crate::validation::{
    description_fault, field_fault, first_fault, name_fault, progress_fault, reports, uuid_fault,
    validate_description, validate_name, validate_progress, validate_status, validate_uuid, Fault,
    ValidateDto, ValidationError, MAX_DESCRIPTION_LENGTH,
};

verus! {

/// The fault of a target date at the time `now`: it must not lie before.
pub open spec fn target_date_fault(target_date: Option<i64>, now: i64) -> Option<Fault> {
    if target_date matches Some(t) && t < now {
        field_fault("target_date"@, "cannot be in the past"@)
    } else {
        None
    }
}

/// The fault of a progress that may be absent.
pub open spec fn optional_progress_fault(progress: Option<i32>) -> Option<Fault> {
    match progress {
        Some(p) => progress_fault(p),
        None => None,
    }
}

/// Checks a target date against the time `now`.
pub fn validate_target_date(target_date: Option<i64>, now: i64) -> (r: Result<(), ValidationError>)
    ensures
        reports(r, target_date_fault(target_date, now)),
{
    match target_date {
        Some(t) => {
            if t < now {
                return Err(ValidationError::field("target_date", "cannot be in the past"));
            }
            Ok(())
        },
        None => Ok(()),
    }
}

/// Checks a progress that may be absent.
pub fn validate_optional_progress(progress: Option<i32>) -> (r: Result<(), ValidationError>)
    ensures
        reports(r, optional_progress_fault(progress)),
{
    match progress {
        Some(p) => validate_progress(p),
        None => Ok(()),
    }
}

/// Every status of a goal is one that a goal can have.
pub proof fn goal_status_is_valid(status: GoalStatus)
    ensures
        crate::validation::status_fault(status.text(), "goal"@) is None,
{
}

impl ValidateDto for CreateGoalDto {
    open spec fn fault_at(&self, now: i64) -> Option<Fault> {
        first_fault(
            uuid_fault(self.life_area_id@),
            first_fault(
                name_fault(self.name@),
                first_fault(
                    description_fault(opt_view(self.description), MAX_DESCRIPTION_LENGTH as nat),
                    target_date_fault(self.target_date, now),
                ),
            ),
        )
    }

    fn validate_at(&self, now: i64) -> (r: Result<(), ValidationError>) {
        validate_uuid(self.life_area_id.as_str())?;
        validate_name(self.name.as_str())?;
        validate_description(&self.description, MAX_DESCRIPTION_LENGTH)?;
        validate_target_date(self.target_date, now)
    }

    fn validate(&self) -> (r: Result<(), ValidationError>) {
        let now = now_micros();
        let r = self.validate_at(now);
        assert(reports(r, self.fault_at(now)));
        r
    }
}

impl ValidateDto for UpdateGoalDto {
    open spec fn fault_at(&self, now: i64) -> Option<Fault> {
        first_fault(
            optional_name_fault(self.name),
            first_fault(
                description_fault(opt_view(self.description), MAX_DESCRIPTION_LENGTH as nat),
                first_fault(
                    target_date_fault(self.target_date, now),
                    first_fault(
                        optional_progress_fault(self.progress),
                        nothing_to_update(
                            self.name is None && self.description is None && self.target_date is None
                                && self.status is None && self.progress is None,
                        ),
                    ),
                ),
            ),
        )
    }

    fn validate_at(&self, now: i64) -> (r: Result<(), ValidationError>) {
        validate_optional_name(&self.name)?;
        validate_description(&self.description, MAX_DESCRIPTION_LENGTH)?;
        validate_target_date(self.target_date, now)?;
        match &self.status {
            Some(status) => {
                proof {
                    goal_status_is_valid(*status);
                }
                validate_status(status.as_str(), "goal")?;
            },
            None => {},
        }
        validate_optional_progress(self.progress)?;
        validate_something_to_update(
            self.name.is_none() && self.description.is_none() && self.target_date.is_none()
                && self.status.is_none() && self.progress.is_none(),
        )
    }

    fn validate(&self) -> (r: Result<(), ValidationError>) {
        let now = now_micros();
        let r = self.validate_at(now);
        assert(reports(r, self.fault_at(now)));
        r
    }
}

} // verus!
