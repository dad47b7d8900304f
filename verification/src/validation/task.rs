//! The checks on requests about tasks.

use vstd::prelude::*;
use vstd::utf8::encode_utf8;
use crate::clock::{now_micros, MICROS_PER_DAY, MICROS_PER_HOUR};
use crate::database::models::task::{CreateTaskDto, UpdateTaskDto};
use crate::text::{contains, contains_text, occurs_at, opt_view, starts_with};
use crate::validation::life_area::{
    nothing_to_update, optional_name_fault, validate_optional_name, validate_something_to_update,
};
use crate::validation::{
    description_fault, field_fault, first_fault, minutes_fault, name_fault, reports, uuid_fault,
    validate_description, validate_estimated_minutes, validate_minutes, validate_name, validate_uuid,
    Fault, ValidateDto, ValidationError, MAX_LONG_DESCRIPTION_LENGTH,
};

verus! {

/// The longest recurrence rule, in bytes.
pub const MAX_RRULE_LENGTH: usize = 500;

/// How far ahead a task may be due: twice 365 days, in microseconds.
pub open spec fn two_years() -> int {
    2 * 365 * MICROS_PER_DAY
}

/// The fault of the due date of a task at the time `now`: it must not lie
/// more than an hour back nor more than two years ahead.
pub open spec fn due_date_fault(due_date: Option<i64>, now: i64) -> Option<Fault> {
    match due_date {
        None => None,
        Some(due) => if due < now - MICROS_PER_HOUR {
            field_fault("due_date"@, "cannot be more than 1 hour in the past"@)
        } else if due > now + two_years() {
            field_fault("due_date"@, "cannot be more than 2 years in the future"@)
        } else {
            None
        },
    }
}

/// Whether a recurrence rule names one of the four frequencies.
pub open spec fn names_frequency(rrule: Seq<char>) -> bool {
    contains_text(rrule, "FREQ=DAILY"@) || contains_text(rrule, "FREQ=WEEKLY"@) || contains_text(
        rrule,
        "FREQ=MONTHLY"@,
    ) || contains_text(rrule, "FREQ=YEARLY"@)
}

/// The fault of a recurrence rule, if it has one: the rule must begin with
/// `FREQ=`, name a frequency and take at most 500 bytes.
pub open spec fn rrule_fault(rrule: Seq<char>) -> Option<Fault> {
    if !occurs_at(rrule, "FREQ="@, 0) {
        field_fault("recurrence_rule"@, "must be a valid RRULE starting with FREQ="@)
    } else if !names_frequency(rrule) {
        field_fault(
            "recurrence_rule"@,
            "must contain a valid frequency (DAILY, WEEKLY, MONTHLY, or YEARLY)"@,
        )
    } else if encode_utf8(rrule).len() > MAX_RRULE_LENGTH {
        field_fault("recurrence_rule"@, "cannot exceed 500 characters"@)
    } else {
        None
    }
}

/// The fault of a recurrence rule that may be absent.
pub open spec fn optional_rrule_fault(rrule: Option<String>) -> Option<Fault> {
    match rrule {
        Some(rule) => rrule_fault(rule@),
        None => None,
    }
}

/// Checks the due date of a task against the time `now`.
pub fn validate_due_date(due_date: Option<i64>, now: i64) -> (r: Result<(), ValidationError>)
    ensures
        reports(r, due_date_fault(due_date, now)),
{
    match due_date {
        Some(due) => {
            let one_hour_ago: i128 = now as i128 - (MICROS_PER_HOUR as i128);
            if (due as i128) < one_hour_ago {
                return Err(
                    ValidationError::field("due_date", "cannot be more than 1 hour in the past"),
                );
            }
            let two_years_future: i128 = now as i128 + 2 * 365 * (MICROS_PER_DAY as i128);
            if (due as i128) > two_years_future {
                return Err(
                    ValidationError::field("due_date", "cannot be more than 2 years in the future"),
                );
            }
            Ok(())
        },
        None => Ok(()),
    }
}

/// Accepts a recurrence rule that begins with `FREQ=`, names one of the
/// frequencies DAILY, WEEKLY, MONTHLY and YEARLY, and takes at most 500
/// bytes.
pub fn validate_rrule(rrule: &str) -> (r: Result<(), ValidationError>)
    ensures
        reports(r, rrule_fault(rrule@)),
{
    if !starts_with(rrule, "FREQ=") {
        return Err(
            ValidationError::field("recurrence_rule", "must be a valid RRULE starting with FREQ="),
        );
    }
    let has_valid_freq = contains(rrule, "FREQ=DAILY") || contains(rrule, "FREQ=WEEKLY") || contains(
        rrule,
        "FREQ=MONTHLY",
    ) || contains(rrule, "FREQ=YEARLY");
    if !has_valid_freq {
        return Err(
            ValidationError::field(
                "recurrence_rule",
                "must contain a valid frequency (DAILY, WEEKLY, MONTHLY, or YEARLY)",
            ),
        );
    }
    if rrule.as_bytes().len() > MAX_RRULE_LENGTH {
        return Err(ValidationError::field("recurrence_rule", "cannot exceed 500 characters"));
    }
    Ok(())
}

/// Checks a recurrence rule that may be absent.
pub fn validate_optional_rrule(rrule: &Option<String>) -> (r: Result<(), ValidationError>)
    ensures
        reports(r, optional_rrule_fault(*rrule)),
{
    match rrule {
        Some(rule) => validate_rrule(rule.as_str()),
        None => Ok(()),
    }
}

impl ValidateDto for CreateTaskDto {
    open spec fn fault_at(&self, now: i64) -> Option<Fault> {
        first_fault(
            uuid_fault(self.project_id@),
            first_fault(
                name_fault(self.name@),
                first_fault(
                    description_fault(opt_view(self.description), MAX_LONG_DESCRIPTION_LENGTH as nat),
                    first_fault(
                        due_date_fault(self.due_date, now),
                        first_fault(
                            minutes_fault("estimated_minutes"@, self.estimated_minutes),
                            optional_rrule_fault(self.recurrence_rule),
                        ),
                    ),
                ),
            ),
        )
    }

    fn validate_at(&self, now: i64) -> (r: Result<(), ValidationError>) {
        validate_uuid(self.project_id.as_str())?;
        validate_name(self.name.as_str())?;
        validate_description(&self.description, MAX_LONG_DESCRIPTION_LENGTH)?;
        validate_due_date(self.due_date, now)?;
        validate_estimated_minutes(self.estimated_minutes)?;
        validate_optional_rrule(&self.recurrence_rule)
    }

    fn validate(&self) -> (r: Result<(), ValidationError>) {
        let now = now_micros();
        let r = self.validate_at(now);
        assert(reports(r, self.fault_at(now)));
        r
    }
}

impl ValidateDto for UpdateTaskDto {
    open spec fn fault_at(&self, now: i64) -> Option<Fault> {
        first_fault(
            optional_name_fault(self.name),
            first_fault(
                description_fault(opt_view(self.description), MAX_LONG_DESCRIPTION_LENGTH as nat),
                first_fault(
                    due_date_fault(self.due_date, now),
                    first_fault(
                        minutes_fault("estimated_minutes"@, self.estimated_minutes),
                        first_fault(
                            minutes_fault("actual_minutes"@, self.actual_minutes),
                            first_fault(
                                optional_rrule_fault(self.recurrence_rule),
                                nothing_to_update(
                                    self.name is None && self.description is None
                                        && self.due_date is None && self.priority is None
                                        && self.status is None && self.estimated_minutes is None
                                        && self.actual_minutes is None
                                        && self.recurrence_rule is None,
                                ),
                            ),
                        ),
                    ),
                ),
            ),
        )
    }

    fn validate_at(&self, now: i64) -> (r: Result<(), ValidationError>) {
        validate_optional_name(&self.name)?;
        validate_description(&self.description, MAX_LONG_DESCRIPTION_LENGTH)?;
        validate_due_date(self.due_date, now)?;
        validate_estimated_minutes(self.estimated_minutes)?;
        validate_minutes("actual_minutes", self.actual_minutes)?;
        validate_optional_rrule(&self.recurrence_rule)?;
        validate_something_to_update(
            self.name.is_none() && self.description.is_none() && self.due_date.is_none()
                && self.priority.is_none() && self.status.is_none()
                && self.estimated_minutes.is_none() && self.actual_minutes.is_none()
                && self.recurrence_rule.is_none(),
        )
    }

    fn validate(&self) -> (r: Result<(), ValidationError>) {
        let now = now_micros();
        let r = self.validate_at(now);
        assert(reports(r, self.fault_at(now)));
        r
    }
}

} // verus!
