//! The validation of what the user enters, before any of it reaches the
//! database. Each check reports the first fault it finds.

pub mod goal;
pub mod life_area;
pub mod project;
pub mod task;

use vstd::prelude::*;
use vstd::string::StringExecFns;
use vstd::utf8::encode_utf8;
use crate::ids::{parses_as_uuid, uuid_parses};
use crate::text::{chars_of, contains_char, decimal, push_decimal, str_eq, trim, trimmed};

verus! {

/// Why an input was rejected.
#[derive(Debug)]
pub enum ValidationError {
    ValidationFailed(String),
    FieldError { field: String, message: String },
    MultipleErrors(Vec<ValidationError>),
}

/// What is wrong with an input: a fault of one field, or of the input as a
/// whole.
pub enum Fault {
    Field { field: Seq<char>, message: Seq<char> },
    Failed { message: Seq<char> },
}

/// One complaint about one field, as a validation framework reports it.
#[derive(Debug)]
pub struct FieldIssue {
    pub field: String,
    pub message: String,
}

/// The longest name, in bytes.
pub const MAX_NAME_LENGTH: usize = 100;

/// The longest description, in bytes.
pub const MAX_DESCRIPTION_LENGTH: usize = 500;

/// The longest description of a task, in bytes.
pub const MAX_LONG_DESCRIPTION_LENGTH: usize = 2000;

/// The shortest name, in bytes.
pub const MIN_NAME_LENGTH: usize = 1;

/// The length of a colour with six digits.
pub const MAX_COLOR_LENGTH: usize = 7;

/// The length of a colour with three digits.
pub const MIN_COLOR_LENGTH: usize = 4;

/// The longest estimate of a task's duration: one week, in minutes.
pub const MAX_MINUTES: i32 = 10080;

/// The fault that a complaint reports.
pub open spec fn issue_fault(issue: FieldIssue) -> Fault {
    Fault::Field { field: issue.field@, message: issue.message@ }
}

/// The first of two faults: `a` where there is one, else `b`.
pub open spec fn first_fault(a: Option<Fault>, b: Option<Fault>) -> Option<Fault> {
    if a is Some {
        a
    } else {
        b
    }
}

/// The fault of the field `field` with the message `message`.
pub open spec fn field_fault(field: Seq<char>, message: Seq<char>) -> Option<Fault> {
    Some(Fault::Field { field, message })
}

/// Whether the result of a check reports exactly `fault`: success where
/// there is none, and else the error that names it.
pub open spec fn reports(r: Result<(), ValidationError>, fault: Option<Fault>) -> bool {
    match fault {
        None => r is Ok,
        Some(f) => r matches Err(e) && e.names(f),
    }
}

impl ValidationError {
    /// Whether this error names the fault `fault`.
    pub open spec fn names(self, fault: Fault) -> bool {
        match (self, fault) {
            (ValidationError::FieldError { field, message }, Fault::Field { field: f, message: m }) => {
                field@ == f && message@ == m
            },
            (ValidationError::ValidationFailed(message), Fault::Failed { message: m }) => message@ == m,
            _ => false,
        }
    }

    /// Whether this error holds, one for one and in order, the complaints
    /// `issues`.
    pub open spec fn lists(self, issues: Seq<FieldIssue>) -> bool {
        match self {
            ValidationError::MultipleErrors(list) => list@.len() == issues.len() && forall|i: int|
                0 <= i < issues.len() ==> (#[trigger] list@[i]).names(issue_fault(issues[i])),
            _ => false,
        }
    }

    /// The text shown for this error.
    pub open spec fn text(self) -> Seq<char> {
        match self {
            ValidationError::ValidationFailed(m) => "Validation failed: "@ + m@,
            ValidationError::FieldError { field, message } => "Field '"@ + field@ + "' "@ + message@,
            ValidationError::MultipleErrors(_) => "Multiple validation errors occurred"@,
        }
    }

    /// The text shown for this error.
    pub fn to_string(&self) -> (s: String)
        ensures
            s@ == self.text(),
    {
        match self {
            ValidationError::ValidationFailed(m) => {
                let mut s = "Validation failed: ".to_owned();
                s.append(m.as_str());
                s
            },
            ValidationError::FieldError { field, message } => {
                let mut s = "Field '".to_owned();
                s.append(field.as_str());
                s.append("' ");
                s.append(message.as_str());
                s
            },
            ValidationError::MultipleErrors(_) => "Multiple validation errors occurred".to_owned(),
        }
    }

    /// The error for the field `field` with the message `message`.
    pub fn field(field: &str, message: &str) -> (e: Self)
        ensures
            e.names(Fault::Field { field: field@, message: message@ }),
    {
        ValidationError::FieldError { field: field.to_owned(), message: message.to_owned() }
    }

    /// The error for an input that fails as a whole.
    pub fn failed(message: &str) -> (e: Self)
        ensures
            e.names(Fault::Failed { message: message@ }),
    {
        ValidationError::ValidationFailed(message.to_owned())
    }

    /// The error that sums up the complaints of a validation framework: the
    /// complaint itself where there is exactly one, and else all of them in
    /// the order given.
    pub fn from_issues(issues: Vec<FieldIssue>) -> (e: Self)
        ensures
            issues@.len() == 1 ==> e.names(issue_fault(issues@[0])),
            issues@.len() != 1 ==> e.lists(issues@),
    {
        let mut list: Vec<ValidationError> = Vec::new();
        let mut i: usize = 0;
        while i < issues.len()
            invariant
                i <= issues@.len(),
                list@.len() == i,
                forall|k: int| 0 <= k < i ==> (#[trigger] list@[k]).names(issue_fault(issues@[k])),
            decreases issues.len() - i,
        {
            list.push(
                ValidationError::FieldError {
                    field: issues[i].field.clone(),
                    message: issues[i].message.clone(),
                },
            );
            i += 1;
        }
        if list.len() == 1 {
            let only = list.pop();
            match only {
                Some(e) => e,
                None => ValidationError::MultipleErrors(list),
            }
        } else {
            ValidationError::MultipleErrors(list)
        }
    }
}

/// The message for a constraint that failed without a message of its own;
/// `constraint` is the constraint's code as it is shown.
pub fn constraint_message(constraint: &str) -> (message: String)
    ensures
        message@ == "validation failed for constraint: "@ + constraint@,
{
    let mut message = "validation failed for constraint: ".to_owned();
    message.append(constraint);
    message
}

/// Whether `c` is a hexadecimal digit, in either case.
pub open spec fn is_hex_digit(c: char) -> bool {
    ('0' <= c <= '9') || ('a' <= c <= 'f') || ('A' <= c <= 'F')
}

/// Whether `color` is a colour in hexadecimal notation: `#` followed by
/// three or by six hexadecimal digits, and nothing else.
pub open spec fn is_hex_color(color: Seq<char>) -> bool {
    &&& color.len() == 4 || color.len() == 7
    &&& color[0] == '#'
    &&& forall|i: int| 1 <= i < color.len() ==> is_hex_digit(color[i])
}

/// Whether `color` is a colour in hexadecimal notation.
pub fn matches_hex_color(color: &str) -> (r: bool)
    ensures
        r == is_hex_color(color@),
{
    let chars = chars_of(color);
    if chars.len() != 4 && chars.len() != 7 {
        return false;
    }
    if chars[0] != '#' {
        return false;
    }
    let mut i: usize = 1;
    while i < chars.len()
        invariant
            1 <= i <= chars.len(),
            chars@ == color@,
            forall|k: int| 1 <= k < i ==> is_hex_digit(chars@[k]),
        decreases chars.len() - i,
    {
        let c = chars[i];
        if !(('0' <= c && c <= '9') || ('a' <= c && c <= 'f') || ('A' <= c && c <= 'F')) {
            return false;
        }
        i += 1;
    }
    true
}

/// The fault of a colour, if it has one.
pub open spec fn color_fault(color: Seq<char>) -> Option<Fault> {
    if is_hex_color(color) {
        None
    } else {
        field_fault("color"@, "must be a valid hex color (e.g., #FF5733 or #F57)"@)
    }
}

/// Accepts a colour in hexadecimal notation.
pub fn validate_hex_color(color: &str) -> (r: Result<(), ValidationError>)
    ensures
        reports(r, color_fault(color@)),
{
    if !matches_hex_color(color) {
        return Err(
            ValidationError::field("color", "must be a valid hex color (e.g., #FF5733 or #F57)"),
        );
    }
    Ok(())
}

/// The message for a text that is too long.
pub open spec fn too_long(max_length: nat) -> Seq<char> {
    "cannot exceed "@ + decimal(max_length) + " characters"@
}

/// The message for a text that is too long.
pub fn too_long_message(max_length: usize) -> (m: String)
    ensures
        m@ == too_long(max_length as nat),
{
    let mut m = "cannot exceed ".to_owned();
    push_decimal(&mut m, max_length as u64);
    m.append(" characters");
    m
}

/// The fault of a name, if it has one. The name is taken without the white
/// space around it; its length is that of its UTF-8 encoding.
pub open spec fn name_fault(name: Seq<char>) -> Option<Fault> {
    let core = trimmed(name);
    if core.len() == 0 {
        field_fault("name"@, "cannot be empty"@)
    } else if encode_utf8(core).len() > MAX_NAME_LENGTH {
        field_fault("name"@, too_long(MAX_NAME_LENGTH as nat))
    } else if core.contains('\0') || core.contains('\r') {
        field_fault("name"@, "contains invalid characters"@)
    } else {
        None
    }
}

/// Accepts a name that, without the white space around it, is not empty,
/// takes at most 100 bytes and holds no null character and no carriage
/// return.
pub fn validate_name(name: &str) -> (r: Result<(), ValidationError>)
    ensures
        reports(r, name_fault(name@)),
{
    let core = trim(name);
    if core.is_empty() {
        return Err(ValidationError::field("name", "cannot be empty"));
    }
    if core.as_bytes().len() > MAX_NAME_LENGTH {
        return Err(ValidationError::field("name", too_long_message(MAX_NAME_LENGTH).as_str()));
    }
    if contains_char(core, '\0') || contains_char(core, '\r') {
        return Err(ValidationError::field("name", "contains invalid characters"));
    }
    Ok(())
}

/// The fault of a description, if it has one. Its length is that of its
/// UTF-8 encoding.
pub open spec fn description_fault(description: Option<Seq<char>>, max_length: nat) -> Option<Fault> {
    match description {
        None => None,
        Some(text) => if encode_utf8(text).len() > max_length {
            field_fault("description"@, too_long(max_length))
        } else if text.contains('\0') {
            field_fault("description"@, "contains invalid characters"@)
        } else {
            None
        },
    }
}

/// Accepts a description that is absent or takes at most `max_length` bytes
/// and holds no null character.
pub fn validate_description(description: &Option<String>, max_length: usize) -> (r: Result<
    (),
    ValidationError,
>)
    ensures
        reports(r, description_fault(crate::text::opt_view(*description), max_length as nat)),
{
    match description {
        Some(text) => {
            if text.as_str().as_bytes().len() > max_length {
                return Err(
                    ValidationError::field("description", too_long_message(max_length).as_str()),
                );
            }
            if contains_char(text.as_str(), '\0') {
                return Err(ValidationError::field("description", "contains invalid characters"));
            }
            Ok(())
        },
        None => Ok(()),
    }
}

/// The fault of an identifier, if it has one.
pub open spec fn uuid_fault(id: Seq<char>) -> Option<Fault> {
    if uuid_parses(id) {
        None
    } else {
        field_fault("id"@, "must be a valid UUID"@)
    }
}

/// What the check of an identifier reports once it is known whether the
/// identifier parses as a UUID.
pub fn uuid_verdict(parses: bool) -> (r: Result<(), ValidationError>)
    ensures
        reports(r, if parses { None } else { field_fault("id"@, "must be a valid UUID"@) }),
{
    if parses {
        Ok(())
    } else {
        Err(ValidationError::field("id", "must be a valid UUID"))
    }
}

/// Accepts an identifier that parses as a UUID.
pub fn validate_uuid(id: &str) -> (r: Result<(), ValidationError>)
    ensures
        reports(r, uuid_fault(id@)),
{
    uuid_verdict(parses_as_uuid(id))
}

/// The fault of a range of dates, if it has one. A date is a number of days.
pub open spec fn date_range_fault(start_date: Option<i32>, end_date: Option<i32>) -> Option<Fault> {
    if start_date matches Some(start) && end_date matches Some(end) && start > end {
        field_fault("date_range"@, "start date must be before or equal to end date"@)
    } else {
        None
    }
}

/// Accepts a range of dates unless both ends are given and the start lies
/// after the end. A date is a number of days from a common day.
pub fn validate_date_range(start_date: &Option<i32>, end_date: &Option<i32>) -> (r: Result<
    (),
    ValidationError,
>)
    ensures
        reports(r, date_range_fault(*start_date, *end_date)),
{
    match (start_date, end_date) {
        (Some(start), Some(end)) => {
            if *start > *end {
                return Err(
                    ValidationError::field(
                        "date_range",
                        "start date must be before or equal to end date",
                    ),
                );
            }
            Ok(())
        },
        _ => Ok(()),
    }
}

/// Whether `priority` names a priority.
pub open spec fn is_priority(priority: Seq<char>) -> bool {
    priority == "low"@ || priority == "medium"@ || priority == "high"@ || priority == "critical"@
}

/// The fault of a priority, if it has one.
pub open spec fn priority_fault(priority: Seq<char>) -> Option<Fault> {
    if is_priority(priority) {
        None
    } else {
        field_fault("priority"@, "must be one of: low, medium, high, critical"@)
    }
}

/// Accepts the priorities low, medium, high and critical.
pub fn validate_priority(priority: &str) -> (r: Result<(), ValidationError>)
    ensures
        reports(r, priority_fault(priority@)),
{
    if str_eq(priority, "low") || str_eq(priority, "medium") || str_eq(priority, "high") || str_eq(
        priority,
        "critical",
    ) {
        Ok(())
    } else {
        Err(ValidationError::field("priority", "must be one of: low, medium, high, critical"))
    }
}

/// Whether `status` names a status of a goal.
pub open spec fn is_goal_status(status: Seq<char>) -> bool {
    status == "active"@ || status == "completed"@ || status == "paused"@ || status == "cancelled"@
}

/// Whether `status` names a status of a project.
pub open spec fn is_project_status(status: Seq<char>) -> bool {
    status == "planning"@ || status == "active"@ || status == "completed"@ || status == "on_hold"@
        || status == "cancelled"@
}

/// Whether `status` names a status of a task.
pub open spec fn is_task_status(status: Seq<char>) -> bool {
    status == "todo"@ || status == "in_progress"@ || status == "completed"@ || status
        == "cancelled"@
}

/// The fault of a status of an entity of kind `entity_type`, if it has one.
pub open spec fn status_fault(status: Seq<char>, entity_type: Seq<char>) -> Option<Fault> {
    if entity_type == "goal"@ {
        if is_goal_status(status) {
            None
        } else {
            field_fault("status"@, "must be one of: active, completed, paused, cancelled"@)
        }
    } else if entity_type == "project"@ {
        if is_project_status(status) {
            None
        } else {
            field_fault("status"@, "must be one of: planning, active, completed, on_hold, cancelled"@)
        }
    } else if entity_type == "task"@ {
        if is_task_status(status) {
            None
        } else {
            field_fault("status"@, "must be one of: todo, in_progress, completed, cancelled"@)
        }
    } else {
        Some(Fault::Failed { message: "Unknown entity type"@ })
    }
}

/// Accepts a status that an entity of kind `entity_type` can have; the kinds
/// are goal, project and task.
pub fn validate_status(status: &str, entity_type: &str) -> (r: Result<(), ValidationError>)
    ensures
        reports(r, status_fault(status@, entity_type@)),
{
    if str_eq(entity_type, "goal") {
        if str_eq(status, "active") || str_eq(status, "completed") || str_eq(status, "paused")
            || str_eq(status, "cancelled") {
            Ok(())
        } else {
            Err(ValidationError::field("status", "must be one of: active, completed, paused, cancelled"))
        }
    } else if str_eq(entity_type, "project") {
        if str_eq(status, "planning") || str_eq(status, "active") || str_eq(status, "completed")
            || str_eq(status, "on_hold") || str_eq(status, "cancelled") {
            Ok(())
        } else {
            Err(
                ValidationError::field(
                    "status",
                    "must be one of: planning, active, completed, on_hold, cancelled",
                ),
            )
        }
    } else if str_eq(entity_type, "task") {
        if str_eq(status, "todo") || str_eq(status, "in_progress") || str_eq(status, "completed")
            || str_eq(status, "cancelled") {
            Ok(())
        } else {
            Err(
                ValidationError::field(
                    "status",
                    "must be one of: todo, in_progress, completed, cancelled",
                ),
            )
        }
    } else {
        Err(ValidationError::failed("Unknown entity type"))
    }
}

/// The fault of a progress, if it has one.
pub open spec fn progress_fault(progress: i32) -> Option<Fault> {
    if 0 <= progress <= 100 {
        None
    } else {
        field_fault("progress"@, "must be between 0 and 100"@)
    }
}

/// Accepts a progress from 0 to 100.
pub fn validate_progress(progress: i32) -> (r: Result<(), ValidationError>)
    ensures
        reports(r, progress_fault(progress)),
{
    if progress < 0 || progress > 100 {
        return Err(ValidationError::field("progress", "must be between 0 and 100"));
    }
    Ok(())
}

/// The fault of a number of minutes in the field `field`, if it has one.
pub open spec fn minutes_fault(field: Seq<char>, minutes: Option<i32>) -> Option<Fault> {
    match minutes {
        None => None,
        Some(m) => if m < 0 {
            field_fault(field, "cannot be negative"@)
        } else if m > MAX_MINUTES {
            field_fault(field, "cannot exceed 1 week (10080 minutes)"@)
        } else {
            None
        },
    }
}

/// Accepts a number of minutes in the field `field` that is absent or lies
/// between 0 and one week.
pub fn validate_minutes(field: &str, minutes: Option<i32>) -> (r: Result<(), ValidationError>)
    ensures
        reports(r, minutes_fault(field@, minutes)),
{
    match minutes {
        Some(m) => {
            if m < 0 {
                return Err(ValidationError::field(field, "cannot be negative"));
            }
            if m > MAX_MINUTES {
                return Err(ValidationError::field(field, "cannot exceed 1 week (10080 minutes)"));
            }
            Ok(())
        },
        None => Ok(()),
    }
}

/// Accepts an estimate that is absent or lies between 0 and one week.
pub fn validate_estimated_minutes(minutes: Option<i32>) -> (r: Result<(), ValidationError>)
    ensures
        reports(r, minutes_fault("estimated_minutes"@, minutes)),
{
    validate_minutes("estimated_minutes", minutes)
}

/// A request that can be checked before it is carried out.
pub trait ValidateDto {
    /// The fault of the request at the time `now`, if it has one.
    spec fn fault_at(&self, now: i64) -> Option<Fault>;

    /// Checks the request against the time `now`.
    fn validate_at(&self, now: i64) -> (r: Result<(), ValidationError>)
        ensures
            reports(r, self.fault_at(now)),
    ;

    /// Checks the request against the time of the call.
    fn validate(&self) -> (r: Result<(), ValidationError>)
        ensures
            exists|now: i64| reports(r, #[trigger] self.fault_at(now)),
    ;
}

} // verus!
