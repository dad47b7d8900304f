use chrono::{TimeZone, Utc};
use evorbrain::database::models::goal::{CreateGoalDto, GoalStatus, UpdateGoalDto};
use evorbrain::database::models::life_area::{CreateLifeAreaDto, UpdateLifeAreaDto};
use evorbrain::database::models::project::{CreateProjectDto, ProjectStatus, UpdateProjectDto};
use evorbrain::database::models::task::{CreateTaskDto, TaskPriority, TaskStatus, UpdateTaskDto};
use evorbrain::validation::task::validate_rrule;
use evorbrain::validation::{
    constraint_message, matches_hex_color, validate_date_range, validate_description,
    validate_estimated_minutes, validate_hex_color, validate_name, validate_priority,
    validate_progress, validate_status, validate_uuid, FieldIssue, ValidateDto, ValidationError,
};

fn micros(y: i32, m: u32, d: u32) -> i64 {
    Utc.with_ymd_and_hms(y, m, d, 0, 0, 0).unwrap().timestamp_micros()
}

/// The middle of the year 2025, against which the requests with dates of
/// that year are checked.
fn mid_2025() -> i64 {
    micros(2025, 6, 1)
}

fn field_error(r: Result<(), ValidationError>) -> (String, String) {
    match r {
        Err(ValidationError::FieldError { field, message }) => (field, message),
        other => panic!("expected a field error, got {:?}", other),
    }
}

fn failed(r: Result<(), ValidationError>) -> String {
    match r {
        Err(ValidationError::ValidationFailed(message)) => message,
        other => panic!("expected a failure, got {:?}", other),
    }
}

#[test]
fn test_hex_color_validation() {
    assert!(validate_hex_color("#FF5733").is_ok());
    assert!(validate_hex_color("#F57").is_ok());
    assert!(validate_hex_color("#ff5733").is_ok());
    assert!(validate_hex_color("FF5733").is_err());
    assert!(validate_hex_color("#GG5733").is_err());
    assert!(validate_hex_color("#FF57333").is_err());
}

#[test]
fn test_name_validation() {
    assert!(validate_name("Valid Name").is_ok());
    assert!(validate_name("  Valid Name  ").is_ok());
    assert!(validate_name("").is_err());
    assert!(validate_name("   ").is_err());
    assert!(validate_name(&"a".repeat(101)).is_err());
    assert!(validate_name("Name\0").is_err());
}

#[test]
fn test_uuid_validation() {
    assert!(validate_uuid("550e8400-e29b-41d4-a716-446655440000").is_ok());
    assert!(validate_uuid("invalid-uuid").is_err());
    assert!(validate_uuid("").is_err());
}

#[test]
fn test_create_life_area_validation() {
    let valid_dto = CreateLifeAreaDto {
        name: "Health".to_string(),
        description: Some("Health and fitness goals".to_string()),
        color: "#FF5733".to_string(),
    };
    assert!(valid_dto.validate().is_ok());

    let invalid_dto = CreateLifeAreaDto {
        name: "".to_string(),
        description: None,
        color: "#FF5733".to_string(),
    };
    assert!(invalid_dto.validate().is_err());

    let invalid_color_dto = CreateLifeAreaDto {
        name: "Health".to_string(),
        description: None,
        color: "invalid".to_string(),
    };
    assert!(invalid_color_dto.validate().is_err());
}

#[test]
fn test_update_life_area_validation() {
    let valid_dto = UpdateLifeAreaDto {
        name: Some("Updated Health".to_string()),
        description: None,
        color: None,
        order_index: None,
    };
    assert!(valid_dto.validate().is_ok());

    let empty_dto = UpdateLifeAreaDto {
        name: None,
        description: None,
        color: None,
        order_index: None,
    };
    assert!(empty_dto.validate().is_err());
}

#[test]
fn test_create_goal_validation() {
    let valid_dto = CreateGoalDto {
        life_area_id: "550e8400-e29b-41d4-a716-446655440000".to_string(),
        name: "Lose 20 pounds".to_string(),
        description: Some("Get healthier by losing weight".to_string()),
        target_date: Some(micros(2025, 12, 31)),
        status: GoalStatus::Active,
    };
    assert!(valid_dto.validate_at(mid_2025()).is_ok());

    let invalid_uuid_dto = CreateGoalDto {
        life_area_id: "invalid-uuid".to_string(),
        name: "Goal".to_string(),
        description: None,
        target_date: None,
        status: GoalStatus::Active,
    };
    assert!(invalid_uuid_dto.validate().is_err());
    assert!(invalid_uuid_dto.validate_at(mid_2025()).is_err());

    let past_date_dto = CreateGoalDto {
        life_area_id: "550e8400-e29b-41d4-a716-446655440000".to_string(),
        name: "Goal".to_string(),
        description: None,
        target_date: Some(micros(2020, 1, 1)),
        status: GoalStatus::Active,
    };
    assert!(past_date_dto.validate().is_err());
    assert!(past_date_dto.validate_at(mid_2025()).is_err());
}

#[test]
fn test_update_goal_validation() {
    let valid_dto = UpdateGoalDto {
        name: Some("Updated Goal".to_string()),
        description: None,
        life_area_id: None,
        target_date: None,
        status: Some(GoalStatus::Completed),
        progress: Some(100),
    };
    assert!(valid_dto.validate().is_ok());

    let invalid_progress_dto = UpdateGoalDto {
        name: None,
        description: None,
        life_area_id: None,
        target_date: None,
        status: None,
        progress: Some(150),
    };
    assert!(invalid_progress_dto.validate().is_err());
}

#[test]
fn test_create_project_validation() {
    let valid_dto = CreateProjectDto {
        goal_id: "550e8400-e29b-41d4-a716-446655440000".to_string(),
        name: "Gym Routine".to_string(),
        description: Some("Daily workout plan".to_string()),
        start_date: Some(micros(2025, 1, 1)),
        due_date: Some(micros(2025, 12, 31)),
        status: ProjectStatus::Planning,
    };
    assert!(valid_dto.validate_at(mid_2025()).is_ok());

    let invalid_date_range_dto = CreateProjectDto {
        goal_id: "550e8400-e29b-41d4-a716-446655440000".to_string(),
        name: "Project".to_string(),
        description: None,
        start_date: Some(micros(2025, 12, 31)),
        due_date: Some(micros(2025, 1, 1)),
        status: ProjectStatus::Planning,
    };
    assert!(invalid_date_range_dto.validate().is_err());
    assert!(invalid_date_range_dto.validate_at(mid_2025()).is_err());

    let too_far_past_dto = CreateProjectDto {
        goal_id: "550e8400-e29b-41d4-a716-446655440000".to_string(),
        name: "Project".to_string(),
        description: None,
        start_date: Some(micros(2020, 1, 1)),
        due_date: None,
        status: ProjectStatus::Planning,
    };
    assert!(too_far_past_dto.validate().is_err());
    assert!(too_far_past_dto.validate_at(mid_2025()).is_err());
}

#[test]
fn test_update_project_validation() {
    let valid_dto = UpdateProjectDto {
        name: Some("Updated Project".to_string()),
        description: None,
        goal_id: None,
        start_date: None,
        due_date: None,
        status: Some(ProjectStatus::Completed),
        progress: Some(75),
    };
    assert!(valid_dto.validate().is_ok());

    let invalid_progress_dto = UpdateProjectDto {
        name: None,
        description: None,
        goal_id: None,
        start_date: None,
        due_date: None,
        status: None,
        progress: Some(150),
    };
    assert!(invalid_progress_dto.validate().is_err());
}

#[test]
fn test_create_task_validation() {
    let valid_dto = CreateTaskDto {
        project_id: "550e8400-e29b-41d4-a716-446655440000".to_string(),
        name: "Complete workout".to_string(),
        description: Some("30 minutes cardio + weights".to_string()),
        due_date: Some((Utc::now() + chrono::Duration::days(1)).timestamp_micros()),
        priority: TaskPriority::High,
        estimated_minutes: Some(45),
        recurrence_rule: None,
    };
    assert!(valid_dto.validate().is_ok());

    // a priority is one of four values; as text, "urgent" is none of them
    assert!(validate_priority("high").is_ok());
    assert!(validate_priority("urgent").is_err());

    let invalid_rrule_dto = CreateTaskDto {
        project_id: "550e8400-e29b-41d4-a716-446655440000".to_string(),
        name: "Task".to_string(),
        description: None,
        due_date: None,
        priority: TaskPriority::Medium,
        estimated_minutes: None,
        recurrence_rule: Some("INVALID".to_string()),
    };
    assert!(invalid_rrule_dto.validate().is_err());
}

#[test]
fn test_update_task_validation() {
    let valid_dto = UpdateTaskDto {
        name: Some("Updated task".to_string()),
        description: None,
        due_date: None,
        priority: Some(TaskPriority::Critical),
        status: Some(TaskStatus::InProgress),
        estimated_minutes: Some(60),
        actual_minutes: Some(55),
        recurrence_rule: None,
    };
    assert!(valid_dto.validate().is_ok());

    // a status is one of four values; as text, "pending" is none of them
    assert!(validate_status("in_progress", "task").is_ok());
    assert!(validate_status("pending", "task").is_err());
    assert!(validate_priority("critical").is_ok());

    let negative_minutes_dto = UpdateTaskDto {
        name: None,
        description: None,
        due_date: None,
        priority: None,
        status: None,
        estimated_minutes: Some(-10),
        actual_minutes: None,
        recurrence_rule: None,
    };
    assert!(negative_minutes_dto.validate().is_err());
}

#[test]
fn test_rrule_validation() {
    assert!(validate_rrule("FREQ=DAILY").is_ok());
    assert!(validate_rrule("FREQ=WEEKLY;BYDAY=MO,WE,FR").is_ok());
    assert!(validate_rrule("FREQ=MONTHLY;BYMONTHDAY=15").is_ok());
    assert!(validate_rrule("INVALID").is_err());
    assert!(validate_rrule("FREQ=INVALID").is_err());
}

#[test]
fn hex_color_agrees_with_the_pattern() {
    let pattern = regex::Regex::new(r"^#([A-Fa-f0-9]{6}|[A-Fa-f0-9]{3})$").unwrap();
    let samples = [
        "", "#", "#1", "#12", "#123", "#1234", "#12345", "#123456", "#1234567", "#abc", "#ABC",
        "#aBc", "#abg", "#ggg", "#00000g", "#FFFFFF", "#ffffff", "FFFFFF", "FFF", " #fff", "#fff ",
        "#fff\n", "##fff", "#f f", "#\u{ff10}00", "#12\u{e9}", "abc#", "#-12", "#+12", "#0x1",
        "#@@@", "#GGG", "#``a", "#::1", "#//1", "#[[1", "#{{1",
    ];
    for s in samples {
        assert_eq!(matches_hex_color(s), pattern.is_match(s), "{:?}", s);
        assert_eq!(validate_hex_color(s).is_ok(), pattern.is_match(s), "{:?}", s);
    }
    assert_eq!(
        field_error(validate_hex_color("red")),
        ("color".to_string(), "must be a valid hex color (e.g., #FF5733 or #F57)".to_string())
    );
}

#[test]
fn name_faults_in_order() {
    assert_eq!(field_error(validate_name(" \t\n")), ("name".to_string(), "cannot be empty".to_string()));
    assert_eq!(
        field_error(validate_name(&"a".repeat(101))),
        ("name".to_string(), "cannot exceed 100 characters".to_string())
    );
    assert!(validate_name(&"a".repeat(100)).is_ok());
    // white space around the name does not count
    assert!(validate_name(&format!("  {}\u{a0}\u{3000}", "a".repeat(100))).is_ok());
    // the length is that of the encoding: 51 letters of two bytes are too long
    assert!(validate_name(&"\u{e9}".repeat(50)).is_ok());
    assert!(validate_name(&"\u{e9}".repeat(51)).is_err());
    assert_eq!(
        field_error(validate_name("a\rb")),
        ("name".to_string(), "contains invalid characters".to_string())
    );
    // a carriage return at the end is white space and goes with the trim
    assert!(validate_name("ab\r").is_ok());
    // too long comes before invalid characters
    assert_eq!(field_error(validate_name(&format!("\0{}", "a".repeat(100)))).1, "cannot exceed 100 characters");
}

#[test]
fn description_faults() {
    assert!(validate_description(&None, 0).is_ok());
    assert!(validate_description(&Some("abc".to_string()), 3).is_ok());
    assert_eq!(
        field_error(validate_description(&Some("abcd".to_string()), 3)),
        ("description".to_string(), "cannot exceed 3 characters".to_string())
    );
    assert_eq!(
        field_error(validate_description(&Some("a\0".to_string()), 500)),
        ("description".to_string(), "contains invalid characters".to_string())
    );
    assert!(validate_description(&Some("a\rb".to_string()), 500).is_ok());
    assert_eq!(field_error(validate_description(&Some("x".repeat(2001)), 2000)).1, "cannot exceed 2000 characters");
}

#[test]
fn uuid_forms() {
    assert!(validate_uuid("550e8400e29b41d4a716446655440000").is_ok());
    assert!(validate_uuid("{550e8400-e29b-41d4-a716-446655440000}").is_ok());
    assert!(validate_uuid("urn:uuid:550e8400-e29b-41d4-a716-446655440000").is_ok());
    assert!(validate_uuid("550E8400-E29B-41D4-A716-446655440000").is_ok());
    assert_eq!(
        field_error(validate_uuid("550e8400-e29b-41d4-a716-44665544000g")),
        ("id".to_string(), "must be a valid UUID".to_string())
    );
    assert!(validate_uuid("550e8400-e29b-41d4-a716-4466554400000").is_err());
}

#[test]
fn date_range_priority_status_progress_minutes() {
    assert!(validate_date_range(&Some(1), &Some(1)).is_ok());
    assert!(validate_date_range(&Some(1), &None).is_ok());
    assert!(validate_date_range(&None, &Some(0)).is_ok());
    assert_eq!(
        field_error(validate_date_range(&Some(2), &Some(1))),
        ("date_range".to_string(), "start date must be before or equal to end date".to_string())
    );
    for p in ["low", "medium", "high", "critical"] {
        assert!(validate_priority(p).is_ok());
    }
    assert_eq!(
        field_error(validate_priority("Low")),
        ("priority".to_string(), "must be one of: low, medium, high, critical".to_string())
    );
    for s in ["active", "completed", "paused", "cancelled"] {
        assert!(validate_status(s, "goal").is_ok());
    }
    for s in ["planning", "active", "completed", "on_hold", "cancelled"] {
        assert!(validate_status(s, "project").is_ok());
    }
    for s in ["todo", "in_progress", "completed", "cancelled"] {
        assert!(validate_status(s, "task").is_ok());
    }
    assert_eq!(field_error(validate_status("todo", "goal")).1, "must be one of: active, completed, paused, cancelled");
    assert_eq!(
        field_error(validate_status("paused", "project")).1,
        "must be one of: planning, active, completed, on_hold, cancelled"
    );
    assert_eq!(
        field_error(validate_status("active", "task")),
        ("status".to_string(), "must be one of: todo, in_progress, completed, cancelled".to_string())
    );
    assert_eq!(failed(validate_status("active", "note")), "Unknown entity type");
    assert!(validate_progress(0).is_ok());
    assert!(validate_progress(100).is_ok());
    assert_eq!(
        field_error(validate_progress(-1)),
        ("progress".to_string(), "must be between 0 and 100".to_string())
    );
    assert!(validate_progress(101).is_err());
    assert!(validate_estimated_minutes(None).is_ok());
    assert!(validate_estimated_minutes(Some(0)).is_ok());
    assert!(validate_estimated_minutes(Some(10080)).is_ok());
    assert_eq!(
        field_error(validate_estimated_minutes(Some(-1))),
        ("estimated_minutes".to_string(), "cannot be negative".to_string())
    );
    assert_eq!(
        field_error(validate_estimated_minutes(Some(10081))).1,
        "cannot exceed 1 week (10080 minutes)"
    );
}

#[test]
fn rrule_faults_in_order() {
    assert_eq!(
        field_error(validate_rrule("RRULE:FREQ=DAILY")),
        ("recurrence_rule".to_string(), "must be a valid RRULE starting with FREQ=".to_string())
    );
    assert_eq!(
        field_error(validate_rrule("FREQ=HOURLY")).1,
        "must contain a valid frequency (DAILY, WEEKLY, MONTHLY, or YEARLY)"
    );
    // the frequency may stand anywhere in the rule
    assert!(validate_rrule("FREQ=;X=FREQ=YEARLY").is_ok());
    let long = format!("FREQ=DAILY;{}", "x".repeat(489));
    assert_eq!(long.len(), 500);
    assert!(validate_rrule(&long).is_ok());
    assert_eq!(field_error(validate_rrule(&format!("{}x", long))).1, "cannot exceed 500 characters");
}

#[test]
fn update_life_area_reports_the_first_fault() {
    let dto = UpdateLifeAreaDto {
        name: Some("ok".to_string()),
        description: None,
        color: Some("blue".to_string()),
        order_index: Some(-1),
    };
    assert_eq!(field_error(dto.validate()).0, "color");
    let dto = UpdateLifeAreaDto { order_index: Some(-1), ..UpdateLifeAreaDto::default() };
    assert_eq!(
        field_error(dto.validate()),
        ("order_index".to_string(), "must be a non-negative number".to_string())
    );
    assert_eq!(failed(UpdateLifeAreaDto::default().validate()), "At least one field must be provided for update");
    let dto = UpdateLifeAreaDto { order_index: Some(0), ..UpdateLifeAreaDto::default() };
    assert!(dto.validate().is_ok());
}

#[test]
fn goal_target_date_is_checked_against_the_given_time() {
    let dto = CreateGoalDto {
        life_area_id: "550e8400-e29b-41d4-a716-446655440000".to_string(),
        name: "Goal".to_string(),
        description: None,
        target_date: Some(1_000),
        status: GoalStatus::Active,
    };
    assert!(dto.validate_at(1_000).is_ok());
    assert!(dto.validate_at(999).is_ok());
    assert_eq!(
        field_error(dto.validate_at(1_001)),
        ("target_date".to_string(), "cannot be in the past".to_string())
    );
    let update = UpdateGoalDto { life_area_id: Some("x".to_string()), ..UpdateGoalDto::default() };
    assert_eq!(failed(update.validate_at(0)), "At least one field must be provided for update");
    let update = UpdateGoalDto { status: Some(GoalStatus::Paused), ..UpdateGoalDto::default() };
    assert!(update.validate_at(0).is_ok());
}

#[test]
fn project_dates_are_checked_against_the_given_time() {
    let day: i64 = 86_400_000_000;
    let now = mid_2025();
    let dto = |start: Option<i64>, due: Option<i64>| CreateProjectDto {
        goal_id: "550e8400-e29b-41d4-a716-446655440000".to_string(),
        name: "P".to_string(),
        description: None,
        start_date: start,
        due_date: due,
        status: ProjectStatus::Active,
    };
    assert!(dto(Some(now - 365 * day), None).validate_at(now).is_ok());
    assert_eq!(
        field_error(dto(Some(now - 365 * day - 1), None).validate_at(now)),
        ("start_date".to_string(), "cannot be more than 1 year in the past".to_string())
    );
    assert!(dto(None, Some(now + 5 * 365 * day)).validate_at(now).is_ok());
    assert_eq!(
        field_error(dto(None, Some(now + 5 * 365 * day + 1)).validate_at(now)),
        ("due_date".to_string(), "cannot be more than 5 years in the future".to_string())
    );
    assert_eq!(
        field_error(dto(Some(now + 1), Some(now)).validate_at(now)),
        ("date_range".to_string(), "start date must be before or equal to due date".to_string())
    );
    // no overflow at the ends of time
    assert!(dto(Some(i64::MAX), Some(i64::MAX)).validate_at(i64::MAX).is_ok());
    assert!(dto(Some(i64::MIN), None).validate_at(i64::MIN).is_ok());
    let update = UpdateProjectDto { goal_id: Some("g".to_string()), ..UpdateProjectDto::default() };
    assert_eq!(failed(update.validate_at(now)), "At least one field must be provided for update");
}

#[test]
fn task_due_date_is_checked_against_the_given_time() {
    let hour: i64 = 3_600_000_000;
    let day: i64 = 24 * hour;
    let now = mid_2025();
    let dto = |due: Option<i64>| CreateTaskDto {
        project_id: "550e8400-e29b-41d4-a716-446655440000".to_string(),
        name: "T".to_string(),
        description: Some("d".repeat(2000)),
        due_date: due,
        priority: TaskPriority::Low,
        estimated_minutes: None,
        recurrence_rule: Some("FREQ=YEARLY".to_string()),
    };
    assert!(dto(Some(now - hour)).validate_at(now).is_ok());
    assert_eq!(
        field_error(dto(Some(now - hour - 1)).validate_at(now)),
        ("due_date".to_string(), "cannot be more than 1 hour in the past".to_string())
    );
    assert!(dto(Some(now + 730 * day)).validate_at(now).is_ok());
    assert_eq!(
        field_error(dto(Some(now + 730 * day + 1)).validate_at(now)),
        ("due_date".to_string(), "cannot be more than 2 years in the future".to_string())
    );
    let update = UpdateTaskDto { actual_minutes: Some(10081), ..UpdateTaskDto::default() };
    assert_eq!(
        field_error(update.validate_at(now)),
        ("actual_minutes".to_string(), "cannot exceed 1 week (10080 minutes)".to_string())
    );
    let update = UpdateTaskDto { actual_minutes: Some(-1), ..UpdateTaskDto::default() };
    assert_eq!(field_error(update.validate_at(now)).1, "cannot be negative");
    assert_eq!(failed(UpdateTaskDto::default().validate_at(now)), "At least one field must be provided for update");
    let update = UpdateTaskDto { priority: Some(TaskPriority::Low), ..UpdateTaskDto::default() };
    assert!(update.validate_at(now).is_ok());
}

#[test]
fn validation_error_texts() {
    assert_eq!(ValidationError::failed("x").to_string(), "Validation failed: x");
    assert_eq!(ValidationError::field("name", "cannot be empty").to_string(), "Field 'name' cannot be empty");
    assert_eq!(ValidationError::MultipleErrors(vec![]).to_string(), "Multiple validation errors occurred");
    assert_eq!(constraint_message("\"length\""), "validation failed for constraint: \"length\"");
}

#[test]
fn issues_become_one_error() {
    let issue = |f: &str, m: &str| FieldIssue { field: f.to_string(), message: m.to_string() };
    match ValidationError::from_issues(vec![issue("a", "bad")]) {
        ValidationError::FieldError { field, message } => {
            assert_eq!(field, "a");
            assert_eq!(message, "bad");
        }
        other => panic!("{:?}", other),
    }
    match ValidationError::from_issues(vec![issue("a", "bad"), issue("b", "worse")]) {
        ValidationError::MultipleErrors(list) => {
            assert_eq!(list.len(), 2);
            assert_eq!(list[0].to_string(), "Field 'a' bad");
            assert_eq!(list[1].to_string(), "Field 'b' worse");
        }
        other => panic!("{:?}", other),
    }
    match ValidationError::from_issues(vec![]) {
        ValidationError::MultipleErrors(list) => assert!(list.is_empty()),
        other => panic!("{:?}", other),
    }
}
