use evorbrain::database::models::goal::GoalStatus;
use evorbrain::database::models::project::ProjectStatus as DtoProjectStatus;
use evorbrain::database::models::task::{TaskPriority as DtoTaskPriority, TaskStatus};
use evorbrain::db::models::{
    Goal, LifeArea, Note, Project, ProjectFilter, ProjectStatus, Tag, Task, TaskFilter, TaskPriority,
};
use evorbrain::text::{
    chars_of, clone_opt, contains, contains_char, join, opt_is, push_decimal, push_lower_hex,
    push_signed_decimal, starts_with, str_eq,
};

fn decimal(n: u64) -> String {
    let mut s = String::from(">");
    push_decimal(&mut s, n);
    s
}

fn signed(n: i64) -> String {
    let mut s = String::new();
    push_signed_decimal(&mut s, n);
    s
}

fn hex(n: u64) -> String {
    let mut s = String::new();
    push_lower_hex(&mut s, n);
    s
}

#[test]
fn numbers_are_rendered_like_the_standard_library_does() {
    for n in [0u64, 1, 9, 10, 11, 99, 100, 101, 12345, 1 << 32, u64::MAX - 1, u64::MAX] {
        assert_eq!(decimal(n), format!(">{}", n));
        assert_eq!(hex(n), format!("{:x}", n));
    }
    for n in [0i64, 1, -1, 9, -9, 10, -10, 1234, -1234, i64::MAX, i64::MIN, i64::MIN + 1] {
        assert_eq!(signed(n), format!("{}", n));
    }
    assert_eq!(hex(0xabcdef), "abcdef");
    assert_eq!(hex(0x0f), "f");
    assert_eq!(hex(0x10), "10");
}

#[test]
fn text_search() {
    assert!(str_eq("", ""));
    assert!(str_eq("a\u{e9}", "a\u{e9}"));
    assert!(!str_eq("a", "A"));
    assert!(!str_eq("a", "ab"));
    assert_eq!(chars_of("a\u{e9}z"), vec!['a', '\u{e9}', 'z']);
    assert!(contains_char("abc", 'c'));
    assert!(!contains_char("abc", 'd'));
    assert!(!contains_char("", 'a'));
    assert!(starts_with("FREQ=DAILY", "FREQ="));
    assert!(starts_with("x", ""));
    assert!(starts_with("", ""));
    assert!(!starts_with("FRE", "FREQ="));
    assert!(!starts_with(" FREQ=", "FREQ="));
    assert!(contains("a UNIQUE constraint failed", "UNIQUE constraint"));
    assert!(contains("abc", "c"));
    assert!(contains("abc", "abc"));
    assert!(contains("abc", ""));
    assert!(contains("", ""));
    assert!(!contains("abc", "abcd"));
    assert!(!contains("aab", "aba"));
    assert!(contains("aaab", "aab"));
    assert!(!contains("", "a"));
    assert!(opt_is(&Some("a".to_string()), "a"));
    assert!(!opt_is(&Some("a".to_string()), "b"));
    assert!(!opt_is(&None, ""));
    assert_eq!(clone_opt(&Some("x".to_string())), Some("x".to_string()));
    assert_eq!(clone_opt(&None), None);
    assert_eq!(join(&vec![], ", "), "");
    assert_eq!(join(&vec!["a".to_string()], ", "), "a");
    assert_eq!(join(&vec!["a".to_string(), "".to_string(), "c".to_string()], ", "), "a, , c");
}

#[test]
fn project_status_round_trips() {
    let all = [
        (ProjectStatus::Planning, "planning"),
        (ProjectStatus::Active, "active"),
        (ProjectStatus::OnHold, "onhold"),
        (ProjectStatus::Completed, "completed"),
        (ProjectStatus::Cancelled, "cancelled"),
    ];
    for (status, text) in all {
        assert_eq!(status.to_string(), text);
        assert_eq!(ProjectStatus::from_str(text), Ok(status));
        assert_eq!(ProjectStatus::from_str(&status.to_string()), Ok(status));
    }
    assert_eq!(ProjectStatus::from_str("on_hold"), Err("Invalid project status: on_hold".to_string()));
    assert_eq!(ProjectStatus::from_str("Active"), Err("Invalid project status: Active".to_string()));
    assert_eq!(ProjectStatus::from_str(""), Err("Invalid project status: ".to_string()));
}

#[test]
fn task_priority_round_trips() {
    let all = [
        (TaskPriority::Low, "low"),
        (TaskPriority::Medium, "medium"),
        (TaskPriority::High, "high"),
        (TaskPriority::Urgent, "urgent"),
    ];
    for (priority, text) in all {
        assert_eq!(priority.to_string(), text);
        assert_eq!(TaskPriority::from_str(text), Ok(priority));
    }
    assert_eq!(TaskPriority::from_str("critical"), Err("Invalid task priority: critical".to_string()));
    assert_eq!(TaskPriority::default(), TaskPriority::Medium);
}

#[test]
fn status_names_of_the_requests() {
    assert_eq!(GoalStatus::Active.as_str(), "active");
    assert_eq!(GoalStatus::Completed.as_str(), "completed");
    assert_eq!(GoalStatus::Paused.as_str(), "paused");
    assert_eq!(GoalStatus::Cancelled.as_str(), "cancelled");
    assert_eq!(DtoProjectStatus::OnHold.as_str(), "on_hold");
    assert_eq!(DtoProjectStatus::Planning.as_str(), "planning");
    assert_eq!(DtoTaskPriority::Critical.as_str(), "critical");
    assert_eq!(DtoTaskPriority::Low.as_str(), "low");
    assert_eq!(TaskStatus::InProgress.as_str(), "in_progress");
    assert_eq!(TaskStatus::Todo.as_str(), "todo");
}

#[test]
fn new_records() {
    let a = LifeArea::new("Health".to_string());
    assert_eq!(a.name, "Health");
    assert!(uuid::Uuid::parse_str(&a.id).is_ok());
    assert_eq!(a.id.len(), 36);
    assert_eq!(a.created_at, a.updated_at);
    assert!(a.created_at > 1_600_000_000_000_000);
    assert!(!a.is_archived());
    assert_eq!((a.description.clone(), a.color.clone(), a.icon.clone()), (None, None, None));
    assert_ne!(LifeArea::new("x".to_string()).id, a.id);

    let g = Goal::new("L".to_string(), "Run".to_string());
    assert_eq!((g.life_area_id.as_str(), g.title.as_str()), ("L", "Run"));
    assert!(!g.is_completed() && !g.is_archived());
    assert_eq!(g.target_date, None);

    let mut p = Project::new("G".to_string(), "Plan".to_string());
    assert_eq!(p.status, ProjectStatus::Planning);
    assert!(!p.is_active() && !p.is_completed() && !p.is_archived());
    p.status = ProjectStatus::Active;
    assert!(p.is_active());
    p.status = ProjectStatus::Completed;
    assert!(p.is_completed());
    p.status = ProjectStatus::OnHold;
    p.completed_at = Some(1);
    assert!(p.is_completed());
    p.archived_at = Some(2);
    assert!(p.is_archived());

    let t = Task::new("Do".to_string()).with_project("P".to_string()).with_parent("T0".to_string());
    assert_eq!(t.title, "Do");
    assert_eq!(t.project_id, Some("P".to_string()));
    assert_eq!(t.parent_task_id, Some("T0".to_string()));
    assert_eq!(t.priority, TaskPriority::Medium);
    assert!(!t.is_completed() && !t.is_archived() && !t.is_overdue());

    let n = Note::new("T".to_string(), "C".to_string())
        .for_task("t".to_string())
        .for_project("p".to_string())
        .for_goal("g".to_string())
        .for_life_area("l".to_string());
    assert_eq!((n.title.as_str(), n.content.as_str()), ("T", "C"));
    assert_eq!(n.task_id, Some("t".to_string()));
    assert_eq!(n.project_id, Some("p".to_string()));
    assert_eq!(n.goal_id, Some("g".to_string()));
    assert_eq!(n.life_area_id, Some("l".to_string()));
    assert!(!n.is_archived());

    let tag = Tag::new("red".to_string()).with_color("#f00".to_string());
    assert_eq!((tag.name.as_str(), tag.color.clone()), ("red", Some("#f00".to_string())));
    assert_eq!(format!("{:?}", tag.clone()), format!("{:?}", tag));

    let f = TaskFilter::default();
    assert!(f.project_id.is_none() && f.priority.is_none() && f.overdue.is_none());
    let f = ProjectFilter::default();
    assert!(f.goal_id.is_none() && f.status.is_none() && f.archived.is_none());
}

#[test]
fn overdue_is_due_before_now_and_not_completed() {
    let mut t = Task::new("x".to_string());
    assert!(!t.is_overdue_at(i64::MAX));
    t.due_date = Some(100);
    assert!(t.is_overdue_at(101));
    assert!(!t.is_overdue_at(100));
    assert!(!t.is_overdue_at(99));
    assert!(t.is_overdue());
    t.completed_at = Some(5);
    assert!(!t.is_overdue_at(101));
    assert!(!t.is_overdue());
    t.completed_at = None;
    t.due_date = Some(i64::MAX);
    assert!(!t.is_overdue());
}
