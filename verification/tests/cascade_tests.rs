use evorbrain::commands::repository::EntityType;
use evorbrain::db::models::{Goal, LifeArea, Note, Project, Task};
use evorbrain::db::repository::Repository;
use evorbrain::db::rows::InsertOutcome;
use evorbrain::db::store::{DeleteOutcome, Store};
use evorbrain::error::ErrorCode;

fn area(id: &str) -> LifeArea {
    let mut a = LifeArea::new(format!("area {}", id));
    a.id = id.to_string();
    a.created_at = 10;
    a.updated_at = 10;
    a
}

fn goal(id: &str, area: &str) -> Goal {
    let mut g = Goal::new(area.to_string(), format!("goal {}", id));
    g.id = id.to_string();
    g.created_at = 10;
    g.updated_at = 10;
    g
}

fn project(id: &str, goal: &str) -> Project {
    let mut p = Project::new(goal.to_string(), format!("project {}", id));
    p.id = id.to_string();
    p.created_at = 10;
    p.updated_at = 10;
    p
}

fn task(id: &str, project: Option<&str>, parent: Option<&str>) -> Task {
    let mut t = Task::new(format!("task {}", id));
    t.id = id.to_string();
    t.project_id = project.map(|p| p.to_string());
    t.parent_task_id = parent.map(|p| p.to_string());
    t.created_at = 10;
    t.updated_at = 10;
    t
}

fn note(id: &str) -> Note {
    let mut n = Note::new(format!("note {}", id), "text".to_string());
    n.id = id.to_string();
    n.created_at = 10;
    n.updated_at = 10;
    n
}

/// Two life areas; under L1 two goals, under G1 two projects, under Pr1 a
/// chain of tasks three deep, and notes at every level.
fn sample() -> Store {
    let mut s = Store::new();
    assert_eq!(s.insert_life_area(area("L1")), InsertOutcome::Inserted);
    assert_eq!(s.insert_life_area(area("L2")), InsertOutcome::Inserted);
    assert_eq!(s.insert_goal(goal("G1", "L1")), InsertOutcome::Inserted);
    assert_eq!(s.insert_goal(goal("G2", "L1")), InsertOutcome::Inserted);
    assert_eq!(s.insert_goal(goal("G3", "L2")), InsertOutcome::Inserted);
    assert_eq!(s.insert_project(project("Pr1", "G1")), InsertOutcome::Inserted);
    assert_eq!(s.insert_project(project("Pr2", "G1")), InsertOutcome::Inserted);
    assert_eq!(s.insert_project(project("Pr3", "G2")), InsertOutcome::Inserted);
    assert_eq!(s.insert_project(project("Pr4", "G3")), InsertOutcome::Inserted);
    // T3 hangs under T2, which hangs under T1; T3 stands before its parent.
    assert_eq!(s.insert_task(task("T3", None, Some("T2"))), InsertOutcome::Inserted);
    assert_eq!(s.insert_task(task("T1", Some("Pr1"), None)), InsertOutcome::Inserted);
    assert_eq!(s.insert_task(task("T2", None, Some("T1"))), InsertOutcome::Inserted);
    assert_eq!(s.insert_task(task("T4", Some("Pr2"), None)), InsertOutcome::Inserted);
    assert_eq!(s.insert_task(task("T5", Some("Pr3"), None)), InsertOutcome::Inserted);
    assert_eq!(s.insert_task(task("T6", Some("Pr4"), None)), InsertOutcome::Inserted);
    assert_eq!(s.insert_note(note("N-L1").for_life_area("L1".to_string())), InsertOutcome::Inserted);
    assert_eq!(s.insert_note(note("N-G1").for_goal("G1".to_string())), InsertOutcome::Inserted);
    assert_eq!(s.insert_note(note("N-Pr1").for_project("Pr1".to_string())), InsertOutcome::Inserted);
    assert_eq!(s.insert_note(note("N-T3").for_task("T3".to_string())), InsertOutcome::Inserted);
    assert_eq!(s.insert_note(note("N-G3").for_goal("G3".to_string())), InsertOutcome::Inserted);
    assert_eq!(s.insert_note(note("N-free")), InsertOutcome::Inserted);
    s
}

fn stamp(s: &Store, kind: EntityType, id: &str) -> Option<i64> {
    match kind {
        EntityType::LifeArea => s.life_areas.iter().find(|r| r.id == id).unwrap().archived_at,
        EntityType::Goal => s.goals.iter().find(|r| r.id == id).unwrap().archived_at,
        EntityType::Project => s.projects.iter().find(|r| r.id == id).unwrap().archived_at,
        EntityType::Task => s.tasks.iter().find(|r| r.id == id).unwrap().archived_at,
        EntityType::Note => s.notes.iter().find(|r| r.id == id).unwrap().archived_at,
    }
}

fn assert_stamps(s: &Store, kind: EntityType, ids: &[&str], want: Option<i64>) {
    for id in ids {
        assert_eq!(stamp(s, kind, id), want, "{:?} {}", kind, id);
    }
}

#[test]
fn goal_cascade_archives_goal_projects_and_tasks_with_one_stamp() {
    // A life area, a goal under it, a project under the goal, a task under
    // the project.
    let mut s = Store::new();
    s.insert_life_area(area("L"));
    s.insert_goal(goal("G", "L"));
    s.insert_project(project("P", "G"));
    s.insert_task(task("Tk", Some("P"), None));
    let mut repo = Repository::new(s);
    assert!(repo.archive_goal_cascade("G").is_ok());
    let s = repo.into_store();
    assert_eq!(stamp(&s, EntityType::LifeArea, "L"), None);
    let at = stamp(&s, EntityType::Goal, "G");
    assert!(at.is_some());
    assert_eq!(stamp(&s, EntityType::Project, "P"), at);
    assert_eq!(stamp(&s, EntityType::Task, "Tk"), at);
    assert_eq!(s.goals[0].updated_at, at.unwrap());
    assert_eq!(s.projects[0].updated_at, at.unwrap());
    assert_eq!(s.tasks[0].updated_at, at.unwrap());
}

#[test]
fn life_area_cascade_reaches_every_level_and_its_notes() {
    let mut s = sample();
    assert!(s.archive_cascade(EntityType::LifeArea, "L1", 500));
    assert_stamps(&s, EntityType::LifeArea, &["L1"], Some(500));
    assert_stamps(&s, EntityType::LifeArea, &["L2"], None);
    assert_stamps(&s, EntityType::Goal, &["G1", "G2"], Some(500));
    assert_stamps(&s, EntityType::Goal, &["G3"], None);
    assert_stamps(&s, EntityType::Project, &["Pr1", "Pr2", "Pr3"], Some(500));
    assert_stamps(&s, EntityType::Project, &["Pr4"], None);
    assert_stamps(&s, EntityType::Task, &["T1", "T2", "T3", "T4", "T5"], Some(500));
    assert_stamps(&s, EntityType::Task, &["T6"], None);
    assert_stamps(&s, EntityType::Note, &["N-L1", "N-G1", "N-Pr1", "N-T3"], Some(500));
    assert_stamps(&s, EntityType::Note, &["N-G3", "N-free"], None);
    // updated_at moves with the stamp, and only where a row was archived
    assert!(s.tasks.iter().all(|t| t.updated_at == if t.id == "T6" { 10 } else { 500 }));
}

#[test]
fn task_cascade_follows_parent_links_to_any_depth() {
    let mut s = sample();
    assert!(s.archive_cascade(EntityType::Task, "T1", 77));
    assert_stamps(&s, EntityType::Task, &["T1", "T2", "T3"], Some(77));
    assert_stamps(&s, EntityType::Task, &["T4", "T5", "T6"], None);
    assert_stamps(&s, EntityType::Note, &["N-T3"], Some(77));
    assert_stamps(&s, EntityType::Note, &["N-L1", "N-G1", "N-Pr1", "N-G3", "N-free"], None);
    assert_stamps(&s, EntityType::Project, &["Pr1", "Pr2", "Pr3", "Pr4"], None);
    assert_stamps(&s, EntityType::Goal, &["G1", "G2", "G3"], None);
    assert_stamps(&s, EntityType::LifeArea, &["L1", "L2"], None);
}

#[test]
fn project_cascade_leaves_goal_and_siblings_alone() {
    let mut s = sample();
    assert!(s.archive_cascade(EntityType::Project, "Pr1", 9));
    assert_stamps(&s, EntityType::Project, &["Pr1"], Some(9));
    assert_stamps(&s, EntityType::Project, &["Pr2", "Pr3", "Pr4"], None);
    assert_stamps(&s, EntityType::Task, &["T1", "T2", "T3"], Some(9));
    assert_stamps(&s, EntityType::Task, &["T4", "T5", "T6"], None);
    assert_stamps(&s, EntityType::Note, &["N-Pr1", "N-T3"], Some(9));
    assert_stamps(&s, EntityType::Note, &["N-L1", "N-G1", "N-G3", "N-free"], None);
    assert_stamps(&s, EntityType::Goal, &["G1", "G2", "G3"], None);
}

#[test]
fn note_cascade_archives_the_note_alone() {
    let mut s = sample();
    let before = format!("{:?}", s.tasks);
    assert!(s.archive_cascade(EntityType::Note, "N-free", 3));
    assert_stamps(&s, EntityType::Note, &["N-free"], Some(3));
    assert_stamps(&s, EntityType::Note, &["N-L1", "N-G1", "N-Pr1", "N-T3", "N-G3"], None);
    assert_eq!(format!("{:?}", s.tasks), before);
}

#[test]
fn cascade_keeps_the_stamp_of_rows_archived_before() {
    let mut s = sample();
    assert!(s.archive_cascade(EntityType::Project, "Pr1", 100));
    assert!(s.archive_cascade(EntityType::Goal, "G1", 200));
    // what the first cascade archived keeps its stamp and its updated_at
    assert_stamps(&s, EntityType::Project, &["Pr1"], Some(100));
    assert_stamps(&s, EntityType::Task, &["T1", "T2", "T3"], Some(100));
    assert_stamps(&s, EntityType::Note, &["N-Pr1", "N-T3"], Some(100));
    assert_eq!(s.projects.iter().find(|p| p.id == "Pr1").unwrap().updated_at, 100);
    // what was left gets the new stamp; links are followed through archived rows
    assert_stamps(&s, EntityType::Goal, &["G1"], Some(200));
    assert_stamps(&s, EntityType::Project, &["Pr2"], Some(200));
    assert_stamps(&s, EntityType::Task, &["T4"], Some(200));
    assert_stamps(&s, EntityType::Note, &["N-G1"], Some(200));
}

#[test]
fn cascade_on_missing_id_is_not_found_and_changes_nothing() {
    let s = sample();
    let before = format!("{:?}", s);
    let mut repo = Repository::new(s);
    let e = repo.archive_goal_cascade("nope").unwrap_err();
    assert_eq!(e.code, ErrorCode::NotFound);
    assert_eq!(e.message, "Goal with id 'nope' not found");
    assert_eq!(e.details, None);
    let e = repo.delete_life_area("G1").unwrap_err();
    assert_eq!(e.message, "Life area with id 'G1' not found");
    let e = repo.archive_project_cascade("T1").unwrap_err();
    assert_eq!(e.message, "Project with id 'T1' not found");
    let e = repo.archive_task_cascade("Pr1").unwrap_err();
    assert_eq!(e.message, "Task with id 'Pr1' not found");
    let e = repo.archive_note("").unwrap_err();
    assert_eq!(e.message, "Note with id '' not found");
    assert_eq!(format!("{:?}", repo.store()), before);
}

#[test]
fn cascade_on_archived_root_is_not_found_and_changes_nothing() {
    let mut s = sample();
    assert!(s.archive_cascade(EntityType::Goal, "G1", 100));
    let before = format!("{:?}", s);
    assert!(!s.archive_cascade(EntityType::Goal, "G1", 200));
    assert_eq!(format!("{:?}", s), before);
    let mut repo = Repository::new(s);
    assert_eq!(repo.archive_goal_cascade("G1").unwrap_err().code, ErrorCode::NotFound);
    assert_eq!(format!("{:?}", repo.store()), before);
}

#[test]
fn restore_after_cascade_reopens_only_the_root() {
    let mut s = sample();
    assert!(s.archive_cascade(EntityType::Goal, "G1", 100));
    assert!(s.restore(EntityType::Goal, "G1", 150));
    assert_stamps(&s, EntityType::Goal, &["G1"], None);
    assert_eq!(s.goals.iter().find(|g| g.id == "G1").unwrap().updated_at, 150);
    assert_stamps(&s, EntityType::Project, &["Pr1", "Pr2"], Some(100));
    assert_stamps(&s, EntityType::Task, &["T1", "T2", "T3", "T4"], Some(100));
    assert_stamps(&s, EntityType::Note, &["N-G1", "N-Pr1", "N-T3"], Some(100));
    assert_eq!(s.projects.iter().find(|p| p.id == "Pr1").unwrap().updated_at, 100);
}

#[test]
fn restore_of_a_row_that_is_not_archived_is_not_found() {
    let s = sample();
    let before = format!("{:?}", s);
    let mut repo = Repository::new(s);
    let e = repo.restore_life_area("L1").unwrap_err();
    assert_eq!(e.code, ErrorCode::NotFound);
    assert_eq!(e.message, "Archived life area with id 'L1' not found");
    let e = repo.restore(EntityType::Task, "missing").unwrap_err();
    assert_eq!(e.message, "Archived task with id 'missing' not found");
    assert_eq!(format!("{:?}", repo.store()), before);
    assert!(repo.delete_life_area("L2").is_ok());
    let back = repo.restore_life_area("L2").unwrap();
    assert_eq!(back.id, "L2");
    assert_eq!(back.archived_at, None);
    // the goal under it stays archived
    assert!(stamp(repo.store(), EntityType::Goal, "G3").is_some());
}

#[test]
fn hard_delete_is_blocked_by_dependents_and_reports_their_number() {
    let s = sample();
    let before = format!("{:?}", s);
    let mut repo = Repository::new(s);
    // L1: two goals and one note
    let e = repo.hard_delete(EntityType::LifeArea, "L1").unwrap_err();
    assert_eq!(e.code, ErrorCode::CannotDelete);
    assert_eq!(e.message, "Life area with id 'L1' cannot be deleted: 3 dependent record(s) exist");
    // Pr1: one task and one note
    let e = repo.hard_delete(EntityType::Project, "Pr1").unwrap_err();
    assert_eq!(e.message, "Project with id 'Pr1' cannot be deleted: 2 dependent record(s) exist");
    // T1: one task under it
    let e = repo.hard_delete(EntityType::Task, "T1").unwrap_err();
    assert_eq!(e.message, "Task with id 'T1' cannot be deleted: 1 dependent record(s) exist");
    assert_eq!(format!("{:?}", repo.store()), before);
    assert_eq!(repo.store().count_dependents(EntityType::Goal, "G1"), 3);
}

#[test]
fn hard_delete_removes_a_row_without_dependents() {
    let mut s = sample();
    assert_eq!(s.hard_delete(EntityType::Task, "T4"), DeleteOutcome::Deleted);
    assert!(s.tasks.iter().all(|t| t.id != "T4"));
    assert_eq!(s.tasks.len(), 5);
    assert_eq!(s.hard_delete(EntityType::Task, "T4"), DeleteOutcome::NotFound);
    assert_eq!(s.hard_delete(EntityType::Project, "Pr2"), DeleteOutcome::Deleted);
    assert_eq!(s.hard_delete(EntityType::Note, "N-T3"), DeleteOutcome::Deleted);
    assert_eq!(s.hard_delete(EntityType::Task, "T3"), DeleteOutcome::Deleted);
    assert_eq!(s.hard_delete(EntityType::Goal, "G1"), DeleteOutcome::Blocked(2));
    let mut repo = Repository::new(s);
    let e = repo.hard_delete(EntityType::Goal, "zzz").unwrap_err();
    assert_eq!(e.code, ErrorCode::NotFound);
    assert_eq!(e.message, "Goal with id 'zzz' not found");
}

#[test]
fn cascade_targets_name_the_rows_to_archive() {
    let mut s = sample();
    assert!(s.archive_cascade(EntityType::Project, "Pr1", 100));
    let t = s.cascade_targets(EntityType::Goal, "G1").unwrap();
    assert!(t.life_areas.is_empty());
    assert_eq!(t.goals, vec!["G1"]);
    assert_eq!(t.projects, vec!["Pr2"]);
    assert_eq!(t.tasks, vec!["T4"]);
    assert_eq!(t.notes, vec!["N-G1"]);
    assert!(s.cascade_targets(EntityType::Goal, "missing").is_none());
    assert!(s.cascade_targets(EntityType::Project, "Pr1").is_none());
    let sel = s.select(EntityType::Task, "T2");
    assert_eq!(sel.tasks, vec![true, false, true, false, false, false]);
    assert_eq!(sel.notes, vec![false, false, false, true, false, false]);
}

#[test]
fn insert_refuses_a_taken_identity() {
    let mut s = sample();
    let before = format!("{:?}", s);
    assert_eq!(s.insert_goal(goal("G1", "L2")), InsertOutcome::Duplicate);
    assert_eq!(s.insert_task(task("T3", None, None)), InsertOutcome::Duplicate);
    assert_eq!(format!("{:?}", s), before);
    // the same identity in another table is no clash
    assert_eq!(s.insert_note(note("G1")), InsertOutcome::Inserted);
    assert_eq!(s.count_rows(), 22);
}
