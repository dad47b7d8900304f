use evorbrain::commands::goals::{delete_goal, restore_goal};
use evorbrain::commands::life_areas::{
    check_id, create_life_area, delete_life_area, get_life_area, get_life_areas, id_verdict,
    restore_life_area, update_life_area, CreateLifeAreaRequest, UpdateLifeAreaRequest,
};
use evorbrain::commands::notes::{delete_note, restore_note, search_pattern};
use evorbrain::commands::projects::{delete_project, restore_project};
use evorbrain::commands::repository::{
    batch_delete, batch_report, check_batch_supported, check_repository_health, cleanup_database, cleanup_database_at, cleanup_report,
    cutoff, get_database_stats, BatchDeleteRequest, CleanupOptions, EntityType,
};
use evorbrain::commands::tasks::{
    complete_task, create_task_with_subtasks, delete_task, restore_task, subtask_from_request,
    task_from_request, todays_bounds, CreateTaskRequest, CreateTaskWithSubtasksRequest,
};
use evorbrain::db::models::{Goal, LifeArea, Note, Project, Task, TaskPriority};
use evorbrain::db::repository::{archived_name_of, blocked_error, name_of, Repository};
use evorbrain::db::rows::{count_rows_by_state, find_row, remove_stale, InsertOutcome};
use evorbrain::db::store::Store;
use evorbrain::error::ErrorCode;

const L1: &str = "11111111-1111-1111-1111-111111111111";
const L2: &str = "22222222-2222-2222-2222-222222222222";

fn area(id: &str, created: i64, archived: Option<i64>) -> LifeArea {
    LifeArea {
        id: id.to_string(),
        name: format!("area {}", id),
        description: None,
        color: None,
        icon: None,
        created_at: created,
        updated_at: created,
        archived_at: archived,
    }
}

fn task(id: &str, project: Option<&str>, parent: Option<&str>) -> Task {
    let mut t = Task::new(format!("task {}", id));
    t.id = id.to_string();
    t.project_id = project.map(|p| p.to_string());
    t.parent_task_id = parent.map(|p| p.to_string());
    t
}

fn hierarchy() -> Repository {
    let mut s = Store::new();
    s.insert_life_area(area(L1, 1, None));
    s.insert_life_area(area(L2, 2, None));
    let mut g = Goal::new(L1.to_string(), "g".to_string());
    g.id = "G".to_string();
    s.insert_goal(g);
    let mut p = Project::new("G".to_string(), "p".to_string());
    p.id = "P".to_string();
    s.insert_project(p);
    s.insert_task(task("T", Some("P"), None));
    s.insert_task(task("T-sub", None, Some("T")));
    let mut n = Note::new("n".to_string(), "c".to_string()).for_task("T-sub".to_string());
    n.id = "N".to_string();
    s.insert_note(n);
    Repository::new(s)
}

#[test]
fn create_life_area_adds_a_fresh_row() {
    let mut repo = Repository::new(Store::new());
    let a = repo
        .create_life_area("Health".to_string(), Some("d".to_string()), Some("#fff".to_string()), None)
        .unwrap();
    assert_eq!(a.name, "Health");
    assert_eq!(a.description, Some("d".to_string()));
    assert_eq!(a.color, Some("#fff".to_string()));
    assert_eq!(a.icon, None);
    assert_eq!(a.archived_at, None);
    assert_eq!(a.created_at, a.updated_at);
    assert!(uuid::Uuid::parse_str(&a.id).is_ok());
    assert_eq!(repo.store().life_areas.len(), 1);
    assert_eq!(format!("{:?}", repo.store().life_areas[0]), format!("{:?}", a));
    let b = repo.create_life_area("Work".to_string(), None, None, None).unwrap();
    assert_ne!(a.id, b.id);
    let e = repo
        .create_life_area_with(a.id.clone(), 5, "Again".to_string(), None, None, None)
        .unwrap_err();
    assert_eq!(e.code, ErrorCode::AlreadyExists);
    assert_eq!(e.message, "Resource already exists");
    assert_eq!(repo.store().life_areas.len(), 2);
    let c = repo.create_life_area_with("fixed".to_string(), 5, "C".to_string(), None, None, Some("i".to_string())).unwrap();
    assert_eq!((c.id.as_str(), c.created_at, c.updated_at), ("fixed", 5, 5));
    assert_eq!(c.icon, Some("i".to_string()));
}

#[test]
fn life_areas_are_listed_newest_first_without_archived_ones() {
    let mut s = Store::new();
    s.insert_life_area(area("a", 5, None));
    s.insert_life_area(area("b", 9, None));
    s.insert_life_area(area("c", 7, Some(8)));
    s.insert_life_area(area("d", 1, None));
    s.insert_life_area(area("e", 9, None));
    let repo = Repository::new(s);
    let ids: Vec<String> = repo.get_life_areas().unwrap().into_iter().map(|a| a.id).collect();
    assert_eq!(ids, vec!["b", "e", "a", "d"]);
    assert_eq!(repo.get_life_area("c").unwrap().archived_at, Some(8));
    let e = repo.get_life_area("zz").unwrap_err();
    assert_eq!(e.code, ErrorCode::NotFound);
    assert_eq!(e.message, "Life area with id 'zz' not found");
    assert_eq!(get_life_areas(&repo).unwrap().len(), 4);
}

#[test]
fn update_life_area_changes_a_live_row_only() {
    let mut s = Store::new();
    s.insert_life_area(area("a", 5, None));
    s.insert_life_area(area("b", 6, Some(7)));
    let mut repo = Repository::new(s);
    let a = repo
        .update_life_area_at("a", "New".to_string(), Some("d".to_string()), None, Some("i".to_string()), 50)
        .unwrap();
    assert_eq!(a.name, "New");
    assert_eq!(a.description, Some("d".to_string()));
    assert_eq!(a.icon, Some("i".to_string()));
    assert_eq!(a.updated_at, 50);
    assert_eq!(a.created_at, 5);
    // an archived row is read back unchanged
    let b = repo.update_life_area_at("b", "New".to_string(), None, None, None, 60).unwrap();
    assert_eq!(b.name, "area b");
    assert_eq!(b.updated_at, 6);
    let e = repo.update_life_area("c", "New".to_string(), None, None, None).unwrap_err();
    assert_eq!(e.code, ErrorCode::NotFound);
    let a = repo.update_life_area("a", "Newer".to_string(), None, None, None).unwrap();
    assert_eq!(a.name, "Newer");
    assert_eq!(a.description, None);
}

#[test]
fn task_family_is_added_whole_or_not_at_all() {
    let mut repo = hierarchy();
    let mut main = task("M", Some("P"), None);
    main.completed_at = Some(1);
    main.archived_at = Some(2);
    let mut sub = task("S1", None, Some("other"));
    sub.archived_at = Some(3);
    let id = repo.create_task_with_subtasks(main, vec![sub, task("S2", Some("Q"), None)]).unwrap();
    assert_eq!(id, "M");
    let tasks = &repo.store().tasks;
    assert_eq!(tasks.len(), 5);
    assert_eq!(tasks[2].id, "M");
    assert_eq!(tasks[2].parent_task_id, None);
    // a new row is neither completed nor archived
    assert_eq!((tasks[2].completed_at, tasks[2].archived_at), (None, None));
    assert_eq!(tasks[3].id, "S1");
    assert_eq!(tasks[3].parent_task_id, Some("M".to_string()));
    assert_eq!(tasks[3].archived_at, None);
    assert_eq!(tasks[4].parent_task_id, Some("M".to_string()));
    assert_eq!(tasks[4].project_id, Some("Q".to_string()));
    let before = format!("{:?}", repo.store());
    for (m, subs) in [
        (task("T", None, None), vec![]),
        (task("X", None, None), vec![task("S1", None, None)]),
        (task("X", None, None), vec![task("X", None, None)]),
        (task("X", None, None), vec![task("Y", None, None), task("Z", None, None), task("Y", None, None)]),
    ] {
        let e = repo.create_task_with_subtasks(m, subs).unwrap_err();
        assert_eq!(e.code, ErrorCode::AlreadyExists);
        assert_eq!(format!("{:?}", repo.store()), before);
    }
}

#[test]
fn complete_task_stamps_the_task() {
    let mut repo = hierarchy();
    assert!(repo.complete_task_at("T", 33).is_ok());
    let t = find_row(&repo.store().tasks, "T").unwrap();
    assert_eq!((t.completed_at, t.updated_at), (Some(33), 33));
    assert!(t.is_completed());
    let other = find_row(&repo.store().tasks, "T-sub").unwrap();
    assert_eq!(other.completed_at, None);
    let before = format!("{:?}", repo.store());
    assert!(repo.complete_task("missing").is_ok());
    assert_eq!(format!("{:?}", repo.store()), before);
    assert!(complete_task(&mut repo, "T-sub".to_string()).is_ok());
    assert!(find_row(&repo.store().tasks, "T-sub").unwrap().completed_at.is_some());
}

#[test]
fn life_area_commands_check_the_identifier() {
    let mut repo = hierarchy();
    let before = format!("{:?}", repo.store());
    let e = get_life_area(&repo, "nope".to_string()).unwrap_err();
    assert_eq!(e.code, ErrorCode::InvalidId);
    assert_eq!(e.message, "Invalid ID format: 'nope'");
    assert_eq!(delete_life_area(&mut repo, "nope".to_string()).unwrap_err().code, ErrorCode::InvalidId);
    assert_eq!(restore_life_area(&mut repo, "".to_string()).unwrap_err().code, ErrorCode::InvalidId);
    let bad = UpdateLifeAreaRequest { id: "x".to_string(), name: "n".to_string(), description: None, color: None, icon: None };
    assert_eq!(update_life_area(&mut repo, bad).unwrap_err().code, ErrorCode::InvalidId);
    assert_eq!(format!("{:?}", repo.store()), before);
    assert_eq!(get_life_area(&repo, L1.to_string()).unwrap().id, L1);
    let missing = "33333333-3333-3333-3333-333333333333";
    assert_eq!(get_life_area(&repo, missing.to_string()).unwrap_err().code, ErrorCode::NotFound);
    let ok = UpdateLifeAreaRequest { id: L2.to_string(), name: "n".to_string(), description: None, color: Some("#000".to_string()), icon: None };
    let a = update_life_area(&mut repo, ok).unwrap();
    assert_eq!((a.name.as_str(), a.color), ("n", Some("#000".to_string())));
    assert!(check_id(L1).is_ok());
    assert!(id_verdict(true, "anything").is_ok());
    assert_eq!(id_verdict(false, "q").unwrap_err().message, "Invalid ID format: 'q'");
    let made = create_life_area(
        &mut repo,
        CreateLifeAreaRequest { name: "N".to_string(), description: None, color: None, icon: Some("i".to_string()) },
    )
    .unwrap();
    assert_eq!(made.icon, Some("i".to_string()));
    assert_eq!(repo.store().life_areas.len(), 3);
}

#[test]
fn delete_and_restore_commands() {
    let mut repo = hierarchy();
    assert!(delete_life_area(&mut repo, L1.to_string()).is_ok());
    let s = repo.store();
    let at = s.life_areas[0].archived_at;
    assert!(at.is_some());
    assert_eq!(s.life_areas[1].archived_at, None);
    assert_eq!(s.goals[0].archived_at, at);
    assert_eq!(s.projects[0].archived_at, at);
    assert_eq!(s.tasks[0].archived_at, at);
    assert_eq!(s.tasks[1].archived_at, at);
    assert_eq!(s.notes[0].archived_at, at);
    assert_eq!(delete_goal(&mut repo, "G".to_string()).unwrap_err().code, ErrorCode::NotFound);
    let g = restore_goal(&mut repo, "G".to_string()).unwrap();
    assert_eq!((g.id.as_str(), g.archived_at), ("G", None));
    assert_eq!(repo.store().projects[0].archived_at, at);
    let p = restore_project(&mut repo, "P".to_string()).unwrap();
    assert_eq!(p.archived_at, None);
    let t = restore_task(&mut repo, "T".to_string()).unwrap();
    assert_eq!(t.archived_at, None);
    assert_eq!(repo.store().tasks[1].archived_at, at);
    let n = restore_note(&mut repo, "N".to_string()).unwrap();
    assert_eq!(n.archived_at, None);
    let a = restore_life_area(&mut repo, L1.to_string()).unwrap();
    assert_eq!(a.archived_at, None);
    assert_eq!(restore_goal(&mut repo, "G".to_string()).unwrap_err().message, "Archived goal with id 'G' not found");
    assert!(delete_note(&mut repo, "N".to_string()).is_ok());
    assert!(delete_task(&mut repo, "T".to_string()).is_ok());
    assert!(delete_project(&mut repo, "P".to_string()).is_ok());
    assert!(delete_goal(&mut repo, "G".to_string()).is_ok());
    assert_eq!(delete_project(&mut repo, "P".to_string()).unwrap_err().message, "Project with id 'P' not found");
    assert_eq!(search_pattern("a%b"), "%a%b%");
    assert_eq!(search_pattern(""), "%%");
}

#[test]
fn tasks_are_built_from_requests() {
    let request = |title: &str, project: Option<&str>, priority: Option<TaskPriority>| CreateTaskRequest {
        project_id: project.map(|p| p.to_string()),
        parent_task_id: Some("ignored for subtasks".to_string()),
        title: title.to_string(),
        description: Some("d".to_string()),
        priority,
        due_date: Some(9),
    };
    let main = task_from_request(&request("main", Some("P"), None), "id-1".to_string(), 7);
    assert_eq!(main.id, "id-1");
    assert_eq!(main.project_id, Some("P".to_string()));
    assert_eq!(main.parent_task_id, Some("ignored for subtasks".to_string()));
    assert_eq!(main.priority, TaskPriority::Medium);
    assert_eq!((main.created_at, main.updated_at, main.due_date), (7, 7, Some(9)));
    assert_eq!((main.completed_at, main.archived_at), (None, None));
    let sub = subtask_from_request(&request("sub", None, Some(TaskPriority::Urgent)), "id-2".to_string(), 8, &main);
    assert_eq!(sub.project_id, Some("P".to_string()));
    assert_eq!(sub.parent_task_id, Some("id-1".to_string()));
    assert_eq!(sub.priority, TaskPriority::Urgent);
    let sub = subtask_from_request(&request("sub", Some("Q"), None), "id-3".to_string(), 8, &main);
    assert_eq!(sub.project_id, Some("Q".to_string()));

    let mut repo = hierarchy();
    let made = create_task_with_subtasks(
        &mut repo,
        CreateTaskWithSubtasksRequest {
            task: CreateTaskRequest { parent_task_id: None, ..request("main", Some("P"), Some(TaskPriority::High)) },
            subtasks: vec![request("s1", None, None), request("s2", Some("Q"), None)],
        },
    )
    .unwrap();
    assert_eq!(made.title, "main");
    assert_eq!(made.priority, TaskPriority::High);
    let tasks = &repo.store().tasks;
    assert_eq!(tasks.len(), 5);
    assert_eq!(format!("{:?}", tasks[2]), format!("{:?}", made));
    assert_eq!(tasks[3].parent_task_id, Some(made.id.clone()));
    assert_eq!(tasks[3].project_id, Some("P".to_string()));
    assert_eq!(tasks[4].parent_task_id, Some(made.id.clone()));
    assert_eq!(tasks[4].project_id, Some("Q".to_string()));
    assert_eq!(tasks[3].created_at, made.created_at);
    assert_ne!(tasks[3].id, tasks[4].id);
}

#[test]
fn day_bounds() {
    let day: i64 = 86_400_000_000;
    assert_eq!(todays_bounds(0), Some((0, day - 1_000_000)));
    assert_eq!(todays_bounds(day - 1), Some((0, day - 1_000_000)));
    assert_eq!(todays_bounds(day), Some((day, 2 * day - 1_000_000)));
    assert_eq!(todays_bounds(-1), Some((-day, -1_000_000)));
    assert_eq!(todays_bounds(-day), Some((-day, -1_000_000)));
    assert_eq!(todays_bounds(i64::MIN), None);
    assert_eq!(todays_bounds(i64::MAX), None);
    let now = chrono::Utc::now();
    let start = now.date_naive().and_hms_opt(0, 0, 0).unwrap().and_utc().timestamp_micros();
    let end = now.date_naive().and_hms_opt(23, 59, 59).unwrap().and_utc().timestamp_micros();
    assert_eq!(todays_bounds(now.timestamp_micros()), Some((start, end)));
}

#[test]
fn batch_delete_stops_at_the_first_failure() {
    let mut repo = hierarchy();
    let r = batch_delete(&mut repo, BatchDeleteRequest { entity_type: EntityType::LifeArea, ids: vec![L2.to_string(), L1.to_string()] }).unwrap();
    assert!(r.success);
    assert_eq!(r.message, "Successfully deleted 2 items");
    assert_eq!(r.affected_rows, Some(2));
    assert!(repo.store().life_areas.iter().all(|a| a.archived_at.is_some()));

    let mut repo = hierarchy();
    let e = batch_delete(&mut repo, BatchDeleteRequest { entity_type: EntityType::LifeArea, ids: vec![L2.to_string(), "gone".to_string(), L1.to_string()] }).unwrap_err();
    assert_eq!(e.code, ErrorCode::NotFound);
    assert_eq!(e.message, "Life area with id 'gone' not found");
    // what came before the failure stays archived, what came after is untouched
    assert!(repo.store().life_areas[1].archived_at.is_some());
    assert_eq!(repo.store().life_areas[0].archived_at, None);

    let r = batch_delete(&mut repo, BatchDeleteRequest { entity_type: EntityType::Project, ids: vec!["P".to_string()] }).unwrap();
    assert_eq!(r.message, "Successfully deleted 1 items");
    assert!(repo.store().tasks.iter().all(|t| t.archived_at.is_some()));
    let r = batch_delete(&mut repo, BatchDeleteRequest { entity_type: EntityType::Project, ids: vec![] }).unwrap();
    assert_eq!((r.message.as_str(), r.affected_rows), ("Successfully deleted 0 items", Some(0)));

    let before = format!("{:?}", repo.store());
    for (kind, message) in [
        (EntityType::Task, "Task batch delete not yet implemented"),
        (EntityType::Goal, "Batch delete not implemented for Goal"),
        (EntityType::Note, "Batch delete not implemented for Note"),
    ] {
        let e = batch_delete(&mut repo, BatchDeleteRequest { entity_type: kind, ids: vec!["G".to_string()] }).unwrap_err();
        assert_eq!(e.code, ErrorCode::InternalError);
        assert_eq!(e.message, message);
    }
    assert_eq!(format!("{:?}", repo.store()), before);
    assert!(check_batch_supported(EntityType::LifeArea).is_ok());
    assert!(check_batch_supported(EntityType::Project).is_ok());
    assert_eq!(check_batch_supported(EntityType::Task).unwrap_err().message, "Task batch delete not yet implemented");
    let r = batch_report(12);
    assert_eq!((r.success, r.message.as_str(), r.affected_rows), (true, "Successfully deleted 12 items", Some(12)));
}

#[test]
fn stats_count_live_and_archived_rows() {
    let mut repo = hierarchy();
    let r = check_repository_health(&repo).unwrap();
    assert_eq!((r.success, r.message.as_str(), r.affected_rows), (true, "Repository is healthy", None));
    let s = get_database_stats(&repo).unwrap();
    assert_eq!(
        (s.life_areas_count, s.goals_count, s.projects_count, s.tasks_count, s.notes_count, s.archived_items_count),
        (2, 1, 1, 2, 1, 0)
    );
    assert!(repo.archive_cascade_at(EntityType::Project, "P", 10).is_ok());
    let s = get_database_stats(&repo).unwrap();
    assert_eq!(
        (s.life_areas_count, s.goals_count, s.projects_count, s.tasks_count, s.notes_count, s.archived_items_count),
        (2, 1, 0, 0, 0, 4)
    );
    assert_eq!(count_rows_by_state(&repo.store().tasks, true), 2);
}

#[test]
fn cleanup_removes_stale_rows_and_reports() {
    let day: i64 = 86_400_000_000;
    let now = 100 * day;
    let mut repo = hierarchy();
    assert!(repo.archive_cascade_at(EntityType::Task, "T-sub", now - 31 * day).is_ok());
    assert!(repo.archive_cascade_at(EntityType::Project, "P", now - 29 * day).is_ok());
    assert!(repo.archive_cascade_at(EntityType::LifeArea, L2, now - 30 * day - 1).is_ok());
    let options = CleanupOptions { delete_archived_older_than_days: Some(30), vacuum_database: true };
    let r = cleanup_database_at(&mut repo, options, now).unwrap();
    assert!(r.success);
    assert_eq!(r.message, "Deleted 1 archived life areas, Deleted 1 archived tasks, Deleted 1 archived notes, Database vacuumed successfully");
    assert_eq!(r.affected_rows, Some(3));
    let s = repo.store();
    assert_eq!(s.life_areas.len(), 1);
    assert_eq!(s.tasks.len(), 1);
    assert_eq!(s.tasks[0].id, "T");
    assert!(s.notes.is_empty());
    assert_eq!(s.projects.len(), 1);
    let r = cleanup_database_at(&mut repo, options, now).unwrap();
    assert_eq!((r.message.as_str(), r.affected_rows), ("Database vacuumed successfully", None));
    let none = CleanupOptions { delete_archived_older_than_days: None, vacuum_database: false };
    let r = cleanup_database_at(&mut repo, none, i64::MAX).unwrap();
    assert_eq!((r.message.as_str(), r.affected_rows), ("No cleanup operations performed", None));
    // archived exactly at the cutoff is not stale
    let exact = CleanupOptions { delete_archived_older_than_days: Some(29), vacuum_database: false };
    let r = cleanup_database_at(&mut repo, exact, now).unwrap();
    assert_eq!(r.message, "No cleanup operations performed");
    let r = cleanup_database_at(&mut repo, exact, now + 1).unwrap();
    assert_eq!(r.message, "Deleted 1 archived projects, Deleted 1 archived tasks");
    assert_eq!(r.affected_rows, Some(2));
    let r = cleanup_database(&mut repo, CleanupOptions { delete_archived_older_than_days: Some(u32::MAX), vacuum_database: false }).unwrap();
    assert_eq!(r.message, "No cleanup operations performed");
    assert_eq!(cutoff(0, 1), -day);
    assert_eq!(cutoff(i64::MIN, 1), i64::MIN);
    assert_eq!(cutoff(5, 0), 5);
    assert_eq!(cutoff(0, u32::MAX), i64::MIN);
    let r = cleanup_report(&vec![0, 12, 0, 0, 3], false);
    assert_eq!(r.message, "Deleted 12 archived goals, Deleted 3 archived notes");
    assert_eq!(r.affected_rows, Some(15));
    let mut rows = vec![area("a", 1, Some(5)), area("b", 1, None), area("c", 1, Some(4)), area("d", 1, Some(3))];
    assert_eq!(remove_stale(&mut rows, 5), 2);
    assert_eq!(rows.iter().map(|r| r.id.as_str()).collect::<Vec<_>>(), vec!["a", "b"]);
}

#[test]
fn names_and_conflicts() {
    assert_eq!(name_of(EntityType::LifeArea), "Life area");
    assert_eq!(name_of(EntityType::Note), "Note");
    assert_eq!(archived_name_of(EntityType::Project), "Archived project");
    let e = blocked_error(EntityType::Goal, "g", 1234567890);
    assert_eq!(e.code, ErrorCode::CannotDelete);
    assert_eq!(e.message, "Goal with id 'g' cannot be deleted: 1234567890 dependent record(s) exist");
    let mut s = Store::new();
    assert_eq!(s.insert_life_area(area("a", 1, None)), InsertOutcome::Inserted);
    assert_eq!(s.count_rows(), 1);
}
