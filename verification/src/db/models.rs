//! The records of the hierarchy: life areas, goals, projects, tasks and
//! notes, with tags beside them. A point in time is an `i64`, microseconds
//! since the Unix epoch.

use vstd::prelude::*;
use vstd::string::StringExecFns;
use crate::clock::now_micros;
use crate::commands::repository::EntityType;
use crate::db::record::Record;
use crate::ids::random_uuid;
use crate::text::{clone_opt, opt_is, opt_view, str_eq};

verus! {

/// A life area: the top of the hierarchy.
#[derive(Debug)]
pub struct LifeArea {
    pub id: String,
    pub name: String,
    pub description: Option<String>,
    pub color: Option<String>,
    pub icon: Option<String>,
    pub created_at: i64,
    pub updated_at: i64,
    pub archived_at: Option<i64>,
}

/// A goal of a life area.
#[derive(Debug)]
pub struct Goal {
    pub id: String,
    pub life_area_id: String,
    pub title: String,
    pub description: Option<String>,
    pub target_date: Option<i64>,
    pub created_at: i64,
    pub updated_at: i64,
    pub completed_at: Option<i64>,
    pub archived_at: Option<i64>,
}

/// A project of a goal.
#[derive(Debug)]
pub struct Project {
    pub id: String,
    pub goal_id: String,
    pub title: String,
    pub description: Option<String>,
    pub status: ProjectStatus,
    pub created_at: i64,
    pub updated_at: i64,
    pub completed_at: Option<i64>,
    pub archived_at: Option<i64>,
}

/// A task of a project, or under another task.
#[derive(Debug)]
pub struct Task {
    pub id: String,
    pub project_id: Option<String>,
    pub parent_task_id: Option<String>,
    pub title: String,
    pub description: Option<String>,
    pub priority: TaskPriority,
    pub due_date: Option<i64>,
    pub created_at: i64,
    pub updated_at: i64,
    pub completed_at: Option<i64>,
    pub archived_at: Option<i64>,
}

/// A note, attached to a task, a project, a goal or a life area, or to nothing.
#[derive(Debug)]
pub struct Note {
    pub id: String,
    pub task_id: Option<String>,
    pub project_id: Option<String>,
    pub goal_id: Option<String>,
    pub life_area_id: Option<String>,
    pub title: String,
    pub content: String,
    pub created_at: i64,
    pub updated_at: i64,
    pub archived_at: Option<i64>,
}

/// A tag for tasks and projects.
#[derive(Debug)]
pub struct Tag {
    pub id: String,
    pub name: String,
    pub color: Option<String>,
    pub created_at: i64,
}

/// A tag on a task.
#[derive(Debug)]
pub struct TaskTag {
    pub task_id: String,
    pub tag_id: String,
}

/// A tag on a project.
#[derive(Debug)]
pub struct ProjectTag {
    pub project_id: String,
    pub tag_id: String,
}

/// Where a project stands.
#[derive(Debug, Clone, Copy, PartialEq, Eq, Structural)]
pub enum ProjectStatus {
    Planning,
    Active,
    OnHold,
    Completed,
    Cancelled,
}

/// How pressing a task is.
#[derive(Debug, Clone, Copy, PartialEq, Eq, Structural)]
pub enum TaskPriority {
    Low,
    Medium,
    High,
    Urgent,
}

impl Default for TaskPriority {
    fn default() -> (p: Self)
        ensures
            p == TaskPriority::Medium,
    {
        TaskPriority::Medium
    }
}

/// Which tasks a query asks for; an absent field does not restrict.
#[derive(Debug)]
pub struct TaskFilter {
    pub project_id: Option<String>,
    pub parent_task_id: Option<String>,
    pub priority: Option<TaskPriority>,
    pub completed: Option<bool>,
    pub archived: Option<bool>,
    pub overdue: Option<bool>,
}

/// Which projects a query asks for; an absent field does not restrict.
#[derive(Debug)]
pub struct ProjectFilter {
    pub goal_id: Option<String>,
    pub status: Option<ProjectStatus>,
    pub completed: Option<bool>,
    pub archived: Option<bool>,
}

impl Default for TaskFilter {
    fn default() -> (f: Self)
        ensures
            f.project_id is None,
            f.parent_task_id is None,
            f.priority is None,
            f.completed is None,
            f.archived is None,
            f.overdue is None,
    {
        TaskFilter {
            project_id: None,
            parent_task_id: None,
            priority: None,
            completed: None,
            archived: None,
            overdue: None,
        }
    }
}

impl Default for ProjectFilter {
    fn default() -> (f: Self)
        ensures
            f.goal_id is None,
            f.status is None,
            f.completed is None,
            f.archived is None,
    {
        ProjectFilter { goal_id: None, status: None, completed: None, archived: None }
    }
}

impl ProjectStatus {
    /// The text under which a status is stored.
    pub open spec fn text(self) -> Seq<char> {
        match self {
            ProjectStatus::Planning => "planning"@,
            ProjectStatus::Active => "active"@,
            ProjectStatus::OnHold => "onhold"@,
            ProjectStatus::Completed => "completed"@,
            ProjectStatus::Cancelled => "cancelled"@,
        }
    }

    /// The status that a text stands for, if any.
    pub open spec fn parsed(t: Seq<char>) -> Option<ProjectStatus> {
        if t == "planning"@ {
            Some(ProjectStatus::Planning)
        } else if t == "active"@ {
            Some(ProjectStatus::Active)
        } else if t == "onhold"@ {
            Some(ProjectStatus::OnHold)
        } else if t == "completed"@ {
            Some(ProjectStatus::Completed)
        } else if t == "cancelled"@ {
            Some(ProjectStatus::Cancelled)
        } else {
            None
        }
    }

    /// The text under which the value is stored.
    pub fn to_string(&self) -> (s: String)
        ensures
            s@ == self.text(),
    {
        match self {
            ProjectStatus::Planning => "planning".to_owned(),
            ProjectStatus::Active => "active".to_owned(),
            ProjectStatus::OnHold => "onhold".to_owned(),
            ProjectStatus::Completed => "completed".to_owned(),
            ProjectStatus::Cancelled => "cancelled".to_owned(),
        }
    }

    /// The value that a text stands for, or an error that quotes the text.
    pub fn from_str(s: &str) -> (r: Result<Self, String>)
        ensures
            match Self::parsed(s@) {
                Some(status) => r == Ok::<Self, String>(status),
                None => r is Err && r->Err_0@ == "Invalid project status: "@ + s@,
            },
    {
        if str_eq(s, "planning") {
            Ok(ProjectStatus::Planning)
        } else if str_eq(s, "active") {
            Ok(ProjectStatus::Active)
        } else if str_eq(s, "onhold") {
            Ok(ProjectStatus::OnHold)
        } else if str_eq(s, "completed") {
            Ok(ProjectStatus::Completed)
        } else if str_eq(s, "cancelled") {
            Ok(ProjectStatus::Cancelled)
        } else {
            let mut m = "Invalid project status: ".to_owned();
            m.append(s);
            Err(m)
        }
    }

    /// Reading back the text of a status gives that status.
    pub proof fn text_round_trip(self)
        ensures
            Self::parsed(self.text()) == Some(self),
    {
        reveal_strlit("planning");
        reveal_strlit("active");
        reveal_strlit("onhold");
        reveal_strlit("completed");
        reveal_strlit("cancelled");
        assert("planning"@.len() == 8);
        assert("active"@.len() == 6);
        assert("onhold"@[0] == 'o');
        assert("active"@[0] == 'a');
        assert("completed"@.len() == 9);
        assert("cancelled"@.len() == 9);
        assert("completed"@[1] == 'o');
        assert("cancelled"@[1] == 'a');
    }
}

impl TaskPriority {
    /// The text under which a priority is stored.
    pub open spec fn text(self) -> Seq<char> {
        match self {
            TaskPriority::Low => "low"@,
            TaskPriority::Medium => "medium"@,
            TaskPriority::High => "high"@,
            TaskPriority::Urgent => "urgent"@,
        }
    }

    /// The priority that a text stands for, if any.
    pub open spec fn parsed(t: Seq<char>) -> Option<TaskPriority> {
        if t == "low"@ {
            Some(TaskPriority::Low)
        } else if t == "medium"@ {
            Some(TaskPriority::Medium)
        } else if t == "high"@ {
            Some(TaskPriority::High)
        } else if t == "urgent"@ {
            Some(TaskPriority::Urgent)
        } else {
            None
        }
    }

    /// The text under which the value is stored.
    pub fn to_string(&self) -> (s: String)
        ensures
            s@ == self.text(),
    {
        match self {
            TaskPriority::Low => "low".to_owned(),
            TaskPriority::Medium => "medium".to_owned(),
            TaskPriority::High => "high".to_owned(),
            TaskPriority::Urgent => "urgent".to_owned(),
        }
    }

    /// The value that a text stands for, or an error that quotes the text.
    pub fn from_str(s: &str) -> (r: Result<Self, String>)
        ensures
            match Self::parsed(s@) {
                Some(priority) => r == Ok::<Self, String>(priority),
                None => r is Err && r->Err_0@ == "Invalid task priority: "@ + s@,
            },
    {
        if str_eq(s, "low") {
            Ok(TaskPriority::Low)
        } else if str_eq(s, "medium") {
            Ok(TaskPriority::Medium)
        } else if str_eq(s, "high") {
            Ok(TaskPriority::High)
        } else if str_eq(s, "urgent") {
            Ok(TaskPriority::Urgent)
        } else {
            let mut m = "Invalid task priority: ".to_owned();
            m.append(s);
            Err(m)
        }
    }

    /// Reading back the text of a priority gives that priority.
    pub proof fn text_round_trip(self)
        ensures
            Self::parsed(self.text()) == Some(self),
    {
        reveal_strlit("low");
        reveal_strlit("medium");
        reveal_strlit("high");
        reveal_strlit("urgent");
        assert("low"@.len() == 3);
        assert("medium"@.len() == 6);
        assert("high"@.len() == 4);
        assert("urgent"@[0] == 'u');
        assert("medium"@[0] == 'm');
    }
}

impl LifeArea {
    /// A new life area named `name`, not archived, with a random identity and
    /// the current time as its time of creation and of last change.
    pub fn new(name: String) -> (a: Self)
        ensures
            a.name == name,
            a.description is None,
            a.color is None,
            a.icon is None,
            a.created_at == a.updated_at,
            a.archived_at is None,
    {
        let now = now_micros();
        LifeArea {
            id: random_uuid(),
            name,
            description: None,
            color: None,
            icon: None,
            created_at: now,
            updated_at: now,
            archived_at: None,
        }
    }

    pub fn is_archived(&self) -> (r: bool)
        ensures
            r == self.archived_at is Some,
    {
        self.archived_at.is_some()
    }
}

impl Goal {
    /// A new goal under the life area `life_area_id`, neither completed nor
    /// archived, with a random identity and the current time.
    pub fn new(life_area_id: String, title: String) -> (g: Self)
        ensures
            g.life_area_id == life_area_id,
            g.title == title,
            g.description is None,
            g.target_date is None,
            g.created_at == g.updated_at,
            g.completed_at is None,
            g.archived_at is None,
    {
        let now = now_micros();
        Goal {
            id: random_uuid(),
            life_area_id,
            title,
            description: None,
            target_date: None,
            created_at: now,
            updated_at: now,
            completed_at: None,
            archived_at: None,
        }
    }

    pub fn is_completed(&self) -> (r: bool)
        ensures
            r == self.completed_at is Some,
    {
        self.completed_at.is_some()
    }

    pub fn is_archived(&self) -> (r: bool)
        ensures
            r == self.archived_at is Some,
    {
        self.archived_at.is_some()
    }
}

impl Project {
    /// A new project under the goal `goal_id`, in planning, with a random
    /// identity and the current time.
    pub fn new(goal_id: String, title: String) -> (p: Self)
        ensures
            p.goal_id == goal_id,
            p.title == title,
            p.description is None,
            p.status == ProjectStatus::Planning,
            p.created_at == p.updated_at,
            p.completed_at is None,
            p.archived_at is None,
    {
        let now = now_micros();
        Project {
            id: random_uuid(),
            goal_id,
            title,
            description: None,
            status: ProjectStatus::Planning,
            created_at: now,
            updated_at: now,
            completed_at: None,
            archived_at: None,
        }
    }

    pub fn is_active(&self) -> (r: bool)
        ensures
            r == (self.status == ProjectStatus::Active),
    {
        self.status == ProjectStatus::Active
    }

    pub fn is_completed(&self) -> (r: bool)
        ensures
            r == (self.status == ProjectStatus::Completed || self.completed_at is Some),
    {
        self.status == ProjectStatus::Completed || self.completed_at.is_some()
    }

    pub fn is_archived(&self) -> (r: bool)
        ensures
            r == self.archived_at is Some,
    {
        self.archived_at.is_some()
    }
}

impl Task {
    /// A new task of medium priority, in no project and under no task, with a
    /// random identity and the current time.
    pub fn new(title: String) -> (t: Self)
        ensures
            t.project_id is None,
            t.parent_task_id is None,
            t.title == title,
            t.description is None,
            t.priority == TaskPriority::Medium,
            t.due_date is None,
            t.created_at == t.updated_at,
            t.completed_at is None,
            t.archived_at is None,
    {
        let now = now_micros();
        Task {
            id: random_uuid(),
            project_id: None,
            parent_task_id: None,
            title,
            description: None,
            priority: TaskPriority::Medium,
            due_date: None,
            created_at: now,
            updated_at: now,
            completed_at: None,
            archived_at: None,
        }
    }

    pub fn with_project(self, project_id: String) -> (t: Self)
        ensures
            t == (Task { project_id: Some(project_id), ..self }),
    {
        let mut t = self;
        t.project_id = Some(project_id);
        t
    }

    pub fn with_parent(self, parent_task_id: String) -> (t: Self)
        ensures
            t == (Task { parent_task_id: Some(parent_task_id), ..self }),
    {
        let mut t = self;
        t.parent_task_id = Some(parent_task_id);
        t
    }

    pub fn is_completed(&self) -> (r: bool)
        ensures
            r == self.completed_at is Some,
    {
        self.completed_at.is_some()
    }

    pub fn is_archived(&self) -> (r: bool)
        ensures
            r == self.archived_at is Some,
    {
        self.archived_at.is_some()
    }

    /// Whether the task is overdue at the time `now`: it has a due date
    /// before `now` and is not completed.
    pub open spec fn overdue_at(self, now: i64) -> bool {
        match self.due_date {
            Some(due) => self.completed_at is None && due < now,
            None => false,
        }
    }

    pub fn is_overdue_at(&self, now: i64) -> (r: bool)
        ensures
            r == self.overdue_at(now),
    {
        match self.due_date {
            Some(due) => !self.is_completed() && due < now,
            None => false,
        }
    }

    /// Whether the task is overdue at the time of the call.
    pub fn is_overdue(&self) -> (r: bool)
        ensures
            exists|now: i64| r == self.overdue_at(now),
    {
        let now = now_micros();
        self.is_overdue_at(now)
    }
}

impl Note {
    /// A new note attached to nothing, not archived, with a random identity
    /// and the current time.
    pub fn new(title: String, content: String) -> (n: Self)
        ensures
            n.task_id is None,
            n.project_id is None,
            n.goal_id is None,
            n.life_area_id is None,
            n.title == title,
            n.content == content,
            n.created_at == n.updated_at,
            n.archived_at is None,
    {
        let now = now_micros();
        Note {
            id: random_uuid(),
            task_id: None,
            project_id: None,
            goal_id: None,
            life_area_id: None,
            title,
            content,
            created_at: now,
            updated_at: now,
            archived_at: None,
        }
    }

    pub fn for_task(self, task_id: String) -> (n: Self)
        ensures
            n == (Note { task_id: Some(task_id), ..self }),
    {
        let mut n = self;
        n.task_id = Some(task_id);
        n
    }

    pub fn for_project(self, project_id: String) -> (n: Self)
        ensures
            n == (Note { project_id: Some(project_id), ..self }),
    {
        let mut n = self;
        n.project_id = Some(project_id);
        n
    }

    pub fn for_goal(self, goal_id: String) -> (n: Self)
        ensures
            n == (Note { goal_id: Some(goal_id), ..self }),
    {
        let mut n = self;
        n.goal_id = Some(goal_id);
        n
    }

    pub fn for_life_area(self, life_area_id: String) -> (n: Self)
        ensures
            n == (Note { life_area_id: Some(life_area_id), ..self }),
    {
        let mut n = self;
        n.life_area_id = Some(life_area_id);
        n
    }

    pub fn is_archived(&self) -> (r: bool)
        ensures
            r == self.archived_at is Some,
    {
        self.archived_at.is_some()
    }
}

impl Tag {
    /// A new tag named `name`, without a colour, with a random identity and
    /// the current time.
    pub fn new(name: String) -> (t: Self)
        ensures
            t.name == name,
            t.color is None,
    {
        Tag { id: random_uuid(), name, color: None, created_at: now_micros() }
    }

    pub fn with_color(self, color: String) -> (t: Self)
        ensures
            t == (Tag { color: Some(color), ..self }),
    {
        let mut t = self;
        t.color = Some(color);
        t
    }
}

impl Clone for LifeArea {
    fn clone(&self) -> (r: Self)
        ensures
            r == *self,
    {
        LifeArea {
            id: self.id.clone(),
            name: self.name.clone(),
            description: clone_opt(&self.description),
            color: clone_opt(&self.color),
            icon: clone_opt(&self.icon),
            created_at: self.created_at,
            updated_at: self.updated_at,
            archived_at: self.archived_at,
        }
    }
}

impl Clone for Goal {
    fn clone(&self) -> (r: Self)
        ensures
            r == *self,
    {
        Goal {
            id: self.id.clone(),
            life_area_id: self.life_area_id.clone(),
            title: self.title.clone(),
            description: clone_opt(&self.description),
            target_date: self.target_date,
            created_at: self.created_at,
            updated_at: self.updated_at,
            completed_at: self.completed_at,
            archived_at: self.archived_at,
        }
    }
}

impl Clone for Project {
    fn clone(&self) -> (r: Self)
        ensures
            r == *self,
    {
        Project {
            id: self.id.clone(),
            goal_id: self.goal_id.clone(),
            title: self.title.clone(),
            description: clone_opt(&self.description),
            status: self.status,
            created_at: self.created_at,
            updated_at: self.updated_at,
            completed_at: self.completed_at,
            archived_at: self.archived_at,
        }
    }
}

impl Clone for Task {
    fn clone(&self) -> (r: Self)
        ensures
            r == *self,
    {
        Task {
            id: self.id.clone(),
            project_id: clone_opt(&self.project_id),
            parent_task_id: clone_opt(&self.parent_task_id),
            title: self.title.clone(),
            description: clone_opt(&self.description),
            priority: self.priority,
            due_date: self.due_date,
            created_at: self.created_at,
            updated_at: self.updated_at,
            completed_at: self.completed_at,
            archived_at: self.archived_at,
        }
    }
}

impl Clone for Note {
    fn clone(&self) -> (r: Self)
        ensures
            r == *self,
    {
        Note {
            id: self.id.clone(),
            task_id: clone_opt(&self.task_id),
            project_id: clone_opt(&self.project_id),
            goal_id: clone_opt(&self.goal_id),
            life_area_id: clone_opt(&self.life_area_id),
            title: self.title.clone(),
            content: self.content.clone(),
            created_at: self.created_at,
            updated_at: self.updated_at,
            archived_at: self.archived_at,
        }
    }
}

impl Clone for Tag {
    fn clone(&self) -> (r: Self)
        ensures
            r == *self,
    {
        Tag {
            id: self.id.clone(),
            name: self.name.clone(),
            color: clone_opt(&self.color),
            created_at: self.created_at,
        }
    }
}

impl Record for LifeArea {
    open spec fn key(&self) -> Seq<char> {
        self.id@
    }

    open spec fn archived(&self) -> Option<i64> {
        self.archived_at
    }

    open spec fn link(&self, to: EntityType) -> Option<Seq<char>> {
        None
    }

    open spec fn stamped(self, archived: Option<i64>, updated: i64) -> Self {
        LifeArea { archived_at: archived, updated_at: updated, ..self }
    }

    proof fn stamped_keeps_shape(self, archived: Option<i64>, updated: i64) {
    }

    fn id(&self) -> (r: &String) {
        &self.id
    }

    fn archived_at(&self) -> (r: Option<i64>) {
        self.archived_at
    }

    fn links_to(&self, to: EntityType, id: &str) -> (r: bool) {
        false
    }

    fn duplicate(&self) -> (r: Self) {
        self.clone()
    }

    fn stamp(&mut self, archived: Option<i64>, updated: i64) {
        self.archived_at = archived;
        self.updated_at = updated;
    }
}

impl Record for Goal {
    open spec fn key(&self) -> Seq<char> {
        self.id@
    }

    open spec fn archived(&self) -> Option<i64> {
        self.archived_at
    }

    open spec fn link(&self, to: EntityType) -> Option<Seq<char>> {
        match to {
            EntityType::LifeArea => Some(self.life_area_id@),
            _ => None,
        }
    }

    open spec fn stamped(self, archived: Option<i64>, updated: i64) -> Self {
        Goal { archived_at: archived, updated_at: updated, ..self }
    }

    proof fn stamped_keeps_shape(self, archived: Option<i64>, updated: i64) {
    }

    fn id(&self) -> (r: &String) {
        &self.id
    }

    fn archived_at(&self) -> (r: Option<i64>) {
        self.archived_at
    }

    fn links_to(&self, to: EntityType, id: &str) -> (r: bool) {
        match to {
            EntityType::LifeArea => str_eq(self.life_area_id.as_str(), id),
            _ => false,
        }
    }

    fn duplicate(&self) -> (r: Self) {
        self.clone()
    }

    fn stamp(&mut self, archived: Option<i64>, updated: i64) {
        self.archived_at = archived;
        self.updated_at = updated;
    }
}

impl Record for Project {
    open spec fn key(&self) -> Seq<char> {
        self.id@
    }

    open spec fn archived(&self) -> Option<i64> {
        self.archived_at
    }

    open spec fn link(&self, to: EntityType) -> Option<Seq<char>> {
        match to {
            EntityType::Goal => Some(self.goal_id@),
            _ => None,
        }
    }

    open spec fn stamped(self, archived: Option<i64>, updated: i64) -> Self {
        Project { archived_at: archived, updated_at: updated, ..self }
    }

    proof fn stamped_keeps_shape(self, archived: Option<i64>, updated: i64) {
    }

    fn id(&self) -> (r: &String) {
        &self.id
    }

    fn archived_at(&self) -> (r: Option<i64>) {
        self.archived_at
    }

    fn links_to(&self, to: EntityType, id: &str) -> (r: bool) {
        match to {
            EntityType::Goal => str_eq(self.goal_id.as_str(), id),
            _ => false,
        }
    }

    fn duplicate(&self) -> (r: Self) {
        self.clone()
    }

    fn stamp(&mut self, archived: Option<i64>, updated: i64) {
        self.archived_at = archived;
        self.updated_at = updated;
    }
}

impl Record for Task {
    open spec fn key(&self) -> Seq<char> {
        self.id@
    }

    open spec fn archived(&self) -> Option<i64> {
        self.archived_at
    }

    open spec fn link(&self, to: EntityType) -> Option<Seq<char>> {
        match to {
            EntityType::Project => opt_view(self.project_id),
            EntityType::Task => opt_view(self.parent_task_id),
            _ => None,
        }
    }

    open spec fn stamped(self, archived: Option<i64>, updated: i64) -> Self {
        Task { archived_at: archived, updated_at: updated, ..self }
    }

    proof fn stamped_keeps_shape(self, archived: Option<i64>, updated: i64) {
    }

    fn id(&self) -> (r: &String) {
        &self.id
    }

    fn archived_at(&self) -> (r: Option<i64>) {
        self.archived_at
    }

    fn links_to(&self, to: EntityType, id: &str) -> (r: bool) {
        match to {
            EntityType::Project => opt_is(&self.project_id, id),
            EntityType::Task => opt_is(&self.parent_task_id, id),
            _ => false,
        }
    }

    fn duplicate(&self) -> (r: Self) {
        self.clone()
    }

    fn stamp(&mut self, archived: Option<i64>, updated: i64) {
        self.archived_at = archived;
        self.updated_at = updated;
    }
}

impl Record for Note {
    open spec fn key(&self) -> Seq<char> {
        self.id@
    }

    open spec fn archived(&self) -> Option<i64> {
        self.archived_at
    }

    open spec fn link(&self, to: EntityType) -> Option<Seq<char>> {
        match to {
            EntityType::LifeArea => opt_view(self.life_area_id),
            EntityType::Goal => opt_view(self.goal_id),
            EntityType::Project => opt_view(self.project_id),
            EntityType::Task => opt_view(self.task_id),
            EntityType::Note => None,
        }
    }

    open spec fn stamped(self, archived: Option<i64>, updated: i64) -> Self {
        Note { archived_at: archived, updated_at: updated, ..self }
    }

    proof fn stamped_keeps_shape(self, archived: Option<i64>, updated: i64) {
    }

    fn id(&self) -> (r: &String) {
        &self.id
    }

    fn archived_at(&self) -> (r: Option<i64>) {
        self.archived_at
    }

    fn links_to(&self, to: EntityType, id: &str) -> (r: bool) {
        match to {
            EntityType::LifeArea => opt_is(&self.life_area_id, id),
            EntityType::Goal => opt_is(&self.goal_id, id),
            EntityType::Project => opt_is(&self.project_id, id),
            EntityType::Task => opt_is(&self.task_id, id),
            EntityType::Note => false,
        }
    }

    fn duplicate(&self) -> (r: Self) {
        self.clone()
    }

    fn stamp(&mut self, archived: Option<i64>, updated: i64) {
        self.archived_at = archived;
        self.updated_at = updated;
    }
}

} // verus!
