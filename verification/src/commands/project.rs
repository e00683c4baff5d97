//! Creating a project, and the list of the projects used most recently.

use crate::models::project::{Project, ProjectView};
use crate::services::text::{join, decimal, decimal_text, trim, trimmed};
use crate::views::views;
use vstd::prelude::*;

verus! {

/// How many projects the list of recent projects holds at most.
pub const MAX_RECENT: usize = 5;

/// The name of the file that holds the list of recent projects.
pub const RECENT_FILE: &'static str = "recent_projects.json";

/// What is answered when a project already exists where one is to be made.
pub const PROJECT_EXISTS: &'static str = "Project already exists";

/// The directory under the home directory that holds the projects.
pub const PROJECTS_DIR: &'static str = "esp-projects";

/// The directory under the home directory that holds the toolchain.
pub const TOOLCHAIN_DIR: &'static str = "esp/esp-idf";

/// The interpreter of the toolchain, under the home directory.
pub const TOOLCHAIN_PYTHON: &'static str = ".espressif/python_env/idf6.0_py3.14_env/bin/python";

/// The tool that creates a project, under the directory of the toolchain.
pub const TOOLCHAIN_TOOL: &'static str = "tools/idf.py";

/// What is answered when the home directory is not known.
pub const HOME_MISSING: &'static str = "Failed to find home directory";

/// What is answered when the interpreter of the toolchain is not installed.
pub const PYTHON_MISSING: &'static str = "ESP-IDF python environment not found";

/// The steps of creating a project that can fail for a reason of the
/// operating system.
#[derive(Clone, Copy, Debug, PartialEq, Eq, Structural)]
pub enum CreateStep {
    /// Making the directory that holds the projects.
    BasePath,
    /// Making the directory of the project.
    ProjectFolder,
    /// Running the tool that creates the project.
    Tool,
}

/// What is answered when a step of creating a project failed for the reason
/// `detail`.
pub fn step_failure(step: CreateStep, detail: &str) -> (message: String)
    ensures
        message@ == (match step {
            CreateStep::BasePath => "Failed to create base path: "@,
            CreateStep::ProjectFolder => "Failed to create project folder: "@,
            CreateStep::Tool => "Failed to run idf.py: "@,
        }) + detail@,
{
    match step {
        CreateStep::BasePath => join("Failed to create base path: ", detail),
        CreateStep::ProjectFolder => join("Failed to create project folder: ", detail),
        CreateStep::Tool => join("Failed to run idf.py: ", detail),
    }
}

/// Whether a project may carry `name`: not if the name is empty or all
/// white space.
pub open spec fn name_is_blank(name: Seq<char>) -> bool {
    trimmed(name).len() == 0
}

/// Whether the text left after trimming is empty.
pub fn blank_after_trim(inner: &str) -> (blank: bool)
    ensures
        blank == (inner@.len() == 0),
{
    inner.is_empty()
}

/// Refuses a project name that is empty or all white space.
pub fn check_project_name(name: &str) -> (verdict: Result<(), String>)
    ensures
        name_is_blank(name@) ==> verdict is Err && verdict->Err_0@
            == "Project name cannot be empty"@,
        !name_is_blank(name@) ==> verdict is Ok,
{
    let inner = trim(name);
    if blank_after_trim(inner.as_str()) {
        Err(String::from_str("Project name cannot be empty"))
    } else {
        Ok(())
    }
}

/// What is answered when the tool that creates the project exited with
/// `code`, or without one: the code in decimal, and `-1` where there is
/// none.
pub fn create_failure(code: Option<i32>) -> (message: String)
    ensures
        message@ == "idf.py create-project failed with exit code: "@ + decimal(
            match code {
                Some(value) => value as int,
                None => -1,
            },
        ),
{
    let shown = match code {
        Some(value) => value,
        None => -1,
    };
    let digits = decimal_text(shown);
    join("idf.py create-project failed with exit code: ", digits.as_str())
}

/// The projects of `recent` that do not carry `name`, in their order.
pub open spec fn without(recent: Seq<ProjectView>, name: Seq<char>) -> Seq<ProjectView>
    decreases recent.len(),
{
    if recent.len() == 0 {
        Seq::empty()
    } else if recent.last().name == name {
        without(recent.drop_last(), name)
    } else {
        without(recent.drop_last(), name).push(recent.last())
    }
}

/// The list of recent projects after the project `name` at `path` has been
/// used: that project first, then the others in their former order, and no
/// more than [`MAX_RECENT`] in all.
pub open spec fn remembered(recent: Seq<ProjectView>, name: Seq<char>, path: Seq<char>) -> Seq<
    ProjectView,
> {
    let all = seq![ProjectView { name, path }] + without(recent, name);
    if all.len() > MAX_RECENT {
        all.take(MAX_RECENT as int)
    } else {
        all
    }
}

/// None of the projects that are kept carries the name that was left out.
pub proof fn lemma_without_leaves_none(recent: Seq<ProjectView>, name: Seq<char>, index: int)
    requires
        0 <= index < without(recent, name).len(),
    ensures
        without(recent, name)[index].name != name,
        without(recent, name).len() <= recent.len(),
    decreases recent.len(),
{
    if recent.len() > 0 {
        let shorter = recent.drop_last();
        if index < without(shorter, name).len() {
            lemma_without_leaves_none(shorter, name, index);
        } else if without(shorter, name).len() > 0 {
            lemma_without_leaves_none(shorter, name, 0);
        }
    }
}

/// The list of recent projects is never longer than [`MAX_RECENT`], the
/// project just used stands first, and no other entry carries its name.
pub proof fn lemma_remembered_once_and_first(
    recent: Seq<ProjectView>,
    name: Seq<char>,
    path: Seq<char>,
)
    ensures
        0 < remembered(recent, name, path).len() <= MAX_RECENT,
        remembered(recent, name, path)[0] == (ProjectView { name, path }),
        forall|i: int|
            0 < i < remembered(recent, name, path).len() ==> (#[trigger] remembered(
                recent,
                name,
                path,
            )[i]).name != name,
{
    let others = without(recent, name);
    assert forall|i: int| 0 < i < remembered(recent, name, path).len() implies (#[trigger] remembered(
        recent,
        name,
        path,
    )[i]).name != name by {
        lemma_without_leaves_none(recent, name, i - 1);
    }
}

/// Puts a project at the head of the list of recent projects.
pub fn remember_project(recent: Vec<Project>, name: &str, path: &str) -> (list: Vec<Project>)
    ensures
        views(list@) == remembered(views(recent@), name@, path@),
{
    let wanted = String::from_str(name);
    let ghost before = recent@;
    let mut list: Vec<Project> = Vec::new();
    assert(views(before.take(0)) =~= Seq::<ProjectView>::empty());
    for project in iter: recent
        invariant
            wanted@ == name@,
            iter.seq() == before,
            views(list@) == without(views(before.take(iter.index() as int)), name@),
    {
        let ghost seen = views(before.take(iter.index() as int));
        let ghost next = views(before.take(iter.index() + 1));
        assert(next.drop_last() =~= seen);
        assert(next.last() == project@);
        if project.name != wanted {
            let ghost kept = views(list@);
            list.push(project);
            assert(views(list@) =~= kept.push(project@));
        }
    }
    assert(before.take(before.len() as int) =~= before);
    let ghost others = views(list@);
    let first = Project { name: wanted, path: String::from_str(path) };
    list.insert(0, first);
    assert(views(list@) =~= seq![first@] + others);
    if list.len() > MAX_RECENT {
        let ghost all = views(list@);
        list.truncate(MAX_RECENT);
        assert(views(list@) =~= all.take(MAX_RECENT as int));
    }
    list
}

/// What creating a project came to.
#[derive(Clone, Debug, PartialEq, Eq)]
pub struct ProjectResult {
    pub success: bool,
    pub path: String,
    pub message: String,
}

/// A [`ProjectResult`] as a mathematical value.
pub struct ProjectResultView {
    pub success: bool,
    pub path: Seq<char>,
    pub message: Seq<char>,
}

impl View for ProjectResult {
    type V = ProjectResultView;

    open spec fn view(&self) -> ProjectResultView {
        ProjectResultView { success: self.success, path: self.path@, message: self.message@ }
    }
}

/// What is reported of a project that was to be created at `path`.
/// `created` says how the tool that creates it went, and is `None` where
/// the tool was not run because the project exists.
pub open spec fn creation_report(path: Seq<char>, created: Option<bool>) -> ProjectResultView {
    match created {
        None => ProjectResultView { success: false, path, message: "Project already exists"@ },
        Some(true) => ProjectResultView { success: true, path, message: "Project created"@ },
        Some(false) => ProjectResultView {
            success: false,
            path: "none"@,
            message: "Failed to create project"@,
        },
    }
}

/// Reports what creating a project came to.
pub fn project_result(path: &str, created: Option<bool>) -> (result: ProjectResult)
    ensures
        result@ == creation_report(path@, created),
{
    match created {
        None => ProjectResult {
            success: false,
            path: String::from_str(path),
            message: String::from_str("Project already exists"),
        },
        Some(true) => ProjectResult {
            success: true,
            path: String::from_str(path),
            message: String::from_str("Project created"),
        },
        Some(false) => ProjectResult {
            success: false,
            path: String::from_str("none"),
            message: String::from_str("Failed to create project"),
        },
    }
}

} // verus!
