use idf_studio::commands::editor_state::{EditorTab, EditorTabState, STATE_DIR, STATE_FILE};
use idf_studio::commands::explorer::INVALID_PROJECT_PATH;
use idf_studio::commands::project::{
    check_project_name, create_failure, project_result, remember_project, step_failure,
    CreateStep, ProjectResult, HOME_MISSING, MAX_RECENT, PROJECTS_DIR, PROJECT_EXISTS,
    PYTHON_MISSING, RECENT_FILE, TOOLCHAIN_DIR, TOOLCHAIN_PYTHON, TOOLCHAIN_TOOL,
};
use idf_studio::services::esp_idf::EXPORT_SCRIPT;
use idf_studio::models::project::{Project, ProjectFramework};

fn project(name: &str) -> Project {
    Project { name: name.to_string(), path: format!("/home/u/esp-projects/{}", name) }
}

fn names(list: &[Project]) -> Vec<&str> {
    list.iter().map(|p| p.name.as_str()).collect()
}

#[test]
fn a_blank_name_is_refused() {
    let refused = Err("Project name cannot be empty".to_string());
    assert_eq!(check_project_name(""), refused);
    assert_eq!(check_project_name("   "), refused);
    assert_eq!(check_project_name("\t\n \u{a0}"), refused);
}

#[test]
fn a_name_with_a_visible_character_is_accepted() {
    assert_eq!(check_project_name("blink"), Ok(()));
    assert_eq!(check_project_name("  blink "), Ok(()));
    assert_eq!(check_project_name("."), Ok(()));
}

#[test]
fn the_failure_of_the_tool_is_told_with_its_code() {
    assert_eq!(create_failure(Some(2)), "idf.py create-project failed with exit code: 2");
    assert_eq!(create_failure(Some(-11)), "idf.py create-project failed with exit code: -11");
    assert_eq!(create_failure(Some(0)), "idf.py create-project failed with exit code: 0");
    assert_eq!(create_failure(None), "idf.py create-project failed with exit code: -1");
    assert_eq!(
        create_failure(Some(i32::MIN)),
        "idf.py create-project failed with exit code: -2147483648"
    );
    assert_eq!(
        create_failure(Some(i32::MAX)),
        "idf.py create-project failed with exit code: 2147483647"
    );
}

#[test]
fn a_used_project_goes_to_the_head_of_the_list() {
    let list = remember_project(vec![project("a"), project("b")], "c", "/x/c");
    assert_eq!(names(&list), vec!["c", "a", "b"]);
    assert_eq!(list[0].path, "/x/c");
}

#[test]
fn a_project_is_listed_once() {
    let list = remember_project(
        vec![project("a"), project("b"), project("a"), project("c")],
        "a",
        "/new/a",
    );
    assert_eq!(names(&list), vec!["a", "b", "c"]);
    assert_eq!(list[0].path, "/new/a");
}

#[test]
fn the_list_holds_five_projects_at_most() {
    let recent = vec![project("a"), project("b"), project("c"), project("d"), project("e")];
    let list = remember_project(recent, "f", "/x/f");
    assert_eq!(names(&list), vec!["f", "a", "b", "c", "d"]);
    assert_eq!(list.len(), MAX_RECENT);

    let recent = vec![project("a"), project("b"), project("c"), project("d"), project("e")];
    let list = remember_project(recent, "c", "/x/c");
    assert_eq!(names(&list), vec!["c", "a", "b", "d", "e"]);

    let long: Vec<Project> = (0..9).map(|i| project(&i.to_string())).collect();
    let list = remember_project(long, "z", "/x/z");
    assert_eq!(names(&list), vec!["z", "0", "1", "2", "3"]);
}

#[test]
fn the_first_project_makes_a_list_of_one() {
    let list = remember_project(vec![], "only", "/x/only");
    assert_eq!(list, vec![Project { name: "only".to_string(), path: "/x/only".to_string() }]);
}

#[test]
fn creation_is_reported_in_three_ways() {
    assert_eq!(
        project_result("/d/blink", None),
        ProjectResult {
            success: false,
            path: "/d/blink".to_string(),
            message: "Project already exists".to_string(),
        }
    );
    assert_eq!(
        project_result("/d/blink", Some(true)),
        ProjectResult {
            success: true,
            path: "/d/blink".to_string(),
            message: "Project created".to_string(),
        }
    );
    assert_eq!(
        project_result("/d/blink", Some(false)),
        ProjectResult {
            success: false,
            path: "none".to_string(),
            message: "Failed to create project".to_string(),
        }
    );
    assert_eq!(PROJECT_EXISTS, "Project already exists");
    assert_eq!(RECENT_FILE, "recent_projects.json");
    assert_eq!(ProjectFramework::EspIdf, ProjectFramework::EspIdf);
}

#[test]
fn each_failing_step_has_its_wording() {
    assert_eq!(step_failure(CreateStep::BasePath, "denied"), "Failed to create base path: denied");
    assert_eq!(
        step_failure(CreateStep::ProjectFolder, "denied"),
        "Failed to create project folder: denied"
    );
    assert_eq!(step_failure(CreateStep::Tool, "not found"), "Failed to run idf.py: not found");
    assert_eq!(HOME_MISSING, "Failed to find home directory");
    assert_eq!(PYTHON_MISSING, "ESP-IDF python environment not found");
    assert_eq!(INVALID_PROJECT_PATH, "Invalid project path");
}

#[test]
fn the_toolchain_and_the_projects_have_their_places() {
    assert_eq!(PROJECTS_DIR, "esp-projects");
    assert_eq!(TOOLCHAIN_DIR, "esp/esp-idf");
    assert_eq!(TOOLCHAIN_PYTHON, ".espressif/python_env/idf6.0_py3.14_env/bin/python");
    assert_eq!(TOOLCHAIN_TOOL, "tools/idf.py");
    assert_eq!(EXPORT_SCRIPT, "esp/esp-idf/export.sh");
    assert_eq!(STATE_DIR, ".esp-projects");
    assert_eq!(STATE_FILE, "editor_state.json");
}

#[test]
fn the_state_of_the_editor_is_plain_data() {
    let tab = EditorTab {
        id: "1".to_string(),
        name: "main.c".to_string(),
        path: "/p/main.c".to_string(),
        content: "int main;".to_string(),
        saved: true,
        tab_type: "file".to_string(),
    };
    let state = EditorTabState {
        project_name: "blink".to_string(),
        tabs: vec![tab.clone()],
        active_tab_id: Some("1".to_string()),
    };
    assert_eq!(state.clone(), state);
    assert_eq!(state.tabs[0], tab);
}
