use idf_studio::commands::auth::LoginResponse;
use idf_studio::commands::controllers::{Controller, ControllersResponse};
use idf_studio::commands::refresh::RefreshResponse;
use idf_studio::commands::release_controller::{
    ReleaseControllerRequest, ReleaseControllerResponse,
};
use idf_studio::commands::select_controller::{
    SelectControllerRequest, SelectControllerResponse,
};
use idf_studio::models::controller::{controller, ControllerStatus};
use idf_studio::models::flash::FlashRequest;
use idf_studio::models::nats::NatsMessage;
use idf_studio::models::status::BuildRequest;
use idf_studio::menu::app_menu::{build_menu, handle_menu, MenuAction};
use idf_studio::models::artifact::Artifact;
use idf_studio::models::file_tree::FileNode;
use idf_studio::models::status::{build_status, BuildStatus};
use idf_studio::services::account::{Endpoint, NATS_ADDRESS, UPLOAD_DONE};
use idf_studio::services::esp_idf::{
    build_cmd, build_pipeline, build_script, flash_stage, live_stage,
};
use idf_studio::services::pipeline::{ExitReason, RunState};
use idf_studio::state::app_state::AppState;
use idf_studio::utils::fs::{find_bins, FoundFile};

fn found(path: &str, name: &str, extension: Option<&str>, size: Option<u64>) -> FoundFile {
    FoundFile {
        path: path.to_string(),
        name: name.to_string(),
        extension: extension.map(|e| e.to_string()),
        size,
    }
}

#[test]
fn only_files_with_the_extension_bin_are_artifacts() {
    let artifacts = find_bins(vec![
        found("/b/app.bin", "app.bin", Some("bin"), Some(1024)),
        found("/b/app.elf", "app.elf", Some("elf"), Some(4096)),
        found("/b/bin", "bin", None, Some(1)),
        found("/b/merged.bin", "merged.bin", Some("bin"), None),
        found("/b/UPPER.BIN", "UPPER.BIN", Some("BIN"), Some(7)),
    ]);
    assert_eq!(
        artifacts,
        vec![
            Artifact { name: "app.bin".to_string(), path: "/b/app.bin".to_string(), size_bytes: 1024 },
            Artifact {
                name: "merged.bin".to_string(),
                path: "/b/merged.bin".to_string(),
                size_bytes: 0,
            },
        ]
    );
    assert_eq!(find_bins(vec![]), vec![]);
}

#[test]
fn each_menu_item_is_handled() {
    let menu = build_menu();
    let titles: Vec<&str> = menu.iter().map(|m| m.title.as_str()).collect();
    assert_eq!(titles, vec!["File", "Edit", "View"]);
    let ids: Vec<&str> =
        menu.iter().flat_map(|m| m.items.iter()).map(|i| i.id.as_str()).collect();
    assert_eq!(
        ids,
        vec![
            "new_file", "open_file", "save_file", "quit", "undo", "redo", "cut", "copy", "paste",
            "fullscreen",
        ]
    );
    for id in ids {
        assert_ne!(handle_menu(id), MenuAction::Ignore);
    }
    assert_eq!(menu[0].items[1].title, "Open...");
    assert_eq!(menu[2].items[0].title, "Toggle Full Screen");
}

#[test]
fn menu_items_do_what_they_say() {
    assert_eq!(handle_menu("quit"), MenuAction::Quit);
    assert_eq!(handle_menu("fullscreen"), MenuAction::ToggleFullscreen);
    assert_eq!(handle_menu("new_file"), MenuAction::Log("New File clicked".to_string()));
    assert_eq!(handle_menu("open_file"), MenuAction::Log("Open clicked".to_string()));
    assert_eq!(handle_menu("save_file"), MenuAction::Log("Save clicked".to_string()));
    assert_eq!(handle_menu("undo"), MenuAction::Log("Undo".to_string()));
    assert_eq!(handle_menu("redo"), MenuAction::Log("Redo".to_string()));
    assert_eq!(handle_menu("cut"), MenuAction::Log("Cut".to_string()));
    assert_eq!(handle_menu("copy"), MenuAction::Log("Copy".to_string()));
    assert_eq!(handle_menu("paste"), MenuAction::Log("Paste".to_string()));
    assert_eq!(handle_menu("Quit"), MenuAction::Ignore);
    assert_eq!(handle_menu(""), MenuAction::Ignore);
}

#[test]
fn release_and_select_take_status_200_alone() {
    for endpoint in [Endpoint::Release, Endpoint::Select] {
        assert_eq!(endpoint.sort_reply(200, "{}".to_string()), Ok("{}".to_string()));
        assert_eq!(endpoint.sort_reply(201, "made".to_string()), Err("made".to_string()));
        assert_eq!(endpoint.sort_reply(204, "".to_string()), Err("".to_string()));
        assert_eq!(endpoint.sort_reply(404, "no".to_string()), Err("no".to_string()));
    }
}

#[test]
fn the_other_requests_take_any_status_of_success() {
    for endpoint in [Endpoint::Login, Endpoint::Controllers, Endpoint::Refresh] {
        assert_eq!(endpoint.sort_reply(200, "a".to_string()), Ok("a".to_string()));
        assert_eq!(endpoint.sort_reply(204, "b".to_string()), Ok("b".to_string()));
        assert_eq!(endpoint.sort_reply(299, "c".to_string()), Ok("c".to_string()));
        assert_eq!(endpoint.sort_reply(199, "d".to_string()), Err("d".to_string()));
        assert_eq!(endpoint.sort_reply(300, "e".to_string()), Err("e".to_string()));
        assert_eq!(endpoint.sort_reply(401, "f".to_string()), Err("f".to_string()));
        assert_eq!(endpoint.sort_reply(500, "g".to_string()), Err("g".to_string()));
    }
}

#[test]
fn failures_of_requests_are_worded_by_endpoint() {
    assert_eq!(Endpoint::Login.parse_failure("eof"), "Login parse error: eof");
    assert_eq!(Endpoint::Controllers.parse_failure("eof"), "Parse error: eof");
    assert_eq!(Endpoint::Refresh.parse_failure("eof"), "Parse error: eof");
    assert_eq!(Endpoint::Release.parse_failure("eof"), "Parse error: eof");
    assert_eq!(Endpoint::Select.parse_failure("eof"), "Parse error: eof");
    assert_eq!(Endpoint::Refresh.request_failure("timeout"), "Request failed: timeout");
    assert_eq!(Endpoint::Login.request_failure("timeout"), "timeout");
    assert_eq!(Endpoint::Select.request_failure("timeout"), "timeout");
}

#[test]
fn each_request_has_its_address() {
    assert_eq!(
        Endpoint::Login.url(),
        "http://cloud.vm1.vithsutra.com:18083/auth/student/login"
    );
    assert_eq!(
        Endpoint::Controllers.url(),
        "http://cloud.vm1.vithsutra.com:18083/student/controllers"
    );
    assert_eq!(
        Endpoint::Refresh.url(),
        "http://cloud.vm1.vithsutra.com:18083/auth/token/refresh"
    );
    assert_eq!(
        Endpoint::Release.url(),
        "http://cloud.vm1.vithsutra.com:18083/student/controllers/release"
    );
    assert_eq!(
        Endpoint::Select.url(),
        "http://cloud.vm1.vithsutra.com:18083/student/controllers/select"
    );
    assert_eq!(UPLOAD_DONE, "Upload successful");
    assert_eq!(NATS_ADDRESS, "127.0.0.1:4222");
}

#[test]
fn the_build_stage_runs_the_tool_in_the_project() {
    let stage = build_cmd("/home/u/esp-projects/blink");
    assert_eq!(stage.program, "idf.py");
    assert_eq!(stage.args, vec!["build".to_string()]);
    assert_eq!(stage.working_directory, "/home/u/esp-projects/blink");
    assert_eq!(stage.label, "build");
    assert!(stage.env.is_empty());
}

#[test]
fn the_flash_stage_builds_and_flashes() {
    let stage = flash_stage();
    assert_eq!(stage.program, "idf.py");
    assert_eq!(stage.args, vec!["build".to_string(), "flash".to_string()]);
    assert_eq!(stage.working_directory, "");
    assert_eq!(stage.label, "flash");
}

#[test]
fn the_live_stage_runs_what_the_user_typed() {
    let stage = live_stage("ls".to_string(), vec!["-l".to_string(), "/tmp".to_string()]);
    assert_eq!(stage.program, "ls");
    assert_eq!(stage.args, vec!["-l".to_string(), "/tmp".to_string()]);
    assert_eq!(stage.label, "terminal");
    assert_eq!(stage.working_directory, "");
}

#[test]
fn the_build_script_sources_the_toolchain_and_keeps_the_merged_binary() {
    let script = build_script("/home/u/esp/esp-idf/export.sh");
    assert_eq!(
        script,
        "\nset -e\nsource \"/home/u/esp/esp-idf/export.sh\"\n\nidf.py build\nidf.py merge-bin -o merged.bin\n\n# keep only merged.bin inside build\nfind build -mindepth 1 ! -name 'merged.bin' -exec rm -rf {} +\n"
    );
}

#[test]
fn the_full_build_is_one_stage_in_a_login_shell() {
    let pipeline = build_pipeline("/p/blink", "/home/u/esp/esp-idf/export.sh");
    assert_eq!(pipeline.name(), "build+merge+clean");
    assert_eq!(pipeline.len(), 1);
    let stage = pipeline.stage(0).unwrap();
    assert_eq!(stage.program, "bash");
    assert_eq!(stage.args[0], "-lc");
    assert_eq!(stage.args[1], build_script("/home/u/esp/esp-idf/export.sh"));
    assert_eq!(stage.args.len(), 2);
    assert_eq!(stage.working_directory, "/p/blink");
    assert_eq!(stage.label, "build");
}

#[test]
fn a_run_is_shown_as_one_of_four_things() {
    assert_eq!(build_status(RunState::Idle), BuildStatus::Idle);
    assert_eq!(build_status(RunState::Running(0)), BuildStatus::Building);
    assert_eq!(build_status(RunState::Succeeded), BuildStatus::Success);
    assert_eq!(build_status(RunState::Failed(0, ExitReason::Code(1))), BuildStatus::Failed);
    assert_eq!(build_status(RunState::SpawnFailed(0)), BuildStatus::Failed);
}

#[test]
fn file_nodes_are_files_or_folders() {
    let leaf = FileNode::file(
        "/p/a.c".to_string(),
        "a.c".to_string(),
        Some("int main;".to_string()),
        "p",
    );
    assert_eq!(leaf.node_type, "file");
    assert_eq!(leaf.content, Some("int main;".to_string()));
    assert_eq!(leaf.children, None);
    assert_eq!(leaf.folder_name, "p");
    let unreadable = FileNode::file("/p/x".to_string(), "x".to_string(), None, "p");
    assert_eq!(unreadable.content, None);
    let node = FileNode::folder("/p/src".to_string(), "src".to_string(), vec![leaf], "p");
    assert_eq!(node.node_type, "folder");
    assert_eq!(node.id, "/p/src");
    assert_eq!(node.name, "src");
    assert_eq!(node.content, None);
    assert_eq!(node.children.as_ref().unwrap().len(), 1);
    assert_eq!(node.folder_name, "p");
}

#[test]
fn a_new_session_has_nothing_open() {
    let state = AppState::default();
    assert_eq!(state.active_project, None);
    assert!(state.selected_controllers.is_empty());
}

#[test]
fn the_records_of_the_service_are_plain_data() {
    let login = LoginResponse { refresh_token: Some("t".to_string()), message: None };
    assert_eq!(login.clone(), login);
    let board = Controller {
        controller_id: "c1".to_string(),
        controller_no: 3,
        device_id: "d".to_string(),
        status: "free".to_string(),
        selectable: true,
    };
    let boards = ControllersResponse { controllers: vec![board.clone()], status: "ok".to_string() };
    assert_eq!(boards.controllers[0], board);
    assert_eq!(RefreshResponse { access_token: "a".to_string() }.access_token, "a");
    let release = ReleaseControllerRequest { controller_id: "c1".to_string() };
    let select = SelectControllerRequest { controller_id: "c1".to_string() };
    assert_eq!(release.controller_id, select.controller_id);
    assert!(ReleaseControllerResponse { success: true, message: None }.success);
    assert!(!SelectControllerResponse { success: false, message: Some("taken".to_string()) }.success);
    let record = controller {
        id: "c1".to_string(),
        model: "esp32".to_string(),
        status: ControllerStatus::Available,
    };
    assert_ne!(record.status, ControllerStatus::Flashing);
    let request = FlashRequest {
        controller_id: "c1".to_string(),
        firmware_url: "http://x/merged.bin".to_string(),
        timeout_minutes: 5,
    };
    let message = NatsMessage { event: "flash".to_string(), payload: request.clone() };
    assert_eq!(message.payload, request);
    assert_eq!(BuildRequest { project_path: "/p".to_string() }.project_path, "/p");
}
