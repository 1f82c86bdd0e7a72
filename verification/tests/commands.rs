//! Command lines, step sequencing, result interpretation, and messages.

use cproj::command::command_outcome;
use cproj::command::derive_exec_name;
use cproj::command::CommandResult;
use cproj::dispatch::handle_build_project;
use cproj::dispatch::handle_format_project;
use cproj::dispatch::handle_init_project;
use cproj::dispatch::handle_run_project;
use cproj::dispatch::initialize_version_control;
use cproj::dispatch::next_new_stage;
use cproj::dispatch::NewStage;
use cproj::error::ProjectError;
use cproj::message::build_success_message;
use cproj::message::init_project_message;
use cproj::message::new_project_message;

#[test]
fn init_command_shape() {
    assert_eq!(handle_init_project(".", "build"), "cmake -S ././ -B ././build/");
    assert_eq!(
        handle_init_project("demo", "build"),
        "cmake -S ./demo/ -B ./demo/build/"
    );
}

#[test]
fn build_command_shape() {
    assert_eq!(handle_build_project("build"), "cmake --build ./build/");
    assert_eq!(handle_build_project("out"), "cmake --build ./out/");
}

#[test]
fn version_control_command_shape() {
    assert_eq!(
        initialize_version_control("demo"),
        "cd demo && git init && git add . && git commit -m \"Initial commit\""
    );
}

#[test]
fn format_command_shape() {
    assert_eq!(handle_format_project("src"), "clang-format -i -style=file ./src/*");
    assert_eq!(handle_format_project("code"), "clang-format -i -style=file ./code/*");
}

#[test]
fn exec_name_derived_from_working_directory() {
    assert_eq!(derive_exec_name("/tmp/demo"), "demo");
    assert_eq!(derive_exec_name("demo"), "demo");
    assert_eq!(derive_exec_name("/a/b/c"), "c");
    assert_eq!(derive_exec_name("/tmp/demo/"), "");
    assert_eq!(derive_exec_name(""), "");
}

#[test]
fn run_plan_with_derived_name_and_args() {
    let args = vec!["--fast".to_string(), "input.txt".to_string()];
    let plan = handle_run_project("build", "bin", None, &args, "/tmp/demo");
    assert_eq!(plan.build, "cmake --build ./build/");
    assert_eq!(plan.launch, "cd bin && ./demo --fast input.txt");
}

#[test]
fn run_plan_with_explicit_name_and_no_args() {
    let args: Vec<String> = vec![];
    let plan = handle_run_project("build", "bin", Some("tool".to_string()), &args, "/anywhere");
    assert_eq!(plan.launch, "cd bin && ./tool ");
}

#[test]
fn successful_step_relays_stdout() {
    let result = CommandResult {
        success: true,
        stdout: "all good\n".to_string(),
        stderr: "".to_string(),
    };
    assert_eq!(command_outcome("cmake --build ./build/", result), Ok("all good\n".to_string()));
}

#[test]
fn failed_step_becomes_error_with_stderr() {
    let result = CommandResult {
        success: false,
        stdout: "".to_string(),
        stderr: "missing compiler\n".to_string(),
    };
    match command_outcome("cmake --build ./build/", result) {
        Err(ProjectError::ProcessExitedNonZero { command, stderr }) => {
            assert_eq!(command, "cmake --build ./build/");
            assert_eq!(stderr, "missing compiler\n");
        },
        other => panic!("expected ProcessExitedNonZero, got {:?}", other),
    }
}

#[test]
fn failed_configure_stops_new_before_version_control() {
    assert_eq!(next_new_stage(NewStage::Configure, false), None);
}

#[test]
fn successful_configure_is_followed_by_version_control() {
    assert_eq!(next_new_stage(NewStage::Configure, true), Some(NewStage::VersionControl));
    assert_eq!(next_new_stage(NewStage::VersionControl, true), None);
    assert_eq!(next_new_stage(NewStage::VersionControl, false), None);
}

#[test]
fn messages_are_green_wrapped() {
    let msg = new_project_message("demo");
    assert!(msg.starts_with("\u{1b}[32mCreated new project 'demo'\u{1b}[0;"));
    assert!(msg.ends_with("m"));
    let msg = init_project_message("build");
    assert!(msg.starts_with("\u{1b}[32mInitialized project in 'build'\u{1b}[0;"));
    let msg = build_success_message();
    assert!(msg.starts_with("\u{1b}[32mBuild successful\u{1b}[0;"));
    assert_ne!(msg, "Build successful");
}

#[test]
fn error_messages_are_exact() {
    let e = ProjectError::ProjectAlreadyExists { name: "demo".to_string() };
    assert_eq!(e.message(), "Project 'demo' already exists");
    let e = ProjectError::UnsupportedExtension { token: "rs".to_string() };
    assert_eq!(
        e.message(),
        "Unsupported file extension 'rs': valid file extensions are 'cpp' and 'c'"
    );
    let e = ProjectError::Filesystem {
        operation: "Failed to create source directory".to_string(),
        cause: "permission denied".to_string(),
    };
    assert_eq!(e.message(), "Failed to create source directory: permission denied");
    let e = ProjectError::ProcessSpawnFailed {
        command: "cmake --build ./build/".to_string(),
        cause: "no shell".to_string(),
    };
    assert_eq!(e.message(), "Failed to spawn command 'cmake --build ./build/': no shell");
    let e = ProjectError::ProcessExitedNonZero {
        command: "cmake --build ./build/".to_string(),
        stderr: "boom".to_string(),
    };
    assert_eq!(e.message(), "Command 'cmake --build ./build/' failed:\nboom");
}

#[test]
fn new_plan_hands_out_stage_commands() {
    let plan = cproj::dispatch::handle_new_project(
        "demo".to_string(),
        "cpp".to_string(),
        "src".to_string(),
        "include".to_string(),
        "build".to_string(),
        "bin".to_string(),
        false,
    )
    .expect("plan");
    assert_eq!(plan.command_for(NewStage::Configure), &plan.configure);
    assert_eq!(plan.command_for(NewStage::VersionControl), &plan.version_control);
}

#[test]
fn layout_directory_paths_in_order() {
    let layout = cproj::layout::ProjectLayout {
        project_name: "app".to_string(),
        src_dir: "code".to_string(),
        include_dir: "headers".to_string(),
        build_dir: "out".to_string(),
        exec_dir: "dist".to_string(),
    };
    assert_eq!(
        layout.directory_paths(),
        vec![
            "app/code".to_string(),
            "app/headers".to_string(),
            "app/out".to_string(),
            "app/dist".to_string(),
        ]
    );
}
