//! Resolving, rendering, and the `new` plan.

use cproj::dispatch::handle_new_project;
use cproj::error::ProjectError;
use cproj::layout::ProjectLayout;
use cproj::render::render_descriptor;
use cproj::render::render_gitignore;
use cproj::render::render_starter_source;
use cproj::variant::resolve;
use cproj::variant::FileExtension;

const CPP_DESCRIPTOR: &str = "cmake_minimum_required(VERSION 3.24)
project(demo CXX)

# Set compiler flags
set(CMAKE_CXX_STANDARD 23)
set(CMAKE_CXX_STANDARD_REQUIRED ON)
set(CMAKE_CXX_EXTENSIONS OFF)
set(CMAKE_CXX_FLAGS \"${CMAKE_CXX_FLAGS} -Wall -Werror -Wextra -pedantic -pedantic-errors -g\")

# Include project headers
include_directories(./include)
# Define the source files and dependencies for the executable
set(SOURCE_FILES src/main.cpp)

# Make the project root directory the working directory when we run
set(CMAKE_RUNTIME_OUTPUT_DIRECTORY ${CMAKE_CURRENT_SOURCE_DIR}/bin)
set(CMAKE_EXPORT_COMPILE_COMMANDS TRUE)
add_executable(demo ${SOURCE_FILES})
";

const CPP_STARTER: &str = "#include <iostream>

int main() {
    std::cout << \"Hello, world!\" << std::endl;
    return 0;
}
";

const C_STARTER: &str = "#include <stdio.h>

int main() {
    printf(\"Hello, world!\\n\");
    return 0;
}
";

fn default_layout(name: &str) -> ProjectLayout {
    ProjectLayout {
        project_name: name.to_string(),
        src_dir: "src".to_string(),
        include_dir: "include".to_string(),
        build_dir: "build".to_string(),
        exec_dir: "bin".to_string(),
    }
}

fn new_demo(file_ext: &str, target_exists: bool) -> Result<cproj::dispatch::NewProjectPlan, ProjectError> {
    handle_new_project(
        "demo".to_string(),
        file_ext.to_string(),
        "src".to_string(),
        "include".to_string(),
        "build".to_string(),
        "bin".to_string(),
        target_exists,
    )
}

#[test]
fn resolve_supported_tokens_any_case() {
    assert_eq!(resolve("cpp"), Ok(FileExtension::Cpp));
    assert_eq!(resolve("CPP"), Ok(FileExtension::Cpp));
    assert_eq!(resolve("cPp"), Ok(FileExtension::Cpp));
    assert_eq!(resolve("c"), Ok(FileExtension::C));
    assert_eq!(resolve("C"), Ok(FileExtension::C));
}

#[test]
fn resolve_rejects_other_tokens() {
    match resolve("rs") {
        Err(ProjectError::UnsupportedExtension { token }) => assert_eq!(token, "rs"),
        other => panic!("expected UnsupportedExtension, got {:?}", other),
    }
    assert!(matches!(resolve(""), Err(ProjectError::UnsupportedExtension { .. })));
    assert!(matches!(resolve("cp"), Err(ProjectError::UnsupportedExtension { .. })));
    assert!(matches!(resolve("cppp"), Err(ProjectError::UnsupportedExtension { .. })));
    assert!(matches!(resolve("h"), Err(ProjectError::UnsupportedExtension { .. })));
}

#[test]
fn new_rejects_existing_target() {
    match new_demo("cpp", true) {
        Err(ProjectError::ProjectAlreadyExists { name }) => assert_eq!(name, "demo"),
        other => panic!("expected ProjectAlreadyExists, got {:?}", other),
    }
}

#[test]
fn new_rejects_unsupported_extension() {
    match new_demo("java", false) {
        Err(ProjectError::UnsupportedExtension { token }) => assert_eq!(token, "java"),
        other => panic!("expected UnsupportedExtension, got {:?}", other),
    }
}

#[test]
fn new_cpp_plan_with_defaults() {
    let plan = new_demo("cpp", false).expect("plan");
    assert_eq!(
        plan.directories,
        vec![
            "demo/src".to_string(),
            "demo/include".to_string(),
            "demo/build".to_string(),
            "demo/bin".to_string(),
        ]
    );
    assert_eq!(plan.files.len(), 3);
    assert_eq!(plan.files[0].path, "demo/.gitignore");
    assert_eq!(
        plan.files[0].content,
        "\n.*\n\n# Build and executable directories\nbuild\nbin\n"
    );
    assert_eq!(plan.files[1].path, "demo/CMakeLists.txt");
    assert_eq!(plan.files[1].content, CPP_DESCRIPTOR);
    assert!(plan.files[1].content.contains("CMAKE_CXX_STANDARD 23"));
    assert_eq!(plan.files[2].path, "demo/src/main.cpp");
    assert_eq!(plan.files[2].content, CPP_STARTER);
    assert!(plan.files[2].content.contains("#include <iostream>"));
    assert!(plan.files[2].content.contains("Hello, world!"));
    assert_eq!(plan.configure, "cmake -S ./demo/ -B ./demo/build/");
    assert_eq!(
        plan.version_control,
        "cd demo && git init && git add . && git commit -m \"Initial commit\""
    );
}

#[test]
fn new_c_plan_with_defaults() {
    let plan = new_demo("c", false).expect("plan");
    assert_eq!(plan.files[2].path, "demo/src/main.c");
    assert_eq!(plan.files[2].content, C_STARTER);
    assert!(plan.files[2].content.contains("#include <stdio.h>"));
    assert!(plan.files[2].content.contains("printf(\"Hello, world!\\n\");"));
    assert!(plan.files[1].content.contains("CMAKE_C_STANDARD 17"));
    assert!(plan.files[1].content.contains("project(demo C)"));
}

#[test]
fn new_uppercase_extension_matches_lowercase_plan() {
    let upper = new_demo("CPP", false).expect("plan");
    let lower = new_demo("cpp", false).expect("plan");
    assert_eq!(upper.files[1].content, lower.files[1].content);
    assert_eq!(upper.files[2].path, lower.files[2].path);
    assert_eq!(upper.files[2].content, lower.files[2].content);
}

#[test]
fn rendering_is_pure() {
    let layout = default_layout("demo");
    let first = render_descriptor(&layout, FileExtension::Cpp);
    let second = render_descriptor(&layout, FileExtension::Cpp);
    assert_eq!(first.path, second.path);
    assert_eq!(first.content, second.content);
    let g1 = render_gitignore(&layout);
    let g2 = render_gitignore(&layout);
    assert_eq!(g1.content, g2.content);
    let s1 = render_starter_source(&layout, FileExtension::C);
    let s2 = render_starter_source(&layout, FileExtension::C);
    assert_eq!(s1.content, s2.content);
}

#[test]
fn rendering_honors_custom_directory_names() {
    let layout = ProjectLayout {
        project_name: "app".to_string(),
        src_dir: "code".to_string(),
        include_dir: "headers".to_string(),
        build_dir: "out".to_string(),
        exec_dir: "dist".to_string(),
    };
    let ignore = render_gitignore(&layout);
    assert_eq!(ignore.path, "app/.gitignore");
    assert_eq!(
        ignore.content,
        "\n.*\n\n# Build and executable directories\nout\ndist\n"
    );
    let descriptor = render_descriptor(&layout, FileExtension::C);
    assert!(descriptor.content.contains("include_directories(./headers)"));
    assert!(descriptor.content.contains("set(SOURCE_FILES code/main.c)"));
    assert!(descriptor
        .content
        .contains("set(CMAKE_RUNTIME_OUTPUT_DIRECTORY ${CMAKE_CURRENT_SOURCE_DIR}/dist)"));
    let starter = render_starter_source(&layout, FileExtension::C);
    assert_eq!(starter.path, "app/code/main.c");
}
