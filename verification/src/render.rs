//! The Template Renderer.
//!
//! Rendering turns a [`ProjectLayout`] and a [`FileExtension`] into the
//! literal text of the three generated files: the ignore file, the build
//! descriptor, and the starter source file. Nothing here touches the
//! filesystem; every function returns an in-memory path/content pair, and
//! the content is pinned exactly by the contract, so rendering is pure.

use vstd::prelude::*;

use crate::layout::ProjectLayout;
use crate::layout::under_root;
use crate::variant::FileExtension;

verus! {

/// One file to be written: where it goes and exactly what it holds.
#[derive(Debug)]
pub struct RenderedFile {
    pub path: String,
    pub content: String,
}

/// Path of the generated ignore file, directly under the project root.
pub open spec fn gitignore_path_spec(name: Seq<char>) -> Seq<char> {
    name + "/.gitignore"@
}

/// Text of the generated ignore file: dotfiles, the build directory and the
/// executable-output directory are kept out of version control.
pub open spec fn gitignore_content_spec(build_dir: Seq<char>, exec_dir: Seq<char>) -> Seq<
    char,
> {
    "\n.*\n\n# Build and executable directories\n"@ + build_dir + "\n"@ + exec_dir + "\n"@
}

/// Path of the generated build descriptor, directly under the project root.
pub open spec fn descriptor_path_spec(name: Seq<char>) -> Seq<char> {
    name + "/CMakeLists.txt"@
}

/// Text of the generated build descriptor: names the project, requires the
/// variant's language standard with vendor extensions off, turns on strict
/// warnings-as-errors flags, adds the include directory to the header search
/// path, compiles the single starter source file, redirects the built
/// executable into the executable-output directory, and exports
/// machine-readable compile commands.
pub open spec fn descriptor_content_spec(
    name: Seq<char>,
    src_dir: Seq<char>,
    include_dir: Seq<char>,
    exec_dir: Seq<char>,
    variant: FileExtension,
) -> Seq<char> {
    "cmake_minimum_required(VERSION 3.24)\nproject("@ + name + " "@ + variant.language_id()
        + ")\n\n# Set compiler flags\nset(CMAKE_"@ + variant.setting_prefix() + "STANDARD "@
        + variant.standard_version() + ")\nset(CMAKE_"@ + variant.setting_prefix()
        + "STANDARD_REQUIRED ON)\nset(CMAKE_"@ + variant.setting_prefix()
        + "EXTENSIONS OFF)\nset(CMAKE_"@ + variant.setting_prefix() + "FLAGS \"${CMAKE_"@
        + variant.setting_prefix()
        + "FLAGS} -Wall -Werror -Wextra -pedantic -pedantic-errors -g\")\n\n# Include project headers\ninclude_directories(./"@
        + include_dir
        + ")\n# Define the source files and dependencies for the executable\nset(SOURCE_FILES "@
        + src_dir + "/main."@ + variant.token()
        + ")\n\n# Make the project root directory the working directory when we run\nset(CMAKE_RUNTIME_OUTPUT_DIRECTORY ${CMAKE_CURRENT_SOURCE_DIR}/"@
        + exec_dir + ")\nset(CMAKE_EXPORT_COMPILE_COMMANDS TRUE)\nadd_executable("@ + name
        + " ${SOURCE_FILES})\n"@
}

/// Path of the starter source file: `main.<token>` inside the source
/// directory.
pub open spec fn starter_source_path_spec(
    name: Seq<char>,
    src_dir: Seq<char>,
    variant: FileExtension,
) -> Seq<char> {
    under_root(name, src_dir) + "/main."@ + variant.token()
}

/// Text of the starter source file: the variant's header inclusion and a
/// `main` that prints the variant's greeting and returns 0.
pub open spec fn starter_source_content_spec(variant: FileExtension) -> Seq<char> {
    variant.include_statement() + "\n\nint main() {\n    "@ + variant.greeting_statement()
        + "\n    return 0;\n}\n"@
}

/// Renders the ignore file for a layout.
pub fn render_gitignore(layout: &ProjectLayout) -> (r: RenderedFile)
    ensures
        r.path@ == gitignore_path_spec(layout.project_name@),
        r.content@ == gitignore_content_spec(layout.build_dir@, layout.exec_dir@),
{
    let mut path = layout.project_name.clone();
    path.append("/.gitignore");
    let mut content = String::from_str("\n.*\n\n# Build and executable directories\n");
    content.append(layout.build_dir.as_str());
    content.append("\n");
    content.append(layout.exec_dir.as_str());
    content.append("\n");
    RenderedFile { path, content }
}

/// Renders the build descriptor for a layout and variant.
pub fn render_descriptor(layout: &ProjectLayout, variant: FileExtension) -> (r: RenderedFile)
    ensures
        r.path@ == descriptor_path_spec(layout.project_name@),
        r.content@ == descriptor_content_spec(
            layout.project_name@,
            layout.src_dir@,
            layout.include_dir@,
            layout.exec_dir@,
            variant,
        ),
{
    let mut path = layout.project_name.clone();
    path.append("/CMakeLists.txt");
    let mut content = String::from_str("cmake_minimum_required(VERSION 3.24)\nproject(");
    content.append(layout.project_name.as_str());
    content.append(" ");
    content.append(variant.language_id_str());
    content.append(")\n\n# Set compiler flags\nset(CMAKE_");
    content.append(variant.setting_prefix_str());
    content.append("STANDARD ");
    content.append(variant.standard_version_str());
    content.append(")\nset(CMAKE_");
    content.append(variant.setting_prefix_str());
    content.append("STANDARD_REQUIRED ON)\nset(CMAKE_");
    content.append(variant.setting_prefix_str());
    content.append("EXTENSIONS OFF)\nset(CMAKE_");
    content.append(variant.setting_prefix_str());
    content.append("FLAGS \"${CMAKE_");
    content.append(variant.setting_prefix_str());
    content.append(
        "FLAGS} -Wall -Werror -Wextra -pedantic -pedantic-errors -g\")\n\n# Include project headers\ninclude_directories(./",
    );
    content.append(layout.include_dir.as_str());
    content.append(
        ")\n# Define the source files and dependencies for the executable\nset(SOURCE_FILES ",
    );
    content.append(layout.src_dir.as_str());
    content.append("/main.");
    content.append(variant.token_str());
    content.append(
        ")\n\n# Make the project root directory the working directory when we run\nset(CMAKE_RUNTIME_OUTPUT_DIRECTORY ${CMAKE_CURRENT_SOURCE_DIR}/",
    );
    content.append(layout.exec_dir.as_str());
    content.append(")\nset(CMAKE_EXPORT_COMPILE_COMMANDS TRUE)\nadd_executable(");
    content.append(layout.project_name.as_str());
    content.append(" ${SOURCE_FILES})\n");
    RenderedFile { path, content }
}

/// Renders the starter source file for a layout and variant.
pub fn render_starter_source(layout: &ProjectLayout, variant: FileExtension) -> (r:
    RenderedFile)
    ensures
        r.path@ == starter_source_path_spec(
            layout.project_name@,
            layout.src_dir@,
            variant,
        ),
        r.content@ == starter_source_content_spec(variant),
{
    let mut path = layout.project_name.clone();
    path.append("/");
    path.append(layout.src_dir.as_str());
    path.append("/main.");
    path.append(variant.token_str());
    let mut content = variant.include_statement_str().to_owned();
    content.append("\n\nint main() {\n    ");
    content.append(variant.greeting_statement_str());
    content.append("\n    return 0;\n}\n");
    RenderedFile { path, content }
}

/// Renders all three generated files, in the order they are written:
/// ignore file, build descriptor, starter source.
pub fn create_project_files(layout: &ProjectLayout, variant: FileExtension) -> (r: Vec<
    RenderedFile,
>)
    ensures
        r@.len() == 3,
        r@[0].path@ == gitignore_path_spec(layout.project_name@),
        r@[0].content@ == gitignore_content_spec(layout.build_dir@, layout.exec_dir@),
        r@[1].path@ == descriptor_path_spec(layout.project_name@),
        r@[1].content@ == descriptor_content_spec(
            layout.project_name@,
            layout.src_dir@,
            layout.include_dir@,
            layout.exec_dir@,
            variant,
        ),
        r@[2].path@ == starter_source_path_spec(
            layout.project_name@,
            layout.src_dir@,
            variant,
        ),
        r@[2].content@ == starter_source_content_spec(variant),
{
    let mut r: Vec<RenderedFile> = Vec::new();
    r.push(render_gitignore(layout));
    r.push(render_descriptor(layout, variant));
    r.push(render_starter_source(layout, variant));
    r
}

/// Rendering is pure: the path and content of every generated file are
/// functions of the layout's field texts and the variant alone, so two
/// renderings from identical inputs are byte-identical.
pub proof fn lemma_rendering_pure(a: ProjectLayout, b: ProjectLayout, variant: FileExtension)
    requires
        a.project_name@ == b.project_name@,
        a.src_dir@ == b.src_dir@,
        a.include_dir@ == b.include_dir@,
        a.build_dir@ == b.build_dir@,
        a.exec_dir@ == b.exec_dir@,
    ensures
        gitignore_path_spec(a.project_name@) == gitignore_path_spec(b.project_name@),
        gitignore_content_spec(a.build_dir@, a.exec_dir@) == gitignore_content_spec(
            b.build_dir@,
            b.exec_dir@,
        ),
        descriptor_path_spec(a.project_name@) == descriptor_path_spec(b.project_name@),
        descriptor_content_spec(
            a.project_name@,
            a.src_dir@,
            a.include_dir@,
            a.exec_dir@,
            variant,
        ) == descriptor_content_spec(
            b.project_name@,
            b.src_dir@,
            b.include_dir@,
            b.exec_dir@,
            variant,
        ),
        starter_source_path_spec(a.project_name@, a.src_dir@, variant)
            == starter_source_path_spec(b.project_name@, b.src_dir@, variant),
        starter_source_content_spec(variant) == starter_source_content_spec(variant),
{
}

} // verus!
