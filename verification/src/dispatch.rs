//! The Command Dispatcher.
//!
//! One handler per subcommand. Each handler decides everything its
//! subcommand needs decided — which paths to create, which file contents to
//! write, which command lines to hand to the shell — and returns them as
//! plain values; the unverified binary only carries the plan out in order.
//! Multi-step chains stop at the first failing step: the policy saying so is
//! [`next_new_stage`], and nothing after a failure is ever handed out.

use vstd::prelude::*;

use crate::command::build_command_spec;
use crate::command::configure_command_spec;
use crate::command::format_command_spec;
use crate::command::join_args;
use crate::command::last_segment;
use crate::command::resolved_exec_name;
use crate::command::run_command_spec;
use crate::command::version_control_command_spec;
use crate::error::ProjectError;
use crate::layout::ProjectLayout;
use crate::layout::under_root;
use crate::render::RenderedFile;
use crate::render::create_project_files;
use crate::render::descriptor_content_spec;
use crate::render::descriptor_path_spec;
use crate::render::gitignore_content_spec;
use crate::render::gitignore_path_spec;
use crate::render::starter_source_content_spec;
use crate::render::starter_source_path_spec;
use crate::variant::resolve;
use crate::variant::variant_for;

verus! {

/// Everything `new` will do once it is allowed to: the directories to
/// create, the files to write, and the two commands to run, in that order.
#[derive(Debug)]
pub struct NewProjectPlan {
    /// The four directories to create, in creation order.
    pub directories: Vec<String>,
    /// The three files to write, in writing order.
    pub files: Vec<RenderedFile>,
    /// The build-tool configure step, run after the files are written.
    pub configure: String,
    /// The version-control initialization, run only after a successful
    /// configure step.
    pub version_control: String,
}

/// Decides the whole of `new` up front: rejects a target that already
/// exists, then an unsupported extension token — both before anything would
/// touch the disk — and otherwise returns the full plan, every path,
/// content and command line of which is pinned here.
pub fn handle_new_project(
    name: String,
    file_ext: String,
    src_dir: String,
    include_dir: String,
    build_dir: String,
    exec_dir: String,
    target_exists: bool,
) -> (r: Result<NewProjectPlan, ProjectError>)
    ensures
        target_exists ==> (r matches Err(ProjectError::ProjectAlreadyExists { name: n })
            && n@ == name@),
        !target_exists ==> match variant_for(file_ext@) {
            None => (r matches Err(ProjectError::UnsupportedExtension { token: t })
                && t@ == file_ext@),
            Some(v) => (r matches Ok(p) && p.directories.deep_view() == seq![
                under_root(name@, src_dir@),
                under_root(name@, include_dir@),
                under_root(name@, build_dir@),
                under_root(name@, exec_dir@),
            ] && p.files@.len() == 3 && p.files@[0].path@ == gitignore_path_spec(name@)
                && p.files@[0].content@ == gitignore_content_spec(build_dir@, exec_dir@)
                && p.files@[1].path@ == descriptor_path_spec(name@)
                && p.files@[1].content@ == descriptor_content_spec(
                name@,
                src_dir@,
                include_dir@,
                exec_dir@,
                v,
            ) && p.files@[2].path@ == starter_source_path_spec(name@, src_dir@, v)
                && p.files@[2].content@ == starter_source_content_spec(v)
                && p.configure@ == configure_command_spec(name@, build_dir@)
                && p.version_control@ == version_control_command_spec(name@)),
        },
{
    if target_exists {
        return Err(ProjectError::ProjectAlreadyExists { name });
    }
    let variant = match resolve(file_ext.as_str()) {
        Ok(v) => v,
        Err(e) => {
            return Err(e);
        },
    };
    let layout = ProjectLayout { project_name: name, src_dir, include_dir, build_dir, exec_dir };
    let directories = layout.directory_paths();
    let files = create_project_files(&layout, variant);
    let configure = handle_init_project(layout.project_name.as_str(), layout.build_dir.as_str());
    let version_control = initialize_version_control(layout.project_name.as_str());
    Ok(NewProjectPlan { directories, files, configure, version_control })
}

/// Composes the configure step for a project root: the build tool is
/// pointed at the root and told to put its working files under the root's
/// build directory.
pub fn handle_init_project(root_dir: &str, build_dir: &str) -> (cmd: String)
    ensures
        cmd@ == configure_command_spec(root_dir@, build_dir@),
{
    let mut cmd = String::from_str("cmake -S ./");
    cmd.append(root_dir);
    cmd.append("/ -B ./");
    cmd.append(root_dir);
    cmd.append("/");
    cmd.append(build_dir);
    cmd.append("/");
    cmd
}

/// Composes the build step for a build directory.
pub fn handle_build_project(build_dir: &str) -> (cmd: String)
    ensures
        cmd@ == build_command_spec(build_dir@),
{
    let mut cmd = String::from_str("cmake --build ./");
    cmd.append(build_dir);
    cmd.append("/");
    cmd
}

/// Composes the one-time version-control initialization run inside a fresh
/// project root: init, stage everything, commit.
pub fn initialize_version_control(name: &str) -> (cmd: String)
    ensures
        cmd@ == version_control_command_spec(name@),
{
    let mut cmd = String::from_str("cd ");
    cmd.append(name);
    cmd.append(" && git init && git add . && git commit -m \"Initial commit\"");
    cmd
}

/// Composes the formatter invocation over every file in the source
/// directory.
pub fn handle_format_project(src_dir: &str) -> (cmd: String)
    ensures
        cmd@ == format_command_spec(src_dir@),
{
    let mut cmd = String::from_str("clang-format -i -style=file ./");
    cmd.append(src_dir);
    cmd.append("/*");
    cmd
}

/// The two commands `run` chains: build first, and only on success launch
/// the executable.
#[derive(Debug)]
pub struct RunPlan {
    /// The build step, run first.
    pub build: String,
    /// Launching the built executable, run only after a successful build.
    pub launch: String,
}

/// Decides `run`: the executable name is the explicit one when given,
/// otherwise the final segment of the invoking shell's working directory
/// (passed in explicitly), and the user's trailing arguments are appended
/// verbatim.
pub fn handle_run_project(
    build_dir: &str,
    runtime_dir: &str,
    exec_name: Option<String>,
    args: &Vec<String>,
    cwd: &str,
) -> (r: RunPlan)
    ensures
        r.build@ == build_command_spec(build_dir@),
        r.launch@ == run_command_spec(
            runtime_dir@,
            match exec_name {
                Some(name) => name@,
                None => last_segment(cwd@),
            },
            args.deep_view(),
        ),
{
    let name = resolved_exec_name(exec_name, cwd);
    let joined = join_args(args);
    let build = handle_build_project(build_dir);
    let mut launch = String::from_str("cd ");
    launch.append(runtime_dir);
    launch.append(" && ./");
    launch.append(name.as_str());
    launch.append(" ");
    launch.append(joined.as_str());
    RunPlan { build, launch }
}

/// The externally run steps of `new`, in order.
#[derive(Debug, Clone, Copy, PartialEq, Eq, Structural)]
pub enum NewStage {
    /// The build-tool configure step.
    Configure,
    /// The version-control initialization.
    VersionControl,
}

/// `new`'s sequencing policy: after a successful configure step comes the
/// version-control step; after the version-control step, or after any
/// failed step, comes nothing.
pub open spec fn next_new_stage_spec(stage: NewStage, succeeded: bool) -> Option<NewStage> {
    if succeeded && stage == NewStage::Configure {
        Some(NewStage::VersionControl)
    } else {
        None
    }
}

/// Hands out the step that follows `stage` in `new`'s chain, given whether
/// `stage` succeeded; `None` ends the chain.
pub fn next_new_stage(stage: NewStage, succeeded: bool) -> (r: Option<NewStage>)
    ensures
        r == next_new_stage_spec(stage, succeeded),
{
    if succeeded {
        match stage {
            NewStage::Configure => Some(NewStage::VersionControl),
            NewStage::VersionControl => None,
        }
    } else {
        None
    }
}

/// A failed step ends `new`'s chain: in particular, when the configure step
/// exits non-zero, the version-control initialization is never handed out.
pub proof fn lemma_failed_step_stops_new(stage: NewStage)
    ensures
        next_new_stage_spec(stage, false) is None,
{
}

impl NewProjectPlan {
    /// The command line of one externally run stage of this plan.
    pub fn command_for(&self, stage: NewStage) -> (r: &String)
        ensures
            r@ == match stage {
                NewStage::Configure => self.configure@,
                NewStage::VersionControl => self.version_control@,
            },
    {
        match stage {
            NewStage::Configure => &self.configure,
            NewStage::VersionControl => &self.version_control,
        }
    }
}

} // verus!
