//! The Process Runner's verified half.
//!
//! The library never spawns anything itself. It composes the exact command
//! line for each external step — configuring, building, version-control
//! initialization, launching the built executable, formatting — and decides,
//! from the [`CommandResult`] the caller captured, whether the step counts
//! as succeeded and what to relay to the user. The unverified binary around
//! the library does nothing with a child process but spawn the command line
//! given here and hand back the captured result.

use vstd::prelude::*;

use crate::error::ProjectError;

verus! {

/// What one external invocation came to: whether the child exited
/// successfully, and what it left on its two output streams.
#[derive(Debug)]
pub struct CommandResult {
    pub success: bool,
    pub stdout: String,
    pub stderr: String,
}

/// The configure step: `cmake -S ./<root>/ -B ./<root>/<build>/`.
pub open spec fn configure_command_spec(root_dir: Seq<char>, build_dir: Seq<char>) -> Seq<
    char,
> {
    "cmake -S ./"@ + root_dir + "/ -B ./"@ + root_dir + "/"@ + build_dir + "/"@
}

/// The build step: `cmake --build ./<build>/`.
pub open spec fn build_command_spec(build_dir: Seq<char>) -> Seq<char> {
    "cmake --build ./"@ + build_dir + "/"@
}

/// One-time version-control initialization, run inside the project root:
/// init, stage everything, commit.
pub open spec fn version_control_command_spec(name: Seq<char>) -> Seq<char> {
    "cd "@ + name + " && git init && git add . && git commit -m \"Initial commit\""@
}

/// Launching the built executable from the runtime directory, with the
/// user's trailing arguments appended verbatim.
pub open spec fn run_command_spec(
    runtime_dir: Seq<char>,
    exec_name: Seq<char>,
    args: Seq<Seq<char>>,
) -> Seq<char> {
    "cd "@ + runtime_dir + " && ./"@ + exec_name + " "@ + space_joined(args)
}

/// The formatter over every file in the source directory, with the style
/// taken from a style file.
pub open spec fn format_command_spec(src_dir: Seq<char>) -> Seq<char> {
    "clang-format -i -style=file ./"@ + src_dir + "/*"@
}

/// The argument texts separated by single spaces, as `join` with a space
/// separator leaves them.
pub open spec fn space_joined(args: Seq<Seq<char>>) -> Seq<char>
    decreases args.len(),
{
    if args.len() == 0 {
        Seq::empty()
    } else if args.len() == 1 {
        args[0]
    } else {
        space_joined(args.drop_last()) + " "@ + args.last()
    }
}

/// Joins the argument texts with single spaces.
pub fn join_args(args: &Vec<String>) -> (r: String)
    ensures
        r@ == space_joined(args.deep_view()),
{
    let mut r = String::new();
    let n = args.len();
    let mut i: usize = 0;
    while i < n
        invariant
            i <= n,
            n == args.len(),
            r@ == space_joined(args.deep_view().take(i as int)),
        decreases n - i,
    {
        if i > 0 {
            r.append(" ");
        }
        r.append(args[i].as_str());
        proof {
            let dv = args.deep_view();
            assert(dv.take(i + 1).drop_last() =~= dv.take(i as int));
            assert(dv.take(i + 1).last() == dv[i as int]);
        }
        i = i + 1;
    }
    proof {
        assert(args.deep_view().take(n as int) =~= args.deep_view());
    }
    r
}

/// The final `/`-separated segment of a path text: everything after the
/// last separator, or the whole text when it has none.
pub open spec fn last_segment(path: Seq<char>) -> Seq<char>
    decreases path.len(),
{
    if path.len() == 0 {
        path
    } else if path.last() == '/' {
        Seq::empty()
    } else {
        last_segment(path.drop_last()).push(path.last())
    }
}

/// When a suffix of `path` starting at `cut` holds no separator and `cut`
/// sits right after a separator (or at the start), that suffix is the final
/// segment.
proof fn lemma_last_segment_suffix(path: Seq<char>, cut: int)
    requires
        0 <= cut <= path.len(),
        forall|j: int| cut <= j < path.len() ==> path[j] != '/',
        cut == 0 || path[cut - 1] == '/',
    ensures
        last_segment(path) == path.subrange(cut, path.len() as int),
    decreases path.len(),
{
    if cut == path.len() {
        if path.len() == 0 {
            assert(last_segment(path) =~= path.subrange(cut, path.len() as int));
        } else {
            assert(path.last() == '/');
            assert(last_segment(path) =~= path.subrange(cut, path.len() as int));
        }
    } else {
        assert(path.last() != '/');
        let shorter = path.drop_last();
        lemma_last_segment_suffix(shorter, cut);
        assert(last_segment(path) =~= path.subrange(cut, path.len() as int)) by {
            assert(shorter.subrange(cut, shorter.len() as int) =~= path.subrange(
                cut,
                path.len() - 1,
            ));
        }
    }
}

/// Derives the default executable name from the invoking shell's working
/// directory: its final path segment. For the default to name the built
/// executable, the tool has to be invoked from the generated project root —
/// a documented constraint, not something this function can check.
pub fn derive_exec_name(cwd: &str) -> (r: String)
    ensures
        r@ == last_segment(cwd@),
{
    let n = cwd.unicode_len();
    let mut cut: usize = n;
    while cut > 0 && cwd.get_char(cut - 1) != '/'
        invariant
            cut <= n,
            n == cwd@.len(),
            forall|j: int| cut <= j < n ==> cwd@[j] != '/',
        decreases cut,
    {
        cut = cut - 1;
    }
    proof {
        lemma_last_segment_suffix(cwd@, cut as int);
    }
    cwd.substring_char(cut, n).to_owned()
}

/// The executable name `run` uses: the explicit one when given, otherwise
/// the final segment of the working directory.
pub fn resolved_exec_name(explicit: Option<String>, cwd: &str) -> (r: String)
    ensures
        r@ == match explicit {
            Some(name) => name@,
            None => last_segment(cwd@),
        },
{
    match explicit {
        Some(name) => name,
        None => derive_exec_name(cwd),
    }
}

/// Decides what one finished external step means: a successful exit relays
/// the child's standard output; a non-zero exit turns the command and the
/// child's error output into the error that aborts the enclosing chain.
pub fn command_outcome(command: &str, result: CommandResult) -> (r: Result<
    String,
    ProjectError,
>)
    ensures
        result.success ==> (r matches Ok(out) && out@ == result.stdout@),
        !result.success ==> (r matches Err(ProjectError::ProcessExitedNonZero {
            command: c,
            stderr: e,
        }) && c@ == command@ && e@ == result.stderr@),
{
    if result.success {
        Ok(result.stdout)
    } else {
        Err(
            ProjectError::ProcessExitedNonZero {
                command: command.to_owned(),
                stderr: result.stderr,
            },
        )
    }
}

} // verus!
