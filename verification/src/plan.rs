use vstd::prelude::*;
use crate::config::Config;
use crate::paths::{joined, last_segment, project_name, join_path};

verus! {

/// The exit code for a usage error, and the fallback when a child's own
/// exit code cannot be determined.
pub const FAILURE_EXIT_CODE: i32 = 1;

/// One filesystem action of the mirror step, in the order the runner
/// performs them.
#[derive(Clone, Copy, Debug, PartialEq, Eq)]
pub enum MirrorStep {
    /// Recursively delete the existing staging root.
    RemoveStagingRoot,
    /// Create the staging root, with any missing parents.
    CreateStagingRoot,
    /// Recursively copy the whole project directory into the staging root,
    /// overwriting conflicting entries, so that the project becomes a
    /// subdirectory of the staging root named after its own final segment.
    CopyProject,
}

/// Whether the skip-copy environment value asks to reuse the staging
/// directory's current contents: it must be exactly `"true"`.
pub open spec fn spec_skip_requested(v: Option<Seq<char>>) -> bool {
    v matches Some(s) && s == "true"@
}

/// Whether the preservation environment value asks to keep the staging
/// directory after the run: `"true"` or `"1"`.
pub open spec fn spec_preserve_requested(v: Option<Seq<char>>) -> bool {
    v matches Some(s) && (s == "true"@ || s == "1"@)
}

/// The mirror actions for one run, given whether the skip flag is set and
/// whether the staging root already exists on disk.
pub open spec fn spec_mirror_steps(skip: bool, staging_exists: bool) -> Seq<MirrorStep> {
    if skip {
        Seq::<MirrorStep>::empty()
    } else if staging_exists {
        seq![MirrorStep::RemoveStagingRoot, MirrorStep::CreateStagingRoot, MirrorStep::CopyProject]
    } else {
        seq![MirrorStep::CreateStagingRoot, MirrorStep::CopyProject]
    }
}

/// The wrapper's own exit code for a finished child: the child's code when
/// it has one, the generic failure code when it does not (for instance when
/// the child was killed by a signal).
pub open spec fn spec_exit_code(status: Option<i32>) -> i32 {
    match status {
        Some(n) => n,
        None => FAILURE_EXIT_CODE,
    }
}

/// The model of a run plan: everything the runner is to do for one
/// invocation, decided up front from plain values.
#[verifier::ext_equal]
pub enum PlanModel {
    /// Too few arguments: report usage and exit with the failure code.
    Usage,
    /// Short project path: run the requested subcommand in the project
    /// directory itself; no staging directory is touched.
    Direct { subcommand: Seq<char>, args: Seq<Seq<char>> },
    /// Long project path: perform the mirror steps, run the build tool's
    /// clean subcommand inside the staging copy, then the requested
    /// subcommand there, and exit with the latter's status.
    Redirect {
        steps: Seq<MirrorStep>,
        build_dir: Seq<char>,
        clean_subcommand: Seq<char>,
        subcommand: Seq<char>,
        args: Seq<Seq<char>>,
    },
}

/// The plan for one invocation. `args` is the whole argument vector (the
/// wrapper's own name and dispatch name first, the subcommand third), `cwd`
/// the project directory's path, `skip_env` the skip-copy environment value,
/// and `staging_exists` whether the staging root is on disk.
pub open spec fn spec_plan(
    base: Seq<char>,
    limit: nat,
    args: Seq<Seq<char>>,
    cwd: Seq<char>,
    skip_env: Option<Seq<char>>,
    staging_exists: bool,
) -> PlanModel {
    if args.len() < 3 {
        PlanModel::Usage
    } else if cwd.len() < limit {
        PlanModel::Direct { subcommand: args[2], args: args.skip(3) }
    } else {
        PlanModel::Redirect {
            steps: spec_mirror_steps(spec_skip_requested(skip_env), staging_exists),
            build_dir: joined(base, last_segment(cwd)),
            clean_subcommand: "clean"@,
            subcommand: args[2],
            args: args.skip(3),
        }
    }
}

/// A run plan, as the runner receives it.
#[derive(Debug, PartialEq, Eq)]
pub enum Plan {
    /// Too few arguments: report usage and exit with the failure code.
    Usage,
    /// Run the subcommand directly in the project directory.
    Direct { subcommand: String, args: Vec<String> },
    /// Mirror the project, clean, and build inside the staging copy.
    Redirect {
        steps: Vec<MirrorStep>,
        build_dir: String,
        clean_subcommand: String,
        subcommand: String,
        args: Vec<String>,
    },
}

impl View for Plan {
    type V = PlanModel;

    open spec fn view(&self) -> PlanModel {
        match self {
            Plan::Usage => PlanModel::Usage,
            Plan::Direct { subcommand, args } => PlanModel::Direct {
                subcommand: subcommand@,
                args: args.deep_view(),
            },
            Plan::Redirect { steps, build_dir, clean_subcommand, subcommand, args } => (
                PlanModel::Redirect {
                    steps: steps@,
                    build_dir: build_dir@,
                    clean_subcommand: clean_subcommand@,
                    subcommand: subcommand@,
                    args: args.deep_view(),
                }
            ),
        }
    }
}

/// Whether the skip-copy environment value asks to reuse the staging
/// contents.
pub fn skip_copy_requested(v: &Option<String>) -> (b: bool)
    ensures
        b == spec_skip_requested(v.deep_view()),
{
    match v {
        Some(s) => {
            let t: String = String::from_str("true");
            *s == t
        },
        None => false,
    }
}

/// Whether the preservation environment value asks to keep the staging
/// directory after the run.
pub fn preserve_requested(v: &Option<String>) -> (b: bool)
    ensures
        b == spec_preserve_requested(v.deep_view()),
{
    match v {
        Some(s) => {
            let t: String = String::from_str("true");
            let one: String = String::from_str("1");
            *s == t || *s == one
        },
        None => false,
    }
}

/// The mirror actions for one run.
pub fn mirror_steps(skip: bool, staging_exists: bool) -> (v: Vec<MirrorStep>)
    ensures
        v@ == spec_mirror_steps(skip, staging_exists),
{
    let mut v: Vec<MirrorStep> = Vec::new();
    if !skip {
        if staging_exists {
            v.push(MirrorStep::RemoveStagingRoot);
        }
        v.push(MirrorStep::CreateStagingRoot);
        v.push(MirrorStep::CopyProject);
    }
    proof {
        assert(v@ =~= spec_mirror_steps(skip, staging_exists));
    }
    v
}

/// The wrapper's own exit code for a finished child.
pub fn exit_code_for(status: Option<i32>) -> (c: i32)
    ensures
        c == spec_exit_code(status),
{
    match status {
        Some(n) => n,
        None => FAILURE_EXIT_CODE,
    }
}

/// The arguments that are forwarded to the subcommand: everything from the
/// fourth argument on.
fn tail_args(args: &Vec<String>) -> (r: Vec<String>)
    requires
        args@.len() >= 3,
    ensures
        r.deep_view() == args.deep_view().skip(3),
{
    let mut r: Vec<String> = Vec::new();
    let mut i: usize = 3;
    while i < args.len()
        invariant
            3 <= i <= args@.len(),
            r@.len() == i - 3,
            forall|k: int| 0 <= k < i - 3 ==> r@[k]@ == args@[3 + k]@,
        decreases args@.len() - i,
    {
        r.push(args[i].clone());
        i = i + 1;
    }
    proof {
        assert forall|k: int| 0 <= k < r.deep_view().len() implies r.deep_view()[k]
            == args.deep_view().skip(3)[k] by {
            assert(r.deep_view()[k] == r@[k]@);
            assert(args.deep_view().skip(3)[k] == args@[3 + k]@);
        }
        assert(r.deep_view() =~= args.deep_view().skip(3));
    }
    r
}

/// Decide the whole run from plain values: the configuration, the argument
/// vector, the project directory's path, the skip-copy environment value,
/// and whether the staging root exists. The project path must have a final
/// segment whenever redirection is called for, since the staging copy is
/// named after it.
pub fn build_plan(
    cfg: &Config,
    args: &Vec<String>,
    cwd: &str,
    skip_copy_env: &Option<String>,
    staging_exists: bool,
) -> (p: Plan)
    requires
        args@.len() >= 3 && cwd@.len() >= cfg.path_length_limit ==> last_segment(
            cwd@,
        ).len() > 0,
    ensures
        p@ == spec_plan(
            cfg.base_path@,
            cfg.path_length_limit as nat,
            args.deep_view(),
            cwd@,
            skip_copy_env.deep_view(),
            staging_exists,
        ),
{
    let ghost model = spec_plan(
        cfg.base_path@,
        cfg.path_length_limit as nat,
        args.deep_view(),
        cwd@,
        skip_copy_env.deep_view(),
        staging_exists,
    );
    if args.len() < 3 {
        return Plan::Usage;
    }
    let subcommand: String = args[2].clone();
    let sub_args: Vec<String> = tail_args(args);
    let cwd_len: usize = cwd.unicode_len();
    if cwd_len < cfg.path_length_limit {
        let p = Plan::Direct { subcommand, args: sub_args };
        proof {
            assert(p@ =~~= model);
        }
        p
    } else {
        let skip: bool = skip_copy_requested(skip_copy_env);
        let steps: Vec<MirrorStep> = mirror_steps(skip, staging_exists);
        let name: String = project_name(cwd).unwrap();
        let build_dir: String = join_path(cfg.base_path.as_str(), name.as_str());
        let p = Plan::Redirect {
            steps,
            build_dir,
            clean_subcommand: String::from_str("clean"),
            subcommand,
            args: sub_args,
        };
        proof {
            assert(p@ =~~= model);
        }
        p
    }
}

/// The usage report, line by line, as the runner prints it to the error
/// stream on a usage error.
pub fn usage_lines(cfg: &Config) -> (v: Vec<String>)
    ensures
        v@.len() == 7,
        v@[0]@ == "cargo-win-redirect: A wrapper to run cargo commands in a short path."@,
        v@[1]@ == "Usage: cargo winpath-redirect <cargo_command> [cargo_args...]"@,
        v@[2]@ == "Example: cargo winpath-redirect run --release -- --app-arg"@,
        v@[3]@ == "Example: cargo winpath-redirect build --target riscv32imc-esp-espidf"@,
        v@[4]@ == "Configuration via Environment Variables:"@,
        v@[5]@ == "Base path for short project copies (default: "@ + cfg.base_path@ + ")"@,
        v@[6]@
            == "CARGO_WIN_REDIRECT_PRESERVE: Set to 'true' or '1' to preserve the short path directory after execution for debugging."@,
{
    let mut v: Vec<String> = Vec::new();
    v.push(String::from_str("cargo-win-redirect: A wrapper to run cargo commands in a short path."));
    v.push(String::from_str("Usage: cargo winpath-redirect <cargo_command> [cargo_args...]"));
    v.push(String::from_str("Example: cargo winpath-redirect run --release -- --app-arg"));
    v.push(String::from_str("Example: cargo winpath-redirect build --target riscv32imc-esp-espidf"));
    v.push(String::from_str("Configuration via Environment Variables:"));
    let mut base_line: String = String::from_str("Base path for short project copies (default: ");
    base_line.append(cfg.base_path.as_str());
    base_line.append(")");
    v.push(base_line);
    v.push(
        String::from_str(
            "CARGO_WIN_REDIRECT_PRESERVE: Set to 'true' or '1' to preserve the short path directory after execution for debugging.",
        ),
    );
    v
}

} // verus!
