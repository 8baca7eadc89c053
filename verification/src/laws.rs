use vstd::prelude::*;
use crate::paths::{joined, last_segment};
use crate::plan::{
    FAILURE_EXIT_CODE, MirrorStep, PlanModel, spec_exit_code, spec_mirror_steps, spec_plan,
    spec_skip_requested,
};

verus! {

/// Short project paths are built in place: with enough arguments and a
/// project path shorter than the threshold, the plan runs the requested
/// subcommand directly in the project directory, with the caller's own
/// trailing arguments, and the wrapper's exit code is exactly the child's.
pub proof fn lemma_short_path_runs_directly(
    base: Seq<char>,
    limit: nat,
    args: Seq<Seq<char>>,
    cwd: Seq<char>,
    skip_env: Option<Seq<char>>,
    staging_exists: bool,
)
    requires
        args.len() >= 3,
        cwd.len() < limit,
    ensures
        spec_plan(base, limit, args, cwd, skip_env, staging_exists) == (PlanModel::Direct {
            subcommand: args[2],
            args: args.skip(3),
        }),
        forall|n: i32| spec_exit_code(Some(n)) == n,
{
}

/// Long project paths are mirrored: with enough arguments, a path at or
/// over the threshold and the skip flag unset, the plan recreates the
/// staging root (removing it first when it exists) and copies the project
/// tree into it as the last mirror step, and the build directory is the
/// staging root joined with the project's final path segment. What the copy
/// step writes on disk is the filesystem's doing; the plan fixes where it
/// goes and what runs there afterwards.
pub proof fn lemma_long_path_mirrors_into_staging(
    base: Seq<char>,
    limit: nat,
    args: Seq<Seq<char>>,
    cwd: Seq<char>,
    skip_env: Option<Seq<char>>,
    staging_exists: bool,
)
    requires
        args.len() >= 3,
        cwd.len() >= limit,
        !spec_skip_requested(skip_env),
    ensures
        spec_plan(base, limit, args, cwd, skip_env, staging_exists) == (PlanModel::Redirect {
            steps: spec_mirror_steps(false, staging_exists),
            build_dir: joined(base, last_segment(cwd)),
            clean_subcommand: "clean"@,
            subcommand: args[2],
            args: args.skip(3),
        }),
        spec_mirror_steps(false, staging_exists).last() == MirrorStep::CopyProject,
        staging_exists ==> spec_mirror_steps(false, staging_exists) == seq![
            MirrorStep::RemoveStagingRoot,
            MirrorStep::CreateStagingRoot,
            MirrorStep::CopyProject,
        ],
        !staging_exists ==> spec_mirror_steps(false, staging_exists) == seq![
            MirrorStep::CreateStagingRoot,
            MirrorStep::CopyProject,
        ],
{
}

/// With the skip-copy environment value set to exactly `"true"`, the plan
/// holds no mirror step at all, so the staging directory's existing
/// contents are untouched before the build runs.
pub proof fn lemma_skip_copy_leaves_staging_alone(
    base: Seq<char>,
    limit: nat,
    args: Seq<Seq<char>>,
    cwd: Seq<char>,
    skip_env: Option<Seq<char>>,
    staging_exists: bool,
)
    requires
        skip_env matches Some(s) && s == "true"@,
    ensures
        spec_mirror_steps(spec_skip_requested(skip_env), staging_exists) == Seq::<
            MirrorStep,
        >::empty(),
        spec_plan(base, limit, args, cwd, skip_env, staging_exists) matches PlanModel::Redirect {
            steps,
            ..
        } ==> steps.len() == 0,
{
}

/// Exit-code propagation: a child that exits with code N in 0..=255 makes
/// the wrapper exit with exactly N, and an unavailable exit code (a child
/// killed by a signal) becomes the generic failure code 1.
pub proof fn lemma_exit_code_propagation(n: i32)
    requires
        0 <= n <= 255,
    ensures
        spec_exit_code(Some(n)) == n,
        spec_exit_code(None) == FAILURE_EXIT_CODE,
        FAILURE_EXIT_CODE == 1,
{
}

/// Usage error: with fewer than 3 argument-vector entries — fewer than 2
/// trailing arguments after the wrapper's own name — the plan is the usage
/// report, whatever everything else holds, and the usage exit code is 1.
pub proof fn lemma_usage_error(
    base: Seq<char>,
    limit: nat,
    args: Seq<Seq<char>>,
    cwd: Seq<char>,
    skip_env: Option<Seq<char>>,
    staging_exists: bool,
)
    requires
        args.len() < 3,
    ensures
        spec_plan(base, limit, args, cwd, skip_env, staging_exists) == PlanModel::Usage,
        FAILURE_EXIT_CODE == 1,
{
}

} // verus!
