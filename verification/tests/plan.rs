use win_redirect::config::{Config, build_tool, preserve_env_var, skip_copy_env_var};
use win_redirect::plan::{
    FAILURE_EXIT_CODE, MirrorStep, Plan, build_plan, exit_code_for, mirror_steps,
    preserve_requested, skip_copy_requested, usage_lines,
};

fn args_of(parts: &[&str]) -> Vec<String> {
    parts.iter().map(|s| String::from(*s)).collect()
}

#[test]
fn default_config() {
    let cfg = Config::new();
    assert_eq!(cfg.base_path, String::from("c:\\b"));
    assert_eq!(cfg.path_length_limit, 10);
}

#[test]
fn tool_and_env_var_names() {
    assert_eq!(build_tool(), "cargo");
    assert_eq!(skip_copy_env_var(), "SKIP_PROJECT_COPY");
    assert_eq!(preserve_env_var(), "CARGO_WIN_REDIRECT_PRESERVE");
}

#[test]
fn short_path_runs_directly() {
    // Project path of 5 characters, under the threshold of 10: the plan runs
    // `run --release` straight in the project directory, touching no staging.
    let cfg = Config::new();
    let args = args_of(&["cargo-win-redirect", "win-redirect", "run", "--release"]);
    let plan = build_plan(&cfg, &args, "C:\\ab", &None, false);
    assert_eq!(
        plan,
        Plan::Direct { subcommand: String::from("run"), args: args_of(&["--release"]) }
    );
}

#[test]
fn long_path_is_redirected_into_fresh_staging() {
    // Path of 25 characters, staging root absent, skip-copy unset: create the
    // staging root, copy the project in, then clean and build inside
    // `c:\b\app`.
    let cfg = Config::new();
    let args = args_of(&["cargo-win-redirect", "win-redirect", "build", "--release"]);
    let cwd = "C:\\users\\dev\\projects\\app";
    assert_eq!(cwd.chars().count(), 25);
    let plan = build_plan(&cfg, &args, cwd, &None, false);
    assert_eq!(
        plan,
        Plan::Redirect {
            steps: vec![MirrorStep::CreateStagingRoot, MirrorStep::CopyProject],
            build_dir: String::from("c:\\b\\app"),
            clean_subcommand: String::from("clean"),
            subcommand: String::from("build"),
            args: args_of(&["--release"]),
        }
    );
}

#[test]
fn long_path_clears_existing_staging_first() {
    let cfg = Config::new();
    let args = args_of(&["cargo-win-redirect", "win-redirect", "run"]);
    let cwd = "C:\\users\\dev\\projects\\app";
    let plan = build_plan(&cfg, &args, cwd, &None, true);
    match plan {
        Plan::Redirect { steps, build_dir, .. } => {
            assert_eq!(
                steps,
                vec![
                    MirrorStep::RemoveStagingRoot,
                    MirrorStep::CreateStagingRoot,
                    MirrorStep::CopyProject,
                ]
            );
            assert_eq!(build_dir, String::from("c:\\b\\app"));
        }
        other => panic!("expected a redirect plan, got {:?}", other),
    }
}

#[test]
fn skip_copy_flag_leaves_staging_untouched() {
    // With the skip-copy variable at "true" there is no mirror step at all,
    // even when the staging root already exists.
    let cfg = Config::new();
    let args = args_of(&["cargo-win-redirect", "win-redirect", "run"]);
    let cwd = "C:\\users\\dev\\projects\\app";
    let plan = build_plan(&cfg, &args, cwd, &Some(String::from("true")), true);
    match plan {
        Plan::Redirect { steps, .. } => assert_eq!(steps, Vec::new()),
        other => panic!("expected a redirect plan, got {:?}", other),
    }
}

#[test]
fn too_few_arguments_is_a_usage_error() {
    let cfg = Config::new();
    let args = args_of(&["cargo-win-redirect", "win-redirect"]);
    let plan = build_plan(&cfg, &args, "C:\\users\\dev\\projects\\app", &None, false);
    assert_eq!(plan, Plan::Usage);
    assert_eq!(FAILURE_EXIT_CODE, 1);
}

#[test]
fn usage_report_names_the_invocation_form() {
    let cfg = Config::new();
    let lines = usage_lines(&cfg);
    assert_eq!(lines.len(), 7);
    assert_eq!(lines[1], "Usage: cargo winpath-redirect <cargo_command> [cargo_args...]");
    assert_eq!(lines[5], "Base path for short project copies (default: c:\\b)");
}

#[test]
fn mirror_steps_cover_all_cases() {
    assert_eq!(mirror_steps(true, true), Vec::new());
    assert_eq!(mirror_steps(true, false), Vec::new());
    assert_eq!(
        mirror_steps(false, false),
        vec![MirrorStep::CreateStagingRoot, MirrorStep::CopyProject]
    );
    assert_eq!(
        mirror_steps(false, true),
        vec![
            MirrorStep::RemoveStagingRoot,
            MirrorStep::CreateStagingRoot,
            MirrorStep::CopyProject,
        ]
    );
}

#[test]
fn exit_codes_pass_through() {
    assert_eq!(exit_code_for(Some(0)), 0);
    assert_eq!(exit_code_for(Some(42)), 42);
    assert_eq!(exit_code_for(Some(255)), 255);
}

#[test]
fn missing_exit_code_becomes_failure() {
    assert_eq!(exit_code_for(None), 1);
}

#[test]
fn skip_copy_value_must_be_exactly_true() {
    assert!(skip_copy_requested(&Some(String::from("true"))));
    assert!(!skip_copy_requested(&Some(String::from("TRUE"))));
    assert!(!skip_copy_requested(&Some(String::from("false"))));
    assert!(!skip_copy_requested(&Some(String::from("1"))));
    assert!(!skip_copy_requested(&None));
}

#[test]
fn preserve_value_is_true_or_one() {
    assert!(preserve_requested(&Some(String::from("true"))));
    assert!(preserve_requested(&Some(String::from("1"))));
    assert!(!preserve_requested(&Some(String::from("0"))));
    assert!(!preserve_requested(&Some(String::from("yes"))));
    assert!(!preserve_requested(&None));
}
