use erlup::config::{lookup, update, ConfigData};
use erlup::pipeline::{
    finish_build, make_plan, run, BuildError, BuildPlan, BuildStep, Engine, GateDecision,
};

fn empty_config() -> ConfigData {
    ConfigData { sections: Vec::new() }
}

fn exec_of(step: &BuildStep) -> (String, Vec<String>) {
    match step {
        BuildStep::Exec { cmd, args } => (cmd.clone(), args.clone()),
        _ => panic!("expected a command step"),
    }
}

fn plan_of(r: Result<BuildPlan, BuildError>) -> BuildPlan {
    match r {
        Ok(p) => p,
        Err(e) => panic!("expected a plan, got {:?}", e),
    }
}

#[test]
fn plan_lays_out_directories_under_the_cache() {
    let p = plan_of(make_plan("/c", "default", "https://u", "v1", "v1", "", 4));
    assert_eq!(p.git_ref, "v1");
    assert_eq!(p.repo_url, "https://u");
    assert_eq!(p.repo_dir, "/c/repos/default");
    assert_eq!(p.install_dir, "/c/otps/v1");
    assert_eq!(p.dist_dir, "/c/otps/v1/dist");
    assert_eq!(p.links_dir, "/c/bin");
}

#[test]
fn plan_steps_come_in_the_fixed_order() {
    let p = plan_of(make_plan("/c", "default", "https://u", "v1", "v1", "", 4));
    assert_eq!(p.steps.len(), 8);

    let (cmd, args) = exec_of(&p.steps[0]);
    assert_eq!(cmd, "./otp_build");
    assert_eq!(args, vec!["autoconf"]);

    let (cmd, args) = exec_of(&p.steps[1]);
    assert_eq!(cmd, "./configure");
    assert_eq!(args, vec!["--prefix", "/c/otps/v1/dist"]);

    assert!(matches!(p.steps[2], BuildStep::CheckOpenSsl));

    let (cmd, args) = exec_of(&p.steps[3]);
    assert_eq!(cmd, "make");
    assert_eq!(args, vec!["-j", "4"]);

    let (cmd, args) = exec_of(&p.steps[4]);
    assert_eq!(cmd, "make");
    assert_eq!(args, vec!["-j", "4", "docs", "DOC_TARGETS=chunks"]);

    assert!(matches!(p.steps[5], BuildStep::CheckInstallGate));

    let (cmd, args) = exec_of(&p.steps[6]);
    assert_eq!(cmd, "make");
    assert_eq!(args, vec!["-j", "4", "install"]);

    let (cmd, args) = exec_of(&p.steps[7]);
    assert_eq!(cmd, "make");
    assert_eq!(args, vec!["-j", "4", "install-docs"]);
}

#[test]
fn plan_keeps_user_prefix_after_the_mandatory_one() {
    let p = plan_of(make_plan(
        "/c",
        "default",
        "https://u",
        "v1",
        "v1",
        "--without-wx CFLAGS=\"-g -O2\" --prefix /elsewhere",
        2,
    ));
    let (_, args) = exec_of(&p.steps[1]);
    assert_eq!(
        args,
        vec![
            "--prefix",
            "/c/otps/v1/dist",
            "--without-wx",
            "CFLAGS=-g -O2",
            "--prefix",
            "/elsewhere"
        ]
    );
}

#[test]
fn plan_rejects_malformed_options() {
    assert!(matches!(
        make_plan("/c", "default", "https://u", "v1", "v1", "--with-ssl='unterminated", 2),
        Err(BuildError::BadOptions)
    ));
}

#[test]
fn run_refuses_an_existing_id_without_force() {
    match run("/c", "default", "https://u", "v1", "v1", "", true, false) {
        Err(BuildError::AlreadyExists { id }) => assert_eq!(id, "v1"),
        _ => panic!("an existing installation without --force must be refused"),
    }
}

#[test]
fn run_with_force_rebuilds_an_existing_id() {
    assert!(run("/c", "default", "https://u", "v1", "v1", "", true, true).is_ok());
}

#[test]
fn run_uses_a_positive_parallelism_hint() {
    let p = plan_of(run("/c", "default", "https://u", "v1", "v1", "", false, false));
    let (_, args) = exec_of(&p.steps[3]);
    assert_eq!(args[0], "-j");
    assert!(args[1].parse::<u64>().unwrap() >= 1);
}

/// Walks the engine, reporting the given exit status per command, in order;
/// hands back the commands that were run and the install gate's decision.
fn walk(
    engine: &mut Engine,
    exec_results: &[bool],
    openssl_found: bool,
    install_dir_empty: bool,
) -> (Vec<String>, Option<GateDecision>) {
    let mut ran: Vec<String> = Vec::new();
    let mut gate: Option<GateDecision> = None;
    let mut next_exec = 0;
    loop {
        let line: Option<String> = match engine.current_step() {
            None => break,
            Some(BuildStep::Exec { cmd, args }) => Some(format!("{} {}", cmd, args.join(" "))),
            Some(BuildStep::CheckOpenSsl) => None,
            Some(BuildStep::CheckInstallGate) => {
                gate = Some(engine.check_gate(install_dir_empty));
                continue;
            }
        };
        match line {
            Some(line) => {
                ran.push(line);
                engine.record_exec(exec_results[next_exec]);
                next_exec += 1;
            }
            None => {
                engine.check_openssl(openssl_found);
            }
        }
    }
    (ran, gate)
}

#[test]
fn successful_build_registers_the_toolchain() {
    let p = plan_of(make_plan("/c", "default", "https://u", "v1", "v1", "", 2));
    let mut engine = Engine::new(p.steps);
    let (ran, gate) = walk(&mut engine, &[true; 6], true, true);
    assert_eq!(ran.len(), 6);
    assert_eq!(gate, Some(GateDecision::Proceed { remove_stale: false }));
    assert!(engine.is_complete());
    assert!(engine.succeeded());

    let mut conf = empty_config();
    assert!(finish_build(&engine, "v1", p.dist_dir.as_str(), &mut conf));
    assert_eq!(
        lookup("erlangs", "v1", &conf).map(String::as_str),
        Some("/c/otps/v1/dist")
    );
}

#[test]
fn configure_failure_still_runs_docs_then_gate_aborts() {
    let p = plan_of(make_plan("/c", "default", "https://u", "v1", "v1", "", 2));
    let mut engine = Engine::new(p.steps);
    // autoconf ok, configure fails, make ok, docs ok
    let (ran, gate) = walk(&mut engine, &[true, false, true, true], true, true);
    // all four pre-gate commands were attempted, the docs step included
    assert_eq!(ran.len(), 4);
    assert!(ran[3].contains("docs"));
    // the install gate observes the accumulated failure and aborts
    assert_eq!(gate, Some(GateDecision::Abort));
    assert!(!engine.is_complete());

    // no record is created or overwritten
    let mut conf = empty_config();
    update("v1", "/c/otps/v1-prior/dist", &mut conf);
    assert!(!finish_build(&engine, "v1", p.dist_dir.as_str(), &mut conf));
    assert_eq!(
        lookup("erlangs", "v1", &conf).map(String::as_str),
        Some("/c/otps/v1-prior/dist")
    );
}

#[test]
fn stale_install_dir_is_removed_only_after_success() {
    let p = plan_of(make_plan("/c", "default", "https://u", "v1", "v1", "", 2));
    let mut engine = Engine::new(p.steps);
    let (_, gate) = walk(&mut engine, &[true; 6], true, false);
    assert_eq!(gate, Some(GateDecision::Proceed { remove_stale: true }));
}

#[test]
fn failed_install_step_is_not_registered() {
    let p = plan_of(make_plan("/c", "default", "https://u", "v1", "v1", "", 2));
    let mut engine = Engine::new(p.steps);
    // everything up to and past the install gate succeeds but `make install` fails
    let (ran, gate) = walk(&mut engine, &[true, true, true, true, false, true], true, true);
    assert_eq!(ran.len(), 6);
    assert_eq!(gate, Some(GateDecision::Proceed { remove_stale: false }));
    assert!(engine.is_complete());
    assert!(!engine.succeeded());
    let mut conf = empty_config();
    assert!(!finish_build(&engine, "v1", p.dist_dir.as_str(), &mut conf));
    assert!(lookup("erlangs", "v1", &conf).is_none());
}

#[test]
fn missing_openssl_yields_a_warning_and_nothing_else() {
    let p = plan_of(make_plan("/c", "default", "https://u", "v1", "v1", "", 2));
    let mut engine = Engine::new(p.steps);
    engine.record_exec(true);
    engine.record_exec(true);
    let warning = engine.check_openssl(false);
    assert!(warning.unwrap().contains("OpenSSL"));
    // the advisory check never fails the build
    let (_, gate) = walk(&mut engine, &[true, true, true, true], false, true);
    assert_eq!(gate, Some(GateDecision::Proceed { remove_stale: false }));
    assert!(engine.is_complete());
}

#[test]
fn delete_unregisters_and_names_the_directory() {
    let mut conf = empty_config();
    update("v1", "/c/otps/v1/dist", &mut conf);
    let dir = erlup::pipeline::delete("v1", "/c", &mut conf);
    assert_eq!(dir, "/c/otps/v1");
    assert!(lookup("erlangs", "v1", &conf).is_none());
}

#[test]
fn configure_options_prefer_the_environment() {
    let mut conf = empty_config();
    erlup::config::set_value("erlup", "default_configure_options", "--from-config", &mut conf);
    let env_val = "--from-env".to_string();
    assert_eq!(
        erlup::pipeline::configure_options_source(Some(&env_val), &conf),
        "--from-env"
    );
    assert_eq!(
        erlup::pipeline::configure_options_source(None, &conf),
        "--from-config"
    );
    let bare = empty_config();
    assert_eq!(erlup::pipeline::configure_options_source(None, &bare), "");
}

#[test]
fn build_scenario_against_the_default_repo() {
    // repo "default" configured with a URL, cache dir configured
    let mut conf = empty_config();
    erlup::config::set_value("erlup", "dir", "/cache", &mut conf);
    erlup::config::add_repo("default", "https://github.com/erlang/otp", &mut conf);

    let repo = erlup::config::repo_or_default(None);
    let url = lookup("repos", repo.as_str(), &conf).unwrap().clone();
    assert_eq!(url, "https://github.com/erlang/otp");

    // no prior v1 directory: the plan is laid out and the steps run in order
    let plan = plan_of(run("/cache", &repo, &url, "v1", "v1", "", false, false));
    assert_eq!(plan.repo_dir, "/cache/repos/default");
    let dist = plan.dist_dir.clone();
    let mut engine = Engine::new(plan.steps);
    let (ran, gate) = walk(&mut engine, &[true; 6], true, true);
    assert_eq!(ran.len(), 6);
    assert!(matches!(gate, Some(GateDecision::Proceed { .. })));

    // on success the registry gains v1 -> <cache>/otps/v1/dist
    assert!(finish_build(&engine, "v1", dist.as_str(), &mut conf));
    assert_eq!(
        lookup("erlangs", "v1", &conf).map(String::as_str),
        Some("/cache/otps/v1/dist")
    );

    // re-running without --force is refused outright
    match run("/cache", &repo, &url, "v1", "v1", "", true, false) {
        Err(BuildError::AlreadyExists { id }) => assert_eq!(id, "v1"),
        _ => panic!("a second build without --force must be refused"),
    }
}
