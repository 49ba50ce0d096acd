use move_fuzz::commands::{
    compile_plan, Build, Coverage, Fuzz, OrchestrationError, OrchestratorEvent, OrchestratorState,
};
use move_fuzz::options::{BuildOptions, CargoBuildOptions, FuzzDirWrapper, Sanitizer};
use move_fuzz::plan::ParseError;

const HOST: &str = "x86_64-unknown-linux-gnu";

fn round(case: &BuildOptions) -> BuildOptions {
    let tokens = case.render_tokens(HOST);
    BuildOptions::parse_tokens(&tokens, HOST).expect("canonical tokens must re-parse")
}

#[test]
fn display_build_options() {
    let default_cargo_opts = CargoBuildOptions::new(HOST);
    let default_opts = BuildOptions::new(HOST);

    let opts = vec![
        default_opts.clone(),
        BuildOptions { dev: true, ..default_opts.clone() },
        BuildOptions {
            cargo_options: CargoBuildOptions { release: true, ..default_cargo_opts.clone() },
            ..default_opts.clone()
        },
        BuildOptions {
            cargo_options: CargoBuildOptions {
                debug_assertions: true,
                ..default_cargo_opts.clone()
            },
            ..default_opts.clone()
        },
        BuildOptions { verbose: true, ..default_opts.clone() },
        BuildOptions {
            cargo_options: CargoBuildOptions {
                no_default_features: true,
                ..default_cargo_opts.clone()
            },
            ..default_opts.clone()
        },
        BuildOptions {
            cargo_options: CargoBuildOptions { all_features: true, ..default_cargo_opts.clone() },
            ..default_opts.clone()
        },
        BuildOptions {
            cargo_options: CargoBuildOptions {
                features: Some(String::from("features")),
                ..default_cargo_opts.clone()
            },
            ..default_opts.clone()
        },
        BuildOptions {
            cargo_options: CargoBuildOptions {
                sanitizer: Sanitizer::Disabled,
                ..default_cargo_opts.clone()
            },
            ..default_opts.clone()
        },
        BuildOptions {
            cargo_options: CargoBuildOptions {
                triple: String::from("custom_triple"),
                ..default_cargo_opts.clone()
            },
            ..default_opts.clone()
        },
        BuildOptions {
            cargo_options: CargoBuildOptions {
                unstable_flags: vec![String::from("unstable"), String::from("flags")],
                ..default_cargo_opts.clone()
            },
            ..default_opts.clone()
        },
        BuildOptions { ..default_opts.clone() },
        default_opts.clone(),
    ];

    let mut i = 0;
    for case in opts {
        println!("{i}");
        i += 1;
        println!("{:?}", case);
        assert_eq!(case, round(&case));
    }
}

#[test]
fn round_trip_combination() {
    let case = BuildOptions {
        dev: false,
        verbose: true,
        cargo_options: CargoBuildOptions {
            release: true,
            debug_assertions: true,
            features: Some(String::from("extra")),
            sanitizer: Sanitizer::Thread,
            build_std: true,
            careful_mode: true,
            triple: String::from("aarch64-apple-darwin"),
            unstable_flags: vec![String::from("build-std")],
            strip_dead_code: true,
            no_cfg_fuzzing: true,
            no_trace_compares: true,
            cargo_home: Some(String::from("/opt/cargo")),
            cargo_target_dir: Some(String::from("/tmp/target")),
            ..CargoBuildOptions::new(HOST)
        },
    };
    assert_eq!(case, round(&case));
}

#[test]
fn default_elision() {
    let opts = BuildOptions::new(HOST);
    let tokens = opts.render_tokens(HOST);
    assert!(tokens.iter().all(|t| !t.starts_with("--sanitizer")));
    assert!(tokens.iter().all(|t| !t.starts_with("--target")));
    assert!(tokens.is_empty());

    let mut none_opts = BuildOptions::new(HOST);
    none_opts.cargo_options.sanitizer = Sanitizer::Disabled;
    let tokens = none_opts.render_tokens(HOST);
    assert_eq!(tokens, vec![String::from("--sanitizer=none")]);

    let mut leak = BuildOptions::new(HOST);
    leak.cargo_options.sanitizer = Sanitizer::Leak;
    assert_eq!(leak.render_tokens(HOST), vec![String::from("--sanitizer=leak")]);
}

#[test]
fn sanitizer_text_round_trip() {
    for s in [
        Sanitizer::Address,
        Sanitizer::Leak,
        Sanitizer::Memory,
        Sanitizer::Thread,
        Sanitizer::Disabled,
    ] {
        assert_eq!(Sanitizer::parse(s.text().as_str()), Some(s));
    }
    assert_eq!(Sanitizer::parse("addresss"), None);
    assert_eq!(Sanitizer::parse(""), None);
}

#[test]
fn parse_rejects_unknown_and_conflicts() {
    let bad = vec![String::from("--what-is-this")];
    assert_eq!(BuildOptions::parse_tokens(&bad, HOST), Err(ParseError::UnknownToken));
    let bad_san = vec![String::from("--sanitizer=bogus")];
    assert_eq!(BuildOptions::parse_tokens(&bad_san, HOST), Err(ParseError::InvalidSanitizer));
    let conflict = vec![String::from("--all-features"), String::from("--no-default-features")];
    assert_eq!(BuildOptions::parse_tokens(&conflict, HOST), Err(ParseError::ConflictingFlags));
    let dev_release = vec![String::from("-D"), String::from("-O")];
    assert_eq!(BuildOptions::parse_tokens(&dev_release, HOST), Err(ParseError::ConflictingFlags));
    let cov_std = vec![String::from("--coverage"), String::from("--build-std")];
    assert_eq!(BuildOptions::parse_tokens(&cov_std, HOST), Err(ParseError::ConflictingFlags));
}

#[test]
fn coverage_build_std_conflict() {
    let mut opts = BuildOptions::new(HOST);
    opts.cargo_options.coverage = true;
    opts.cargo_options.build_std = true;
    assert_eq!(
        compile_plan(&opts, HOST),
        Err(OrchestrationError::ConfigurationConflict)
    );

    // The coverage command forces the coverage toggle on, so rebuild of the
    // standard library alone must already fail, before any subprocess runs.
    let mut with_std = BuildOptions::new(HOST);
    with_std.cargo_options.build_std = true;
    let cmd = Fuzz::Coverage(Coverage {
        build: with_std,
        fuzz_dir_wrapper: FuzzDirWrapper { fuzz_dir: None },
        llvm_path: None,
        target: String::from("fuzz_target_1"),
        corpus: vec![],
        args: vec![],
    });
    assert_eq!(cmd.execute(HOST), Err(OrchestrationError::ConfigurationConflict));
}

#[test]
fn build_scenario_and_state_machine() {
    let mut opts = BuildOptions::new(HOST);
    opts.cargo_options.sanitizer = Sanitizer::Disabled;
    opts.cargo_options.release = true;
    let cmd = Fuzz::Build(Build {
        build: opts,
        fuzz_dir_wrapper: FuzzDirWrapper { fuzz_dir: None },
        target: Some(String::from("a")),
    });
    let plan = cmd.run_command(HOST).expect("no conflict").expect("build compiles a plan");
    assert!(plan.contains(&String::from("--sanitizer=none")));
    assert!(plan.contains(&String::from("-O")));
    assert!(plan.iter().all(|t| t != "--sanitizer=address"));

    let s = OrchestratorState::Idle;
    let s = s.advance(OrchestratorEvent::Compiled);
    assert_eq!(s, OrchestratorState::PlanCompiled);
    let s = s.advance(OrchestratorEvent::Spawned);
    assert_eq!(s, OrchestratorState::Invoked);
    assert_eq!(s.advance(OrchestratorEvent::Exited(0)), OrchestratorState::Succeeded);
    assert_eq!(
        s.advance(OrchestratorEvent::Exited(1)),
        OrchestratorState::Failed(OrchestratorEvent::Exited(1))
    );
}

#[test]
fn fuzz_dir_wrapper_parse() {
    assert_eq!(FuzzDirWrapper::parse("").fuzz_dir, None);
    assert_eq!(
        FuzzDirWrapper::parse("fuzz").fuzz_dir,
        Some(String::from("fuzz"))
    );
    let w = FuzzDirWrapper { fuzz_dir: Some(String::from("fuzz")) };
    assert_eq!(w.to_text(), String::from(" --fuzz-dir=fuzz"));
    let unset = FuzzDirWrapper { fuzz_dir: None };
    assert_eq!(unset.to_text(), String::new());
}
