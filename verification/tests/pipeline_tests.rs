use chisel_pipeline::pipeline::banner;
use chisel_pipeline::pipeline::command_plan;
use chisel_pipeline::Action;
use chisel_pipeline::Event;
use chisel_pipeline::Launch;
use chisel_pipeline::Pipeline;
use chisel_pipeline::Stage;

fn build_ok() -> Event {
    Event::BuildFinished { success: true, stderr: String::new() }
}

fn chisel_ok(stdout: &str) -> Event {
    Event::ChiselFinished {
        outcome: Launch::Completed {
            success: true,
            stdout: String::from(stdout),
            stderr: String::new(),
        },
    }
}

fn config_ok() -> Event {
    Event::ConfigRead { text: Some(String::from("example:\n  file: a.wasm\n  output: b.wasm\n")) }
}

#[test]
fn build_failure_halts_before_runner_and_minifier() {
    let mut p = Pipeline::new();
    assert!(matches!(p.next_action(), Action::RunBuild));
    let lines = p.step(Event::BuildFinished {
        success: false,
        stderr: String::from("compile exploded"),
    });
    assert_eq!(p.stage(), Stage::Halted);
    assert!(matches!(p.next_action(), Action::Stop));
    assert_eq!(lines.len(), 2);
    assert_eq!(lines[0], "compile exploded\n");
    assert_eq!(
        lines[1],
        "ERROR: error building wasm module, confirm target `wasm32-unknown-unknown` is installed\n",
    );
}

#[test]
fn missing_runner_prints_install_message_and_halts() {
    let mut p = Pipeline::new();
    p.step(build_ok());
    assert!(matches!(p.next_action(), Action::RunChisel));
    let lines = p.step(Event::ChiselFinished {
        outcome: Launch::SpawnFailed { not_found: true, detail: String::from("spawn failed") },
    });
    assert_eq!(lines, vec![String::from("ERROR: chisel not found, please install chisel.\n")]);
    assert_eq!(p.stage(), Stage::Halted);
    assert!(matches!(p.next_action(), Action::Stop));
}

#[test]
fn other_runner_spawn_failure_halts_silently() {
    let mut p = Pipeline::new();
    p.step(build_ok());
    let lines = p.step(Event::ChiselFinished {
        outcome: Launch::SpawnFailed { not_found: false, detail: String::from("broken pipe") },
    });
    assert!(lines.is_empty());
    assert_eq!(p.stage(), Stage::Halted);
}

#[test]
fn runner_output_is_echoed_whatever_its_status() {
    let mut p = Pipeline::new();
    p.step(build_ok());
    let lines = p.step(Event::ChiselFinished {
        outcome: Launch::Completed {
            success: false,
            stdout: String::from("module rejected"),
            stderr: String::new(),
        },
    });
    assert_eq!(lines, vec![String::from("module rejected\n")]);
    assert_eq!(p.stage(), Stage::Ran);
}

#[test]
fn minifier_success_prints_ok_then_its_output() {
    let mut p = Pipeline::new();
    p.step(build_ok());
    p.step(chisel_ok("checked"));
    assert!(matches!(p.next_action(), Action::ReadConfig));
    p.step(config_ok());
    assert_eq!(p.stage(), Stage::Configured);
    match p.next_action() {
        Action::RunSnip { input, output } => {
            assert_eq!(input, "a.wasm");
            assert_eq!(output, "b.wasm");
        },
        other => panic!("expected the minifier action, got {:?}", other),
    }
    let lines = p.step(Event::SnipFinished {
        outcome: Launch::Completed {
            success: true,
            stdout: String::from("done"),
            stderr: String::new(),
        },
    });
    assert_eq!(lines, vec![String::from("OK\ndone\n")]);
    let joined = lines.concat();
    let ok_at = joined.find("OK").unwrap();
    let done_at = joined.find("done").unwrap();
    assert!(ok_at < done_at);
    assert_eq!(p.stage(), Stage::Minified);
    assert!(matches!(p.next_action(), Action::Finish));
    let last = p.step(Event::FinishPrinted);
    assert!(last.is_empty());
    assert_eq!(p.stage(), Stage::Done);
    assert!(matches!(p.next_action(), Action::Stop));
}

#[test]
fn minifier_failure_prints_its_stderr() {
    let mut p = Pipeline::new();
    p.step(build_ok());
    p.step(chisel_ok(""));
    p.step(config_ok());
    let lines = p.step(Event::SnipFinished {
        outcome: Launch::Completed {
            success: false,
            stdout: String::new(),
            stderr: String::from("snip blew up"),
        },
    });
    assert_eq!(lines, vec![String::from("snip blew up\n")]);
    assert_eq!(p.stage(), Stage::Minified);
}

#[test]
fn minifier_spawn_failure_prints_raw_diagnostic() {
    let mut p = Pipeline::new();
    p.step(build_ok());
    p.step(chisel_ok(""));
    p.step(config_ok());
    let lines = p.step(Event::SnipFinished {
        outcome: Launch::SpawnFailed {
            not_found: true,
            detail: String::from("Os { code: 2, kind: NotFound }"),
        },
    });
    assert_eq!(lines, vec![String::from("Os { code: 2, kind: NotFound }\n")]);
}

#[test]
fn configuration_error_prints_generic_message_and_halts() {
    let mut p = Pipeline::new();
    p.step(build_ok());
    p.step(chisel_ok(""));
    let lines = p.step(Event::ConfigRead { text: None });
    assert_eq!(lines, vec![String::from("ERROR: error reading yaml configuration\n")]);
    assert_eq!(p.stage(), Stage::Halted);
    assert!(matches!(p.next_action(), Action::Stop));
}

#[test]
fn command_plans_match_the_tools() {
    let build = command_plan(&Action::RunBuild).unwrap();
    assert_eq!(build.0, "cargo");
    assert_eq!(build.1, vec!["build", "--target=wasm32-unknown-unknown", "--release"]);

    let chisel = command_plan(&Action::RunChisel).unwrap();
    assert_eq!(chisel.0, "chisel");
    assert_eq!(chisel.1, vec!["run"]);

    let snip = command_plan(&Action::RunSnip {
        input: String::from("a.wasm"),
        output: String::from("b.wasm"),
    })
    .unwrap();
    assert_eq!(snip.0, "wasm-snip");
    assert_eq!(snip.1, vec!["--snip-rust-panicking-code", "a.wasm", "-o", "b.wasm"]);

    assert!(command_plan(&Action::ReadConfig).is_none());
    assert!(command_plan(&Action::Finish).is_none());
    assert!(command_plan(&Action::Stop).is_none());
}

#[test]
fn banners_match_the_progress_messages() {
    assert_eq!(banner(&Action::RunBuild).unwrap(), "\nBuilding ewasm module...\n");
    assert_eq!(banner(&Action::RunChisel).unwrap(), "\nExecuting chisel...\n");
    assert_eq!(
        banner(&Action::RunSnip { input: String::new(), output: String::new() }).unwrap(),
        "\nMinifying bytecode (wasm-snip)... ",
    );
    assert_eq!(banner(&Action::Finish).unwrap(), "Finished\n");
    assert!(banner(&Action::ReadConfig).is_none());
    assert!(banner(&Action::Stop).is_none());
}

#[test]
fn fresh_pipeline_starts_at_the_start() {
    let p = Pipeline::new();
    assert_eq!(p.stage(), Stage::Start);
}
