//! The pipeline's state machine.
//!
//! The pipeline runs four steps in order: build the module with the
//! compiler, check it with the runner, read the configuration, and
//! strip the module with the minifier; a final step reports the run as
//! finished. The machine here decides everything — which action comes
//! next, what each outcome means, and the exact text to print — while
//! an unverified driver spawns the tools, reads the file, and writes
//! the text out. Any step's failure moves the machine directly to
//! `Halted`, where the only action left is to stop.

use vstd::prelude::*;

use crate::config::SnipParams;
use crate::config::config_error_text;
use crate::config::config_outcome;
use crate::config::get_snip_params;
use crate::config::opt_string_view;

verus! {

/// Where the pipeline stands between steps.
#[derive(Debug, Clone, Copy, PartialEq, Eq, Structural)]
pub enum Stage {
    Start,
    Built,
    Ran,
    Configured,
    Minified,
    Done,
    Halted,
}

/// What the driver is asked to do next: spawn one of the three tools,
/// read the configuration file, print the closing line, or stop.
#[derive(Debug)]
pub enum Action {
    RunBuild,
    RunChisel,
    ReadConfig,
    RunSnip { input: String, output: String },
    Finish,
    Stop,
}

/// How spawning an external tool went: it ran to completion with the
/// given status and captured streams, or it could not be started at
/// all — either because the tool was not found, or for another reason,
/// with the text of the raw diagnostic.
#[derive(Debug)]
pub enum Launch {
    Completed { success: bool, stdout: String, stderr: String },
    SpawnFailed { not_found: bool, detail: String },
}

/// What the driver reports back after performing an action. A build
/// that could not even be spawned has no event: the driver aborts, as
/// that failure is unrecoverable.
#[derive(Debug)]
pub enum Event {
    BuildFinished { success: bool, stderr: String },
    ChiselFinished { outcome: Launch },
    ConfigRead { text: Option<String> },
    SnipFinished { outcome: Launch },
    FinishPrinted,
}

/// The views of printed chunks, in order.
pub open spec fn lines_view(lines: Seq<String>) -> Seq<Seq<char>> {
    lines.map_values(|l: String| l@)
}

/// The hint printed when the compiler reports failure.
pub open spec fn build_hint_text() -> Seq<char> {
    "ERROR: error building wasm module, confirm target `wasm32-unknown-unknown` is installed\n"@
}

/// The message printed when the runner is not installed.
pub open spec fn chisel_missing_text() -> Seq<char> {
    "ERROR: chisel not found, please install chisel.\n"@
}

/// The text reporting the minifier's outcome: `OK` and its captured
/// standard output on success, its captured standard error on a
/// non-zero exit, and the raw diagnostic where it could not be spawned.
pub open spec fn snip_report_text(outcome: Launch) -> Seq<char> {
    match outcome {
        Launch::Completed { success, stdout, stderr } => if success {
            "OK\n"@ + stdout@ + "\n"@
        } else {
            stderr@ + "\n"@
        },
        Launch::SpawnFailed { not_found, detail } => detail@ + "\n"@,
    }
}

/// Which events belong to which stage: each stage that expects outside
/// work accepts exactly the report of that work; `Done` and `Halted`
/// accept nothing.
pub open spec fn event_fits(s: Stage, ev: Event) -> bool {
    match s {
        Stage::Start => ev is BuildFinished,
        Stage::Built => ev is ChiselFinished,
        Stage::Ran => ev is ConfigRead,
        Stage::Configured => ev is SnipFinished,
        Stage::Minified => ev is FinishPrinted,
        Stage::Done => false,
        Stage::Halted => false,
    }
}

/// The stage after an event: forward on success, `Halted` on a failed
/// build, a runner that could not be spawned, or a configuration that
/// yields no paths. The runner's own exit status is not consulted, and
/// the minifier's outcome never halts the run.
pub open spec fn step_stage(s: Stage, ev: Event) -> Stage {
    match (s, ev) {
        (Stage::Start, Event::BuildFinished { success, .. }) => if success {
            Stage::Built
        } else {
            Stage::Halted
        },
        (Stage::Built, Event::ChiselFinished { outcome }) => match outcome {
            Launch::Completed { .. } => Stage::Ran,
            Launch::SpawnFailed { .. } => Stage::Halted,
        },
        (Stage::Ran, Event::ConfigRead { text }) => if config_outcome(opt_string_view(text))
            is Some {
            Stage::Configured
        } else {
            Stage::Halted
        },
        (Stage::Configured, Event::SnipFinished { .. }) => Stage::Minified,
        (Stage::Minified, Event::FinishPrinted) => Stage::Done,
        _ => s,
    }
}

/// The paths the machine holds after an event: what the configuration
/// yielded, once it is read; unchanged otherwise.
pub open spec fn step_params(
    s: Stage,
    p: Option<(Seq<char>, Seq<char>)>,
    ev: Event,
) -> Option<(Seq<char>, Seq<char>)> {
    match (s, ev) {
        (Stage::Ran, Event::ConfigRead { text }) => config_outcome(opt_string_view(text)),
        _ => p,
    }
}

/// The exact text an event has printed, as a sequence of chunks: a
/// failed build prints its captured standard error and then the hint; a
/// completed runner echoes its captured standard output; a runner that
/// is not installed prints the specific message, any other spawn
/// failure nothing; a configuration that yields no paths prints the
/// generic configuration error; the minifier's outcome prints its
/// report.
pub open spec fn step_lines(s: Stage, ev: Event) -> Seq<Seq<char>> {
    match (s, ev) {
        (Stage::Start, Event::BuildFinished { success, stderr }) => if success {
            Seq::<Seq<char>>::empty()
        } else {
            seq![stderr@ + "\n"@, build_hint_text()]
        },
        (Stage::Built, Event::ChiselFinished { outcome }) => match outcome {
            Launch::Completed { stdout, .. } => seq![stdout@ + "\n"@],
            Launch::SpawnFailed { not_found, .. } => if not_found {
                seq![chisel_missing_text()]
            } else {
                Seq::<Seq<char>>::empty()
            },
        },
        (Stage::Ran, Event::ConfigRead { text }) => if config_outcome(opt_string_view(text))
            is Some {
            Seq::<Seq<char>>::empty()
        } else {
            seq![config_error_text() + "\n"@]
        },
        (Stage::Configured, Event::SnipFinished { outcome }) => seq![snip_report_text(outcome)],
        _ => Seq::<Seq<char>>::empty(),
    }
}

/// Which action fits a stage: each stage before `Done` asks for its
/// step's outside work; `Done` and `Halted` ask only to stop. The
/// minifier is asked to run exactly on the paths the configuration
/// yielded.
pub open spec fn action_fits(s: Stage, p: Option<(Seq<char>, Seq<char>)>, a: Action) -> bool {
    match s {
        Stage::Start => a is RunBuild,
        Stage::Built => a is RunChisel,
        Stage::Ran => a is ReadConfig,
        Stage::Configured => a matches Action::RunSnip { input, output } && p matches Some(pp)
            && input@ == pp.0 && output@ == pp.1,
        Stage::Minified => a is Finish,
        Stage::Done => a is Stop,
        Stage::Halted => a is Stop,
    }
}

/// The pipeline's state: its stage, and the paths extracted from the
/// configuration once the stage reaches `Configured`.
pub struct Pipeline {
    stage: Stage,
    params: Option<SnipParams>,
}

impl Pipeline {
    /// The stage the machine stands at.
    pub closed spec fn stage_spec(&self) -> Stage {
        self.stage
    }

    /// The paths the machine holds, as character sequences.
    pub closed spec fn params_view(&self) -> Option<(Seq<char>, Seq<char>)> {
        match self.params {
            Some(p) => Some((p.input@, p.output@)),
            None => None,
        }
    }

    /// A machine that has reached `Configured` holds the paths.
    pub open spec fn wf(&self) -> bool {
        self.stage_spec() is Configured ==> self.params_view() is Some
    }

    /// A fresh pipeline, at the start, holding no paths.
    pub fn new() -> (r: Pipeline)
        ensures
            r.stage_spec() == Stage::Start,
            r.params_view() is None,
            r.wf(),
    {
        Pipeline { stage: Stage::Start, params: None }
    }

    /// The stage the machine stands at.
    pub fn stage(&self) -> (s: Stage)
        ensures
            s == self.stage_spec(),
    {
        self.stage
    }

    /// The action the driver is to perform next.
    pub fn next_action(&self) -> (a: Action)
        requires
            self.wf(),
        ensures
            action_fits(self.stage_spec(), self.params_view(), a),
    {
        match self.stage {
            Stage::Start => Action::RunBuild,
            Stage::Built => Action::RunChisel,
            Stage::Ran => Action::ReadConfig,
            Stage::Configured => match &self.params {
                Some(p) => Action::RunSnip { input: p.input.clone(), output: p.output.clone() },
                None => Action::Stop,
            },
            Stage::Minified => Action::Finish,
            Stage::Done => Action::Stop,
            Stage::Halted => Action::Stop,
        }
    }

    /// Feeds the report of the last action back into the machine. The
    /// result is the exact text to print, in order; the machine moves
    /// to the stage the event determines and, when the event is the
    /// configuration's text, takes up the paths it yields.
    pub fn step(&mut self, ev: Event) -> (lines: Vec<String>)
        requires
            old(self).wf(),
            event_fits(old(self).stage_spec(), ev),
        ensures
            final(self).wf(),
            final(self).stage_spec() == step_stage(old(self).stage_spec(), ev),
            final(self).params_view() == step_params(
                old(self).stage_spec(),
                old(self).params_view(),
                ev,
            ),
            lines_view(lines@) == step_lines(old(self).stage_spec(), ev),
    {
        let stage = self.stage;
        match stage {
            Stage::Start => match ev {
                Event::BuildFinished { success, stderr } => {
                    if success {
                        self.stage = Stage::Built;
                        let lines: Vec<String> = Vec::new();
                        proof {
                            assert(lines_view(lines@) =~= Seq::<Seq<char>>::empty());
                        }
                        lines
                    } else {
                        self.stage = Stage::Halted;
                        let mut lines: Vec<String> = Vec::new();
                        lines.push(stderr.concat("\n"));
                        lines.push(
                            String::from_str(
                                "ERROR: error building wasm module, confirm target `wasm32-unknown-unknown` is installed\n",
                            ),
                        );
                        proof {
                            assert(lines_view(lines@) =~= step_lines(
                                old(self).stage_spec(),
                                ev,
                            ));
                        }
                        lines
                    }
                },
                _ => Vec::new(),
            },
            Stage::Built => match ev {
                Event::ChiselFinished { outcome } => match outcome {
                    Launch::Completed { stdout, .. } => {
                        self.stage = Stage::Ran;
                        let mut lines: Vec<String> = Vec::new();
                        lines.push(stdout.concat("\n"));
                        proof {
                            assert(lines_view(lines@) =~= step_lines(
                                old(self).stage_spec(),
                                ev,
                            ));
                        }
                        lines
                    },
                    Launch::SpawnFailed { not_found, .. } => {
                        self.stage = Stage::Halted;
                        let mut lines: Vec<String> = Vec::new();
                        if not_found {
                            lines.push(
                                String::from_str("ERROR: chisel not found, please install chisel.\n"),
                            );
                        }
                        proof {
                            assert(lines_view(lines@) =~= step_lines(
                                old(self).stage_spec(),
                                ev,
                            ));
                        }
                        lines
                    },
                },
                _ => Vec::new(),
            },
            Stage::Ran => match ev {
                Event::ConfigRead { text } => {
                    let r = match &text {
                        Some(t) => get_snip_params(Some(t.as_str())),
                        None => get_snip_params(None),
                    };
                    match r {
                        Ok(p) => {
                            proof {
                                let co = config_outcome(opt_string_view(text));
                                assert(co matches Some(pp) && pp == (p.input@, p.output@));
                            }
                            self.stage = Stage::Configured;
                            self.params = Some(p);
                            let lines: Vec<String> = Vec::new();
                            proof {
                                assert(lines_view(lines@) =~= Seq::<Seq<char>>::empty());
                            }
                            lines
                        },
                        Err(e) => {
                            self.stage = Stage::Halted;
                            self.params = None;
                            let mut lines: Vec<String> = Vec::new();
                            lines.push(e.message().concat("\n"));
                            proof {
                                assert(lines_view(lines@) =~= step_lines(
                                    old(self).stage_spec(),
                                    ev,
                                ));
                            }
                            lines
                        },
                    }
                },
                _ => Vec::new(),
            },
            Stage::Configured => match ev {
                Event::SnipFinished { outcome } => {
                    self.stage = Stage::Minified;
                    let report = match outcome {
                        Launch::Completed { success, stdout, stderr } => {
                            if success {
                                String::from_str("OK\n").concat(stdout.as_str()).concat("\n")
                            } else {
                                stderr.concat("\n")
                            }
                        },
                        Launch::SpawnFailed { detail, .. } => detail.concat("\n"),
                    };
                    let mut lines: Vec<String> = Vec::new();
                    lines.push(report);
                    proof {
                        assert(lines_view(lines@) =~= step_lines(old(self).stage_spec(), ev));
                    }
                    lines
                },
                _ => Vec::new(),
            },
            Stage::Minified => match ev {
                Event::FinishPrinted => {
                    self.stage = Stage::Done;
                    let lines: Vec<String> = Vec::new();
                    proof {
                        assert(lines_view(lines@) =~= Seq::<Seq<char>>::empty());
                    }
                    lines
                },
                _ => Vec::new(),
            },
            Stage::Done => Vec::new(),
            Stage::Halted => Vec::new(),
        }
    }
}

/// The exact command line for an action that spawns an external tool —
/// the program name and its arguments — and nothing for the actions
/// that spawn none.
pub fn command_plan(a: &Action) -> (r: Option<(String, Vec<String>)>)
    ensures
        match *a {
            Action::RunBuild => r matches Some(c) && c.0@ == "cargo"@ && c.1@.len() == 3
                && c.1@[0]@ == "build"@ && c.1@[1]@ == "--target=wasm32-unknown-unknown"@
                && c.1@[2]@ == "--release"@,
            Action::RunChisel => r matches Some(c) && c.0@ == "chisel"@ && c.1@.len() == 1
                && c.1@[0]@ == "run"@,
            Action::RunSnip { input, output } => r matches Some(c) && c.0@ == "wasm-snip"@
                && c.1@.len() == 4 && c.1@[0]@ == "--snip-rust-panicking-code"@
                && c.1@[1]@ == input@ && c.1@[2]@ == "-o"@ && c.1@[3]@ == output@,
            Action::ReadConfig => r is None,
            Action::Finish => r is None,
            Action::Stop => r is None,
        },
{
    match a {
        Action::RunBuild => {
            let mut args: Vec<String> = Vec::new();
            args.push(String::from_str("build"));
            args.push(String::from_str("--target=wasm32-unknown-unknown"));
            args.push(String::from_str("--release"));
            Some((String::from_str("cargo"), args))
        },
        Action::RunChisel => {
            let mut args: Vec<String> = Vec::new();
            args.push(String::from_str("run"));
            Some((String::from_str("chisel"), args))
        },
        Action::RunSnip { input, output } => {
            let mut args: Vec<String> = Vec::new();
            args.push(String::from_str("--snip-rust-panicking-code"));
            args.push(input.clone());
            args.push(String::from_str("-o"));
            args.push(output.clone());
            Some((String::from_str("wasm-snip"), args))
        },
        Action::ReadConfig => None,
        Action::Finish => None,
        Action::Stop => None,
    }
}

/// The exact text announcing an action, written before the action is
/// performed; the configuration read and the stop announce nothing.
pub open spec fn banner_text(a: Action) -> Option<Seq<char>> {
    match a {
        Action::RunBuild => Some("\nBuilding ewasm module...\n"@),
        Action::RunChisel => Some("\nExecuting chisel...\n"@),
        Action::RunSnip { .. } => Some("\nMinifying bytecode (wasm-snip)... "@),
        Action::Finish => Some("Finished\n"@),
        Action::ReadConfig => None,
        Action::Stop => None,
    }
}

/// The banner announcing an action, if the action has one.
pub fn banner(a: &Action) -> (r: Option<String>)
    ensures
        match banner_text(*a) {
            Some(t) => r matches Some(s) && s@ == t,
            None => r is None,
        },
{
    match a {
        Action::RunBuild => Some(String::from_str("\nBuilding ewasm module...\n")),
        Action::RunChisel => Some(String::from_str("\nExecuting chisel...\n")),
        Action::RunSnip { .. } => Some(String::from_str("\nMinifying bytecode (wasm-snip)... ")),
        Action::Finish => Some(String::from_str("Finished\n")),
        Action::ReadConfig => None,
        Action::Stop => None,
    }
}

/// Any step's failure moves the machine directly to `Halted`: a build
/// that reports failure, a runner that could not be spawned, and a
/// configuration that yields no paths each halt the pipeline.
pub proof fn lemma_failures_halt(
    stderr: String,
    not_found: bool,
    detail: String,
    text: Option<String>,
)
    ensures
        step_stage(Stage::Start, Event::BuildFinished { success: false, stderr }) == Stage::Halted,
        step_stage(
            Stage::Built,
            Event::ChiselFinished { outcome: Launch::SpawnFailed { not_found, detail } },
        ) == Stage::Halted,
        config_outcome(opt_string_view(text)) is None ==> step_stage(
            Stage::Ran,
            Event::ConfigRead { text },
        ) == Stage::Halted,
{
}

/// Each stage's immediate successor in the linear run: build, check,
/// configure, minify, finish; the two terminal stages succeed
/// themselves.
pub open spec fn successor(s: Stage) -> Stage {
    match s {
        Stage::Start => Stage::Built,
        Stage::Built => Stage::Ran,
        Stage::Ran => Stage::Configured,
        Stage::Configured => Stage::Minified,
        Stage::Minified => Stage::Done,
        Stage::Done => Stage::Done,
        Stage::Halted => Stage::Halted,
    }
}

/// No event skips a step: an event that fits its stage moves the
/// machine either forward to that stage's immediate successor or
/// directly to `Halted`, never further.
pub proof fn lemma_no_step_skipped(s: Stage, ev: Event)
    requires
        event_fits(s, ev),
    ensures
        step_stage(s, ev) == successor(s) || step_stage(s, ev) == Stage::Halted,
{
}

/// `Halted` and `Done` are terminal: no event fits either stage, and
/// the only action that fits is to stop — in particular, a pipeline
/// halted before a step never asks for that step's tool.
pub proof fn lemma_terminal_stages(p: Option<(Seq<char>, Seq<char>)>, a: Action, ev: Event)
    ensures
        action_fits(Stage::Halted, p, a) ==> a is Stop,
        action_fits(Stage::Done, p, a) ==> a is Stop,
        !event_fits(Stage::Halted, ev),
        !event_fits(Stage::Done, ev),
{
}

} // verus!
