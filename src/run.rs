//! The decisions of a run: which arguments the build tool gets, and which
//! stage comes next after each stage succeeds or fails. The stages
//! themselves (installing, building, bundling, serving) are carried out by
//! the caller, which reports back whether each one succeeded.
use vstd::prelude::*;

use crate::args::ArgBuilder;

verus! {

/// The compilation target for web builds.
pub const WASM_TARGET: &'static str = "wasm32-unknown-unknown";

/// What the user asked of a run.
pub struct RunCommand {
    pub bin: Option<String>,
    pub example: Option<String>,
    pub is_release: bool,
    pub is_wasm: bool,
    pub target: Option<String>,
    pub target_dir: Option<String>,
    pub manifest_path: Option<String>,
}

/// A flag and its value, or nothing when there is no value.
pub open spec fn flag_with(flag: Seq<char>, value: Option<String>) -> Seq<Seq<char>> {
    match value {
        Some(v) => seq![flag, v@],
        None => Seq::empty(),
    }
}

/// The arguments the build tool gets for a run, in order.
pub open spec fn spec_cargo_args(c: RunCommand) -> Seq<Seq<char>> {
    flag_with("--bin"@, c.bin) + flag_with("--example"@, c.example) + (if c.is_release {
        seq!["--release"@]
    } else {
        Seq::empty()
    }) + (if c.is_wasm {
        seq!["--target"@, WASM_TARGET@]
    } else {
        flag_with("--target"@, c.target)
    }) + flag_with("--target-dir"@, c.target_dir) + flag_with("--manifest-path"@, c.manifest_path)
        + (if !c.is_release && !c.is_wasm {
        seq!["--features"@, "bevy/dynamic"@]
    } else {
        Seq::empty()
    })
}

fn add_optional(builder: &mut ArgBuilder, flag: &str, value: &Option<String>)
    ensures
        final(builder)@ == old(builder)@ + flag_with(flag@, *value),
{
    match value {
        Some(v) => {
            builder.add_with_value(flag, v.as_str());
            assert(final(builder)@ =~= old(builder)@ + flag_with(flag@, *value));
        },
        None => {
            assert(final(builder)@ =~= old(builder)@ + flag_with(flag@, *value));
        },
    }
}

/// The arguments for the build tool. A web build overrides any explicit
/// target; dynamic linking is asked for in native debug builds only.
pub fn cargo_args(args: &RunCommand) -> (r: ArgBuilder)
    ensures
        r@ == spec_cargo_args(*args),
{
    let mut b = ArgBuilder::new();
    add_optional(&mut b, "--bin", &args.bin);
    add_optional(&mut b, "--example", &args.example);
    if args.is_release {
        b.add("--release");
    }
    if args.is_wasm {
        b.add_with_value("--target", WASM_TARGET);
    } else {
        add_optional(&mut b, "--target", &args.target);
    }
    add_optional(&mut b, "--target-dir", &args.target_dir);
    add_optional(&mut b, "--manifest-path", &args.manifest_path);
    if !args.is_release && !args.is_wasm {
        b.add_with_value("--features", "bevy/dynamic");
    }
    assert(b@ =~= spec_cargo_args(*args));
    b
}

/// A stage of a run.
#[derive(Debug, Clone, Copy, PartialEq, Eq, Structural)]
pub enum Stage {
    /// Install the web compilation target if it is missing.
    InstallTarget,
    /// Install the web bundler if it is missing.
    InstallBindgen,
    /// Create the web output folder if it is missing.
    CreateWasmFolder,
    /// Build for the web.
    Build,
    /// Build and run natively.
    Run,
    /// Bundle the web build.
    Bundle,
    /// Serve the bundle locally.
    Serve,
}

/// Where a run stands.
#[derive(Debug, Clone, Copy, PartialEq, Eq, Structural)]
pub enum RunState {
    /// The stage is to be carried out next.
    Running(Stage),
    /// Every stage succeeded.
    Finished,
    /// The stage failed and nothing after it is carried out.
    Failed(Stage),
}

/// The stage a run starts with.
pub open spec fn spec_first_stage(is_wasm: bool) -> Stage {
    if is_wasm {
        Stage::InstallTarget
    } else {
        Stage::Run
    }
}

/// Where a run goes after the stage succeeds.
pub open spec fn spec_after(stage: Stage) -> RunState {
    match stage {
        Stage::InstallTarget => RunState::Running(Stage::InstallBindgen),
        Stage::InstallBindgen => RunState::Running(Stage::CreateWasmFolder),
        Stage::CreateWasmFolder => RunState::Running(Stage::Build),
        Stage::Build => RunState::Running(Stage::Bundle),
        Stage::Bundle => RunState::Running(Stage::Serve),
        Stage::Run => RunState::Finished,
        Stage::Serve => RunState::Finished,
    }
}

/// Where a run goes when the current stage ends with `succeeded`.
pub open spec fn spec_step(state: RunState, succeeded: bool) -> RunState {
    match state {
        RunState::Running(s) => if succeeded {
            spec_after(s)
        } else {
            RunState::Failed(s)
        },
        _ => state,
    }
}

/// The stages carried out, in order, when the stages report `outcomes`.
pub open spec fn stages_run(state: RunState, outcomes: Seq<bool>) -> Seq<Stage>
    decreases outcomes.len(),
{
    match state {
        RunState::Running(s) => if outcomes.len() == 0 {
            Seq::empty()
        } else {
            seq![s] + stages_run(spec_step(state, outcomes[0]), outcomes.drop_first())
        },
        _ => Seq::empty(),
    }
}

/// Where a run ends when the stages report `outcomes`.
pub open spec fn end_state(state: RunState, outcomes: Seq<bool>) -> RunState
    decreases outcomes.len(),
{
    match state {
        RunState::Running(s) => if outcomes.len() == 0 {
            state
        } else {
            end_state(spec_step(state, outcomes[0]), outcomes.drop_first())
        },
        _ => state,
    }
}

/// The state a run starts in.
pub fn start(is_wasm: bool) -> (r: RunState)
    ensures
        r == RunState::Running(spec_first_stage(is_wasm)),
{
    if is_wasm {
        RunState::Running(Stage::InstallTarget)
    } else {
        RunState::Running(Stage::Run)
    }
}

/// Where a run goes when the current stage ends with `succeeded`.
pub fn step(state: RunState, succeeded: bool) -> (r: RunState)
    ensures
        r == spec_step(state, succeeded),
{
    match state {
        RunState::Running(s) => {
            if !succeeded {
                RunState::Failed(s)
            } else {
                match s {
                    Stage::InstallTarget => RunState::Running(Stage::InstallBindgen),
                    Stage::InstallBindgen => RunState::Running(Stage::CreateWasmFolder),
                    Stage::CreateWasmFolder => RunState::Running(Stage::Build),
                    Stage::Build => RunState::Running(Stage::Bundle),
                    Stage::Bundle => RunState::Running(Stage::Serve),
                    Stage::Run => RunState::Finished,
                    Stage::Serve => RunState::Finished,
                }
            }
        },
        _ => state,
    }
}

/// What is reported when a stage fails.
pub open spec fn spec_failure_message(stage: Stage) -> Seq<char> {
    match stage {
        Stage::InstallTarget => "Installation of compilation target `wasm32-unknown-unknown` failed."@,
        Stage::InstallBindgen => "Installation of `wasm-bindgen-cli` failed."@,
        Stage::CreateWasmFolder => "Creation of `wasm/` folder failed."@,
        Stage::Build => "Failed to build for the web"@,
        Stage::Run => "Failed to build and run the app"@,
        Stage::Bundle => "Failed to bundle for the web"@,
        Stage::Serve => "Failed to launch game"@,
    }
}

/// What is reported when a stage fails.
pub fn failure_message(stage: Stage) -> (r: String)
    ensures
        r@ == spec_failure_message(stage),
{
    match stage {
        Stage::InstallTarget => String::from_str("Installation of compilation target `wasm32-unknown-unknown` failed."),
        Stage::InstallBindgen => String::from_str("Installation of `wasm-bindgen-cli` failed."),
        Stage::CreateWasmFolder => String::from_str("Creation of `wasm/` folder failed."),
        Stage::Build => String::from_str("Failed to build for the web"),
        Stage::Run => String::from_str("Failed to build and run the app"),
        Stage::Bundle => String::from_str("Failed to bundle for the web"),
        Stage::Serve => String::from_str("Failed to launch game"),
    }
}

/// The preparations of a web run, in order.
pub open spec fn preparations() -> Seq<Stage> {
    seq![Stage::InstallTarget, Stage::InstallBindgen, Stage::CreateWasmFolder]
}

/// When a preparation of a web run fails, the run stops there: the
/// preparations up to the failing one are all that is carried out (no build,
/// bundle or serve), and the run ends failed at that preparation.
pub proof fn lemma_failed_preparation_halts(outcomes: Seq<bool>, k: int)
    requires
        0 <= k < 3,
        k < outcomes.len(),
        !outcomes[k],
        forall|j: int| 0 <= j < k ==> outcomes[j],
    ensures
        stages_run(RunState::Running(spec_first_stage(true)), outcomes) == preparations().take(k + 1),
        end_state(RunState::Running(spec_first_stage(true)), outcomes) == RunState::Failed(preparations()[k]),
{
    let o1 = outcomes.drop_first();
    let s0 = RunState::Running(Stage::InstallTarget);
    let s1 = RunState::Running(Stage::InstallBindgen);
    let s2 = RunState::Running(Stage::CreateWasmFolder);
    if k == 0 {
        assert(stages_run(RunState::Failed(Stage::InstallTarget), o1) == Seq::<Stage>::empty());
        assert(stages_run(s0, outcomes) =~= preparations().take(1));
        assert(end_state(RunState::Failed(Stage::InstallTarget), o1) == RunState::Failed(Stage::InstallTarget));
    } else {
        let o2 = o1.drop_first();
        assert(o1[0] == outcomes[1]);
        if k == 1 {
            assert(stages_run(RunState::Failed(Stage::InstallBindgen), o2) == Seq::<Stage>::empty());
            assert(stages_run(s1, o1) =~= seq![Stage::InstallBindgen]);
            assert(stages_run(s0, outcomes) =~= preparations().take(2));
            assert(end_state(RunState::Failed(Stage::InstallBindgen), o2) == RunState::Failed(Stage::InstallBindgen));
            assert(end_state(s1, o1) == RunState::Failed(Stage::InstallBindgen));
        } else {
            let o3 = o2.drop_first();
            assert(o2[0] == outcomes[2]);
            assert(stages_run(RunState::Failed(Stage::CreateWasmFolder), o3) == Seq::<Stage>::empty());
            assert(stages_run(s2, o2) =~= seq![Stage::CreateWasmFolder]);
            assert(stages_run(s1, o1) =~= seq![Stage::InstallBindgen, Stage::CreateWasmFolder]);
            assert(stages_run(s0, outcomes) =~= preparations().take(3));
            assert(end_state(RunState::Failed(Stage::CreateWasmFolder), o3) == RunState::Failed(Stage::CreateWasmFolder));
            assert(end_state(s2, o2) == RunState::Failed(Stage::CreateWasmFolder));
            assert(end_state(s1, o1) == RunState::Failed(Stage::CreateWasmFolder));
        }
    }
}

} // verus!
