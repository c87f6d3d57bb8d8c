use bevy_scaffold::args::ArgBuilder;
use bevy_scaffold::context::{
    add_fast_linker, fast_linker_config_for, register_compile_features, Context, CARGO_CONFIG_PATH,
    CARGO_CONFIG_TEMPLATE, TOOLCHAIN_PATH, WASM_INDEX_PATH,
};
use bevy_scaffold::feature::{compile_feature_choices, select_compile_features, CompileFeature};
use bevy_scaffold::run::{cargo_args, failure_message, start, step, RunCommand, RunState, Stage};
use bevy_scaffold::template::{resolve_template, Fragment};

fn strings(v: &[&str]) -> Vec<String> {
    v.iter().map(|s| s.to_string()).collect()
}

fn paths(context: &Context) -> Vec<String> {
    context.create_files.iter().map(|f| f.path.clone()).collect()
}

#[test]
fn registry_order_and_labels() {
    let all = CompileFeature::all();
    assert_eq!(
        all,
        vec![
            CompileFeature::FastCompileTimes,
            CompileFeature::NightlyToolchain,
            CompileFeature::WasmTarget
        ]
    );
    assert_eq!(CompileFeature::FastCompileTimes.to_string(), "Fast compile times");
    assert_eq!(CompileFeature::NightlyToolchain.to_string(), "Nightly toolchain");
    assert_eq!(CompileFeature::WasmTarget.to_string(), "Target WASM");
    assert!(all.iter().all(|f| f.enabled_by_default()));
}

#[test]
fn default_features_are_presented_checked() {
    let choices = compile_feature_choices();
    assert_eq!(choices.len(), 3);
    assert_eq!(choices[0], ("Fast compile times".to_string(), true));
    assert_eq!(choices[1], ("Nightly toolchain".to_string(), true));
    assert_eq!(choices[2], ("Target WASM".to_string(), true));
}

#[test]
fn unchecking_a_default_feature_leaves_it_out() {
    assert_eq!(select_compile_features(&vec![0, 1, 2]), CompileFeature::all());
    assert_eq!(
        select_compile_features(&vec![0, 2]),
        vec![CompileFeature::FastCompileTimes, CompileFeature::WasmTarget]
    );
}

#[test]
fn selection_follows_registry_order() {
    assert_eq!(
        select_compile_features(&vec![2, 0, 2]),
        vec![CompileFeature::FastCompileTimes, CompileFeature::WasmTarget]
    );
    assert_eq!(select_compile_features(&vec![]), vec![]);
    assert_eq!(select_compile_features(&vec![7]), vec![]);
}

#[test]
fn arguments_keep_call_order() {
    let mut b = ArgBuilder::new();
    b.add("--release");
    b.add_with_value("--target", "x");
    assert_eq!(b.into_args(), strings(&["--release", "--target", "x"]));
}

#[test]
fn arguments_are_not_deduplicated() {
    let mut b = ArgBuilder::new();
    b.add("--release");
    b.add("--release");
    b.add_with_value("--target", "a");
    b.add_with_value("--target", "b");
    assert_eq!(
        b.into_args(),
        strings(&["--release", "--release", "--target", "a", "--target", "b"])
    );
}

fn greeting_fragments() -> Vec<Fragment> {
    vec![
        Fragment::new("{{name}}", CompileFeature::WasmTarget, "web", "native"),
        Fragment::new("{{extra}}", CompileFeature::NightlyToolchain, " (nightly)", ""),
    ]
}

#[test]
fn template_resolves_active_and_inactive_text() {
    let template = "a {{name}} build{{extra}}, {{name}} again";
    let fragments = greeting_fragments();
    assert_eq!(
        resolve_template(template, &fragments, &vec![CompileFeature::WasmTarget]),
        "a web build, web again"
    );
    assert_eq!(
        resolve_template(
            template,
            &fragments,
            &vec![CompileFeature::NightlyToolchain, CompileFeature::WasmTarget]
        ),
        "a web build (nightly), web again"
    );
}

#[test]
fn template_with_nothing_active_uses_inactive_text() {
    let template = "a {{name}} build{{extra}}, {{name}} again";
    assert_eq!(
        resolve_template(template, &greeting_fragments(), &vec![]),
        "a native build, native again"
    );
}

#[test]
fn template_resolution_is_deterministic() {
    let template = "a {{name}} build{{extra}}";
    let fragments = greeting_fragments();
    let a = vec![CompileFeature::WasmTarget, CompileFeature::NightlyToolchain];
    let b = vec![
        CompileFeature::NightlyToolchain,
        CompileFeature::WasmTarget,
        CompileFeature::WasmTarget,
    ];
    let first = resolve_template(template, &fragments, &a);
    assert_eq!(first, resolve_template(template, &fragments, &a));
    assert_eq!(first, resolve_template(template, &fragments, &b));
}

#[test]
fn template_leaves_unknown_and_empty_placeholders() {
    let fragments = vec![Fragment::new("", CompileFeature::WasmTarget, "x", "y")];
    assert_eq!(
        resolve_template("keep {{other}}", &fragments, &vec![CompileFeature::WasmTarget]),
        "keep {{other}}"
    );
}

#[test]
fn linker_config_with_nightly_shares_generics() {
    let config = fast_linker_config_for(&vec![CompileFeature::NightlyToolchain]);
    assert!(config.contains("\"link-arg=-fuse-ld=lld\", \"-Zshare-generics=y\"]"));
    assert!(!config.contains("{{{share_generics}}}"));
}

#[test]
fn linker_config_without_nightly_is_inactive_form() {
    let config = fast_linker_config_for(&vec![CompileFeature::FastCompileTimes]);
    assert_eq!(config, CARGO_CONFIG_TEMPLATE.replace("{{{share_generics}}}", ""));
    assert!(!config.contains("share-generics"));
    assert!(config.contains("\"link-arg=-fuse-ld=lld\"]"));
}

#[test]
fn feature_with_file_and_flag_queues_one_config() {
    let mut context = Context::new(vec![
        CompileFeature::FastCompileTimes,
        CompileFeature::NightlyToolchain,
    ]);
    register_compile_features(&mut context);
    let configs: Vec<_> = context
        .create_files
        .iter()
        .filter(|f| f.path == CARGO_CONFIG_PATH)
        .collect();
    assert_eq!(configs.len(), 1);
    assert!(configs[0].content.contains("-Zshare-generics=y"));
    assert_eq!(paths(&context), strings(&[CARGO_CONFIG_PATH, TOOLCHAIN_PATH]));
}

#[test]
fn wasm_feature_and_wasm_run_share_the_target() {
    let mut context = Context::new(vec![CompileFeature::WasmTarget]);
    register_compile_features(&mut context);
    assert_eq!(paths(&context), strings(&[WASM_INDEX_PATH]));
    let command = RunCommand {
        bin: None,
        example: None,
        is_release: false,
        is_wasm: true,
        target: None,
        target_dir: None,
        manifest_path: None,
    };
    let args = cargo_args(&command).into_args();
    assert_eq!(args, strings(&["--target", "wasm32-unknown-unknown"]));
}

#[test]
fn no_features_queue_no_files() {
    let mut context = Context::new(vec![]);
    register_compile_features(&mut context);
    assert!(context.create_files.is_empty());
    assert!(context.compile_features.is_empty());
    let config = fast_linker_config_for(&context.compile_features);
    assert_eq!(config, CARGO_CONFIG_TEMPLATE.replace("{{{share_generics}}}", ""));
}

#[test]
fn hooks_run_in_registry_order() {
    let mut forward = Context::new(vec![
        CompileFeature::FastCompileTimes,
        CompileFeature::NightlyToolchain,
        CompileFeature::WasmTarget,
    ]);
    let mut backward = Context::new(vec![
        CompileFeature::WasmTarget,
        CompileFeature::NightlyToolchain,
        CompileFeature::FastCompileTimes,
    ]);
    register_compile_features(&mut forward);
    register_compile_features(&mut backward);
    let expected = strings(&[CARGO_CONFIG_PATH, TOOLCHAIN_PATH, WASM_INDEX_PATH]);
    assert_eq!(paths(&forward), expected);
    assert_eq!(paths(&backward), expected);
    for (a, b) in forward.create_files.iter().zip(backward.create_files.iter()) {
        assert_eq!(a.content, b.content);
    }
}

#[test]
fn add_fast_linker_appends_to_queue() {
    let mut context = Context::new(vec![]);
    context.queue_file("/README.md", "hello".to_string());
    add_fast_linker(&mut context);
    assert_eq!(paths(&context), strings(&["/README.md", CARGO_CONFIG_PATH]));
    assert_eq!(context.create_files[0].content, "hello");
}

#[test]
fn native_debug_run_arguments() {
    let command = RunCommand {
        bin: Some("game".to_string()),
        example: None,
        is_release: false,
        is_wasm: false,
        target: Some("x86_64-unknown-linux-gnu".to_string()),
        target_dir: None,
        manifest_path: Some("Cargo.toml".to_string()),
    };
    assert_eq!(
        cargo_args(&command).into_args(),
        strings(&[
            "--bin",
            "game",
            "--target",
            "x86_64-unknown-linux-gnu",
            "--manifest-path",
            "Cargo.toml",
            "--features",
            "bevy/dynamic"
        ])
    );
}

#[test]
fn wasm_release_run_arguments() {
    let command = RunCommand {
        bin: None,
        example: Some("demo".to_string()),
        is_release: true,
        is_wasm: true,
        target: Some("x86_64-unknown-linux-gnu".to_string()),
        target_dir: Some("out".to_string()),
        manifest_path: None,
    };
    assert_eq!(
        cargo_args(&command).into_args(),
        strings(&[
            "--example",
            "demo",
            "--release",
            "--target",
            "wasm32-unknown-unknown",
            "--target-dir",
            "out"
        ])
    );
}

fn drive(is_wasm: bool, outcomes: &[bool]) -> (Vec<Stage>, RunState) {
    let mut state = start(is_wasm);
    let mut stages = Vec::new();
    let mut results = outcomes.iter();
    while let RunState::Running(s) = state {
        stages.push(s);
        let ok = *results.next().expect("an outcome for every stage");
        state = step(state, ok);
    }
    (stages, state)
}

#[test]
fn failed_preparation_never_builds() {
    let (stages, end) = drive(true, &[false]);
    assert_eq!(stages, vec![Stage::InstallTarget]);
    assert_eq!(end, RunState::Failed(Stage::InstallTarget));
    assert_eq!(
        failure_message(Stage::InstallTarget),
        "Installation of compilation target `wasm32-unknown-unknown` failed."
    );
    let (stages, end) = drive(true, &[true, true, false]);
    assert_eq!(
        stages,
        vec![Stage::InstallTarget, Stage::InstallBindgen, Stage::CreateWasmFolder]
    );
    assert_eq!(end, RunState::Failed(Stage::CreateWasmFolder));
}

#[test]
fn web_run_goes_through_every_stage() {
    let (stages, end) = drive(true, &[true; 6]);
    assert_eq!(
        stages,
        vec![
            Stage::InstallTarget,
            Stage::InstallBindgen,
            Stage::CreateWasmFolder,
            Stage::Build,
            Stage::Bundle,
            Stage::Serve
        ]
    );
    assert_eq!(end, RunState::Finished);
}

#[test]
fn failed_build_skips_bundle_and_serve() {
    let (stages, end) = drive(true, &[true, true, true, false]);
    assert_eq!(stages.last(), Some(&Stage::Build));
    assert_eq!(end, RunState::Failed(Stage::Build));
    assert_eq!(failure_message(Stage::Bundle), "Failed to bundle for the web");
}

#[test]
fn native_run_is_one_stage() {
    assert_eq!(drive(false, &[true]), (vec![Stage::Run], RunState::Finished));
    assert_eq!(drive(false, &[false]), (vec![Stage::Run], RunState::Failed(Stage::Run)));
}
