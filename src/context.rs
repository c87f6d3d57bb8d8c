//! The scaffold context: the selected features and the files that they queue
//! for writing, with one registration hook per feature.
use vstd::prelude::*;

use crate::feature::{contains_feature, registry, CompileFeature};
use crate::template::{fragment_text, replace_all, resolve_template, resolved, Fragment};

verus! {

/// Where the linker configuration is written, relative to the project root.
pub const CARGO_CONFIG_PATH: &'static str = "/.cargo/config.toml";

/// The linker configuration, with a placeholder for the nightly-only flags.
pub const CARGO_CONFIG_TEMPLATE: &'static str = "# Use a faster linker to speed up incremental builds.\n\n[target.x86_64-unknown-linux-gnu]\nlinker = \"clang\"\nrustflags = [\"-C\", \"link-arg=-fuse-ld=lld\"{{{share_generics}}}]\n\n[target.x86_64-apple-darwin]\nrustflags = [\"-C\", \"link-arg=-fuse-ld=/usr/local/opt/llvm/bin/ld64.lld\"{{{share_generics}}}]\n\n[target.aarch64-apple-darwin]\nrustflags = [\"-C\", \"link-arg=-fuse-ld=/opt/homebrew/opt/llvm/bin/ld64.lld\"{{{share_generics}}}]\n\n[target.x86_64-pc-windows-msvc]\nlinker = \"rust-lld.exe\"\n";

/// The placeholder for flags that only a nightly toolchain accepts.
pub const SHARE_GENERICS_PLACEHOLDER: &'static str = "{{{share_generics}}}";

/// Shared generics, which only a nightly toolchain offers.
pub const SHARE_GENERICS_FLAG: &'static str = ", \"-Zshare-generics=y\"";

/// Where the toolchain choice is written.
pub const TOOLCHAIN_PATH: &'static str = "/rust-toolchain.toml";

/// A toolchain file that selects nightly.
pub const NIGHTLY_TOOLCHAIN: &'static str = "[toolchain]\nchannel = \"nightly\"\n";

/// Where the page that loads the web build is written.
pub const WASM_INDEX_PATH: &'static str = "/wasm/index.html";

/// The page that loads the bundled web build.
pub const WASM_INDEX: &'static str = "<!doctype html>\n<html lang=\"en\">\n<head>\n  <meta charset=\"utf-8\">\n  <title>Bevy game</title>\n</head>\n<body style=\"margin: 0;\">\n  <script type=\"module\">\n    import init from './bevy_game.js';\n    init();\n  </script>\n</body>\n</html>\n";

/// A file to be written: its path below the project root and its content.
pub struct CreateFile {
    pub path: String,
    pub content: String,
}

impl CreateFile {
    /// A file to be written at `path` with `content`.
    pub fn new(path: &str, content: String) -> (r: CreateFile)
        ensures
            r.path@ == path@,
            r.content@ == content@,
    {
        CreateFile { path: path.to_string(), content }
    }
}

/// A file as path and content.
pub open spec fn file_view(f: CreateFile) -> (Seq<char>, Seq<char>) {
    (f.path@, f.content@)
}

/// Files as paths and contents, in queue order.
pub open spec fn files_view(s: Seq<CreateFile>) -> Seq<(Seq<char>, Seq<char>)> {
    s.map_values(|f: CreateFile| file_view(f))
}

/// What the run accumulates: the selected features and the files that their
/// hooks queued, in queue order.
pub struct Context {
    pub compile_features: Vec<CompileFeature>,
    pub create_files: Vec<CreateFile>,
}

impl Context {
    /// A context for the given selection, with no file queued.
    pub fn new(compile_features: Vec<CompileFeature>) -> (r: Context)
        ensures
            r.compile_features@ == compile_features@,
            r.create_files@.len() == 0,
    {
        Context { compile_features, create_files: Vec::new() }
    }

    /// Appends a file to the queue.
    pub fn queue_file(&mut self, path: &str, content: String)
        ensures
            final(self).compile_features@ == old(self).compile_features@,
            files_view(final(self).create_files@) == files_view(old(self).create_files@).push(
                (path@, content@),
            ),
    {
        self.create_files.push(CreateFile::new(path, content));
        assert(files_view(final(self).create_files@) =~= files_view(old(self).create_files@).push(
            (path@, content@),
        ));
    }
}

/// The linker configuration for the active features.
pub open spec fn fast_linker_config(active: Seq<CompileFeature>) -> Seq<char> {
    replace_all(
        CARGO_CONFIG_TEMPLATE@,
        SHARE_GENERICS_PLACEHOLDER@,
        if active.contains(CompileFeature::NightlyToolchain) {
            SHARE_GENERICS_FLAG@
        } else {
            ""@
        },
    )
}

/// The files that a feature's hook queues under the active features.
pub open spec fn hook_files(f: CompileFeature, active: Seq<CompileFeature>) -> Seq<(Seq<char>, Seq<char>)> {
    match f {
        CompileFeature::FastCompileTimes => seq![(CARGO_CONFIG_PATH@, fast_linker_config(active))],
        CompileFeature::NightlyToolchain => seq![(TOOLCHAIN_PATH@, NIGHTLY_TOOLCHAIN@)],
        CompileFeature::WasmTarget => seq![(WASM_INDEX_PATH@, WASM_INDEX@)],
    }
}

/// The files queued for the active features: each active feature's hook in
/// registry order.
pub open spec fn queued_files(active: Seq<CompileFeature>) -> Seq<(Seq<char>, Seq<char>)> {
    registry().map_values(
        |f: CompileFeature|
            if active.contains(f) {
                hook_files(f, active)
            } else {
                Seq::empty()
            },
    ).flatten()
}

/// Resolves the linker configuration against the active features.
pub fn fast_linker_config_for(active: &Vec<CompileFeature>) -> (r: String)
    ensures
        r@ == fast_linker_config(active@),
{
    let share_generics = Fragment::new(
        SHARE_GENERICS_PLACEHOLDER,
        CompileFeature::NightlyToolchain,
        SHARE_GENERICS_FLAG,
        "",
    );
    let ghost text = fragment_text(share_generics, active@);
    let fragments = vec![share_generics];
    let r = resolve_template(CARGO_CONFIG_TEMPLATE, &fragments, active);
    assert(fragments@.drop_last() =~= Seq::<Fragment>::empty());
    assert(fragments@.last() == share_generics);
    assert(resolved(CARGO_CONFIG_TEMPLATE@, fragments@.drop_last(), active@) == CARGO_CONFIG_TEMPLATE@);
    assert(text == if active@.contains(CompileFeature::NightlyToolchain) {
        SHARE_GENERICS_FLAG@
    } else {
        ""@
    });
    assert(r@ == resolved(CARGO_CONFIG_TEMPLATE@, fragments@, active@));
    r
}

/// Queues the linker configuration, with shared generics when the nightly
/// toolchain is selected.
pub fn add_fast_linker(context: &mut Context)
    ensures
        final(context).compile_features@ == old(context).compile_features@,
        files_view(final(context).create_files@) == files_view(old(context).create_files@)
            + hook_files(CompileFeature::FastCompileTimes, old(context).compile_features@),
{
    let config_toml = fast_linker_config_for(&context.compile_features);
    context.queue_file(CARGO_CONFIG_PATH, config_toml);
    assert(files_view(final(context).create_files@) =~= files_view(old(context).create_files@)
        + hook_files(CompileFeature::FastCompileTimes, old(context).compile_features@));
}

/// Queues a toolchain file that selects nightly.
pub fn add_nightly_toolchain(context: &mut Context)
    ensures
        final(context).compile_features@ == old(context).compile_features@,
        files_view(final(context).create_files@) == files_view(old(context).create_files@)
            + hook_files(CompileFeature::NightlyToolchain, old(context).compile_features@),
{
    context.queue_file(TOOLCHAIN_PATH, String::from_str(NIGHTLY_TOOLCHAIN));
    assert(files_view(final(context).create_files@) =~= files_view(old(context).create_files@)
        + hook_files(CompileFeature::NightlyToolchain, old(context).compile_features@));
}

/// Queues the page that loads the web build.
pub fn add_wasm(context: &mut Context)
    ensures
        final(context).compile_features@ == old(context).compile_features@,
        files_view(final(context).create_files@) == files_view(old(context).create_files@)
            + hook_files(CompileFeature::WasmTarget, old(context).compile_features@),
{
    context.queue_file(WASM_INDEX_PATH, String::from_str(WASM_INDEX));
    assert(files_view(final(context).create_files@) =~= files_view(old(context).create_files@)
        + hook_files(CompileFeature::WasmTarget, old(context).compile_features@));
}

/// The files that a feature's hook queues, or none when it is not active.
pub open spec fn files_if_active(f: CompileFeature, active: Seq<CompileFeature>) -> Seq<(Seq<char>, Seq<char>)> {
    if active.contains(f) {
        hook_files(f, active)
    } else {
        Seq::empty()
    }
}

proof fn lemma_queued_files_parts(active: Seq<CompileFeature>)
    ensures
        queued_files(active) == files_if_active(CompileFeature::FastCompileTimes, active)
            + files_if_active(CompileFeature::NightlyToolchain, active)
            + files_if_active(CompileFeature::WasmTarget, active),
{
    let part0 = files_if_active(CompileFeature::FastCompileTimes, active);
    let part1 = files_if_active(CompileFeature::NightlyToolchain, active);
    let part2 = files_if_active(CompileFeature::WasmTarget, active);
    let parts = registry().map_values(
        |f: CompileFeature|
            if active.contains(f) {
                hook_files(f, active)
            } else {
                Seq::empty()
            },
    );
    assert(parts =~= seq![part0, part1, part2]);
    reveal_with_fuel(Seq::flatten, 4);
    assert(parts.drop_first() =~= seq![part1, part2]);
    assert(parts.drop_first().drop_first() =~= seq![part2]);
    assert(parts.drop_first().drop_first().drop_first() =~= Seq::<Seq<(Seq<char>, Seq<char>)>>::empty());
    assert(queued_files(active) =~= part0 + part1 + part2);
}

/// Runs the hook of each selected feature, in registry order.
pub fn register_compile_features(context: &mut Context)
    ensures
        final(context).compile_features@ == old(context).compile_features@,
        files_view(final(context).create_files@) == files_view(old(context).create_files@)
            + queued_files(old(context).compile_features@),
{
    let ghost active = context.compile_features@;
    let ghost start = files_view(context.create_files@);
    if contains_feature(&context.compile_features, CompileFeature::FastCompileTimes) {
        add_fast_linker(context);
    }
    assert(files_view(context.create_files@) =~= start + files_if_active(CompileFeature::FastCompileTimes, active));
    if contains_feature(&context.compile_features, CompileFeature::NightlyToolchain) {
        add_nightly_toolchain(context);
    }
    assert(files_view(context.create_files@) =~= start + files_if_active(CompileFeature::FastCompileTimes, active)
        + files_if_active(CompileFeature::NightlyToolchain, active));
    if contains_feature(&context.compile_features, CompileFeature::WasmTarget) {
        add_wasm(context);
    }
    assert(files_view(context.create_files@) =~= start + files_if_active(CompileFeature::FastCompileTimes, active)
        + files_if_active(CompileFeature::NightlyToolchain, active) + files_if_active(CompileFeature::WasmTarget, active));
    proof {
        lemma_queued_files_parts(active);
    }
}

/// The hooks never queue two files for one path: whatever is selected, the
/// queued paths are distinct.
pub proof fn lemma_queued_paths_distinct(active: Seq<CompileFeature>)
    ensures
        forall|i: int, j: int|
            0 <= i < j < queued_files(active).len() ==> queued_files(active)[i].0 != queued_files(active)[j].0,
{
    lemma_queued_files_parts(active);
    reveal_strlit("/.cargo/config.toml");
    reveal_strlit("/rust-toolchain.toml");
    reveal_strlit("/wasm/index.html");
    assert(CARGO_CONFIG_PATH@.len() != TOOLCHAIN_PATH@.len());
    assert(CARGO_CONFIG_PATH@.len() != WASM_INDEX_PATH@.len());
    assert(TOOLCHAIN_PATH@.len() != WASM_INDEX_PATH@.len());
}

/// The files queued depend only on which features are selected, not on the
/// order in which they were selected: hooks run in registry order.
pub proof fn lemma_hooks_follow_registry(a: Seq<CompileFeature>, b: Seq<CompileFeature>)
    requires
        forall|f: CompileFeature| a.contains(f) <==> b.contains(f),
    ensures
        queued_files(a) == queued_files(b),
{
    assert(fast_linker_config(a) == fast_linker_config(b));
    let pa = registry().map_values(
        |f: CompileFeature|
            if a.contains(f) {
                hook_files(f, a)
            } else {
                Seq::empty()
            },
    );
    let pb = registry().map_values(
        |f: CompileFeature|
            if b.contains(f) {
                hook_files(f, b)
            } else {
                Seq::empty()
            },
    );
    assert(pa =~= pb);
}

} // verus!
