//! The registry of compile features and the selection over it.
use vstd::prelude::*;

verus! {

/// A selectable compile feature.
#[derive(Debug, Clone, Copy, PartialEq, Eq, Structural)]
pub enum CompileFeature {
    FastCompileTimes,
    NightlyToolchain,
    WasmTarget,
}

/// The registry in its enumeration order.
pub open spec fn registry() -> Seq<CompileFeature> {
    seq![CompileFeature::FastCompileTimes, CompileFeature::NightlyToolchain, CompileFeature::WasmTarget]
}

/// Whether a feature is pre-checked when the user is asked.
pub open spec fn spec_enabled_by_default(f: CompileFeature) -> bool {
    true
}

/// The label shown to the user.
pub open spec fn spec_label(f: CompileFeature) -> Seq<char> {
    match f {
        CompileFeature::FastCompileTimes => "Fast compile times"@,
        CompileFeature::NightlyToolchain => "Nightly toolchain"@,
        CompileFeature::WasmTarget => "Target WASM"@,
    }
}

/// The position of a feature in the registry.
pub open spec fn position(f: CompileFeature) -> usize {
    match f {
        CompileFeature::FastCompileTimes => 0,
        CompileFeature::NightlyToolchain => 1,
        CompileFeature::WasmTarget => 2,
    }
}

/// The features that `chosen` holds, in registry order.
pub open spec fn in_registry_order(chosen: Seq<CompileFeature>) -> Seq<CompileFeature> {
    registry().filter(|f: CompileFeature| chosen.contains(f))
}

/// The features whose registry positions `indices` holds, in registry order.
pub open spec fn selected(indices: Seq<usize>) -> Seq<CompileFeature> {
    registry().filter(|f: CompileFeature| indices.contains(position(f)))
}

/// What the user is shown: each feature's label and whether it starts checked.
pub open spec fn presented() -> Seq<(Seq<char>, bool)> {
    registry().map_values(|f: CompileFeature| (spec_label(f), spec_enabled_by_default(f)))
}

/// Whether `v` holds `x`.
pub fn contains_index(v: &Vec<usize>, x: usize) -> (r: bool)
    ensures
        r == v@.contains(x),
{
    let mut i: usize = 0;
    while i < v.len()
        invariant
            i <= v@.len(),
            forall|j: int| 0 <= j < i ==> v@[j] != x,
        decreases v@.len() - i,
    {
        if v[i] == x {
            return true;
        }
        i = i + 1;
    }
    false
}

/// Whether `v` holds `f`.
pub fn contains_feature(v: &Vec<CompileFeature>, f: CompileFeature) -> (r: bool)
    ensures
        r == v@.contains(f),
{
    let mut i: usize = 0;
    while i < v.len()
        invariant
            i <= v@.len(),
            forall|j: int| 0 <= j < i ==> v@[j] != f,
        decreases v@.len() - i,
    {
        if v[i] == f {
            return true;
        }
        i = i + 1;
    }
    false
}

/// The choices offered to the user, in registry order: each feature's label
/// and whether it starts checked.
pub fn compile_feature_choices() -> (r: Vec<(String, bool)>)
    ensures
        r@.len() == presented().len(),
        forall|i: int| 0 <= i < r@.len() ==> (#[trigger] r@[i].0@, r@[i].1) == presented()[i],
{
    let all = CompileFeature::all();
    let mut r: Vec<(String, bool)> = Vec::new();
    let mut i: usize = 0;
    while i < all.len()
        invariant
            all@ == registry(),
            i <= all@.len(),
            r@.len() == i,
            forall|j: int| 0 <= j < i ==> (#[trigger] r@[j].0@, r@[j].1) == presented()[j],
        decreases all@.len() - i,
    {
        let f = all[i];
        r.push((f.to_string(), f.enabled_by_default()));
        i = i + 1;
    }
    r
}

/// The features that the user left checked, given the positions of the
/// checked choices. The result follows registry order, whatever the order
/// of `chosen`.
pub fn select_compile_features(chosen: &Vec<usize>) -> (r: Vec<CompileFeature>)
    ensures
        r@ == selected(chosen@),
{
    let all = CompileFeature::all();
    let mut r: Vec<CompileFeature> = Vec::new();
    let mut i: usize = 0;
    while i < all.len()
        invariant
            all@ == registry(),
            i <= all@.len(),
            r@ == registry().take(i as int).filter(|f: CompileFeature| chosen@.contains(position(f))),
        decreases all@.len() - i,
    {
        let f = all[i];
        proof {
            assert(registry().take(i + 1).drop_last() =~= registry().take(i as int));
            reveal(Seq::filter);
        }
        if contains_index(chosen, i) {
            r.push(f);
        }
        i = i + 1;
    }
    assert(registry().take(3) =~= registry());
    r
}

/// A feature that is enabled by default is shown checked, and a selection
/// that leaves it unchecked does not hold it.
pub proof fn lemma_default_checked(f: CompileFeature, chosen: Seq<usize>)
    requires
        spec_enabled_by_default(f),
    ensures
        presented()[position(f) as int].1,
        !chosen.contains(position(f)) ==> !selected(chosen).contains(f),
{
    broadcast use Seq::lemma_filter_pred;
    if selected(chosen).contains(f) {
        let k = choose|k: int| 0 <= k < selected(chosen).len() && selected(chosen)[k] == f;
        assert(chosen.contains(position(selected(chosen)[k])));
    }
}

impl CompileFeature {
    /// Every compile feature, in registry order.
    pub fn all() -> (r: Vec<CompileFeature>)
        ensures
            r@ == registry(),
    {
        let r = vec![CompileFeature::FastCompileTimes, CompileFeature::NightlyToolchain, CompileFeature::WasmTarget];
        assert(r@ =~= registry());
        r
    }

    /// Whether the feature is pre-checked when the user is asked.
    pub fn enabled_by_default(&self) -> (r: bool)
        ensures
            r == spec_enabled_by_default(*self),
    {
        true
    }

    /// The label shown to the user.
    pub fn to_string(&self) -> (r: String)
        ensures
            r@ == spec_label(*self),
    {
        match self {
            CompileFeature::FastCompileTimes => String::from_str("Fast compile times"),
            CompileFeature::NightlyToolchain => String::from_str("Nightly toolchain"),
            CompileFeature::WasmTarget => String::from_str("Target WASM"),
        }
    }
}

} // verus!
