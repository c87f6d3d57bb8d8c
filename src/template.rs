//! Flat placeholder substitution: a template is resolved against the active
//! features by replacing each conditional placeholder with its active or its
//! inactive text.
use vstd::prelude::*;

use crate::feature::{contains_feature, CompileFeature};

verus! {

/// `s` with every match of `pat`, found left to right without overlap,
/// replaced by `rep`. An empty pattern leaves `s` as it is.
pub open spec fn replace_all(s: Seq<char>, pat: Seq<char>, rep: Seq<char>) -> Seq<char>
    decreases s.len(),
{
    if s.len() == 0 {
        s
    } else if 0 < pat.len() <= s.len() && s.subrange(0, pat.len() as int) == pat {
        rep + replace_all(s.subrange(pat.len() as int, s.len() as int), pat, rep)
    } else {
        seq![s[0]] + replace_all(s.subrange(1, s.len() as int), pat, rep)
    }
}

/// Relies on str::replace: it replaces every non-overlapping match of a
/// non-empty pattern, scanning from the left, and copies the rest.
#[verifier::external_body]
fn replace_str(s: &str, from: &str, to: &str) -> (r: String)
    requires
        from@.len() > 0,
    ensures
        r@ == replace_all(s@, from@, to@),
{
    s.replace(from, to)
}

/// A conditional fragment: the placeholder resolves to `active` when
/// `feature` is active, else to `inactive`.
pub struct Fragment {
    pub placeholder: String,
    pub feature: CompileFeature,
    pub active: String,
    pub inactive: String,
}

impl Fragment {
    /// A fragment from its four parts.
    pub fn new(placeholder: &str, feature: CompileFeature, active: &str, inactive: &str) -> (r: Fragment)
        ensures
            r.placeholder@ == placeholder@,
            r.feature == feature,
            r.active@ == active@,
            r.inactive@ == inactive@,
    {
        Fragment {
            placeholder: placeholder.to_string(),
            feature,
            active: active.to_string(),
            inactive: inactive.to_string(),
        }
    }
}

/// The text that a fragment's placeholder resolves to under `active`.
pub open spec fn fragment_text(fr: Fragment, active: Seq<CompileFeature>) -> Seq<char> {
    if active.contains(fr.feature) {
        fr.active@
    } else {
        fr.inactive@
    }
}

/// `template` with the fragments' placeholders resolved one after another.
pub open spec fn resolved(template: Seq<char>, fragments: Seq<Fragment>, active: Seq<CompileFeature>) -> Seq<char>
    decreases fragments.len(),
{
    if fragments.len() == 0 {
        template
    } else {
        replace_all(
            resolved(template, fragments.drop_last(), active),
            fragments.last().placeholder@,
            fragment_text(fragments.last(), active),
        )
    }
}

/// `template` with every fragment's placeholder replaced by its inactive text.
pub open spec fn inactive_form(template: Seq<char>, fragments: Seq<Fragment>) -> Seq<char>
    decreases fragments.len(),
{
    if fragments.len() == 0 {
        template
    } else {
        replace_all(
            inactive_form(template, fragments.drop_last()),
            fragments.last().placeholder@,
            fragments.last().inactive@,
        )
    }
}

proof fn lemma_replace_empty_pattern(s: Seq<char>, rep: Seq<char>)
    ensures
        replace_all(s, Seq::empty(), rep) == s,
    decreases s.len(),
{
    if s.len() > 0 {
        lemma_replace_empty_pattern(s.subrange(1, s.len() as int), rep);
        assert(seq![s[0]] + s.subrange(1, s.len() as int) =~= s);
    }
}

/// Resolves `template` against the active features. Text that no fragment's
/// placeholder matches, including a placeholder that no fragment names, is
/// copied as it is.
pub fn resolve_template(template: &str, fragments: &Vec<Fragment>, active: &Vec<CompileFeature>) -> (r: String)
    ensures
        r@ == resolved(template@, fragments@, active@),
{
    let mut out = template.to_string();
    let mut i: usize = 0;
    while i < fragments.len()
        invariant
            i <= fragments@.len(),
            out@ == resolved(template@, fragments@.take(i as int), active@),
        decreases fragments@.len() - i,
    {
        let fr = &fragments[i];
        assert(fragments@.take(i + 1).drop_last() =~= fragments@.take(i as int));
        let text = if contains_feature(active, fr.feature) {
            fr.active.as_str()
        } else {
            fr.inactive.as_str()
        };
        if fr.placeholder.as_str().is_empty() {
            proof {
                lemma_replace_empty_pattern(out@, text@);
                assert(fr.placeholder@ =~= Seq::<char>::empty());
            }
        } else {
            out = replace_str(out.as_str(), fr.placeholder.as_str(), text);
        }
        i = i + 1;
    }
    assert(fragments@.take(fragments@.len() as int) =~= fragments@);
    out
}

/// Resolving depends only on which features are active: two active lists
/// that hold the same features, in any order and with any repetition, give
/// the same text, so repeated resolution of one set is identical.
pub proof fn lemma_resolve_depends_on_set(
    template: Seq<char>,
    fragments: Seq<Fragment>,
    a: Seq<CompileFeature>,
    b: Seq<CompileFeature>,
)
    requires
        forall|f: CompileFeature| a.contains(f) <==> b.contains(f),
    ensures
        resolved(template, fragments, a) == resolved(template, fragments, b),
    decreases fragments.len(),
{
    if fragments.len() > 0 {
        lemma_resolve_depends_on_set(template, fragments.drop_last(), a, b);
    }
}

/// With no feature active, every placeholder resolves to its inactive text.
pub proof fn lemma_resolve_none_active(template: Seq<char>, fragments: Seq<Fragment>)
    ensures
        resolved(template, fragments, Seq::empty()) == inactive_form(template, fragments),
    decreases fragments.len(),
{
    if fragments.len() > 0 {
        lemma_resolve_none_active(template, fragments.drop_last());
        assert(!Seq::<CompileFeature>::empty().contains(fragments.last().feature));
    }
}

} // verus!
