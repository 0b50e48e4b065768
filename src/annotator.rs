//! The line annotator: every rule of a profile that is not ignored renders
//! the line once, in profile order, with no early exit.
use vstd::prelude::*;
use crate::rule::{ColorEntry, RenderedOutput, RenderedView, is_default_entry, rendered, triggered};
use crate::text::{is_prefix_of, occurs_at, occurs_in};

verus! {

/// A rule that takes part in evaluation.
pub open spec fn is_active(e: ColorEntry) -> bool {
    !e.ignore
}

/// The rules of `profile` that are not ignored, in profile order.
pub open spec fn active_entries(profile: Seq<ColorEntry>) -> Seq<ColorEntry> {
    profile.filter(|e: ColorEntry| is_active(e))
}

proof fn lemma_active_entries_push(s: Seq<ColorEntry>, e: ColorEntry)
    ensures
        active_entries(s.push(e)) == (if is_active(e) {
            active_entries(s).push(e)
        } else {
            active_entries(s)
        }),
{
    reveal(Seq::filter);
    assert(s.push(e).drop_last() =~= s);
    assert(s.push(e).last() == e);
}

proof fn lemma_active_entries_add(a: Seq<ColorEntry>, b: Seq<ColorEntry>)
    ensures
        active_entries(a + b) == active_entries(a) + active_entries(b),
{
    Seq::filter_distributes_over_add(a, b, |e: ColorEntry| is_active(e));
}

/// What `line` renders to under `profile`: one output per active rule, in
/// order.
pub open spec fn evaluation(line: Seq<char>, profile: Seq<ColorEntry>) -> Seq<RenderedView> {
    active_entries(profile).map_values(|e: ColorEntry| rendered(line, e))
}

/// The views of a sequence of outputs.
pub open spec fn views(outs: Seq<RenderedOutput>) -> Seq<RenderedView> {
    outs.map_values(|o: RenderedOutput| o@)
}

impl ColorEntry {
    /// What this rule renders for `line`: nothing when ignored; otherwise the
    /// unchanged line, styled with `color` exactly when the rule matches.
    pub fn render(&self, line: &str) -> (r: Option<RenderedOutput>)
        ensures
            self.ignore ==> r is None,
            !self.ignore ==> r is Some && r->0@ == rendered(line@, *self),
    {
        if self.ignore {
            return None;
        }
        // The substituted line is computed, but what is printed is always the
        // original line.
        let _substituted = self.substituted(line);
        let style = if self.is_triggered(line) {
            Some(self.color.clone())
        } else {
            None
        };
        Some(RenderedOutput { text: line.to_owned(), style })
    }
}

/// Renders `line` under every rule of `profile` in order: one output per
/// rule that is not ignored, nothing deduplicated.
pub fn evaluate(line: &str, profile: &Vec<ColorEntry>) -> (r: Vec<RenderedOutput>)
    ensures
        views(r@) == evaluation(line@, profile@),
{
    let mut out: Vec<RenderedOutput> = Vec::new();
    let mut i: usize = 0;
    while i < profile.len()
        invariant
            i <= profile@.len(),
            views(out@) == evaluation(line@, profile@.take(i as int)),
        decreases profile@.len() - i,
    {
        let ghost before = out@;
        let entry = &profile[i];
        let ghost next = profile@.take(i + 1);
        assert(next =~= profile@.take(i as int).push(*entry));
        proof {
            lemma_active_entries_push(profile@.take(i as int), *entry);
        }
        match entry.render(line) {
            Some(o) => {
                out.push(o);
                assert(views(out@) =~= views(before).push(rendered(line@, *entry)));
                assert(evaluation(line@, next) =~= evaluation(
                    line@,
                    profile@.take(i as int),
                ).push(rendered(line@, *entry)));
            },
            None => {},
        }
        i = i + 1;
    }
    assert(profile@.take(profile@.len() as int) =~= profile@);
    out
}

/// What `trim_end` makes of `s`: `s` without its trailing whitespace.
pub uninterp spec fn trimmed_end(s: Seq<char>) -> Seq<char>;

/// Relies on `str::trim_end`: the result is `s` with trailing whitespace,
/// line terminators included, removed; it depends on `s` alone.
#[verifier::external_body]
fn trim_line_end(s: &str) -> (r: &str)
    ensures
        r@ == trimmed_end(s@),
{
    s.trim_end()
}

/// What one raw input line renders to: nothing when it is blank once its
/// trailing whitespace is removed, else the evaluation of the trimmed line.
pub open spec fn line_outputs(raw: Seq<char>, profile: Seq<ColorEntry>) -> Seq<RenderedView> {
    let line = trimmed_end(raw);
    if line.len() == 0 {
        Seq::empty()
    } else {
        evaluation(line, profile)
    }
}

/// Annotates one raw input line: trailing whitespace is removed, a line
/// left empty renders nothing and evaluates no rule, any other line is
/// evaluated under `profile`.
pub fn annotate_line(raw: &str, profile: &Vec<ColorEntry>) -> (r: Vec<RenderedOutput>)
    ensures
        views(r@) == line_outputs(raw@, profile@),
        trimmed_end(raw@).len() == 0 ==> r@.len() == 0,
{
    let line = trim_line_end(raw);
    if line.is_empty() {
        let r: Vec<RenderedOutput> = Vec::new();
        assert(views(r@) =~= Seq::empty());
        r
    } else {
        evaluate(line, profile)
    }
}

/// The output that the rule at position `i` of `profile` gives, when it is
/// not ignored: it stands after one output for each active rule before it.
proof fn lemma_output_of_entry(line: Seq<char>, profile: Seq<ColorEntry>, i: int)
    requires
        0 <= i < profile.len(),
        !profile[i].ignore,
    ensures
        active_entries(profile.take(i)).len() < evaluation(line, profile).len(),
        evaluation(line, profile)[active_entries(profile.take(i)).len() as int] == rendered(
            line,
            profile[i],
        ),
{
    let before = profile.take(i);
    let after = profile.skip(i + 1);
    assert(profile =~= before.push(profile[i]) + after);
    lemma_active_entries_add(before.push(profile[i]), after);
    lemma_active_entries_push(before, profile[i]);
    let k = active_entries(before).len() as int;
    assert(active_entries(profile)[k] == profile[i]);
}

/// Every rule that is not ignored yields exactly one output, and an ignored
/// one yields none: a profile renders a line as many times as it has active
/// rules.
pub proof fn lemma_one_output_per_active_entry(line: Seq<char>, profile: Seq<ColorEntry>)
    ensures
        evaluation(line, profile).len() == active_entries(profile).len(),
{
}

/// An ignored rule contributes no output, whether it would match or not:
/// putting it anywhere in a profile leaves the evaluation unchanged.
pub proof fn lemma_ignored_entry_renders_nothing(
    line: Seq<char>,
    before: Seq<ColorEntry>,
    e: ColorEntry,
    after: Seq<ColorEntry>,
)
    requires
        e.ignore,
    ensures
        evaluation(line, before.push(e) + after) == evaluation(line, before + after),
{
    lemma_active_entries_push(before, e);
    lemma_active_entries_add(before.push(e), after);
    lemma_active_entries_add(before, after);
}

/// A rule whose pattern does not occur in the line renders the line
/// unchanged and without style.
pub proof fn lemma_unmatched_entry_passes_line_through(
    line: Seq<char>,
    profile: Seq<ColorEntry>,
    i: int,
)
    requires
        0 <= i < profile.len(),
        !profile[i].ignore,
        !occurs_in(profile[i].trigger@, line),
    ensures
        evaluation(line, profile)[active_entries(profile.take(i)).len() as int] == (
            line,
            None::<Seq<char>>,
        ),
{
    lemma_output_of_entry(line, profile, i);
    if is_prefix_of(profile[i].trigger@, line) {
        assert(occurs_at(profile[i].trigger@, line, 0));
    }
}

/// A rule that matches renders the original line, not the substituted one,
/// styled with its color, whether or not it asks for substitution.
pub proof fn lemma_matched_entry_styles_original_line(
    line: Seq<char>,
    profile: Seq<ColorEntry>,
    i: int,
)
    requires
        0 <= i < profile.len(),
        !profile[i].ignore,
        triggered(line, profile[i]),
    ensures
        evaluation(line, profile)[active_entries(profile.take(i)).len() as int] == (
            line,
            Some(profile[i].color@),
        ),
{
    lemma_output_of_entry(line, profile, i);
}

/// The fallback profile, one rule with every field at its default, matches
/// every line: each line renders once, styled with that rule's color.
pub proof fn lemma_default_profile_matches_every_line(line: Seq<char>, profile: Seq<ColorEntry>)
    requires
        profile.len() == 1,
        is_default_entry(profile[0]),
    ensures
        triggered(line, profile[0]),
        evaluation(line, profile) == seq![(line, Some(profile[0].color@))],
{
    assert(line.subrange(0, 0) =~= profile[0].trigger@);
    assert(occurs_at(profile[0].trigger@, line, 0));
    assert(profile =~= Seq::<ColorEntry>::empty().push(profile[0]));
    lemma_active_entries_push(Seq::empty(), profile[0]);
    reveal(Seq::filter);
    assert(evaluation(line, profile) =~= seq![(line, Some(profile[0].color@))]);
}

} // verus!
