//! Rules ("color entries"), their match policy and what one rule renders.
use vstd::prelude::*;
use crate::text::{chars_of, is_prefix_of, occurs_in, occurs_in_chars, same_chars, starts_with_chars};

verus! {

/// Where in a line a rule's pattern has to stand.
#[derive(Clone, Copy, Debug, PartialEq, Eq, Structural)]
pub enum Scope {
    /// The line must begin with the pattern.
    LineStart,
    /// The pattern may stand anywhere in the line.
    Anywhere,
}

/// The scope names that select `Scope::LineStart`.
pub open spec fn names_line_start(name: Seq<char>) -> bool {
    name == "start of line"@ || name == "sol"@
}

impl Scope {
    /// The scope that a configured name selects: `"start of line"` and
    /// `"sol"` select `LineStart`; every other name, recognised or not,
    /// selects `Anywhere`.
    pub fn from_name(name: &str) -> (r: Scope)
        ensures
            r == (if names_line_start(name@) {
                Scope::LineStart
            } else {
                Scope::Anywhere
            }),
    {
        proof {
            reveal_strlit("start of line");
            reveal_strlit("sol");
        }
        let n = chars_of(name);
        if same_chars(&n, &chars_of("start of line")) || same_chars(&n, &chars_of("sol")) {
            Scope::LineStart
        } else {
            Scope::Anywhere
        }
    }
}

/// One pattern-action binding of a profile.
#[derive(Debug)]
pub struct ColorEntry {
    /// Terminal style code applied to a matching line; passed through as is.
    pub color: String,
    /// The literal pattern searched for.
    pub trigger: String,
    /// Where the pattern has to stand.
    pub scope: Scope,
    /// Whether a substituted line is computed on a match.
    pub replace: bool,
    /// The text that replaces each occurrence of the pattern.
    pub replace_with: String,
    /// An ignored rule is never evaluated and renders nothing.
    pub ignore: bool,
}

/// What one rendered line is: its text and its style, if any.
pub type RenderedView = (Seq<char>, Option<Seq<char>>);

/// One line handed to the output: the text, and the style it is wrapped in
/// (`None` prints the text verbatim).
#[derive(Debug, PartialEq, Eq)]
pub struct RenderedOutput {
    pub text: String,
    pub style: Option<String>,
}

impl View for RenderedOutput {
    type V = RenderedView;

    open spec fn view(&self) -> RenderedView {
        (
            self.text@,
            match self.style {
                Some(s) => Some(s@),
                None => None,
            },
        )
    }
}

/// Whether `e`'s pattern matches `line` under `e`'s scope.
pub open spec fn triggered(line: Seq<char>, e: ColorEntry) -> bool {
    match e.scope {
        Scope::LineStart => is_prefix_of(e.trigger@, line),
        Scope::Anywhere => occurs_in(e.trigger@, line),
    }
}

/// What a rule that is not ignored renders for `line`: the line itself,
/// styled with the rule's color exactly when the rule matches.
pub open spec fn rendered(line: Seq<char>, e: ColorEntry) -> RenderedView {
    if triggered(line, e) {
        (line, Some(e.color@))
    } else {
        (line, None)
    }
}

/// A rule whose scope was selected by a configured name matches by prefix
/// when the name is `"start of line"` or `"sol"`, and by substring for every
/// other name, unknown ones included.
pub proof fn lemma_scope_name_selects_policy(name: Seq<char>, e: ColorEntry, line: Seq<char>)
    requires
        e.scope == (if names_line_start(name) {
            Scope::LineStart
        } else {
            Scope::Anywhere
        }),
    ensures
        names_line_start(name) ==> (triggered(line, e) <==> is_prefix_of(e.trigger@, line)),
        !names_line_start(name) ==> (triggered(line, e) <==> occurs_in(e.trigger@, line)),
{
}

/// All fields at their defaults: empty texts, `Anywhere`, both flags off.
pub open spec fn is_default_entry(e: ColorEntry) -> bool {
    &&& e.color@ == Seq::<char>::empty()
    &&& e.trigger@ == Seq::<char>::empty()
    &&& e.scope == Scope::Anywhere
    &&& !e.replace
    &&& e.replace_with@ == Seq::<char>::empty()
    &&& !e.ignore
}

/// The text that `str::replace` makes of `s` when it puts `to` in place of
/// each occurrence of `from`.
pub uninterp spec fn replaced(s: Seq<char>, from: Seq<char>, to: Seq<char>) -> Seq<char>;

/// Relies on `str::replace`: it puts `to` in place of every match of `from`,
/// and its result depends on the three texts alone.
#[verifier::external_body]
fn replace_all(s: &str, from: &str, to: &str) -> (r: String)
    ensures
        r@ == replaced(s@, from@, to@),
{
    s.replace(from, to)
}

impl Default for ColorEntry {
    fn default() -> (r: ColorEntry)
        ensures
            is_default_entry(r),
    {
        ColorEntry {
            color: String::new(),
            trigger: String::new(),
            scope: Scope::Anywhere,
            replace: false,
            replace_with: String::new(),
            ignore: false,
        }
    }
}

impl ColorEntry {
    /// A field-by-field copy.
    pub fn duplicate(&self) -> (r: ColorEntry)
        ensures
            r == *self,
    {
        ColorEntry {
            color: self.color.clone(),
            trigger: self.trigger.clone(),
            scope: self.scope,
            replace: self.replace,
            replace_with: self.replace_with.clone(),
            ignore: self.ignore,
        }
    }

    /// Whether the pattern matches `line`: as a prefix for `LineStart`, as a
    /// substring for `Anywhere`; exact and case-sensitive.
    pub fn is_triggered(&self, line: &str) -> (r: bool)
        ensures
            r == triggered(line@, *self),
            self.scope == Scope::LineStart ==> (r <==> is_prefix_of(self.trigger@, line@)),
            self.scope == Scope::Anywhere ==> (r <==> occurs_in(self.trigger@, line@)),
    {
        let l = chars_of(line);
        let p = chars_of(self.trigger.as_str());
        match self.scope {
            Scope::LineStart => starts_with_chars(&p, &l),
            Scope::Anywhere => occurs_in_chars(&p, &l),
        }
    }

    /// The substituted line: computed only for a matching rule that asks
    /// for replacement, with every occurrence of the pattern replaced.
    pub fn substituted(&self, line: &str) -> (r: Option<String>)
        ensures
            triggered(line@, *self) && self.replace ==> r is Some && r->0@ == replaced(
                line@,
                self.trigger@,
                self.replace_with@,
            ),
            !(triggered(line@, *self) && self.replace) ==> r is None,
    {
        if self.replace && self.is_triggered(line) {
            Some(replace_all(line, self.trigger.as_str(), self.replace_with.as_str()))
        } else {
            None
        }
    }
}

} // verus!
