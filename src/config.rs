//! Named profiles and the choice of one of them by name.
use vstd::prelude::*;
use crate::rule::{ColorEntry, is_default_entry};
use crate::text::{chars_of, same_chars};

verus! {

/// A profile under its name: an ordered list of rules.
#[derive(Debug)]
pub struct NamedProfile {
    pub name: String,
    pub entries: Vec<ColorEntry>,
}

/// The loaded configuration: a version tag and the named profiles.
#[derive(Debug)]
pub struct Config {
    pub version: String,
    pub profiles: Vec<NamedProfile>,
}

impl Default for Config {
    fn default() -> (r: Config)
        ensures
            r.version@ == Seq::<char>::empty(),
            r.profiles@.len() == 0,
    {
        Config { version: String::new(), profiles: Vec::new() }
    }
}

/// `i` is the first position in `profiles` of a profile called `name`.
pub open spec fn first_named(profiles: Seq<NamedProfile>, name: Seq<char>, i: int) -> bool {
    &&& 0 <= i < profiles.len()
    &&& profiles[i].name@ == name
    &&& forall|j: int| 0 <= j < i ==> profiles[j].name@ != name
}

/// No profile in `profiles` is called `name`.
pub open spec fn lacks_name(profiles: Seq<NamedProfile>, name: Seq<char>) -> bool {
    forall|i: int| 0 <= i < profiles.len() ==> profiles[i].name@ != name
}

/// A copy of the rules of a profile, in order.
fn copy_entries(v: &Vec<ColorEntry>) -> (r: Vec<ColorEntry>)
    ensures
        r@ == v@,
{
    let mut r: Vec<ColorEntry> = Vec::new();
    let mut i: usize = 0;
    while i < v.len()
        invariant
            i <= v@.len(),
            r@ == v@.take(i as int),
        decreases v@.len() - i,
    {
        r.push(v[i].duplicate());
        assert(r@ =~= v@.take(i + 1));
        i = i + 1;
    }
    assert(v@.take(v@.len() as int) =~= v@);
    r
}

/// The rules of the profile called `name`; where there is none, the one-rule
/// profile whose rule has every field at its default (which matches every
/// line).
pub fn get_profile(conf: &Config, name: &str) -> (r: Vec<ColorEntry>)
    ensures
        forall|i: int|
            first_named(conf.profiles@, name@, i) ==> r@ == conf.profiles@[i].entries@,
        lacks_name(conf.profiles@, name@) ==> r@.len() == 1 && is_default_entry(r@[0]),
{
    let wanted = chars_of(name);
    let mut i: usize = 0;
    while i < conf.profiles.len()
        invariant
            i <= conf.profiles@.len(),
            wanted@ == name@,
            forall|j: int| 0 <= j < i ==> conf.profiles@[j].name@ != name@,
        decreases conf.profiles@.len() - i,
    {
        let p = &conf.profiles[i];
        if same_chars(&chars_of(p.name.as_str()), &wanted) {
            return copy_entries(&p.entries);
        }
        i = i + 1;
    }
    let mut fallback: Vec<ColorEntry> = Vec::new();
    fallback.push(ColorEntry::default());
    fallback
}

} // verus!
