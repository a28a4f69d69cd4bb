use vstd::prelude::*;
use crate::error::{ReadStage, StationError};
use crate::pattern::{pattern_compiles, pattern_matches, Pattern};

verus! {

/// What a scan of one directory found: it is absent, it could not be
/// enumerated, or the names of its immediate entries in the order the
/// filesystem gave them.
#[derive(Debug, Clone)]
pub enum Listing {
    Missing,
    Unreadable,
    Names(Vec<String>),
}

/// `i` is the position of the first `true` in `flags`.
pub open spec fn first_hit(flags: Seq<bool>, i: int) -> bool {
    0 <= i < flags.len() && flags[i] && forall|j: int| 0 <= j < i ==> !flags[j]
}

/// For each name, whether `pattern` matches it.
pub open spec fn match_flags(pattern: Seq<char>, names: Seq<String>) -> Seq<bool> {
    names.map_values(|n: String| pattern_matches(pattern, n@))
}

/// The outcome that `select` owes for a directory `dir` whose state is
/// `listing`, scanned with `pattern`.
pub open spec fn select_spec(
    dir: Seq<char>,
    listing: Listing,
    pattern: Seq<char>,
    r: Result<String, StationError>,
) -> bool {
    match listing {
        Listing::Missing => r matches Err(StationError::NotFound { path }) && path@ == dir,
        _ if !pattern_compiles(pattern) => r matches Err(StationError::InvalidPattern { pattern: p })
            && p@ == pattern,
        Listing::Unreadable => r matches Err(StationError::NotReadable { path, stage }) && path@ == dir
            && stage == ReadStage::Scan,
        Listing::Names(names) => first_choice_spec(dir, pattern, names@, match_flags(pattern, names@), r),
    }
}

/// The outcome of picking, among `names`, the first one whose flag is set.
pub open spec fn first_choice_spec(
    dir: Seq<char>,
    pattern: Seq<char>,
    names: Seq<String>,
    flags: Seq<bool>,
    r: Result<String, StationError>,
) -> bool {
    &&& (r is Ok <==> exists|i: int| 0 <= i < flags.len() && flags[i])
    &&& r matches Ok(v) ==> exists|i: int| first_hit(flags, i) && v@ == names[i]@
    &&& r matches Err(e) ==> (e matches StationError::NoMatch { path, pattern: p } && path@ == dir
        && p@ == pattern)
}

/// Takes, among `names`, the first whose entry of `flags` is set; fails with
/// `NoMatch` naming `dir` and `pattern` when none is.
pub fn choose_first(dir: &str, pattern: &str, names: &Vec<String>, flags: &Vec<bool>) -> (r: Result<String, StationError>)
    requires
        names.len() == flags.len(),
    ensures
        first_choice_spec(dir@, pattern@, names@, flags@, r),
{
    let mut i: usize = 0;
    while i < flags.len()
        invariant
            names.len() == flags.len(),
            i <= flags.len(),
            forall|j: int| 0 <= j < i ==> !flags@[j],
        decreases flags.len() - i,
    {
        if flags[i] {
            assert(first_hit(flags@, i as int));
            return Ok(names[i].clone());
        }
        i = i + 1;
    }
    Err(StationError::NoMatch { path: dir.to_owned(), pattern: pattern.to_owned() })
}

/// Whether `pattern` matches each of `names`, in order.
fn flags_for(pattern: &Pattern, names: &Vec<String>) -> (r: Vec<bool>)
    ensures
        r@ == match_flags(pattern.view_source(), names@),
{
    let mut flags: Vec<bool> = Vec::new();
    let mut i: usize = 0;
    while i < names.len()
        invariant
            i <= names.len(),
            flags@ == match_flags(pattern.view_source(), names@.subrange(0, i as int)),
        decreases names.len() - i,
    {
        let hit = pattern.is_match(names[i].as_str());
        flags.push(hit);
        assert(names@.subrange(0, i + 1) =~= names@.subrange(0, i as int).push(names@[i as int]));
        assert(flags@ =~= match_flags(pattern.view_source(), names@.subrange(0, i + 1)));
        i = i + 1;
    }
    assert(names@.subrange(0, names.len() as int) =~= names@);
    flags
}

/// Picks the first entry of the directory `dir` whose name `pattern`
/// matches, in the order of `listing`.
///
/// A missing directory gives `NotFound` whatever the pattern; then a pattern
/// that does not compile gives `InvalidPattern`; then a directory that could
/// not be enumerated gives `NotReadable`; a listing where no name matches
/// gives `NoMatch`. When several names match, the first listed wins, so the
/// choice then rests on the order in which the filesystem lists entries.
pub fn select(dir: &str, listing: &Listing, pattern: &str) -> (r: Result<String, StationError>)
    ensures
        select_spec(dir@, *listing, pattern@, r),
{
    if let Listing::Missing = listing {
        return Err(StationError::NotFound { path: dir.to_owned() });
    }
    let compiled = match Pattern::new(pattern) {
        Some(p) => p,
        None => {
            return Err(StationError::InvalidPattern { pattern: pattern.to_owned() });
        },
    };
    match listing {
        Listing::Names(names) => {
            let flags = flags_for(&compiled, names);
            choose_first(dir, pattern, names, &flags)
        },
        _ => Err(StationError::NotReadable { path: dir.to_owned(), stage: ReadStage::Scan }),
    }
}

} // verus!
