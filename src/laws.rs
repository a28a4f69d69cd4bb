use vstd::prelude::*;
use crate::artifact::{address_outcome, family_dir, family_pattern, family_url, family_version_index, version_outcome, Family};
use crate::config::StationConfig;
use crate::catalog::{dir_names, is_package_name, package_entries, NodeInfo};
use crate::error::StationError;
use crate::pattern::{pattern_compiles, pattern_matches};
use crate::select::{match_flags, select_spec, first_hit, Listing};
use crate::text::{last_pos, lemma_split_on_concat, lemma_split_on_free, split_on};
use crate::config::joined;
use crate::version::{extract_spec, segments};

verus! {

/// A name that `select` returns is one of the listed entries, and the
/// pattern matches it; when no listed name matches, the result is `NoMatch`.
pub proof fn selected_name_is_listed_and_matches(
    dir: Seq<char>,
    listing: Listing,
    pattern: Seq<char>,
    r: Result<String, StationError>,
)
    requires
        select_spec(dir, listing, pattern, r),
    ensures
        r matches Ok(v) ==> (listing matches Listing::Names(names) && exists|i: int|
            0 <= i < names.len() && #[trigger] names@[i]@ == v@ && pattern_matches(pattern, v@)),
        (listing matches Listing::Names(names) && pattern_compiles(pattern) && forall|i: int|
            0 <= i < names.len() ==> !pattern_matches(pattern, #[trigger] names@[i]@))
            ==> r matches Err(StationError::NoMatch { .. }),
{
    if let Ok(v) = r {
        if let Listing::Names(names) = listing {
            let flags = match_flags(pattern, names@);
            let i = choose|i: int| first_hit(flags, i) && v@ == names@[i]@;
            assert(flags[i] == pattern_matches(pattern, names@[i]@));
        }
    }
    if let Listing::Names(names) = listing {
        if forall|i: int| 0 <= i < names.len() ==> !pattern_matches(pattern, #[trigger] names@[i]@) {
            let flags = match_flags(pattern, names@);
            assert forall|i: int| 0 <= i < flags.len() implies !flags[i] by {
                assert(!pattern_matches(pattern, names@[i]@));
            }
        }
    }
}

/// On a directory that does not exist, `select` fails with `NotFound`, not
/// `NoMatch`, whatever the pattern.
pub proof fn select_on_missing_directory(dir: Seq<char>, pattern: Seq<char>, r: Result<String, StationError>)
    requires
        select_spec(dir, Listing::Missing, pattern, r),
    ensures
        r matches Err(StationError::NotFound { path }) && path@ == dir,
{
}

/// Where a family's pattern compiles and matches exactly one listed name,
/// the version lookup is the family's version field of that name and the
/// address lookup is that name under the family's public URL.
pub proof fn sole_match_resolves(
    c: StationConfig,
    f: Family,
    names: Vec<String>,
    k: int,
    version: Result<String, StationError>,
    address: Result<String, StationError>,
)
    requires
        pattern_compiles(family_pattern(f)),
        0 <= k < names.len(),
        pattern_matches(family_pattern(f), names@[k]@),
        forall|j: int| 0 <= j < names.len() && j != k ==> !pattern_matches(family_pattern(f), #[trigger] names@[j]@),
        version_outcome(c, f, Listing::Names(names), version),
        address_outcome(c, f, Listing::Names(names), address),
    ensures
        extract_spec(names@[k]@, family_version_index(f), version),
        address matches Ok(url) && url@ == family_url(c, f, names@[k]@),
{
    let p = family_pattern(f);
    let flags = match_flags(p, names@);
    assert(flags[k]);
    assert forall|j: int| first_hit(flags, j) implies j == k by {
        if j != k {
            assert(!pattern_matches(p, names@[j]@));
        }
    }
    let sv = choose|s: Result<String, StationError>| #[trigger] select_spec(family_dir(c, f), Listing::Names(names), p, s)
        && match s {
            Ok(name) => extract_spec(name@, family_version_index(f), version),
            Err(e) => version == Err::<String, StationError>(e),
        };
    let sa = choose|s: Result<String, StationError>| #[trigger] select_spec(family_dir(c, f), Listing::Names(names), p, s)
        && match s {
            Ok(name) => address matches Ok(url) && url@ == family_url(c, f, name@),
            Err(e) => address == Err::<String, StationError>(e),
        };
    assert(sv is Ok);
    assert(sa is Ok);
}

/// The installer image `Edgeless_Test_1.0.0.iso`, alone in its directory and
/// matched by the installer pattern (which compiles), resolves to version
/// `1.0.0` and to that name under the public `Socket` URL.
pub proof fn single_installer_image_resolves(
    c: StationConfig,
    names: Vec<String>,
    version: Result<String, StationError>,
    address: Result<String, StationError>,
)
    requires
        pattern_compiles(family_pattern(Family::Iso)),
        pattern_matches(family_pattern(Family::Iso), "Edgeless_Test_1.0.0.iso"@),
        names.len() == 1,
        names@[0]@ == "Edgeless_Test_1.0.0.iso"@,
        version_outcome(c, Family::Iso, Listing::Names(names), version),
        address_outcome(c, Family::Iso, Listing::Names(names), address),
    ensures
        version matches Ok(v) && v@ == "1.0.0"@,
        address matches Ok(u) && u@ == joined(joined(c.public_url@, "Socket"@), "Edgeless_Test_1.0.0.iso"@),
{
    sole_match_resolves(c, Family::Iso, names, 0, version, address);
    reveal_strlit("Edgeless_Test_1.0.0.iso");
    reveal_strlit("Edgeless");
    reveal_strlit("Test");
    reveal_strlit("1.0.0");
    reveal_strlit("iso");
    let a = "Edgeless"@;
    let b = "Test"@;
    let v = "1.0.0"@;
    let e = "iso"@;
    let front = a + seq!['_'] + b;
    let base = front + seq!['_'] + v;
    let name = "Edgeless_Test_1.0.0.iso"@;
    assert(name =~= base + seq!['.'] + e);
    lemma_last_pos_append_free(base + seq!['.'], e, '.');
    assert(last_pos(base + seq!['.'], '.') == base.len()) by {
        assert((base + seq!['.']).last() == '.');
    }
    assert(name.subrange(0, base.len() as int) =~= base);
    lemma_split_on_free(a, '_');
    lemma_split_on_free(b, '_');
    lemma_split_on_free(v, '_');
    lemma_split_on_concat(a, b, '_');
    lemma_split_on_concat(front, v, '_');
    assert(split_on(base, '_') =~= seq![a, b, v]);
    assert(segments(name)[2] == v);
}

proof fn lemma_last_pos_append_free(a: Seq<char>, t: Seq<char>, c: char)
    requires
        forall|j: int| 0 <= j < t.len() ==> t[j] != c,
    ensures
        last_pos(a + t, c) == last_pos(a, c),
    decreases t.len(),
{
    if t.len() > 0 {
        assert((a + t).drop_last() =~= a + t.drop_last());
        lemma_last_pos_append_free(a, t.drop_last(), c);
    } else {
        assert(a + t =~= a);
    }
}

/// Giving an extensionless name an extension moves none of its fields: the
/// name `base` and the name `base.ext` have the same field at every
/// position before the extension slot.
pub proof fn extension_keeps_fields(base: Seq<char>, ext: Seq<char>, i: int)
    requires
        forall|j: int| 0 <= j < base.len() ==> base[j] != '.',
        forall|j: int| 0 <= j < ext.len() ==> ext[j] != '.',
        0 <= i < split_on(base, '_').len(),
    ensures
        segments(base + seq!['.'] + ext)[i] == segments(base)[i],
        segments(base + seq!['.'] + ext).len() == segments(base).len(),
{
    let name = base + seq!['.'] + ext;
    lemma_last_pos_append_free(Seq::empty(), base, '.');
    assert(Seq::<char>::empty() + base =~= base);
    assert(last_pos(base, '.') == last_pos(Seq::<char>::empty(), '.'));
    lemma_last_pos_append_free(base + seq!['.'], ext, '.');
    assert(last_pos(base + seq!['.'], '.') == base.len()) by {
        assert((base + seq!['.']).last() == '.');
    }
    assert(name.subrange(0, base.len() as int) =~= base);
}

/// The plugin categories are directories: every name in `dir_names` is the
/// name of an entry that is a directory.
pub proof fn categories_are_directories(entries: Seq<NodeInfo>)
    ensures
        forall|k: int| 0 <= k < dir_names(entries).len() ==> exists|j: int|
            0 <= j < entries.len() && (#[trigger] entries[j]).is_dir && entries[j].name@ == #[trigger] dir_names(entries)[k],
    decreases entries.len(),
{
    if entries.len() > 0 {
        let pre = entries.drop_last();
        categories_are_directories(pre);
        assert forall|k: int| 0 <= k < dir_names(entries).len() implies exists|j: int|
            0 <= j < entries.len() && (#[trigger] entries[j]).is_dir && entries[j].name@ == #[trigger] dir_names(entries)[k] by {
            if k < dir_names(pre).len() {
                assert(dir_names(entries)[k] == dir_names(pre)[k]);
                let j = choose|j: int| 0 <= j < pre.len() && (#[trigger] pre[j]).is_dir && pre[j].name@ == #[trigger] dir_names(pre)[k];
                assert(entries[j] == pre[j]);
            } else {
                let j = entries.len() - 1;
                assert(entries[j].is_dir && entries[j].name@ == dir_names(entries)[k]);
            }
        }
    }
}

/// A category without package files has no items: when no entry's name
/// holds the package marker, the package entries are empty.
pub proof fn no_package_files_no_items(entries: Seq<NodeInfo>)
    requires
        forall|k: int| 0 <= k < entries.len() ==> !is_package_name(#[trigger] entries[k].name@),
    ensures
        package_entries(entries).len() == 0,
    decreases entries.len(),
{
    if entries.len() > 0 {
        let pre = entries.drop_last();
        assert forall|k: int| 0 <= k < pre.len() implies !is_package_name(#[trigger] pre[k].name@) by {
            assert(pre[k] == entries[k]);
        }
        no_package_files_no_items(pre);
        assert(!is_package_name(entries[entries.len() - 1].name@));
    }
}

} // verus!
