use vstd::prelude::*;
use crate::catalog::{list_items, CatalogItem, NodeInfo, items_for};
use crate::config::{category_path, join, joined, StationConfig};
use crate::error::{class_of, ErrorClass, StationError};
use crate::select::{select, select_spec, Listing};
use crate::version::{extract, extract_spec};

verus! {

/// A kind of downloadable build, each kept in its own directory under the
/// disk root and recognised there by its own file-name pattern.
#[derive(Debug, Clone, Copy, PartialEq, Eq, Structural)]
pub enum Family {
    /// The installer image.
    Iso,
    /// The preview boot image.
    Alpha,
    /// The bundled hub archive.
    Hub,
}

pub open spec fn family_subdir(f: Family) -> Seq<char> {
    match f {
        Family::Iso => "Socket"@,
        Family::Alpha => "Socket/Alpha"@,
        Family::Hub => "Socket/Hub"@,
    }
}

pub open spec fn family_pattern(f: Family) -> Seq<char> {
    match f {
        Family::Iso => "^Edgeless.*iso$"@,
        Family::Alpha => "^Edgeless.*wim$"@,
        Family::Hub => "^Edgeless Hub.*7z$"@,
    }
}

/// Every family keeps its version in the third field of the file name.
pub open spec fn family_version_index(f: Family) -> usize {
    2
}

/// The directory that holds a family's builds.
pub open spec fn family_dir(c: StationConfig, f: Family) -> Seq<char> {
    joined(c.disk_root@, family_subdir(f))
}

/// The download URL of the file `name` of a family.
pub open spec fn family_url(c: StationConfig, f: Family, name: Seq<char>) -> Seq<char> {
    joined(joined(c.public_url@, family_subdir(f)), name)
}

/// The outcome that `resolve_version` owes: the selection from `listing`,
/// then the family's version field of the selected name; a failed selection
/// is passed on as it is.
pub open spec fn version_outcome(c: StationConfig, f: Family, listing: Listing, r: Result<String, StationError>) -> bool {
    exists|s: Result<String, StationError>| #[trigger] select_spec(family_dir(c, f), listing, family_pattern(f), s)
        && match s {
            Ok(name) => extract_spec(name@, family_version_index(f), r),
            Err(e) => r == Err::<String, StationError>(e),
        }
}

/// The outcome that `resolve_address` owes: the selection from `listing`,
/// joined to the family's public URL; a failed selection is passed on as it
/// is.
pub open spec fn address_outcome(c: StationConfig, f: Family, listing: Listing, r: Result<String, StationError>) -> bool {
    exists|s: Result<String, StationError>| #[trigger] select_spec(family_dir(c, f), listing, family_pattern(f), s)
        && match s {
            Ok(name) => r matches Ok(url) && url@ == family_url(c, f, name@),
            Err(e) => r == Err::<String, StationError>(e),
        }
}

impl Family {
    /// The family's directory, relative to the disk root and to the public URL.
    pub fn subdir(self) -> (r: &'static str)
        ensures
            r@ == family_subdir(self),
    {
        match self {
            Family::Iso => "Socket",
            Family::Alpha => "Socket/Alpha",
            Family::Hub => "Socket/Hub",
        }
    }

    /// The pattern that picks the family's build out of its directory.
    pub fn pattern(self) -> (r: &'static str)
        ensures
            r@ == family_pattern(self),
    {
        match self {
            Family::Iso => "^Edgeless.*iso$",
            Family::Alpha => "^Edgeless.*wim$",
            Family::Hub => "^Edgeless Hub.*7z$",
        }
    }

    /// The position of the version among the fields of a build's file name.
    pub fn version_index(self) -> (r: usize)
        ensures
            r == family_version_index(self),
    {
        2
    }

    /// The directory under `config`'s disk root that holds this family.
    pub fn dir(self, config: &StationConfig) -> (r: String)
        ensures
            r@ == family_dir(*config, self),
    {
        join(config.disk_root.as_str(), self.subdir())
    }
}

/// The version of a family's current build: the build is selected from
/// `listing` (the scan of `family_dir`), and its version field extracted.
/// A failure of either step is returned as it is.
pub fn resolve_version(config: &StationConfig, family: Family, listing: &Listing) -> (r: Result<String, StationError>)
    ensures
        version_outcome(*config, family, *listing, r),
{
    let dir = family.dir(config);
    let selected = select(dir.as_str(), listing, family.pattern());
    match selected {
        Ok(name) => {
            let r = extract(name.as_str(), family.version_index());
            assert(select_spec(family_dir(*config, family), *listing, family_pattern(family), Ok::<String, StationError>(name)));
            r
        },
        Err(e) => {
            assert(select_spec(family_dir(*config, family), *listing, family_pattern(family), Err::<String, StationError>(e)));
            Err(e)
        },
    }
}

/// The download URL of a family's current build: the build selected from
/// `listing`, joined to the public URL of the family's directory. A failure
/// of the selection is returned as it is.
pub fn resolve_address(config: &StationConfig, family: Family, listing: &Listing) -> (r: Result<String, StationError>)
    ensures
        address_outcome(*config, family, *listing, r),
{
    let dir = family.dir(config);
    let selected = select(dir.as_str(), listing, family.pattern());
    match selected {
        Ok(name) => {
            let base = join(config.public_url.as_str(), family.subdir());
            let url = join(base.as_str(), name.as_str());
            assert(select_spec(family_dir(*config, family), *listing, family_pattern(family), Ok::<String, StationError>(name)));
            Ok(url)
        },
        Err(e) => {
            assert(select_spec(family_dir(*config, family), *listing, family_pattern(family), Err::<String, StationError>(e)));
            Err(e)
        },
    }
}

/// The packages of `category`, for a request from a client. A category that
/// is not a directory of the catalog (`category_exists` false) is the
/// client's error, `UnknownCategory`; otherwise this is `list_items`, whose
/// failures are the server's.
pub fn plugin_list(config: &StationConfig, category: &str, category_exists: bool, entries: Option<Vec<NodeInfo>>) -> (r: Result<
    Vec<CatalogItem>,
    StationError,
>)
    ensures
        !category_exists ==> (r matches Err(e) && e matches StationError::UnknownCategory { name }
            && name@ == category@ && class_of(e) == ErrorClass::BadRequest),
        category_exists ==> (r is Ok <==> (entries matches Some(v) && forall|k: int| 0 <= k < v.len() ==> (#[trigger] v@[k]).size is Some)),
        category_exists && r is Err ==> (r matches Err(e) && e matches StationError::NotReadable { path, .. }
            && path@ == category_path(*config, category@) && class_of(e) == ErrorClass::Internal),
        r matches Ok(items) ==> items_for(*config, category@, entries->Some_0@, items@),
{
    if !category_exists {
        return Err(StationError::UnknownCategory { name: category.to_owned() });
    }
    list_items(config, category, entries)
}

} // verus!
