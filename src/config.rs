use vstd::prelude::*;

verus! {

/// `a`, a `/`, then `b`.
pub open spec fn joined(a: Seq<char>, b: Seq<char>) -> Seq<char> {
    a + seq!['/'] + b
}

/// Joins two pieces of a path or URL with a `/`.
pub fn join(a: &str, b: &str) -> (r: String)
    ensures
        r@ == joined(a@, b@),
{
    proof {
        reveal_strlit("/");
    }
    a.to_owned().concat("/").concat(b)
}

/// The fixed settings the station runs with, built once at start-up and
/// handed to every operation.
#[derive(Debug, Clone)]
pub struct StationConfig {
    /// Directory that holds the artifact trees and the plugin catalog.
    pub disk_root: String,
    /// Public URL under which `disk_root` is served for download.
    pub public_url: String,
    /// Name of the catalog directory below `disk_root`.
    pub catalog_dir: String,
    /// The token that guarded requests must present.
    pub token: String,
}

/// Directory whose subdirectories are the plugin categories.
pub open spec fn catalog_root(c: StationConfig) -> Seq<char> {
    joined(c.disk_root@, c.catalog_dir@)
}

/// Directory of one plugin category.
pub open spec fn category_path(c: StationConfig, category: Seq<char>) -> Seq<char> {
    joined(catalog_root(c), category)
}

/// Download URL of the file `name` inside a category.
pub open spec fn package_url(c: StationConfig, category: Seq<char>, name: Seq<char>) -> Seq<char> {
    joined(joined(joined(c.public_url@, c.catalog_dir@), category), name)
}

impl StationConfig {
    pub fn catalog_root(&self) -> (r: String)
        ensures
            r@ == catalog_root(*self),
    {
        join(self.disk_root.as_str(), self.catalog_dir.as_str())
    }

    pub fn category_path(&self, category: &str) -> (r: String)
        ensures
            r@ == category_path(*self, category@),
    {
        let root = self.catalog_root();
        join(root.as_str(), category)
    }

    /// Whether `token` is the one this station expects.
    pub fn token_accepted(&self, token: &str) -> (r: bool)
        ensures
            r == (token@ == self.token@),
    {
        let given = token.to_owned();
        self.token == given
    }
}

} // verus!
