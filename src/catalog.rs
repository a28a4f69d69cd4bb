use vstd::prelude::*;
use crate::config::{category_path, catalog_root, join, joined, package_url, StationConfig};
use crate::error::{class_of, ErrorClass, ReadStage, StationError};
use crate::text::{chars_of, contains_seq};

verus! {

/// One entry of a directory as read from the filesystem: its name, whether
/// it is a directory, and its size in bytes (`None` when its metadata could
/// not be read).
#[derive(Debug, Clone)]
pub struct NodeInfo {
    pub name: String,
    pub is_dir: bool,
    pub size: Option<u64>,
}

/// One downloadable package of a category.
#[derive(Debug, Clone, PartialEq, Eq)]
pub struct CatalogItem {
    pub name: String,
    pub size: u64,
    /// Always `FILE`.
    pub node_type: String,
    pub url: String,
}

/// The names of the entries that are directories, in listing order.
pub open spec fn dir_names(entries: Seq<NodeInfo>) -> Seq<Seq<char>>
    decreases entries.len(),
{
    if entries.len() == 0 {
        Seq::empty()
    } else {
        let prev = dir_names(entries.drop_last());
        if entries.last().is_dir {
            prev.push(entries.last().name@)
        } else {
            prev
        }
    }
}

/// A package file is one whose name holds `.7z` anywhere.
pub open spec fn is_package_name(name: Seq<char>) -> bool {
    contains_seq(name, package_marker())
}

pub open spec fn package_marker() -> Seq<char> {
    seq!['.', '7', 'z']
}

/// The entries that are package files, in listing order.
pub open spec fn package_entries(entries: Seq<NodeInfo>) -> Seq<NodeInfo>
    decreases entries.len(),
{
    if entries.len() == 0 {
        Seq::empty()
    } else {
        let prev = package_entries(entries.drop_last());
        if is_package_name(entries.last().name@) {
            prev.push(entries.last())
        } else {
            prev
        }
    }
}

/// `item` describes the package `entry` of `category`.
pub open spec fn item_for(c: StationConfig, category: Seq<char>, entry: NodeInfo, item: CatalogItem) -> bool {
    &&& item.name@ == entry.name@
    &&& entry.size == Some(item.size)
    &&& item.node_type@ == seq!['F', 'I', 'L', 'E']
    &&& item.url@ == package_url(c, category, entry.name@)
}

/// `items` describes, one for one and in order, the package files among `entries`.
pub open spec fn items_for(c: StationConfig, category: Seq<char>, entries: Seq<NodeInfo>, items: Seq<CatalogItem>) -> bool {
    let pk = package_entries(entries);
    &&& items.len() == pk.len()
    &&& forall|k: int| 0 <= k < items.len() ==> item_for(c, category, pk[k], #[trigger] items[k])
}

/// Whether `name` holds `.7z` anywhere.
pub fn is_package_file(name: &str) -> (r: bool)
    ensures
        r == is_package_name(name@),
{
    let cs = chars_of(name);
    let ghost marker = package_marker();
    if cs.len() < 3 {
        return false;
    }
    let mut i: usize = 0;
    while i < cs.len() - 2
        invariant
            cs@ == name@,
            marker == package_marker(),
            cs.len() >= 3,
            i <= cs.len() - 2,
            forall|j: int| 0 <= j < i ==> #[trigger] name@.subrange(j, j + 3) != marker,
        decreases cs.len() - i,
    {
        if cs[i] == '.' && cs[i + 1] == '7' && cs[i + 2] == 'z' {
            let ghost sub = name@.subrange(i as int, i + 3);
            assert(sub[0] == '.' && sub[1] == '7' && sub[2] == 'z');
            assert(sub =~= marker);
            assert(0 <= i && i + marker.len() <= name@.len() && name@.subrange(i as int, i + marker.len()) == marker);
            return true;
        }
        assert(name@.subrange(i as int, i + 3) != marker) by {
            let sub = name@.subrange(i as int, i + 3);
            assert(sub[0] == cs@[i as int] && sub[1] == cs@[i + 1] && sub[2] == cs@[i + 2]);
        }
        i = i + 1;
    }
    assert forall|j: int| 0 <= j && j + marker.len() <= name@.len() implies #[trigger] name@.subrange(j, j + marker.len()) != marker by {
        assert(j < i);
    }
    false
}

/// The plugin categories: the names of the entries of the catalog root that
/// are directories, in listing order. `entries` is `None` when the catalog
/// root could not be enumerated, which gives `NotReadable`.
pub fn list_categories(config: &StationConfig, entries: Option<Vec<NodeInfo>>) -> (r: Result<Vec<String>, StationError>)
    ensures
        entries is None <==> r is Err,
        r matches Err(e) ==> (e matches StationError::NotReadable { path, stage } && path@ == catalog_root(*config)
            && stage == ReadStage::Catalog && class_of(e) == ErrorClass::Internal),
        r matches Ok(names) ==> names@.map_values(|n: String| n@) == dir_names(entries->Some_0@),
{
    let list = match entries {
        Some(v) => v,
        None => {
            return Err(StationError::NotReadable { path: config.catalog_root(), stage: ReadStage::Catalog });
        },
    };
    let mut names: Vec<String> = Vec::new();
    let mut i: usize = 0;
    while i < list.len()
        invariant
            i <= list.len(),
            entries == Some(list),
            names@.map_values(|n: String| n@) == dir_names(list@.subrange(0, i as int)),
        decreases list.len() - i,
    {
        let ghost prev = names@.map_values(|n: String| n@);
        assert(list@.subrange(0, i + 1).drop_last() =~= list@.subrange(0, i as int));
        if list[i].is_dir {
            names.push(list[i].name.clone());
            assert(names@.map_values(|n: String| n@) =~= prev.push(list@[i as int].name@));
        }
        i = i + 1;
    }
    assert(list@.subrange(0, list.len() as int) =~= list@);
    Ok(names)
}

/// The packages of one category. `entries` is the listing of the category
/// directory, `None` when it could not be opened. Every entry's size must be
/// known: a single unreadable one makes the whole listing fail with
/// `NotReadable`, never a partial list. A category without package files
/// gives an empty list.
pub fn list_items(config: &StationConfig, category: &str, entries: Option<Vec<NodeInfo>>) -> (r: Result<
    Vec<CatalogItem>,
    StationError,
>)
    ensures
        r is Ok <==> (entries matches Some(v) && forall|k: int| 0 <= k < v.len() ==> (#[trigger] v@[k]).size is Some),
        r matches Err(e) ==> (e matches StationError::NotReadable { path, stage } && path@ == category_path(*config, category@)
            && stage == (if entries is None { ReadStage::CategoryOpen } else { ReadStage::Metadata })),
        r matches Ok(items) ==> items_for(*config, category@, entries->Some_0@, items@),
{
    let list = match entries {
        Some(v) => v,
        None => {
            return Err(StationError::NotReadable { path: config.category_path(category), stage: ReadStage::CategoryOpen });
        },
    };
    let url_base = join(join(config.public_url.as_str(), config.catalog_dir.as_str()).as_str(), category);
    let mut items: Vec<CatalogItem> = Vec::new();
    let mut i: usize = 0;
    while i < list.len()
        invariant
            i <= list.len(),
            entries == Some(list),
            url_base@ == joined_base(*config, category@),
            forall|k: int| 0 <= k < i ==> (#[trigger] list@[k]).size is Some,
            items_for(*config, category@, list@.subrange(0, i as int), items@),
        decreases list.len() - i,
    {
        let ghost prev = items@;
        let ghost pre = list@.subrange(0, i as int);
        assert(list@.subrange(0, i + 1).drop_last() =~= pre);
        let entry = &list[i];
        let size = match entry.size {
            Some(s) => s,
            None => {
                assert(entries->Some_0@[i as int].size is None);
                return Err(StationError::NotReadable { path: config.category_path(category), stage: ReadStage::Metadata });
            },
        };
        if is_package_file(entry.name.as_str()) {
            let item = CatalogItem {
                name: entry.name.clone(),
                size,
                node_type: String::from_str("FILE"),
                url: join(url_base.as_str(), entry.name.as_str()),
            };
            proof {
                reveal_strlit("FILE");
            }
            assert(item.name@ == list@[i as int].name@);
            assert(list@[i as int].size == Some(item.size));
            assert(item.node_type@ == seq!['F', 'I', 'L', 'E']);
            assert(item.url@ == package_url(*config, category@, list@[i as int].name@));
            assert(item_for(*config, category@, list@[i as int], item));
            items.push(item);
            assert(package_entries(list@.subrange(0, i + 1)) == package_entries(pre).push(list@[i as int]));
            assert forall|k: int| 0 <= k < items@.len() implies item_for(*config, category@,
                package_entries(list@.subrange(0, i + 1))[k], #[trigger] items@[k]) by {
                if k < prev.len() {
                    assert(items@[k] == prev[k]);
                }
            }
        }
        i = i + 1;
    }
    assert(list@.subrange(0, list.len() as int) =~= list@);
    Ok(items)
}

/// The URL of a category's directory, before the file name is joined to it.
pub open spec fn joined_base(c: StationConfig, category: Seq<char>) -> Seq<char> {
    joined(joined(c.public_url@, c.catalog_dir@), category)
}

} // verus!
