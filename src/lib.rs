//! Artifact resolution for a download station: pick a build file out of a
//! directory listing by pattern (the first listed name that matches), read
//! its version out of the file name, and build the plugin catalog from
//! directory listings.
//!
//! Every filesystem read happens outside this crate; the functions here take
//! what was read as plain values and decide.

pub mod artifact;
pub mod catalog;
pub mod config;
pub mod error;
pub mod laws;
pub mod pattern;
pub mod reply;
pub mod select;
pub mod text;
pub mod version;

pub use artifact::{plugin_list, resolve_address, resolve_version, Family};
pub use catalog::{is_package_file, list_categories, list_items, CatalogItem, NodeInfo};
pub use config::{join, StationConfig};
pub use error::{ErrorClass, ReadStage, StationError};
pub use laws::{categories_are_directories, single_installer_image_resolves, sole_match_resolves, extension_keeps_fields, no_package_files_no_items, select_on_missing_directory, selected_name_is_listed_and_matches};
pub use pattern::Pattern;
pub use reply::{decimal_string, parse_alpha_quest, parse_info_quest, ventoy_plugin_url, Quest};
pub use select::{choose_first, select, Listing};
pub use text::chars_of;
pub use version::extract;
