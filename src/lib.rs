//! Extra file formats for a layered configuration loader.
//!
//! Each format decodes its text into a [`Val`], which [`from_value`] turns
//! into the canonical tree [`Node`]; [`extract_root_table`] then insists that
//! the document's root is a mapping.

pub mod dispatch;
pub mod formats;
pub mod root;
pub mod value;

pub use dispatch::{by_file_extension, format_for_extension, FormatError, FormatWrapper, NativeFormat};
pub use formats::{parse_decoded, Ason, Hcl, Hjson, ParseError, Properties, YamlNg};
pub use root::{extract_root_table, string_root_message, Unexpected};
pub use value::{from_value, Node, NodeKind, Val};
