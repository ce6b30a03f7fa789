//! Verified core of a binding to the Poppler PDF library: the checks and
//! conversions that decide what is handed to Poppler and what comes back.

pub mod ctext;
pub mod document;
pub mod error;
pub mod pages;
pub mod ffi;
pub mod text;
pub mod utf8;

pub use ctext::CText;
pub use document::{path_to_glib_url, DocumentSource, PopplerDocument};
pub use error::{FileErrorKind, PopplerError};
pub use ffi::PopplerSelectionStyle;
pub use pages::{page_count_from_c, page_index_to_c, PagesIter};
pub use text::take_c_owned_string;
