//! A local registry of datasets: each dataset is a named configuration
//! document whose `data` table maps datatype names to filesystem paths.
use vstd::prelude::*;

pub mod codec;
pub mod document;
pub mod json;
pub mod keyed;
pub mod laws;
pub mod registry;
pub mod string_map;
pub mod templates;

pub use document::Document;
pub use registry::{create_answer, ds_exists, Registry, RegistryError};
pub use string_map::StringMap;
pub use templates::TemplateStore;

verus! {

/// The kinds of failure a registry operation reports.
#[derive(Clone, Copy, Debug, PartialEq, Eq, Structural)]
pub enum ErrorKind {
    NotFound,
    AlreadyExists,
    IoFailure,
}

} // verus!
