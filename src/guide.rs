use vstd::prelude::*;

verus! {

/// One document of the catalog. The catalog is static, so its text lives
/// for the whole program and a guide is a small copyable value.
#[derive(Clone, Copy, Debug, PartialEq, Eq)]
pub struct Guide {
    /// URL-safe identifier, unique within the catalog.
    pub slug: &'static str,
    /// Title shown in menus and in the document title.
    pub menu_title: &'static str,
    /// Searchable body, already in lower case.
    pub lowercase_text: &'static str,
}

} // verus!
