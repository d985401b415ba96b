//! Theme-related types for theme resources.
use vstd::prelude::*;


verus! {

/// The role of a theme in the store.
///
/// Each store has one main (published) theme and can have multiple
/// unpublished themes for development or preview.
#[derive(Debug, Clone, Copy, PartialEq, Eq, Hash, Default)]
pub enum ThemeRole {
    /// The main (published) theme visible to customers.
    Main,
    /// An unpublished theme.
    #[default]
    Unpublished,
    /// A demo theme from the theme store.
    Demo,
    /// A development theme for theme development.
    Development,
}

} // verus!
