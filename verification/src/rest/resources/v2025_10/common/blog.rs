//! Blog-related types for blog resources.
use vstd::prelude::*;


verus! {

/// The comment moderation setting for a blog.
///
/// Controls whether comments are allowed on blog articles
/// and how they are moderated.
#[derive(Debug, Clone, Copy, PartialEq, Eq, Hash, Default)]
pub enum BlogCommentable {
    /// Comments are not allowed.
    #[default]
    No,
    /// Comments require moderation before appearing.
    Moderate,
    /// Comments are allowed without moderation.
    Yes,
}

} // verus!
