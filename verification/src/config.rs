//! Configuration consulted by every operation when it resolves the
//! batch resource path.

use vstd::prelude::*;

verus! {

/// Supplies an optional override for the base path of the batch resource.
///
/// When `path_override` is `None`, operations use the default `/batches`
/// base path. The override is read anew on every call (never cached), so a
/// change between two calls takes effect immediately.
#[derive(Debug, Clone, PartialEq, Eq)]
pub struct BatchConfig {
    pub path_override: Option<String>,
}

impl View for BatchConfig {
    type V = Option<Seq<char>>;

    open spec fn view(&self) -> Option<Seq<char>> {
        match self.path_override {
            Some(p) => Some(p@),
            None => None,
        }
    }
}

impl BatchConfig {
    /// A configuration with no override: operations use the default path.
    pub fn new() -> (r: Self)
        ensures
            r@ == Option::<Seq<char>>::None,
    {
        BatchConfig { path_override: None }
    }

    /// A configuration that redirects the batch resource to `path`.
    pub fn with_path_override(path: String) -> (r: Self)
        ensures
            r@ == Some(path@),
    {
        BatchConfig { path_override: Some(path) }
    }

    /// The configured override, if any.
    pub fn custom_batch_url(&self) -> (r: Option<&String>)
        ensures
            match r {
                Some(p) => self@ == Some(p@),
                None => self@ == Option::<Seq<char>>::None,
            },
    {
        match &self.path_override {
            Some(p) => Some(p),
            None => None,
        }
    }
}

} // verus!
