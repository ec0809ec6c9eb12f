//! Resource-path resolution and identifier interpolation.
//!
//! Every operation resolves its base path independently from the current
//! configuration: an override wins, otherwise the default `/batches` is
//! used. Item paths interpolate the batch identifier verbatim.

use vstd::prelude::*;
use vstd::string::*;
use crate::config::BatchConfig;

verus! {

/// The default base path of the batch resource.
pub open spec fn default_base_path() -> Seq<char> {
    "/batches"@
}

/// Override-first resolution: a configured override is used as given,
/// otherwise the default base path.
pub open spec fn resolved_base(ov: Option<Seq<char>>) -> Seq<char> {
    match ov {
        Some(p) => p,
        None => default_base_path(),
    }
}

/// The path of a single batch: the base, a slash, then the identifier
/// verbatim.
pub open spec fn item_path(base: Seq<char>, id: Seq<char>) -> Seq<char> {
    base + "/"@ + id
}

/// The suffix appended to an item path to request cancellation.
pub open spec fn cancel_suffix() -> Seq<char> {
    "/cancel"@
}

/// The cancellation path of a single batch.
pub open spec fn cancel_item_path(base: Seq<char>, id: Seq<char>) -> Seq<char> {
    item_path(base, id) + cancel_suffix()
}

/// Resolves the base path from the configuration as it stands now.
pub fn resolve_base_path(config: &BatchConfig) -> (r: String)
    ensures
        r@ == resolved_base(config@),
{
    match &config.path_override {
        Some(p) => p.clone(),
        None => String::from_str("/batches"),
    }
}

/// Builds `{base}/{id}`.
pub fn join_item_path(base: &str, id: &str) -> (r: String)
    ensures
        r@ == item_path(base@, id@),
{
    let mut r = base.to_owned();
    r.append("/");
    r.append(id);
    r
}

/// Builds `{base}/{id}/cancel`.
pub fn join_cancel_path(base: &str, id: &str) -> (r: String)
    ensures
        r@ == cancel_item_path(base@, id@),
{
    let mut r = join_item_path(base, id);
    r.append("/cancel");
    r
}

} // verus!
