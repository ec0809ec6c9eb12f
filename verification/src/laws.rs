//! Laws of the routing discipline, stated over the same spec functions the
//! operations' contracts use.

use vstd::prelude::*;
use crate::json::empty_json_object;
use crate::paths::{cancel_item_path, cancel_suffix, default_base_path, item_path, resolved_base};
use crate::query::{query_text, url_with_query};

verus! {

/// Path resolution is override-first: whenever the configuration provides an
/// override, every operation routes under it — `create` and `list` to the
/// override itself, `retrieve` and `cancel` to paths that begin with it —
/// and without an override every operation routes under the default
/// `/batches`. Each operation's contract applies `resolved_base` to the
/// configuration as it stands at that call, so a change between calls takes
/// effect immediately: nothing is cached.
pub proof fn lemma_override_first(ov: Seq<char>, id: Seq<char>)
    ensures
        resolved_base(Some(ov)) == ov,
        resolved_base(None) == default_base_path(),
        item_path(resolved_base(Some(ov)), id).subrange(0, ov.len() as int) == ov,
        cancel_item_path(resolved_base(Some(ov)), id).subrange(0, ov.len() as int) == ov,
{
    reveal_strlit("/");
    assert(item_path(ov, id).subrange(0, ov.len() as int) =~= ov);
    assert(cancel_item_path(ov, id).subrange(0, ov.len() as int) =~= ov);
}

/// `retrieve` interpolates the identifier verbatim: the item path is the
/// base, one slash, then the identifier's characters unchanged, and nothing
/// more.
pub proof fn lemma_id_interpolated_verbatim(base: Seq<char>, id: Seq<char>)
    ensures
        item_path(base, id).len() == base.len() as int + 1 + id.len() as int,
        item_path(base, id).subrange(0, base.len() as int) == base,
        item_path(base, id)[base.len() as int] == '/',
        item_path(base, id).subrange(
            base.len() as int + 1,
            item_path(base, id).len() as int,
        ) == id,
{
    reveal_strlit("/");
    assert(item_path(base, id).subrange(0, base.len() as int) =~= base);
    assert(item_path(base, id).subrange(
        base.len() as int + 1,
        item_path(base, id).len() as int,
    ) =~= id);
}

/// `cancel` interpolates the identifier verbatim too: its path is exactly
/// the item path of the identifier followed by the `/cancel` suffix, so the
/// identifier's characters stand unchanged in the middle.
pub proof fn lemma_cancel_path_keeps_id_verbatim(base: Seq<char>, id: Seq<char>)
    ensures
        cancel_item_path(base, id).len() == base.len() as int + 1 + id.len() as int + cancel_suffix().len(),
        cancel_item_path(base, id).subrange(
            0,
            base.len() as int + 1 + id.len() as int,
        ) == item_path(base, id),
        cancel_item_path(base, id).subrange(
            base.len() as int + 1,
            base.len() as int + 1 + id.len() as int,
        ) == id,
{
    reveal_strlit("/");
    assert(cancel_item_path(base, id).subrange(0, base.len() as int + 1 + id.len() as int) =~= item_path(
        base,
        id,
    ));
    assert(cancel_item_path(base, id).subrange(base.len() as int + 1, base.len() as int + 1 + id.len() as int)
        =~= id);
}

/// The body of every cancellation is the two-character non-null empty JSON
/// object, `{}`. `cancel` takes no payload and offers no payload override,
/// so no type substitution can reach — let alone change — this body.
/// A listing's query has no required field: the pairs the caller supplies
/// are carried as given, and with none supplied the URL is the resolved
/// path alone, with no query marker at all.
pub proof fn lemma_query_has_no_required_fields(path: Seq<char>)
    ensures
        query_text(Seq::empty()) == Seq::<char>::empty(),
        url_with_query(path, Seq::empty()) == path,
{
}

pub proof fn lemma_cancel_body_fixed()
    ensures
        empty_json_object() == seq!['{', '}'],
{
    reveal_strlit("{}");
    assert(empty_json_object() =~= seq!['{', '}']);
}

} // verus!
