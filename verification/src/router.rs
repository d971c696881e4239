//! The routing policy: which adapters a request is tried on, and in what
//! order.
//!
//! An explicit `adapter_id` in the metadata overrides all policy: the adapter
//! it names is the only candidate, and where no such adapter is registered
//! there is no candidate at all. Without it the preferred providers come
//! first, and only where none of them is registered the adapter with the
//! least identity stands in.

use vstd::prelude::*;
use crate::canonical::CanonicalAIRequest;
use crate::registry::{
    adapter_views, directory_of, lemma_directory_of_sorted, sorted_by_id, AdapterInfo,
    AdapterInfoView, AdapterRegistryState,
};

verus! {

/// The entry under `id` as a list: one entry where the adapter is
/// registered, none where it is not.
pub open spec fn registered(listing: Seq<AdapterInfoView>, id: Seq<char>) -> Seq<AdapterInfoView> {
    if directory_of(listing).contains_key(id) {
        seq![directory_of(listing)[id]]
    } else {
        Seq::empty()
    }
}

/// The candidates of the default policy: `openrouter`, then `ollama`, each
/// where registered; where neither is, the first entry of the listing.
pub open spec fn default_route(listing: Seq<AdapterInfoView>) -> Seq<AdapterInfoView> {
    let preferred = registered(listing, "openrouter"@) + registered(listing, "ollama"@);
    if preferred.len() > 0 {
        preferred
    } else if listing.len() > 0 {
        seq![listing[0]]
    } else {
        Seq::empty()
    }
}

/// The candidates for a request with the given metadata, in the order in
/// which they are tried.
pub open spec fn routed(listing: Seq<AdapterInfoView>, metadata: Map<Seq<char>, Seq<char>>) -> Seq<
    AdapterInfoView,
> {
    if metadata.contains_key("adapter_id"@) {
        registered(listing, metadata["adapter_id"@])
    } else {
        default_route(listing)
    }
}

/// Whether no identity occurs twice.
pub open spec fn distinct_ids(candidates: Seq<AdapterInfoView>) -> bool {
    forall|i: int, j: int|
        0 <= i < j < candidates.len() ==> (#[trigger] candidates[i]).adapter_id != (
        #[trigger] candidates[j]).adapter_id
}

/// Every candidate of a sorted listing is registered under its identity, and
/// no candidate comes twice.
pub proof fn lemma_routed_registered(
    listing: Seq<AdapterInfoView>,
    metadata: Map<Seq<char>, Seq<char>>,
)
    requires
        sorted_by_id(listing),
    ensures
        distinct_ids(routed(listing, metadata)),
        forall|i: int|
            0 <= i < routed(listing, metadata).len() ==> directory_of(listing).contains_key(
                (#[trigger] routed(listing, metadata)[i]).adapter_id,
            ) && directory_of(listing)[routed(listing, metadata)[i].adapter_id] == routed(
                listing,
                metadata,
            )[i],
{
    lemma_directory_of_sorted(listing);
    reveal_strlit("openrouter");
    reveal_strlit("ollama");
    assert("openrouter"@.len() != "ollama"@.len());
    let dir = directory_of(listing);
    assert forall|id: Seq<char>| dir.contains_key(id) implies (#[trigger] dir[id]).adapter_id
        == id by {
        let k = choose|k: int| 0 <= k < listing.len() && (#[trigger] listing[k]).adapter_id == id;
        assert(dir[listing[k].adapter_id] == listing[k]);
    }
}

/// Explicit routing overrides all policy and fails closed: the adapter that
/// the metadata names is the only candidate where it is registered, and where
/// it is not there is no candidate, whatever else is registered.
pub proof fn lemma_explicit_adapter(
    listing: Seq<AdapterInfoView>,
    metadata: Map<Seq<char>, Seq<char>>,
)
    requires
        metadata.contains_key("adapter_id"@),
    ensures
        directory_of(listing).contains_key(metadata["adapter_id"@]) ==> routed(listing, metadata)
            == seq![directory_of(listing)[metadata["adapter_id"@]]],
        !directory_of(listing).contains_key(metadata["adapter_id"@]) ==> routed(listing, metadata)
            == Seq::<AdapterInfoView>::empty(),
{
}

/// The default policy: `openrouter` comes first and `ollama` second, each
/// where registered. Only where neither is registered the adapter with the
/// least identity is the candidate, and an empty directory leaves none.
pub proof fn lemma_default_policy(
    listing: Seq<AdapterInfoView>,
    metadata: Map<Seq<char>, Seq<char>>,
)
    requires
        sorted_by_id(listing),
        !metadata.contains_key("adapter_id"@),
    ensures
        ({
            let dir = directory_of(listing);
            let first = dir.contains_key("openrouter"@);
            let second = dir.contains_key("ollama"@);
            &&& first && second ==> routed(listing, metadata) == seq![
                dir["openrouter"@],
                dir["ollama"@],
            ]
            &&& first && !second ==> routed(listing, metadata) == seq![dir["openrouter"@]]
            &&& !first && second ==> routed(listing, metadata) == seq![dir["ollama"@]]
            &&& !first && !second && listing.len() > 0 ==> routed(listing, metadata) == seq![
                listing[0],
            ] && dir.contains_key(listing[0].adapter_id) && forall|id: Seq<char>|
                #[trigger] dir.contains_key(id) ==> id == listing[0].adapter_id
                    || crate::text::text_before(listing[0].adapter_id, id)
            &&& listing.len() == 0 ==> routed(listing, metadata) == Seq::<AdapterInfoView>::empty()
        }),
{
    lemma_directory_of_sorted(listing);
    let dir = directory_of(listing);
    let first = registered(listing, "openrouter"@);
    let second = registered(listing, "ollama"@);
    if dir.contains_key("openrouter"@) && dir.contains_key("ollama"@) {
        assert(first + second =~= seq![dir["openrouter"@], dir["ollama"@]]);
    } else if dir.contains_key("openrouter"@) {
        assert(first + second =~= seq![dir["openrouter"@]]);
    } else if dir.contains_key("ollama"@) {
        assert(first + second =~= seq![dir["ollama"@]]);
    } else {
        assert(first + second =~= Seq::<AdapterInfoView>::empty());
        if listing.len() > 0 {
            assert forall|id: Seq<char>| #[trigger] dir.contains_key(id) implies id
                == listing[0].adapter_id || crate::text::text_before(listing[0].adapter_id, id) by {
                let k = choose|k: int|
                    0 <= k < listing.len() && (#[trigger] listing[k]).adapter_id == id;
                if k > 0 {
                    assert(crate::text::text_before(listing[0].adapter_id, listing[k].adapter_id));
                }
            }
        }
    }
    if listing.len() == 0 {
        assert(!dir.contains_key("openrouter"@));
        assert(!dir.contains_key("ollama"@));
    }
}

/// The candidates for a request, in the order in which they are tried.
///
/// An `adapter_id` that names no registered adapter leaves no candidate.
/// Every candidate is registered, and none comes twice.
pub fn candidates(directory: &AdapterRegistryState, req: &CanonicalAIRequest) -> (out: Vec<
    AdapterInfo,
>)
    ensures
        adapter_views(out@) == routed(directory.listing(), req@.metadata),
        req@.metadata.contains_key("adapter_id"@) && !directory@.contains_key(
            req@.metadata["adapter_id"@],
        ) ==> out@.len() == 0,
        directory.listing().len() == 0 ==> out@.len() == 0,
        distinct_ids(adapter_views(out@)),
        forall|i: int|
            0 <= i < out@.len() ==> directory@.contains_key((#[trigger] out@[i]).adapter_id@)
                && directory@[out@[i].adapter_id@] == out@[i]@,
{
    let mut out: Vec<AdapterInfo> = Vec::new();
    match req.metadata.get("adapter_id") {
        Some(id) => {
            match directory.lookup(id.as_str()) {
                Some(info) => {
                    out.push(info);
                },
                None => {},
            }
        },
        None => {
            match directory.lookup("openrouter") {
                Some(info) => {
                    out.push(info);
                },
                None => {},
            }
            match directory.lookup("ollama") {
                Some(info) => {
                    out.push(info);
                },
                None => {},
            }
            if out.len() == 0 {
                match directory.first() {
                    Some(info) => {
                        out.push(info);
                    },
                    None => {},
                }
            }
        },
    }
    proof {
        let listing = directory.listing();
        assert(adapter_views(out@) =~= routed(listing, req@.metadata));
        lemma_routed_registered(listing, req@.metadata);
        assert forall|i: int| 0 <= i < out@.len() implies directory@.contains_key(
            (#[trigger] out@[i]).adapter_id@,
        ) && directory@[out@[i].adapter_id@] == out@[i]@ by {
            assert(routed(listing, req@.metadata)[i] == out@[i]@);
        }
        if listing.len() == 0 {
            assert(forall|id: Seq<char>| !directory_of(listing).contains_key(id));
        }
    }
    out
}

} // verus!
