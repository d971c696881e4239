//! The adapter directory and the routing policy.
//!
//! The directory maps the identity of each registered adapter to what was
//! registered under it. It is kept in the order of the identities, which is
//! the order in which it is listed and the order that decides the fallback
//! of the routing policy.

use vstd::prelude::*;
use crate::config::{AdapterCapabilities, RequestReplayConfig};
use crate::text::{
    lemma_text_before_asymmetric, lemma_text_before_total, lemma_text_before_transitive,
    str_before, str_eq, text_before,
};

verus! {

/// What is known of a registered adapter.
#[derive(Debug, PartialEq)]
pub struct AdapterInfo {
    pub adapter_id: String,
    /// The address at which the adapter is reached.
    pub endpoint: String,
    pub capabilities: AdapterCapabilities,
    pub version: String,
}

/// The model of an adapter's entry.
pub struct AdapterInfoView {
    pub adapter_id: Seq<char>,
    pub endpoint: Seq<char>,
    pub capabilities: AdapterCapabilities,
    pub version: Seq<char>,
}

impl View for AdapterInfo {
    type V = AdapterInfoView;

    open spec fn view(&self) -> AdapterInfoView {
        AdapterInfoView {
            adapter_id: self.adapter_id@,
            endpoint: self.endpoint@,
            capabilities: self.capabilities,
            version: self.version@,
        }
    }
}

impl Clone for AdapterInfo {
    fn clone(&self) -> (r: Self)
        ensures
            r@ == self@,
    {
        AdapterInfo {
            adapter_id: self.adapter_id.clone(),
            endpoint: self.endpoint.clone(),
            capabilities: self.capabilities,
            version: self.version.clone(),
        }
    }
}

/// The models of a list of entries, in order.
pub open spec fn adapter_views(adapters: Seq<AdapterInfo>) -> Seq<AdapterInfoView> {
    Seq::new(adapters.len(), |i: int| adapters[i]@)
}

/// What an adapter sends to be registered.
#[derive(Debug, PartialEq)]
pub struct RegisterAdapterRequest {
    pub adapter_id: String,
    pub endpoint: String,
    /// Nothing declared counts as no capability.
    pub capabilities: Option<AdapterCapabilities>,
    pub version: String,
}

/// Why a registration was turned away.
#[derive(Clone, Copy, Debug, PartialEq, Eq, Structural)]
pub enum RegistryError {
    /// The identity or the endpoint is empty.
    InvalidAdapter,
}

/// The entry that a registration asks for.
pub open spec fn entry_of(request: RegisterAdapterRequest) -> AdapterInfoView {
    AdapterInfoView {
        adapter_id: request.adapter_id@,
        endpoint: request.endpoint@,
        capabilities: match request.capabilities {
            Some(c) => c,
            None => AdapterCapabilities::none(),
        },
        version: request.version@,
    }
}

/// Whether every entry has a greater identity than all that stand before it.
pub open spec fn sorted_by_id(listing: Seq<AdapterInfoView>) -> bool {
    forall|i: int, j: int|
        0 <= i < j < listing.len() ==> text_before(
            (#[trigger] listing[i]).adapter_id,
            (#[trigger] listing[j]).adapter_id,
        )
}

/// Whether the listing has an entry under the identity.
pub open spec fn lists_id(listing: Seq<AdapterInfoView>, id: Seq<char>) -> bool {
    exists|i: int| 0 <= i < listing.len() && (#[trigger] listing[i]).adapter_id == id
}

/// The directory that a listing denotes: each identity mapped to its entry.
pub open spec fn directory_of(listing: Seq<AdapterInfoView>) -> Map<Seq<char>, AdapterInfoView> {
    Map::new(
        |id: Seq<char>| lists_id(listing, id),
        |id: Seq<char>|
            listing[choose|i: int| 0 <= i < listing.len() && (#[trigger] listing[i]).adapter_id == id],
    )
}

/// In a sorted listing every entry stands under its own identity and under
/// no other.
pub proof fn lemma_directory_of_sorted(listing: Seq<AdapterInfoView>)
    requires
        sorted_by_id(listing),
    ensures
        forall|i: int|
            0 <= i < listing.len() ==> directory_of(listing).contains_key(
                (#[trigger] listing[i]).adapter_id,
            ) && directory_of(listing)[listing[i].adapter_id] == listing[i],
        forall|i: int, j: int|
            0 <= i < listing.len() && 0 <= j < listing.len() && i != j ==> (
            #[trigger] listing[i]).adapter_id != (#[trigger] listing[j]).adapter_id,
{
    assert forall|i: int, j: int|
        0 <= i < listing.len() && 0 <= j < listing.len() && i != j implies (
    #[trigger] listing[i]).adapter_id != (#[trigger] listing[j]).adapter_id by {
        lemma_text_before_asymmetric(listing[i].adapter_id, listing[j].adapter_id);
        if i < j {
            assert(text_before(listing[i].adapter_id, listing[j].adapter_id));
        } else {
            assert(text_before(listing[j].adapter_id, listing[i].adapter_id));
        }
    }
    assert forall|i: int| 0 <= i < listing.len() implies directory_of(listing).contains_key(
        (#[trigger] listing[i]).adapter_id,
    ) && directory_of(listing)[listing[i].adapter_id] == listing[i] by {
        let id = listing[i].adapter_id;
        let at = choose|k: int| 0 <= k < listing.len() && (#[trigger] listing[k]).adapter_id == id;
        assert(at == i);
    }
}

/// The adapter directory, with the replay settings that go with it.
pub struct AdapterRegistryState {
    adapters: Vec<AdapterInfo>,
    replay: RequestReplayConfig,
}

impl View for AdapterRegistryState {
    type V = Map<Seq<char>, AdapterInfoView>;

    open spec fn view(&self) -> Map<Seq<char>, AdapterInfoView> {
        directory_of(self.listing())
    }
}

impl AdapterRegistryState {
    /// The entries in the order of their identities.
    pub closed spec fn listing(&self) -> Seq<AdapterInfoView> {
        adapter_views(self.adapters@)
    }

    /// Whether forwarded requests are recorded.
    pub closed spec fn replay_enabled(&self) -> bool {
        self.replay.enabled
    }

    /// The file in which forwarded requests are recorded.
    pub closed spec fn replay_path(&self) -> Seq<char> {
        self.replay.path@
    }

    #[verifier::type_invariant]
    spec fn ordered(&self) -> bool {
        sorted_by_id(adapter_views(self.adapters@))
    }

    /// A directory without adapters.
    pub fn new(replay: RequestReplayConfig) -> (state: Self)
        ensures
            state.listing() == Seq::<AdapterInfoView>::empty(),
            state@ == (Map::<Seq<char>, AdapterInfoView>::empty()),
            state.replay_enabled() == replay.enabled,
            state.replay_path() == replay.path@,
    {
        let state = AdapterRegistryState { adapters: Vec::new(), replay };
        proof {
            assert(state.listing() =~= Seq::<AdapterInfoView>::empty());
            assert(state@ =~= Map::<Seq<char>, AdapterInfoView>::empty());
        }
        state
    }

    /// The replay settings.
    pub fn replay(&self) -> (cfg: &RequestReplayConfig)
        ensures
            cfg.enabled == self.replay_enabled(),
            cfg.path@ == self.replay_path(),
    {
        &self.replay
    }

    /// Whether no adapter is registered.
    pub fn is_empty(&self) -> (r: bool)
        ensures
            r == (self.listing().len() == 0),
    {
        self.adapters.len() == 0
    }

    /// The place of the first entry whose identity does not come before
    /// `id`, or the number of entries where all come before it.
    fn place_of(&self, id: &str) -> (at: usize)
        ensures
            at <= self.listing().len(),
            sorted_by_id(self.listing()),
            forall|j: int| 0 <= j < at ==> text_before((#[trigger] self.listing()[j]).adapter_id, id@),
            at < self.listing().len() ==> !text_before(self.listing()[at as int].adapter_id, id@),
    {
        proof {
            use_type_invariant(self);
        }
        let mut at: usize = 0;
        while at < self.adapters.len() && str_before(self.adapters[at].adapter_id.as_str(), id)
            invariant
                at <= self.adapters.len(),
                forall|j: int|
                    0 <= j < at ==> text_before((#[trigger] self.listing()[j]).adapter_id, id@),
            decreases self.adapters.len() - at,
        {
            at += 1;
        }
        at
    }

    /// Registers an adapter under its identity, in place of what was
    /// registered under it before.
    ///
    /// Fails with `InvalidAdapter`, and changes nothing, exactly where the
    /// identity or the endpoint is empty.
    pub fn register(&mut self, request: RegisterAdapterRequest) -> (r: Result<(), RegistryError>)
        ensures
            r is Err <==> request.adapter_id@.len() == 0 || request.endpoint@.len() == 0,
            r is Err ==> final(self).listing() == old(self).listing(),
            r is Ok ==> final(self)@ == old(self)@.insert(request.adapter_id@, entry_of(request)),
            sorted_by_id(final(self).listing()),
            final(self).replay_enabled() == old(self).replay_enabled(),
            final(self).replay_path() == old(self).replay_path(),
    {
        proof {
            use_type_invariant(&*self);
        }
        if request.adapter_id.as_str().is_empty() || request.endpoint.as_str().is_empty() {
            return Err(RegistryError::InvalidAdapter);
        }
        let ghost before = self.listing();
        let ghost id = request.adapter_id@;
        let ghost entry = entry_of(request);
        let at = self.place_of(request.adapter_id.as_str());
        let replaces = at < self.adapters.len() && str_eq(
            self.adapters[at].adapter_id.as_str(),
            request.adapter_id.as_str(),
        );
        let info = AdapterInfo {
            adapter_id: request.adapter_id,
            endpoint: request.endpoint,
            capabilities: match request.capabilities {
                Some(c) => c,
                None => AdapterCapabilities::default(),
            },
            version: request.version,
        };
        assert(info@ == entry);
        let mut adapters: Vec<AdapterInfo> = Vec::new();
        assert(adapter_views(adapters@) =~= Seq::<AdapterInfoView>::empty());
        core::mem::swap(&mut self.adapters, &mut adapters);
        if replaces {
            proof {
                let after = before.update(at as int, entry);
                assert(adapter_views(adapters@.update(at as int, info)) =~= after);
                lemma_replaced(before, at as int, entry);
            }
            adapters.set(at, info);
        } else {
            proof {
                let after = before.insert(at as int, entry);
                assert(adapter_views(adapters@.insert(at as int, info)) =~= after);
                if at < before.len() {
                    lemma_text_before_total(before[at as int].adapter_id, id);
                }
                lemma_inserted(before, at as int, entry);
            }
            adapters.insert(at, info);
        }
        core::mem::swap(&mut self.adapters, &mut adapters);
        Ok(())
    }

    /// A snapshot of every entry, in the order of the identities.
    pub fn list(&self) -> (all: Vec<AdapterInfo>)
        ensures
            adapter_views(all@) == self.listing(),
            sorted_by_id(self.listing()),
    {
        proof {
            use_type_invariant(self);
        }
        let mut all: Vec<AdapterInfo> = Vec::new();
        let mut i: usize = 0;
        while i < self.adapters.len()
            invariant
                i <= self.adapters.len(),
                all@.len() == i,
                forall|k: int| 0 <= k < i ==> (#[trigger] all@[k])@ == self.adapters@[k]@,
            decreases self.adapters.len() - i,
        {
            all.push(self.adapters[i].clone());
            i += 1;
        }
        assert(adapter_views(all@) =~= self.listing());
        all
    }

    /// The entry with the least identity.
    pub fn first(&self) -> (r: Option<AdapterInfo>)
        ensures
            match r {
                Some(info) => self.listing().len() > 0 && self.listing()[0] == info@,
                None => self.listing().len() == 0,
            },
            sorted_by_id(self.listing()),
    {
        proof {
            use_type_invariant(self);
        }
        if self.adapters.len() > 0 {
            Some(self.adapters[0].clone())
        } else {
            None
        }
    }

    /// The entry registered under `id`.
    pub fn lookup(&self, id: &str) -> (r: Option<AdapterInfo>)
        ensures
            match r {
                Some(info) => self@.contains_key(id@) && self@[id@] == info@,
                None => !self@.contains_key(id@),
            },
            sorted_by_id(self.listing()),
    {
        let at = self.place_of(id);
        proof {
            lemma_directory_of_sorted(self.listing());
        }
        if at < self.adapters.len() && str_eq(self.adapters[at].adapter_id.as_str(), id) {
            assert(self.listing()[at as int].adapter_id == id@);
            Some(self.adapters[at].clone())
        } else {
            proof {
                let listing = self.listing();
                if lists_id(listing, id@) {
                    let k = choose|k: int|
                        0 <= k < listing.len() && (#[trigger] listing[k]).adapter_id == id@;
                    lemma_text_before_asymmetric(id@, id@);
                    if k > at {
                        assert(text_before(listing[at as int].adapter_id, listing[k].adapter_id));
                    }
                    assert(false);
                }
            }
            None
        }
    }
}

/// Replacing an entry by one with the same identity keeps the order and maps
/// the identity to the new entry.
proof fn lemma_replaced(before: Seq<AdapterInfoView>, at: int, entry: AdapterInfoView)
    requires
        sorted_by_id(before),
        0 <= at < before.len(),
        before[at].adapter_id == entry.adapter_id,
    ensures
        sorted_by_id(before.update(at, entry)),
        directory_of(before.update(at, entry)) == directory_of(before).insert(
            entry.adapter_id,
            entry,
        ),
{
    let after = before.update(at, entry);
    assert forall|i: int, j: int| 0 <= i < j < after.len() implies text_before(
        (#[trigger] after[i]).adapter_id,
        (#[trigger] after[j]).adapter_id,
    ) by {
        assert(after[i].adapter_id == before[i].adapter_id);
        assert(after[j].adapter_id == before[j].adapter_id);
    }
    lemma_directory_of_sorted(before);
    lemma_directory_of_sorted(after);
    assert forall|id: Seq<char>| lists_id(after, id) <==> lists_id(before, id) by {
        if lists_id(after, id) {
            let k = choose|k: int| 0 <= k < after.len() && (#[trigger] after[k]).adapter_id == id;
            assert(before[k].adapter_id == id);
        }
        if lists_id(before, id) {
            let k = choose|k: int| 0 <= k < before.len() && (#[trigger] before[k]).adapter_id == id;
            assert(after[k].adapter_id == id);
        }
    }
    assert forall|id: Seq<char>| lists_id(before, id) && id != entry.adapter_id implies directory_of(
        after,
    )[id] == directory_of(before)[id] by {
        let k = choose|k: int| 0 <= k < before.len() && (#[trigger] before[k]).adapter_id == id;
        assert(after[k] == before[k]);
    }
    assert(after[at] == entry);
    assert(lists_id(before, entry.adapter_id));
    assert(directory_of(after) =~= directory_of(before).insert(entry.adapter_id, entry));
}

/// Inserting an entry at its place keeps the order and maps its identity to
/// it.
proof fn lemma_inserted(before: Seq<AdapterInfoView>, at: int, entry: AdapterInfoView)
    requires
        sorted_by_id(before),
        0 <= at <= before.len(),
        forall|j: int| 0 <= j < at ==> text_before((#[trigger] before[j]).adapter_id, entry.adapter_id),
        at < before.len() ==> text_before(entry.adapter_id, before[at].adapter_id),
    ensures
        sorted_by_id(before.insert(at, entry)),
        directory_of(before.insert(at, entry)) == directory_of(before).insert(
            entry.adapter_id,
            entry,
        ),
{
    let after = before.insert(at, entry);
    assert forall|i: int, j: int| 0 <= i < j < after.len() implies text_before(
        (#[trigger] after[i]).adapter_id,
        (#[trigger] after[j]).adapter_id,
    ) by {
        if j < at {
            assert(after[i] == before[i] && after[j] == before[j]);
        } else if j == at {
            assert(after[i] == before[i]);
        } else if i < at {
            assert(after[i] == before[i] && after[j] == before[j - 1]);
        } else if i == at {
            assert(after[j] == before[j - 1]);
            if j - 1 > at {
                assert(text_before(before[at].adapter_id, before[j - 1].adapter_id));
                lemma_text_before_transitive(
                    entry.adapter_id,
                    before[at].adapter_id,
                    before[j - 1].adapter_id,
                );
            }
        } else {
            assert(after[i] == before[i - 1] && after[j] == before[j - 1]);
        }
    }
    lemma_directory_of_sorted(before);
    lemma_directory_of_sorted(after);
    assert(after[at] == entry);
    assert forall|id: Seq<char>| lists_id(after, id) <==> (lists_id(before, id) || id
        == entry.adapter_id) by {
        if lists_id(after, id) {
            let k = choose|k: int| 0 <= k < after.len() && (#[trigger] after[k]).adapter_id == id;
            if k < at {
                assert(before[k].adapter_id == id);
            } else if k > at {
                assert(before[k - 1].adapter_id == id);
            }
        }
        if lists_id(before, id) {
            let k = choose|k: int| 0 <= k < before.len() && (#[trigger] before[k]).adapter_id == id;
            if k < at {
                assert(after[k].adapter_id == id);
            } else {
                assert(after[k + 1].adapter_id == id);
            }
        }
    }
    assert forall|id: Seq<char>| lists_id(before, id) && id != entry.adapter_id implies directory_of(
        after,
    )[id] == directory_of(before)[id] by {
        let k = choose|k: int| 0 <= k < before.len() && (#[trigger] before[k]).adapter_id == id;
        if k < at {
            assert(after[k] == before[k]);
        } else {
            assert(after[k + 1] == before[k]);
        }
    }
    assert(directory_of(after) =~= directory_of(before).insert(entry.adapter_id, entry));
}

} // verus!
