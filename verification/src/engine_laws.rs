//! What holds of the engine's own sources over whole runs of operations.
//!
//! The sources of this process that are in being are those that the requests
//! sent so far have created and not destroyed. Every operation that asks for
//! requests leaves in being exactly the source that the engine then owns.

use crate::engine_model::{
    after_cancelled, after_delete, after_ownership, after_read, after_release, after_selection,
    after_stored, cancelled_requests, engine_wf, lemma_ownership_sources, ownership_check,
    ownership_step_requests, read_requests, release_for, selection_requests, takes_after_read,
    EngineView,
};
use crate::mime_map::MimePair;
use crate::request::{
    lemma_sources_after_concat, owned_sources, release_requests, sources_after, OwnedSource,
    RequestView,
};
use crate::store_model::{has_id, lemma_after_insert_wf};
use vstd::prelude::*;

verus! {

/// When this process takes the selection while it owns a source, the first
/// request destroys that source and the next creates the new one, under a
/// handle that differs from the old; no other request makes or ends a source.
/// Afterwards the engine owns the new source, for the entry asked for.
pub proof fn lemma_take_supersedes(e: EngineView, id: u64)
    requires
        engine_wf(e),
        ownership_check(e, id) is Ok,
    ensures
        engine_wf(after_ownership(e, id)),
        after_ownership(e, id).owned == Some(OwnedSource { source: e.next_source, entry_id: id }),
        e.owned is Some ==> e.next_source != e.owned->Some_0.source,
        ({
            let reqs = ownership_step_requests(e, id);
            let created = release_requests(e.owned).len() as int;
            &&& created < reqs.len()
            &&& reqs[created] == RequestView::CreateSource { source: e.next_source }
            &&& e.owned is Some ==> created == 1 && reqs[0] == RequestView::DestroySource {
                source: e.owned->Some_0.source,
            }
            &&& e.owned is None ==> created == 0
            &&& forall|k: int|
                0 <= k < reqs.len() && (#[trigger] reqs[k]) is CreateSource ==> k == created
            &&& forall|k: int|
                0 <= k < reqs.len() && (#[trigger] reqs[k]) is DestroySource ==> k < created
        }),
{
}

/// Handing in the payloads of an offer keeps the invariant of the engine.
pub proof fn lemma_read_keeps_wf(
    e: EngineView,
    offer: u64,
    pairs: Seq<MimePair>,
    timestamp: u64,
    thumbnail: Option<Seq<u8>>,
)
    requires
        engine_wf(e),
    ensures
        engine_wf(after_read(e, offer, pairs, timestamp, thumbnail)),
{
    lemma_after_insert_wf(e.store, pairs, timestamp, thumbnail);
}

/// The state after this process has taken the selection for each of `ids` in turn.
pub open spec fn after_takes(e: EngineView, ids: Seq<u64>) -> EngineView
    decreases ids.len(),
{
    if ids.len() == 0 {
        e
    } else {
        after_ownership(after_takes(e, ids.drop_last()), ids.last())
    }
}

/// All the requests by which this process takes the selection for each of
/// `ids` in turn.
pub open spec fn takes_requests(e: EngineView, ids: Seq<u64>) -> Seq<RequestView>
    decreases ids.len(),
{
    if ids.len() == 0 {
        Seq::empty()
    } else {
        takes_requests(e, ids.drop_last()) + ownership_step_requests(
            after_takes(e, ids.drop_last()),
            ids.last(),
        )
    }
}

/// However often this process takes the selection, and for whichever
/// entries, the only source of its own that is in being afterwards is the one
/// that it owns: each earlier one was destroyed before the next was created.
pub proof fn lemma_takes_leave_one_source(e: EngineView, ids: Seq<u64>)
    ensures
        sources_after(owned_sources(e.owned), takes_requests(e, ids)) == owned_sources(
            after_takes(e, ids).owned,
        ),
        owned_sources(after_takes(e, ids).owned).len() <= 1,
    decreases ids.len(),
{
    if ids.len() == 0 {
        crate::engine_model::lemma_owned_sources_len(e.owned);
    } else {
        let before = after_takes(e, ids.drop_last());
        lemma_takes_leave_one_source(e, ids.drop_last());
        lemma_ownership_sources(before, ids.last());
        lemma_sources_after_concat(
            owned_sources(e.owned),
            takes_requests(e, ids.drop_last()),
            ownership_step_requests(before, ids.last()),
        );
    }
}

/// After a source was cancelled, the source in being is the one still owned.
pub proof fn lemma_cancelled_sources(e: EngineView, source: u64)
    ensures
        sources_after(owned_sources(e.owned), cancelled_requests(e, source)) == owned_sources(
            after_cancelled(e, source).owned,
        ),
{
    reveal_with_fuel(sources_after, 2);
    let reqs = cancelled_requests(e, source);
    if reqs.len() > 0 {
        assert(reqs.drop_last() =~= Seq::<RequestView>::empty());
        assert(owned_sources(e.owned).remove(source) =~= Set::<u64>::empty());
    }
}

/// After the source of an entry that is to leave was given up, no source of
/// that entry is in being.
pub proof fn lemma_release_sources(e: EngineView, id: u64)
    ensures
        sources_after(owned_sources(e.owned), release_for(e, id)) == owned_sources(
            after_release(e, id).owned,
        ),
        after_release(e, id).owned is Some ==> after_release(e, id).owned->Some_0.entry_id != id,
{
    reveal_with_fuel(sources_after, 2);
    let reqs = release_for(e, id);
    if reqs.len() > 0 {
        assert(reqs.drop_last() =~= Seq::<RequestView>::empty());
        assert(owned_sources(e.owned).remove(e.owned->Some_0.source) =~= Set::<u64>::empty());
    }
}

/// After an entry was deleted, the engine owns no source that serves it, and
/// the source in being is the one still owned.
pub proof fn lemma_delete_sources(e: EngineView, id: u64)
    requires
        has_id(e.store.entries, id),
    ensures
        sources_after(owned_sources(e.owned), release_for(e, id)) == owned_sources(
            after_delete(e, id).owned,
        ),
        after_delete(e, id).owned is Some ==> after_delete(e, id).owned->Some_0.entry_id != id,
{
    lemma_release_sources(e, id);
}

/// A selection event neither makes nor ends a source.
pub proof fn lemma_selection_sources(e: EngineView, offer: Option<u64>)
    ensures
        sources_after(owned_sources(e.owned), selection_requests(e, offer)) == owned_sources(
            after_selection(e, offer).owned,
        ),
{
    reveal_with_fuel(sources_after, 2);
    let reqs = selection_requests(e, offer);
    if reqs.len() > 0 {
        assert(reqs.drop_last() =~= Seq::<RequestView>::empty());
    }
}

/// After the payloads of an offer were handed in, the source in being is the
/// one that the engine then owns.
pub proof fn lemma_read_sources(
    e: EngineView,
    offer: u64,
    pairs: Seq<MimePair>,
    timestamp: u64,
    thumbnail: Option<Seq<u8>>,
)
    ensures
        sources_after(
            owned_sources(e.owned),
            read_requests(e, offer, pairs, timestamp, thumbnail),
        ) == owned_sources(after_read(e, offer, pairs, timestamp, thumbnail).owned),
{
    let stored = after_stored(e, pairs, timestamp, thumbnail);
    let take = if takes_after_read(e, pairs) {
        ownership_step_requests(stored, e.store.next_id)
    } else {
        Seq::empty()
    };
    let last = seq![RequestView::DestroyOffer { offer }];
    if takes_after_read(e, pairs) {
        lemma_ownership_sources(stored, e.store.next_id);
    }
    lemma_sources_after_concat(owned_sources(e.owned), take, last);
    assert(sources_after(sources_after(owned_sources(e.owned), take), last) == sources_after(
        owned_sources(e.owned),
        take,
    )) by {
        reveal_with_fuel(sources_after, 2);
        assert(last.drop_last() =~= Seq::<RequestView>::empty());
    }
}

} // verus!
