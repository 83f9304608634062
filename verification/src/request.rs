//! The protocol requests that the engine asks its caller to send, and which
//! sources of this process they leave in being.

use vstd::prelude::*;

verus! {

/// One request to the compositor. Offers and sources are named by handles:
/// the caller gives one to each offer that the compositor announces, and the
/// engine gives one to each source that it asks to be created.
#[derive(Debug, PartialEq, Eq)]
pub enum Request {
    /// Destroy the offer object.
    DestroyOffer { offer: u64 },
    /// Destroy the source object.
    DestroySource { source: u64 },
    /// Create a source object under this handle.
    CreateSource { source: u64 },
    /// Announce a MIME type on the source.
    Offer { source: u64, mime_type: String },
    /// Make the source the selection of the seat.
    SetSelection { source: u64 },
    /// Flush the connection. A failure is logged and otherwise ignored.
    Flush,
}

/// What a [`Request`] holds, as plain values.
pub ghost enum RequestView {
    DestroyOffer { offer: u64 },
    DestroySource { source: u64 },
    CreateSource { source: u64 },
    Offer { source: u64, mime_type: Seq<char> },
    SetSelection { source: u64 },
    Flush,
}

impl View for Request {
    type V = RequestView;

    open spec fn view(&self) -> RequestView {
        match self {
            Request::DestroyOffer { offer } => RequestView::DestroyOffer { offer: *offer },
            Request::DestroySource { source } => RequestView::DestroySource { source: *source },
            Request::CreateSource { source } => RequestView::CreateSource { source: *source },
            Request::Offer { source, mime_type } => RequestView::Offer {
                source: *source,
                mime_type: mime_type@,
            },
            Request::SetSelection { source } => RequestView::SetSelection { source: *source },
            Request::Flush => RequestView::Flush,
        }
    }
}

/// The views of a sequence of requests.
pub open spec fn request_views(reqs: Seq<Request>) -> Seq<RequestView> {
    reqs.map_values(|r: Request| r@)
}

/// A source of this process together with the entry whose payloads it serves.
#[derive(Debug, Clone, Copy, PartialEq, Eq, Structural)]
pub struct OwnedSource {
    pub source: u64,
    pub entry_id: u64,
}

/// The requests that give up a source, if one is owned.
pub open spec fn release_requests(owned: Option<OwnedSource>) -> Seq<RequestView> {
    match owned {
        Some(o) => seq![RequestView::DestroySource { source: o.source }],
        None => Seq::empty(),
    }
}

/// The requests that announce each of `mimes` on `source`, in order.
pub open spec fn offer_requests(source: u64, mimes: Seq<Seq<char>>) -> Seq<RequestView> {
    mimes.map_values(|m: Seq<char>| RequestView::Offer { source, mime_type: m })
}

/// The requests by which this process takes the selection: the source owned
/// so far is destroyed, a new one is created, every MIME type is announced on
/// it in order, it is made the selection, and the connection is flushed.
pub open spec fn ownership_requests(
    owned: Option<OwnedSource>,
    source: u64,
    mimes: Seq<Seq<char>>,
) -> Seq<RequestView> {
    release_requests(owned) + seq![RequestView::CreateSource { source }] + offer_requests(
        source,
        mimes,
    ) + seq![RequestView::SetSelection { source }, RequestView::Flush]
}

/// The sources in being after one request.
pub open spec fn sources_after_one(live: Set<u64>, req: RequestView) -> Set<u64> {
    match req {
        RequestView::CreateSource { source } => live.insert(source),
        RequestView::DestroySource { source } => live.remove(source),
        _ => live,
    }
}

/// The sources in being after the requests have been sent in order.
pub open spec fn sources_after(live: Set<u64>, reqs: Seq<RequestView>) -> Set<u64>
    decreases reqs.len(),
{
    if reqs.len() == 0 {
        live
    } else {
        sources_after_one(sources_after(live, reqs.drop_last()), reqs.last())
    }
}

/// The sources that an owner holds: its one source, or none.
pub open spec fn owned_sources(owned: Option<OwnedSource>) -> Set<u64> {
    match owned {
        Some(o) => set![o.source],
        None => Set::empty(),
    }
}

/// Sending two runs of requests one after the other is sending their concatenation.
pub proof fn lemma_sources_after_concat(live: Set<u64>, a: Seq<RequestView>, b: Seq<RequestView>)
    ensures
        sources_after(live, a + b) == sources_after(sources_after(live, a), b),
    decreases b.len(),
{
    if b.len() == 0 {
        assert(a + b =~= a);
    } else {
        assert((a + b).drop_last() =~= a + b.drop_last());
        assert((a + b).last() == b.last());
        lemma_sources_after_concat(live, a, b.drop_last());
    }
}

/// Announcing MIME types neither makes nor ends a source.
pub proof fn lemma_offers_keep_sources(live: Set<u64>, source: u64, mimes: Seq<Seq<char>>)
    ensures
        sources_after(live, offer_requests(source, mimes)) == live,
    decreases mimes.len(),
{
    if mimes.len() > 0 {
        assert(offer_requests(source, mimes).drop_last() =~= offer_requests(
            source,
            mimes.drop_last(),
        ));
        lemma_offers_keep_sources(live, source, mimes.drop_last());
    }
}

/// After this process has taken the selection, the new source is the only
/// source of this process in being: the one owned before was destroyed first.
pub proof fn lemma_single_source(owned: Option<OwnedSource>, source: u64, mimes: Seq<Seq<char>>)
    ensures
        sources_after(owned_sources(owned), ownership_requests(owned, source, mimes)) == set![
            source,
        ],
{
    let live = owned_sources(owned);
    let release = release_requests(owned);
    let create = seq![RequestView::CreateSource { source }];
    let offers = offer_requests(source, mimes);
    let set_sel = seq![RequestView::SetSelection { source }, RequestView::Flush];
    let none = Set::<u64>::empty();
    assert(sources_after(live, release) =~= none) by {
        reveal_with_fuel(sources_after, 2);
        if owned is Some {
            assert(release.drop_last() =~= Seq::<RequestView>::empty());
        }
    }
    assert(sources_after(none, create) =~= set![source]) by {
        reveal_with_fuel(sources_after, 2);
        assert(create.drop_last() =~= Seq::<RequestView>::empty());
    }
    lemma_offers_keep_sources(set![source], source, mimes);
    assert(sources_after(set![source], set_sel) =~= set![source]) by {
        reveal_with_fuel(sources_after, 3);
        assert(set_sel.drop_last() =~= seq![RequestView::SetSelection { source }]);
        assert(set_sel.drop_last().drop_last() =~= Seq::<RequestView>::empty());
    }
    lemma_sources_after_concat(live, release, create);
    lemma_sources_after_concat(live, release + create, offers);
    lemma_sources_after_concat(live, release + create + offers, set_sel);
}

} // verus!
