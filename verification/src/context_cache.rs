use vstd::prelude::*;
use crate::assoc::{
    assoc_map,
    keys_unique,
    lemma_assoc_map_at,
    lemma_assoc_map_dom,
    lemma_assoc_map_push,
    lemma_assoc_map_update,
};

verus! {

/// The asset set a context-to-assets map knows under one context: its
/// entry, or empty while the context has none.
pub open spec fn known_assets(m: Map<u64, Seq<u64>>, context_id: u64) -> Seq<u64> {
    if m.dom().contains(context_id) {
        m[context_id]
    } else {
        Seq::empty()
    }
}

/// Cache of discovered context-to-asset-set associations, owned by one
/// resolution call and grown monotonically during it.
///
/// Its view is the map from context ID to the assets known to resolve under
/// that context. The well-formedness invariant keeps every asset under at
/// most one context at a time, so a cache lookup needs no tie-break.
pub struct ContextCache {
    entries: Vec<(u64, Vec<u64>)>,
}

impl View for ContextCache {
    type V = Map<u64, Seq<u64>>;

    closed spec fn view(&self) -> Map<u64, Seq<u64>> {
        assoc_map(self.entry_views())
    }
}

impl ContextCache {
    /// The stored pairs, with the asset vectors as sequences.
    closed spec fn entry_views(&self) -> Seq<(u64, Seq<u64>)> {
        self.entries@.map_values(|e: (u64, Vec<u64>)| (e.0, e.1@))
    }

    /// Each context has one entry, and no asset is assigned to two
    /// different contexts at once.
    pub closed spec fn wf(&self) -> bool {
        &&& keys_unique(self.entry_views())
        &&& forall|a: int, b: int, x: u64|
            0 <= a < self.entry_views().len() && 0 <= b < self.entry_views().len() && a != b
                && (#[trigger] self.entry_views()[a].1.contains(x)) ==> !(#[trigger] self.entry_views()[b].1.contains(x))
    }

    /// An empty cache: nothing resolves from it.
    pub fn new() -> (r: ContextCache)
        ensures
            r.wf(),
            r@ =~= Map::<u64, Seq<u64>>::empty(),
    {
        ContextCache { entries: Vec::new() }
    }

    /// Scans the cache for a context whose asset set holds `asset_id`.
    ///
    /// Returns that context if any entry knows the asset, and `None` when
    /// no entry does — the caller must then discover the context remotely.
    pub fn find_cached_context(&self, asset_id: u64) -> (r: Option<u64>)
        requires
            self.wf(),
        ensures
            r is Some ==> self@.dom().contains(r->0) && self@[r->0].contains(asset_id),
            r is None ==> forall|c: u64|
                self@.dom().contains(c) ==> !(#[trigger] self@[c]).contains(asset_id),
    {
        let ghost views = self.entry_views();
        let mut i: usize = 0;
        while i < self.entries.len()
            invariant
                self.wf(),
                views == self.entry_views(),
                i <= views.len(),
                forall|t: int| 0 <= t < i ==> !(#[trigger] views[t]).1.contains(asset_id),
            decreases views.len() - i,
        {
            if crate::batching::contains_id(&self.entries[i].1, asset_id) {
                proof {
                    lemma_assoc_map_at(views, i as int);
                }
                return Some(self.entries[i].0);
            }
            i = i + 1;
        }
        proof {
            lemma_assoc_map_dom(views);
            assert forall|c: u64| self@.dom().contains(c) implies !(
            #[trigger] self@[c]).contains(asset_id) by {
                let w = choose|w: int| 0 <= w < views.len() && (#[trigger] views[w]).0 == c;
                lemma_assoc_map_at(views, w);
            }
        }
        None
    }

    /// Records that `asset_id` resolves under `context_id`, creating the
    /// context's entry if it is new. The asset must not already be known
    /// under a different context, so the one-context-per-asset invariant
    /// is kept.
    #[verifier::loop_isolation(false)]
    pub fn add_asset(&mut self, context_id: u64, asset_id: u64)
        requires
            old(self).wf(),
            forall|c: u64|
                old(self)@.dom().contains(c) && (#[trigger] old(self)@[c]).contains(asset_id)
                    ==> c == context_id,
        ensures
            final(self).wf(),
            final(self)@ =~= old(self)@.insert(
                context_id,
                known_assets(old(self)@, context_id).push(asset_id),
            ),
    {
        let ghost views = self.entry_views();
        proof {
            lemma_assoc_map_dom(views);
        }
        let mut i: usize = 0;
        while i < self.entries.len()
            invariant
                *self == *old(self),
                self.wf(),
                views == self.entry_views(),
                i <= views.len(),
                forall|t: int| 0 <= t < i ==> (#[trigger] views[t]).0 != context_id,
            decreases views.len() - i,
        {
            if self.entries[i].0 == context_id {
                proof {
                    assert(views[i as int].0 == context_id);
                    lemma_assoc_map_at(views, i as int);
                }
                let pair = self.entries.remove(i);
                let (ctx, mut assets) = pair;
                let ghost old_assets = assets@;
                proof {
                    assert(old_assets == views[i as int].1);
                }
                assets.push(asset_id);
                self.entries.insert(i, (ctx, assets));
                proof {
                    assert(self.entry_views() =~= views.update(
                        i as int,
                        (context_id, old_assets.push(asset_id)),
                    ));
                    lemma_assoc_map_update(views, i as int, old_assets.push(asset_id));
                    assert(self@ =~= old(self)@.insert(
                        context_id,
                        known_assets(old(self)@, context_id).push(asset_id),
                    ));
                    lemma_add_asset_preserves_disjointness(views, i as int, asset_id, context_id, old(self)@);
                }
                return ;
            }
            i = i + 1;
        }
        let mut fresh: Vec<u64> = Vec::new();
        fresh.push(asset_id);
        self.entries.push((context_id, fresh));
        proof {
            assert(!old(self)@.dom().contains(context_id));
            assert(self.entry_views() =~= views.push(
                (context_id, Seq::empty().push(asset_id)),
            ));
            lemma_assoc_map_push(views, context_id, Seq::empty().push(asset_id));
            assert(self@ =~= old(self)@.insert(
                context_id,
                known_assets(old(self)@, context_id).push(asset_id),
            ));
            lemma_push_asset_preserves_disjointness(views, asset_id, context_id, old(self)@);
        }
    }

    /// Hands the cache's entries out as plain pairs, for the driver to walk
    /// bucket by bucket. The pairs carry each context once and denote
    /// exactly the cache's map.
    pub fn into_entries(self) -> (entries: Vec<(u64, Vec<u64>)>)
        requires
            self.wf(),
        ensures
            keys_unique(entries@.map_values(|e: (u64, Vec<u64>)| (e.0, e.1@))),
            assoc_map(entries@.map_values(|e: (u64, Vec<u64>)| (e.0, e.1@))) == self@,
    {
        let ghost views = self.entry_views();
        let ContextCache { entries } = self;
        proof {
            assert(entries@.map_values(|e: (u64, Vec<u64>)| (e.0, e.1@)) =~= views);
        }
        entries
    }
}

/// After extending the entry at `j` with an asset no other context holds,
/// the entries still keep every asset under at most one context.
proof fn lemma_add_asset_preserves_disjointness(
    views: Seq<(u64, Seq<u64>)>,
    j: int,
    asset_id: u64,
    context_id: u64,
    m: Map<u64, Seq<u64>>,
)
    requires
        keys_unique(views),
        0 <= j < views.len(),
        views[j].0 == context_id,
        m == assoc_map(views),
        forall|a: int, b: int, x: u64|
            0 <= a < views.len() && 0 <= b < views.len() && a != b && (#[trigger] views[a].1.contains(x)) ==> !(#[trigger] views[b].1.contains(x)),
        forall|c: u64|
            m.dom().contains(c) && (#[trigger] m[c]).contains(asset_id) ==> c == context_id,
    ensures
        ({
            let t = views.update(j, (context_id, views[j].1.push(asset_id)));
            forall|a: int, b: int, x: u64|
                0 <= a < t.len() && 0 <= b < t.len() && a != b && (#[trigger] t[a].1.contains(x))
                    ==> !(#[trigger] t[b].1.contains(x))
        }),
{
    let t = views.update(j, (context_id, views[j].1.push(asset_id)));
    assert forall|a: int, b: int, x: u64|
        0 <= a < t.len() && 0 <= b < t.len() && a != b && (#[trigger] t[a].1.contains(x))
            implies !(#[trigger] t[b].1.contains(x)) by {
        if a != j && b != j {
            assert(t[a] == views[a]);
            assert(t[b] == views[b]);
        } else if a == j {
            assert(t[b] == views[b]);
            if views[j].1.push(asset_id).contains(x) {
                if views[j].1.contains(x) {
                } else {
                    assert(x == asset_id) by {
                        let w = choose|w: int|
                            0 <= w < views[j].1.push(asset_id).len() && views[j].1.push(
                                asset_id,
                            )[w] == x;
                        if w < views[j].1.len() {
                            assert(views[j].1[w] == x);
                            assert(views[j].1.contains(x));
                        }
                    }
                    if views[b].1.contains(asset_id) {
                        lemma_assoc_map_at(views, b);
                        assert(m[views[b].0].contains(asset_id));
                        assert(views[b].0 == context_id);
                        assert(false);
                    }
                }
            }
        } else {
            assert(t[a] == views[a]);
            if views[a].1.contains(x) {
                if views[j].1.contains(x) {
                    assert(false);
                }
                if x == asset_id {
                    lemma_assoc_map_at(views, a);
                    assert(m[views[a].0].contains(asset_id));
                    assert(views[a].0 == context_id);
                    assert(false);
                }
                assert(!views[j].1.push(asset_id).contains(x)) by {
                    let p = views[j].1.push(asset_id);
                    if p.contains(x) {
                        let w = choose|w: int| 0 <= w < p.len() && p[w] == x;
                        if w < views[j].1.len() {
                            assert(views[j].1[w] == x);
                            assert(views[j].1.contains(x));
                        }
                    }
                }
            }
        }
    }
}

/// After appending a fresh context entry holding one asset no other
/// context holds, the entries still keep every asset under at most one
/// context.
proof fn lemma_push_asset_preserves_disjointness(
    views: Seq<(u64, Seq<u64>)>,
    asset_id: u64,
    context_id: u64,
    m: Map<u64, Seq<u64>>,
)
    requires
        keys_unique(views),
        m == assoc_map(views),
        forall|a: int, b: int, x: u64|
            0 <= a < views.len() && 0 <= b < views.len() && a != b && (#[trigger] views[a].1.contains(x)) ==> !(#[trigger] views[b].1.contains(x)),
        forall|c: u64|
            m.dom().contains(c) && (#[trigger] m[c]).contains(asset_id) ==> c == context_id,
        forall|t: int| 0 <= t < views.len() ==> (#[trigger] views[t]).0 != context_id,
    ensures
        ({
            let t = views.push((context_id, Seq::empty().push(asset_id)));
            forall|a: int, b: int, x: u64|
                0 <= a < t.len() && 0 <= b < t.len() && a != b && (#[trigger] t[a].1.contains(x))
                    ==> !(#[trigger] t[b].1.contains(x))
        }),
{
    let fresh: Seq<u64> = Seq::empty().push(asset_id);
    let t = views.push((context_id, fresh));
    assert(forall|x: u64| fresh.contains(x) ==> x == asset_id) by {
        assert forall|x: u64| fresh.contains(x) implies x == asset_id by {
            let w = choose|w: int| 0 <= w < fresh.len() && fresh[w] == x;
        }
    }
    assert forall|a: int, b: int, x: u64|
        0 <= a < t.len() && 0 <= b < t.len() && a != b && (#[trigger] t[a].1.contains(x))
            implies !(#[trigger] t[b].1.contains(x)) by {
        if a < views.len() && b < views.len() {
            assert(t[a] == views[a]);
            assert(t[b] == views[b]);
        } else if a == views.len() {
            assert(t[a].1 == fresh);
            assert(x == asset_id);
            assert(t[b] == views[b]);
            if views[b].1.contains(asset_id) {
                lemma_assoc_map_at(views, b);
                assert(m[views[b].0].contains(asset_id));
                assert(views[b].0 == context_id);
                assert(false);
            }
        } else {
            assert(t[a] == views[a]);
            assert(t[b].1 == fresh);
            if views[a].1.contains(x) && fresh.contains(x) {
                assert(x == asset_id);
                lemma_assoc_map_at(views, a);
                assert(m[views[a].0].contains(asset_id));
                assert(false);
            }
        }
    }
}

} // verus!
