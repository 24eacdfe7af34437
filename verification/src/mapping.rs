use vstd::prelude::*;
use crate::assoc::{
    assoc_map,
    keys_unique,
    lemma_assoc_map_at,
    lemma_assoc_map_dom,
    lemma_assoc_map_push,
    lemma_assoc_map_update,
};
use crate::errors::ApiError;

verus! {

/// The final old-ID to new-ID mapping, built by folding the upload tasks'
/// outcomes. Keys are the original correlation IDs; a repeated key
/// overwrites — last write wins.
pub struct MappingTable {
    entries: Vec<(u64, String)>,
}

impl View for MappingTable {
    type V = Map<u64, Seq<char>>;

    closed spec fn view(&self) -> Map<u64, Seq<char>> {
        assoc_map(self.entry_views())
    }
}

impl MappingTable {
    /// The stored pairs, with the new-ID strings as sequences.
    closed spec fn entry_views(&self) -> Seq<(u64, Seq<char>)> {
        self.entries@.map_values(|e: (u64, String)| (e.0, e.1@))
    }

    /// Each correlation ID has one entry.
    pub closed spec fn wf(&self) -> bool {
        keys_unique(self.entry_views())
    }

    /// An empty mapping.
    pub fn new() -> (r: MappingTable)
        ensures
            r.wf(),
            r@ =~= Map::<u64, Seq<char>>::empty(),
    {
        MappingTable { entries: Vec::new() }
    }

    /// Maps `request_id` to `new_id`, overwriting any earlier entry for the
    /// same correlation ID: last write wins.
    #[verifier::loop_isolation(false)]
    pub fn insert(&mut self, request_id: u64, new_id: String)
        requires
            old(self).wf(),
        ensures
            final(self).wf(),
            final(self)@ =~= old(self)@.insert(request_id, new_id@),
    {
        let ghost views = self.entry_views();
        let mut i: usize = 0;
        while i < self.entries.len()
            invariant
                *self == *old(self),
                views == self.entry_views(),
                i <= views.len(),
                forall|t: int| 0 <= t < i ==> (#[trigger] views[t]).0 != request_id,
            decreases views.len() - i,
        {
            if self.entries[i].0 == request_id {
                proof {
                    assert(views[i as int].0 == request_id);
                }
                let ghost value_view = new_id@;
                let pair = self.entries.remove(i);
                self.entries.insert(i, (pair.0, new_id));
                proof {
                    assert(self.entry_views() =~= views.update(
                        i as int,
                        (request_id, value_view),
                    ));
                    lemma_assoc_map_update(views, i as int, value_view);
                }
                return ;
            }
            i = i + 1;
        }
        let ghost value_view = new_id@;
        self.entries.push((request_id, new_id));
        proof {
            assert(self.entry_views() =~= views.push((request_id, value_view)));
            lemma_assoc_map_push(views, request_id, value_view);
        }
    }

    /// Looks one correlation ID up: the mapped new ID exactly when the
    /// mapping holds the key.
    pub fn get(&self, request_id: u64) -> (r: Option<&String>)
        requires
            self.wf(),
        ensures
            r is Some <==> self@.dom().contains(request_id),
            r is Some ==> r->0@ == self@[request_id],
    {
        let ghost views = self.entry_views();
        proof {
            lemma_assoc_map_dom(views);
        }
        let mut i: usize = 0;
        while i < self.entries.len()
            invariant
                views == self.entry_views(),
                self.wf(),
                i <= views.len(),
                forall|t: int| 0 <= t < i ==> (#[trigger] views[t]).0 != request_id,
            decreases views.len() - i,
        {
            if self.entries[i].0 == request_id {
                proof {
                    assert(views[i as int].0 == request_id);
                    lemma_assoc_map_at(views, i as int);
                }
                return Some(&self.entries[i].1);
            }
            i = i + 1;
        }
        None
    }

    /// How many assets are mapped.
    pub fn len(&self) -> (n: usize)
        requires
            self.wf(),
        ensures
            n == self@.dom().len(),
    {
        proof {
            lemma_assoc_map_len(self.entry_views());
        }
        self.entries.len()
    }

    /// Hands the mapping out as plain pairs, each correlation ID once.
    pub fn into_entries(self) -> (entries: Vec<(u64, String)>)
        requires
            self.wf(),
        ensures
            keys_unique(entries@.map_values(|e: (u64, String)| (e.0, e.1@))),
            assoc_map(entries@.map_values(|e: (u64, String)| (e.0, e.1@))) == self@,
    {
        let ghost views = self.entry_views();
        let MappingTable { entries } = self;
        proof {
            assert(entries@.map_values(|e: (u64, String)| (e.0, e.1@)) =~= views);
        }
        entries
    }
}

/// With unique keys, the denoted map has exactly one key per pair.
proof fn lemma_assoc_map_len(s: Seq<(u64, Seq<char>)>)
    requires
        keys_unique(s),
    ensures
        assoc_map(s).dom().len() == s.len(),
        assoc_map(s).dom().finite(),
    decreases s.len(),
{
    if s.len() > 0 {
        assert(keys_unique(s.drop_last())) by {
            assert(forall|a: int|
                0 <= a < s.drop_last().len() ==> #[trigger] s.drop_last()[a] == s[a]);
        }
        lemma_assoc_map_len(s.drop_last());
        lemma_assoc_map_dom(s.drop_last());
        assert(!assoc_map(s.drop_last()).dom().contains(s.last().0)) by {
            if assoc_map(s.drop_last()).dom().contains(s.last().0) {
                let w = choose|w: int|
                    0 <= w < s.drop_last().len() && (#[trigger] s.drop_last()[w]).0
                        == s.last().0;
                assert(s[w].0 == s[s.len() - 1].0);
                assert(false);
            }
        }
        assert(assoc_map(s).dom() =~= assoc_map(s.drop_last()).dom().insert(s.last().0));
    }
}

/// One upload task's outcome: on success the correlation ID it was keyed
/// under (when known) and the newly minted asset ID, else the task's final
/// error.
pub type UploadOutcome = Result<(Option<u64>, String), ApiError>;

/// The mapping a sequence of task outcomes folds to: every success with a
/// known correlation ID contributes its pair, later writes winning.
pub open spec fn mapping_of(s: Seq<UploadOutcome>) -> Map<u64, Seq<char>>
    decreases s.len(),
{
    if s.len() == 0 {
        Map::empty()
    } else {
        let rest = mapping_of(s.drop_last());
        match s.last() {
            Ok(pair) => match pair.0 {
                Some(request_id) => rest.insert(request_id, pair.1@),
                None => rest,
            },
            Err(_) => rest,
        }
    }
}

/// The final mapping's key set is deterministic: a correlation ID is
/// mapped exactly when some task succeeded under it, whatever order the
/// tasks finished in.
pub proof fn lemma_mapping_keys(s: Seq<UploadOutcome>)
    ensures
        forall|id: u64|
            mapping_of(s).dom().contains(id) <==> exists|i: int|
                0 <= i < s.len() && ((#[trigger] s[i]) matches Ok(p) && p.0 == Some(id)),
    decreases s.len(),
{
    if s.len() > 0 {
        lemma_mapping_keys(s.drop_last());
        assert forall|id: u64|
            mapping_of(s).dom().contains(id) <==> exists|i: int|
                0 <= i < s.len() && ((#[trigger] s[i]) matches Ok(p) && p.0 == Some(id)) by {
            let succeeded_last = s.last() matches Ok(p) && p.0 == Some(id);
            if mapping_of(s).dom().contains(id) {
                if succeeded_last {
                    assert(s[s.len() - 1] matches Ok(p) && p.0 == Some(id));
                } else {
                    assert(mapping_of(s.drop_last()).dom().contains(id));
                    let i = choose|i: int|
                        0 <= i < s.drop_last().len() && ((#[trigger] s.drop_last()[i]) matches Ok(
                            p,
                        ) && p.0 == Some(id));
                    assert(s.drop_last()[i] == s[i]);
                    assert(s[i] matches Ok(p) && p.0 == Some(id));
                }
            }
            if exists|i: int|
                0 <= i < s.len() && ((#[trigger] s[i]) matches Ok(p) && p.0 == Some(id)) {
                let i = choose|i: int|
                    0 <= i < s.len() && ((#[trigger] s[i]) matches Ok(p) && p.0 == Some(id));
                if i < s.len() - 1 {
                    assert(s.drop_last()[i] == s[i]);
                    assert(exists|w: int|
                        0 <= w < s.drop_last().len() && ((#[trigger] s.drop_last()[w]) matches Ok(
                            p,
                        ) && p.0 == Some(id)));
                    assert(mapping_of(s.drop_last()).dom().contains(id));
                    assert(mapping_of(s).dom().contains(id));
                } else {
                    assert(succeeded_last);
                    assert(mapping_of(s).dom().contains(id));
                }
            }
        }
    }
}

/// The errors a sequence of task outcomes accumulates, in order.
pub open spec fn upload_errors_of(s: Seq<UploadOutcome>) -> Seq<ApiError>
    decreases s.len(),
{
    if s.len() == 0 {
        Seq::empty()
    } else {
        let rest = upload_errors_of(s.drop_last());
        match s.last() {
            Ok(_) => rest,
            Err(e) => rest.push(e),
        }
    }
}

/// Folds every task's outcome into the final mapping and the error list.
/// Each success with a known correlation ID contributes its pair (last
/// write wins); a success without one is dropped; every failure lands in
/// the error list and never disturbs the mapping of the succeeded tasks.
#[verifier::loop_isolation(false)]
pub fn collect_upload_results(outcomes: &Vec<UploadOutcome>) -> (r: (MappingTable, Vec<ApiError>))
    ensures
        r.0.wf(),
        r.0@ =~= mapping_of(outcomes@),
        r.1@ == upload_errors_of(outcomes@),
{
    let mut table = MappingTable::new();
    let mut upload_errors: Vec<ApiError> = Vec::new();
    let mut i: usize = 0;
    while i < outcomes.len()
        invariant
            i <= outcomes@.len(),
            table.wf(),
            table@ =~= mapping_of(outcomes@.take(i as int)),
            upload_errors@ == upload_errors_of(outcomes@.take(i as int)),
        decreases outcomes@.len() - i,
    {
        proof {
            assert(outcomes@.take(i + 1 as int).drop_last() =~= outcomes@.take(i as int));
            assert(outcomes@.take(i + 1 as int).last() == outcomes@[i as int]);
        }
        match &outcomes[i] {
            Ok(pair) => {
                if let Some(request_id) = pair.0 {
                    table.insert(request_id, pair.1.clone());
                }
            },
            Err(e) => {
                upload_errors.push(*e);
            },
        }
        i = i + 1;
    }
    proof {
        assert(outcomes@.take(outcomes@.len() as int) =~= outcomes@);
    }
    (table, upload_errors)
}

} // verus!
