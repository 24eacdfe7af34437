use vstd::prelude::*;

verus! {

/// The answer of the remote metadata query for one asset: a per-asset
/// error indicator, the correlation identifier the query was tagged with
/// (the asset ID, when the service echoed a parseable one), and, on
/// success, an optional download location.
#[derive(Clone, Debug)]
pub struct MetadataRecord {
    pub request_id: Option<u64>,
    pub has_error: bool,
    pub location: Option<String>,
}

/// An exact copy of an optional string.
fn clone_opt_string(s: &Option<String>) -> (r: Option<String>)
    ensures
        r == *s,
{
    match s {
        Some(v) => Some(v.clone()),
        None => None,
    }
}

/// An exact copy of one metadata record.
pub fn copy_record(m: &MetadataRecord) -> (r: MetadataRecord)
    ensures
        r == *m,
{
    MetadataRecord {
        request_id: m.request_id,
        has_error: m.has_error,
        location: clone_opt_string(&m.location),
    }
}

/// The records of a batch answer that carry no per-asset error, in order.
pub open spec fn successes_of(s: Seq<MetadataRecord>) -> Seq<MetadataRecord>
    decreases s.len(),
{
    if s.len() == 0 {
        Seq::empty()
    } else {
        let rest = successes_of(s.drop_last());
        if !s.last().has_error {
            rest.push(s.last())
        } else {
            rest
        }
    }
}

/// The correlation IDs of the erroring records of a batch answer that carry
/// a parseable correlation ID, in order.
pub open spec fn failed_ids_of(s: Seq<MetadataRecord>) -> Seq<u64>
    decreases s.len(),
{
    if s.len() == 0 {
        Seq::empty()
    } else {
        let rest = failed_ids_of(s.drop_last());
        if s.last().has_error && s.last().request_id is Some {
            rest.push(s.last().request_id->0)
        } else {
            rest
        }
    }
}

/// Partitions a batch answer: exactly the records without a per-asset
/// error go to the success side, and every erroring record with a
/// parseable correlation ID routes that ID to context resolution. Erroring
/// records without a correlation ID are dropped.
pub fn process_batch_responses(responses: &Vec<MetadataRecord>) -> (r: (
    Vec<MetadataRecord>,
    Vec<u64>,
))
    ensures
        r.0@ == successes_of(responses@),
        r.1@ == failed_ids_of(responses@),
{
    let mut successes: Vec<MetadataRecord> = Vec::new();
    let mut failed_ids: Vec<u64> = Vec::new();
    let mut i: usize = 0;
    while i < responses.len()
        invariant
            i <= responses@.len(),
            successes@ == successes_of(responses@.take(i as int)),
            failed_ids@ == failed_ids_of(responses@.take(i as int)),
        decreases responses@.len() - i,
    {
        proof {
            assert(responses@.take(i + 1 as int).drop_last() =~= responses@.take(i as int));
            assert(responses@.take(i + 1 as int).last() == responses@[i as int]);
        }
        let record = &responses[i];
        if !record.has_error {
            successes.push(copy_record(record));
        } else if let Some(request_id) = record.request_id {
            failed_ids.push(request_id);
        }
        i = i + 1;
    }
    proof {
        assert(responses@.take(responses@.len() as int) =~= responses@);
    }
    (successes, failed_ids)
}

/// Keeps exactly the records of a reconciliation answer that now report no
/// error; the rest stay failed and are dropped from the success set.
pub fn filter_resolved(responses: &Vec<MetadataRecord>) -> (kept: Vec<MetadataRecord>)
    ensures
        kept@ == successes_of(responses@),
{
    let mut kept: Vec<MetadataRecord> = Vec::new();
    let mut i: usize = 0;
    while i < responses.len()
        invariant
            i <= responses@.len(),
            kept@ == successes_of(responses@.take(i as int)),
        decreases responses@.len() - i,
    {
        proof {
            assert(responses@.take(i + 1 as int).drop_last() =~= responses@.take(i as int));
            assert(responses@.take(i + 1 as int).last() == responses@[i as int]);
        }
        let record = &responses[i];
        if !record.has_error {
            kept.push(copy_record(record));
        }
        i = i + 1;
    }
    proof {
        assert(responses@.take(responses@.len() as int) =~= responses@);
    }
    kept
}

/// Whether a sequence of records holds one whose correlation ID is `id`.
pub open spec fn has_request_id(s: Seq<MetadataRecord>, id: u64) -> bool {
    exists|k: int| 0 <= k < s.len() && s[k].request_id == Some(id)
}

/// The record sequence with later repetitions of a correlation ID dropped,
/// together with records that carry no correlation ID at all.
pub open spec fn dedup_records_of(s: Seq<MetadataRecord>) -> Seq<MetadataRecord>
    decreases s.len(),
{
    if s.len() == 0 {
        Seq::empty()
    } else {
        let rest = dedup_records_of(s.drop_last());
        let m = s.last();
        if m.request_id is Some && !has_request_id(rest, m.request_id->0) {
            rest.push(m)
        } else {
            rest
        }
    }
}

/// Drops every record without a correlation ID and every record whose
/// correlation ID was already seen earlier, keeping first occurrences in
/// order. Gathered metadata may name the same asset twice (it can be
/// referenced from several places); only the first record is uploaded.
pub fn dedup_by_request_id(records: &Vec<MetadataRecord>) -> (unique: Vec<MetadataRecord>)
    ensures
        unique@ == dedup_records_of(records@),
{
    let mut unique: Vec<MetadataRecord> = Vec::new();
    let mut seen: Vec<u64> = Vec::new();
    let mut i: usize = 0;
    while i < records.len()
        invariant
            i <= records@.len(),
            unique@ == dedup_records_of(records@.take(i as int)),
            forall|id: u64| seen@.contains(id) <==> has_request_id(unique@, id),
        decreases records@.len() - i,
    {
        proof {
            assert(records@.take(i + 1 as int).drop_last() =~= records@.take(i as int));
            assert(records@.take(i + 1 as int).last() == records@[i as int]);
        }
        let record = &records[i];
        let ghost old_unique = unique@;
        let ghost old_seen = seen@;
        match record.request_id {
            Some(id) => {
                if !crate::batching::contains_id(&seen, id) {
                    unique.push(copy_record(record));
                    seen.push(id);
                    proof {
                        assert forall|x: u64| seen@.contains(x) <==> has_request_id(
                            unique@,
                            x,
                        ) by {
                            if seen@.contains(x) {
                                let k = choose|k: int|
                                    0 <= k < seen@.len() && seen@[k] == x;
                                if k < old_seen.len() {
                                    assert(old_seen[k] == x);
                                    assert(old_seen.contains(x));
                                    assert(has_request_id(old_unique, x));
                                    let w = choose|w: int|
                                        0 <= w < old_unique.len() && old_unique[w].request_id
                                            == Some(x);
                                    assert(unique@[w].request_id == Some(x));
                                } else {
                                    assert(unique@.last().request_id == Some(x));
                                }
                            }
                            if has_request_id(unique@, x) {
                                let k = choose|k: int|
                                    0 <= k < unique@.len() && unique@[k].request_id == Some(
                                        x,
                                    );
                                if k < old_unique.len() {
                                    assert(old_unique[k].request_id == Some(x));
                                    assert(old_seen.contains(x));
                                    let w = choose|w: int|
                                        0 <= w < old_seen.len() && old_seen[w] == x;
                                    assert(seen@[w] == x);
                                } else {
                                    assert(seen@.last() == x);
                                }
                            }
                        }
                    }
                }
            },
            None => {},
        }
        i = i + 1;
    }
    proof {
        assert(records@.take(records@.len() as int) =~= records@);
    }
    unique
}

} // verus!
