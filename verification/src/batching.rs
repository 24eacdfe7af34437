use vstd::prelude::*;

verus! {

/// Maximum number of asset IDs submitted to the remote metadata query in
/// one request.
pub const BATCH_SIZE: usize = 250;

/// One entry of a metadata-query payload. The remote API correlates each
/// answer with its question through `request_id`, so both fields carry the
/// same asset ID.
#[derive(Clone, Copy, Debug, PartialEq, Eq, Structural)]
pub struct BatchPayload {
    pub asset_id: u64,
    pub request_id: u64,
}

/// The views of a sequence of chunks.
pub open spec fn chunk_views(chunks: Seq<Vec<u64>>) -> Seq<Seq<u64>> {
    chunks.map_values(|c: Vec<u64>| c@)
}

/// Splits the asset IDs into consecutive chunks for the batch API.
///
/// No chunk exceeds `BATCH_SIZE`, no chunk is empty, and the concatenation
/// of the chunks is exactly the input: every ID appears exactly once, in
/// its original position.
pub fn chunk_asset_ids(asset_ids: &Vec<u64>) -> (chunks: Vec<Vec<u64>>)
    ensures
        chunk_views(chunks@).flatten() == asset_ids@,
        forall|k: int|
            0 <= k < chunks@.len() ==> 1 <= #[trigger] chunks@[k]@.len() <= BATCH_SIZE,
{
    let mut chunks: Vec<Vec<u64>> = Vec::new();
    let mut i: usize = 0;
    while i < asset_ids.len()
        invariant
            i <= asset_ids@.len(),
            chunk_views(chunks@).flatten() == asset_ids@.take(i as int),
            forall|k: int|
                0 <= k < chunks@.len() ==> 1 <= #[trigger] chunks@[k]@.len() <= BATCH_SIZE,
        decreases asset_ids@.len() - i,
    {
        let remaining = asset_ids.len() - i;
        let end = if remaining >= BATCH_SIZE {
            i + BATCH_SIZE
        } else {
            asset_ids.len()
        };
        let mut chunk: Vec<u64> = Vec::new();
        let mut j: usize = i;
        while j < end
            invariant
                i <= j <= end <= asset_ids@.len(),
                chunk@ == asset_ids@.subrange(i as int, j as int),
            decreases end - j,
        {
            chunk.push(asset_ids[j]);
            assert(chunk@ =~= asset_ids@.subrange(i as int, j + 1 as int));
            j = j + 1;
        }
        let ghost old_chunks = chunks@;
        chunks.push(chunk);
        proof {
            broadcast use Seq::lemma_flatten_push;

            assert(chunk_views(chunks@) =~= chunk_views(old_chunks).push(
                asset_ids@.subrange(i as int, end as int),
            ));
            assert(chunk_views(chunks@).flatten() =~= asset_ids@.take(end as int));
        }
        i = end;
    }
    proof {
        assert(asset_ids@.take(asset_ids@.len() as int) =~= asset_ids@);
    }
    chunks
}

/// Creates batch payloads from asset IDs.
///
/// Each payload carries the asset ID both as the queried asset and as the
/// correlation identifier, in input order.
pub fn create_batch_payloads(asset_ids: &Vec<u64>) -> (payloads: Vec<BatchPayload>)
    ensures
        payloads@.len() == asset_ids@.len(),
        forall|k: int|
            0 <= k < payloads@.len() ==> #[trigger] payloads@[k] == (BatchPayload {
                asset_id: asset_ids@[k],
                request_id: asset_ids@[k],
            }),
{
    let mut payloads: Vec<BatchPayload> = Vec::new();
    let mut i: usize = 0;
    while i < asset_ids.len()
        invariant
            i <= asset_ids@.len(),
            payloads@.len() == i,
            forall|k: int|
                0 <= k < i ==> #[trigger] payloads@[k] == (BatchPayload {
                    asset_id: asset_ids@[k],
                    request_id: asset_ids@[k],
                }),
        decreases asset_ids@.len() - i,
    {
        let id = asset_ids[i];
        payloads.push(BatchPayload { asset_id: id, request_id: id });
        i = i + 1;
    }
    payloads
}

/// The deduplication of a sequence: each value kept at its first
/// occurrence, later repetitions dropped.
pub open spec fn dedup_of(s: Seq<u64>) -> Seq<u64>
    decreases s.len(),
{
    if s.len() == 0 {
        Seq::empty()
    } else {
        let rest = dedup_of(s.drop_last());
        if rest.contains(s.last()) {
            rest
        } else {
            rest.push(s.last())
        }
    }
}

/// Drops repeated asset IDs, keeping the first occurrence of each and the
/// order of first occurrences.
pub fn dedup_ids(asset_ids: &Vec<u64>) -> (unique: Vec<u64>)
    ensures
        unique@ == dedup_of(asset_ids@),
{
    let mut unique: Vec<u64> = Vec::new();
    let mut i: usize = 0;
    while i < asset_ids.len()
        invariant
            i <= asset_ids@.len(),
            unique@ == dedup_of(asset_ids@.take(i as int)),
        decreases asset_ids@.len() - i,
    {
        let id = asset_ids[i];
        let seen = contains_id(&unique, id);
        if !seen {
            unique.push(id);
        }
        proof {
            assert(asset_ids@.take(i + 1 as int).drop_last() =~= asset_ids@.take(i as int));
        }
        i = i + 1;
    }
    proof {
        assert(asset_ids@.take(asset_ids@.len() as int) =~= asset_ids@);
    }
    unique
}

/// Linear membership test on a vector of IDs.
pub fn contains_id(ids: &Vec<u64>, id: u64) -> (r: bool)
    ensures
        r == ids@.contains(id),
{
    let mut i: usize = 0;
    while i < ids.len()
        invariant
            i <= ids@.len(),
            forall|k: int| 0 <= k < i ==> ids@[k] != id,
        decreases ids@.len() - i,
    {
        if ids[i] == id {
            return true;
        }
        i = i + 1;
    }
    false
}

/// Deduplication never invents or loses an ID: the result holds exactly
/// the values of the input, each once.
pub proof fn lemma_dedup_same_values(s: Seq<u64>)
    ensures
        forall|x: u64| dedup_of(s).contains(x) <==> s.contains(x),
        forall|i: int, j: int|
            0 <= i < j < dedup_of(s).len() ==> dedup_of(s)[i] != dedup_of(s)[j],
    decreases s.len(),
{
    if s.len() > 0 {
        lemma_dedup_same_values(s.drop_last());
        assert forall|x: u64| dedup_of(s).contains(x) <==> s.contains(x) by {
            let rest = dedup_of(s.drop_last());
            if s.contains(x) {
                let w = choose|w: int| 0 <= w < s.len() && s[w] == x;
                if w < s.len() - 1 {
                    assert(s.drop_last().contains(x)) by {
                        assert(s.drop_last()[w] == x);
                    }
                }
                assert(dedup_of(s).contains(x)) by {
                    if rest.contains(x) {
                        if !rest.contains(s.last()) {
                            let u = choose|u: int| 0 <= u < rest.len() && rest[u] == x;
                            assert(dedup_of(s)[u] == x);
                        }
                    } else {
                        assert(x == s.last());
                        assert(dedup_of(s).last() == x);
                    }
                }
            }
            if dedup_of(s).contains(x) {
                let w = choose|w: int| 0 <= w < dedup_of(s).len() && dedup_of(s)[w] == x;
                if rest.contains(s.last()) || w < rest.len() {
                    assert(rest[w] == x);
                    assert(s.drop_last().contains(x));
                    let u = choose|u: int| 0 <= u < s.drop_last().len() && s.drop_last()[u] == x;
                    assert(s[u] == x);
                } else {
                    assert(x == s.last());
                }
            }
        }
        assert forall|i: int, j: int|
            0 <= i < j < dedup_of(s).len() implies dedup_of(s)[i] != dedup_of(s)[j] by {
            let rest = dedup_of(s.drop_last());
            if !rest.contains(s.last()) {
                if j == rest.len() {
                    assert(dedup_of(s)[i] == rest[i]);
                    assert(rest.contains(rest[i]));
                }
            }
        }
    }
}

} // verus!
