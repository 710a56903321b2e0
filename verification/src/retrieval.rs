//! The retrieval layer's decisions. The concurrent fan-out itself is outside
//! work; what is verified here is which keys are handed to it and how its
//! per-key reports are folded into retrieved objects: a failed fetch is
//! absorbed as an empty body rather than failing the batch.

use vstd::prelude::*;

use crate::model::absorbed_content;
use crate::model::FetchReport;
use crate::model::RetrievalOutcome;
use crate::model::RetrievedObject;
use crate::strutil::vec_contains_string;
use crate::strutil::views_of;

verus! {

/// The candidates that were also requested, in candidate order.
pub open spec fn requested_subset(candidates: Seq<Seq<char>>, requested: Seq<Seq<char>>) -> Seq<
    Seq<char>,
>
    decreases candidates.len(),
{
    if candidates.len() == 0 {
        Seq::<Seq<char>>::empty()
    } else {
        let prev = requested_subset(candidates.drop_last(), requested);
        if requested.contains(candidates.last()) {
            prev.push(candidates.last())
        } else {
            prev
        }
    }
}

/// The requested keys that are not among the candidates, in request order.
pub open spec fn missing_keys(requested: Seq<Seq<char>>, candidates: Seq<Seq<char>>) -> Seq<
    Seq<char>,
>
    decreases requested.len(),
{
    if requested.len() == 0 {
        Seq::<Seq<char>>::empty()
    } else {
        let prev = missing_keys(requested.drop_last(), candidates);
        if !candidates.contains(requested.last()) {
            prev.push(requested.last())
        } else {
            prev
        }
    }
}

/// Splits the listed candidates against an explicit request: the first part
/// is the candidates that were requested, ready for the fan-out; the second
/// is the requested keys that do not exist under the prefix. A candidate the
/// caller never asked for lands in neither.
pub fn partition_requested(candidates: &Vec<String>, requested: &Vec<String>) -> (r: (
    Vec<String>,
    Vec<String>,
))
    ensures
        views_of(r.0@) == requested_subset(views_of(candidates@), views_of(requested@)),
        views_of(r.1@) == missing_keys(views_of(requested@), views_of(candidates@)),
{
    let mut to_fetch: Vec<String> = Vec::new();
    let n: usize = candidates.len();
    let mut i: usize = 0;
    while i < n
        invariant
            n == candidates@.len(),
            i <= n,
            views_of(to_fetch@) == requested_subset(
                views_of(candidates@.take(i as int)),
                views_of(requested@),
            ),
        decreases n - i,
    {
        proof {
            assert(views_of(candidates@.take(i + 1)).drop_last() =~= views_of(
                candidates@.take(i as int),
            ));
            assert(views_of(candidates@.take(i + 1)).last() == candidates@[i as int]@);
        }
        if vec_contains_string(requested, &candidates[i]) {
            let ghost old_seq = to_fetch@;
            to_fetch.push(candidates[i].clone());
            assert(views_of(to_fetch@) =~= views_of(old_seq).push(candidates@[i as int]@));
        }
        i += 1;
    }
    assert(candidates@.take(n as int) =~= candidates@);

    let mut not_found: Vec<String> = Vec::new();
    let m: usize = requested.len();
    let mut j: usize = 0;
    while j < m
        invariant
            m == requested@.len(),
            j <= m,
            views_of(not_found@) == missing_keys(
                views_of(requested@.take(j as int)),
                views_of(candidates@),
            ),
        decreases m - j,
    {
        proof {
            assert(views_of(requested@.take(j + 1)).drop_last() =~= views_of(
                requested@.take(j as int),
            ));
            assert(views_of(requested@.take(j + 1)).last() == requested@[j as int]@);
        }
        if !vec_contains_string(candidates, &requested[j]) {
            let ghost old_seq = not_found@;
            not_found.push(requested[j].clone());
            assert(views_of(not_found@) =~= views_of(old_seq).push(requested@[j as int]@));
        }
        j += 1;
    }
    assert(requested@.take(m as int) =~= requested@);

    (to_fetch, not_found)
}

/// Folds the fan-out's per-key reports into retrieved objects, in the order
/// the reports arrived: every report yields exactly one object under its own
/// key, and a failed fetch is absorbed as an empty body.
pub fn absorb_fetch_reports(reports: Vec<FetchReport>) -> (objs: Vec<RetrievedObject>)
    ensures
        objs@.len() == reports@.len(),
        forall|i: int|
            0 <= i < reports@.len() ==> (#[trigger] objs@[i]).key@ == reports@[i].key@
                && objs@[i].content@ == absorbed_content(reports@[i].content),
{
    let ghost orig = reports@;
    let mut rest = reports;
    let mut objs: Vec<RetrievedObject> = Vec::new();
    while rest.len() > 0
        invariant
            orig.len() == objs@.len() + rest@.len(),
            rest@ == orig.subrange(objs@.len() as int, orig.len() as int),
            forall|i: int|
                0 <= i < objs@.len() ==> (#[trigger] objs@[i]).key@ == orig[i].key@
                    && objs@[i].content@ == absorbed_content(orig[i].content),
        decreases rest@.len(),
    {
        let report = rest.remove(0);
        assert(report == orig[objs@.len() as int]);
        let content: Vec<u8> = match report.content {
            Some(c) => c,
            None => Vec::new(),
        };
        objs.push(RetrievedObject { key: report.key, content });
        assert(rest@ =~= orig.subrange(objs@.len() as int, orig.len() as int));
    }
    objs
}

/// Packs the by-subset retrieval's two halves into one outcome: the
/// fan-out's reports folded into objects, and the requested keys that were
/// never under the prefix, kept exactly as the partition produced them.
pub fn collect_retrieval_outcome(reports: Vec<FetchReport>, not_found: Vec<String>) -> (r:
    RetrievalOutcome)
    ensures
        r.found@.len() == reports@.len(),
        forall|i: int|
            0 <= i < reports@.len() ==> (#[trigger] r.found@[i]).key@ == reports@[i].key@
                && r.found@[i].content@ == absorbed_content(reports@[i].content),
        r.not_found == not_found,
{
    RetrievalOutcome { found: absorb_fetch_reports(reports), not_found }
}

} // verus!
