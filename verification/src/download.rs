//! The download orchestrator's decisions: validating write-side inputs,
//! composing a full store key, and turning the fan-out's reports into the
//! final archive payload. The listing and fetch calls themselves happen at
//! the boundary; everything they feed into or come out of is verified here.

use vstd::prelude::*;
use vstd::string::StringExecFns;

use crate::archive::archivable;
use crate::archive::build_archive;
use crate::archive::members_of;
use crate::archive::zip_encodes;
use crate::common_error::CommonError;
use crate::listing::listing_prefix;
use crate::model::absorbed_content;
use crate::model::ArchivePayload;
use crate::model::FetchReport;
use crate::paths::sanitize_path;
use crate::retrieval::absorb_fetch_reports;

verus! {

/// The archive filename every successful download is served under.
pub open spec fn export_filename() -> Seq<char> {
    "s3-export.zip"@
}

/// The members the archive of a download holds, one per fetch report, in
/// report order: the report's key names the member, and a failed fetch
/// contributes an empty body.
pub open spec fn archive_members(reports: Seq<FetchReport>) -> Seq<(Seq<char>, Seq<u8>)> {
    reports.map_values(|rep: FetchReport| (rep.key@, absorbed_content(rep.content)))
}

/// Rejects a write-side operation whose bucket, path, key or body is empty;
/// accepts it otherwise.
pub fn validate_put_inputs(
    bucket_name: &String,
    path: &String,
    s3_key: &String,
    s3_key_content: &Vec<u8>,
) -> (r: Result<(), CommonError>)
    ensures
        r is Ok <==> bucket_name@.len() > 0 && path@.len() > 0 && s3_key@.len() > 0
            && s3_key_content@.len() > 0,
        r matches Err(e) ==> e == CommonError::InvalidInput,
{
    if bucket_name.as_str().is_empty() || path.as_str().is_empty() || s3_key.as_str().is_empty()
        || s3_key_content.len() == 0 {
        Err(CommonError::InvalidInput)
    } else {
        Ok(())
    }
}

/// The full store key of one object: the normalized path, a separator, and
/// the object's key under the path.
pub fn object_key(path: &String, s3_key: &String) -> (r: String)
    ensures
        r@ == listing_prefix(path@) + s3_key@,
{
    let with_sep: String = sanitize_path(path.clone()).concat("/");
    proof {
        reveal_strlit("/");
        assert(with_sep@ =~= listing_prefix(path@));
    }
    with_sep.concat(s3_key.as_str())
}

/// The tail of the download: the fan-out's reports are folded into objects
/// (a failed fetch becoming an empty member) and serialized into the export
/// archive, served under the fixed export filename. Only the archive writer
/// can refuse, its refusal fails the whole download, and on a report list
/// whose keys are pairwise distinct and within the archive format's limits
/// success is owed: a per-key fetch failure alone never fails a download.
pub fn complete_download(reports: Vec<FetchReport>) -> (r: Result<ArchivePayload, CommonError>)
    ensures
        r matches Ok(p) ==> p.filename@ == export_filename() && zip_encodes(
            p.content@,
            archive_members(reports@),
        ),
        r matches Err(e) ==> e == CommonError::ArchiveWriteError,
        archivable(archive_members(reports@)) ==> r is Ok,
{
    let ghost reports_view = reports@;
    let objects = absorb_fetch_reports(reports);
    proof {
        assert(members_of(objects@) =~~= archive_members(reports_view));
    }
    match build_archive(&objects) {
        Ok(bytes) => Ok(
            ArchivePayload { filename: String::from_str("s3-export.zip"), content: bytes },
        ),
        Err(e) => Err(e),
    }
}

/// Mapping a sequence element by element respects permutation: two sequences
/// holding the same elements with the same multiplicities still do after the
/// map.
proof fn lemma_map_values_permutation<A, B>(s1: Seq<A>, s2: Seq<A>, f: spec_fn(A) -> B)
    requires
        s1.to_multiset() == s2.to_multiset(),
    ensures
        s1.map_values(f).to_multiset() == s2.map_values(f).to_multiset(),
    decreases s1.len(),
{
    broadcast use vstd::seq_lib::group_to_multiset_ensures;
    broadcast use vstd::multiset::group_multiset_axioms;

    if s1.len() == 0 {
        assert(s1.to_multiset().len() == s1.len());
        assert(s2.to_multiset().len() == s2.len());
        assert(s2.len() == 0);
        assert(s1.map_values(f) =~= s2.map_values(f));
    } else {
        let x = s1.last();
        assert(s1 =~= s1.drop_last().push(x));
        assert(s1.to_multiset() =~= s1.drop_last().to_multiset().insert(x));
        assert(s2.to_multiset().count(x) > 0);
        assert(s2.contains(x));
        let j = choose|j: int| 0 <= j < s2.len() && s2[j] == x;
        assert(s2.remove(j).to_multiset() =~= s2.to_multiset().remove(x));
        assert(s1.drop_last().to_multiset() =~= s2.remove(j).to_multiset());
        lemma_map_values_permutation(s1.drop_last(), s2.remove(j), f);
        assert(s1.map_values(f) =~= s1.drop_last().map_values(f).push(f(x)));
        assert(s1.map_values(f).to_multiset() =~= s1.drop_last().map_values(f).to_multiset().insert(
            f(x),
        ));
        assert(s2.remove(j).map_values(f) =~= s2.map_values(f).remove(j));
        assert(s2.map_values(f).remove(j).to_multiset() =~= s2.map_values(f).to_multiset().remove(
            f(x),
        ));
        assert(s2.map_values(f).to_multiset().count(f(x)) > 0) by {
            assert(s2.map_values(f)[j] == f(x));
            assert(s2.map_values(f).contains(f(x)));
        }
        assert(s2.map_values(f).to_multiset().remove(f(x)).insert(f(x)) =~= s2.map_values(
            f,
        ).to_multiset());
        assert(s1.map_values(f).to_multiset() =~= s2.map_values(f).to_multiset());
    }
}

/// Repeating a download against an unchanged store fetches the same per-key
/// results, though the fan-out may deliver them in another order: whenever
/// two report sequences are permutations of one another, the archives built
/// from them hold the same member set, member for member and byte for byte.
pub proof fn lemma_download_members_stable(r1: Seq<FetchReport>, r2: Seq<FetchReport>)
    requires
        r1.to_multiset() == r2.to_multiset(),
    ensures
        archive_members(r1).to_multiset() == archive_members(r2).to_multiset(),
{
    lemma_map_values_permutation(
        r1,
        r2,
        |rep: FetchReport| (rep.key@, absorbed_content(rep.content)),
    );
}

} // verus!
