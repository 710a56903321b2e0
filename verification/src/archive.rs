//! The archive builder: retrieved objects become the members of one
//! in-memory zip archive, one member per object, named by its key. The zip
//! writer itself is outside code; its calls stand behind trusted items whose
//! contracts track which members have been written and say exactly when the
//! writer owes success, and the loop that feeds it is verified against them.

use std::io::Write;

use vstd::prelude::*;
use vstd::utf8::encode_utf8;

use crate::common_error::CommonError;
use crate::model::RetrievedObject;

verus! {

/// An in-memory zip writer. Verus sees nothing of the zip crate's types, so
/// the writer is held opaquely; the two spec functions below are its only
/// model.
#[verifier::external_body]
pub struct ArchiveWriter {
    inner: zip::write::ZipWriter<std::io::Cursor<Vec<u8>>>,
}

/// The members a writer has fully written, as (name, bytes) pairs in the
/// order they were started.
pub uninterp spec fn zip_members(w: ArchiveWriter) -> Seq<(Seq<char>, Seq<u8>)>;

/// The member a writer is still writing: its name and the bytes appended so
/// far, or `None` when no member is open.
pub uninterp spec fn zip_open_member(w: ArchiveWriter) -> Option<(Seq<char>, Seq<u8>)>;

/// Whether `bytes` is a zip archive whose members are exactly `members`, in
/// order. The encoding itself (headers, compression, timestamps) is the zip
/// writer's business and is left open here.
pub uninterp spec fn zip_encodes(bytes: Seq<u8>, members: Seq<(Seq<char>, Seq<u8>)>) -> bool;

/// Every member a writer holds, the open one included: what the archive will
/// contain if it is finished now.
pub open spec fn closed_members(w: ArchiveWriter) -> Seq<(Seq<char>, Seq<u8>)> {
    match zip_open_member(w) {
        Some(m) => zip_members(w).push(m),
        None => zip_members(w),
    }
}

/// Whether one member is within the limits under which the writer accepts it
/// outright: its name encodes to at most the format's 16-bit name field, and
/// its byte count stays far enough under the format's 32-bit size fields
/// that the compressor's bookkeeping cannot cross them either.
pub open spec fn member_fits(m: (Seq<char>, Seq<u8>)) -> bool {
    encode_utf8(m.0).len() <= 0xFFFF && m.1.len() <= 0x8000_0000
}

/// Whether the writer owes success on a whole member list: the names are
/// pairwise distinct and every member is within the format's limits.
pub open spec fn archivable(members: Seq<(Seq<char>, Seq<u8>)>) -> bool {
    &&& forall|i: int, j: int|
        #![trigger members[i], members[j]]
        0 <= i < j < members.len() ==> members[i].0 != members[j].0
    &&& forall|i: int| 0 <= i < members.len() ==> member_fits(#[trigger] members[i])
}

/// Relies on zip::ZipWriter::new: a writer over a fresh in-memory cursor
/// holds no members and has none open.
#[verifier::external_body]
fn zip_writer_new() -> (w: ArchiveWriter)
    ensures
        zip_members(w) == Seq::<(Seq<char>, Seq<u8>)>::empty(),
        zip_open_member(w) is None,
{
    ArchiveWriter { inner: zip::write::ZipWriter::new(std::io::Cursor::new(Vec::new())) }
}

/// Relies on zip::ZipWriter::start_file with the crate's default options: it
/// finishes the member being written, if any, and opens a new, empty member
/// under `name`. For this in-memory writer it refuses only a name already in
/// the archive, a name beyond the format's name field, or a finished member
/// beyond the format's size fields: with a fresh name within the limits and
/// every held member within them, success is owed.
#[verifier::external_body]
fn zip_start_member(w: &mut ArchiveWriter, name: &String) -> (r: Result<(), CommonError>)
    ensures
        r is Ok ==> zip_members(*final(w)) == closed_members(*old(w)) && zip_open_member(
            *final(w),
        ) == Some((name@, Seq::<u8>::empty())),
        r matches Err(e) ==> e == CommonError::ArchiveWriteError,
        ({
            &&& forall|k: int|
                0 <= k < closed_members(*old(w)).len() ==> (#[trigger] closed_members(
                    *old(w),
                )[k]).0 != name@
            &&& forall|k: int|
                0 <= k < closed_members(*old(w)).len() ==> member_fits(
                    #[trigger] closed_members(*old(w))[k],
                )
            &&& encode_utf8(name@).len() <= 0xFFFF
        }) ==> r is Ok,
{
    match w.inner.start_file(name.as_str(), zip::write::SimpleFileOptions::default()) {
        Ok(()) => Ok(()),
        Err(_) => Err(CommonError::ArchiveWriteError),
    }
}

/// Relies on the zip writer's std::io::Write::write_all: with a member open,
/// it appends `buf` to that member and touches nothing else. For this
/// in-memory writer it refuses only a member crossing the format's size
/// threshold: while the member stays within the limit, success is owed.
#[verifier::external_body]
fn zip_append_to_member(w: &mut ArchiveWriter, buf: &Vec<u8>) -> (r: Result<(), CommonError>)
    requires
        zip_open_member(*old(w)) is Some,
    ensures
        r is Ok ==> match zip_open_member(*old(w)) {
            Some(m) => zip_members(*final(w)) == zip_members(*old(w)) && zip_open_member(
                *final(w),
            ) == Some((m.0, m.1 + buf@)),
            None => false,
        },
        r matches Err(e) ==> e == CommonError::ArchiveWriteError,
        (zip_open_member(*old(w)) matches Some(m) && m.1.len() + buf@.len() <= 0x8000_0000)
            ==> r is Ok,
{
    match w.inner.write_all(buf.as_slice()) {
        Ok(()) => Ok(()),
        Err(_) => Err(CommonError::ArchiveWriteError),
    }
}

/// Relies on zip::ZipWriter::finish and std::io::Cursor::into_inner: the
/// writer finishes the member still open, if any, writes the archive's
/// closing structures, and hands back the bytes of an archive holding
/// exactly the members written, in order. For this in-memory writer the
/// closing structures always fit (oversized counts and offsets switch to the
/// format's 64-bit records), so with every held member within the limits,
/// success is owed.
#[verifier::external_body]
fn zip_finish(w: ArchiveWriter) -> (r: Result<Vec<u8>, CommonError>)
    ensures
        r matches Ok(bytes) ==> zip_encodes(bytes@, closed_members(w)),
        r matches Err(e) ==> e == CommonError::ArchiveWriteError,
        (forall|k: int|
            0 <= k < closed_members(w).len() ==> member_fits(#[trigger] closed_members(w)[k]))
            ==> r is Ok,
{
    match w.inner.finish() {
        Ok(cursor) => Ok(cursor.into_inner()),
        Err(_) => Err(CommonError::ArchiveWriteError),
    }
}

/// The (name, bytes) pairs the objects contribute as archive members.
pub open spec fn members_of(objs: Seq<RetrievedObject>) -> Seq<(Seq<char>, Seq<u8>)> {
    objs.map_values(|o: RetrievedObject| (o.key@, o.content@))
}

/// Serializes the objects into one zip archive: one member per object, named
/// by the object's key, holding its bytes, in the given order. The writer's
/// refusal of a member (a duplicate key, a name or body beyond the format's
/// limits) is fatal to the whole build; on a member list with pairwise
/// distinct names within the limits, success is owed.
pub fn build_archive(objects: &Vec<RetrievedObject>) -> (r: Result<Vec<u8>, CommonError>)
    ensures
        r matches Ok(bytes) ==> zip_encodes(bytes@, members_of(objects@)),
        r matches Err(e) ==> e == CommonError::ArchiveWriteError,
        archivable(members_of(objects@)) ==> r is Ok,
{
    let ghost all = members_of(objects@);
    let mut writer = zip_writer_new();
    let n: usize = objects.len();
    let mut i: usize = 0;
    while i < n
        invariant
            n == objects@.len(),
            i <= n,
            all == members_of(objects@),
            closed_members(writer) =~= members_of(objects@.take(i as int)),
        decreases n - i,
    {
        let obj = &objects[i];
        let ghost w_pre = writer;
        proof {
            assert(members_of(objects@.take(i as int)) =~= all.take(i as int));
            assert(all[i as int] == (obj.key@, obj.content@));
        }
        match zip_start_member(&mut writer, &obj.key) {
            Ok(()) => (),
            Err(e) => {
                proof {
                    if archivable(all) {
                        assert(member_fits(all[i as int]));
                        assert forall|k: int| 0 <= k < closed_members(w_pre).len() implies (
                        #[trigger] closed_members(w_pre)[k]).0 != obj.key@ && member_fits(
                            closed_members(w_pre)[k],
                        ) by {
                            assert(closed_members(w_pre)[k] == all[k]);
                        }
                        assert(false);
                    }
                }
                return Err(e);
            },
        }
        let ghost w_open = writer;
        match zip_append_to_member(&mut writer, &obj.content) {
            Ok(()) => (),
            Err(e) => {
                proof {
                    if archivable(all) {
                        assert(member_fits(all[i as int]));
                        assert(zip_open_member(w_open) == Some((obj.key@, Seq::<u8>::empty())));
                        assert(false);
                    }
                }
                return Err(e);
            },
        }
        proof {
            assert(members_of(objects@.take(i + 1)) =~= members_of(objects@.take(i as int)).push(
                (objects@[i as int].key@, objects@[i as int].content@),
            ));
        }
        i += 1;
    }
    proof {
        assert(objects@.take(n as int) =~= objects@);
        assert(members_of(objects@.take(n as int)) =~= members_of(objects@));
    }
    let ghost w_done = writer;
    let r = zip_finish(writer);
    proof {
        if archivable(all) {
            assert forall|k: int| 0 <= k < closed_members(w_done).len() implies member_fits(
                #[trigger] closed_members(w_done)[k],
            ) by {
                assert(closed_members(w_done)[k] == all[k]);
            }
        }
    }
    r
}

} // verus!
