//! The key lister: from the raw entries of a store listing it keeps the
//! direct children of the normalized path that fit the size bound, strips the
//! path prefix off their keys, and enforces the key-count quota.

use vstd::prelude::*;
use vstd::string::StrSliceExecFns;
use vstd::string::StringExecFns;

use crate::common_error::CommonError;
use crate::model::ListedKey;
use crate::model::RetrievalPolicy;
use crate::paths::norm_path;
use crate::paths::sanitize_path;
use crate::strutil::str_contains_char;
use crate::strutil::str_has_prefix;
use crate::strutil::views_of;

verus! {

/// The prefix a listing is requested under: the normal form of the path,
/// closed by a separator.
pub open spec fn listing_prefix(path: Seq<char>) -> Seq<char> {
    norm_path(path).push('/')
}

/// The key with the listing prefix stripped off.
pub open spec fn child_suffix(key: Seq<char>, path: Seq<char>) -> Seq<char> {
    key.subrange(listing_prefix(path).len() as int, key.len() as int)
}

/// Whether a listed entry survives the filter: its key carries the listing
/// prefix, its size is under the bound, and what is left of the key after the
/// prefix names a direct child, not a deeper path.
pub open spec fn entry_qualifies(key: Seq<char>, size: int, path: Seq<char>, max_size: int) -> bool {
    &&& listing_prefix(path).is_prefix_of(key)
    &&& size < max_size
    &&& !child_suffix(key, path).contains('/')
}

/// The stripped keys of the qualifying entries, in listing order.
pub open spec fn qualifying_keys(entries: Seq<ListedKey>, path: Seq<char>, max_size: int) -> Seq<Seq<char>>
    decreases entries.len(),
{
    if entries.len() == 0 {
        Seq::<Seq<char>>::empty()
    } else {
        let prev = qualifying_keys(entries.drop_last(), path, max_size);
        let e = entries.last();
        if entry_qualifies(e.key@, e.size_bytes as int, path, max_size) {
            prev.push(child_suffix(e.key@, path))
        } else {
            prev
        }
    }
}

/// Filters the entries of one listing and enforces the quota: the result is
/// exactly the stripped keys of the qualifying entries, in listing order,
/// unless they outnumber `policy.max_key_count`, which fails the listing.
pub fn filter_key_list(entries: &Vec<ListedKey>, path: &String, policy: &RetrievalPolicy) -> (r: Result<
    Vec<String>,
    CommonError,
>)
    ensures
        ({
            let keys = qualifying_keys(entries@, path@, policy.max_object_size_bytes as int);
            match r {
                Ok(ks) => views_of(ks@) == keys && keys.len() <= policy.max_key_count,
                Err(e) => e == CommonError::QuotaExceeded && keys.len() > policy.max_key_count,
            }
        }),
{
    let sanitized: String = sanitize_path(path.clone());
    let prefix: String = sanitized.concat("/");
    proof {
        reveal_strlit("/");
        assert(prefix@ =~= listing_prefix(path@));
    }
    let prefix_len: usize = prefix.as_str().unicode_len();

    let mut out: Vec<String> = Vec::new();
    let mut i: usize = 0;
    let n: usize = entries.len();
    while i < n
        invariant
            n == entries@.len(),
            i <= n,
            prefix@ == listing_prefix(path@),
            prefix_len == prefix@.len(),
            views_of(out@) == qualifying_keys(
                entries@.take(i as int),
                path@,
                policy.max_object_size_bytes as int,
            ),
        decreases n - i,
    {
        let e = &entries[i];
        if e.size_bytes < policy.max_object_size_bytes && str_has_prefix(
            e.key.as_str(),
            prefix.as_str(),
        ) {
            let key_len: usize = e.key.as_str().unicode_len();
            let suffix: &str = e.key.as_str().substring_char(prefix_len, key_len);
            assert(suffix@ =~= child_suffix(e.key@, path@));
            if !str_contains_char(suffix, '/') {
                let ghost old_out = out@;
                out.push(suffix.to_owned());
                assert(views_of(out@) =~= views_of(old_out).push(suffix@));
            }
        }
        proof {
            assert(entries@.take(i + 1).drop_last() =~= entries@.take(i as int));
            assert(entries@.take(i + 1).last() == entries@[i as int]);
        }
        i += 1;
    }
    assert(entries@.take(n as int) =~= entries@);

    if out.len() > policy.max_key_count {
        Err(CommonError::QuotaExceeded)
    } else {
        Ok(out)
    }
}

/// The listing step as the pipeline sees it: `listing` is what the store
/// call produced, `None` standing for a store-side failure, which becomes
/// `StoreAccessError`; entries are filtered and the quota enforced as in
/// [`filter_key_list`].
pub fn list_keys(listing: Option<Vec<ListedKey>>, path: &String, policy: &RetrievalPolicy) -> (r: Result<
    Vec<String>,
    CommonError,
>)
    ensures
        ({
            match listing {
                None => r matches Err(e) && e == CommonError::StoreAccessError,
                Some(entries) => {
                    let keys = qualifying_keys(entries@, path@, policy.max_object_size_bytes as int);
                    match r {
                        Ok(ks) => views_of(ks@) == keys && keys.len() <= policy.max_key_count,
                        Err(e) => e == CommonError::QuotaExceeded && keys.len()
                            > policy.max_key_count,
                    }
                },
            }
        }),
{
    match listing {
        None => Err(CommonError::StoreAccessError),
        Some(entries) => filter_key_list(&entries, path, policy),
    }
}

/// Every key a listing returns names a direct child: it came off a qualifying
/// entry, so its size was under the bound and its stripped key holds no
/// separator.
pub proof fn lemma_qualifying_keys_sound(entries: Seq<ListedKey>, path: Seq<char>, max_size: int)
    ensures
        forall|j: int|
            0 <= j < qualifying_keys(entries, path, max_size).len() ==> exists|i: int|
                0 <= i < entries.len() && entry_qualifies(
                    entries[i].key@,
                    entries[i].size_bytes as int,
                    path,
                    max_size,
                ) && #[trigger] qualifying_keys(entries, path, max_size)[j] == child_suffix(
                    entries[i].key@,
                    path,
                ),
        forall|j: int|
            0 <= j < qualifying_keys(entries, path, max_size).len() ==> !(
            #[trigger] qualifying_keys(entries, path, max_size)[j]).contains('/'),
    decreases entries.len(),
{
    if entries.len() > 0 {
        lemma_qualifying_keys_sound(entries.drop_last(), path, max_size);
        let prev = qualifying_keys(entries.drop_last(), path, max_size);
        let whole = qualifying_keys(entries, path, max_size);
        assert forall|j: int| 0 <= j < whole.len() implies exists|i: int|
            0 <= i < entries.len() && entry_qualifies(
                entries[i].key@,
                entries[i].size_bytes as int,
                path,
                max_size,
            ) && #[trigger] whole[j] == child_suffix(entries[i].key@, path) by {
            if j < prev.len() {
                let i = choose|i: int|
                    0 <= i < entries.drop_last().len() && entry_qualifies(
                        entries.drop_last()[i].key@,
                        entries.drop_last()[i].size_bytes as int,
                        path,
                        max_size,
                    ) && prev[j] == child_suffix(entries.drop_last()[i].key@, path);
                assert(entries.drop_last()[i] == entries[i]);
                assert(whole[j] == prev[j]);
            } else {
                let i = entries.len() - 1;
                assert(entries.last() == entries[i]);
            }
        }
    }
}

} // verus!
