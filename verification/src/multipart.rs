use vstd::prelude::*;
use vstd::multiset::Multiset;
use vstd::string::*;

use crate::result::{Error, ErrorKind, ErrorView, SdkFailure, error_of, sdk_error};
use crate::root::{code_is, no_such_bucket_text};
use crate::text::opt_text;

verus! {

pub open spec fn no_such_upload_text() -> Seq<char> {
    "The specified multipart upload does not exist"@
}

pub open spec fn missing_upload_id_text() -> Seq<char> {
    "Failed to get multipart upload id"@
}

/// What a failed request on a multipart upload becomes: a missing upload or
/// bucket is reported as such, any other failure as the S3 SDK reported it.
pub open spec fn upload_error(code: Option<Seq<char>>, failure: SdkFailure) -> ErrorView {
    if code == Some("NoSuchUpload"@) {
        error_of(no_such_upload_text(), ErrorKind::Main)
    } else if code == Some("NoSuchBucket"@) {
        error_of(no_such_bucket_text(), ErrorKind::Main)
    } else {
        sdk_error(failure@)
    }
}

/// The error for a failed completion or abort of a multipart upload, given the
/// error code of the S3 service error, if the failure was one and carried a
/// code.
pub fn multipart_exists(code: Option<String>, failure: SdkFailure) -> (e: Error)
    ensures
        e@ == upload_error(opt_text(code), failure),
{
    proof {
        reveal_strlit("NoSuchUpload");
        reveal_strlit("NoSuchBucket");
    }
    if code_is(&code, "NoSuchUpload") {
        Error::msg("The specified multipart upload does not exist")
    } else if code_is(&code, "NoSuchBucket") {
        Error::msg("The specified bucket does not exist")
    } else {
        Error::from_sdk(failure)
    }
}

/// The ID of a started upload; an answer without one is an error.
pub fn upload_id_or_error(upload_id: Option<String>) -> (r: Result<String, Error>)
    ensures
        upload_id matches Some(id) ==> (r matches Ok(s) && s@ == id@),
        upload_id is None ==> (r matches Err(e) && e@ == error_of(missing_upload_id_text(), ErrorKind::Main)),
{
    match upload_id {
        Some(id) => Ok(id),
        None => Err(Error::msg("Failed to get multipart upload id")),
    }
}

/// The part numbers URIs are signed for: `count` consecutive numbers from
/// `start`, none when `count` is not positive.
pub fn part_numbers(start: i32, count: i32) -> (r: Vec<i32>)
    requires
        count <= 0 || start + count - 1 <= i32::MAX,
    ensures
        count <= 0 ==> r@.len() == 0,
        count > 0 ==> r@.len() == count,
        forall|k: int| 0 <= k < r@.len() ==> #[trigger] r@[k] == start + k,
{
    let mut r: Vec<i32> = Vec::new();
    let mut i: i32 = 0;
    while i < count
        invariant
            count <= 0 || start + count - 1 <= i32::MAX,
            0 <= i,
            count > 0 ==> i <= count,
            count <= 0 ==> i == 0,
            r@.len() == i,
            forall|k: int| 0 <= k < r@.len() ==> #[trigger] r@[k] == start + k,
        decreases count - i,
    {
        r.push(start + i);
        i = i + 1;
    }
    r
}

/// A part of an upload, as the caller reports it to complete the upload.
pub struct CompletePart {
    pub part_number: i32,
    pub e_tag: String,
}

/// A pre-signed URI for uploading one part.
pub struct SignedPart {
    pub part_number: i32,
    pub uri: String,
}

/// The signed parts of an upload, and when their URIs expire.
pub struct UriResponse {
    pub parts: Vec<SignedPart>,
    pub expires_at: String,
}

/// Parts listed by ascending part number.
pub open spec fn ascending_parts(s: Seq<SignedPart>) -> bool {
    forall|i: int, j: int| 0 <= i < j < s.len() ==> #[trigger] s[i].part_number <= #[trigger] s[j].part_number
}

/// Lists signed parts by ascending part number; parts with the same number
/// keep no particular order.
pub fn order_parts(parts: Vec<SignedPart>) -> (r: Vec<SignedPart>)
    ensures
        ascending_parts(r@),
        r@.to_multiset() == parts@.to_multiset(),
{
    broadcast use vstd::seq_lib::group_to_multiset_ensures;
    let ghost all = parts@;
    let mut out: Vec<SignedPart> = Vec::new();
    let mut rest = parts;
    proof {
        assert(out@.to_multiset() =~= Multiset::<SignedPart>::empty());
    }
    while rest.len() > 0
        invariant
            ascending_parts(out@),
            out@.to_multiset().add(rest@.to_multiset()) == all.to_multiset(),
        decreases rest@.len(),
    {
        let ghost before = rest@;
        let p = rest.pop().unwrap();
        proof {
            assert(before =~= rest@.push(p));
        }
        let mut j: usize = 0;
        while j < out.len() && out[j].part_number <= p.part_number
            invariant
                j <= out@.len(),
                forall|k: int| 0 <= k < j ==> #[trigger] out@[k].part_number <= p.part_number,
            decreases out@.len() - j,
        {
            j = j + 1;
        }
        let ghost old_out = out@;
        out.insert(j, p);
        proof {
            assert(out@ =~= old_out.insert(j as int, p));
            assert forall|a: int, b: int| 0 <= a < b < out@.len() implies
                #[trigger] out@[a].part_number <= #[trigger] out@[b].part_number by {
                if j < old_out.len() {
                    assert(old_out[j as int].part_number > p.part_number);
                }
                if a < j && b > j {
                    assert(out@[a] == old_out[a]);
                    assert(out@[b] == old_out[b - 1]);
                } else if a == j && b > j {
                    assert(out@[b] == old_out[b - 1]);
                    assert(old_out[j as int].part_number <= old_out[b - 1].part_number);
                } else if b == j {
                    assert(out@[a] == old_out[a]);
                } else if b < j {
                    assert(out@[a] == old_out[a] && out@[b] == old_out[b]);
                } else {
                    assert(out@[a] == old_out[a - 1] && out@[b] == old_out[b - 1]);
                }
            }
            vstd::seq_lib::to_multiset_insert(old_out, j as int, p);
            vstd::seq_lib::to_multiset_build(rest@, p);
            assert(out@.to_multiset() == old_out.to_multiset().insert(p));
            assert(before.to_multiset() == rest@.to_multiset().insert(p));
            assert(out@.to_multiset().add(rest@.to_multiset()) =~= all.to_multiset());
        }
    }
    proof {
        assert(rest@.to_multiset() =~= Multiset::<SignedPart>::empty());
        assert(out@.to_multiset().add(rest@.to_multiset()) =~= out@.to_multiset());
    }
    out
}

/// The signed parts among the outcomes of signing, in the outcomes' order.
pub open spec fn signed_parts(results: Seq<Result<SignedPart, Error>>) -> Seq<SignedPart> {
    results.map_values(|r: Result<SignedPart, Error>| r->Ok_0)
}

/// Gathers the outcomes of signing the parts: if every one succeeded, all
/// the parts, listed by ascending part number; else the first failure among
/// them.
pub fn collect_parts(results: Vec<Result<SignedPart, Error>>) -> (r: Result<Vec<SignedPart>, Error>)
    ensures
        (forall|i: int| 0 <= i < results@.len() ==> #[trigger] results@[i] is Ok) ==> (r matches Ok(parts)
            && ascending_parts(parts@)
            && parts@.to_multiset() == signed_parts(results@).to_multiset()),
        (exists|i: int| 0 <= i < results@.len() && #[trigger] results@[i] is Err) ==> (r matches Err(e)
            && exists|i: int| 0 <= i < results@.len() && #[trigger] results@[i] == Err::<SignedPart, Error>(e)
                && forall|j: int| 0 <= j < i ==> #[trigger] results@[j] is Ok),
{
    let ghost all = results@;
    let mut parts: Vec<SignedPart> = Vec::new();
    let mut rest = results;
    let mut taken: usize = 0;
    let n: usize = rest.len();
    while rest.len() > 0
        invariant
            all == results@,
            n == all.len(),
            taken + rest@.len() == all.len(),
            rest@ == all.skip(taken as int),
            parts@.len() == taken,
            forall|i: int| 0 <= i < taken ==> all[i] == Ok::<SignedPart, Error>(#[trigger] parts@[i]),
        decreases rest@.len(),
    {
        let item = rest.remove(0);
        assert(item == all[taken as int]);
        match item {
            Ok(p) => {
                parts.push(p);
            },
            Err(e) => {
                assert(all[taken as int] == Err::<SignedPart, Error>(e));
                assert forall|j: int| 0 <= j < taken implies #[trigger] all[j] is Ok by {
                    assert(all[j] == Ok::<SignedPart, Error>(parts@[j]));
                }
                return Err(e);
            },
        }
        taken = taken + 1;
        assert(rest@ =~= all.skip(taken as int));
    }
    assert(forall|i: int| 0 <= i < all.len() ==> #[trigger] all[i] is Ok) by {
        assert forall|i: int| 0 <= i < all.len() implies #[trigger] all[i] is Ok by {
            assert(all[i] == Ok::<SignedPart, Error>(parts@[i]));
        }
    }
    assert(parts@ =~= signed_parts(all)) by {
        assert forall|i: int| 0 <= i < all.len() implies #[trigger] parts@[i] == signed_parts(all)[i] by {
            assert(all[i] == Ok::<SignedPart, Error>(parts@[i]));
        }
    }
    Ok(order_parts(parts))
}

} // verus!
