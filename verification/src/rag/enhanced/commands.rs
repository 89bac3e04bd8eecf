//! Uploads: which files are taken, and how a file is known again.

use crate::digest::{sha256_digest_hex, sha256_hex};
use crate::text::{contains, is_prefix, occurs_in, same_text, starts_with, texts};
use vstd::prelude::*;
use vstd::string::StringSliceAdditionalSpecFns;

verus! {

/// The hash by which a file is known again: the SHA-256 digest of its
/// content followed by its name.
pub open spec fn spec_content_hash(file_content: Seq<u8>, file_name: Seq<u8>) -> Seq<char> {
    sha256_hex(file_content + file_name)
}

/// The hash by which a file is known again.
pub fn content_hash(file_content: &[u8], file_name: &str) -> (r: String)
    ensures
        r@ == spec_content_hash(file_content@, file_name.spec_bytes()),
{
    let mut data: Vec<u8> = Vec::new();
    data.extend_from_slice(file_content);
    data.extend_from_slice(file_name.as_bytes());
    assert(data@ =~= file_content@ + file_name.spec_bytes());
    sha256_digest_hex(data.as_slice())
}

/// Index of the first stored document with the given hash, if any: the
/// document of which an upload would be a duplicate.
pub fn find_duplicate(stored_hashes: &Vec<String>, hash: &str) -> (r: Option<usize>)
    ensures
        match r {
            Some(i) => i < stored_hashes@.len() && stored_hashes@[i as int]@ == hash@ && forall|
                j: int,
            |
                0 <= j < i ==> (#[trigger] stored_hashes@[j])@ != hash@,
            None => forall|j: int|
                0 <= j < stored_hashes@.len() ==> (#[trigger] stored_hashes@[j])@ != hash@,
        },
{
    let mut i: usize = 0;
    while i < stored_hashes.len()
        invariant
            i <= stored_hashes.len(),
            forall|j: int| 0 <= j < i ==> (#[trigger] stored_hashes@[j])@ != hash@,
        decreases stored_hashes.len() - i,
    {
        if same_text(stored_hashes[i].as_str(), hash) {
            return Some(i);
        }
        i += 1;
    }
    None
}

/// Whether a file of the given media type is taken: a type that names one
/// of the supported ones, or any kind of text.
pub open spec fn spec_type_valid(file_type: Seq<char>) -> bool {
    occurs_in("text/plain"@, file_type) || occurs_in("application/pdf"@, file_type) || occurs_in(
        "text/markdown"@,
        file_type,
    ) || occurs_in("application/msword"@, file_type) || occurs_in(
        "application/vnd.openxmlformats-officedocument.wordprocessingml.document"@,
        file_type,
    ) || is_prefix("text/"@, file_type)
}

/// Whether a file of the given media type is taken.
pub fn type_valid(file_type: &str) -> (r: bool)
    ensures
        r == spec_type_valid(file_type@),
{
    contains(file_type, "text/plain") || contains(file_type, "application/pdf") || contains(
        file_type,
        "text/markdown",
    ) || contains(file_type, "application/msword") || contains(
        file_type,
        "application/vnd.openxmlformats-officedocument.wordprocessingml.document",
    ) || starts_with(file_type, "text/")
}

/// How many of the statuses are the given one.
pub open spec fn spec_count_status(statuses: Seq<Seq<char>>, wanted: Seq<char>) -> nat
    decreases statuses.len(),
{
    if statuses.len() == 0 {
        0
    } else {
        spec_count_status(statuses.drop_last(), wanted) + if statuses.last() == wanted {
            1nat
        } else {
            0nat
        }
    }
}

/// How many documents have the given embedding status.
pub fn count_status(statuses: &Vec<String>, wanted: &str) -> (r: usize)
    ensures
        r == spec_count_status(texts(statuses@), wanted@),
{
    let ghost all = texts(statuses@);
    let mut count: usize = 0;
    let mut i: usize = 0;
    assert(all.subrange(0, 0) =~= Seq::<Seq<char>>::empty());
    while i < statuses.len()
        invariant
            i <= statuses.len(),
            all == texts(statuses@),
            count <= i,
            count == spec_count_status(all.subrange(0, i as int), wanted@),
        decreases statuses.len() - i,
    {
        let ghost prefix = all.subrange(0, i + 1);
        assert(prefix.drop_last() =~= all.subrange(0, i as int));
        assert(prefix.last() == statuses@[i as int]@);
        if same_text(statuses[i].as_str(), wanted) {
            count += 1;
        }
        i += 1;
    }
    assert(all.subrange(0, statuses.len() as int) =~= all);
    count
}

} // verus!
