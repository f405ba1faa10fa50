//! Unpacks a package's outer archive: a plain, uncompressed tar container
//! wrapping the package payload. The payload is the single well-known inner
//! archive entry `data.tar.gz`; everything else in the container is
//! metadata.

use vstd::prelude::*;
use vstd::string::*;

use crate::archive::{untar, untar_of, ExtractError, FileEntry};

verus! {

/// The well-known name of the inner archive inside the outer container.
pub open spec fn spec_inner_archive_name() -> Seq<char> {
    "data.tar.gz"@
}

/// The content of the last entry named `data.tar.gz`, or nothing when no
/// entry has that name.
pub open spec fn spec_find_inner(entries: Seq<(Seq<char>, Seq<u8>)>) -> Option<Seq<u8>>
    decreases entries.len(),
{
    if entries.len() == 0 {
        None
    } else if entries.last().0 == spec_inner_archive_name() {
        Some(entries.last().1)
    } else {
        spec_find_inner(entries.drop_last())
    }
}

/// What unpacking an outer archive yields: the bytes of its inner archive,
/// or the error naming what went wrong.
pub open spec fn spec_unpack_gem(b: Seq<u8>) -> Result<Seq<u8>, ExtractError> {
    match untar_of(b) {
        None => Err(ExtractError::TarDecode),
        Some(entries) => match spec_find_inner(entries) {
            Some(data) => Ok(data),
            None => Err(ExtractError::InnerArchiveMissing),
        },
    }
}

/// Picks the inner archive out of the outer container's entries: the
/// content of the last entry named `data.tar.gz`, or the error saying that
/// no entry has that name.
pub fn find_inner_archive(entries: Vec<FileEntry>) -> (r: Result<Vec<u8>, ExtractError>)
    ensures
        match r {
            Ok(data) => spec_find_inner(entries.deep_view()) == Some(data@),
            Err(e) => spec_find_inner(entries.deep_view()) is None && e
                == ExtractError::InnerArchiveMissing,
        },
{
    let mut entries = entries;
    let ghost es = entries.deep_view();
    let target = String::from_str("data.tar.gz");
    let mut found: Option<usize> = None;
    let mut i: usize = 0;
    proof {
        assert(es.take(0) =~= Seq::<(Seq<char>, Seq<u8>)>::empty());
    }
    while i < entries.len()
        invariant
            i <= entries.len(),
            entries.deep_view() == es,
            target@ == spec_inner_archive_name(),
            found matches Some(j) ==> j < i && spec_find_inner(es.take(i as int)) == Some(
                es[j as int].1,
            ),
            found is None ==> spec_find_inner(es.take(i as int)) is None,
        decreases entries.len() - i,
    {
        proof {
            assert(es.take(i as int + 1).drop_last() =~= es.take(i as int));
            assert(es.take(i as int + 1).last() == es[i as int]);
            assert(es[i as int] == entries@[i as int]@);
        }
        if entries[i].path == target {
            found = Some(i);
        }
        i = i + 1;
    }
    proof {
        assert(es.take(entries@.len() as int) =~= es);
    }
    match found {
        Some(j) => {
            let entry = entries.swap_remove(j);
            Ok(entry.data)
        },
        None => Err(ExtractError::InnerArchiveMissing),
    }
}

/// Unpacks the outer container held in `gem_bytes` and returns the content
/// of its entry named `data.tar.gz` (the last such entry, if several); fails
/// when the container cannot be decoded or holds no such entry.
pub fn unpack_gem(gem_bytes: &Vec<u8>) -> (r: Result<Vec<u8>, ExtractError>)
    ensures
        match r {
            Ok(data) => spec_unpack_gem(gem_bytes@) == Ok::<Seq<u8>, ExtractError>(data@),
            Err(e) => spec_unpack_gem(gem_bytes@) == Err::<Seq<u8>, ExtractError>(e),
        },
{
    let entries = match untar(gem_bytes) {
        Ok(es) => es,
        Err(e) => {
            return Err(e);
        },
    };
    find_inner_archive(entries)
}

} // verus!
