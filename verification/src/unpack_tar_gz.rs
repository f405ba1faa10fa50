//! Unpacks a package's inner archive: a gzip-compressed tar stream holding
//! the package's file tree. Each entry is assigned its destination path
//! under the installation directory, and an entry whose file name is
//! exactly `Gemfile` is remembered as the package's embedded manifest (the
//! last such entry wins).

use vstd::prelude::*;
use vstd::string::*;

use crate::archive::{gunzip, gunzip_of, untar, untar_of, ExtractError, FileEntry};
use crate::text::{file_name, join_path, spec_file_name, spec_join};

verus! {

/// The file name that marks an embedded manifest.
pub open spec fn spec_embedded_manifest_name() -> Seq<char> {
    "Gemfile"@
}

/// Each entry moved to its destination: the installation directory joined
/// with the entry's path.
pub open spec fn spec_dest_files(entries: Seq<(Seq<char>, Seq<u8>)>, dir: Seq<char>) -> Seq<
    (Seq<char>, Seq<u8>),
> {
    entries.map_values(|e: (Seq<char>, Seq<u8>)| (spec_join(dir, e.0), e.1))
}

/// The destination of the last entry whose file name is exactly `Gemfile`,
/// or nothing when no entry has that file name.
pub open spec fn spec_find_manifest(entries: Seq<(Seq<char>, Seq<u8>)>, dir: Seq<char>) -> Option<
    Seq<char>,
>
    decreases entries.len(),
{
    if entries.len() == 0 {
        None
    } else if spec_file_name(entries.last().0) == spec_embedded_manifest_name() {
        Some(spec_join(dir, entries.last().0))
    } else {
        spec_find_manifest(entries.drop_last(), dir)
    }
}

/// What unpacking an inner archive into `dir` yields: every file of the
/// package tree at its destination, and the discovered manifest; or the
/// error naming what went wrong.
pub open spec fn spec_unpack_tar_gz(b: Seq<u8>, dir: Seq<char>) -> Result<
    (Seq<(Seq<char>, Seq<u8>)>, Option<Seq<char>>),
    ExtractError,
> {
    match gunzip_of(b) {
        None => Err(ExtractError::GzipDecode),
        Some(tar_bytes) => match untar_of(tar_bytes) {
            None => Err(ExtractError::TarDecode),
            Some(entries) => Ok(
                (spec_dest_files(entries, dir), spec_find_manifest(entries, dir)),
            ),
        },
    }
}

/// The outcome of unpacking an inner archive: every file of the package's
/// tree at its destination path, and the destination of the embedded
/// manifest when one was found.
#[derive(Debug)]
pub struct UnpackOutcome {
    pub files: Vec<FileEntry>,
    pub gemfile_path: Option<String>,
}

impl View for UnpackOutcome {
    type V = (Seq<(Seq<char>, Seq<u8>)>, Option<Seq<char>>);

    open spec fn view(&self) -> (Seq<(Seq<char>, Seq<u8>)>, Option<Seq<char>>) {
        (self.files.deep_view(), self.gemfile_path.deep_view())
    }
}

/// Assigns every entry of the package's tree its destination under
/// `directory` and finds the embedded manifest: the last entry whose file
/// name is exactly `Gemfile`, at its destination.
pub fn place_entries(entries: Vec<FileEntry>, directory: &str) -> (r: UnpackOutcome)
    ensures
        r@ == (
            spec_dest_files(entries.deep_view(), directory@),
            spec_find_manifest(entries.deep_view(), directory@),
        ),
{
    let mut entries = entries;
    let ghost all = entries.deep_view();
    let manifest_name = String::from_str("Gemfile");
    let mut files: Vec<FileEntry> = Vec::new();
    let mut gemfile: Option<String> = None;
    let mut i: usize = 0;
    let total = entries.len();
    proof {
        assert(all.len() == total);
        assert(all.take(0) =~= Seq::<(Seq<char>, Seq<u8>)>::empty());
        assert(all.skip(0) =~= all);
        assert(files.deep_view() =~~= spec_dest_files(all.take(0), directory@));
    }
    while entries.len() > 0
        invariant
            i + entries.len() == all.len(),
            all.len() <= usize::MAX,
            entries.deep_view() == all.skip(i as int),
            manifest_name@ == spec_embedded_manifest_name(),
            files.deep_view() == spec_dest_files(all.take(i as int), directory@),
            gemfile matches Some(p) ==> spec_find_manifest(all.take(i as int), directory@)
                == Some(p@),
            gemfile is None ==> spec_find_manifest(all.take(i as int), directory@) is None,
        decreases entries.len(),
    {
        proof {
            assert(entries.deep_view()[0] == entries@[0]@);
            assert(all.skip(i as int)[0] == all[i as int]);
            assert(all.take(i as int + 1).drop_last() =~= all.take(i as int));
            assert(all.take(i as int + 1).last() == all[i as int]);
        }
        let ghost prev_entries = entries.deep_view();
        let ghost prev_vec = entries@;
        let ghost prev_files = files.deep_view();
        let e = entries.remove(0);
        proof {
            assert(entries@ =~= prev_vec.drop_first());
            assert forall|k: int| 0 <= k < entries@.len() implies entries.deep_view()[k]
                == all.skip(i as int + 1)[k] by {
                assert(entries.deep_view()[k] == entries@[k]@);
                assert(entries@[k] == prev_vec[k + 1]);
                assert(prev_entries[k + 1] == prev_vec[k + 1]@);
                assert(prev_entries[k + 1] == all.skip(i as int)[k + 1]);
                assert(all.skip(i as int)[k + 1] == all[i as int + 1 + k]);
                assert(all.skip(i as int + 1)[k] == all[i as int + 1 + k]);
            }
            assert(entries.deep_view() =~~= all.skip(i as int + 1));
        }
        let dest = join_path(directory, e.path.as_str());
        let fname = file_name(e.path.as_str());
        if fname == manifest_name {
            gemfile = Some(dest.clone());
        }
        let placed = FileEntry { path: dest, data: e.data };
        let ghost placed_model = placed@;
        files.push(placed);
        proof {
            assert(files.deep_view() =~~= prev_files.push(placed_model));
            assert(files.deep_view() =~~= spec_dest_files(all.take(i as int + 1), directory@));
        }
        i = i + 1;
    }
    proof {
        assert(all.take(i as int) =~= all);
    }
    let r = UnpackOutcome { files, gemfile_path: gemfile };
    proof {
        assert(r@ == (spec_dest_files(all, directory@), spec_find_manifest(all, directory@)));
    }
    r
}

/// Inflates the gzip stream in `tar_gz` and unpacks the tar archive inside:
/// each entry becomes a file to place at `directory/`its path, and the last
/// entry whose file name is exactly `Gemfile` is reported as the embedded
/// manifest. Fails when either decode fails.
pub fn unpack_tar_gz(tar_gz: &Vec<u8>, directory: &str) -> (r: Result<UnpackOutcome, ExtractError>)
    ensures
        match r {
            Ok(out) => spec_unpack_tar_gz(tar_gz@, directory@) == Ok::<
                (Seq<(Seq<char>, Seq<u8>)>, Option<Seq<char>>),
                ExtractError,
            >(out@),
            Err(e) => spec_unpack_tar_gz(tar_gz@, directory@) == Err::<
                (Seq<(Seq<char>, Seq<u8>)>, Option<Seq<char>>),
                ExtractError,
            >(e),
        },
{
    let tar_bytes = match gunzip(tar_gz) {
        Ok(b) => b,
        Err(e) => {
            return Err(e);
        },
    };
    let entries = match untar(&tar_bytes) {
        Ok(es) => es,
        Err(e) => {
            return Err(e);
        },
    };
    Ok(place_entries(entries, directory))
}

} // verus!
