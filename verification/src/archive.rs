//! The archive codecs the extractors rely on: tar containers and gzip
//! streams, consumed as pure functions from bytes to values through trusted
//! wrappers around the `tar` and `flate2` crates.

use vstd::prelude::*;

verus! {

/// An extraction that failed: the bytes did not decode as the expected
/// container or stream, or the container did not hold the expected entry.
#[derive(Clone, Copy, Debug, PartialEq, Eq, Structural)]
pub enum ExtractError {
    /// The bytes could not be read as a tar archive.
    TarDecode,
    /// The bytes could not be read as a gzip stream.
    GzipDecode,
    /// The outer container holds no inner archive entry.
    InnerArchiveMissing,
    /// An extracted entry could not be written out. The extraction functions
    /// here never produce it: it is reported by the process that materializes
    /// their output on disk.
    WriteFailed,
}

/// One entry of an archive, or one file to place: a path and its content.
#[derive(Debug)]
pub struct FileEntry {
    pub path: String,
    pub data: Vec<u8>,
}

impl View for FileEntry {
    type V = (Seq<char>, Seq<u8>);

    open spec fn view(&self) -> (Seq<char>, Seq<u8>) {
        (self.path@, self.data@)
    }
}

impl DeepView for FileEntry {
    type V = (Seq<char>, Seq<u8>);

    open spec fn deep_view(&self) -> (Seq<char>, Seq<u8>) {
        self@
    }
}

/// The entries of a tar archive, in order, each as its path and content; or
/// nothing, when the bytes are not a well-formed archive.
pub uninterp spec fn untar_of(b: Seq<u8>) -> Option<Seq<(Seq<char>, Seq<u8>)>>;

/// The inflation of a gzip stream; or nothing, when the bytes are not a
/// well-formed stream.
pub uninterp spec fn gunzip_of(b: Seq<u8>) -> Option<Seq<u8>>;

/// Relies on `tar::Archive::entries` over an in-memory reader: it yields the
/// archive's entries in order; `tar::Entry::path_bytes` gives an entry's raw
/// path bytes and reading an entry to its end gives its content. On a byte
/// slice the outcome is a function of the bytes alone.
#[verifier::external_body]
pub(crate) fn untar(bytes: &Vec<u8>) -> (r: Result<Vec<FileEntry>, ExtractError>)
    ensures
        match r {
            Ok(v) => untar_of(bytes@) == Some(v.deep_view()),
            Err(e) => untar_of(bytes@) is None && e == ExtractError::TarDecode,
        },
{
    let mut archive = tar::Archive::new(bytes.as_slice());
    let entries = archive.entries().map_err(|_| ExtractError::TarDecode)?;
    let mut out: Vec<FileEntry> = Vec::new();
    for entry in entries {
        let mut entry = entry.map_err(|_| ExtractError::TarDecode)?;
        let path = String::from_utf8_lossy(&entry.path_bytes()).into_owned();
        let mut data: Vec<u8> = Vec::new();
        std::io::Read::read_to_end(&mut entry, &mut data).map_err(|_| ExtractError::TarDecode)?;
        out.push(FileEntry { path, data });
    }
    Ok(out)
}

/// Relies on `flate2::read::MultiGzDecoder`: reading it to the end inflates
/// the gzip members of the input into the decompressed bytes. On a byte
/// slice the outcome is a function of the bytes alone.
#[verifier::external_body]
pub(crate) fn gunzip(bytes: &Vec<u8>) -> (r: Result<Vec<u8>, ExtractError>)
    ensures
        match r {
            Ok(v) => gunzip_of(bytes@) == Some(v@),
            Err(e) => gunzip_of(bytes@) is None && e == ExtractError::GzipDecode,
        },
{
    let mut decoder = flate2::read::MultiGzDecoder::new(bytes.as_slice());
    let mut out: Vec<u8> = Vec::new();
    match std::io::Read::read_to_end(&mut decoder, &mut out) {
        Ok(_) => Ok(out),
        Err(_) => Err(ExtractError::GzipDecode),
    }
}

} // verus!
