//! Reading the entries of an asset archive (a ZIP file held in memory), and the names
//! that the loader derives from an entry's path.
use std::io::Read;
use vstd::prelude::*;

verus! {

/// Number of entries of the ZIP archive made of these bytes; `None` when `zip` cannot
/// read the bytes as an archive.
pub uninterp spec fn zip_entry_count(archive: Seq<u8>) -> Option<usize>;

/// Entry `index` of the ZIP archive made of these bytes: whether it is a plain file, its
/// path inside the archive and its uncompressed content; `None` when `zip` cannot read
/// the archive, the entry, its name or its content.
pub uninterp spec fn zip_entry(archive: Seq<u8>, index: usize) -> Option<(bool, Seq<char>, Seq<u8>)>;

/// What `Path::file_stem` gives for a path, as text.
pub uninterp spec fn path_file_stem(path: Seq<char>) -> Option<Seq<char>>;

/// What `Path::extension` gives for a path, as text.
pub uninterp spec fn path_extension(path: Seq<char>) -> Option<Seq<char>>;

/// `zip::ZipArchive::new` over the bytes, then `len`: the number of entries of the archive,
/// or `None` when `zip` refuses the bytes.
#[verifier::external_body]
pub(crate) fn archive_entry_count(archive: &[u8]) -> (count: Option<usize>)
    ensures
        count == zip_entry_count(archive@),
{
    zip::ZipArchive::new(std::io::Cursor::new(archive)).ok().map(|zip| zip.len())
}

/// `zip::ZipArchive::new` over the bytes, then `by_index(index)`, and of that entry
/// `is_file`, `name` and `read_to_end`; `None` when any of these fails.
#[verifier::external_body]
pub(crate) fn archive_entry(archive: &[u8], index: usize) -> (entry: Option<(bool, String, Vec<u8>)>)
    ensures
        match entry {
            Some((is_file, name, data)) => zip_entry(archive@, index) == Some((is_file, name@, data@)),
            None => zip_entry(archive@, index) is None,
        },
{
    let mut zip = zip::ZipArchive::new(std::io::Cursor::new(archive)).ok()?;
    let mut file = zip.by_index(index).ok()?;
    let is_file = file.is_file();
    let name = file.name().ok()?.to_string();
    let mut data = Vec::new();
    file.read_to_end(&mut data).ok()?;
    Some((is_file, name, data))
}

/// `std::path::Path::file_stem` of a path, as a `String`.
#[verifier::external_body]
pub(crate) fn file_stem(path: &str) -> (stem: Option<String>)
    ensures
        match stem {
            Some(stem) => path_file_stem(path@) == Some(stem@),
            None => path_file_stem(path@) is None,
        },
{
    std::path::Path::new(path).file_stem().and_then(|stem| stem.to_str()).map(|stem| stem.to_string())
}

/// `std::path::Path::extension` of a path, as a `String`.
#[verifier::external_body]
pub(crate) fn file_extension(path: &str) -> (extension: Option<String>)
    ensures
        match extension {
            Some(extension) => path_extension(path@) == Some(extension@),
            None => path_extension(path@) is None,
        },
{
    std::path::Path::new(path).extension().and_then(|extension| extension.to_str()).map(
        |extension| extension.to_string(),
    )
}

} // verus!
