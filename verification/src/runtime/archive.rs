//! Reading release archives in memory: gzip streams through `flate2`, zip
//! archives through `zip`. What the two crates make of a byte string is
//! named, not restated; the choices made on the results are the callers'.

use vstd::prelude::*;

verus! {

/// What `flate2`'s `GzDecoder` reads out of `data`, or `None` when
/// decoding fails.
pub uninterp spec fn gunzip(data: Seq<u8>) -> Option<Seq<u8>>;

/// The entry names of the zip archive `data` (`None` for an entry that
/// cannot be opened), or `None` when it is no zip archive.
pub uninterp spec fn zip_names(data: Seq<u8>) -> Option<Seq<Option<Seq<char>>>>;

/// The contents of entry `index` of the zip archive `data`, or `None` when
/// the archive, the entry or its data cannot be read.
pub uninterp spec fn zip_entry(data: Seq<u8>, index: nat) -> Option<Seq<u8>>;

/// The names as plain values.
pub open spec fn name_views(names: Seq<Option<String>>) -> Seq<Option<Seq<char>>> {
    names.map_values(|o: Option<String>| match o {
        Some(s) => Some(s@),
        None => None,
    })
}

/// `flate2::read::GzDecoder` read to its end: the decoded bytes, or `None`
/// on a decoding error. The result is named, a function of `data` alone.
#[verifier::external_body]
pub fn gunzip_bytes(data: &[u8]) -> (r: Option<Vec<u8>>)
    ensures
        r is None <==> gunzip(data@) is None,
        r matches Some(v) ==> gunzip(data@) == Some(v@),
{
    let mut buf = Vec::new();
    std::io::Read::read_to_end(&mut flate2::read::GzDecoder::new(data), &mut buf).ok()?;
    Some(buf)
}

/// `zip::ZipArchive::new`, then each entry's `by_index(..).name()`: the
/// names in archive order, or `None` when the archive cannot be opened.
#[verifier::external_body]
pub fn zip_entry_names(data: &[u8]) -> (r: Option<Vec<Option<String>>>)
    ensures
        r is None <==> zip_names(data@) is None,
        r matches Some(v) ==> zip_names(data@) == Some(name_views(v@)),
{
    let mut archive = zip::ZipArchive::new(std::io::Cursor::new(data)).ok()?;
    Some((0..archive.len()).map(|i| archive.by_index(i).ok().map(|e| e.name().to_string())).collect())
}

/// `zip::ZipArchive::new`, `by_index(index)`, then the entry read to its
/// end: its contents, or `None` when any of these fails.
#[verifier::external_body]
pub fn zip_entry_bytes(data: &[u8], index: usize) -> (r: Option<Vec<u8>>)
    ensures
        r is None <==> zip_entry(data@, index as nat) is None,
        r matches Some(v) ==> zip_entry(data@, index as nat) == Some(v@),
{
    let mut archive = zip::ZipArchive::new(std::io::Cursor::new(data)).ok()?;
    let mut entry = archive.by_index(index).ok()?;
    let mut buf = Vec::new();
    std::io::Read::read_to_end(&mut entry, &mut buf).ok()?;
    Some(buf)
}

} // verus!
