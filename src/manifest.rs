//! From the fetched manifest blob to the bytes of the image list.

use vstd::prelude::*;
use crate::cipher::{decrypt_payload, key_of, xor_with_key, PREAMBLE_LEN};
use crate::error::BiliMangaError;

verus! {

/// The decompressed content of the first entry of a zip archive, or `None`
/// when the bytes are no readable archive or hold no entry.
pub uninterp spec fn zip_first_entry(archive: Seq<u8>) -> Option<Seq<u8>>;

/// Relies on `zip::ZipArchive::new` and `ZipArchive::by_index(0)`, read to
/// its end: the first entry of an in-memory archive depends on its bytes
/// alone.
#[verifier::external_body]
fn read_first_entry(data: Vec<u8>) -> (r: Result<Vec<u8>, zip::result::ZipError>)
    ensures
        match r {
            Ok(v) => zip_first_entry(data@) == Some(v@),
            Err(_) => zip_first_entry(data@) is None,
        },
{
    let mut archive = zip::ZipArchive::new(std::io::Cursor::new(data))?;
    let mut entry = archive.by_index(0)?;
    let mut out: Vec<u8> = Vec::new();
    std::io::Read::read_to_end(&mut entry, &mut out)?;
    Ok(out)
}

/// The first entry of the decrypted archive.
pub fn extract_image_index(data: Vec<u8>) -> (r: Result<Vec<u8>, BiliMangaError>)
    ensures
        match r {
            Ok(v) => zip_first_entry(data@) == Some(v@),
            Err(e) => e is ZipError && zip_first_entry(data@) is None,
        },
{
    match read_first_entry(data) {
        Ok(v) => Ok(v),
        Err(e) => Err(BiliMangaError::ZipError(e)),
    }
}

/// The archive that a fetched manifest blob carries: the blob without its
/// preamble, decrypted with the episode's key.
pub open spec fn archive_of(raw: Seq<u8>, episode_id: i64, manga_id: i64) -> Seq<u8> {
    xor_with_key(raw.subrange(PREAMBLE_LEN as int, raw.len() as int), key_of(episode_id, manga_id))
}

/// The JSON text of an episode's image list, taken from the fetched blob:
/// preamble dropped, the rest decrypted, the first archive entry read.
pub fn decode_image_index(raw: &Vec<u8>, episode_id: i64, manga_id: i64) -> (r: Result<
    Vec<u8>,
    BiliMangaError,
>)
    ensures
        raw@.len() < PREAMBLE_LEN ==> r matches Err(BiliMangaError::TruncatedIndex),
        raw@.len() >= PREAMBLE_LEN ==> match r {
            Ok(v) => zip_first_entry(archive_of(raw@, episode_id, manga_id)) == Some(v@),
            Err(e) => e is ZipError && zip_first_entry(archive_of(raw@, episode_id, manga_id)) is None,
        },
{
    match decrypt_payload(raw, episode_id, manga_id) {
        None => Err(BiliMangaError::TruncatedIndex),
        Some(archive) => extract_image_index(archive),
    }
}

} // verus!
