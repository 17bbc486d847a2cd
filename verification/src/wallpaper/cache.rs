//! Wallpaper cache bookkeeping. The index lists cached file names newest
//! first; past [`MAX_COUNT`] entries the oldest are evicted. `latest` is the
//! first entry; `random_older` picks among the others.

use image::DynamicImage;
use vstd::prelude::*;

verus! {

/// Most images the cache keeps.
pub const MAX_COUNT: usize = 18;

/// Longest side of a cached image, in pixels.
pub const MAX_PIXEL_SIZE: u32 = 3200;

/// JPEG quality of cached images (percent).
pub const JPEG_QUALITY: u8 = 82;

/// Downloads smaller than this are not image data worth decoding.
pub const MIN_IMAGE_BYTES: usize = 30_000;

/// The names past `max_count` in the newest-first list: the oldest, to evict.
pub open spec fn spec_files_to_evict(names: Seq<String>, max_count: int) -> Seq<String> {
    if names.len() <= max_count {
        Seq::empty()
    } else {
        names.skip(max_count)
    }
}

/// The eviction plan: in the newest-first list, the tail past `max_count`.
pub fn files_to_evict<'a>(ordered_names: &'a [String], max_count: usize) -> (res: &'a [String])
    ensures
        res@ == spec_files_to_evict(ordered_names@, max_count as int),
{
    if ordered_names.len() <= max_count {
        let (_, empty) = ordered_names.split_at(ordered_names.len());
        assert(empty@ =~= Seq::<String>::empty());
        empty
    } else {
        let (_, tail) = ordered_names.split_at(max_count);
        assert(tail@ =~= ordered_names@.skip(max_count as int));
        tail
    }
}

/// Records a newly cached file at the front of the index and cuts the index
/// to [`MAX_COUNT`]; returns the names cut off (the oldest), to delete.
pub fn record_new_file(names: &mut Vec<String>, name: String) -> (evicted: Vec<String>)
    ensures
        final(names)@ == (seq![name] + old(names)@).take(
            if old(names)@.len() + 1 <= MAX_COUNT {
                old(names)@.len() + 1int
            } else {
                MAX_COUNT as int
            },
        ),
        evicted@ == spec_files_to_evict(seq![name] + old(names)@, MAX_COUNT as int),
{
    let ghost all = seq![name] + old(names)@;
    names.insert(0, name);
    assert(names@ =~= all);
    if names.len() > MAX_COUNT {
        let evicted = names.split_off(MAX_COUNT);
        assert(names@ =~= all.take(MAX_COUNT as int));
        assert(evicted@ =~= all.skip(MAX_COUNT as int));
        evicted
    } else {
        assert(names@ =~= all.take(all.len() as int));
        Vec::new()
    }
}

/// The list of names that `serde_json` reads from the index file's text as
/// a JSON array of strings; `None` when the text is not one.
pub uninterp spec fn index_doc(raw: Seq<char>) -> Option<Seq<Seq<char>>>;

/// `serde_json::from_str::<Vec<String>>`: claims that the answer is a
/// function of the text alone.
#[verifier::external_body]
fn parse_index_doc(raw: &str) -> (res: Option<Vec<String>>)
    ensures
        match res {
            Some(v) => index_doc(raw@) == Some(v@.map_values(|s: String| s@)),
            None => index_doc(raw@) is None,
        },
{
    serde_json::from_str::<Vec<String>>(raw).ok()
}

/// The cached file names, newest first, that the index file's text lists; an
/// unreadable index lists none.
pub fn index_from_text(raw: &str) -> (res: Vec<String>)
    ensures
        res@.map_values(|s: String| s@) == match index_doc(raw@) {
            Some(v) => v,
            None => Seq::empty(),
        },
{
    match parse_index_doc(raw) {
        Some(v) => v,
        None => {
            let v: Vec<String> = Vec::new();
            assert(v@.map_values(|s: String| s@) =~= Seq::<Seq<char>>::empty());
            v
        },
    }
}

/// Which entry `latest` takes: the first, the newest; none in an empty index.
pub fn latest_index(count: usize) -> (res: Option<usize>)
    ensures
        res == (if count == 0 {
            None
        } else {
            Some(0usize)
        }),
{
    if count == 0 {
        None
    } else {
        Some(0)
    }
}

/// An index below `len` derived from a clock reading (`nanos % len`).
pub fn pseudo_random_pick(len: usize, nanos: u32) -> (res: usize)
    requires
        len > 0,
    ensures
        res == (nanos as int) % (len as int),
        res < len,
{
    (nanos as usize) % len
}

/// Which entry `random_older` takes: none with one entry or fewer; else one
/// of the entries after the newest, chosen by the clock reading.
pub fn random_older_index(count: usize, nanos: u32) -> (res: Option<usize>)
    ensures
        count <= 1 ==> res is None,
        count > 1 ==> res == Some((1 + (nanos as int) % ((count - 1) as int)) as usize),
        res matches Some(i) ==> 1 <= i < count,
{
    if count <= 1 {
        None
    } else {
        Some(1 + pseudo_random_pick(count - 1, nanos))
    }
}

/// `image::DynamicImage`, a decoded image; opaque here.
#[verifier::external_type_specification]
#[verifier::external_body]
pub struct ExDynamicImage(image::DynamicImage);

/// Whether `data` begins with the bytes `sig`.
pub open spec fn starts_with_bytes(data: Seq<u8>, sig: Seq<u8>) -> bool {
    sig.len() <= data.len() && data.take(sig.len() as int) == sig
}

/// Whether `data` begins with one of the image signatures of the table of
/// `image::guess_format` (which succeeds exactly then): PNG, JPEG, GIF (87a, 89a), WebP (`RIFF`, any four bytes, `WEBP`),
/// TIFF (both byte orders), DDS, BMP, ICO, Radiance HDR, AVIF (two zero
/// bytes, any two bytes, `ftypavif`), OpenEXR, QOI, PNM (`P1` to `P7`) and
/// farbfeld.
pub open spec fn has_image_signature(data: Seq<u8>) -> bool {
    ||| starts_with_bytes(data, seq![0x89u8, 0x50, 0x4E, 0x47, 0x0D, 0x0A, 0x1A, 0x0A])
    ||| starts_with_bytes(data, seq![0xFFu8, 0xD8, 0xFF])
    ||| starts_with_bytes(data, seq![0x47u8, 0x49, 0x46, 0x38, 0x39, 0x61])
    ||| starts_with_bytes(data, seq![0x47u8, 0x49, 0x46, 0x38, 0x37, 0x61])
    ||| (12 <= data.len() && starts_with_bytes(data, seq![0x52u8, 0x49, 0x46, 0x46])
        && data.subrange(8, 12) == seq![0x57u8, 0x45, 0x42, 0x50])
    ||| starts_with_bytes(data, seq![0x4Du8, 0x4D, 0x00, 0x2A])
    ||| starts_with_bytes(data, seq![0x49u8, 0x49, 0x2A, 0x00])
    ||| starts_with_bytes(data, seq![0x44u8, 0x44, 0x53, 0x20])
    ||| starts_with_bytes(data, seq![0x42u8, 0x4D])
    ||| starts_with_bytes(data, seq![0x00u8, 0x00, 0x01, 0x00])
    ||| starts_with_bytes(data, seq![0x23u8, 0x3F, 0x52, 0x41, 0x44, 0x49, 0x41, 0x4E, 0x43, 0x45])
    ||| (12 <= data.len() && data[0] == 0u8 && data[1] == 0u8
        && data.subrange(4, 12) == seq![0x66u8, 0x74, 0x79, 0x70, 0x61, 0x76, 0x69, 0x66])
    ||| starts_with_bytes(data, seq![0x76u8, 0x2F, 0x31, 0x01])
    ||| starts_with_bytes(data, seq![0x71u8, 0x6F, 0x69, 0x66])
    ||| (2 <= data.len() && data[0] == 0x50u8 && 0x31u8 <= data[1] <= 0x37u8)
    ||| starts_with_bytes(data, seq![0x66u8, 0x61, 0x72, 0x62, 0x66, 0x65, 0x6C, 0x64])
}

/// Whether `data` decodes as an image of the built-in format that
/// `image::guess_format` finds in its leading bytes
/// (`image::load_from_memory_with_format` with that format).
pub uninterp spec fn image_decodes(data: Seq<u8>) -> bool;

/// `image::guess_format`, then `image::load_from_memory_with_format` with the
/// format found. That path decodes with a built-in decoder and the default
/// limits and reads none of the crate's process-wide hook registries, so
/// whether it succeeds is a function of the bytes. Claims that, and that
/// nothing decodes without a known signature (see [`has_image_signature`]).
/// Nothing is stated of the image, nor whether a decoder can panic on
/// malformed data (the crate's documentation does not say).
#[verifier::external_body]
fn decode_as_guessed(data: &[u8]) -> (res: Option<DynamicImage>)
    ensures
        res is Some == image_decodes(data@),
        !has_image_signature(data@) ==> res is None,
{
    match image::guess_format(data) {
        Ok(format) => image::load_from_memory_with_format(data, format).ok(),
        Err(_) => None,
    }
}

/// Decodes downloaded image data, refusing data too small to be a real image
/// (under [`MIN_IMAGE_BYTES`]) and data with no known image signature.
pub fn decode_checked(data: &[u8]) -> (res: Option<DynamicImage>)
    ensures
        res is Some <==> (data@.len() >= MIN_IMAGE_BYTES && has_image_signature(data@)
            && image_decodes(data@)),
        !has_image_signature(data@) ==> res is None,
        data@.len() < MIN_IMAGE_BYTES ==> res is None,
{
    if data.len() < MIN_IMAGE_BYTES {
        return None;
    }
    decode_as_guessed(data)
}

} // verus!
