//! Locating the first image of an `.ico` file.
//!
//! An icon file starts with a six byte header (reserved word, type word,
//! image count) followed by sixteen byte directory entries. Bytes 8..12 of an
//! entry hold the image size and bytes 12..16 its offset, both little endian.
use vstd::prelude::*;

verus! {

/// Length of the icon file header.
pub const ICO_HEADER_LEN: usize = 6;

/// Length of one directory entry.
pub const ICO_ENTRY_LEN: usize = 16;

/// The little-endian 16 bit value stored at `off`.
pub open spec fn le_u16(b: Seq<u8>, off: int) -> int {
    b[off] + 256 * b[off + 1]
}

/// The little-endian 32 bit value stored at `off`.
pub open spec fn le_u32(b: Seq<u8>, off: int) -> int {
    b[off] + 256 * b[off + 1] + 65536 * b[off + 2] + 16777216 * b[off + 3]
}

/// Whether `b` starts with a valid icon header naming at least one image and
/// holds the first directory entry in full.
pub open spec fn ico_header_ok(b: Seq<u8>) -> bool {
    &&& b.len() >= ICO_HEADER_LEN + ICO_ENTRY_LEN
    &&& le_u16(b, 0) == 0
    &&& le_u16(b, 2) == 1
    &&& le_u16(b, 4) != 0
}

/// Size of the first image, as its directory entry records it.
pub open spec fn first_image_size(b: Seq<u8>) -> int {
    le_u32(b, ICO_HEADER_LEN + 8)
}

/// Offset of the first image, as its directory entry records it.
pub open spec fn first_image_offset(b: Seq<u8>) -> int {
    le_u32(b, ICO_HEADER_LEN + 12)
}

/// The byte range `[start, end)` of the first image of the icon file `b`, or
/// `None` when the header is malformed, the image is empty or it runs past
/// the end of the file.
pub open spec fn first_image_range(b: Seq<u8>) -> Option<(int, int)> {
    if !ico_header_ok(b) {
        None
    } else {
        let size = first_image_size(b);
        let start = first_image_offset(b);
        if size == 0 || start + size > b.len() {
            None
        } else {
            Some((start, start + size))
        }
    }
}

/// The first image always lies inside the file and is never empty.
pub proof fn lemma_first_image_inside_file(b: Seq<u8>)
    ensures
        first_image_range(b) matches Some((start, end)) ==> 0 <= start < end <= b.len(),
{
}

/// Which icon files give an image, by their bytes: exactly those of at least
/// 22 bytes whose reserved word is 0, whose type word is 1 and whose image
/// count is anything but 0 (one image or many), and whose first directory
/// entry names a non-empty image (size in bytes 14..18, offset in bytes
/// 18..22) that ends within the file; the image is then the bytes from that
/// offset on, as many as the size says.
pub proof fn lemma_first_image_by_bytes(b: Seq<u8>)
    ensures
        ({
            let ok = b.len() >= 22 && b[0] + 256 * b[1] == 0 && b[2] + 256 * b[3] == 1
                && b[4] + 256 * b[5] != 0;
            let size = b[14] + 256 * b[15] + 65536 * b[16] + 16777216 * b[17];
            let offset = b[18] + 256 * b[19] + 65536 * b[20] + 16777216 * b[21];
            &&& ok && size != 0 && offset + size <= b.len() ==> first_image_range(b) == Some(
                (offset, offset + size),
            )
            &&& !(ok && size != 0 && offset + size <= b.len()) ==> first_image_range(b) is None
        }),
{
}

/// Reads the little-endian `u16` at `offset`; `None` when fewer than two
/// bytes are left there.
pub fn read_u16_le(bytes: &[u8], offset: usize) -> (r: Option<u16>)
    requires
        offset + 2 <= usize::MAX,
    ensures
        r is None <==> offset + 2 > bytes@.len(),
        r matches Some(v) ==> v == le_u16(bytes@, offset as int),
{
    if offset + 2 > bytes.len() {
        return None;
    }
    let lo: u16 = bytes[offset] as u16;
    let hi: u16 = bytes[offset + 1] as u16;
    Some(lo + hi * 256)
}

/// Reads the little-endian `u32` at `offset`; `None` when fewer than four
/// bytes are left there.
pub fn read_u32_le(bytes: &[u8], offset: usize) -> (r: Option<u32>)
    requires
        offset + 4 <= usize::MAX,
    ensures
        r is None <==> offset + 4 > bytes@.len(),
        r matches Some(v) ==> v == le_u32(bytes@, offset as int),
{
    if offset + 4 > bytes.len() {
        return None;
    }
    let b0: u32 = bytes[offset] as u32;
    let b1: u32 = bytes[offset + 1] as u32;
    let b2: u32 = bytes[offset + 2] as u32;
    let b3: u32 = bytes[offset + 3] as u32;
    Some(b0 + b1 * 256 + b2 * 65536 + b3 * 16777216)
}

/// The first image stored in the icon file `bytes`, or `None` when the file
/// is not a well-formed icon file with a non-empty first image.
pub fn first_ico_image(bytes: &[u8]) -> (r: Option<&[u8]>)
    ensures
        match first_image_range(bytes@) {
            None => r is None,
            Some((start, end)) => r matches Some(img) && img@ == bytes@.subrange(start, end),
        },
{
    if bytes.len() < ICO_HEADER_LEN {
        return None;
    }
    let reserved: u16 = match read_u16_le(bytes, 0) {
        Some(v) => v,
        None => return None,
    };
    let file_type: u16 = match read_u16_le(bytes, 2) {
        Some(v) => v,
        None => return None,
    };
    let count: u16 = match read_u16_le(bytes, 4) {
        Some(v) => v,
        None => return None,
    };
    if reserved != 0 || file_type != 1 || count == 0 {
        return None;
    }
    let entry_offset: usize = ICO_HEADER_LEN;
    let entry_size: usize = ICO_ENTRY_LEN;
    if bytes.len() < entry_offset + entry_size {
        return None;
    }
    let image_size: usize = match read_u32_le(bytes, entry_offset + 8) {
        Some(v) => v as usize,
        None => return None,
    };
    let image_offset: usize = match read_u32_le(bytes, entry_offset + 12) {
        Some(v) => v as usize,
        None => return None,
    };
    let image_end: usize = match image_offset.checked_add(image_size) {
        Some(v) => v,
        None => return None,
    };
    if image_size == 0 || image_end > bytes.len() {
        return None;
    }
    Some(vstd::slice::slice_subrange(bytes, image_offset, image_end))
}

} // verus!
