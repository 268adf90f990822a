//! Windows DLLs, whose resources `pelite` finds.
//!
//! The numbers in an image are in little-endian order, which is also that of the machines that
//! the launcher runs on.
use vstd::prelude::*;
use pelite::pe64::{Pe, PeFile};
use pelite::resources::Name;

verus! {

/// The number in the two bytes at `at`.
pub open spec fn u16_at(image: Seq<u8>, at: int) -> int {
    image[at] + 0x100 * image[at + 1]
}

/// The number in the four bytes at `at`.
pub open spec fn u32_at(image: Seq<u8>, at: int) -> int {
    u16_at(image, at) + 0x10000 * u16_at(image, at + 2)
}

/// Where the NT headers of an image start.
pub open spec fn nt_headers_at(image: Seq<u8>) -> int {
    u32_at(image, 60)
}

/// How many sections an image has.
pub open spec fn section_count(image: Seq<u8>) -> int {
    u16_at(image, nt_headers_at(image) + 6)
}

/// How long the optional header of an image is.
pub open spec fn optional_header_size(image: Seq<u8>) -> int {
    u16_at(image, nt_headers_at(image) + 20)
}

/// The address of the resource directory in the loaded image.
pub open spec fn resource_address(image: Seq<u8>) -> int {
    u32_at(image, nt_headers_at(image) + 152)
}

/// Where the header of section number `i` starts.
pub open spec fn section_header_at(image: Seq<u8>, i: int) -> int {
    nt_headers_at(image) + 24 + optional_header_size(image) + 40 * i
}

/// The section whose header starts at `header` holds `address` of the loaded image. The address at
/// which a section ends is held in 32 bits.
pub open spec fn holds_address(image: Seq<u8>, header: int, address: int) -> bool {
    let start = u32_at(image, header + 12);
    let length = if u32_at(image, header + 8) > u32_at(image, header + 16) {
        u32_at(image, header + 8)
    } else {
        u32_at(image, header + 16)
    };
    start <= address < (start + length) % 0x1_0000_0000
}

/// Where `address` of the loaded image stands in the file, by the section whose header starts at
/// `header`.
pub open spec fn file_offset(image: Seq<u8>, header: int, address: int) -> int {
    u32_at(image, header + 20) + (address - u32_at(image, header + 12))
}

/// The section headers start at a multiple of four, and so does the resource directory, by each
/// section that holds it.
pub open spec fn has_aligned_resources(image: Seq<u8>) -> bool {
    &&& optional_header_size(image) % 4 == 0
    &&& nt_headers_at(image) + 156 <= image.len() && section_header_at(image, section_count(image))
        <= image.len() ==> forall|i: int|
        0 <= i < section_count(image) && #[trigger] holds_address(
            image,
            section_header_at(image, i),
            resource_address(image),
        ) ==> file_offset(image, section_header_at(image, i), resource_address(image)) % 4 == 0
}

/// What `pelite` looks at where it stands to find a resource stands at a multiple of its alignment:
/// the NT headers at one of eight, the section headers and the resource directory at one of four.
/// Headers for which the image is too short are not looked at.
pub open spec fn is_aligned_image(image: Seq<u8>) -> bool {
    image.len() >= 64 ==> {
        &&& nt_headers_at(image) % 8 == 0
        &&& nt_headers_at(image) + 136 <= image.len() ==> has_aligned_resources(image)
    }
}

/// The data of the resource with this type and number that `pelite` finds in a 64 bit PE image
/// that stands in memory at an address divisible by eight.
pub uninterp spec fn pe_resource(image: Seq<u8>, kind: u32, id: u32) -> Option<Seq<u8>>;

/// `found` is what a search for the resource with this type and number in such an image can come
/// back with, at some address.
pub uninterp spec fn may_find(image: Seq<u8>, kind: u32, id: u32, found: Option<Seq<u8>>) -> bool;

/// The bytes that were found, as a sequence.
pub open spec fn found_view(found: Option<Vec<u8>>) -> Option<Seq<u8>> {
    match found {
        Some(data) => Some(data@),
        None => None,
    }
}

/// `pelite::resources::Resources::find_resource`, on the resources of the `PeFile` that the bytes
/// are: the answer is one that the search can give, and data that is found is the named data.
/// Nothing is found where there is none; that the data is found where there is some is not
/// claimed. The NT headers are read in place, which takes an image at an address divisible by
/// eight, and `PeFile::from_bytes` itself refuses one at an address that is not divisible by four;
/// at another address nothing is looked for.
#[verifier::external_body]
pub(crate) fn find_resource(image: &[u8], kind: u32, id: u32) -> (r: Option<Vec<u8>>)
    requires
        is_aligned_image(image@),
    ensures
        may_find(image@, kind, id, found_view(r)),
        r matches Some(data) ==> pe_resource(image@, kind, id) == Some(data@),
{
    if image.as_ptr().align_offset(8) != 0 {
        return None;
    }
    let file = PeFile::from_bytes(image).ok()?;
    let resources = file.resources().ok()?;
    let data = resources.find_resource(&[Name::Id(kind), Name::Id(id)]).ok()?;
    Some(data.to_vec())
}

/// The number in the two bytes at `at`.
fn read_u16(image: &[u8], at: usize) -> (r: u64)
    requires
        at + 2 <= image@.len(),
    ensures
        r == u16_at(image@, at as int),
        r < 0x10000,
{
    image[at] as u64 + 0x100 * (image[at + 1] as u64)
}

/// The number in the four bytes at `at`.
fn read_u32(image: &[u8], at: usize) -> (r: u64)
    requires
        at + 4 <= image@.len(),
    ensures
        r == u32_at(image@, at as int),
        r < 0x1_0000_0000,
{
    assert(image@.len() == image.len());
    read_u16(image, at) + 0x10000 * read_u16(image, at + 2)
}

/// Whether the resource directory starts at a multiple of four by the section whose header starts
/// at `header`, where that section holds it.
fn is_aligned_in(image: &[u8], header: usize, address: u64) -> (r: bool)
    requires
        header + 40 <= image@.len(),
        address < 0x1_0000_0000,
    ensures
        r == (holds_address(image@, header as int, address as int) ==> file_offset(
            image@,
            header as int,
            address as int,
        ) % 4 == 0),
{
    assert(image@.len() == image.len());
    let virtual_size: u64 = read_u32(image, header + 8);
    let start: u64 = read_u32(image, header + 12);
    let raw_size: u64 = read_u32(image, header + 16);
    let raw_start: u64 = read_u32(image, header + 20);
    let length: u64 = if virtual_size > raw_size {
        virtual_size
    } else {
        raw_size
    };
    let end: u64 = (start + length) % 0x1_0000_0000;
    !(start <= address && address < end) || (raw_start + (address - start)) % 4 == 0
}

/// Whether what is looked at in place to find a resource is aligned.
pub fn is_aligned(image: &[u8]) -> (r: bool)
    ensures
        r == is_aligned_image(image@),
{
    if image.len() < 64 {
        return true;
    }
    let nt: u64 = read_u32(image, 60);
    if nt % 8 != 0 {
        return false;
    }
    let length: u64 = image.len() as u64;
    if length < 136 || nt > length - 136 {
        return true;
    }
    let count: u64 = read_u16(image, nt as usize + 6);
    let size: u64 = read_u16(image, nt as usize + 20);
    if size % 4 != 0 {
        return false;
    }
    let sections: u64 = nt + 24 + size;
    if nt + 156 > length || sections + 40 * count > length {
        return true;
    }
    let address: u64 = read_u32(image, nt as usize + 152);
    let mut i: u64 = 0;
    while i < count
        invariant
            nt == nt_headers_at(image@),
            nt <= length - 136,
            size == optional_header_size(image@),
            size < 0x10000,
            count == section_count(image@),
            count < 0x10000,
            sections == nt + 24 + size,
            length == image@.len(),
            length <= usize::MAX,
            sections + 40 * count <= length,
            address == resource_address(image@),
            address < 0x1_0000_0000,
            i <= count,
            forall|k: int|
                0 <= k < i && #[trigger] holds_address(
                    image@,
                    section_header_at(image@, k),
                    resource_address(image@),
                ) ==> file_offset(
                    image@,
                    section_header_at(image@, k),
                    resource_address(image@),
                ) % 4 == 0,
            nt + 156 <= length,
            nt % 8 == 0,
            size % 4 == 0,
        decreases count - i,
    {
        let header: u64 = sections + 40 * i;
        assert(header == section_header_at(image@, i as int));
        if !is_aligned_in(image, header as usize, address) {
            assert(holds_address(
                image@,
                section_header_at(image@, i as int),
                resource_address(image@),
            ));
            return false;
        }
        i = i + 1;
    }
    true
}

} // verus!
