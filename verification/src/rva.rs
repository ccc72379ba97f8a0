//! From addresses in a loaded image to places in its file.

use crate::bytes::{le32, u32_at};
use crate::win32::ERROR_INVALID_DATA;
use vstd::prelude::*;

verus! {

/// The size of one entry of the section table.
pub const SECTION_HEADER_SIZE: usize = 40;

/// The number of whole entries in a section table.
pub open spec fn entry_count(sections: Seq<u8>) -> int {
    sections.len() as int / SECTION_HEADER_SIZE as int
}

/// The address at which section `i` is loaded.
pub open spec fn section_address(sections: Seq<u8>, i: int) -> int {
    le32(sections, SECTION_HEADER_SIZE * i + 12)
}

/// The number of bytes that the file holds of section `i`.
pub open spec fn section_raw_size(sections: Seq<u8>, i: int) -> int {
    le32(sections, SECTION_HEADER_SIZE * i + 16)
}

/// Where in the file the bytes of section `i` start.
pub open spec fn section_raw_offset(sections: Seq<u8>, i: int) -> int {
    le32(sections, SECTION_HEADER_SIZE * i + 20)
}

/// All of the `size` bytes at `rva` are bytes that the file holds of section `i`.
pub open spec fn section_holds(sections: Seq<u8>, i: int, rva: int, size: int) -> bool {
    &&& 0 <= i < entry_count(sections)
    &&& section_address(sections, i) <= rva
    &&& rva + size <= section_address(sections, i) + section_raw_size(sections, i)
}

/// All of the `size` bytes at `rva` are bytes of the image's headers, which are loaded as they
/// stand in the file.
pub open spec fn headers_hold(rva: int, size: int, header_size: int, length: int) -> bool {
    rva + size <= header_size && rva + size <= length
}

/// The `size` bytes at `rva` stand at `offset` in a file of `length` bytes: exactly one place
/// holds them, the headers or one section, and the file reaches that far.
pub open spec fn resolves_to(
    rva: int,
    size: int,
    header_size: int,
    sections: Seq<u8>,
    length: int,
    offset: int,
) -> bool {
    if headers_hold(rva, size, header_size, length) {
        &&& offset == rva
        &&& forall|i: int| !#[trigger] section_holds(sections, i, rva, size)
    } else {
        exists|i: int|
            {
                &&& #[trigger] section_holds(sections, i, rva, size)
                &&& forall|j: int| #[trigger] section_holds(sections, j, rva, size) ==> j == i
                &&& offset == section_raw_offset(sections, i) + rva - section_address(sections, i)
                &&& offset + size <= length
            }
    }
}

/// Where the `size` bytes at `rva` stand in the file, if they stand in exactly one place there.
pub open spec fn file_offset(
    rva: int,
    size: int,
    header_size: int,
    sections: Seq<u8>,
    length: int,
) -> Option<int> {
    if exists|offset: int| resolves_to(rva, size, header_size, sections, length, offset) {
        Some(
            choose|offset: int| resolves_to(rva, size, header_size, sections, length, offset),
        )
    } else {
        None
    }
}

/// An address range that stands in one place of the file stands in no other, and lies inside
/// the file.
pub proof fn law_one_place_inside_the_file(
    rva: int,
    size: int,
    header_size: int,
    sections: Seq<u8>,
    length: int,
    offset: int,
)
    requires
        0 <= rva,
        resolves_to(rva, size, header_size, sections, length, offset),
    ensures
        file_offset(rva, size, header_size, sections, length) == Some(offset),
        0 <= offset,
        offset + size <= length,
{
}

/// Finds the `size` bytes at `rva` in a file of `length` bytes, whose headers take
/// `header_size` bytes of it and whose section table is `sections`.
pub fn rva_offset(rva: u32, size: u32, header_size: u32, sections: &[u8], length: u64) -> (result:
    Result<u64, u32>)
    ensures
        match result {
            Ok(offset) => resolves_to(
                rva as int,
                size as int,
                header_size as int,
                sections@,
                length as int,
                offset as int,
            ),
            Err(error) => error == ERROR_INVALID_DATA && forall|offset: int|
                !#[trigger] resolves_to(
                    rva as int,
                    size as int,
                    header_size as int,
                    sections@,
                    length as int,
                    offset,
                ),
        },
{
    let start: u64 = rva as u64;
    let end: u64 = start + size as u64;
    let in_headers = end <= header_size as u64 && end <= length;
    let mut found: Option<u64> = if in_headers {
        Some(start)
    } else {
        None
    };
    let count: usize = sections.len() / SECTION_HEADER_SIZE;
    let ghost mut holder: int = -1;
    let mut k: usize = 0;
    while k < count
        invariant
            count == entry_count(sections@),
            start == rva,
            end == start + size,
            in_headers == headers_hold(
                rva as int,
                size as int,
                header_size as int,
                length as int,
            ),
            0 <= k <= count,
            in_headers ==> found == Some(start) && holder == -1,
            !in_headers && holder == -1 ==> found == None::<u64>,
            holder == -1 ==> forall|i: int|
                i < k ==> !#[trigger] section_holds(sections@, i, rva as int, size as int),
            holder != -1 ==> {
                &&& 0 <= holder < k
                &&& section_holds(sections@, holder, rva as int, size as int)
                &&& forall|i: int|
                    i < k && #[trigger] section_holds(sections@, i, rva as int, size as int) ==> i
                        == holder
                &&& found matches Some(offset) && offset == section_raw_offset(sections@, holder)
                    + rva - section_address(sections@, holder) && offset + size <= length
            },
        decreases count - k,
    {
        assert(SECTION_HEADER_SIZE * k + SECTION_HEADER_SIZE <= sections.len());
        let entry: usize = SECTION_HEADER_SIZE * k;
        let address: u64 = u32_at(sections, entry + 12) as u64;
        let raw_size: u64 = u32_at(sections, entry + 16) as u64;
        let raw_offset: u64 = u32_at(sections, entry + 20) as u64;
        if start >= address && end <= address + raw_size {
            assert(section_holds(sections@, k as int, rva as int, size as int));
            let offset: u64 = raw_offset + start - address;
            if found.is_some() || offset + size as u64 > length {
                return Err(ERROR_INVALID_DATA);
            }
            found = Some(offset);
            proof {
                holder = k as int;
            }
        } else {
            assert(!section_holds(sections@, k as int, rva as int, size as int));
        }
        k += 1;
    }
    match found {
        Some(offset) => Ok(offset),
        None => Err(ERROR_INVALID_DATA),
    }
}

/// Bytes that one section holds, and neither the headers nor another section, stand as far into
/// that section's part of the file as they do into its addresses, if the file reaches that far.
pub proof fn law_a_lone_section_resolves(
    rva: int,
    size: int,
    header_size: int,
    sections: Seq<u8>,
    length: int,
    i: int,
)
    requires
        0 <= i < sections.len() / 40,
        le32(sections, 40 * i + 12) <= rva,
        rva + size <= le32(sections, 40 * i + 12) + le32(sections, 40 * i + 16),
        rva + size > header_size || rva + size > length,
        forall|j: int|
            0 <= j < sections.len() / 40 && j != i ==> rva < #[trigger] le32(sections, 40 * j + 12)
                || rva + size > le32(sections, 40 * j + 12) + le32(sections, 40 * j + 16),
    ensures
        ({
            let offset = le32(sections, 40 * i + 20) + (rva - le32(sections, 40 * i + 12));
            if offset + size <= length {
                file_offset(rva, size, header_size, sections, length) == Some(offset)
            } else {
                file_offset(rva, size, header_size, sections, length) is None
            }
        }),
{
    let offset = section_raw_offset(sections, i) + rva - section_address(sections, i);
    assert(section_holds(sections, i, rva, size));
    assert forall|j: int| #[trigger] section_holds(sections, j, rva, size) implies j == i by {
        if j != i {
            assert(le32(sections, 40 * j + 12) == section_address(sections, j));
        }
    }
    if offset + size <= length {
        assert(resolves_to(rva, size, header_size, sections, length, offset));
    }
}

/// Bytes of the headers that no section holds stand where they are loaded.
pub proof fn law_headers_resolve(
    rva: int,
    size: int,
    header_size: int,
    sections: Seq<u8>,
    length: int,
)
    requires
        0 <= rva,
        rva + size <= header_size,
        rva + size <= length,
        forall|j: int|
            0 <= j < sections.len() / 40 ==> rva < #[trigger] le32(sections, 40 * j + 12) || rva
                + size > le32(sections, 40 * j + 12) + le32(sections, 40 * j + 16),
    ensures
        file_offset(rva, size, header_size, sections, length) == Some(rva),
{
    assert forall|j: int| !#[trigger] section_holds(sections, j, rva, size) by {
        if 0 <= j < entry_count(sections) {
            assert(le32(sections, 40 * j + 12) == section_address(sections, j));
        }
    }
    assert(resolves_to(rva, size, header_size, sections, length, rva));
}

/// Bytes that a section holds together with another section, or together with the headers, or
/// that no place holds, stand nowhere.
pub proof fn law_doubtful_addresses_do_not_resolve(
    rva: int,
    size: int,
    header_size: int,
    sections: Seq<u8>,
    length: int,
    i: int,
    j: int,
)
    requires
        ({
            let holds = |k: int|
                0 <= k < sections.len() / 40 && le32(sections, 40 * k + 12) <= rva && rva + size
                    <= le32(sections, 40 * k + 12) + le32(sections, 40 * k + 16);
            let in_headers = rva + size <= header_size && rva + size <= length;
            ||| holds(i) && holds(j) && i != j
            ||| holds(i) && in_headers
            ||| !in_headers && forall|k: int| !#[trigger] holds(k)
        }),
    ensures
        file_offset(rva, size, header_size, sections, length) is None,
{
    let holds = |k: int|
        0 <= k < sections.len() / 40 && le32(sections, 40 * k + 12) <= rva && rva + size <= le32(
            sections,
            40 * k + 12,
        ) + le32(sections, 40 * k + 16);
    assert forall|k: int| #[trigger] section_holds(sections, k, rva, size) == holds(k) by {}
    assert(section_holds(sections, i, rva, size) == holds(i));
    assert(section_holds(sections, j, rva, size) == holds(j));
}

/// A place that is found is one that resolves, and one that resolves is found.
pub proof fn law_found_places_resolve(
    rva: int,
    size: int,
    header_size: int,
    sections: Seq<u8>,
    length: int,
)
    requires
        0 <= rva,
    ensures
        forall|offset: int|
            #[trigger] resolves_to(rva, size, header_size, sections, length, offset)
                <==> file_offset(rva, size, header_size, sections, length) == Some(offset),
{
    assert forall|offset: int|
        #[trigger] resolves_to(rva, size, header_size, sections, length, offset)
            implies file_offset(rva, size, header_size, sections, length) == Some(offset) by {
        law_one_place_inside_the_file(rva, size, header_size, sections, length, offset);
    }
}

} // verus!
