//! What a program file on disk is: the layout of a PE image, and when it is ARM64EC.
//!
//! An ARM64EC program carries the machine type of x86-64 in its headers. What tells it from a
//! plain x86-64 program is a pointer to hybrid (CHPE) metadata in its load configuration. A
//! managed program built for any CPU carries 32-bit x86 headers although it runs as x86-64.

use crate::bytes::{le16, le32, le64};
use crate::rva::{file_offset, law_one_place_inside_the_file, SECTION_HEADER_SIZE};
use crate::win32::{ERROR_INVALID_DATA, IMAGE_FILE_MACHINE_AMD64, IMAGE_FILE_MACHINE_I386};
use vstd::prelude::*;

verus! {

/// The size of the header that a file starts with.
pub const DOS_HEADER_SIZE: usize = 64;

/// The size of the PE signature together with the file header behind it.
pub const COFF_HEADER_SIZE: usize = 24;

/// The loader takes no image with more sections.
pub const MAX_SECTIONS: usize = 96;

/// The first two bytes of an optional header with 32-bit addresses.
pub const PE32_MAGIC: u16 = 0x10b;

/// The first two bytes of an optional header with 64-bit addresses.
pub const PE32_PLUS_MAGIC: u16 = 0x20b;

/// The size of an optional header with 32-bit addresses up to its data directories.
pub const PE32_DIRECTORIES: usize = 96;

/// The size of an optional header with 64-bit addresses up to its data directories.
pub const PE32_PLUS_DIRECTORIES: usize = 112;

/// The data directory that locates the load configuration.
pub const LOAD_CONFIG_DIRECTORY: usize = 10;

/// The data directory that locates the header of a managed program.
pub const CLR_DIRECTORY: usize = 14;

/// The size of the header of a managed program.
pub const CLR_HEADER_SIZE: u32 = 72;

/// Where the pointer to the hybrid metadata stands in a 64-bit load configuration.
pub const CHPE_OFFSET: usize = 200;

/// Where that pointer ends.
pub const CHPE_END: u32 = 208;

/// Where the PE signature stands, as the first header says.
pub open spec fn pe_offset(file: Seq<u8>) -> int {
    le32(file, 60)
}

/// The file starts with a DOS header that points behind itself.
pub open spec fn has_dos_header(file: Seq<u8>) -> bool {
    &&& DOS_HEADER_SIZE <= file.len()
    &&& file[0] == 0x4d
    &&& file[1] == 0x5a
    &&& DOS_HEADER_SIZE <= pe_offset(file)
}

/// The machine type that the headers give.
pub open spec fn image_machine(file: Seq<u8>) -> int {
    le16(file, pe_offset(file) + 4)
}

/// The number of entries in the section table.
pub open spec fn section_count(file: Seq<u8>) -> int {
    le16(file, pe_offset(file) + 6)
}

/// The size of the optional header.
pub open spec fn optional_size(file: Seq<u8>) -> int {
    le16(file, pe_offset(file) + 20)
}

/// The PE signature stands where the DOS header says, and a file header with a possible
/// number of sections and a big enough optional header follows it.
pub open spec fn has_coff_header(file: Seq<u8>) -> bool {
    &&& has_dos_header(file)
    &&& pe_offset(file) + COFF_HEADER_SIZE <= file.len()
    &&& file[pe_offset(file)] == 0x50
    &&& file[pe_offset(file) + 1] == 0x45
    &&& file[pe_offset(file) + 2] == 0
    &&& file[pe_offset(file) + 3] == 0
    &&& 1 <= section_count(file) <= MAX_SECTIONS
    &&& PE32_DIRECTORIES <= optional_size(file)
}

/// Where the optional header starts.
pub open spec fn optional_offset(file: Seq<u8>) -> int {
    pe_offset(file) + COFF_HEADER_SIZE
}

/// How far into an optional header its data directories start. Only 64-bit headers for x86-64
/// and 32-bit headers for x86 count; the number of an ARM64EC object file does not.
pub open spec fn directories_start(machine: int, magic: int, optional_size: int) -> Option<int> {
    if machine == IMAGE_FILE_MACHINE_AMD64 && magic == PE32_PLUS_MAGIC && PE32_PLUS_DIRECTORIES
        <= optional_size {
        Some(PE32_PLUS_DIRECTORIES as int)
    } else if machine == IMAGE_FILE_MACHINE_I386 && magic == PE32_MAGIC {
        Some(PE32_DIRECTORIES as int)
    } else {
        None
    }
}

/// How far into the optional header of this file its data directories start.
pub open spec fn image_directories(file: Seq<u8>) -> Option<int> {
    directories_start(
        image_machine(file),
        le16(file, optional_offset(file)),
        optional_size(file),
    )
}

/// The number of data directories that an optional header says it has.
pub open spec fn directory_count(file: Seq<u8>) -> int {
    le32(file, optional_offset(file) + image_directories(file)->0 - 4)
}

/// The optional header is all there, is of a known kind, and has room for its directories.
pub open spec fn has_optional_header(file: Seq<u8>) -> bool {
    &&& has_coff_header(file)
    &&& optional_offset(file) + optional_size(file) <= file.len()
    &&& image_directories(file) is Some
    &&& directory_count(file) <= (optional_size(file) - image_directories(file)->0) / 8
}

/// How many bytes at the start of the file are loaded as the image's headers.
pub open spec fn header_size(file: Seq<u8>) -> int {
    le32(file, optional_offset(file) + 60)
}

/// The address at which a 64-bit image prefers to be loaded.
pub open spec fn image_base(file: Seq<u8>) -> int {
    le64(file, optional_offset(file) + 24)
}

/// Where the section table starts.
pub open spec fn table_offset(file: Seq<u8>) -> int {
    optional_offset(file) + optional_size(file)
}

/// Where the section table ends.
pub open spec fn table_end(file: Seq<u8>) -> int {
    table_offset(file) + section_count(file) * SECTION_HEADER_SIZE
}

/// All headers are there and say nothing impossible.
pub open spec fn has_headers(file: Seq<u8>) -> bool {
    &&& has_optional_header(file)
    &&& table_end(file) <= file.len()
}

/// Where in the file the `size` bytes at `rva` of its image stand.
pub open spec fn image_offset(file: Seq<u8>, rva: int, size: int) -> Option<int> {
    file_offset(
        rva,
        size,
        header_size(file),
        file.subrange(table_offset(file), table_end(file)),
        file.len() as int,
    )
}

/// The address of data directory `i`.
pub open spec fn directory_rva(file: Seq<u8>, i: int) -> int {
    le32(file, optional_offset(file) + image_directories(file)->0 + i * 8)
}

/// The size of data directory `i`.
pub open spec fn directory_size(file: Seq<u8>, i: int) -> int {
    le32(file, optional_offset(file) + image_directories(file)->0 + i * 8 + 4)
}

/// The headers are those of a 32-bit x86 image.
pub open spec fn is_pe32(file: Seq<u8>) -> bool {
    image_directories(file) == Some(PE32_DIRECTORIES as int)
}

/// The header of a managed program at `offset`, of which the directory gives `size` bytes,
/// is a possible one and has of its two lowest flags the first alone: the program is pure
/// managed code and is not bound to 32 bits.
pub open spec fn runs_on_any_cpu(file: Seq<u8>, offset: int, size: int) -> bool {
    &&& CLR_HEADER_SIZE <= le32(file, offset) <= size
    &&& le32(file, offset + 16) % 4 == 1
}

/// The image holds a managed program that runs on any CPU.
pub open spec fn is_any_cpu(file: Seq<u8>) -> bool {
    let rva = directory_rva(file, CLR_DIRECTORY as int);
    let size = directory_size(file, CLR_DIRECTORY as int);
    &&& CLR_DIRECTORY < directory_count(file)
    &&& rva != 0
    &&& CLR_HEADER_SIZE <= size
    &&& image_offset(file, rva, size) matches Some(offset) && runs_on_any_cpu(file, offset, size)
}

/// What a load configuration at `offset`, of which the directory gives `size` bytes, says of
/// the image: hybrid, not hybrid, or nothing that makes sense.
pub open spec fn config_is_hybrid(file: Seq<u8>, offset: int, size: int) -> Option<bool> {
    let declared = le32(file, offset);
    let pointer = le64(file, offset + CHPE_OFFSET);
    let metadata = pointer - image_base(file);
    if declared < 4 || size < declared {
        None
    } else if declared < CHPE_END || pointer == 0 {
        Some(false)
    } else if 0 <= metadata <= u32::MAX && image_offset(file, metadata, 4) is Some {
        Some(true)
    } else {
        None
    }
}

/// What the load configuration of a 64-bit image says of it. An image without one is not
/// hybrid.
pub open spec fn image_is_hybrid(file: Seq<u8>) -> Option<bool> {
    let rva = directory_rva(file, LOAD_CONFIG_DIRECTORY as int);
    let size = directory_size(file, LOAD_CONFIG_DIRECTORY as int);
    if directory_count(file) <= LOAD_CONFIG_DIRECTORY || (rva == 0 && size == 0) {
        Some(false)
    } else if rva == 0 || size < 4 {
        None
    } else {
        match image_offset(file, rva, size) {
            Some(offset) => config_is_hybrid(file, offset, size),
            None => None,
        }
    }
}

/// Whether the main program in this file is an ARM64EC one, or nothing where the file is not
/// a sound image of a program that can run as x86-64.
pub open spec fn arm64ec(file: Seq<u8>) -> Option<bool> {
    if !has_headers(file) {
        None
    } else if is_pe32(file) {
        if is_any_cpu(file) {
            Some(false)
        } else {
            None
        }
    } else {
        image_is_hybrid(file)
    }
}

/// The answer to report for this file.
pub open spec fn arm64ec_answer(file: Seq<u8>) -> Result<bool, u32> {
    match arm64ec(file) {
        Some(answer) => Ok(answer),
        None => Err(ERROR_INVALID_DATA),
    }
}

/// Only an image for x86-64 is ever taken for an ARM64EC one; 32-bit x86 headers can at most
/// be those of a managed program; and an image for any other machine, such as the one of an
/// ARM64EC object file, is not sound.
pub proof fn law_the_machine_limits_the_answer(file: Seq<u8>)
    ensures
        arm64ec(file) == Some(true) ==> image_machine(file) == IMAGE_FILE_MACHINE_AMD64,
        image_machine(file) == IMAGE_FILE_MACHINE_I386 ==> arm64ec(file) != Some(true),
        image_machine(file) != IMAGE_FILE_MACHINE_AMD64 && image_machine(file)
            != IMAGE_FILE_MACHINE_I386 ==> arm64ec(file) is None,
{
}

/// An address range that stands in one place of a file stands there, or nowhere, in a file
/// that is cut short.
proof fn lemma_offset_in_a_prefix(
    rva: int,
    size: int,
    header_size: int,
    sections: Seq<u8>,
    length: int,
    shorter: int,
)
    requires
        0 <= rva,
        shorter <= length,
        file_offset(rva, size, header_size, sections, length) is Some,
        file_offset(rva, size, header_size, sections, shorter) is Some,
    ensures
        file_offset(rva, size, header_size, sections, length) == file_offset(
            rva,
            size,
            header_size,
            sections,
            shorter,
        ),
        file_offset(rva, size, header_size, sections, shorter)->0 + size <= shorter,
        0 <= file_offset(rva, size, header_size, sections, shorter)->0,
{
    let whole = file_offset(rva, size, header_size, sections, length)->0;
    let cut = file_offset(rva, size, header_size, sections, shorter)->0;
    law_one_place_inside_the_file(rva, size, header_size, sections, length, whole);
    law_one_place_inside_the_file(rva, size, header_size, sections, shorter, cut);
}

/// The header fields of a file that is cut short behind its headers are those of the file.
proof fn lemma_headers_of_a_prefix(file: Seq<u8>, n: int)
    requires
        0 <= n <= file.len(),
        has_headers(file.take(n)),
    ensures
        has_headers(file),
        is_pe32(file.take(n)) == is_pe32(file),
        image_directories(file.take(n)) == image_directories(file),
        directory_count(file.take(n)) == directory_count(file),
        optional_offset(file.take(n)) == optional_offset(file),
        optional_size(file.take(n)) == optional_size(file),
        header_size(file.take(n)) == header_size(file),
        image_base(file.take(n)) == image_base(file),
        table_offset(file.take(n)) == table_offset(file),
        table_end(file.take(n)) == table_end(file),
        file.take(n).subrange(table_offset(file), table_end(file)) == file.subrange(
            table_offset(file),
            table_end(file),
        ),
{
    let cut = file.take(n);
    assert(pe_offset(cut) == pe_offset(file));
    assert(image_machine(cut) == image_machine(file));
    assert(section_count(cut) == section_count(file));
    assert(optional_size(cut) == optional_size(file));
    assert(image_directories(cut) == image_directories(file));
    assert(directory_count(cut) == directory_count(file));
}

/// Cutting a file short never changes the answer for it. It can only take the answer away.
pub proof fn law_a_truncated_file_gives_no_other_answer(file: Seq<u8>, n: int)
    requires
        0 <= n <= file.len(),
        arm64ec(file) is Some,
    ensures
        arm64ec(file.take(n)) is None || arm64ec(file.take(n)) == arm64ec(file),
{
    let cut = file.take(n);
    if has_headers(cut) {
        lemma_headers_of_a_prefix(file, n);
        let sections = file.subrange(table_offset(file), table_end(file));
        let length = file.len() as int;
        if !is_pe32(file) && directory_count(file) > LOAD_CONFIG_DIRECTORY {
            let rva = directory_rva(file, LOAD_CONFIG_DIRECTORY as int);
            let size = directory_size(file, LOAD_CONFIG_DIRECTORY as int);
            assert(directory_rva(cut, LOAD_CONFIG_DIRECTORY as int) == rva);
            assert(directory_size(cut, LOAD_CONFIG_DIRECTORY as int) == size);
            if rva != 0 && size >= 4 && image_offset(cut, rva, size) is Some {
                lemma_offset_in_a_prefix(rva, size, header_size(file), sections, length, n);
                let offset = image_offset(cut, rva, size)->0;
                assert(le32(cut, offset) == le32(file, offset));
                if CHPE_END <= le32(file, offset) <= size {
                    assert(le64(cut, offset + CHPE_OFFSET) == le64(file, offset + CHPE_OFFSET));
                }
            }
        }
    }
}

/// Every answer rests on headers that are all there: the two signatures, a file header that
/// points behind the first header, one to 96 sections, an optional header with room for its
/// directories, of the 64-bit kind for x86-64 or of the 32-bit kind for x86, and the whole
/// section table.
pub proof fn law_answers_rest_on_headers(file: Seq<u8>)
    ensures
        arm64ec(file) is Some ==> {
            let pe = le32(file, 60);
            let optional = pe + 24;
            let optional_len = le16(file, pe + 20);
            let count = le16(file, pe + 6);
            &&& 64 <= file.len()
            &&& file[0] == 0x4d && file[1] == 0x5a
            &&& 64 <= pe
            &&& file[pe] == 0x50 && file[pe + 1] == 0x45 && file[pe + 2] == 0 && file[pe + 3] == 0
            &&& 1 <= count <= 96
            &&& optional + optional_len + 40 * count <= file.len()
            &&& {
                ||| {
                    &&& le16(file, pe + 4) == IMAGE_FILE_MACHINE_AMD64
                    &&& le16(file, optional) == 0x20b
                    &&& 112 <= optional_len
                    &&& 112 + 8 * le32(file, optional + 108) <= optional_len
                }
                ||| {
                    &&& le16(file, pe + 4) == IMAGE_FILE_MACHINE_I386
                    &&& le16(file, optional) == 0x10b
                    &&& 96 <= optional_len
                    &&& 96 + 8 * le32(file, optional + 92) <= optional_len
                }
            }
        },
{
}

/// What a 64-bit image whose headers are in order says of itself. Without a load configuration,
/// or with one that ends before the pointer to the hybrid metadata or holds none, it is a plain
/// x86-64 program. With one that reaches the pointer, however much longer it is, the pointer
/// alone decides: to one place of the image's file it makes the program an ARM64EC one, and to
/// none it makes no sense. A configuration that stands in no one place of the file, or whose
/// sizes contradict each other, makes no sense either.
pub proof fn law_the_metadata_pointer_decides(file: Seq<u8>)
    requires
        ({
            let pe = le32(file, 60);
            let optional_len = le16(file, pe + 20);
            let count = le16(file, pe + 6);
            &&& 64 <= file.len()
            &&& file[0] == 0x4d && file[1] == 0x5a
            &&& 64 <= pe
            &&& file[pe] == 0x50 && file[pe + 1] == 0x45 && file[pe + 2] == 0 && file[pe + 3] == 0
            &&& 1 <= count <= 96
            &&& pe + 24 + optional_len + 40 * count <= file.len()
            &&& le16(file, pe + 4) == IMAGE_FILE_MACHINE_AMD64
            &&& le16(file, pe + 24) == 0x20b
            &&& 112 <= optional_len
            &&& 112 + 8 * le32(file, pe + 132) <= optional_len
        }),
    ensures
        ({
            let optional = le32(file, 60) + 24;
            let table = optional + le16(file, optional - 4);
            let sections = file.subrange(table, table + 40 * le16(file, optional - 18));
            let directories = le32(file, optional + 108);
            let rva = le32(file, optional + 192);
            let size = le32(file, optional + 196);
            let headers = le32(file, optional + 60);
            let length = file.len() as int;
            let place = file_offset(rva, size, headers, sections, length);
            &&& directories <= 10 ==> arm64ec(file) == Some(false)
            &&& 10 < directories && rva == 0 && size == 0 ==> arm64ec(file) == Some(false)
            &&& 10 < directories && rva == 0 && size != 0 ==> arm64ec(file) is None
            &&& 10 < directories && rva != 0 && size < 4 ==> arm64ec(file) is None
            &&& 10 < directories && rva != 0 && place is None ==> arm64ec(file) is None
            &&& 10 < directories && rva != 0 && 4 <= size ==> (place matches Some(offset) ==> {
                let declared = le32(file, offset);
                let pointer = le64(file, offset + 200);
                let metadata = pointer - le64(file, optional + 24);
                let target = file_offset(metadata, 4, headers, sections, length);
                &&& declared < 4 || size < declared ==> arm64ec(file) is None
                &&& 4 <= declared <= size && declared < 208 ==> arm64ec(file) == Some(false)
                &&& 208 <= declared <= size && pointer == 0 ==> arm64ec(file) == Some(false)
                &&& 208 <= declared <= size && pointer != 0 && 0 <= metadata <= u32::MAX && target
                    is Some ==> arm64ec(file) == Some(true)
                &&& 208 <= declared <= size && pointer != 0 && (metadata < 0 || u32::MAX < metadata
                    || target is None) ==> arm64ec(file) is None
            })
        }),
{
}

/// What a 32-bit image whose headers are in order says of itself: it can only be a managed
/// program that is pure managed code and not bound to 32 bits, whose header stands in one place
/// of the file and gives a size that its directory covers. Such a program is no ARM64EC one.
pub proof fn law_managed_programs_run_on_any_cpu(file: Seq<u8>)
    requires
        ({
            let pe = le32(file, 60);
            let optional_len = le16(file, pe + 20);
            let count = le16(file, pe + 6);
            &&& 64 <= file.len()
            &&& file[0] == 0x4d && file[1] == 0x5a
            &&& 64 <= pe
            &&& file[pe] == 0x50 && file[pe + 1] == 0x45 && file[pe + 2] == 0 && file[pe + 3] == 0
            &&& 1 <= count <= 96
            &&& pe + 24 + optional_len + 40 * count <= file.len()
            &&& le16(file, pe + 4) == IMAGE_FILE_MACHINE_I386
            &&& le16(file, pe + 24) == 0x10b
            &&& 96 <= optional_len
            &&& 96 + 8 * le32(file, pe + 116) <= optional_len
        }),
    ensures
        ({
            let optional = le32(file, 60) + 24;
            let table = optional + le16(file, optional - 4);
            let sections = file.subrange(table, table + 40 * le16(file, optional - 18));
            let rva = le32(file, optional + 208);
            let size = le32(file, optional + 212);
            let place = file_offset(
                rva,
                size,
                le32(file, optional + 60),
                sections,
                file.len() as int,
            );
            &&& le32(file, optional + 92) <= 14 ==> arm64ec(file) is None
            &&& 14 < le32(file, optional + 92) && (rva == 0 || size < 72 || place is None)
                ==> arm64ec(file) is None
            &&& 14 < le32(file, optional + 92) && rva != 0 && 72 <= size ==> (place matches Some(
                offset,
            ) ==> {
                // The two lowest flags are the two lowest bits of the first of their bytes.
                if 72 <= le32(file, offset) <= size && file[offset + 16] % 4 == 1 {
                    arm64ec(file) == Some(false)
                } else {
                    arm64ec(file) is None
                }
            })
        }),
{
}

/// Two files of one length that are alike up to the end of the section table have the same
/// headers.
proof fn lemma_headers_alike(file: Seq<u8>, other: Seq<u8>)
    requires
        has_headers(file),
        !is_pe32(file),
        other.len() == file.len(),
        forall|i: int| 0 <= i < table_end(file) ==> other[i] == file[i],
    ensures
        has_headers(other),
        !is_pe32(other),
        directory_count(other) == directory_count(file),
        LOAD_CONFIG_DIRECTORY < directory_count(file) ==> {
            &&& directory_rva(other, LOAD_CONFIG_DIRECTORY as int) == directory_rva(
                file,
                LOAD_CONFIG_DIRECTORY as int,
            )
            &&& directory_size(other, LOAD_CONFIG_DIRECTORY as int) == directory_size(
                file,
                LOAD_CONFIG_DIRECTORY as int,
            )
        },
        header_size(other) == header_size(file),
        image_base(other) == image_base(file),
        other.subrange(table_offset(other), table_end(other)) == file.subrange(
            table_offset(file),
            table_end(file),
        ),
{
    assert(pe_offset(other) == pe_offset(file));
    assert(section_count(other) == section_count(file));
    assert(optional_size(other) == optional_size(file));
    assert(image_machine(other) == image_machine(file));
    assert(le16(other, optional_offset(file)) == le16(file, optional_offset(file)));
    assert(image_directories(other) == image_directories(file));
    assert(directory_count(other) == directory_count(file));
}

/// The size that a load configuration gives itself does not matter once it covers the pointer:
/// two images that differ in nothing else have the same answer.
pub proof fn law_a_longer_configuration_changes_nothing(
    file: Seq<u8>,
    other: Seq<u8>,
    offset: int,
)
    requires
        ({
            let optional = le32(file, 60) + 24;
            let table = optional + le16(file, optional - 4);
            let table_end = table + 40 * le16(file, optional - 18);
            let rva = le32(file, optional + 192);
            let size = le32(file, optional + 196);
            &&& has_headers(file)
            &&& image_machine(file) == IMAGE_FILE_MACHINE_AMD64
            &&& 10 < le32(file, optional + 108)
            &&& rva != 0
            &&& file_offset(
                rva,
                size,
                le32(file, optional + 60),
                file.subrange(table, table_end),
                file.len() as int,
            ) == Some(offset)
            &&& table_end <= offset
            &&& 208 <= le32(file, offset) <= size
            &&& 208 <= le32(other, offset) <= size
            &&& other.len() == file.len()
            &&& forall|i: int|
                0 <= i < file.len() && !(offset <= i < offset + 4) ==> other[i] == file[i]
        }),
    ensures
        arm64ec(other) == arm64ec(file),
        arm64ec(file) == Some(false) <==> le64(file, offset + 200) == 0,
{
    lemma_headers_alike(file, other);
    law_one_place_inside_the_file(
        directory_rva(file, LOAD_CONFIG_DIRECTORY as int),
        directory_size(file, LOAD_CONFIG_DIRECTORY as int),
        header_size(file),
        file.subrange(table_offset(file), table_end(file)),
        file.len() as int,
        offset,
    );
    assert(le64(other, offset + 200) == le64(file, offset + 200));
}

/// The answer to report is the one that the file gives, and invalid data where it gives none.
pub proof fn law_reported_answers(file: Seq<u8>)
    ensures
        arm64ec(file) == Some(true) <==> arm64ec_answer(file) == Ok::<bool, u32>(true),
        arm64ec(file) == Some(false) <==> arm64ec_answer(file) == Ok::<bool, u32>(false),
        arm64ec(file) is None <==> arm64ec_answer(file) == Err::<bool, u32>(ERROR_INVALID_DATA),
{
}

} // verus!
