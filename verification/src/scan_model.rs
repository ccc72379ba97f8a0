//! What a scan of a program file does with each reply, and where that leads.

use crate::bytes::{law_fields_in_a_window, le16, le32, le64};
use crate::errors::{io_error_code, IoFailure};
use crate::image::{
    arm64ec_answer, config_is_hybrid, directories_start, directory_count, directory_rva,
    directory_size, has_coff_header, has_dos_header, has_headers, has_optional_header,
    header_size, image_base, image_directories, image_machine, image_offset, is_pe32,
    optional_offset, optional_size, pe_offset, runs_on_any_cpu, section_count, table_end, table_offset, CHPE_END, CHPE_OFFSET,
    CLR_DIRECTORY, CLR_HEADER_SIZE, COFF_HEADER_SIZE, DOS_HEADER_SIZE, LOAD_CONFIG_DIRECTORY,
    MAX_SECTIONS, PE32_DIRECTORIES, PE32_PLUS_DIRECTORIES,
};
use crate::rva::{file_offset, law_one_place_inside_the_file, SECTION_HEADER_SIZE};
use crate::win32::{ERROR_INVALID_DATA, IMAGE_FILE_MACHINE_AMD64, IMAGE_FILE_MACHINE_I386};
use vstd::prelude::*;

verus! {

/// How much of the header of a managed program a scan looks at.
pub const CLR_PREFIX_SIZE: usize = 20;

/// No scan asks for more bytes than this, however long the file: a DOS header, a file header,
/// the longest optional header, the longest section table, and the start of the header of a
/// managed program.
pub const SCAN_LIMIT: usize = 69483;

/// What is kept of an image's headers while its load configuration is read.
pub struct ImageView {
    pub header_size: int,
    pub image_base: int,
    pub sections: Seq<u8>,
}

/// Which piece of the file a read is for, and what the pieces before it said.
pub enum StageView {
    Dos,
    Coff,
    Optional { machine: int, section_count: int },
    Sections { directories: int, optional: Seq<u8> },
    Clr { size: int },
    ConfigSize { image: ImageView, size: int },
    ChpePointer { image: ImageView },
}

/// A read of `size` bytes at `offset` of a file of `length` bytes.
pub struct ReadView {
    pub length: int,
    pub offset: int,
    pub size: int,
    pub stage: StageView,
}

/// Where a scan stands: before the length is known, before a read, or at its end.
pub enum ScanView {
    Measure,
    Read(ReadView),
    Finished(Result<bool, u32>),
}

/// The end of a scan of a file that is not a sound image.
pub open spec fn invalid() -> ScanView {
    ScanView::Finished(Err(ERROR_INVALID_DATA))
}

/// The step that reads `size` bytes at `offset`, where the file has them.
pub open spec fn request(length: int, offset: int, size: int, stage: StageView) -> ScanView {
    if offset + size <= length {
        ScanView::Read(ReadView { length, offset, size, stage })
    } else {
        invalid()
    }
}

/// The step after the DOS header.
pub open spec fn after_dos(length: int, dos: Seq<u8>) -> ScanView {
    if dos[0] == 0x4d && dos[1] == 0x5a && DOS_HEADER_SIZE <= le32(dos, 60) {
        request(length, le32(dos, 60), COFF_HEADER_SIZE as int, StageView::Coff)
    } else {
        invalid()
    }
}

/// The step after the file header that was read at `offset`.
pub open spec fn after_coff(length: int, offset: int, coff: Seq<u8>) -> ScanView {
    if coff[0] == 0x50 && coff[1] == 0x45 && coff[2] == 0 && coff[3] == 0 && 1 <= le16(coff, 6)
        <= MAX_SECTIONS && PE32_DIRECTORIES <= le16(coff, 20) {
        request(
            length,
            offset + COFF_HEADER_SIZE,
            le16(coff, 20),
            StageView::Optional { machine: le16(coff, 4), section_count: le16(coff, 6) },
        )
    } else {
        invalid()
    }
}

/// The step after the optional header that was read at `offset`.
pub open spec fn after_optional(
    length: int,
    offset: int,
    machine: int,
    section_count: int,
    optional: Seq<u8>,
) -> ScanView {
    match directories_start(machine, le16(optional, 0), optional.len() as int) {
        Some(directories) => if le32(optional, directories - 4) <= (optional.len() - directories)
            / 8 {
            request(
                length,
                offset + optional.len(),
                section_count * SECTION_HEADER_SIZE,
                StageView::Sections { directories, optional },
            )
        } else {
            invalid()
        },
        None => invalid(),
    }
}

/// The step after the section table of a 32-bit image.
pub open spec fn after_sections_pe32(
    length: int,
    directories: int,
    optional: Seq<u8>,
    sections: Seq<u8>,
) -> ScanView {
    let rva = le32(optional, directories + CLR_DIRECTORY * 8);
    let size = le32(optional, directories + CLR_DIRECTORY * 8 + 4);
    if le32(optional, directories - 4) <= CLR_DIRECTORY || rva == 0 || size < CLR_HEADER_SIZE {
        invalid()
    } else {
        match file_offset(rva, size, le32(optional, 60), sections, length) {
            Some(offset) => request(
                length,
                offset,
                CLR_PREFIX_SIZE as int,
                StageView::Clr { size },
            ),
            None => invalid(),
        }
    }
}

/// The step after the section table of a 64-bit image.
pub open spec fn after_sections_pe32_plus(
    length: int,
    directories: int,
    optional: Seq<u8>,
    sections: Seq<u8>,
) -> ScanView {
    let rva = le32(optional, directories + LOAD_CONFIG_DIRECTORY * 8);
    let size = le32(optional, directories + LOAD_CONFIG_DIRECTORY * 8 + 4);
    if le32(optional, directories - 4) <= LOAD_CONFIG_DIRECTORY || (rva == 0 && size == 0) {
        ScanView::Finished(Ok(false))
    } else if rva == 0 || size < 4 {
        invalid()
    } else {
        match file_offset(rva, size, le32(optional, 60), sections, length) {
            Some(offset) => request(
                length,
                offset,
                4,
                StageView::ConfigSize {
                    image: ImageView {
                        header_size: le32(optional, 60),
                        image_base: le64(optional, 24),
                        sections,
                    },
                    size,
                },
            ),
            None => invalid(),
        }
    }
}

/// The step after the header of a managed program, of which the directory gives `size` bytes.
pub open spec fn after_clr(size: int, clr: Seq<u8>) -> ScanView {
    if runs_on_any_cpu(clr, 0, size) {
        ScanView::Finished(Ok(false))
    } else {
        invalid()
    }
}

/// The step after the first field of a load configuration at `offset`, of which the directory
/// gives `size` bytes.
pub open spec fn after_config_size(
    length: int,
    offset: int,
    image: ImageView,
    size: int,
    field: Seq<u8>,
) -> ScanView {
    let declared = le32(field, 0);
    if declared < 4 || size < declared {
        invalid()
    } else if declared < CHPE_END {
        ScanView::Finished(Ok(false))
    } else {
        request(length, offset + CHPE_OFFSET, 8, StageView::ChpePointer { image })
    }
}

/// The end of the scan, after the pointer to the hybrid metadata.
pub open spec fn after_chpe_pointer(length: int, image: ImageView, field: Seq<u8>) -> ScanView {
    let pointer = le64(field, 0);
    let metadata = pointer - image.image_base;
    if pointer == 0 {
        ScanView::Finished(Ok(false))
    } else if 0 <= metadata <= u32::MAX && file_offset(
        metadata,
        4,
        image.header_size,
        image.sections,
        length,
    ) is Some {
        ScanView::Finished(Ok(true))
    } else {
        invalid()
    }
}

/// The step after the length of the file.
pub open spec fn measured(reply: Result<u64, IoFailure>) -> ScanView {
    match reply {
        Ok(length) => request(length as int, 0, DOS_HEADER_SIZE as int, StageView::Dos),
        Err(failure) => ScanView::Finished(Err(io_error_code(failure))),
    }
}

/// The step after a read that gave these bytes.
pub open spec fn answered(read: ReadView, bytes: Seq<u8>) -> ScanView {
    match read.stage {
        StageView::Dos => after_dos(read.length, bytes),
        StageView::Coff => after_coff(read.length, read.offset, bytes),
        StageView::Optional { machine, section_count } => after_optional(
            read.length,
            read.offset,
            machine,
            section_count,
            bytes,
        ),
        StageView::Sections { directories, optional } => if directories == PE32_DIRECTORIES {
            after_sections_pe32(read.length, directories, optional, bytes)
        } else {
            after_sections_pe32_plus(read.length, directories, optional, bytes)
        },
        StageView::Clr { size } => after_clr(size, bytes),
        StageView::ConfigSize { image, size } => after_config_size(
            read.length,
            read.offset,
            image,
            size,
            bytes,
        ),
        StageView::ChpePointer { image } => after_chpe_pointer(read.length, image, bytes),
    }
}

/// The step after a read, whatever came of it.
pub open spec fn resumed(read: ReadView, reply: Result<Seq<u8>, IoFailure>) -> ScanView {
    match reply {
        Ok(bytes) => answered(read, bytes),
        Err(failure) => ScanView::Finished(Err(io_error_code(failure))),
    }
}

/// How many replies a scan can still wait for.
pub open spec fn replies_left(step: ScanView) -> nat {
    match step {
        ScanView::Measure => 7,
        ScanView::Read(read) => match read.stage {
            StageView::Dos => 6,
            StageView::Coff => 5,
            StageView::Optional { .. } => 4,
            StageView::Sections { .. } => 3,
            StageView::Clr { .. } => 1,
            StageView::ConfigSize { .. } => 2,
            StageView::ChpePointer { .. } => 1,
        },
        ScanView::Finished(_) => 0,
    }
}

/// The bytes that a read of this file gives.
pub open spec fn window(file: Seq<u8>, read: ReadView) -> Seq<u8> {
    file.subrange(read.offset, read.offset + read.size)
}

/// How the reads of a scan are answered: what comes of asking for the length of the file, and
/// of each read.
pub struct ScanReplies {
    pub length: Result<u64, IoFailure>,
    pub read: spec_fn(ReadView) -> Result<Seq<u8>, IoFailure>,
}

/// Every reply comes from this file.
pub open spec fn from_file(file: Seq<u8>) -> ScanReplies {
    ScanReplies { length: Ok(file.len() as u64), read: |read: ReadView| Ok(window(file, read)) }
}

/// Every reply comes from this file, or is a failure.
pub open spec fn agree_with(replies: ScanReplies, file: Seq<u8>) -> bool {
    &&& replies.length matches Ok(length) ==> length == file.len()
    &&& forall|read: ReadView|
        (#[trigger] (replies.read)(read)) matches Ok(bytes) ==> bytes == window(file, read)
}

/// Every read inside a file of the length that was given gives as many bytes as were asked for,
/// or is a failure.
pub open spec fn are_full(replies: ScanReplies) -> bool {
    replies.length matches Ok(length) ==> forall|read: ReadView|
        sound(read) && read.length == length ==> ((#[trigger] (replies.read)(read)) matches Ok(
            bytes,
        ) ==> bytes.len() == read.size)
}

/// The answer that a scan reaches from `step` on.
pub open spec fn drive(replies: ScanReplies, step: ScanView) -> Result<bool, u32>
    decreases replies_left(step),
{
    match step {
        ScanView::Measure => drive(replies, measured(replies.length)),
        ScanView::Read(read) => drive(replies, resumed(read, (replies.read)(read))),
        ScanView::Finished(result) => result,
    }
}

/// The first failure among the replies that a scan gets from `step` on.
pub open spec fn first_failure(replies: ScanReplies, step: ScanView) -> Option<IoFailure>
    decreases replies_left(step),
{
    match step {
        ScanView::Measure => match replies.length {
            Ok(_) => first_failure(replies, measured(replies.length)),
            Err(failure) => Some(failure),
        },
        ScanView::Read(read) => match (replies.read)(read) {
            Ok(bytes) => first_failure(replies, answered(read, bytes)),
            Err(failure) => Some(failure),
        },
        ScanView::Finished(_) => None,
    }
}

/// What comes of a scan of this file: the first failure, else what the file is.
pub open spec fn scan_outcome(replies: ScanReplies, file: Seq<u8>) -> Result<bool, u32> {
    match first_failure(replies, ScanView::Measure) {
        Some(failure) => Err(io_error_code(failure)),
        None => arm64ec_answer(file),
    }
}

/// The most bytes that a scan can still ask for.
pub open spec fn bytes_left(step: ScanView) -> int {
    match step {
        ScanView::Measure => SCAN_LIMIT as int,
        ScanView::Read(read) => match read.stage {
            StageView::Dos => SCAN_LIMIT as int,
            StageView::Coff => SCAN_LIMIT - DOS_HEADER_SIZE,
            StageView::Optional { .. } => read.size + MAX_SECTIONS * SECTION_HEADER_SIZE
                + CLR_PREFIX_SIZE,
            StageView::Sections { .. } => read.size + CLR_PREFIX_SIZE,
            StageView::Clr { .. } => CLR_PREFIX_SIZE as int,
            StageView::ConfigSize { .. } => 12,
            StageView::ChpePointer { .. } => 8,
        },
        ScanView::Finished(_) => 0,
    }
}

/// The bytes that a scan asks for from `step` on.
pub open spec fn bytes_asked(replies: ScanReplies, step: ScanView) -> int
    decreases replies_left(step),
{
    match step {
        ScanView::Measure => bytes_asked(replies, measured(replies.length)),
        ScanView::Read(read) => read.size + bytes_asked(
            replies,
            resumed(read, (replies.read)(read)),
        ),
        ScanView::Finished(_) => 0,
    }
}

/// The reads that a scan makes from `step` on, in order.
pub open spec fn reads_made(replies: ScanReplies, step: ScanView) -> Seq<ReadView>
    decreases replies_left(step),
{
    match step {
        ScanView::Measure => reads_made(replies, measured(replies.length)),
        ScanView::Read(read) => seq![read] + reads_made(
            replies,
            resumed(read, (replies.read)(read)),
        ),
        ScanView::Finished(_) => seq![],
    }
}

/// The read takes bytes that a file of `length` bytes has.
pub open spec fn is_inside(read: ReadView, length: int) -> bool {
    &&& 0 <= read.offset
    &&& 0 <= read.size
    &&& read.offset + read.size <= length
}

/// The read lies inside the file, and what the pieces before it said fits together.
pub open spec fn sound(read: ReadView) -> bool {
    &&& 0 <= read.offset
    &&& 0 <= read.size
    &&& read.offset + read.size <= read.length <= u64::MAX
    &&& match read.stage {
        StageView::Dos => read.size == DOS_HEADER_SIZE,
        StageView::Coff => read.size == COFF_HEADER_SIZE && read.offset <= u32::MAX,
        StageView::Optional { machine, section_count } => {
            &&& PE32_DIRECTORIES <= read.size <= u16::MAX
            &&& read.offset <= u32::MAX + COFF_HEADER_SIZE
            &&& 0 <= machine <= u16::MAX
            &&& 1 <= section_count <= MAX_SECTIONS
        },
        StageView::Sections { directories, optional } => {
            &&& read.size <= MAX_SECTIONS * SECTION_HEADER_SIZE
            &&& directories == PE32_DIRECTORIES || directories == PE32_PLUS_DIRECTORIES
            &&& directories <= optional.len() <= u16::MAX
            &&& le32(optional, directories - 4) <= (optional.len() - directories) / 8
        },
        StageView::Clr { size } => read.size == CLR_PREFIX_SIZE && 0 <= size <= u32::MAX,
        StageView::ConfigSize { image, size } => {
            &&& read.size == 4
            &&& 4 <= size <= u32::MAX
            &&& read.offset + size <= read.length
        },
        StageView::ChpePointer { image } => read.size == 8,
    }
}

/// The optional header holds, as a piece of the file, what it holds in the file.
proof fn lemma_optional_fields(file: Seq<u8>, i: int)
    requires
        has_headers(file),
        0 <= i < directory_count(file),
    ensures
        ({
            let optional = file.subrange(optional_offset(file), table_offset(file));
            let directories = image_directories(file)->0;
            &&& le32(optional, 60) == header_size(file)
            &&& le64(optional, 24) == image_base(file)
            &&& le32(optional, directories + i * 8) == directory_rva(file, i)
            &&& le32(optional, directories + i * 8 + 4) == directory_size(file, i)
        }),
{
    let start = optional_offset(file);
    let end = table_offset(file);
    let directories = image_directories(file)->0;
    law_fields_in_a_window(file, start, end, 60);
    law_fields_in_a_window(file, start, end, 24);
    law_fields_in_a_window(file, start, end, directories + i * 8);
    law_fields_in_a_window(file, start, end, directories + i * 8 + 4);
}

/// The number of data directories in the optional header, as a piece of the file.
proof fn lemma_optional_count(file: Seq<u8>)
    requires
        has_headers(file),
    ensures
        le32(
            file.subrange(optional_offset(file), table_offset(file)),
            image_directories(file)->0 - 4,
        ) == directory_count(file),
{
    law_fields_in_a_window(
        file,
        optional_offset(file),
        table_offset(file),
        image_directories(file)->0 - 4,
    );
}

/// From the header of a managed program on, a scan says whether that runs on any CPU.
proof fn lemma_drive_clr(file: Seq<u8>, offset: int, size: int)
    requires
        0 <= offset,
        CLR_HEADER_SIZE <= size,
        offset + size <= file.len(),
    ensures
        drive(
            from_file(file),
            request(
                file.len() as int,
                offset,
                CLR_PREFIX_SIZE as int,
                StageView::Clr { size },
            ),
        ) == (if runs_on_any_cpu(file, offset, size) {
            Ok::<bool, u32>(false)
        } else {
            Err::<bool, u32>(ERROR_INVALID_DATA)
        }),
{
    let read = ReadView {
        length: file.len() as int,
        offset,
        size: CLR_PREFIX_SIZE as int,
        stage: StageView::Clr { size },
    };
    let clr = window(file, read);
    law_fields_in_a_window(file, offset, offset + CLR_PREFIX_SIZE, 0);
    law_fields_in_a_window(file, offset, offset + CLR_PREFIX_SIZE, 16);
    assert(runs_on_any_cpu(clr, 0, size) == runs_on_any_cpu(file, offset, size));
    assert(drive(from_file(file), ScanView::Read(read)) == drive(from_file(file), answered(read, clr)));
}

/// From the load configuration on, a scan of an image reaches what the configuration says.
proof fn lemma_drive_config(file: Seq<u8>, offset: int, size: int, image: ImageView)
    requires
        image.header_size == header_size(file),
        image.image_base == image_base(file),
        image.sections == file.subrange(table_offset(file), table_end(file)),
        0 <= offset,
        4 <= size,
        offset + size <= file.len(),
    ensures
        drive(
            from_file(file),
            request(file.len() as int, offset, 4, StageView::ConfigSize { image, size }),
        ) == (match config_is_hybrid(file, offset, size) {
            Some(answer) => Ok::<bool, u32>(answer),
            None => Err::<bool, u32>(ERROR_INVALID_DATA),
        }),
{
    let length = file.len() as int;
    let read = ReadView {
        length,
        offset,
        size: 4,
        stage: StageView::ConfigSize { image, size },
    };
    let field = window(file, read);
    let declared = le32(file, offset);
    law_fields_in_a_window(file, offset, offset + 4, 0);
    assert(drive(from_file(file), ScanView::Read(read)) == drive(from_file(file), answered(read, field)));
    if CHPE_END <= declared <= size {
        let pointer_read = ReadView {
            length,
            offset: offset + CHPE_OFFSET,
            size: 8,
            stage: StageView::ChpePointer { image },
        };
        let pointer_field = window(file, pointer_read);
        law_fields_in_a_window(file, offset + CHPE_OFFSET, offset + CHPE_OFFSET + 8, 0);
        assert(answered(read, field) == ScanView::Read(pointer_read));
        assert(drive(from_file(file), ScanView::Read(pointer_read)) == drive(
            from_file(file),
            answered(pointer_read, pointer_field),
        ));
    }
}

/// A 32-bit image whose headers are in order is judged by the header of its managed program.
proof fn lemma_drive_pe32(file: Seq<u8>)
    requires
        has_headers(file),
        is_pe32(file),
    ensures
        drive(
            from_file(file),
            after_sections_pe32(
                file.len() as int,
                PE32_DIRECTORIES as int,
                file.subrange(optional_offset(file), table_offset(file)),
                file.subrange(table_offset(file), table_end(file)),
            ),
        ) == arm64ec_answer(file),
{
    let rva = directory_rva(file, CLR_DIRECTORY as int);
    let size = directory_size(file, CLR_DIRECTORY as int);
    lemma_optional_count(file);
    if directory_count(file) > CLR_DIRECTORY {
        lemma_optional_fields(file, CLR_DIRECTORY as int);
        if rva != 0 && size >= CLR_HEADER_SIZE && image_offset(file, rva, size) is Some {
            let offset = image_offset(file, rva, size)->0;
            law_one_place_inside_the_file(
                rva,
                size,
                header_size(file),
                file.subrange(table_offset(file), table_end(file)),
                file.len() as int,
                offset,
            );
            lemma_drive_clr(file, offset, size);
        }
    }
}

/// A 64-bit image whose headers are in order is judged by its load configuration.
proof fn lemma_drive_pe32_plus(file: Seq<u8>)
    requires
        has_headers(file),
        !is_pe32(file),
    ensures
        drive(
            from_file(file),
            after_sections_pe32_plus(
                file.len() as int,
                PE32_PLUS_DIRECTORIES as int,
                file.subrange(optional_offset(file), table_offset(file)),
                file.subrange(table_offset(file), table_end(file)),
            ),
        ) == arm64ec_answer(file),
{
    let sections = file.subrange(table_offset(file), table_end(file));
    let rva = directory_rva(file, LOAD_CONFIG_DIRECTORY as int);
    let size = directory_size(file, LOAD_CONFIG_DIRECTORY as int);
    lemma_optional_count(file);
    if directory_count(file) > LOAD_CONFIG_DIRECTORY {
        lemma_optional_fields(file, LOAD_CONFIG_DIRECTORY as int);
        if rva != 0 && size >= 4 && image_offset(file, rva, size) is Some {
            let offset = image_offset(file, rva, size)->0;
            law_one_place_inside_the_file(
                rva,
                size,
                header_size(file),
                sections,
                file.len() as int,
                offset,
            );
            let image = ImageView {
                header_size: header_size(file),
                image_base: image_base(file),
                sections,
            };
            lemma_drive_config(file, offset, size, image);
        }
    }
}

/// From the section table on, a scan of a file finds what the file is.
proof fn lemma_drive_table(file: Seq<u8>)
    requires
        has_optional_header(file),
    ensures
        drive(
            from_file(file),
            request(
                file.len() as int,
                table_offset(file),
                section_count(file) * SECTION_HEADER_SIZE,
                StageView::Sections {
                    directories: image_directories(file)->0,
                    optional: file.subrange(optional_offset(file), table_offset(file)),
                },
            ),
        ) == arm64ec_answer(file),
{
    if has_headers(file) {
        let read = ReadView {
            length: file.len() as int,
            offset: table_offset(file),
            size: section_count(file) * SECTION_HEADER_SIZE,
            stage: StageView::Sections {
                directories: image_directories(file)->0,
                optional: file.subrange(optional_offset(file), table_offset(file)),
            },
        };
        let sections = window(file, read);
        assert(drive(from_file(file), ScanView::Read(read)) == drive(from_file(file), answered(read, sections)));
        if is_pe32(file) {
            lemma_drive_pe32(file);
        } else {
            lemma_drive_pe32_plus(file);
        }
    }
}

/// From the optional header on, a scan of a file finds what the file is.
proof fn lemma_drive_optional(file: Seq<u8>)
    requires
        has_coff_header(file),
    ensures
        drive(
            from_file(file),
            request(
                file.len() as int,
                optional_offset(file),
                optional_size(file),
                StageView::Optional {
                    machine: image_machine(file),
                    section_count: section_count(file),
                },
            ),
        ) == arm64ec_answer(file),
{
    if table_offset(file) <= file.len() {
        let read = ReadView {
            length: file.len() as int,
            offset: optional_offset(file),
            size: optional_size(file),
            stage: StageView::Optional {
                machine: image_machine(file),
                section_count: section_count(file),
            },
        };
        let optional = window(file, read);
        assert(optional.len() == optional_size(file));
        assert(le16(optional, 0) == le16(file, optional_offset(file)));
        assert(drive(from_file(file), ScanView::Read(read)) == drive(from_file(file), answered(read, optional)));
        if image_directories(file) is Some {
            assert(le32(optional, image_directories(file)->0 - 4) == directory_count(file));
            if has_optional_header(file) {
                lemma_drive_table(file);
            }
        }
    }
}

/// From the file header on, a scan of a file finds what the file is.
proof fn lemma_drive_coff(file: Seq<u8>)
    requires
        has_dos_header(file),
    ensures
        drive(
            from_file(file),
            request(
                file.len() as int,
                pe_offset(file),
                COFF_HEADER_SIZE as int,
                StageView::Coff,
            ),
        ) == arm64ec_answer(file),
{
    if pe_offset(file) + COFF_HEADER_SIZE <= file.len() {
        let read = ReadView {
            length: file.len() as int,
            offset: pe_offset(file),
            size: COFF_HEADER_SIZE as int,
            stage: StageView::Coff,
        };
        let coff = window(file, read);
        assert(le16(coff, 4) == image_machine(file));
        assert(le16(coff, 6) == section_count(file));
        assert(le16(coff, 20) == optional_size(file));
        assert(drive(from_file(file), ScanView::Read(read)) == drive(from_file(file), answered(read, coff)));
        if has_coff_header(file) {
            lemma_drive_optional(file);
        }
    }
}

/// A scan whose replies all come from one file finds what that file is.
pub proof fn law_scan_finds_the_answer(file: Seq<u8>)
    requires
        file.len() <= u64::MAX,
    ensures
        drive(from_file(file), ScanView::Measure) == arm64ec_answer(file),
{
    let length = file.len() as int;
    let first = request(length, 0, DOS_HEADER_SIZE as int, StageView::Dos);
    assert(drive(from_file(file), ScanView::Measure) == drive(from_file(file), first));
    if DOS_HEADER_SIZE <= length {
        let read = ReadView {
            length,
            offset: 0,
            size: DOS_HEADER_SIZE as int,
            stage: StageView::Dos,
        };
        let dos = window(file, read);
        assert(le32(dos, 60) == pe_offset(file));
        assert(drive(from_file(file), ScanView::Read(read)) == drive(
            from_file(file),
            answered(read, dos),
        ));
        if has_dos_header(file) {
            lemma_drive_coff(file);
        }
    }
}

/// The first failed reply ends a scan, wherever it stands and whatever the replies before it
/// were: the result is the code of that failure.
pub proof fn law_the_first_failure_ends_the_scan(replies: ScanReplies, step: ScanView)
    ensures
        first_failure(replies, step) matches Some(failure) ==> drive(replies, step) == Err::<
            bool,
            u32,
        >(io_error_code(failure)),
    decreases replies_left(step),
{
    reveal_with_fuel(drive, 2);
    match step {
        ScanView::Measure => {
            if replies.length is Ok {
                law_the_first_failure_ends_the_scan(replies, measured(replies.length));
            }
        },
        ScanView::Read(read) => {
            if let Ok(bytes) = (replies.read)(read) {
                law_the_first_failure_ends_the_scan(replies, answered(read, bytes));
            }
        },
        ScanView::Finished(_) => {},
    }
}

/// Replies from a file of which none is a failure lead where the file leads.
proof fn lemma_drive_without_failure(replies: ScanReplies, file: Seq<u8>, step: ScanView)
    requires
        agree_with(replies, file),
        first_failure(replies, step) is None,
    ensures
        drive(replies, step) == drive(from_file(file), step),
    decreases replies_left(step),
{
    match step {
        ScanView::Measure => {
            assert(measured(replies.length) == measured(from_file(file).length));
            lemma_drive_without_failure(replies, file, measured(replies.length));
        },
        ScanView::Read(read) => {
            let bytes = window(file, read);
            assert((replies.read)(read) == Ok::<Seq<u8>, IoFailure>(bytes));
            assert((from_file(file).read)(read) == Ok::<Seq<u8>, IoFailure>(bytes));
            lemma_drive_without_failure(replies, file, answered(read, bytes));
        },
        ScanView::Finished(_) => {},
    }
}

/// A scan whose replies come from one file or fail ends with the first failure, or finds what
/// that file is.
pub proof fn law_scan_reaches_its_outcome(replies: ScanReplies, file: Seq<u8>)
    requires
        agree_with(replies, file),
    ensures
        drive(replies, ScanView::Measure) == scan_outcome(replies, file),
{
    law_the_first_failure_ends_the_scan(replies, ScanView::Measure);
    if first_failure(replies, ScanView::Measure) is None {
        lemma_drive_without_failure(replies, file, ScanView::Measure);
        law_scan_finds_the_answer(file);
    }
}

/// Whatever a read gives, the scan comes closer to its end, and every further read is sound:
/// it lies inside the file and takes at most as many bytes as an optional header can have. What
/// is asked for stays within the bytes that were left.
pub proof fn law_every_reply_brings_the_end_closer(
    read: ReadView,
    reply: Result<Seq<u8>, IoFailure>,
)
    requires
        sound(read),
        reply matches Ok(bytes) ==> bytes.len() == read.size,
    ensures
        replies_left(resumed(read, reply)) < replies_left(ScanView::Read(read)),
        resumed(read, reply) matches ScanView::Read(next) ==> {
            &&& sound(next)
            &&& next.length == read.length
            &&& next.size <= u16::MAX
        },
        read.size + bytes_left(resumed(read, reply)) <= bytes_left(ScanView::Read(read)),
{
    if let Ok(bytes) = reply {
        if let StageView::Sections { directories, optional } = read.stage {
            let directory = if directories == PE32_DIRECTORIES {
                CLR_DIRECTORY as int
            } else {
                LOAD_CONFIG_DIRECTORY as int
            };
            let rva = le32(optional, directories + directory * 8);
            let size = le32(optional, directories + directory * 8 + 4);
            let header_size = le32(optional, 60);
            if let Some(offset) = file_offset(rva, size, header_size, bytes, read.length) {
                law_one_place_inside_the_file(
                    rva,
                    size,
                    header_size,
                    bytes,
                    read.length,
                    offset,
                );
            }
        }
    }
}

/// Replies that come from one file or fail are full.
pub proof fn law_replies_from_a_file_are_full(replies: ScanReplies, file: Seq<u8>)
    requires
        agree_with(replies, file),
    ensures
        are_full(replies),
{
}

/// What is left to ask for bounds what is asked for, and all of it lies inside the file.
proof fn lemma_asks_within_bytes_left(replies: ScanReplies, step: ScanView)
    requires
        are_full(replies),
        step matches ScanView::Read(read) ==> sound(read) && (replies.length matches Ok(length)
            && read.length == length),
    ensures
        0 <= bytes_asked(replies, step) <= bytes_left(step),
        replies_left(step) <= 6 ==> reads_made(replies, step).len() <= replies_left(step),
        step is Measure ==> reads_made(replies, step).len() <= 6,
        replies.length matches Ok(length) ==> forall|i: int|
            0 <= i < reads_made(replies, step).len() ==> is_inside(
                #[trigger] reads_made(replies, step)[i],
                length as int,
            ),
        replies.length is Err && step is Measure ==> reads_made(replies, step).len() == 0,
    decreases replies_left(step),
{
    reveal_with_fuel(reads_made, 2);
    match step {
        ScanView::Measure => {
            lemma_asks_within_bytes_left(replies, measured(replies.length));
        },
        ScanView::Read(read) => {
            let reply = (replies.read)(read);
            let next = resumed(read, reply);
            law_every_reply_brings_the_end_closer(read, reply);
            lemma_asks_within_bytes_left(replies, next);
            assert forall|i: int| 0 <= i < reads_made(replies, step).len() implies is_inside(
                #[trigger] reads_made(replies, step)[i],
                read.length,
            ) by {
                if i > 0 {
                    assert(reads_made(replies, step)[i] == reads_made(replies, next)[i - 1]);
                }
            }
        },
        ScanView::Finished(_) => {},
    }
}

/// However long the file is and whatever it holds, even if it changes in between, a scan makes
/// at most six reads, each inside the file, and asks for a bounded number of bytes. Without a
/// length it reads nothing.
pub proof fn law_scan_reads_a_bounded_part(replies: ScanReplies)
    requires
        are_full(replies),
    ensures
        bytes_asked(replies, ScanView::Measure) <= SCAN_LIMIT == 69483,
        reads_made(replies, ScanView::Measure).len() <= 6,
        match replies.length {
            Ok(length) => forall|i: int|
                0 <= i < reads_made(replies, ScanView::Measure).len() ==> is_inside(
                    #[trigger] reads_made(replies, ScanView::Measure)[i],
                    length as int,
                ),
            Err(_) => reads_made(replies, ScanView::Measure).len() == 0,
        },
{
    lemma_asks_within_bytes_left(replies, ScanView::Measure);
}

/// A scan starts with the first 64 bytes of the file, and a file without them is invalid data.
/// A failure, of the first request or of any read, ends the scan with its code.
pub proof fn law_the_first_read_and_failures(length: u64, read: ReadView, failure: IoFailure)
    ensures
        64 <= length ==> measured(Ok(length)) == ScanView::Read(
            (ReadView { length: length as int, offset: 0, size: 64, stage: StageView::Dos }),
        ),
        length < 64 ==> measured(Ok(length)) == ScanView::Finished(Err(ERROR_INVALID_DATA)),
        measured(Err(failure)) == ScanView::Finished(Err(io_error_code(failure))),
        resumed(read, Err(failure)) == ScanView::Finished(Err(io_error_code(failure))),
{
}

/// A reply with bytes is judged by those bytes alone, and by what the read was for.
pub proof fn law_replies_are_judged_by_their_bytes(read: ReadView, bytes: Seq<u8>)
    ensures
        resumed(read, Ok(bytes)) == answered(read, bytes),
{
}

/// Behind the DOS header comes the file header: the 24 bytes where the DOS header points to,
/// which is behind it and inside the file.
pub proof fn law_the_dos_header_leads_to_the_file_header(read: ReadView, dos: Seq<u8>)
    requires
        read.stage is Dos,
    ensures
        ({
            let pe = dos[60] + 0x100 * dos[61] + 0x1_0000 * dos[62] + 0x100_0000 * dos[63];
            let is_header = dos[0] == 0x4d && dos[1] == 0x5a && 64 <= pe && pe + 24
                <= read.length;
            &&& is_header ==> answered(read, dos) == ScanView::Read(
                ReadView { length: read.length, offset: pe, size: 24, stage: StageView::Coff },
            )
            &&& !is_header ==> answered(read, dos) == ScanView::Finished(Err(ERROR_INVALID_DATA))
        }),
{
}

/// Right behind the file header comes the optional header, all of it, however long the file
/// header says it is: at least 96 bytes. The machine type and the number of sections, one to 96,
/// are kept.
pub proof fn law_the_file_header_leads_to_the_optional_header(read: ReadView, coff: Seq<u8>)
    requires
        read.stage is Coff,
    ensures
        ({
            let machine = coff[4] + 0x100 * coff[5];
            let section_count = coff[6] + 0x100 * coff[7];
            let size = coff[20] + 0x100 * coff[21];
            let is_header = coff[0] == 0x50 && coff[1] == 0x45 && coff[2] == 0 && coff[3] == 0 && 1
                <= section_count <= 96 && 96 <= size && read.offset + 24 + size <= read.length;
            &&& is_header ==> answered(read, coff) == ScanView::Read(
                ReadView {
                    length: read.length,
                    offset: read.offset + 24,
                    size,
                    stage: StageView::Optional { machine, section_count },
                },
            )
            &&& !is_header ==> answered(read, coff) == ScanView::Finished(Err(ERROR_INVALID_DATA))
        }),
{
}

/// Right behind the optional header comes the section table, 40 bytes for each section, if the
/// header is one with 64-bit addresses for x86-64 or one with 32-bit addresses for x86, and if
/// it has room for its data directories.
pub proof fn law_the_optional_header_leads_to_the_section_table(
    read: ReadView,
    machine: int,
    section_count: int,
    optional: Seq<u8>,
)
    requires
        read.stage == (StageView::Optional { machine, section_count }),
        96 <= optional.len(),
    ensures
        ({
            let magic = optional[0] + 0x100 * optional[1];
            let is_long = machine == IMAGE_FILE_MACHINE_AMD64 && magic == 0x20b && 112 + 8 * le32(
                optional,
                108,
            ) <= optional.len();
            let is_short = machine == IMAGE_FILE_MACHINE_I386 && magic == 0x10b && 96 + 8 * le32(
                optional,
                92,
            ) <= optional.len();
            let has_table = read.offset + optional.len() + 40 * section_count <= read.length;
            &&& (is_long || is_short) && has_table ==> answered(read, optional) == ScanView::Read(
                ReadView {
                    length: read.length,
                    offset: read.offset + optional.len(),
                    size: 40 * section_count,
                    stage: StageView::Sections {
                        directories: if is_long {
                            112
                        } else {
                            96
                        },
                        optional,
                    },
                },
            )
            &&& !((is_long || is_short) && has_table) ==> answered(read, optional)
                == ScanView::Finished(Err(ERROR_INVALID_DATA))
        }),
{
}

/// The section table of an image with 32-bit addresses leads to the first 20 bytes of the
/// header of its managed program, wherever in the file the last but one of its sixteen data
/// directories resolves to. An image that has none is invalid data.
pub proof fn law_short_headers_lead_to_the_managed_program(
    read: ReadView,
    optional: Seq<u8>,
    sections: Seq<u8>,
)
    requires
        read.stage == (StageView::Sections { directories: 96, optional }),
    ensures
        ({
            let rva = le32(optional, 208);
            let size = le32(optional, 212);
            let place = file_offset(rva, size, le32(optional, 60), sections, read.length);
            let is_managed = 14 < le32(optional, 92) && rva != 0 && 72 <= size && place is Some;
            &&& is_managed ==> answered(read, sections) == ScanView::Read(
                ReadView {
                    length: read.length,
                    offset: place->0,
                    size: 20,
                    stage: StageView::Clr { size },
                },
            )
            &&& !is_managed ==> answered(read, sections) == ScanView::Finished(
                Err(ERROR_INVALID_DATA),
            )
        }),
{
    let rva = le32(optional, 208);
    let size = le32(optional, 212);
    let header_size = le32(optional, 60);
    if let Some(offset) = file_offset(rva, size, header_size, sections, read.length) {
        law_one_place_inside_the_file(rva, size, header_size, sections, read.length, offset);
    }
}

/// The section table of an image with 64-bit addresses leads to the first four bytes of its
/// load configuration, wherever in the file its data directory resolves to. An image without
/// one is not an ARM64EC program; one whose directory makes no sense is invalid data.
pub proof fn law_long_headers_lead_to_the_load_configuration(
    read: ReadView,
    optional: Seq<u8>,
    sections: Seq<u8>,
)
    requires
        read.stage == (StageView::Sections { directories: 112, optional }),
    ensures
        ({
            let rva = le32(optional, 192);
            let size = le32(optional, 196);
            let place = file_offset(rva, size, le32(optional, 60), sections, read.length);
            let is_plain = le32(optional, 108) <= 10 || (rva == 0 && size == 0);
            let is_found = rva != 0 && 4 <= size && place is Some;
            &&& is_plain ==> answered(read, sections) == ScanView::Finished(Ok(false))
            &&& !is_plain && is_found ==> answered(read, sections) == ScanView::Read(
                ReadView {
                    length: read.length,
                    offset: place->0,
                    size: 4,
                    stage: StageView::ConfigSize {
                        image: ImageView {
                            header_size: le32(optional, 60),
                            image_base: le64(optional, 24),
                            sections,
                        },
                        size,
                    },
                },
            )
            &&& !is_plain && !is_found ==> answered(read, sections) == ScanView::Finished(
                Err(ERROR_INVALID_DATA),
            )
        }),
{
    let rva = le32(optional, 192);
    let size = le32(optional, 196);
    let header_size = le32(optional, 60);
    if let Some(offset) = file_offset(rva, size, header_size, sections, read.length) {
        law_one_place_inside_the_file(rva, size, header_size, sections, read.length, offset);
    }
}

/// The header of a managed program ends the scan: it is no ARM64EC program if its size is
/// possible and of its two lowest flags the first alone is set, and invalid data otherwise.
pub proof fn law_the_managed_header_ends_the_scan(read: ReadView, size: int, clr: Seq<u8>)
    requires
        read.stage == (StageView::Clr { size }),
    ensures
        ({
            let declared = clr[0] + 0x100 * clr[1] + 0x1_0000 * clr[2] + 0x100_0000 * clr[3];
            let runs_anywhere = 72 <= declared <= size && clr[16] % 4 == 1;
            &&& runs_anywhere ==> answered(read, clr) == ScanView::Finished(Ok(false))
            &&& !runs_anywhere ==> answered(read, clr) == ScanView::Finished(
                Err(ERROR_INVALID_DATA),
            )
        }),
{
}

/// A load configuration of any size that covers the pointer to the hybrid metadata leads to
/// that pointer: the same eight bytes for every such size. One that ends before the pointer is
/// that of a plain program, and one that is larger than its directory is invalid data.
pub proof fn law_every_size_that_covers_the_pointer_leads_to_it(
    read: ReadView,
    image: ImageView,
    size: int,
    field: Seq<u8>,
)
    requires
        read.stage == (StageView::ConfigSize { image, size }),
        read.offset + size <= read.length,
    ensures
        ({
            let declared = field[0] + 0x100 * field[1] + 0x1_0000 * field[2] + 0x100_0000
                * field[3];
            &&& 208 <= declared <= size ==> answered(read, field) == ScanView::Read(
                ReadView {
                    length: read.length,
                    offset: read.offset + 200,
                    size: 8,
                    stage: StageView::ChpePointer { image },
                },
            )
            &&& 4 <= declared < 208 && declared <= size ==> answered(read, field)
                == ScanView::Finished(Ok(false))
            &&& declared < 4 || size < declared ==> answered(read, field) == ScanView::Finished(
                Err(ERROR_INVALID_DATA),
            )
        }),
{
}

/// The pointer to the hybrid metadata ends the scan. None makes a plain program; one to a place
/// that the image's file holds makes an ARM64EC program; any other is invalid data.
pub proof fn law_the_metadata_pointer_ends_the_scan(
    read: ReadView,
    image: ImageView,
    field: Seq<u8>,
)
    requires
        read.stage == (StageView::ChpePointer { image }),
    ensures
        ({
            let pointer = le64(field, 0);
            let metadata = pointer - image.image_base;
            let is_held = 0 <= metadata < 0x1_0000_0000 && file_offset(
                metadata,
                4,
                image.header_size,
                image.sections,
                read.length,
            ) is Some;
            &&& pointer == 0 ==> answered(read, field) == ScanView::Finished(Ok(false))
            &&& pointer != 0 && is_held ==> answered(read, field) == ScanView::Finished(Ok(true))
            &&& pointer != 0 && !is_held ==> answered(read, field) == ScanView::Finished(
                Err(ERROR_INVALID_DATA),
            )
        }),
{
}

} // verus!
