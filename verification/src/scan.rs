//! Finding out what a program file is with a few bounded reads.
//!
//! A scan asks for the length of the file and then for up to six short pieces of it, one after
//! the other. However long the file is, it asks for a bounded part of it, and never for a byte
//! outside it.

use crate::bytes::{le32, u16_at, u32_at, u64_at};
use crate::errors::{io_error, io_error_code, IoFailure};
use crate::image::{
    arm64ec_answer, CHPE_END, CHPE_OFFSET, CLR_DIRECTORY, CLR_HEADER_SIZE, COFF_HEADER_SIZE,
    DOS_HEADER_SIZE, LOAD_CONFIG_DIRECTORY, MAX_SECTIONS, PE32_DIRECTORIES, PE32_MAGIC,
    PE32_PLUS_DIRECTORIES, PE32_PLUS_MAGIC,
};
use crate::rva::{law_one_place_inside_the_file, rva_offset, SECTION_HEADER_SIZE};
use crate::scan_model::{
    after_chpe_pointer, after_clr, after_coff, after_config_size, after_dos, after_optional,
    after_sections_pe32, after_sections_pe32_plus, answered, drive, from_file, law_every_reply_brings_the_end_closer,
    law_scan_finds_the_answer, measured, replies_left, request, resumed, sound, ImageView,
    ReadView, ScanView, StageView, CLR_PREFIX_SIZE,
};
use crate::win32::{ERROR_INVALID_DATA, IMAGE_FILE_MACHINE_AMD64, IMAGE_FILE_MACHINE_I386};
use vstd::prelude::*;

verus! {

/// What is kept of an image's headers while its load configuration is read.
struct Image {
    header_size: u32,
    image_base: u64,
    sections: Vec<u8>,
}

/// Which piece of the file a read is for, and what the pieces before it said.
enum Stage {
    Dos,
    Coff,
    Optional { machine: u16, section_count: usize },
    Sections { directories: usize, optional: Vec<u8> },
    Clr { size: u32 },
    ConfigSize { image: Image, size: u32 },
    ChpePointer { image: Image },
}

/// A read that a scan waits for.
pub struct PendingRead {
    length: u64,
    offset: u64,
    size: usize,
    stage: Stage,
}

/// What a scan needs next, or what it found.
pub enum ScanStep {
    /// The length of the file.
    Measure,
    /// Some bytes of the file.
    Read(PendingRead),
    /// Nothing: whether the program is an ARM64EC one, or the error to report.
    Finished(Result<bool, u32>),
}

impl View for Image {
    type V = ImageView;

    closed spec fn view(&self) -> ImageView {
        ImageView {
            header_size: self.header_size as int,
            image_base: self.image_base as int,
            sections: self.sections@,
        }
    }
}

impl View for Stage {
    type V = StageView;

    closed spec fn view(&self) -> StageView {
        match *self {
            Stage::Dos => StageView::Dos,
            Stage::Coff => StageView::Coff,
            Stage::Optional { machine, section_count } => StageView::Optional {
                machine: machine as int,
                section_count: section_count as int,
            },
            Stage::Sections { directories, optional } => StageView::Sections {
                directories: directories as int,
                optional: optional@,
            },
            Stage::Clr { size } => StageView::Clr { size: size as int },
            Stage::ConfigSize { image, size } => StageView::ConfigSize {
                image: image@,
                size: size as int,
            },
            Stage::ChpePointer { image } => StageView::ChpePointer { image: image@ },
        }
    }
}

impl View for PendingRead {
    type V = ReadView;

    closed spec fn view(&self) -> ReadView {
        ReadView {
            length: self.length as int,
            offset: self.offset as int,
            size: self.size as int,
            stage: self.stage@,
        }
    }
}

impl View for ScanStep {
    type V = ScanView;

    open spec fn view(&self) -> ScanView {
        match *self {
            ScanStep::Measure => ScanView::Measure,
            ScanStep::Read(read) => ScanView::Read(read@),
            ScanStep::Finished(result) => ScanView::Finished(result),
        }
    }
}

/// A reply to a read, with the bytes it gave as a sequence.
pub open spec fn reply_view(reply: Result<Vec<u8>, IoFailure>) -> Result<Seq<u8>, IoFailure> {
    match reply {
        Ok(bytes) => Ok(bytes@),
        Err(failure) => Err(failure),
    }
}

/// Checks that a file of `length` bytes has `size` bytes at `offset`.
pub fn read_at(length: u64, offset: u64, size: usize) -> (result: Result<(), u32>)
    ensures
        result == (if offset + size <= length {
            Ok::<(), u32>(())
        } else {
            Err::<(), u32>(ERROR_INVALID_DATA)
        }),
{
    match offset.checked_add(size as u64) {
        Some(end) if end <= length => Ok(()),
        _ => Err(ERROR_INVALID_DATA),
    }
}

/// Makes the step that reads `size` bytes at `offset`, where the file has them.
fn read_step(length: u64, offset: u64, size: usize, stage: Stage) -> (step: ScanStep)
    requires
        offset + size <= length ==> sound(
            (ReadView {
                length: length as int,
                offset: offset as int,
                size: size as int,
                stage: stage@,
            }),
        ),
    ensures
        step@ == request(length as int, offset as int, size as int, stage@),
{
    match read_at(length, offset, size) {
        Ok(()) => ScanStep::Read(PendingRead { length, offset, size, stage }),
        Err(error) => ScanStep::Finished(Err(error)),
    }
}

/// Judges the DOS header.
fn step_after_dos(length: u64, dos: &[u8]) -> (step: ScanStep)
    requires
        dos@.len() == DOS_HEADER_SIZE,
    ensures
        step@ == after_dos(length as int, dos@),
{
    let pe_offset: u32 = u32_at(dos, 60);
    if dos[0] != 0x4d || dos[1] != 0x5a || (pe_offset as usize) < DOS_HEADER_SIZE {
        return ScanStep::Finished(Err(ERROR_INVALID_DATA));
    }
    read_step(length, pe_offset as u64, COFF_HEADER_SIZE, Stage::Coff)
}

/// Judges the file header that was read at `offset`.
fn step_after_coff(length: u64, offset: u64, coff: &[u8]) -> (step: ScanStep)
    requires
        offset <= u32::MAX,
        coff@.len() == COFF_HEADER_SIZE,
    ensures
        step@ == after_coff(length as int, offset as int, coff@),
{
    if coff[0] != 0x50 || coff[1] != 0x45 || coff[2] != 0 || coff[3] != 0 {
        return ScanStep::Finished(Err(ERROR_INVALID_DATA));
    }
    let section_count: usize = u16_at(coff, 6) as usize;
    if section_count == 0 || section_count > MAX_SECTIONS {
        return ScanStep::Finished(Err(ERROR_INVALID_DATA));
    }
    let optional_size: usize = u16_at(coff, 20) as usize;
    if optional_size < PE32_DIRECTORIES {
        return ScanStep::Finished(Err(ERROR_INVALID_DATA));
    }
    let machine: u16 = u16_at(coff, 4);
    read_step(
        length,
        offset + COFF_HEADER_SIZE as u64,
        optional_size,
        Stage::Optional { machine, section_count },
    )
}

/// Judges the optional header that was read at `offset`.
fn step_after_optional(
    length: u64,
    offset: u64,
    machine: u16,
    section_count: usize,
    optional: Vec<u8>,
) -> (step: ScanStep)
    requires
        offset <= u32::MAX + COFF_HEADER_SIZE,
        section_count <= MAX_SECTIONS,
        PE32_DIRECTORIES <= optional@.len() <= u16::MAX,
    ensures
        step@ == after_optional(
            length as int,
            offset as int,
            machine as int,
            section_count as int,
            optional@,
        ),
{
    let optional_size: usize = optional.len();
    let magic: u16 = u16_at(optional.as_slice(), 0);
    let directories: usize = if machine == IMAGE_FILE_MACHINE_AMD64 && magic == PE32_PLUS_MAGIC
        && optional_size >= PE32_PLUS_DIRECTORIES {
        PE32_PLUS_DIRECTORIES
    } else if machine == IMAGE_FILE_MACHINE_I386 && magic == PE32_MAGIC {
        PE32_DIRECTORIES
    } else {
        return ScanStep::Finished(Err(ERROR_INVALID_DATA));
    };
    let count: u32 = u32_at(optional.as_slice(), directories - 4);
    if count as u64 > ((optional_size - directories) / 8) as u64 {
        return ScanStep::Finished(Err(ERROR_INVALID_DATA));
    }
    read_step(
        length,
        offset + optional_size as u64,
        section_count * SECTION_HEADER_SIZE,
        Stage::Sections { directories, optional },
    )
}

/// Looks for the managed program of a 32-bit image.
fn step_after_sections_pe32(
    length: u64,
    directories: usize,
    optional: &[u8],
    sections: &[u8],
) -> (step: ScanStep)
    requires
        4 <= directories <= optional@.len() <= u16::MAX,
        64 <= optional@.len(),
        le32(optional@, directories - 4) <= (optional@.len() - directories) / 8,
    ensures
        step@ == after_sections_pe32(length as int, directories as int, optional@, sections@),
{
    let count: u32 = u32_at(optional, directories - 4);
    if count as usize <= CLR_DIRECTORY {
        return ScanStep::Finished(Err(ERROR_INVALID_DATA));
    }
    let rva: u32 = u32_at(optional, directories + CLR_DIRECTORY * 8);
    let size: u32 = u32_at(optional, directories + CLR_DIRECTORY * 8 + 4);
    if rva == 0 || size < CLR_HEADER_SIZE {
        return ScanStep::Finished(Err(ERROR_INVALID_DATA));
    }
    let header_size: u32 = u32_at(optional, 60);
    match rva_offset(rva, size, header_size, sections, length) {
        Ok(offset) => {
            proof {
                law_one_place_inside_the_file(
                    rva as int,
                    size as int,
                    header_size as int,
                    sections@,
                    length as int,
                    offset as int,
                );
            }
            read_step(length, offset, CLR_PREFIX_SIZE, Stage::Clr { size })
        },
        Err(error) => ScanStep::Finished(Err(error)),
    }
}

/// Looks for the load configuration of a 64-bit image.
fn step_after_sections_pe32_plus(
    length: u64,
    directories: usize,
    optional: &[u8],
    sections: Vec<u8>,
) -> (step: ScanStep)
    requires
        4 <= directories <= optional@.len() <= u16::MAX,
        64 <= optional@.len(),
        le32(optional@, directories - 4) <= (optional@.len() - directories) / 8,
    ensures
        step@ == after_sections_pe32_plus(
            length as int,
            directories as int,
            optional@,
            sections@,
        ),
{
    let count: u32 = u32_at(optional, directories - 4);
    if count as usize <= LOAD_CONFIG_DIRECTORY {
        return ScanStep::Finished(Ok(false));
    }
    let rva: u32 = u32_at(optional, directories + LOAD_CONFIG_DIRECTORY * 8);
    let size: u32 = u32_at(optional, directories + LOAD_CONFIG_DIRECTORY * 8 + 4);
    if rva == 0 && size == 0 {
        return ScanStep::Finished(Ok(false));
    }
    if rva == 0 || size < 4 {
        return ScanStep::Finished(Err(ERROR_INVALID_DATA));
    }
    let header_size: u32 = u32_at(optional, 60);
    let image_base: u64 = u64_at(optional, 24);
    match rva_offset(rva, size, header_size, sections.as_slice(), length) {
        Ok(offset) => {
            proof {
                law_one_place_inside_the_file(
                    rva as int,
                    size as int,
                    header_size as int,
                    sections@,
                    length as int,
                    offset as int,
                );
            }
            let image = Image { header_size, image_base, sections };
            read_step(length, offset, 4, Stage::ConfigSize { image, size })
        },
        Err(error) => ScanStep::Finished(Err(error)),
    }
}

/// Judges the header of a managed program.
fn step_after_clr(size: u32, clr: &[u8]) -> (step: ScanStep)
    requires
        clr@.len() == CLR_PREFIX_SIZE,
    ensures
        step@ == after_clr(size as int, clr@),
{
    let declared: u32 = u32_at(clr, 0);
    let flags: u32 = u32_at(clr, 16);
    assert(flags & 3 == flags % 4) by (bit_vector);
    if declared < CLR_HEADER_SIZE || declared > size || flags & 3 != 1 {
        return ScanStep::Finished(Err(ERROR_INVALID_DATA));
    }
    ScanStep::Finished(Ok(false))
}

/// Judges the size that a load configuration gives itself.
fn step_after_config_size(length: u64, offset: u64, image: Image, size: u32, field: &[u8]) -> (step:
    ScanStep)
    requires
        offset + size <= length,
        field@.len() == 4,
    ensures
        step@ == after_config_size(length as int, offset as int, image@, size as int, field@),
{
    let declared: u32 = u32_at(field, 0);
    if declared < 4 || declared > size {
        return ScanStep::Finished(Err(ERROR_INVALID_DATA));
    }
    if declared < CHPE_END {
        return ScanStep::Finished(Ok(false));
    }
    read_step(length, offset + CHPE_OFFSET as u64, 8, Stage::ChpePointer { image })
}

/// Judges the pointer to the hybrid metadata.
fn step_after_chpe_pointer(length: u64, image: Image, field: &[u8]) -> (step: ScanStep)
    requires
        field@.len() == 8,
    ensures
        step@ == after_chpe_pointer(length as int, image@, field@),
{
    let pointer: u64 = u64_at(field, 0);
    if pointer == 0 {
        return ScanStep::Finished(Ok(false));
    }
    let metadata: u64 = match pointer.checked_sub(image.image_base) {
        Some(metadata) if metadata <= u32::MAX as u64 => metadata,
        _ => return ScanStep::Finished(Err(ERROR_INVALID_DATA)),
    };
    match rva_offset(metadata as u32, 4, image.header_size, image.sections.as_slice(), length) {
        Ok(_) => ScanStep::Finished(Ok(true)),
        Err(error) => ScanStep::Finished(Err(error)),
    }
}

impl ScanStep {
    /// Starts a scan.
    pub fn start() -> (step: ScanStep)
        ensures
            step@ == ScanView::Measure,
    {
        ScanStep::Measure
    }

    /// Goes on with the length of the file, or with the failure to find it.
    pub fn measured(reply: Result<u64, IoFailure>) -> (step: ScanStep)
        ensures
            step@ == measured(reply),
            reply matches Ok(length) ==> length < 64 ==> step == ScanStep::Finished(
                Err(ERROR_INVALID_DATA),
            ),
            reply matches Ok(length) ==> 64 <= length ==> (step matches ScanStep::Read(read)
                && read@.length == length && read@.offset == 0 && read@.size == 64
                && read@.stage is Dos),
            reply matches Err(failure) ==> step == ScanStep::Finished(
                Err(io_error_code(failure)),
            ),
    {
        match reply {
            Ok(length) => read_step(length, 0, DOS_HEADER_SIZE, Stage::Dos),
            Err(failure) => ScanStep::Finished(Err(io_error(failure))),
        }
    }
}

impl PendingRead {
    /// Only sound reads are asked for.
    #[verifier::type_invariant]
    closed spec fn is_sound(self) -> bool {
        sound(self@)
    }

    /// Where in the file to read.
    pub fn offset(&self) -> (offset: u64)
        ensures
            offset == self@.offset,
    {
        self.offset
    }

    /// How many bytes to read.
    pub fn size(&self) -> (size: usize)
        ensures
            size == self@.size,
            sound(self@),
    {
        proof {
            use_type_invariant(self);
        }
        self.size
    }

    /// Goes on with the bytes that were asked for, or with the failure to read them.
    pub fn resume(self, reply: Result<Vec<u8>, IoFailure>) -> (step: ScanStep)
        requires
            reply matches Ok(bytes) ==> bytes@.len() == self@.size,
        ensures
            step@ == resumed(self@, reply_view(reply)),
            reply matches Ok(bytes) ==> match step {
                ScanStep::Measure => false,
                ScanStep::Read(read) => answered(self@, bytes@) == ScanView::Read(read@),
                ScanStep::Finished(result) => answered(self@, bytes@) == ScanView::Finished(
                    result,
                ),
            },
            reply matches Err(failure) ==> step == ScanStep::Finished(
                Err(io_error_code(failure)),
            ),
    {
        proof {
            use_type_invariant(&self);
        }
        let bytes: Vec<u8> = match reply {
            Ok(bytes) => bytes,
            Err(failure) => return ScanStep::Finished(Err(io_error(failure))),
        };
        match self.stage {
            Stage::Dos => step_after_dos(self.length, bytes.as_slice()),
            Stage::Coff => step_after_coff(self.length, self.offset, bytes.as_slice()),
            Stage::Optional { machine, section_count } => step_after_optional(
                self.length,
                self.offset,
                machine,
                section_count,
                bytes,
            ),
            Stage::Sections { directories, optional } => if directories == PE32_DIRECTORIES {
                step_after_sections_pe32(
                    self.length,
                    directories,
                    optional.as_slice(),
                    bytes.as_slice(),
                )
            } else {
                step_after_sections_pe32_plus(
                    self.length,
                    directories,
                    optional.as_slice(),
                    bytes,
                )
            },
            Stage::Clr { size } => step_after_clr(size, bytes.as_slice()),
            Stage::ConfigSize { image, size } => step_after_config_size(
                self.length,
                self.offset,
                image,
                size,
                bytes.as_slice(),
            ),
            Stage::ChpePointer { image } => step_after_chpe_pointer(
                self.length,
                image,
                bytes.as_slice(),
            ),
        }
    }
}

/// Copies the `size` bytes at `offset`.
fn slice_to_vec(file: &[u8], offset: usize, size: usize) -> (bytes: Vec<u8>)
    requires
        offset + size <= file@.len(),
    ensures
        bytes@ == file@.subrange(offset as int, offset + size),
{
    let mut bytes: Vec<u8> = Vec::with_capacity(size);
    assert(offset + size <= file.len());
    let mut k: usize = 0;
    while k < size
        invariant
            k <= size,
            offset + size <= file.len(),
            bytes@ == file@.subrange(offset as int, offset + k),
        decreases size - k,
    {
        bytes.push(file[offset + k]);
        k += 1;
    }
    bytes
}

/// Says whether the program in this file is an ARM64EC one, by a scan of it. A file that is
/// not a sound image of a program that can run as x86-64 is invalid data.
pub fn image_is_arm64ec(file: &[u8]) -> (result: Result<bool, u32>)
    ensures
        result == arm64ec_answer(file@),
{
    let length: usize = file.len();
    proof {
        law_scan_finds_the_answer(file@);
    }
    let mut step = ScanStep::start();
    loop
        invariant
            length == file@.len(),
            drive(from_file(file@), step@) == arm64ec_answer(file@),
            step@ matches ScanView::Read(read) ==> read.length == length,
        decreases replies_left(step@),
    {
        match step {
            ScanStep::Measure => {
                step = ScanStep::measured(Ok(length as u64));
            },
            ScanStep::Read(read) => {
                let size: usize = read.size();
                let offset: usize = read.offset() as usize;
                let bytes: Vec<u8> = slice_to_vec(file, offset, size);
                proof {
                    law_every_reply_brings_the_end_closer(read@, Ok(bytes@));
                }
                step = read.resume(Ok(bytes));
            },
            ScanStep::Finished(result) => {
                return result;
            },
        }
    }
}

} // verus!
