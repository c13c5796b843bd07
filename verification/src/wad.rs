//! The container index reader: the chunks of a flat physics file, and the
//! archive whose directory leads to embedded streams of chunks.
//!
//! Each reader is specified by a function from the input's bytes to the
//! outcome of parsing them: [`flat_chunks`], [`embedded_chunks`] and
//! [`archive`].

use crate::error::{agrees, ContainerFault, DecodeError};
use crate::physics::{is_flat_tag, is_m1_physics, same_tag};
use crate::util::{be16_at, be32_at, bytes_at, read16, read32, tag_at, ByteCursor};
use vstd::prelude::*;
use vstd::slice::slice_to_vec;

verus! {

/// The container version up to which a directory entry has the fixed base
/// size.
pub const WADFILE_HAS_DIRECTORY_ENTRY: u16 = 1;

/// The length of the name field in an archive's header.
pub const MAXIMUM_WADFILE_NAME_LENGTH: usize = 64;

/// The number of slots that a directory is scanned for.
pub const MAXIMUM_DIRECTORY_ENTRIES_PER_FILE: usize = 64;

/// The base size of a directory entry in an archive of container version 1 or
/// below.
pub const LEGACY_DIRECTORY_ENTRY_SIZE: u16 = 8;

/// The length of a flat chunk's header: tag, an unused word, the number of
/// records and the size of one.
pub const FLAT_HEADER_LENGTH: usize = 12;

/// The length of an embedded chunk's header: tag, the next chunk's offset,
/// the payload's length and a reserved word.
pub const EMBEDDED_HEADER_LENGTH: usize = 16;

/// The length of an archive's header.
pub const ARCHIVE_HEADER_LENGTH: usize = 88;

/// A tagged run of bytes. Tags need not be unique among the chunks of a file.
#[derive(Clone, Debug, PartialEq, Eq)]
pub struct Chunk {
    pub kind: [u8; 4],
    pub data: Vec<u8>,
}

/// A [`Chunk`] as a value.
pub struct ChunkView {
    pub kind: [u8; 4],
    pub data: Seq<u8>,
}

impl View for Chunk {
    type V = ChunkView;

    open spec fn view(&self) -> ChunkView {
        ChunkView { kind: self.kind, data: self.data@ }
    }
}

impl DeepView for Chunk {
    type V = ChunkView;

    open spec fn deep_view(&self) -> ChunkView {
        self@
    }
}

/// The outcome of a parse that has given `done` so far and goes on as `rest`.
pub open spec fn after<T>(done: Seq<T>, rest: Result<Seq<T>, DecodeError>) -> Result<
    Seq<T>,
    DecodeError,
> {
    match rest {
        Ok(items) => Ok(done + items),
        Err(e) => Err(e),
    }
}

/// The chunks of a flat stream from `at` on. The stream ends cleanly where no
/// further tag can be read; a chunk that is cut short is an error.
pub open spec fn flat_chunks(bytes: Seq<u8>, at: int) -> Result<Seq<ChunkView>, DecodeError>
    decreases bytes.len() - at,
{
    if at + 4 > bytes.len() {
        Ok(Seq::empty())
    } else if at + FLAT_HEADER_LENGTH > bytes.len() {
        Err(DecodeError::IoFailure)
    } else {
        let length = be16_at(bytes, at + 8) * be16_at(bytes, at + 10);
        let payload = at + FLAT_HEADER_LENGTH;
        if payload + length > bytes.len() {
            Err(DecodeError::IoFailure)
        } else {
            after(
                seq![ChunkView { kind: tag_at(bytes, at), data: bytes_at(bytes, payload, length) }],
                flat_chunks(bytes, payload + length),
            )
        }
    }
}

/// The chunks of an embedded stream from `at` on, where the chunk at `at` is
/// the stream's chunk number `index`. The reserved word of every header must
/// be zero. Chunks follow each other directly; the offset of the next chunk
/// that a header holds is not used.
pub open spec fn embedded_chunks(bytes: Seq<u8>, at: int, index: int) -> Result<
    Seq<ChunkView>,
    DecodeError,
>
    decreases bytes.len() - at,
{
    if at + 4 > bytes.len() {
        Ok(Seq::empty())
    } else if at + EMBEDDED_HEADER_LENGTH > bytes.len() {
        Err(DecodeError::IoFailure)
    } else if be32_at(bytes, at + 12) != 0 {
        Err(
            DecodeError::MalformedContainer(
                ContainerFault::ReservedNotZero {
                    index: index as usize,
                    tag: tag_at(bytes, at),
                    offset: at as u64,
                },
            ),
        )
    } else {
        let length = be32_at(bytes, at + 8);
        let payload = at + EMBEDDED_HEADER_LENGTH;
        if payload + length > bytes.len() {
            Err(DecodeError::IoFailure)
        } else {
            after(
                seq![
                    ChunkView {
                        kind: tag_at(bytes, at),
                        data: bytes_at(bytes, payload, length as int),
                    },
                ],
                embedded_chunks(bytes, payload + length, index + 1),
            )
        }
    }
}

/// The payload of the first chunk from `from` on that carries `kind`.
pub open spec fn first_payload(chunks: Seq<ChunkView>, kind: [u8; 4], from: int) -> Option<
    Seq<u8>,
>
    decreases chunks.len() - from,
{
    if from < 0 || from >= chunks.len() {
        None
    } else if chunks[from].kind == kind {
        Some(chunks[from].data)
    } else {
        first_payload(chunks, kind, from + 1)
    }
}

/// The payload of the first chunk that carries `kind`.
pub open spec fn payload_of(chunks: Seq<ChunkView>, kind: [u8; 4]) -> Option<Seq<u8>> {
    first_payload(chunks, kind, 0)
}

impl Chunk {
    /// Reads the chunks of an embedded stream.
    pub fn read_m2_chunks(input: ByteCursor) -> (r: Result<Vec<Chunk>, DecodeError>)
        ensures
            agrees(r, embedded_chunks(input@.source, input@.position, 0)),
    {
        let ghost bytes = input@.source;
        let ghost start = input@.position;
        let mut cursor = input;
        let mut chunks: Vec<Chunk> = Vec::new();
        assert(chunks.deep_view() =~= Seq::<ChunkView>::empty());
        assert(after(Seq::<ChunkView>::empty(), embedded_chunks(bytes, start, 0))
            == embedded_chunks(bytes, start, 0)) by {
            if let Ok(items) = embedded_chunks(bytes, start, 0) {
                assert(Seq::<ChunkView>::empty() + items =~= items);
            }
        }
        while cursor.remaining() >= 4
            invariant
                bytes == input@.source,
                start == input@.position,
                cursor@.source == bytes,
                embedded_chunks(bytes, start, 0) == after(
                    chunks.deep_view(),
                    embedded_chunks(bytes, cursor@.position, chunks@.len() as int),
                ),
            decreases cursor@.left(),
        {
            let ghost at = cursor@.position;
            let ghost done = chunks.deep_view();
            let offset = cursor.position();
            let kind = cursor.read_tag()?;
            let _next_offset = read32(&mut cursor)?;
            let length = read32(&mut cursor)?;
            let reserved = read32(&mut cursor)?;
            if reserved != 0 {
                return Err(
                    DecodeError::MalformedContainer(
                        ContainerFault::ReservedNotZero { index: chunks.len(), tag: kind, offset },
                    ),
                );
            }
            let payload = cursor.read_bytes(length as usize)?;
            chunks.push(Chunk { kind, data: slice_to_vec(payload) });
            proof {
                let chunk = ChunkView {
                    kind: tag_at(bytes, at),
                    data: bytes_at(bytes, at + 16, length as int),
                };
                assert(chunks.deep_view() =~= done.push(chunk));
                let rest = embedded_chunks(bytes, cursor@.position, chunks@.len() as int);
                if let Ok(items) = rest {
                    assert(done + (seq![chunk] + items) =~= done.push(chunk) + items);
                }
            }
        }
        assert(chunks.deep_view() + Seq::<ChunkView>::empty() =~= chunks.deep_view());
        Ok(chunks)
    }

    /// Reads the chunks of a flat stream.
    pub fn read_m1_chunks(input: ByteCursor) -> (r: Result<Vec<Chunk>, DecodeError>)
        ensures
            agrees(r, flat_chunks(input@.source, input@.position)),
    {
        let ghost bytes = input@.source;
        let ghost start = input@.position;
        let mut cursor = input;
        let mut chunks: Vec<Chunk> = Vec::new();
        assert(chunks.deep_view() =~= Seq::<ChunkView>::empty());
        assert(after(Seq::<ChunkView>::empty(), flat_chunks(bytes, start)) == flat_chunks(
            bytes,
            start,
        )) by {
            if let Ok(items) = flat_chunks(bytes, start) {
                assert(Seq::<ChunkView>::empty() + items =~= items);
            }
        }
        while cursor.remaining() >= 4
            invariant
                bytes == input@.source,
                start == input@.position,
                cursor@.source == bytes,
                flat_chunks(bytes, start) == after(
                    chunks.deep_view(),
                    flat_chunks(bytes, cursor@.position),
                ),
            decreases cursor@.left(),
        {
            let ghost at = cursor@.position;
            let ghost done = chunks.deep_view();
            let kind = cursor.read_tag()?;
            let _ = read32(&mut cursor)?;
            let count = read16(&mut cursor)?;
            let size = read16(&mut cursor)?;
            assert(count * size <= 0xffff * 0xffff) by (nonlinear_arith)
                requires
                    count <= 0xffff,
                    size <= 0xffff,
            ;
            let length: usize = count as usize * size as usize;
            let payload = cursor.read_bytes(length)?;
            chunks.push(Chunk { kind, data: slice_to_vec(payload) });
            proof {
                let chunk = ChunkView {
                    kind: tag_at(bytes, at),
                    data: bytes_at(bytes, at + 12, length as int),
                };
                assert(chunks.deep_view() =~= done.push(chunk));
                let rest = flat_chunks(bytes, cursor@.position);
                if let Ok(items) = rest {
                    assert(done + (seq![chunk] + items) =~= done.push(chunk) + items);
                }
            }
        }
        assert(chunks.deep_view() + Seq::<ChunkView>::empty() =~= chunks.deep_view());
        Ok(chunks)
    }

    /// The payload of the first chunk that carries `kind`.
    pub fn find(chunks: &[Chunk], kind: [u8; 4]) -> (r: Result<&[u8], DecodeError>)
        ensures
            r matches Ok(payload) ==> payload_of(chunks.deep_view(), kind) == Some(payload@),
            r matches Err(e) ==> payload_of(chunks.deep_view(), kind) is None && e
                == DecodeError::ChunkNotFound(kind),
    {
        let mut i: usize = 0;
        while i < chunks.len()
            invariant
                i <= chunks@.len(),
                payload_of(chunks.deep_view(), kind) == first_payload(
                    chunks.deep_view(),
                    kind,
                    i as int,
                ),
            decreases chunks@.len() - i,
        {
            if same_tag(&chunks[i].kind, &kind) {
                return Ok(chunks[i].data.as_slice());
            }
            i = i + 1;
        }
        Err(DecodeError::ChunkNotFound(kind))
    }
}

/// Where several chunks carry a tag, the first of them is the one found.
pub proof fn lemma_first_match_wins(chunks: Seq<ChunkView>, kind: [u8; 4], first: int)
    requires
        0 <= first < chunks.len(),
        chunks[first].kind == kind,
        forall|i: int| 0 <= i < first ==> chunks[i].kind != kind,
    ensures
        payload_of(chunks, kind) == Some(chunks[first].data),
{
    lemma_skip_to_match(chunks, kind, 0, first);
}

proof fn lemma_skip_to_match(chunks: Seq<ChunkView>, kind: [u8; 4], from: int, first: int)
    requires
        0 <= from <= first < chunks.len(),
        chunks[first].kind == kind,
        forall|i: int| from <= i < first ==> chunks[i].kind != kind,
    ensures
        first_payload(chunks, kind, from) == Some(chunks[first].data),
    decreases first - from,
{
    if from < first {
        lemma_skip_to_match(chunks, kind, from + 1, first);
    }
}

/// A tag that no chunk carries is not found.
pub proof fn lemma_absent_tag(chunks: Seq<ChunkView>, kind: [u8; 4])
    requires
        forall|i: int| 0 <= i < chunks.len() ==> chunks[i].kind != kind,
    ensures
        payload_of(chunks, kind) is None,
{
    lemma_absent_from(chunks, kind, 0);
}

proof fn lemma_absent_from(chunks: Seq<ChunkView>, kind: [u8; 4], from: int)
    requires
        0 <= from,
        forall|i: int| from <= i < chunks.len() ==> chunks[i].kind != kind,
    ensures
        first_payload(chunks, kind, from) is None,
    decreases chunks.len() - from,
{
    if from < chunks.len() {
        lemma_absent_from(chunks, kind, from + 1);
    }
}

/// An archive: the fields of its header, and the chunks of each subfile that
/// its directory leads to.
#[derive(Clone, Debug, PartialEq, Eq)]
pub struct Wad {
    pub wad_version: u16,
    pub data_version: u16,
    pub file_name: [u8; MAXIMUM_WADFILE_NAME_LENGTH],
    pub checksum: u32,
    pub directory_offset: u32,
    pub wad_count: u16,
    pub application_specific_directory_data_size: u16,
    pub entry_header_size: u16,
    /// The base size of a directory entry that is in effect: not the one that
    /// the header declares where the container version forces another.
    pub directory_entry_base_size: u16,
    pub parent_checksum: u32,
    pub files: Vec<Vec<Chunk>>,
}

/// A [`Wad`] as a value.
pub struct WadView {
    pub wad_version: u16,
    pub data_version: u16,
    pub file_name: Seq<u8>,
    pub checksum: u32,
    pub directory_offset: u32,
    pub wad_count: u16,
    pub application_specific_directory_data_size: u16,
    pub entry_header_size: u16,
    pub directory_entry_base_size: u16,
    pub parent_checksum: u32,
    pub files: Seq<Seq<ChunkView>>,
}

impl View for Wad {
    type V = WadView;

    open spec fn view(&self) -> WadView {
        WadView {
            wad_version: self.wad_version,
            data_version: self.data_version,
            file_name: self.file_name@,
            checksum: self.checksum,
            directory_offset: self.directory_offset,
            wad_count: self.wad_count,
            application_specific_directory_data_size: self.application_specific_directory_data_size,
            entry_header_size: self.entry_header_size,
            directory_entry_base_size: self.directory_entry_base_size,
            parent_checksum: self.parent_checksum,
            files: self.files.deep_view(),
        }
    }
}

impl DeepView for Wad {
    type V = WadView;

    open spec fn deep_view(&self) -> WadView {
        self@
    }
}

/// The base size of a directory entry that is in effect in an archive of
/// container version `version` whose header declares `declared`.
pub open spec fn entry_base_size(version: u16, declared: u16) -> u16 {
    if version <= WADFILE_HAS_DIRECTORY_ENTRY {
        LEGACY_DIRECTORY_ENTRY_SIZE
    } else {
        declared
    }
}

/// The distance between two directory entries of the archive whose header is
/// at `at`.
pub open spec fn directory_stride(bytes: Seq<u8>, at: int) -> int {
    be16_at(bytes, at + 78) + entry_base_size(be16_at(bytes, at), be16_at(bytes, at + 82))
}

/// The chunks of the subfile that the directory entry at `entry` leads to:
/// the entry holds the subfile's offset and length, and the subfile is an
/// embedded stream of its own.
pub open spec fn subfile(bytes: Seq<u8>, entry: int) -> Result<Seq<ChunkView>, DecodeError> {
    if entry + 8 > bytes.len() {
        Err(DecodeError::IoFailure)
    } else {
        let offset = be32_at(bytes, entry) as int;
        let length = be32_at(bytes, entry + 4) as int;
        if length > 0 && offset + length > bytes.len() {
            Err(DecodeError::IoFailure)
        } else {
            embedded_chunks(bytes_at(bytes, offset, length), 0, 0)
        }
    }
}

/// The subfiles of the directory slots from `slot` on. The directory ends at
/// the first slot whose offset cannot be read, and after the last slot.
pub open spec fn subfiles(bytes: Seq<u8>, directory: int, stride: int, slot: int) -> Result<
    Seq<Seq<ChunkView>>,
    DecodeError,
>
    decreases MAXIMUM_DIRECTORY_ENTRIES_PER_FILE - slot,
{
    let entry = directory + stride * slot;
    if slot >= MAXIMUM_DIRECTORY_ENTRIES_PER_FILE || entry + 4 > bytes.len() {
        Ok(Seq::empty())
    } else {
        match subfile(bytes, entry) {
            Err(e) => Err(e),
            Ok(chunks) => after(seq![chunks], subfiles(bytes, directory, stride, slot + 1)),
        }
    }
}

/// The archive whose header is at `at`. The directory's offset and those of
/// the subfiles count from the start of `bytes`.
pub open spec fn archive(bytes: Seq<u8>, at: int) -> Result<WadView, DecodeError> {
    if at + 4 > bytes.len() {
        Err(DecodeError::IoFailure)
    } else if is_flat_tag(tag_at(bytes, at)) {
        Err(DecodeError::MalformedContainer(ContainerFault::FlatDialect))
    } else if at + ARCHIVE_HEADER_LENGTH > bytes.len() {
        Err(DecodeError::IoFailure)
    } else {
        match subfiles(bytes, be32_at(bytes, at + 72) as int, directory_stride(bytes, at), 0) {
            Err(e) => Err(e),
            Ok(files) => Ok(
                WadView {
                    wad_version: be16_at(bytes, at),
                    data_version: be16_at(bytes, at + 2),
                    file_name: bytes_at(bytes, at + 4, MAXIMUM_WADFILE_NAME_LENGTH as int),
                    checksum: be32_at(bytes, at + 68),
                    directory_offset: be32_at(bytes, at + 72),
                    wad_count: be16_at(bytes, at + 76),
                    application_specific_directory_data_size: be16_at(bytes, at + 78),
                    entry_header_size: be16_at(bytes, at + 80),
                    directory_entry_base_size: entry_base_size(
                        be16_at(bytes, at),
                        be16_at(bytes, at + 82),
                    ),
                    parent_checksum: be32_at(bytes, at + 84),
                    files,
                },
            ),
        }
    }
}

/// The length of a name field's text: the place of its first zero byte, or
/// the field's length where it has none.
pub open spec fn name_length(name: Seq<u8>, from: int) -> int
    decreases name.len() - from,
{
    if from >= name.len() || name[from] == 0 {
        from
    } else {
        name_length(name, from + 1)
    }
}

impl Wad {
    /// Reads an archive: its header, then every subfile of its directory.
    pub fn read_wad(input: ByteCursor) -> (r: Result<Wad, DecodeError>)
        ensures
            agrees(r, archive(input@.source, input@.position)),
    {
        let ghost bytes = input@.source;
        let ghost at = input@.position;
        let mut cursor = input;
        if is_m1_physics(&cursor)? {
            return Err(DecodeError::MalformedContainer(ContainerFault::FlatDialect));
        }
        let wad_version = read16(&mut cursor)?;
        let data_version = read16(&mut cursor)?;
        let name = cursor.read_bytes(MAXIMUM_WADFILE_NAME_LENGTH)?;
        let mut file_name = [0u8; MAXIMUM_WADFILE_NAME_LENGTH];
        let mut i: usize = 0;
        while i < MAXIMUM_WADFILE_NAME_LENGTH
            invariant
                i <= MAXIMUM_WADFILE_NAME_LENGTH,
                name@.len() == MAXIMUM_WADFILE_NAME_LENGTH,
                forall|k: int| 0 <= k < i ==> file_name@[k] == name@[k],
            decreases MAXIMUM_WADFILE_NAME_LENGTH - i,
        {
            file_name[i] = name[i];
            i = i + 1;
        }
        assert(file_name@ =~= name@);
        let checksum = read32(&mut cursor)?;
        let directory_offset = read32(&mut cursor)?;
        let wad_count = read16(&mut cursor)?;
        let application_specific_directory_data_size = read16(&mut cursor)?;
        let entry_header_size = read16(&mut cursor)?;
        let declared_entry_base_size = read16(&mut cursor)?;
        let parent_checksum = read32(&mut cursor)?;
        let directory_entry_base_size = if wad_version <= WADFILE_HAS_DIRECTORY_ENTRY {
            LEGACY_DIRECTORY_ENTRY_SIZE
        } else {
            declared_entry_base_size
        };
        let unit_size: u64 = application_specific_directory_data_size as u64
            + directory_entry_base_size as u64;
        let ghost directory = directory_offset as int;
        let ghost stride = unit_size as int;
        let mut files: Vec<Vec<Chunk>> = Vec::new();
        assert(files.deep_view() =~= Seq::<Seq<ChunkView>>::empty());
        assert(after(Seq::<Seq<ChunkView>>::empty(), subfiles(bytes, directory, stride, 0))
            == subfiles(bytes, directory, stride, 0)) by {
            if let Ok(items) = subfiles(bytes, directory, stride, 0) {
                assert(Seq::<Seq<ChunkView>>::empty() + items =~= items);
            }
        }
        let mut slot: usize = 0;
        while slot < MAXIMUM_DIRECTORY_ENTRIES_PER_FILE
            invariant
                bytes == input@.source,
                at == input@.position,
                cursor@.source == bytes,
                slot <= MAXIMUM_DIRECTORY_ENTRIES_PER_FILE,
                directory == directory_offset,
                stride == unit_size,
                unit_size <= 2 * 0xffff,
                at + ARCHIVE_HEADER_LENGTH <= bytes.len(),
                !is_flat_tag(tag_at(bytes, at)),
                archive(bytes, at) is Ok <==> subfiles(bytes, directory, stride, 0) is Ok,
                archive(bytes, at) matches Err(e) ==> subfiles(bytes, directory, stride, 0)
                    == Err::<Seq<Seq<ChunkView>>, DecodeError>(e),
                subfiles(bytes, directory, stride, 0) == after(
                    files.deep_view(),
                    subfiles(bytes, directory, stride, slot as int),
                ),
            ensures
                subfiles(bytes, directory, stride, 0) == Ok::<Seq<Seq<ChunkView>>, DecodeError>(
                    files.deep_view(),
                ),
            decreases MAXIMUM_DIRECTORY_ENTRIES_PER_FILE - slot,
        {
            let ghost done = files.deep_view();
            assert(unit_size * slot <= 2 * 0xffff * 64) by (nonlinear_arith)
                requires
                    unit_size <= 2 * 0xffff,
                    slot <= 64,
            ;
            let entry: u64 = directory_offset as u64 + unit_size * slot as u64;
            cursor.seek(entry);
            let offset = match read32(&mut cursor) {
                Ok(offset) => offset,
                Err(_) => {
                    assert(done + Seq::<Seq<ChunkView>>::empty() =~= done);
                    break ;
                },
            };
            let length = read32(&mut cursor)?;
            cursor.seek(offset as u64);
            let data = cursor.read_bytes(length as usize)?;
            let chunks = Chunk::read_m2_chunks(ByteCursor::new(data))?;
            files.push(chunks);
            slot = slot + 1;
            proof {
                let subfile = chunks.deep_view();
                assert(files.deep_view() =~= done.push(subfile));
                let rest = subfiles(bytes, directory, stride, slot as int);
                if let Ok(items) = rest {
                    assert(done + (seq![subfile] + items) =~= done.push(subfile) + items);
                }
            }
        }
        proof {
            if slot >= MAXIMUM_DIRECTORY_ENTRIES_PER_FILE {
                assert(files.deep_view() + Seq::<Seq<ChunkView>>::empty() =~= files.deep_view());
            }
        }
        Ok(
            Wad {
                wad_version,
                data_version,
                file_name,
                checksum,
                directory_offset,
                wad_count,
                application_specific_directory_data_size,
                entry_header_size,
                directory_entry_base_size,
                parent_checksum,
                files,
            },
        )
    }

    /// The length of the archive's name: the place of the first zero byte in
    /// the name field, or the field's length where it has none.
    pub fn file_name_length(&self) -> (length: usize)
        ensures
            length == name_length(self.file_name@, 0),
            length <= MAXIMUM_WADFILE_NAME_LENGTH,
    {
        let mut length: usize = 0;
        while length < MAXIMUM_WADFILE_NAME_LENGTH && self.file_name[length] != 0
            invariant
                length <= MAXIMUM_WADFILE_NAME_LENGTH,
                name_length(self.file_name@, 0) == name_length(self.file_name@, length as int),
            decreases MAXIMUM_WADFILE_NAME_LENGTH - length,
        {
            length = length + 1;
        }
        length
    }
}

/// An archive of container version 1 or below has directory entries of base
/// size 8, whatever its header declares.
pub proof fn lemma_legacy_entry_size(bytes: Seq<u8>, at: int)
    requires
        archive(bytes, at) is Ok,
        archive(bytes, at)->Ok_0.wad_version <= 1,
    ensures
        archive(bytes, at)->Ok_0.directory_entry_base_size == 8,
        directory_stride(bytes, at) == archive(
            bytes,
            at,
        )->Ok_0.application_specific_directory_data_size + 8,
{
}

/// Where chunk number `index` of an embedded stream starts, given that the
/// chunks before it are whole and their reserved words are zero.
pub open spec fn header_offset(bytes: Seq<u8>, index: nat) -> Option<int>
    decreases index,
{
    if index == 0 {
        Some(0)
    } else {
        match header_offset(bytes, (index - 1) as nat) {
            None => None,
            Some(at) => {
                let end = at + EMBEDDED_HEADER_LENGTH + be32_at(bytes, at + 8);
                if at + EMBEDDED_HEADER_LENGTH <= bytes.len() && be32_at(bytes, at + 12) == 0
                    && end <= bytes.len() {
                    Some(end)
                } else {
                    None
                }
            },
        }
    }
}

/// A header whose reserved word is not zero aborts the parse of its stream,
/// whichever chunk it belongs to, and the fault names that chunk's index, tag
/// and offset.
pub proof fn lemma_reserved_word_aborts(bytes: Seq<u8>, index: nat)
    requires
        header_offset(bytes, index) is Some,
        header_offset(bytes, index)->0 + EMBEDDED_HEADER_LENGTH <= bytes.len(),
        be32_at(bytes, header_offset(bytes, index)->0 + 12) != 0,
    ensures
        embedded_chunks(bytes, 0, 0) == Err::<Seq<ChunkView>, DecodeError>(
            DecodeError::MalformedContainer(
                ContainerFault::ReservedNotZero {
                    index: index as usize,
                    tag: tag_at(bytes, header_offset(bytes, index)->0),
                    offset: header_offset(bytes, index)->0 as u64,
                },
            ),
        ),
{
    let at = header_offset(bytes, index)->0;
    lemma_header_offset_bounds(bytes, index);
    lemma_failure_reaches_start(bytes, index, embedded_chunks(bytes, at, index as int)->Err_0);
}

proof fn lemma_header_offset_bounds(bytes: Seq<u8>, index: nat)
    requires
        header_offset(bytes, index) is Some,
    ensures
        0 <= header_offset(bytes, index)->0,
        index > 0 ==> header_offset(bytes, index)->0 <= bytes.len(),
    decreases index,
{
    if index > 0 {
        lemma_header_offset_bounds(bytes, (index - 1) as nat);
    }
}

proof fn lemma_failure_reaches_start(bytes: Seq<u8>, index: nat, e: DecodeError)
    requires
        header_offset(bytes, index) is Some,
        embedded_chunks(bytes, header_offset(bytes, index)->0, index as int) == Err::<
            Seq<ChunkView>,
            DecodeError,
        >(e),
    ensures
        embedded_chunks(bytes, 0, 0) == Err::<Seq<ChunkView>, DecodeError>(e),
    decreases index,
{
    if index > 0 {
        let before = (index - 1) as nat;
        lemma_header_offset_bounds(bytes, before);
        lemma_failure_reaches_start(bytes, before, e);
    }
}

/// Where the directory entry of `slot` lies in the archive whose header is
/// at `at`.
pub open spec fn entry_offset(bytes: Seq<u8>, at: int, slot: int) -> int {
    be32_at(bytes, at + 72) + directory_stride(bytes, at) * slot
}

/// The first subfile that fails to parse fails the whole archive, with the
/// subfile's own error: no archive comes back without it.
pub proof fn lemma_first_failure_aborts(bytes: Seq<u8>, at: int, slot: int, e: DecodeError)
    requires
        at + ARCHIVE_HEADER_LENGTH <= bytes.len(),
        !is_flat_tag(tag_at(bytes, at)),
        0 <= slot < MAXIMUM_DIRECTORY_ENTRIES_PER_FILE,
        entry_offset(bytes, at, slot) + 4 <= bytes.len(),
        forall|j: int|
            0 <= j < slot ==> subfile(bytes, #[trigger] entry_offset(bytes, at, j)) is Ok,
        subfile(bytes, entry_offset(bytes, at, slot)) == Err::<Seq<ChunkView>, DecodeError>(e),
    ensures
        archive(bytes, at) == Err::<WadView, DecodeError>(e),
{
    let directory = be32_at(bytes, at + 72) as int;
    let stride = directory_stride(bytes, at);
    assert forall|j: int| 0 <= j < slot implies subfile(
        bytes,
        directory + #[trigger] (stride * j),
    ) is Ok by {
        assert(entry_offset(bytes, at, j) == directory + stride * j);
    }
    lemma_failure_from(bytes, directory, stride, 0, slot, e);
}

proof fn lemma_failure_from(
    bytes: Seq<u8>,
    directory: int,
    stride: int,
    from: int,
    slot: int,
    e: DecodeError,
)
    requires
        0 <= from <= slot < MAXIMUM_DIRECTORY_ENTRIES_PER_FILE,
        0 <= stride,
        directory + stride * slot + 4 <= bytes.len(),
        forall|j: int|
            from <= j < slot ==> subfile(bytes, directory + #[trigger] (stride * j)) is Ok,
        subfile(bytes, directory + stride * slot) == Err::<Seq<ChunkView>, DecodeError>(e),
    ensures
        subfiles(bytes, directory, stride, from) == Err::<Seq<Seq<ChunkView>>, DecodeError>(e),
    decreases slot - from,
{
    assert(stride * from <= stride * slot) by (nonlinear_arith)
        requires
            0 <= stride,
            from <= slot,
    ;
    if from < slot {
        lemma_failure_from(bytes, directory, stride, from + 1, slot, e);
    }
}

} // verus!
