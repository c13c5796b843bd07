use physics_eater::error::{ContainerFault, DecodeError};
use physics_eater::util::ByteCursor;
use physics_eater::wad::{Chunk, Wad};

fn flat_chunk(tag: &[u8; 4], count: u16, size: u16, payload: &[u8]) -> Vec<u8> {
    let mut bytes = tag.to_vec();
    bytes.extend_from_slice(&[0xde, 0xad, 0xbe, 0xef]);
    bytes.extend_from_slice(&count.to_be_bytes());
    bytes.extend_from_slice(&size.to_be_bytes());
    bytes.extend_from_slice(payload);
    bytes
}

fn embedded_chunk(tag: &[u8; 4], next: u32, reserved: u32, payload: &[u8]) -> Vec<u8> {
    let mut bytes = tag.to_vec();
    bytes.extend_from_slice(&next.to_be_bytes());
    bytes.extend_from_slice(&(payload.len() as u32).to_be_bytes());
    bytes.extend_from_slice(&reserved.to_be_bytes());
    bytes.extend_from_slice(payload);
    bytes
}

fn archive_header(version: u16, directory: u32, extra: u16, declared_base: u16) -> Vec<u8> {
    let mut bytes = Vec::new();
    bytes.extend_from_slice(&version.to_be_bytes());
    bytes.extend_from_slice(&7u16.to_be_bytes());
    let mut name = [0u8; 64];
    name[..4].copy_from_slice(b"test");
    bytes.extend_from_slice(&name);
    bytes.extend_from_slice(&0x1122_3344u32.to_be_bytes());
    bytes.extend_from_slice(&directory.to_be_bytes());
    bytes.extend_from_slice(&3u16.to_be_bytes());
    bytes.extend_from_slice(&extra.to_be_bytes());
    bytes.extend_from_slice(&16u16.to_be_bytes());
    bytes.extend_from_slice(&declared_base.to_be_bytes());
    bytes.extend_from_slice(&0x5566_7788u32.to_be_bytes());
    assert_eq!(bytes.len(), 88);
    bytes
}

/// An archive of the given subfiles, its directory at the end, each entry
/// `stride` bytes long.
fn archive(version: u16, extra: u16, declared_base: u16, stride: usize, subfiles: &[Vec<u8>]) -> Vec<u8> {
    let body: usize = subfiles.iter().map(|subfile| subfile.len()).sum();
    let directory = 88 + body;
    let mut bytes = archive_header(version, directory as u32, extra, declared_base);
    let mut entries = Vec::new();
    for subfile in subfiles {
        let mut entry = Vec::new();
        entry.extend_from_slice(&(bytes.len() as u32).to_be_bytes());
        entry.extend_from_slice(&(subfile.len() as u32).to_be_bytes());
        entry.resize(stride, 0);
        entries.push(entry);
        bytes.extend_from_slice(subfile);
    }
    for entry in entries {
        bytes.extend_from_slice(&entry);
    }
    bytes
}

fn chunk(tag: &[u8; 4], payload: &[u8]) -> Chunk {
    Chunk { kind: *tag, data: payload.to_vec() }
}

#[test]
fn flat_stream_gives_its_chunks_in_order() {
    let mut bytes = flat_chunk(b"mons", 2, 3, &[1, 2, 3, 4, 5, 6]);
    bytes.extend(flat_chunk(b"effe", 0, 6, &[]));
    bytes.extend(flat_chunk(b"proj", 1, 1, &[9]));
    let chunks = Chunk::read_m1_chunks(ByteCursor::new(&bytes)).unwrap();
    assert_eq!(
        chunks,
        vec![chunk(b"mons", &[1, 2, 3, 4, 5, 6]), chunk(b"effe", &[]), chunk(b"proj", &[9])]
    );
}

#[test]
fn flat_stream_may_be_empty() {
    assert_eq!(Chunk::read_m1_chunks(ByteCursor::new(&[])), Ok(vec![]));
}

#[test]
fn flat_stream_ends_cleanly_before_a_partial_tag() {
    let mut bytes = flat_chunk(b"mons", 1, 2, &[1, 2]);
    bytes.extend_from_slice(b"eff");
    assert_eq!(Chunk::read_m1_chunks(ByteCursor::new(&bytes)), Ok(vec![chunk(b"mons", &[1, 2])]));
}

#[test]
fn flat_stream_with_a_cut_header_fails() {
    let mut bytes = flat_chunk(b"mons", 1, 2, &[1, 2]);
    bytes.extend_from_slice(b"effe");
    bytes.extend_from_slice(&[0, 0, 0, 0, 0, 1, 0]);
    assert_eq!(Chunk::read_m1_chunks(ByteCursor::new(&bytes)), Err(DecodeError::IoFailure));
}

#[test]
fn flat_stream_with_a_cut_payload_fails() {
    let bytes = flat_chunk(b"mons", 2, 3, &[1, 2, 3, 4, 5]);
    assert_eq!(Chunk::read_m1_chunks(ByteCursor::new(&bytes)), Err(DecodeError::IoFailure));
}

#[test]
fn flat_stream_is_read_from_the_cursor_on() {
    let mut bytes = vec![0xffu8; 5];
    bytes.extend(flat_chunk(b"weap", 1, 1, &[7]));
    let mut cursor = ByteCursor::new(&bytes);
    cursor.seek(5);
    assert_eq!(Chunk::read_m1_chunks(cursor), Ok(vec![chunk(b"weap", &[7])]));
}

#[test]
fn find_returns_the_first_chunk_of_a_tag() {
    let chunks = vec![
        chunk(b"effe", &[1]),
        chunk(b"mons", &[2]),
        chunk(b"mons", &[3]),
        chunk(b"effe", &[4]),
    ];
    assert_eq!(Chunk::find(&chunks, *b"mons"), Ok(&[2u8][..]));
    assert_eq!(Chunk::find(&chunks, *b"effe"), Ok(&[1u8][..]));
}

#[test]
fn find_fails_on_an_absent_tag() {
    let chunks = vec![chunk(b"effe", &[1]), chunk(b"mons", &[2])];
    assert_eq!(Chunk::find(&chunks, *b"proj"), Err(DecodeError::ChunkNotFound(*b"proj")));
    assert_eq!(Chunk::find(&[], *b"mons"), Err(DecodeError::ChunkNotFound(*b"mons")));
}

#[test]
fn embedded_stream_gives_its_chunks_in_order() {
    let mut bytes = embedded_chunk(b"MNpx", 19, 0, &[1, 2, 3]);
    bytes.extend(embedded_chunk(b"FXpx", 0, 0, &[]));
    let chunks = Chunk::read_m2_chunks(ByteCursor::new(&bytes)).unwrap();
    assert_eq!(chunks, vec![chunk(b"MNpx", &[1, 2, 3]), chunk(b"FXpx", &[])]);
}

#[test]
fn embedded_stream_does_not_follow_the_next_offset() {
    let mut bytes = embedded_chunk(b"MNpx", 0xffff_0000, 0, &[1, 2, 3]);
    bytes.extend(embedded_chunk(b"FXpx", 4, 0, &[4]));
    bytes.extend(embedded_chunk(b"PRpx", 1, 0, &[5, 6]));
    let chunks = Chunk::read_m2_chunks(ByteCursor::new(&bytes)).unwrap();
    assert_eq!(
        chunks,
        vec![chunk(b"MNpx", &[1, 2, 3]), chunk(b"FXpx", &[4]), chunk(b"PRpx", &[5, 6])]
    );
}

#[test]
fn embedded_stream_rejects_a_reserved_word_that_is_not_zero() {
    let bytes = embedded_chunk(b"MNpx", 0, 1, &[1, 2, 3]);
    assert_eq!(
        Chunk::read_m2_chunks(ByteCursor::new(&bytes)),
        Err(DecodeError::MalformedContainer(ContainerFault::ReservedNotZero {
            index: 0,
            tag: *b"MNpx",
            offset: 0,
        }))
    );
}

#[test]
fn embedded_stream_names_the_chunk_that_is_at_fault() {
    let mut bytes = embedded_chunk(b"MNpx", 0, 0, &[1, 2, 3]);
    bytes.extend(embedded_chunk(b"FXpx", 0, 0, &[4, 5]));
    bytes.extend(embedded_chunk(b"PRpx", 0, 0x0100_0000, &[6]));
    bytes.extend(embedded_chunk(b"WPpx", 0, 0, &[7]));
    assert_eq!(
        Chunk::read_m2_chunks(ByteCursor::new(&bytes)),
        Err(DecodeError::MalformedContainer(ContainerFault::ReservedNotZero {
            index: 2,
            tag: *b"PRpx",
            offset: 37,
        }))
    );
}

#[test]
fn embedded_stream_with_a_cut_header_fails() {
    let mut bytes = embedded_chunk(b"MNpx", 0, 0, &[1]);
    bytes.extend_from_slice(b"FXpx");
    bytes.extend_from_slice(&[0; 11]);
    assert_eq!(Chunk::read_m2_chunks(ByteCursor::new(&bytes)), Err(DecodeError::IoFailure));
}

#[test]
fn embedded_stream_with_a_cut_payload_fails() {
    let mut bytes = embedded_chunk(b"MNpx", 0, 0, &[1, 2, 3]);
    bytes.pop();
    assert_eq!(Chunk::read_m2_chunks(ByteCursor::new(&bytes)), Err(DecodeError::IoFailure));
}

#[test]
fn embedded_stream_ends_cleanly_before_a_partial_tag() {
    let mut bytes = embedded_chunk(b"MNpx", 0, 0, &[1]);
    bytes.extend_from_slice(b"FX");
    assert_eq!(Chunk::read_m2_chunks(ByteCursor::new(&bytes)), Ok(vec![chunk(b"MNpx", &[1])]));
}

#[test]
fn archive_gives_its_header_and_subfiles() {
    let first = embedded_chunk(b"MNpx", 0, 0, &[1, 2]);
    let mut second = embedded_chunk(b"FXpx", 0, 0, &[3]);
    second.extend(embedded_chunk(b"PRpx", 0, 0, &[]));
    let bytes = archive(2, 4, 10, 14, &[first, second]);
    let wad = Wad::read_wad(ByteCursor::new(&bytes)).unwrap();
    assert_eq!(wad.wad_version, 2);
    assert_eq!(wad.data_version, 7);
    assert_eq!(&wad.file_name[..5], b"test\0");
    assert_eq!(wad.file_name_length(), 4);
    assert_eq!(wad.checksum, 0x1122_3344);
    assert_eq!(wad.directory_offset as usize, 88 + 18 + 33);
    assert_eq!(wad.wad_count, 3);
    assert_eq!(wad.application_specific_directory_data_size, 4);
    assert_eq!(wad.entry_header_size, 16);
    assert_eq!(wad.directory_entry_base_size, 10);
    assert_eq!(wad.parent_checksum, 0x5566_7788);
    assert_eq!(
        wad.files,
        vec![vec![chunk(b"MNpx", &[1, 2])], vec![chunk(b"FXpx", &[3]), chunk(b"PRpx", &[])]]
    );
}

#[test]
fn archive_of_an_old_version_has_entries_of_base_size_8() {
    let first = embedded_chunk(b"MNpx", 0, 0, &[1, 2]);
    let second = embedded_chunk(b"FXpx", 0, 0, &[3]);
    for version in [0u16, 1] {
        let bytes = archive(version, 0, 99, 8, &[first.clone(), second.clone()]);
        let wad = Wad::read_wad(ByteCursor::new(&bytes)).unwrap();
        assert_eq!(wad.wad_version, version);
        assert_eq!(wad.directory_entry_base_size, 8);
        assert_eq!(wad.files, vec![vec![chunk(b"MNpx", &[1, 2])], vec![chunk(b"FXpx", &[3])]]);
    }
}

#[test]
fn archive_of_an_old_version_still_adds_the_extra_data_to_the_stride() {
    let first = embedded_chunk(b"MNpx", 0, 0, &[1, 2]);
    let second = embedded_chunk(b"FXpx", 0, 0, &[3]);
    let bytes = archive(1, 6, 0, 14, &[first, second]);
    let wad = Wad::read_wad(ByteCursor::new(&bytes)).unwrap();
    assert_eq!(wad.directory_entry_base_size, 8);
    assert_eq!(wad.files.len(), 2);
    assert_eq!(wad.files[1], vec![chunk(b"FXpx", &[3])]);
}

#[test]
fn archive_of_a_newer_version_keeps_the_declared_base_size() {
    let first = embedded_chunk(b"MNpx", 0, 0, &[1, 2]);
    let bytes = archive(4, 0, 12, 12, &[first.clone(), first]);
    let wad = Wad::read_wad(ByteCursor::new(&bytes)).unwrap();
    assert_eq!(wad.directory_entry_base_size, 12);
    assert_eq!(wad.files.len(), 2);
}

#[test]
fn archive_without_a_directory_has_no_subfiles() {
    let bytes = archive(2, 0, 8, 8, &[]);
    let wad = Wad::read_wad(ByteCursor::new(&bytes)).unwrap();
    assert_eq!(wad.files, Vec::<Vec<Chunk>>::new());
}

#[test]
fn archive_scans_no_more_than_64_slots() {
    let subfile = embedded_chunk(b"MNpx", 0, 0, &[1]);
    let subfiles: Vec<Vec<u8>> = (0..70).map(|_| subfile.clone()).collect();
    let bytes = archive(2, 0, 8, 8, &subfiles);
    let wad = Wad::read_wad(ByteCursor::new(&bytes)).unwrap();
    assert_eq!(wad.files.len(), 64);
}

#[test]
fn archive_that_starts_with_a_flat_tag_is_rejected() {
    for tag in [b"mons", b"effe", b"proj", b"phys", b"weap"] {
        let mut bytes = archive(2, 0, 8, 8, &[]);
        bytes[..4].copy_from_slice(tag);
        assert_eq!(
            Wad::read_wad(ByteCursor::new(&bytes)),
            Err(DecodeError::MalformedContainer(ContainerFault::FlatDialect))
        );
    }
}

#[test]
fn archive_with_a_cut_header_fails() {
    let bytes = archive(2, 0, 8, 8, &[]);
    assert_eq!(Wad::read_wad(ByteCursor::new(&bytes[..87])), Err(DecodeError::IoFailure));
    assert_eq!(Wad::read_wad(ByteCursor::new(&bytes[..3])), Err(DecodeError::IoFailure));
    assert_eq!(Wad::read_wad(ByteCursor::new(&[])), Err(DecodeError::IoFailure));
}

#[test]
fn archive_with_a_cut_directory_entry_fails() {
    let first = embedded_chunk(b"MNpx", 0, 0, &[1, 2]);
    let mut bytes = archive(2, 0, 8, 8, &[first]);
    bytes.truncate(bytes.len() - 2);
    assert_eq!(Wad::read_wad(ByteCursor::new(&bytes)), Err(DecodeError::IoFailure));
}

#[test]
fn archive_with_a_subfile_past_the_end_fails() {
    let first = embedded_chunk(b"MNpx", 0, 0, &[1, 2]);
    let mut bytes = archive(2, 0, 8, 8, &[first]);
    let entry = bytes.len() - 8;
    bytes[entry + 4..entry + 8].copy_from_slice(&1000u32.to_be_bytes());
    assert_eq!(Wad::read_wad(ByteCursor::new(&bytes)), Err(DecodeError::IoFailure));
}

#[test]
fn archive_fails_with_the_fault_of_its_subfile() {
    let good = embedded_chunk(b"MNpx", 0, 0, &[1, 2]);
    let mut bad = embedded_chunk(b"FXpx", 0, 0, &[3]);
    bad.extend(embedded_chunk(b"PRpx", 0, 5, &[]));
    let bytes = archive(2, 0, 8, 8, &[good.clone(), bad, good]);
    assert_eq!(
        Wad::read_wad(ByteCursor::new(&bytes)),
        Err(DecodeError::MalformedContainer(ContainerFault::ReservedNotZero {
            index: 1,
            tag: *b"PRpx",
            offset: 17,
        }))
    );
}

#[test]
fn name_without_a_zero_byte_has_the_length_of_its_field() {
    let first = embedded_chunk(b"MNpx", 0, 0, &[1, 2]);
    let mut bytes = archive(2, 0, 8, 8, &[first]);
    for byte in &mut bytes[4..68] {
        *byte = b'x';
    }
    let wad = Wad::read_wad(ByteCursor::new(&bytes)).unwrap();
    assert_eq!(wad.file_name_length(), 64);
    assert_eq!(wad.file_name, [b'x'; 64]);
}

#[test]
fn name_that_starts_with_a_zero_byte_is_empty() {
    let mut bytes = archive(2, 0, 8, 8, &[]);
    bytes[4] = 0;
    let wad = Wad::read_wad(ByteCursor::new(&bytes)).unwrap();
    assert_eq!(wad.file_name_length(), 0);
}
