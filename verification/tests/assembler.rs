use physics_eater::error::{ContainerFault, DecodeError, EntityKind};
use physics_eater::namedb::{Label, NameDbs, NameSources};
use physics_eater::physics::{
    detect_dialect, is_m1_physics, m1, m2, read_physics, same_tag, Dialect, PhysicsModel,
};
use physics_eater::util::{ByteCursor, Fixed16_16};
use physics_eater::wad::Chunk;

fn flat(tag: &[u8; 4], size: u16, payload: &[u8]) -> Vec<u8> {
    let mut bytes = tag.to_vec();
    bytes.extend_from_slice(&[0; 4]);
    bytes.extend_from_slice(&((payload.len() / size as usize) as u16).to_be_bytes());
    bytes.extend_from_slice(&size.to_be_bytes());
    bytes.extend_from_slice(payload);
    bytes
}

fn embedded(tag: &[u8; 4], payload: &[u8]) -> Vec<u8> {
    let mut bytes = tag.to_vec();
    bytes.extend_from_slice(&[0; 4]);
    bytes.extend_from_slice(&(payload.len() as u32).to_be_bytes());
    bytes.extend_from_slice(&[0; 4]);
    bytes.extend_from_slice(payload);
    bytes
}

/// An archive of the given subfiles, its directory at its end.
fn wad_of(subfiles: &[Vec<u8>]) -> Vec<u8> {
    let body: usize = subfiles.iter().map(|subfile| subfile.len()).sum();
    let mut bytes = vec![0u8; 88];
    bytes[1] = 2;
    bytes[72..76].copy_from_slice(&((88 + body) as u32).to_be_bytes());
    bytes[83] = 8;
    let mut directory = Vec::new();
    for subfile in subfiles {
        directory.extend_from_slice(&(bytes.len() as u32).to_be_bytes());
        directory.extend_from_slice(&(subfile.len() as u32).to_be_bytes());
        bytes.extend_from_slice(subfile);
    }
    bytes.extend(directory);
    bytes
}

fn old_file(monsters: usize) -> Vec<u8> {
    let mut bytes = flat(b"mons", 138, &vec![0; 138 * monsters]);
    bytes.extend(flat(b"effe", 6, &[]));
    bytes.extend(flat(b"proj", 36, &[]));
    bytes.extend(flat(b"phys", 100, &[0; 200]));
    bytes.extend(flat(b"weap", 120, &[]));
    bytes
}

fn new_chunks(with_movement: bool) -> Vec<u8> {
    let mut bytes = embedded(b"MNpx", &[0; 156 * 2]);
    bytes.extend(embedded(b"FXpx", &[0; 14]));
    bytes.extend(embedded(b"PRpx", &[0; 48 * 3]));
    if with_movement {
        bytes.extend(embedded(b"PXpx", &[0; 208]));
    }
    bytes.extend(embedded(b"WPpx", &[0; 134]));
    bytes
}

#[test]
fn tags_are_compared_byte_by_byte() {
    assert!(same_tag(b"mons", b"mons"));
    assert!(!same_tag(b"mons", b"monS"));
    assert!(!same_tag(b"mons", b"Mons"));
    assert_eq!(m1::MONSTER_PHYSICS_TAG, *b"mons");
    assert_eq!(m1::EFFECT_PHYSICS_TAG, *b"effe");
    assert_eq!(m1::PROJECTILE_PHYSICS_TAG, *b"proj");
    assert_eq!(m1::PHYSICS_PHYSICS_TAG, *b"phys");
    assert_eq!(m1::WEAPON_PHYSICS_TAG, *b"weap");
    assert_eq!(m2::MONSTER_PHYSICS_TAG, *b"MNpx");
    assert_eq!(m2::EFFECT_PHYSICS_TAG, *b"FXpx");
    assert_eq!(m2::PROJECTILE_PHYSICS_TAG, *b"PRpx");
    assert_eq!(m2::PHYSICS_PHYSICS_TAG, *b"PXpx");
    assert_eq!(m2::WEAPON_PHYSICS_TAG, *b"WPpx");
}

#[test]
fn dialect_is_told_by_the_first_tag_and_nothing_is_consumed() {
    for tag in [b"mons", b"effe", b"proj", b"phys", b"weap"] {
        let cursor = ByteCursor::new(&tag[..]);
        assert_eq!(is_m1_physics(&cursor), Ok(true));
        assert_eq!(detect_dialect(&cursor), Ok(Dialect::Flat));
        assert_eq!(cursor.position(), 0);
    }
    for tag in [b"MNpx", b"\0\0\0\0", b"Mons", b"phyz"] {
        let cursor = ByteCursor::new(&tag[..]);
        assert_eq!(is_m1_physics(&cursor), Ok(false));
        assert_eq!(detect_dialect(&cursor), Ok(Dialect::Archive));
    }
    let cursor = ByteCursor::new(b"mon");
    assert_eq!(is_m1_physics(&cursor), Err(DecodeError::IoFailure));
    assert_eq!(detect_dialect(&cursor), Err(DecodeError::IoFailure));
    let mut cursor = ByteCursor::new(b"..weap");
    cursor.seek(2);
    assert_eq!(detect_dialect(&cursor), Ok(Dialect::Flat));
    assert_eq!(cursor.position(), 2);
}

#[test]
fn flat_file_with_one_monster_of_zero_bytes() {
    let bytes = old_file(1);
    let model = read_physics(ByteCursor::new(&bytes), &NameDbs::default()).unwrap();
    let PhysicsModel::M1(physics) = model else { panic!("a flat file holds the older records") };
    assert_eq!(physics.monster_definitions.len(), 1);
    assert_eq!(physics.effect_definitions, vec![]);
    assert_eq!(physics.projectile_definitions, vec![]);
    assert_eq!(physics.weapon_definitions, vec![]);
    let monster = &physics.monster_definitions[0];
    assert_eq!(monster.name, Label::Index(0));
    assert_eq!(monster.flags, m1::MonsterFlags::from_word(0));
    assert!(!monster.flags.omniscient);
    assert!(!monster.flags.flies);
    assert!(!monster.flags.chooses_weapons_randomly);
    assert!(!monster.shrapnel_damage.flags.alien_damage);
    // A zero word is a present value: only a word with bit 0x8000 set is absent.
    assert_eq!(monster.vitality, Some(0));
    assert_eq!(monster.collection, Some(Label::Index(0)));
    assert_eq!(monster.immunities, vec![]);
    assert_eq!(physics.physics.walking.maximum_forward_velocity, Fixed16_16 { raw: 0 });
    assert_eq!(physics.physics.walking, physics.physics.running);
}

#[test]
fn flat_file_with_one_monster_and_a_name_for_it() {
    let bytes = old_file(1);
    let names = NameSources { monster_names: vec!["grunt".into()], ..NameSources::default() };
    let physics = m1::convert_physics(ByteCursor::new(&bytes), &NameDbs::new(Some(&names))).unwrap();
    assert_eq!(physics.monster_definitions[0].name, Label::Name("grunt".into()));
}

#[test]
fn flat_file_without_a_chunk_fails_for_want_of_it() {
    let dbs = NameDbs::default();
    let complete = [
        flat(b"mons", 138, &[0; 138]),
        flat(b"effe", 6, &[]),
        flat(b"proj", 36, &[]),
        flat(b"weap", 120, &[]),
        flat(b"phys", 100, &[0; 200]),
    ];
    for missing in 0..5 {
        let mut bytes = vec![];
        for (i, chunk) in complete.iter().enumerate() {
            if i != missing {
                bytes.extend_from_slice(chunk);
            }
        }
        let mut tag = [0u8; 4];
        tag.copy_from_slice(&complete[missing][..4]);
        assert_eq!(
            m1::convert_physics(ByteCursor::new(&bytes), &dbs),
            Err(DecodeError::ChunkNotFound(tag))
        );
        assert_eq!(
            read_physics(ByteCursor::new(&bytes), &dbs),
            Err(DecodeError::ChunkNotFound(tag))
        );
    }
}

#[test]
fn first_missing_chunk_decides_the_error() {
    let mut bytes = flat(b"mons", 138, &[0; 138]);
    bytes.extend(flat(b"weap", 120, &[]));
    assert_eq!(
        read_physics(ByteCursor::new(&bytes), &NameDbs::default()),
        Err(DecodeError::ChunkNotFound(*b"effe"))
    );
}

#[test]
fn flat_file_with_a_broken_chunk_fails() {
    let mut bytes = flat(b"mons", 138, &[0; 138]);
    bytes.extend(flat(b"effe", 7, &[0; 7]));
    bytes.extend(flat(b"proj", 36, &[]));
    bytes.extend(flat(b"phys", 100, &[0; 200]));
    bytes.extend(flat(b"weap", 120, &[]));
    assert_eq!(
        read_physics(ByteCursor::new(&bytes), &NameDbs::default()),
        Err(DecodeError::RecordSizeMismatch(EntityKind::Effect, 7, 6))
    );
}

#[test]
fn flat_file_with_a_short_movement_chunk_fails() {
    let mut bytes = flat(b"mons", 138, &[]);
    bytes.extend(flat(b"effe", 6, &[]));
    bytes.extend(flat(b"proj", 36, &[]));
    bytes.extend(flat(b"phys", 100, &[0; 100]));
    bytes.extend(flat(b"weap", 120, &[]));
    assert_eq!(
        read_physics(ByteCursor::new(&bytes), &NameDbs::default()),
        Err(DecodeError::IoFailure)
    );
}

#[test]
fn flat_file_that_is_cut_short_fails() {
    let bytes = old_file(1);
    assert_eq!(
        read_physics(ByteCursor::new(&bytes[..bytes.len() - 1]), &NameDbs::default()),
        Err(DecodeError::IoFailure)
    );
}

#[test]
fn movement_chunk_may_hold_more_than_the_two_profiles() {
    let mut bytes = flat(b"mons", 138, &[]);
    bytes.extend(flat(b"effe", 6, &[]));
    bytes.extend(flat(b"proj", 36, &[]));
    bytes.extend(flat(b"phys", 100, &[0; 300]));
    bytes.extend(flat(b"weap", 120, &[]));
    assert!(read_physics(ByteCursor::new(&bytes), &NameDbs::default()).is_ok());
}

#[test]
fn first_of_two_chunks_with_one_tag_is_the_one_decoded() {
    let mut bytes = flat(b"mons", 138, &[0; 138]);
    bytes.extend(flat(b"mons", 138, &[0; 276]));
    bytes.extend(flat(b"effe", 6, &[]));
    bytes.extend(flat(b"proj", 36, &[]));
    bytes.extend(flat(b"phys", 100, &[0; 200]));
    bytes.extend(flat(b"weap", 120, &[]));
    let physics = m1::convert_physics(ByteCursor::new(&bytes), &NameDbs::default()).unwrap();
    assert_eq!(physics.monster_definitions.len(), 1);
}

#[test]
fn archive_gives_the_newer_records_of_its_first_subfile() {
    let bytes = wad_of(&[new_chunks(true), embedded(b"MNpx", &[0; 156])]);
    let model = read_physics(ByteCursor::new(&bytes), &NameDbs::default()).unwrap();
    let PhysicsModel::M2(physics) = model else { panic!("an archive holds the newer records") };
    assert_eq!(physics.monster_definitions.len(), 2);
    assert_eq!(physics.effect_definitions.len(), 1);
    assert_eq!(physics.projectile_definitions.len(), 3);
    assert_eq!(physics.weapon_definitions.len(), 1);
    assert_eq!(physics.monster_definitions[1].name, Label::Index(1));
    assert_eq!(physics.weapon_definitions[0].weapon_class, Some(Label::Name("melee".into())));
    assert_eq!(physics.physics.running.splash_height, Fixed16_16 { raw: 0 });
}

#[test]
fn archive_whose_first_subfile_lacks_the_movement_chunk_fails() {
    let bytes = wad_of(&[new_chunks(false), new_chunks(true)]);
    assert_eq!(
        read_physics(ByteCursor::new(&bytes), &NameDbs::default()),
        Err(DecodeError::ChunkNotFound(*b"PXpx"))
    );
    assert_eq!(
        m2::convert_physics(ByteCursor::new(&bytes), &NameDbs::default()),
        Err(DecodeError::ChunkNotFound(*b"PXpx"))
    );
}

#[test]
fn archive_without_a_subfile_has_no_chunk_to_find() {
    let bytes = wad_of(&[]);
    assert_eq!(
        read_physics(ByteCursor::new(&bytes), &NameDbs::default()),
        Err(DecodeError::ChunkNotFound(*b"MNpx"))
    );
}

#[test]
fn archive_with_a_fault_in_a_later_subfile_fails() {
    let mut bad = embedded(b"MNpx", &[]);
    bad[12..16].copy_from_slice(&[0, 0, 0, 9]);
    let bytes = wad_of(&[new_chunks(true), bad]);
    assert_eq!(
        read_physics(ByteCursor::new(&bytes), &NameDbs::default()),
        Err(DecodeError::MalformedContainer(ContainerFault::ReservedNotZero {
            index: 0,
            tag: *b"MNpx",
            offset: 0,
        }))
    );
}

#[test]
fn flat_file_is_no_archive() {
    let bytes = old_file(1);
    assert_eq!(
        m2::convert_physics(ByteCursor::new(&bytes), &NameDbs::default()),
        Err(DecodeError::MalformedContainer(ContainerFault::FlatDialect))
    );
}

#[test]
fn empty_input_fails() {
    assert_eq!(read_physics(ByteCursor::new(&[]), &NameDbs::default()), Err(DecodeError::IoFailure));
    assert_eq!(
        m1::convert_physics(ByteCursor::new(&[]), &NameDbs::default()),
        Err(DecodeError::ChunkNotFound(*b"mons"))
    );
    assert_eq!(
        m2::convert_physics(ByteCursor::new(&[]), &NameDbs::default()),
        Err(DecodeError::IoFailure)
    );
}

#[test]
fn chunks_are_assembled_whatever_their_order() {
    let chunks = vec![
        Chunk { kind: *b"weap", data: vec![] },
        Chunk { kind: *b"phys", data: vec![0; 200] },
        Chunk { kind: *b"proj", data: vec![0; 72] },
        Chunk { kind: *b"effe", data: vec![0; 12] },
        Chunk { kind: *b"mons", data: vec![] },
    ];
    let physics = m1::assemble(&chunks, &NameDbs::default()).unwrap();
    assert_eq!(physics.projectile_definitions.len(), 2);
    assert_eq!(physics.effect_definitions.len(), 2);
    assert_eq!(
        m2::assemble(&chunks, &NameDbs::default()),
        Err(DecodeError::ChunkNotFound(*b"MNpx"))
    );
}
