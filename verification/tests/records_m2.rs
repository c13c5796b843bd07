use physics_eater::error::{DecodeError, EntityKind};
use physics_eater::namedb::{Label, NameDbs, NameSources};
use physics_eater::physics::m2::{
    AttackDefinition, DamageDefinition, DamageDefinitionFlags, EffectDefinition, EffectFlags,
    MonsterDefinition, MonsterFlags, PhysicsDefinitions, ProjectileDefinition, ProjectileFlags,
    TriggerDefinition, WeaponDefinition, WeaponFlags, SIZE_OF_EFFECT_DEFINITION,
    SIZE_OF_MONSTER_DEFINITION, SIZE_OF_PHYSICS_DEFINITION, SIZE_OF_PROJECTILE_DEFINITION,
    SIZE_OF_WEAPON_DEFINITION,
};
use physics_eater::util::{Angle, ByteCursor, Fixed16_16, Fixed6_10};

/// Bytes whose 16-bit word number `k` holds `k`.
fn numbered_words(length: usize) -> Vec<u8> {
    let mut bytes = Vec::new();
    let mut word: u16 = 0;
    while bytes.len() < length {
        bytes.extend_from_slice(&word.to_be_bytes());
        word += 1;
    }
    bytes
}

fn pair_of_words(high: i32) -> Fixed16_16 {
    Fixed16_16 { raw: (high << 16) | (high + 1) }
}

fn unnamed(i: usize) -> Option<Label> {
    Some(Label::Index(i))
}

fn named(text: &str) -> Label {
    Label::Name(text.to_string())
}

#[test]
fn new_record_sizes() {
    assert_eq!(SIZE_OF_MONSTER_DEFINITION, 156);
    assert_eq!(SIZE_OF_EFFECT_DEFINITION, 14);
    assert_eq!(SIZE_OF_PROJECTILE_DEFINITION, 48);
    assert_eq!(SIZE_OF_WEAPON_DEFINITION, 134);
    assert_eq!(SIZE_OF_PHYSICS_DEFINITION, 104);
}

#[test]
fn new_monster_flags_map_bit_to_flag() {
    let flags = MonsterFlags::from_word(1 << 3);
    assert!(flags.major);
    assert!(!flags.minor);
    assert!(!flags.is_alien);
    let bytes = [0x08u8, 0, 0, 0];
    let mut cursor = ByteCursor::new(&bytes);
    let flags = MonsterFlags::read(&mut cursor).unwrap();
    assert!(flags.chooses_weapons_randomly);
    assert_eq!(flags, MonsterFlags::from_word(1 << 27));
}

#[test]
fn new_damage_flags_are_a_16_bit_word() {
    let bytes = [0xffu8, 0xff, 0, 0];
    let mut cursor = ByteCursor::new(&bytes);
    assert_eq!(
        DamageDefinitionFlags::read(&mut cursor),
        Ok(DamageDefinitionFlags { alien_damage: true })
    );
    assert_eq!(cursor.position(), 2);
}

#[test]
fn new_effect_record() {
    let bytes = [
        0x80u8, 0x00, 0x00, 0x09, 0x00, 0x01, 0x00, 0x00, 0x00, 0x10, 0x80, 0x00, 0x00, 0x02,
    ];
    let names = NameSources {
        sound_names: vec!["a".into(), "b".into(), "hum".into()],
        ..NameSources::default()
    };
    let dbs = NameDbs::new(Some(&names));
    let mut cursor = ByteCursor::new(&bytes);
    assert_eq!(
        EffectDefinition::read(&mut cursor, &dbs, 4),
        Ok(EffectDefinition {
            name: Label::Index(4),
            collection: None,
            clut: None,
            sequence: Some(9),
            sound_pitch: Fixed16_16 { raw: 65536 },
            flags: EffectFlags {
                end_when_animation_loops: false,
                end_when_transfer_animation_loops: false,
                sound_only: false,
                make_twin_visible: false,
                media_effect: true,
            },
            delay: None,
            delay_sound: Some(named("hum")),
        })
    );
    assert_eq!(cursor.position(), 14);
}

#[test]
fn new_effects_are_one_per_slice_and_take_the_index_of_their_slice() {
    let payload = numbered_words(14 * 4);
    let effects = EffectDefinition::read_definitions(&payload, &NameDbs::default()).unwrap();
    assert_eq!(effects.len(), 4);
    for (i, effect) in effects.iter().enumerate() {
        assert_eq!(effect.name, Label::Index(i));
        assert_eq!(effect.sequence, Some(7 * i as u16 + 1));
        assert_eq!(effect.delay_sound, unnamed(7 * i + 6));
    }
}

#[test]
fn new_payload_that_is_no_whole_number_of_records_is_rejected() {
    let dbs = NameDbs::default();
    assert_eq!(
        MonsterDefinition::read_definitions(&[0; 138], &dbs),
        Err(DecodeError::RecordSizeMismatch(EntityKind::Monster, 138, 156))
    );
    assert_eq!(
        EffectDefinition::read_definitions(&[0; 6], &dbs),
        Err(DecodeError::RecordSizeMismatch(EntityKind::Effect, 6, 14))
    );
    assert_eq!(
        ProjectileDefinition::read_definitions(&[0; 49], &dbs),
        Err(DecodeError::RecordSizeMismatch(EntityKind::Projectile, 49, 48))
    );
    assert_eq!(
        WeaponDefinition::read_definitions(&[0; 120], &dbs),
        Err(DecodeError::RecordSizeMismatch(EntityKind::Weapon, 120, 134))
    );
}

#[test]
fn new_records_of_no_bytes_are_no_records() {
    let dbs = NameDbs::default();
    assert_eq!(MonsterDefinition::read_definitions(&[], &dbs), Ok(vec![]));
    assert_eq!(EffectDefinition::read_definitions(&[], &dbs), Ok(vec![]));
    assert_eq!(ProjectileDefinition::read_definitions(&[], &dbs), Ok(vec![]));
    assert_eq!(WeaponDefinition::read_definitions(&[], &dbs), Ok(vec![]));
}

#[test]
fn new_monster_takes_each_field_from_its_place() {
    let bytes = numbered_words(156);
    let mut cursor = ByteCursor::new(&bytes);
    let monster = MonsterDefinition::read(&mut cursor, &NameDbs::default(), 5).unwrap();
    assert_eq!(cursor.position(), 156);
    assert_eq!(monster.name, Label::Index(5));
    assert_eq!(monster.collection, unnamed(0));
    assert_eq!(monster.clut, Some(0));
    assert_eq!(monster.vitality, Some(1));
    assert_eq!(monster.immunities, vec![Label::Index(0), Label::Index(1), Label::Index(17)]);
    assert_eq!(monster.weaknesses, vec![Label::Index(0), Label::Index(2), Label::Index(18)]);
    assert_eq!(monster.flags, MonsterFlags::from_word(0x0006_0007));
    assert_eq!(monster.class, unnamed(0x0008_0009));
    assert_eq!(monster.sound_pitch, pair_of_words(14));
    assert_eq!(monster.activation_sound, unnamed(16));
    assert_eq!(monster.friendly_activation_sound, unnamed(17));
    assert_eq!(monster.clear_sound, unnamed(18));
    assert_eq!(monster.kill_sound, unnamed(19));
    assert_eq!(monster.apology_sound, unnamed(20));
    assert_eq!(monster.friendly_fire_sound, unnamed(21));
    assert_eq!(monster.flaming_sound, unnamed(22));
    assert_eq!(monster.random_sound, unnamed(23));
    assert_eq!(monster.random_sound_mask, Some(24));
    assert_eq!(monster.carrying_item_type, unnamed(25));
    assert_eq!(monster.radius, Fixed6_10 { raw: 26 });
    assert_eq!(monster.maximum_ledge_delta, Fixed6_10 { raw: 30 });
    assert_eq!(monster.external_velocity_scale, pair_of_words(31));
    assert_eq!(monster.impact_effect, unnamed(33));
    assert_eq!(monster.melee_impact_effect, unnamed(34));
    assert_eq!(monster.contrail_effect, unnamed(35));
    assert_eq!(monster.half_visual_arc, Angle { raw: 36 });
    assert_eq!(monster.half_vertical_visual_arc, Angle { raw: 37 });
    assert_eq!(monster.visual_range, Fixed6_10 { raw: 38 });
    assert_eq!(monster.dark_visual_range, Fixed6_10 { raw: 39 });
    assert_eq!(monster.intelligence, Some(40));
    assert_eq!(monster.speed, Fixed6_10 { raw: 41 });
    assert_eq!(monster.gravity, Fixed6_10 { raw: 42 });
    assert_eq!(monster.terminal_velocity, Fixed6_10 { raw: 43 });
    assert_eq!(monster.door_retry_mask, Some(44));
    assert_eq!(monster.shrapnel_radius, Some(Fixed6_10 { raw: 45 }));
    assert_eq!(
        monster.shrapnel_damage,
        DamageDefinition {
            damage_type: unnamed(46),
            flags: DamageDefinitionFlags { alien_damage: true },
            base: 48,
            random: 49,
            scale: pair_of_words(50),
        }
    );
    assert_eq!(monster.hit_sequence, Some(52));
    assert_eq!(monster.moving_sequence, Some(58));
    assert_eq!(monster.teleport_in_sequence, Some(59));
    assert_eq!(monster.teleport_out_sequence, Some(60));
    assert_eq!(monster.attack_frequency, Some(61));
    assert_eq!(
        monster.melee_attack,
        Some(AttackDefinition {
            projectile_type: Label::Index(62),
            repetitions: Some(63),
            error: Angle { raw: 64 },
            range: Fixed6_10 { raw: 65 },
            attack_sequence: Some(66),
            dx: Fixed6_10 { raw: 67 },
            dy: Fixed6_10 { raw: 68 },
            dz: Fixed6_10 { raw: 69 },
        })
    );
    let ranged = monster.ranged_attack.unwrap();
    assert_eq!(ranged.projectile_type, Label::Index(70));
    assert_eq!(ranged.dz, Fixed6_10 { raw: 77 });
}

#[test]
fn new_monster_of_set_bytes_has_nothing_optional() {
    let mut cursor_bytes = vec![0xffu8; 156];
    cursor_bytes.push(0);
    let mut cursor = ByteCursor::new(&cursor_bytes);
    let monster = MonsterDefinition::read(&mut cursor, &NameDbs::default(), 0).unwrap();
    assert_eq!(cursor.position(), 156);
    assert_eq!(monster.collection, None);
    assert_eq!(monster.class, None);
    assert_eq!(monster.immunities.len(), 32);
    assert_eq!(monster.sound_pitch, Fixed16_16 { raw: -1 });
    assert_eq!(monster.friendly_fire_sound, None);
    assert_eq!(monster.contrail_effect, None);
    assert_eq!(monster.teleport_out_sequence, None);
    assert_eq!(monster.melee_attack, None);
    assert_eq!(monster.ranged_attack, None);
}

#[test]
fn new_monster_that_is_cut_short_fails() {
    let bytes = numbered_words(156);
    for length in [0, 2, 100, 155] {
        let mut cursor = ByteCursor::new(&bytes[..length]);
        assert_eq!(
            MonsterDefinition::read(&mut cursor, &NameDbs::default(), 0),
            Err(DecodeError::IoFailure)
        );
        assert_eq!(cursor.position(), length as u64);
    }
}

#[test]
fn new_projectile_takes_each_field_from_its_place() {
    let bytes = numbered_words(48);
    let mut cursor = ByteCursor::new(&bytes);
    let projectile = ProjectileDefinition::read(&mut cursor, &NameDbs::default(), 1).unwrap();
    assert_eq!(cursor.position(), 48);
    assert_eq!(projectile.name, Label::Index(1));
    assert_eq!(projectile.sequence, Some(1));
    assert_eq!(projectile.detonation_effect, unnamed(2));
    assert_eq!(projectile.media_detonation_effect, unnamed(3));
    assert_eq!(projectile.contrail_effect, unnamed(4));
    assert_eq!(projectile.ticks_between_contrails, unnamed(5));
    assert_eq!(projectile.maximum_contrails, unnamed(6));
    assert_eq!(projectile.media_projectile_promotion, unnamed(7));
    assert_eq!(projectile.radius, Fixed6_10 { raw: 8 });
    assert_eq!(projectile.area_of_effect, Fixed6_10 { raw: 9 });
    assert_eq!(projectile.damage.damage_type, unnamed(10));
    assert!(projectile.damage.flags.alien_damage);
    assert_eq!(projectile.damage.base, 12);
    assert_eq!(projectile.damage.random, 13);
    assert_eq!(projectile.damage.scale, pair_of_words(14));
    assert_eq!(projectile.flags, ProjectileFlags::from_word(0x0010_0011));
    assert!(projectile.flags.guided);
    assert!(projectile.flags.affected_by_gravity);
    assert!(projectile.flags.affected_by_half_gravity);
    assert!(!projectile.flags.stop_when_animation_loops);
    assert!(!projectile.flags.passes_through_objects);
    assert_eq!(projectile.speed, Fixed6_10 { raw: 18 });
    assert_eq!(projectile.maximum_range, Fixed6_10 { raw: 19 });
    assert_eq!(projectile.sound_pitch, pair_of_words(20));
    assert_eq!(projectile.flyby_sound, unnamed(22));
    assert_eq!(projectile.rebound_sound, unnamed(23));
}

#[test]
fn new_projectile_flags_are_a_32_bit_word() {
    let flags = ProjectileFlags::from_word(1 << 22);
    assert!(flags.passes_through_objects);
    assert!(!flags.penetrates_media_boundary);
    let flags = ProjectileFlags::from_word(1 << 14);
    assert!(flags.rebounds_from_floor);
    assert!(!flags.doubly_affected_by_gravity);
    assert_eq!(ProjectileFlags::from_word(1 << 23), ProjectileFlags::from_word(0));
}

#[test]
fn new_promoted_projectile_is_named_as_a_projectile() {
    let mut bytes = vec![0u8; 48];
    bytes[15] = 1;
    let names = NameSources {
        projectile_names: vec!["bolt".into(), "grenade".into()],
        effect_names: vec!["puff".into()],
        ..NameSources::default()
    };
    let dbs = NameDbs::new(Some(&names));
    let projectiles = ProjectileDefinition::read_definitions(&bytes, &dbs).unwrap();
    assert_eq!(projectiles[0].name, named("bolt"));
    assert_eq!(projectiles[0].media_projectile_promotion, Some(named("grenade")));
    assert_eq!(projectiles[0].media_detonation_effect, Some(named("puff")));
}

#[test]
fn new_trigger_takes_each_field_from_its_place() {
    let bytes = numbered_words(36);
    let mut cursor = ByteCursor::new(&bytes);
    assert_eq!(
        TriggerDefinition::read(&mut cursor, &NameDbs::default(), 0),
        Ok(TriggerDefinition {
            rounds_per_magazine: Some(0),
            ammunition_type: unnamed(1),
            ticks_per_round: Some(2),
            recovery_ticks: Some(3),
            charging_ticks: Some(4),
            recoil_magnitude: Fixed6_10 { raw: 5 },
            firing_sound: unnamed(6),
            click_sound: unnamed(7),
            charging_sound: unnamed(8),
            shell_casing_sound: unnamed(9),
            reloading_sound: unnamed(10),
            charged_sound: unnamed(11),
            projectile_type: unnamed(12),
            theta_error: Angle { raw: 13 },
            dx: Fixed6_10 { raw: 14 },
            dz: Fixed6_10 { raw: 15 },
            shell_casing_type: Some(16),
            burst_count: Some(17),
        })
    );
    assert_eq!(cursor.position(), 36);
}

#[test]
fn new_weapon_has_its_triggers_as_two_blocks_at_its_end() {
    let bytes = numbered_words(134);
    let mut cursor = ByteCursor::new(&bytes);
    let weapon = WeaponDefinition::read(&mut cursor, &NameDbs::default(), 7).unwrap();
    assert_eq!(cursor.position(), 134);
    assert_eq!(weapon.name, Label::Index(7));
    assert_eq!(weapon.item_type, unnamed(0));
    assert_eq!(weapon.powerup_type, unnamed(1));
    assert_eq!(weapon.weapon_class, Some(named("dual function")));
    assert_eq!(weapon.flags, WeaponFlags::from_word(3));
    assert!(weapon.flags.is_automatic);
    assert!(weapon.flags.disappears_after_use);
    assert!(!weapon.flags.plays_instant_shell_casing_sound);
    assert!(!weapon.flags.secondary_has_angular_flipping);
    assert_eq!(weapon.firing_light_intensity, pair_of_words(4));
    assert_eq!(weapon.firing_intensity_decay_ticks, Some(6));
    assert_eq!(weapon.idle_height, pair_of_words(7));
    assert_eq!(weapon.horizontal_amplitude, pair_of_words(17));
    assert_eq!(weapon.collection, Some(19));
    assert_eq!(weapon.reloading_sequence, Some(22));
    assert_eq!(weapon.unused, 23);
    assert_eq!(weapon.charging_sequence, Some(24));
    assert_eq!(weapon.charged_sequence, Some(25));
    assert_eq!(weapon.ready_ticks, Some(26));
    assert_eq!(weapon.await_reload_ticks, Some(27));
    assert_eq!(weapon.loading_ticks, Some(28));
    assert_eq!(weapon.finish_loading_ticks, Some(29));
    assert_eq!(weapon.powerup_ticks, Some(30));
    let [primary, secondary] = &weapon.triggers;
    assert_eq!(primary.rounds_per_magazine, Some(31));
    assert_eq!(primary.ammunition_type, unnamed(32));
    assert_eq!(primary.charged_sound, unnamed(42));
    assert_eq!(primary.burst_count, Some(48));
    assert_eq!(secondary.rounds_per_magazine, Some(49));
    assert_eq!(secondary.ammunition_type, unnamed(50));
    assert_eq!(secondary.reloading_sound, unnamed(59));
    assert_eq!(secondary.shell_casing_type, Some(65));
    assert_eq!(secondary.burst_count, Some(66));
}

#[test]
fn new_weapon_flags_map_bit_to_flag() {
    let flags = WeaponFlags::from_word(1 << 10);
    assert!(flags.secondary_has_angular_flipping);
    assert!(!flags.triggers_share_ammo);
    assert_eq!(WeaponFlags::from_word(1 << 11), WeaponFlags::from_word(0));
}

#[test]
fn new_weapon_that_is_cut_short_fails() {
    let bytes = numbered_words(134);
    let mut cursor = ByteCursor::new(&bytes[..133]);
    assert_eq!(
        WeaponDefinition::read(&mut cursor, &NameDbs::default(), 0),
        Err(DecodeError::IoFailure)
    );
    assert_eq!(cursor.position(), 133);
}

#[test]
fn new_movement_profiles_have_a_splash_height() {
    let bytes = numbered_words(208);
    let mut cursor = ByteCursor::new(&bytes);
    let profiles = PhysicsDefinitions::read(&mut cursor, &NameDbs::default()).unwrap();
    assert_eq!(cursor.position(), 208);
    assert_eq!(profiles.walking.maximum_forward_velocity, pair_of_words(0));
    assert_eq!(profiles.walking.camera_height, pair_of_words(46));
    assert_eq!(profiles.walking.splash_height, pair_of_words(48));
    assert_eq!(profiles.walking.half_camera_separation, pair_of_words(50));
    assert_eq!(profiles.running.maximum_forward_velocity, pair_of_words(52));
    assert_eq!(profiles.running.half_camera_separation, pair_of_words(102));
    let mut cursor = ByteCursor::new(&bytes[..207]);
    assert_eq!(
        PhysicsDefinitions::read(&mut cursor, &NameDbs::default()),
        Err(DecodeError::IoFailure)
    );
}
