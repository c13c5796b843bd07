//! The newer generation of physics records, stored in the chunks of an
//! archive's first subfile.
//!
//! Each kind of record has a fixed size and a fixed order of fields. What a
//! record holds is stated by its `record_at`: every field is named with the
//! offset at which it stands. Its `read` takes the same fields from a cursor,
//! one after the other.

use crate::error::{agrees, DecodeError, EntityKind};
use crate::namedb::{
    label_of, labels_of, optional_label, optional_label_32, Label, LabelView, NameDbs,
};
use crate::util::{
    angle_at, be16_at, be32_at, clut_of, collection_of, decode_flags, fixed16_16_at,
    fixed6_10_at, flag, optional16_at, optional32_at, optional_fixed6_10_at, read16, read32,
    read_angle, read_fx_16_16, read_fx_6_10, read_generic_bitfield32, read_optional_16,
    read_optional_32, read_optional_fx_6_10, read_signed_16, set_bits_at, shape_clut,
    shape_collection, signed16_at, Angle, ByteCursor, Fixed16_16, Fixed6_10,
};
use crate::wad::{archive, payload_of, Chunk, ChunkView, Wad};
use vstd::prelude::*;

verus! {

/// The tag of the monster chunk, `MNpx`.
pub const MONSTER_PHYSICS_TAG: [u8; 4] = [0x4d, 0x4e, 0x70, 0x78];

/// The tag of the effect chunk, `FXpx`.
pub const EFFECT_PHYSICS_TAG: [u8; 4] = [0x46, 0x58, 0x70, 0x78];

/// The tag of the projectile chunk, `PRpx`.
pub const PROJECTILE_PHYSICS_TAG: [u8; 4] = [0x50, 0x52, 0x70, 0x78];

/// The tag of the movement chunk, `PXpx`.
pub const PHYSICS_PHYSICS_TAG: [u8; 4] = [0x50, 0x58, 0x70, 0x78];

/// The tag of the weapon chunk, `WPpx`.
pub const WEAPON_PHYSICS_TAG: [u8; 4] = [0x57, 0x50, 0x70, 0x78];

/// The size of one monster record.
pub const SIZE_OF_MONSTER_DEFINITION: usize = 156;

/// The size of one effect record.
pub const SIZE_OF_EFFECT_DEFINITION: usize = 14;

/// The size of one projectile record.
pub const SIZE_OF_PROJECTILE_DEFINITION: usize = 48;

/// The size of one weapon record.
pub const SIZE_OF_WEAPON_DEFINITION: usize = 134;

/// The size of one movement profile.
pub const SIZE_OF_PHYSICS_DEFINITION: usize = 104;

/// The flags of a monster.
#[derive(Clone, Copy, Debug, PartialEq, Eq)]
pub struct MonsterFlags {
    pub omniscient: bool,
    pub flies: bool,
    pub is_alien: bool,
    pub major: bool,
    pub minor: bool,
    pub cannot_skip: bool,
    pub floats: bool,
    pub cannot_attack: bool,
    pub uses_sniper_ledges: bool,
    pub is_invisible: bool,
    pub is_subtly_invisible: bool,
    pub kamikaze: bool,
    pub berserker: bool,
    pub enlarged: bool,
    pub delayed_hard_death: bool,
    pub fires_symmetrically: bool,
    pub nuclear_hard_death: bool,
    pub cannot_fire_backwards: bool,
    pub can_die_in_flames: bool,
    pub waits_with_clear_shot: bool,
    pub tiny: bool,
    pub attacks_immediately: bool,
    pub not_afraid_of_water: bool,
    pub not_afraid_of_sewage: bool,
    pub not_afraid_of_lava: bool,
    pub not_afraid_of_goo: bool,
    pub can_teleport_under_media: bool,
    pub chooses_weapons_randomly: bool,
}

impl MonsterFlags {
    /// The flags that the bits of `word` stand for: bit 0 is the first flag.
    pub open spec fn of_word(word: u32) -> MonsterFlags {
        MonsterFlags {
            omniscient: flag(word, 0),
            flies: flag(word, 1),
            is_alien: flag(word, 2),
            major: flag(word, 3),
            minor: flag(word, 4),
            cannot_skip: flag(word, 5),
            floats: flag(word, 6),
            cannot_attack: flag(word, 7),
            uses_sniper_ledges: flag(word, 8),
            is_invisible: flag(word, 9),
            is_subtly_invisible: flag(word, 10),
            kamikaze: flag(word, 11),
            berserker: flag(word, 12),
            enlarged: flag(word, 13),
            delayed_hard_death: flag(word, 14),
            fires_symmetrically: flag(word, 15),
            nuclear_hard_death: flag(word, 16),
            cannot_fire_backwards: flag(word, 17),
            can_die_in_flames: flag(word, 18),
            waits_with_clear_shot: flag(word, 19),
            tiny: flag(word, 20),
            attacks_immediately: flag(word, 21),
            not_afraid_of_water: flag(word, 22),
            not_afraid_of_sewage: flag(word, 23),
            not_afraid_of_lava: flag(word, 24),
            not_afraid_of_goo: flag(word, 25),
            can_teleport_under_media: flag(word, 26),
            chooses_weapons_randomly: flag(word, 27),
        }
    }

    /// Splits `word` into the flags.
    pub fn from_word(word: u32) -> (flags: MonsterFlags)
        ensures
            flags == Self::of_word(word),
    {
        let bits = decode_flags(word, 28);
        MonsterFlags {
            omniscient: bits[0],
            flies: bits[1],
            is_alien: bits[2],
            major: bits[3],
            minor: bits[4],
            cannot_skip: bits[5],
            floats: bits[6],
            cannot_attack: bits[7],
            uses_sniper_ledges: bits[8],
            is_invisible: bits[9],
            is_subtly_invisible: bits[10],
            kamikaze: bits[11],
            berserker: bits[12],
            enlarged: bits[13],
            delayed_hard_death: bits[14],
            fires_symmetrically: bits[15],
            nuclear_hard_death: bits[16],
            cannot_fire_backwards: bits[17],
            can_die_in_flames: bits[18],
            waits_with_clear_shot: bits[19],
            tiny: bits[20],
            attacks_immediately: bits[21],
            not_afraid_of_water: bits[22],
            not_afraid_of_sewage: bits[23],
            not_afraid_of_lava: bits[24],
            not_afraid_of_goo: bits[25],
            can_teleport_under_media: bits[26],
            chooses_weapons_randomly: bits[27],
        }
    }

    /// Reads a 32-bit word of flags.
    pub fn read(input: &mut ByteCursor) -> (r: Result<MonsterFlags, DecodeError>)
        ensures
            final(input)@ == old(input)@.after_read(4),
            r is Ok <==> old(input)@.has(4),
            r matches Ok(flags) ==> flags == Self::of_word(
                be32_at(old(input)@.source, old(input)@.position),
            ),
            r matches Err(e) ==> e == DecodeError::IoFailure,
    {
        let word = read32(input)?;
        Ok(Self::from_word(word))
    }
}

/// The flags of a damage definition.
#[derive(Clone, Copy, Debug, PartialEq, Eq)]
pub struct DamageDefinitionFlags {
    pub alien_damage: bool,
}

impl DamageDefinitionFlags {
    /// The flags that the bits of `word` stand for: bit 0 is the first flag.
    pub open spec fn of_word(word: u32) -> DamageDefinitionFlags {
        DamageDefinitionFlags {
            alien_damage: flag(word, 0),
        }
    }

    /// Splits `word` into the flags.
    pub fn from_word(word: u32) -> (flags: DamageDefinitionFlags)
        ensures
            flags == Self::of_word(word),
    {
        let bits = decode_flags(word, 1);
        DamageDefinitionFlags {
            alien_damage: bits[0],
        }
    }

    /// Reads a 16-bit word of flags.
    pub fn read(input: &mut ByteCursor) -> (r: Result<DamageDefinitionFlags, DecodeError>)
        ensures
            final(input)@ == old(input)@.after_read(2),
            r is Ok <==> old(input)@.has(2),
            r matches Ok(flags) ==> flags == Self::of_word(
                be16_at(old(input)@.source, old(input)@.position) as u32,
            ),
            r matches Err(e) ==> e == DecodeError::IoFailure,
    {
        let word = read16(input)?;
        Ok(Self::from_word(word as u32))
    }
}

/// The damage that something deals: its type, a base amount, a random spread
/// and a scale.
#[derive(Clone, Debug, PartialEq, Eq)]
pub struct DamageDefinition {
    pub damage_type: Option<Label>,
    pub flags: DamageDefinitionFlags,
    pub base: i16,
    pub random: i16,
    pub scale: Fixed16_16,
}

/// A [`DamageDefinition`] as a value.
pub struct DamageDefinitionView {
    pub damage_type: Option<LabelView>,
    pub flags: DamageDefinitionFlags,
    pub base: i16,
    pub random: i16,
    pub scale: Fixed16_16,
}

impl View for DamageDefinition {
    type V = DamageDefinitionView;

    open spec fn view(&self) -> DamageDefinitionView {
        DamageDefinitionView {
            damage_type: self.damage_type.deep_view(),
            flags: self.flags,
            base: self.base,
            random: self.random,
            scale: self.scale,
        }
    }
}

impl DeepView for DamageDefinition {
    type V = DamageDefinitionView;

    open spec fn deep_view(&self) -> DamageDefinitionView {
        self@
    }
}

impl DamageDefinition {
    /// The damage definition that the record at `at` holds.
    pub open spec fn record_at(bytes: Seq<u8>, at: int, names: &NameDbs) -> DamageDefinitionView {
        DamageDefinitionView {
            damage_type: optional_label(names.damage_type_names@, optional16_at(bytes, at)),
            flags: DamageDefinitionFlags::of_word(be16_at(bytes, at + 2) as u32),
            base: signed16_at(bytes, at + 4),
            random: signed16_at(bytes, at + 6),
            scale: fixed16_16_at(bytes, at + 8),
        }
    }

    /// Reads a damage definition.
    pub fn read(
        input: &mut ByteCursor,
        namedbs: &NameDbs,
    ) -> (r: Result<DamageDefinition, DecodeError>)
        ensures
            final(input)@ == old(input)@.after_read(12),
            r is Ok <==> old(input)@.has(12),
            r matches Ok(damage) ==> damage@ == Self::record_at(
                old(input)@.source,
                old(input)@.position,
                namedbs,
            ),
            r matches Err(e) ==> e == DecodeError::IoFailure,
    {
        let damage_type = namedbs.damage_type_names.identify_optional(read_optional_16(input)?);
        let flags = DamageDefinitionFlags::read(input)?;
        let base = read_signed_16(input)?;
        let random = read_signed_16(input)?;
        let scale = read_fx_16_16(input)?;
        Ok(
            DamageDefinition {
                damage_type,
                flags,
                base,
                random,
                scale,
            },
        )
    }
}

/// How a monster attacks: what it fires, how often, how precisely and from
/// where.
#[derive(Clone, Debug, PartialEq, Eq)]
pub struct AttackDefinition {
    pub projectile_type: Label,
    pub repetitions: Option<u16>,
    pub error: Angle,
    pub range: Fixed6_10,
    pub attack_sequence: Option<u16>,
    pub dx: Fixed6_10,
    pub dy: Fixed6_10,
    pub dz: Fixed6_10,
}

/// A [`AttackDefinition`] as a value.
pub struct AttackDefinitionView {
    pub projectile_type: LabelView,
    pub repetitions: Option<u16>,
    pub error: Angle,
    pub range: Fixed6_10,
    pub attack_sequence: Option<u16>,
    pub dx: Fixed6_10,
    pub dy: Fixed6_10,
    pub dz: Fixed6_10,
}

impl View for AttackDefinition {
    type V = AttackDefinitionView;

    open spec fn view(&self) -> AttackDefinitionView {
        AttackDefinitionView {
            projectile_type: self.projectile_type@,
            repetitions: self.repetitions,
            error: self.error,
            range: self.range,
            attack_sequence: self.attack_sequence,
            dx: self.dx,
            dy: self.dy,
            dz: self.dz,
        }
    }
}

impl DeepView for AttackDefinition {
    type V = AttackDefinitionView;

    open spec fn deep_view(&self) -> AttackDefinitionView {
        self@
    }
}

impl AttackDefinition {
    /// The attack that the record at `at` holds. Where the record names no
    /// projectile there is no attack, whatever its other fields hold.
    pub open spec fn record_at(
        bytes: Seq<u8>,
        at: int,
        names: &NameDbs,
    ) -> Option<AttackDefinitionView> {
        match optional16_at(bytes, at) {
            Some(projectile) => Some(
                AttackDefinitionView {
                    projectile_type: label_of(names.projectile_names@, projectile as int),
                    repetitions: optional16_at(bytes, at + 2),
                    error: angle_at(bytes, at + 4),
                    range: fixed6_10_at(bytes, at + 6),
                    attack_sequence: optional16_at(bytes, at + 8),
                    dx: fixed6_10_at(bytes, at + 10),
                    dy: fixed6_10_at(bytes, at + 12),
                    dz: fixed6_10_at(bytes, at + 14),
                },
            ),
            None => None,
        }
    }

    /// Reads an attack record. The whole record is consumed also where it holds
    /// no attack.
    pub fn read(
        input: &mut ByteCursor,
        namedbs: &NameDbs,
    ) -> (r: Result<Option<AttackDefinition>, DecodeError>)
        ensures
            final(input)@ == old(input)@.after_read(16),
            r is Ok <==> old(input)@.has(16),
            r matches Ok(attack) ==> attack.deep_view() == Self::record_at(
                old(input)@.source,
                old(input)@.position,
                namedbs,
            ),
            r matches Err(e) ==> e == DecodeError::IoFailure,
    {
        let projectile = read_optional_16(input)?;
        let repetitions = read_optional_16(input)?;
        let error = read_angle(input)?;
        let range = read_fx_6_10(input)?;
        let attack_sequence = read_optional_16(input)?;
        let dx = read_fx_6_10(input)?;
        let dy = read_fx_6_10(input)?;
        let dz = read_fx_6_10(input)?;
        match projectile {
            Some(projectile) => Ok(
                Some(
                    AttackDefinition {
                        projectile_type: namedbs.projectile_names.identify(projectile as usize),
                        repetitions,
                        error,
                        range,
                        attack_sequence,
                        dx,
                        dy,
                        dz,
                    },
                ),
            ),
            None => Ok(None),
        }
    }
}

/// A monster: how it looks and sounds, what it senses, how it moves, and how it
/// dies and attacks.
#[derive(Clone, Debug, PartialEq, Eq)]
pub struct MonsterDefinition {
    pub name: Label,
    pub collection: Option<Label>,
    pub clut: Option<u16>,
    pub vitality: Option<u16>,
    pub immunities: Vec<Label>,
    pub weaknesses: Vec<Label>,
    pub flags: MonsterFlags,
    pub class: Option<Label>,
    pub friends: Vec<Label>,
    pub enemies: Vec<Label>,
    pub sound_pitch: Fixed16_16,
    pub activation_sound: Option<Label>,
    pub friendly_activation_sound: Option<Label>,
    pub clear_sound: Option<Label>,
    pub kill_sound: Option<Label>,
    pub apology_sound: Option<Label>,
    pub friendly_fire_sound: Option<Label>,
    pub flaming_sound: Option<Label>,
    pub random_sound: Option<Label>,
    pub random_sound_mask: Option<u16>,
    pub carrying_item_type: Option<Label>,
    pub radius: Fixed6_10,
    pub height: Fixed6_10,
    pub preferred_hover_height: Fixed6_10,
    pub minimum_ledge_delta: Fixed6_10,
    pub maximum_ledge_delta: Fixed6_10,
    pub external_velocity_scale: Fixed16_16,
    pub impact_effect: Option<Label>,
    pub melee_impact_effect: Option<Label>,
    pub contrail_effect: Option<Label>,
    pub half_visual_arc: Angle,
    pub half_vertical_visual_arc: Angle,
    pub visual_range: Fixed6_10,
    pub dark_visual_range: Fixed6_10,
    pub intelligence: Option<u16>,
    pub speed: Fixed6_10,
    pub gravity: Fixed6_10,
    pub terminal_velocity: Fixed6_10,
    pub door_retry_mask: Option<u16>,
    pub shrapnel_radius: Option<Fixed6_10>,
    pub shrapnel_damage: DamageDefinition,
    pub hit_sequence: Option<u16>,
    pub hard_dying_sequence: Option<u16>,
    pub soft_dying_sequence: Option<u16>,
    pub hard_dead_sequence: Option<u16>,
    pub soft_dead_sequence: Option<u16>,
    pub stationary_sequence: Option<u16>,
    pub moving_sequence: Option<u16>,
    pub teleport_in_sequence: Option<u16>,
    pub teleport_out_sequence: Option<u16>,
    pub attack_frequency: Option<u16>,
    pub melee_attack: Option<AttackDefinition>,
    pub ranged_attack: Option<AttackDefinition>,
}

/// A [`MonsterDefinition`] as a value.
pub struct MonsterDefinitionView {
    pub name: LabelView,
    pub collection: Option<LabelView>,
    pub clut: Option<u16>,
    pub vitality: Option<u16>,
    pub immunities: Seq<LabelView>,
    pub weaknesses: Seq<LabelView>,
    pub flags: MonsterFlags,
    pub class: Option<LabelView>,
    pub friends: Seq<LabelView>,
    pub enemies: Seq<LabelView>,
    pub sound_pitch: Fixed16_16,
    pub activation_sound: Option<LabelView>,
    pub friendly_activation_sound: Option<LabelView>,
    pub clear_sound: Option<LabelView>,
    pub kill_sound: Option<LabelView>,
    pub apology_sound: Option<LabelView>,
    pub friendly_fire_sound: Option<LabelView>,
    pub flaming_sound: Option<LabelView>,
    pub random_sound: Option<LabelView>,
    pub random_sound_mask: Option<u16>,
    pub carrying_item_type: Option<LabelView>,
    pub radius: Fixed6_10,
    pub height: Fixed6_10,
    pub preferred_hover_height: Fixed6_10,
    pub minimum_ledge_delta: Fixed6_10,
    pub maximum_ledge_delta: Fixed6_10,
    pub external_velocity_scale: Fixed16_16,
    pub impact_effect: Option<LabelView>,
    pub melee_impact_effect: Option<LabelView>,
    pub contrail_effect: Option<LabelView>,
    pub half_visual_arc: Angle,
    pub half_vertical_visual_arc: Angle,
    pub visual_range: Fixed6_10,
    pub dark_visual_range: Fixed6_10,
    pub intelligence: Option<u16>,
    pub speed: Fixed6_10,
    pub gravity: Fixed6_10,
    pub terminal_velocity: Fixed6_10,
    pub door_retry_mask: Option<u16>,
    pub shrapnel_radius: Option<Fixed6_10>,
    pub shrapnel_damage: DamageDefinitionView,
    pub hit_sequence: Option<u16>,
    pub hard_dying_sequence: Option<u16>,
    pub soft_dying_sequence: Option<u16>,
    pub hard_dead_sequence: Option<u16>,
    pub soft_dead_sequence: Option<u16>,
    pub stationary_sequence: Option<u16>,
    pub moving_sequence: Option<u16>,
    pub teleport_in_sequence: Option<u16>,
    pub teleport_out_sequence: Option<u16>,
    pub attack_frequency: Option<u16>,
    pub melee_attack: Option<AttackDefinitionView>,
    pub ranged_attack: Option<AttackDefinitionView>,
}

impl View for MonsterDefinition {
    type V = MonsterDefinitionView;

    open spec fn view(&self) -> MonsterDefinitionView {
        MonsterDefinitionView {
            name: self.name@,
            collection: self.collection.deep_view(),
            clut: self.clut,
            vitality: self.vitality,
            immunities: self.immunities.deep_view(),
            weaknesses: self.weaknesses.deep_view(),
            flags: self.flags,
            class: self.class.deep_view(),
            friends: self.friends.deep_view(),
            enemies: self.enemies.deep_view(),
            sound_pitch: self.sound_pitch,
            activation_sound: self.activation_sound.deep_view(),
            friendly_activation_sound: self.friendly_activation_sound.deep_view(),
            clear_sound: self.clear_sound.deep_view(),
            kill_sound: self.kill_sound.deep_view(),
            apology_sound: self.apology_sound.deep_view(),
            friendly_fire_sound: self.friendly_fire_sound.deep_view(),
            flaming_sound: self.flaming_sound.deep_view(),
            random_sound: self.random_sound.deep_view(),
            random_sound_mask: self.random_sound_mask,
            carrying_item_type: self.carrying_item_type.deep_view(),
            radius: self.radius,
            height: self.height,
            preferred_hover_height: self.preferred_hover_height,
            minimum_ledge_delta: self.minimum_ledge_delta,
            maximum_ledge_delta: self.maximum_ledge_delta,
            external_velocity_scale: self.external_velocity_scale,
            impact_effect: self.impact_effect.deep_view(),
            melee_impact_effect: self.melee_impact_effect.deep_view(),
            contrail_effect: self.contrail_effect.deep_view(),
            half_visual_arc: self.half_visual_arc,
            half_vertical_visual_arc: self.half_vertical_visual_arc,
            visual_range: self.visual_range,
            dark_visual_range: self.dark_visual_range,
            intelligence: self.intelligence,
            speed: self.speed,
            gravity: self.gravity,
            terminal_velocity: self.terminal_velocity,
            door_retry_mask: self.door_retry_mask,
            shrapnel_radius: self.shrapnel_radius,
            shrapnel_damage: self.shrapnel_damage@,
            hit_sequence: self.hit_sequence,
            hard_dying_sequence: self.hard_dying_sequence,
            soft_dying_sequence: self.soft_dying_sequence,
            hard_dead_sequence: self.hard_dead_sequence,
            soft_dead_sequence: self.soft_dead_sequence,
            stationary_sequence: self.stationary_sequence,
            moving_sequence: self.moving_sequence,
            teleport_in_sequence: self.teleport_in_sequence,
            teleport_out_sequence: self.teleport_out_sequence,
            attack_frequency: self.attack_frequency,
            melee_attack: self.melee_attack.deep_view(),
            ranged_attack: self.ranged_attack.deep_view(),
        }
    }
}

impl DeepView for MonsterDefinition {
    type V = MonsterDefinitionView;

    open spec fn deep_view(&self) -> MonsterDefinitionView {
        self@
    }
}

impl MonsterDefinition {
    /// The monster that the record at `at` holds, as monster number `index`.
    pub open spec fn record_at(
        bytes: Seq<u8>,
        at: int,
        index: int,
        names: &NameDbs,
    ) -> MonsterDefinitionView {
        MonsterDefinitionView {
            name: label_of(names.monster_names@, index),
            collection: optional_label(
                names.collection_names@,
                shape_collection(optional16_at(bytes, at)),
            ),
            clut: shape_clut(optional16_at(bytes, at)),
            vitality: optional16_at(bytes, at + 2),
            immunities: labels_of(names.damage_type_names@, set_bits_at(bytes, at + 4)),
            weaknesses: labels_of(names.damage_type_names@, set_bits_at(bytes, at + 8)),
            flags: MonsterFlags::of_word(be32_at(bytes, at + 12)),
            class: optional_label_32(names.monster_class_names@, optional32_at(bytes, at + 16)),
            friends: labels_of(names.monster_class_names@, set_bits_at(bytes, at + 20)),
            enemies: labels_of(names.monster_class_names@, set_bits_at(bytes, at + 24)),
            sound_pitch: fixed16_16_at(bytes, at + 28),
            activation_sound: optional_label(names.sound_names@, optional16_at(bytes, at + 32)),
            friendly_activation_sound: optional_label(
                names.sound_names@,
                optional16_at(bytes, at + 34),
            ),
            clear_sound: optional_label(names.sound_names@, optional16_at(bytes, at + 36)),
            kill_sound: optional_label(names.sound_names@, optional16_at(bytes, at + 38)),
            apology_sound: optional_label(names.sound_names@, optional16_at(bytes, at + 40)),
            friendly_fire_sound: optional_label(names.sound_names@, optional16_at(bytes, at + 42)),
            flaming_sound: optional_label(names.sound_names@, optional16_at(bytes, at + 44)),
            random_sound: optional_label(names.sound_names@, optional16_at(bytes, at + 46)),
            random_sound_mask: optional16_at(bytes, at + 48),
            carrying_item_type: optional_label(names.item_names@, optional16_at(bytes, at + 50)),
            radius: fixed6_10_at(bytes, at + 52),
            height: fixed6_10_at(bytes, at + 54),
            preferred_hover_height: fixed6_10_at(bytes, at + 56),
            minimum_ledge_delta: fixed6_10_at(bytes, at + 58),
            maximum_ledge_delta: fixed6_10_at(bytes, at + 60),
            external_velocity_scale: fixed16_16_at(bytes, at + 62),
            impact_effect: optional_label(names.effect_names@, optional16_at(bytes, at + 66)),
            melee_impact_effect: optional_label(names.effect_names@, optional16_at(bytes, at + 68)),
            contrail_effect: optional_label(names.effect_names@, optional16_at(bytes, at + 70)),
            half_visual_arc: angle_at(bytes, at + 72),
            half_vertical_visual_arc: angle_at(bytes, at + 74),
            visual_range: fixed6_10_at(bytes, at + 76),
            dark_visual_range: fixed6_10_at(bytes, at + 78),
            intelligence: optional16_at(bytes, at + 80),
            speed: fixed6_10_at(bytes, at + 82),
            gravity: fixed6_10_at(bytes, at + 84),
            terminal_velocity: fixed6_10_at(bytes, at + 86),
            door_retry_mask: optional16_at(bytes, at + 88),
            shrapnel_radius: optional_fixed6_10_at(bytes, at + 90),
            shrapnel_damage: DamageDefinition::record_at(bytes, at + 92, names),
            hit_sequence: optional16_at(bytes, at + 104),
            hard_dying_sequence: optional16_at(bytes, at + 106),
            soft_dying_sequence: optional16_at(bytes, at + 108),
            hard_dead_sequence: optional16_at(bytes, at + 110),
            soft_dead_sequence: optional16_at(bytes, at + 112),
            stationary_sequence: optional16_at(bytes, at + 114),
            moving_sequence: optional16_at(bytes, at + 116),
            teleport_in_sequence: optional16_at(bytes, at + 118),
            teleport_out_sequence: optional16_at(bytes, at + 120),
            attack_frequency: optional16_at(bytes, at + 122),
            melee_attack: AttackDefinition::record_at(bytes, at + 124, names),
            ranged_attack: AttackDefinition::record_at(bytes, at + 140, names),
        }
    }

    /// Reads a monster record as monster number `index`.
    #[verifier::rlimit(30)]
    pub fn read(
        input: &mut ByteCursor,
        namedbs: &NameDbs,
        index: usize,
    ) -> (r: Result<MonsterDefinition, DecodeError>)
        ensures
            final(input)@ == old(input)@.after_read(SIZE_OF_MONSTER_DEFINITION as int),
            r is Ok <==> old(input)@.has(SIZE_OF_MONSTER_DEFINITION as int),
            r matches Ok(monster) ==> monster@ == Self::record_at(
                old(input)@.source,
                old(input)@.position,
                index as int,
                namedbs,
            ),
            r matches Err(e) ==> e == DecodeError::IoFailure,
    {
        let name = namedbs.monster_names.identify(index);
        let shape = read_optional_16(input)?;
        let collection = namedbs.collection_names.identify_optional(collection_of(shape));
        let clut = clut_of(shape);
        let vitality = read_optional_16(input)?;
        let immunities = namedbs.damage_type_names.identify_all(&read_generic_bitfield32(input)?);
        let weaknesses = namedbs.damage_type_names.identify_all(&read_generic_bitfield32(input)?);
        assert(input@.position == old(input)@.position + 12);
        let flags = MonsterFlags::read(input)?;
        let class = namedbs.monster_class_names.identify_optional_32(read_optional_32(input)?);
        let friends = namedbs.monster_class_names.identify_all(&read_generic_bitfield32(input)?);
        let enemies = namedbs.monster_class_names.identify_all(&read_generic_bitfield32(input)?);
        assert(input@.position == old(input)@.position + 28);
        let sound_pitch = read_fx_16_16(input)?;
        let activation_sound = namedbs.sound_names.identify_optional(read_optional_16(input)?);
        let friendly_activation_sound = namedbs.sound_names.identify_optional(
            read_optional_16(input)?,
        );
        let clear_sound = namedbs.sound_names.identify_optional(read_optional_16(input)?);
        assert(input@.position == old(input)@.position + 38);
        let kill_sound = namedbs.sound_names.identify_optional(read_optional_16(input)?);
        let apology_sound = namedbs.sound_names.identify_optional(read_optional_16(input)?);
        let friendly_fire_sound = namedbs.sound_names.identify_optional(read_optional_16(input)?);
        let flaming_sound = namedbs.sound_names.identify_optional(read_optional_16(input)?);
        assert(input@.position == old(input)@.position + 46);
        let random_sound = namedbs.sound_names.identify_optional(read_optional_16(input)?);
        let random_sound_mask = read_optional_16(input)?;
        let carrying_item_type = namedbs.item_names.identify_optional(read_optional_16(input)?);
        let radius = read_fx_6_10(input)?;
        assert(input@.position == old(input)@.position + 54);
        let height = read_fx_6_10(input)?;
        let preferred_hover_height = read_fx_6_10(input)?;
        let minimum_ledge_delta = read_fx_6_10(input)?;
        let maximum_ledge_delta = read_fx_6_10(input)?;
        assert(input@.position == old(input)@.position + 62);
        let external_velocity_scale = read_fx_16_16(input)?;
        let impact_effect = namedbs.effect_names.identify_optional(read_optional_16(input)?);
        let melee_impact_effect = namedbs.effect_names.identify_optional(read_optional_16(input)?);
        let contrail_effect = namedbs.effect_names.identify_optional(read_optional_16(input)?);
        assert(input@.position == old(input)@.position + 72);
        let half_visual_arc = read_angle(input)?;
        let half_vertical_visual_arc = read_angle(input)?;
        let visual_range = read_fx_6_10(input)?;
        let dark_visual_range = read_fx_6_10(input)?;
        assert(input@.position == old(input)@.position + 80);
        let intelligence = read_optional_16(input)?;
        let speed = read_fx_6_10(input)?;
        let gravity = read_fx_6_10(input)?;
        let terminal_velocity = read_fx_6_10(input)?;
        assert(input@.position == old(input)@.position + 88);
        let door_retry_mask = read_optional_16(input)?;
        let shrapnel_radius = read_optional_fx_6_10(input)?;
        let shrapnel_damage = DamageDefinition::read(input, namedbs)?;
        let hit_sequence = read_optional_16(input)?;
        assert(input@.position == old(input)@.position + 106);
        let hard_dying_sequence = read_optional_16(input)?;
        let soft_dying_sequence = read_optional_16(input)?;
        let hard_dead_sequence = read_optional_16(input)?;
        let soft_dead_sequence = read_optional_16(input)?;
        assert(input@.position == old(input)@.position + 114);
        let stationary_sequence = read_optional_16(input)?;
        let moving_sequence = read_optional_16(input)?;
        let teleport_in_sequence = read_optional_16(input)?;
        let teleport_out_sequence = read_optional_16(input)?;
        assert(input@.position == old(input)@.position + 122);
        let attack_frequency = read_optional_16(input)?;
        let melee_attack = AttackDefinition::read(input, namedbs)?;
        let ranged_attack = AttackDefinition::read(input, namedbs)?;
        Ok(
            MonsterDefinition {
                name,
                collection,
                clut,
                vitality,
                immunities,
                weaknesses,
                flags,
                class,
                friends,
                enemies,
                sound_pitch,
                activation_sound,
                friendly_activation_sound,
                clear_sound,
                kill_sound,
                apology_sound,
                friendly_fire_sound,
                flaming_sound,
                random_sound,
                random_sound_mask,
                carrying_item_type,
                radius,
                height,
                preferred_hover_height,
                minimum_ledge_delta,
                maximum_ledge_delta,
                external_velocity_scale,
                impact_effect,
                melee_impact_effect,
                contrail_effect,
                half_visual_arc,
                half_vertical_visual_arc,
                visual_range,
                dark_visual_range,
                intelligence,
                speed,
                gravity,
                terminal_velocity,
                door_retry_mask,
                shrapnel_radius,
                shrapnel_damage,
                hit_sequence,
                hard_dying_sequence,
                soft_dying_sequence,
                hard_dead_sequence,
                soft_dead_sequence,
                stationary_sequence,
                moving_sequence,
                teleport_in_sequence,
                teleport_out_sequence,
                attack_frequency,
                melee_attack,
                ranged_attack,
            },
        )
    }

    /// The records of a monster chunk: record `i` is the one at `i` times the
    /// size of a record, and takes the label of index `i`. A payload that is
    /// not a whole number of records holds none.
    pub open spec fn definitions(
        payload: Seq<u8>,
        names: &NameDbs,
    ) -> Result<Seq<MonsterDefinitionView>, DecodeError> {
        if payload.len() % (SIZE_OF_MONSTER_DEFINITION as nat) != 0 {
            Err(
                DecodeError::RecordSizeMismatch(
                    EntityKind::Monster,
                    payload.len() as usize,
                    SIZE_OF_MONSTER_DEFINITION,
                ),
            )
        } else {
            Ok(
                Seq::new(
                    payload.len() / (SIZE_OF_MONSTER_DEFINITION as nat),
                    |i: int| Self::record_at(payload, i * SIZE_OF_MONSTER_DEFINITION, i, names),
                ),
            )
        }
    }

    /// Splits the payload of a monster chunk into records and decodes each.
    pub fn read_definitions(
        input: &[u8],
        namedbs: &NameDbs,
    ) -> (r: Result<Vec<MonsterDefinition>, DecodeError>)
        ensures
            agrees(r, Self::definitions(input@, namedbs)),
            r is Ok <==> input@.len() % (SIZE_OF_MONSTER_DEFINITION as nat) == 0,
            r matches Ok(records) ==> records@.len() == input@.len() / (
                SIZE_OF_MONSTER_DEFINITION as nat
            ),
    {
        if input.len() % SIZE_OF_MONSTER_DEFINITION != 0 {
            return Err(
                DecodeError::RecordSizeMismatch(
                    EntityKind::Monster,
                    input.len(),
                    SIZE_OF_MONSTER_DEFINITION,
                ),
            );
        }
        let count: usize = input.len() / SIZE_OF_MONSTER_DEFINITION;
        let mut cursor = ByteCursor::new(input);
        let mut records: Vec<MonsterDefinition> = Vec::new();
        let mut i: usize = 0;
        while i < count
            invariant
                i <= count,
                count * SIZE_OF_MONSTER_DEFINITION == input@.len(),
                cursor@.source == input@,
                cursor@.position == i * SIZE_OF_MONSTER_DEFINITION,
                records@.len() == i,
                forall|k: int|
                    0 <= k < i ==> (#[trigger] records@[k])@ == Self::record_at(
                        input@,
                        k * SIZE_OF_MONSTER_DEFINITION,
                        k,
                        namedbs,
                    ),
            decreases count - i,
        {
            let record = Self::read(&mut cursor, namedbs, i)?;
            records.push(record);
            i = i + 1;
        }
        assert(records.deep_view() =~= Self::definitions(input@, namedbs)->Ok_0);
        Ok(records)
    }
}

/// The flags of an effect.
#[derive(Clone, Copy, Debug, PartialEq, Eq)]
pub struct EffectFlags {
    pub end_when_animation_loops: bool,
    pub end_when_transfer_animation_loops: bool,
    pub sound_only: bool,
    pub make_twin_visible: bool,
    pub media_effect: bool,
}

impl EffectFlags {
    /// The flags that the bits of `word` stand for: bit 0 is the first flag.
    pub open spec fn of_word(word: u32) -> EffectFlags {
        EffectFlags {
            end_when_animation_loops: flag(word, 0),
            end_when_transfer_animation_loops: flag(word, 1),
            sound_only: flag(word, 2),
            make_twin_visible: flag(word, 3),
            media_effect: flag(word, 4),
        }
    }

    /// Splits `word` into the flags.
    pub fn from_word(word: u32) -> (flags: EffectFlags)
        ensures
            flags == Self::of_word(word),
    {
        let bits = decode_flags(word, 5);
        EffectFlags {
            end_when_animation_loops: bits[0],
            end_when_transfer_animation_loops: bits[1],
            sound_only: bits[2],
            make_twin_visible: bits[3],
            media_effect: bits[4],
        }
    }
}

/// An effect: something that is shown or heard for a moment.
#[derive(Clone, Debug, PartialEq, Eq)]
pub struct EffectDefinition {
    pub name: Label,
    pub collection: Option<Label>,
    pub clut: Option<u16>,
    pub sequence: Option<u16>,
    pub sound_pitch: Fixed16_16,
    pub flags: EffectFlags,
    pub delay: Option<u16>,
    pub delay_sound: Option<Label>,
}

/// A [`EffectDefinition`] as a value.
pub struct EffectDefinitionView {
    pub name: LabelView,
    pub collection: Option<LabelView>,
    pub clut: Option<u16>,
    pub sequence: Option<u16>,
    pub sound_pitch: Fixed16_16,
    pub flags: EffectFlags,
    pub delay: Option<u16>,
    pub delay_sound: Option<LabelView>,
}

impl View for EffectDefinition {
    type V = EffectDefinitionView;

    open spec fn view(&self) -> EffectDefinitionView {
        EffectDefinitionView {
            name: self.name@,
            collection: self.collection.deep_view(),
            clut: self.clut,
            sequence: self.sequence,
            sound_pitch: self.sound_pitch,
            flags: self.flags,
            delay: self.delay,
            delay_sound: self.delay_sound.deep_view(),
        }
    }
}

impl DeepView for EffectDefinition {
    type V = EffectDefinitionView;

    open spec fn deep_view(&self) -> EffectDefinitionView {
        self@
    }
}

impl EffectDefinition {
    /// The effect that the record at `at` holds, as effect number `index`.
    pub open spec fn record_at(
        bytes: Seq<u8>,
        at: int,
        index: int,
        names: &NameDbs,
    ) -> EffectDefinitionView {
        EffectDefinitionView {
            name: label_of(names.effect_names@, index),
            collection: optional_label(
                names.collection_names@,
                shape_collection(optional16_at(bytes, at)),
            ),
            clut: shape_clut(optional16_at(bytes, at)),
            sequence: optional16_at(bytes, at + 2),
            sound_pitch: fixed16_16_at(bytes, at + 4),
            flags: EffectFlags::of_word(be16_at(bytes, at + 8) as u32),
            delay: optional16_at(bytes, at + 10),
            delay_sound: optional_label(names.sound_names@, optional16_at(bytes, at + 12)),
        }
    }

    /// Reads an effect record as effect number `index`.
    pub fn read(
        input: &mut ByteCursor,
        namedbs: &NameDbs,
        index: usize,
    ) -> (r: Result<EffectDefinition, DecodeError>)
        ensures
            final(input)@ == old(input)@.after_read(SIZE_OF_EFFECT_DEFINITION as int),
            r is Ok <==> old(input)@.has(SIZE_OF_EFFECT_DEFINITION as int),
            r matches Ok(effect) ==> effect@ == Self::record_at(
                old(input)@.source,
                old(input)@.position,
                index as int,
                namedbs,
            ),
            r matches Err(e) ==> e == DecodeError::IoFailure,
    {
        let name = namedbs.effect_names.identify(index);
        let shape = read_optional_16(input)?;
        let collection = namedbs.collection_names.identify_optional(collection_of(shape));
        let clut = clut_of(shape);
        let sequence = read_optional_16(input)?;
        let sound_pitch = read_fx_16_16(input)?;
        let flags = EffectFlags::from_word(read16(input)? as u32);
        let delay = read_optional_16(input)?;
        let delay_sound = namedbs.sound_names.identify_optional(read_optional_16(input)?);
        Ok(
            EffectDefinition {
                name,
                collection,
                clut,
                sequence,
                sound_pitch,
                flags,
                delay,
                delay_sound,
            },
        )
    }

    /// The records of a effect chunk: record `i` is the one at `i` times the
    /// size of a record, and takes the label of index `i`. A payload that is
    /// not a whole number of records holds none.
    pub open spec fn definitions(
        payload: Seq<u8>,
        names: &NameDbs,
    ) -> Result<Seq<EffectDefinitionView>, DecodeError> {
        if payload.len() % (SIZE_OF_EFFECT_DEFINITION as nat) != 0 {
            Err(
                DecodeError::RecordSizeMismatch(
                    EntityKind::Effect,
                    payload.len() as usize,
                    SIZE_OF_EFFECT_DEFINITION,
                ),
            )
        } else {
            Ok(
                Seq::new(
                    payload.len() / (SIZE_OF_EFFECT_DEFINITION as nat),
                    |i: int| Self::record_at(payload, i * SIZE_OF_EFFECT_DEFINITION, i, names),
                ),
            )
        }
    }

    /// Splits the payload of a effect chunk into records and decodes each.
    pub fn read_definitions(
        input: &[u8],
        namedbs: &NameDbs,
    ) -> (r: Result<Vec<EffectDefinition>, DecodeError>)
        ensures
            agrees(r, Self::definitions(input@, namedbs)),
            r is Ok <==> input@.len() % (SIZE_OF_EFFECT_DEFINITION as nat) == 0,
            r matches Ok(records) ==> records@.len() == input@.len() / (
                SIZE_OF_EFFECT_DEFINITION as nat
            ),
    {
        if input.len() % SIZE_OF_EFFECT_DEFINITION != 0 {
            return Err(
                DecodeError::RecordSizeMismatch(
                    EntityKind::Effect,
                    input.len(),
                    SIZE_OF_EFFECT_DEFINITION,
                ),
            );
        }
        let count: usize = input.len() / SIZE_OF_EFFECT_DEFINITION;
        let mut cursor = ByteCursor::new(input);
        let mut records: Vec<EffectDefinition> = Vec::new();
        let mut i: usize = 0;
        while i < count
            invariant
                i <= count,
                count * SIZE_OF_EFFECT_DEFINITION == input@.len(),
                cursor@.source == input@,
                cursor@.position == i * SIZE_OF_EFFECT_DEFINITION,
                records@.len() == i,
                forall|k: int|
                    0 <= k < i ==> (#[trigger] records@[k])@ == Self::record_at(
                        input@,
                        k * SIZE_OF_EFFECT_DEFINITION,
                        k,
                        namedbs,
                    ),
            decreases count - i,
        {
            let record = Self::read(&mut cursor, namedbs, i)?;
            records.push(record);
            i = i + 1;
        }
        assert(records.deep_view() =~= Self::definitions(input@, namedbs)->Ok_0);
        Ok(records)
    }
}

/// The flags of a projectile.
#[derive(Clone, Copy, Debug, PartialEq, Eq)]
pub struct ProjectileFlags {
    pub guided: bool,
    pub stop_when_animation_loops: bool,
    pub persistent: bool,
    pub alien: bool,
    pub affected_by_gravity: bool,
    pub no_horizontal_error: bool,
    pub no_vertical_error: bool,
    pub can_toggle_control_panels: bool,
    pub positive_vertical_error: bool,
    pub melee: bool,
    pub persistent_and_virulent: bool,
    pub usually_pass_transparent_side: bool,
    pub sometimes_pass_transparent_side: bool,
    pub doubly_affected_by_gravity: bool,
    pub rebounds_from_floor: bool,
    pub penetrates_media: bool,
    pub becomes_item_on_detonation: bool,
    pub bleeding_projectile: bool,
    pub horizontal_wander: bool,
    pub vertical_wander: bool,
    pub affected_by_half_gravity: bool,
    pub penetrates_media_boundary: bool,
    pub passes_through_objects: bool,
}

impl ProjectileFlags {
    /// The flags that the bits of `word` stand for: bit 0 is the first flag.
    pub open spec fn of_word(word: u32) -> ProjectileFlags {
        ProjectileFlags {
            guided: flag(word, 0),
            stop_when_animation_loops: flag(word, 1),
            persistent: flag(word, 2),
            alien: flag(word, 3),
            affected_by_gravity: flag(word, 4),
            no_horizontal_error: flag(word, 5),
            no_vertical_error: flag(word, 6),
            can_toggle_control_panels: flag(word, 7),
            positive_vertical_error: flag(word, 8),
            melee: flag(word, 9),
            persistent_and_virulent: flag(word, 10),
            usually_pass_transparent_side: flag(word, 11),
            sometimes_pass_transparent_side: flag(word, 12),
            doubly_affected_by_gravity: flag(word, 13),
            rebounds_from_floor: flag(word, 14),
            penetrates_media: flag(word, 15),
            becomes_item_on_detonation: flag(word, 16),
            bleeding_projectile: flag(word, 17),
            horizontal_wander: flag(word, 18),
            vertical_wander: flag(word, 19),
            affected_by_half_gravity: flag(word, 20),
            penetrates_media_boundary: flag(word, 21),
            passes_through_objects: flag(word, 22),
        }
    }

    /// Splits `word` into the flags.
    pub fn from_word(word: u32) -> (flags: ProjectileFlags)
        ensures
            flags == Self::of_word(word),
    {
        let bits = decode_flags(word, 23);
        ProjectileFlags {
            guided: bits[0],
            stop_when_animation_loops: bits[1],
            persistent: bits[2],
            alien: bits[3],
            affected_by_gravity: bits[4],
            no_horizontal_error: bits[5],
            no_vertical_error: bits[6],
            can_toggle_control_panels: bits[7],
            positive_vertical_error: bits[8],
            melee: bits[9],
            persistent_and_virulent: bits[10],
            usually_pass_transparent_side: bits[11],
            sometimes_pass_transparent_side: bits[12],
            doubly_affected_by_gravity: bits[13],
            rebounds_from_floor: bits[14],
            penetrates_media: bits[15],
            becomes_item_on_detonation: bits[16],
            bleeding_projectile: bits[17],
            horizontal_wander: bits[18],
            vertical_wander: bits[19],
            affected_by_half_gravity: bits[20],
            penetrates_media_boundary: bits[21],
            passes_through_objects: bits[22],
        }
    }
}

/// A projectile: how it looks and flies, and what it does where it ends.
#[derive(Clone, Debug, PartialEq, Eq)]
pub struct ProjectileDefinition {
    pub name: Label,
    pub collection: Option<Label>,
    pub clut: Option<u16>,
    pub sequence: Option<u16>,
    pub detonation_effect: Option<Label>,
    pub media_detonation_effect: Option<Label>,
    pub contrail_effect: Option<Label>,
    pub ticks_between_contrails: Option<Label>,
    pub maximum_contrails: Option<Label>,
    pub media_projectile_promotion: Option<Label>,
    pub radius: Fixed6_10,
    pub area_of_effect: Fixed6_10,
    pub damage: DamageDefinition,
    pub flags: ProjectileFlags,
    pub speed: Fixed6_10,
    pub maximum_range: Fixed6_10,
    pub sound_pitch: Fixed16_16,
    pub flyby_sound: Option<Label>,
    pub rebound_sound: Option<Label>,
}

/// A [`ProjectileDefinition`] as a value.
pub struct ProjectileDefinitionView {
    pub name: LabelView,
    pub collection: Option<LabelView>,
    pub clut: Option<u16>,
    pub sequence: Option<u16>,
    pub detonation_effect: Option<LabelView>,
    pub media_detonation_effect: Option<LabelView>,
    pub contrail_effect: Option<LabelView>,
    pub ticks_between_contrails: Option<LabelView>,
    pub maximum_contrails: Option<LabelView>,
    pub media_projectile_promotion: Option<LabelView>,
    pub radius: Fixed6_10,
    pub area_of_effect: Fixed6_10,
    pub damage: DamageDefinitionView,
    pub flags: ProjectileFlags,
    pub speed: Fixed6_10,
    pub maximum_range: Fixed6_10,
    pub sound_pitch: Fixed16_16,
    pub flyby_sound: Option<LabelView>,
    pub rebound_sound: Option<LabelView>,
}

impl View for ProjectileDefinition {
    type V = ProjectileDefinitionView;

    open spec fn view(&self) -> ProjectileDefinitionView {
        ProjectileDefinitionView {
            name: self.name@,
            collection: self.collection.deep_view(),
            clut: self.clut,
            sequence: self.sequence,
            detonation_effect: self.detonation_effect.deep_view(),
            media_detonation_effect: self.media_detonation_effect.deep_view(),
            contrail_effect: self.contrail_effect.deep_view(),
            ticks_between_contrails: self.ticks_between_contrails.deep_view(),
            maximum_contrails: self.maximum_contrails.deep_view(),
            media_projectile_promotion: self.media_projectile_promotion.deep_view(),
            radius: self.radius,
            area_of_effect: self.area_of_effect,
            damage: self.damage@,
            flags: self.flags,
            speed: self.speed,
            maximum_range: self.maximum_range,
            sound_pitch: self.sound_pitch,
            flyby_sound: self.flyby_sound.deep_view(),
            rebound_sound: self.rebound_sound.deep_view(),
        }
    }
}

impl DeepView for ProjectileDefinition {
    type V = ProjectileDefinitionView;

    open spec fn deep_view(&self) -> ProjectileDefinitionView {
        self@
    }
}

impl ProjectileDefinition {
    /// The projectile that the record at `at` holds, as projectile number
    /// `index`.
    pub open spec fn record_at(
        bytes: Seq<u8>,
        at: int,
        index: int,
        names: &NameDbs,
    ) -> ProjectileDefinitionView {
        ProjectileDefinitionView {
            name: label_of(names.projectile_names@, index),
            collection: optional_label(
                names.collection_names@,
                shape_collection(optional16_at(bytes, at)),
            ),
            clut: shape_clut(optional16_at(bytes, at)),
            sequence: optional16_at(bytes, at + 2),
            detonation_effect: optional_label(names.effect_names@, optional16_at(bytes, at + 4)),
            media_detonation_effect: optional_label(
                names.effect_names@,
                optional16_at(bytes, at + 6),
            ),
            contrail_effect: optional_label(names.effect_names@, optional16_at(bytes, at + 8)),
            ticks_between_contrails: optional_label(
                names.effect_names@,
                optional16_at(bytes, at + 10),
            ),
            maximum_contrails: optional_label(names.effect_names@, optional16_at(bytes, at + 12)),
            media_projectile_promotion: optional_label(
                names.projectile_names@,
                optional16_at(bytes, at + 14),
            ),
            radius: fixed6_10_at(bytes, at + 16),
            area_of_effect: fixed6_10_at(bytes, at + 18),
            damage: DamageDefinition::record_at(bytes, at + 20, names),
            flags: ProjectileFlags::of_word(be32_at(bytes, at + 32)),
            speed: fixed6_10_at(bytes, at + 36),
            maximum_range: fixed6_10_at(bytes, at + 38),
            sound_pitch: fixed16_16_at(bytes, at + 40),
            flyby_sound: optional_label(names.sound_names@, optional16_at(bytes, at + 44)),
            rebound_sound: optional_label(names.sound_names@, optional16_at(bytes, at + 46)),
        }
    }

    /// Reads a projectile record as projectile number `index`.
    pub fn read(
        input: &mut ByteCursor,
        namedbs: &NameDbs,
        index: usize,
    ) -> (r: Result<ProjectileDefinition, DecodeError>)
        ensures
            final(input)@ == old(input)@.after_read(SIZE_OF_PROJECTILE_DEFINITION as int),
            r is Ok <==> old(input)@.has(SIZE_OF_PROJECTILE_DEFINITION as int),
            r matches Ok(projectile) ==> projectile@ == Self::record_at(
                old(input)@.source,
                old(input)@.position,
                index as int,
                namedbs,
            ),
            r matches Err(e) ==> e == DecodeError::IoFailure,
    {
        let name = namedbs.projectile_names.identify(index);
        let shape = read_optional_16(input)?;
        let collection = namedbs.collection_names.identify_optional(collection_of(shape));
        let clut = clut_of(shape);
        let sequence = read_optional_16(input)?;
        let detonation_effect = namedbs.effect_names.identify_optional(read_optional_16(input)?);
        let media_detonation_effect = namedbs.effect_names.identify_optional(
            read_optional_16(input)?,
        );
        assert(input@.position == old(input)@.position + 8);
        let contrail_effect = namedbs.effect_names.identify_optional(read_optional_16(input)?);
        let ticks_between_contrails = namedbs.effect_names.identify_optional(
            read_optional_16(input)?,
        );
        let maximum_contrails = namedbs.effect_names.identify_optional(read_optional_16(input)?);
        let media_projectile_promotion = namedbs.projectile_names.identify_optional(
            read_optional_16(input)?,
        );
        assert(input@.position == old(input)@.position + 16);
        let radius = read_fx_6_10(input)?;
        let area_of_effect = read_fx_6_10(input)?;
        let damage = DamageDefinition::read(input, namedbs)?;
        let flags = ProjectileFlags::from_word(read32(input)?);
        assert(input@.position == old(input)@.position + 36);
        let speed = read_fx_6_10(input)?;
        let maximum_range = read_fx_6_10(input)?;
        let sound_pitch = read_fx_16_16(input)?;
        let flyby_sound = namedbs.sound_names.identify_optional(read_optional_16(input)?);
        assert(input@.position == old(input)@.position + 46);
        let rebound_sound = namedbs.sound_names.identify_optional(read_optional_16(input)?);
        Ok(
            ProjectileDefinition {
                name,
                collection,
                clut,
                sequence,
                detonation_effect,
                media_detonation_effect,
                contrail_effect,
                ticks_between_contrails,
                maximum_contrails,
                media_projectile_promotion,
                radius,
                area_of_effect,
                damage,
                flags,
                speed,
                maximum_range,
                sound_pitch,
                flyby_sound,
                rebound_sound,
            },
        )
    }

    /// The records of a projectile chunk: record `i` is the one at `i` times
    /// the size of a record, and takes the label of index `i`. A payload that
    /// is not a whole number of records holds none.
    pub open spec fn definitions(
        payload: Seq<u8>,
        names: &NameDbs,
    ) -> Result<Seq<ProjectileDefinitionView>, DecodeError> {
        if payload.len() % (SIZE_OF_PROJECTILE_DEFINITION as nat) != 0 {
            Err(
                DecodeError::RecordSizeMismatch(
                    EntityKind::Projectile,
                    payload.len() as usize,
                    SIZE_OF_PROJECTILE_DEFINITION,
                ),
            )
        } else {
            Ok(
                Seq::new(
                    payload.len() / (SIZE_OF_PROJECTILE_DEFINITION as nat),
                    |i: int| Self::record_at(payload, i * SIZE_OF_PROJECTILE_DEFINITION, i, names),
                ),
            )
        }
    }

    /// Splits the payload of a projectile chunk into records and decodes each.
    pub fn read_definitions(
        input: &[u8],
        namedbs: &NameDbs,
    ) -> (r: Result<Vec<ProjectileDefinition>, DecodeError>)
        ensures
            agrees(r, Self::definitions(input@, namedbs)),
            r is Ok <==> input@.len() % (SIZE_OF_PROJECTILE_DEFINITION as nat) == 0,
            r matches Ok(records) ==> records@.len() == input@.len() / (
                SIZE_OF_PROJECTILE_DEFINITION as nat
            ),
    {
        if input.len() % SIZE_OF_PROJECTILE_DEFINITION != 0 {
            return Err(
                DecodeError::RecordSizeMismatch(
                    EntityKind::Projectile,
                    input.len(),
                    SIZE_OF_PROJECTILE_DEFINITION,
                ),
            );
        }
        let count: usize = input.len() / SIZE_OF_PROJECTILE_DEFINITION;
        let mut cursor = ByteCursor::new(input);
        let mut records: Vec<ProjectileDefinition> = Vec::new();
        let mut i: usize = 0;
        while i < count
            invariant
                i <= count,
                count * SIZE_OF_PROJECTILE_DEFINITION == input@.len(),
                cursor@.source == input@,
                cursor@.position == i * SIZE_OF_PROJECTILE_DEFINITION,
                records@.len() == i,
                forall|k: int|
                    0 <= k < i ==> (#[trigger] records@[k])@ == Self::record_at(
                        input@,
                        k * SIZE_OF_PROJECTILE_DEFINITION,
                        k,
                        namedbs,
                    ),
            decreases count - i,
        {
            let record = Self::read(&mut cursor, namedbs, i)?;
            records.push(record);
            i = i + 1;
        }
        assert(records.deep_view() =~= Self::definitions(input@, namedbs)->Ok_0);
        Ok(records)
    }
}

/// The flags of a weapon.
#[derive(Clone, Copy, Debug, PartialEq, Eq)]
pub struct WeaponFlags {
    pub is_automatic: bool,
    pub disappears_after_use: bool,
    pub plays_instant_shell_casing_sound: bool,
    pub overloads: bool,
    pub has_random_ammo_on_pickup: bool,
    pub powerup_is_temporary: bool,
    pub reloads_in_one_hand: bool,
    pub fires_out_of_phase: bool,
    pub fires_under_media: bool,
    pub triggers_share_ammo: bool,
    pub secondary_has_angular_flipping: bool,
}

impl WeaponFlags {
    /// The flags that the bits of `word` stand for: bit 0 is the first flag.
    pub open spec fn of_word(word: u32) -> WeaponFlags {
        WeaponFlags {
            is_automatic: flag(word, 0),
            disappears_after_use: flag(word, 1),
            plays_instant_shell_casing_sound: flag(word, 2),
            overloads: flag(word, 3),
            has_random_ammo_on_pickup: flag(word, 4),
            powerup_is_temporary: flag(word, 5),
            reloads_in_one_hand: flag(word, 6),
            fires_out_of_phase: flag(word, 7),
            fires_under_media: flag(word, 8),
            triggers_share_ammo: flag(word, 9),
            secondary_has_angular_flipping: flag(word, 10),
        }
    }

    /// Splits `word` into the flags.
    pub fn from_word(word: u32) -> (flags: WeaponFlags)
        ensures
            flags == Self::of_word(word),
    {
        let bits = decode_flags(word, 11);
        WeaponFlags {
            is_automatic: bits[0],
            disappears_after_use: bits[1],
            plays_instant_shell_casing_sound: bits[2],
            overloads: bits[3],
            has_random_ammo_on_pickup: bits[4],
            powerup_is_temporary: bits[5],
            reloads_in_one_hand: bits[6],
            fires_out_of_phase: bits[7],
            fires_under_media: bits[8],
            triggers_share_ammo: bits[9],
            secondary_has_angular_flipping: bits[10],
        }
    }
}

/// One of the two triggers of a weapon.
#[derive(Clone, Debug, PartialEq, Eq)]
pub struct TriggerDefinition {
    pub rounds_per_magazine: Option<u16>,
    pub ammunition_type: Option<Label>,
    pub ticks_per_round: Option<u16>,
    pub recovery_ticks: Option<u16>,
    pub charging_ticks: Option<u16>,
    pub recoil_magnitude: Fixed6_10,
    pub firing_sound: Option<Label>,
    pub click_sound: Option<Label>,
    pub charging_sound: Option<Label>,
    pub shell_casing_sound: Option<Label>,
    pub reloading_sound: Option<Label>,
    pub charged_sound: Option<Label>,
    pub projectile_type: Option<Label>,
    pub theta_error: Angle,
    pub dx: Fixed6_10,
    pub dz: Fixed6_10,
    pub shell_casing_type: Option<u16>,
    pub burst_count: Option<u16>,
}

/// A [`TriggerDefinition`] as a value.
pub struct TriggerDefinitionView {
    pub rounds_per_magazine: Option<u16>,
    pub ammunition_type: Option<LabelView>,
    pub ticks_per_round: Option<u16>,
    pub recovery_ticks: Option<u16>,
    pub charging_ticks: Option<u16>,
    pub recoil_magnitude: Fixed6_10,
    pub firing_sound: Option<LabelView>,
    pub click_sound: Option<LabelView>,
    pub charging_sound: Option<LabelView>,
    pub shell_casing_sound: Option<LabelView>,
    pub reloading_sound: Option<LabelView>,
    pub charged_sound: Option<LabelView>,
    pub projectile_type: Option<LabelView>,
    pub theta_error: Angle,
    pub dx: Fixed6_10,
    pub dz: Fixed6_10,
    pub shell_casing_type: Option<u16>,
    pub burst_count: Option<u16>,
}

impl View for TriggerDefinition {
    type V = TriggerDefinitionView;

    open spec fn view(&self) -> TriggerDefinitionView {
        TriggerDefinitionView {
            rounds_per_magazine: self.rounds_per_magazine,
            ammunition_type: self.ammunition_type.deep_view(),
            ticks_per_round: self.ticks_per_round,
            recovery_ticks: self.recovery_ticks,
            charging_ticks: self.charging_ticks,
            recoil_magnitude: self.recoil_magnitude,
            firing_sound: self.firing_sound.deep_view(),
            click_sound: self.click_sound.deep_view(),
            charging_sound: self.charging_sound.deep_view(),
            shell_casing_sound: self.shell_casing_sound.deep_view(),
            reloading_sound: self.reloading_sound.deep_view(),
            charged_sound: self.charged_sound.deep_view(),
            projectile_type: self.projectile_type.deep_view(),
            theta_error: self.theta_error,
            dx: self.dx,
            dz: self.dz,
            shell_casing_type: self.shell_casing_type,
            burst_count: self.burst_count,
        }
    }
}

impl DeepView for TriggerDefinition {
    type V = TriggerDefinitionView;

    open spec fn deep_view(&self) -> TriggerDefinitionView {
        self@
    }
}

impl TriggerDefinition {
    /// The trigger that the record at `at` holds.
    pub open spec fn record_at(bytes: Seq<u8>, at: int, names: &NameDbs) -> TriggerDefinitionView {
        TriggerDefinitionView {
            rounds_per_magazine: optional16_at(bytes, at),
            ammunition_type: optional_label(names.item_names@, optional16_at(bytes, at + 2)),
            ticks_per_round: optional16_at(bytes, at + 4),
            recovery_ticks: optional16_at(bytes, at + 6),
            charging_ticks: optional16_at(bytes, at + 8),
            recoil_magnitude: fixed6_10_at(bytes, at + 10),
            firing_sound: optional_label(names.sound_names@, optional16_at(bytes, at + 12)),
            click_sound: optional_label(names.sound_names@, optional16_at(bytes, at + 14)),
            charging_sound: optional_label(names.sound_names@, optional16_at(bytes, at + 16)),
            shell_casing_sound: optional_label(names.sound_names@, optional16_at(bytes, at + 18)),
            reloading_sound: optional_label(names.sound_names@, optional16_at(bytes, at + 20)),
            charged_sound: optional_label(names.sound_names@, optional16_at(bytes, at + 22)),
            projectile_type: optional_label(names.projectile_names@, optional16_at(bytes, at + 24)),
            theta_error: angle_at(bytes, at + 26),
            dx: fixed6_10_at(bytes, at + 28),
            dz: fixed6_10_at(bytes, at + 30),
            shell_casing_type: optional16_at(bytes, at + 32),
            burst_count: optional16_at(bytes, at + 34),
        }
    }

    /// Reads one trigger of a weapon. Which of the two it is makes no
    /// difference to how it is read.
    pub fn read(
        input: &mut ByteCursor,
        namedbs: &NameDbs,
        _index: usize,
    ) -> (r: Result<TriggerDefinition, DecodeError>)
        ensures
            final(input)@ == old(input)@.after_read(36),
            r is Ok <==> old(input)@.has(36),
            r matches Ok(trigger) ==> trigger@ == Self::record_at(
                old(input)@.source,
                old(input)@.position,
                namedbs,
            ),
            r matches Err(e) ==> e == DecodeError::IoFailure,
    {
        let rounds_per_magazine = read_optional_16(input)?;
        let ammunition_type = namedbs.item_names.identify_optional(read_optional_16(input)?);
        let ticks_per_round = read_optional_16(input)?;
        let recovery_ticks = read_optional_16(input)?;
        assert(input@.position == old(input)@.position + 8);
        let charging_ticks = read_optional_16(input)?;
        let recoil_magnitude = read_fx_6_10(input)?;
        let firing_sound = namedbs.sound_names.identify_optional(read_optional_16(input)?);
        let click_sound = namedbs.sound_names.identify_optional(read_optional_16(input)?);
        assert(input@.position == old(input)@.position + 16);
        let charging_sound = namedbs.sound_names.identify_optional(read_optional_16(input)?);
        let shell_casing_sound = namedbs.sound_names.identify_optional(read_optional_16(input)?);
        let reloading_sound = namedbs.sound_names.identify_optional(read_optional_16(input)?);
        let charged_sound = namedbs.sound_names.identify_optional(read_optional_16(input)?);
        assert(input@.position == old(input)@.position + 24);
        let projectile_type = namedbs.projectile_names.identify_optional(read_optional_16(input)?);
        let theta_error = read_angle(input)?;
        let dx = read_fx_6_10(input)?;
        let dz = read_fx_6_10(input)?;
        assert(input@.position == old(input)@.position + 32);
        let shell_casing_type = read_optional_16(input)?;
        let burst_count = read_optional_16(input)?;
        Ok(
            TriggerDefinition {
                rounds_per_magazine,
                ammunition_type,
                ticks_per_round,
                recovery_ticks,
                charging_ticks,
                recoil_magnitude,
                firing_sound,
                click_sound,
                charging_sound,
                shell_casing_sound,
                reloading_sound,
                charged_sound,
                projectile_type,
                theta_error,
                dx,
                dz,
                shell_casing_type,
                burst_count,
            },
        )
    }

    /// The two triggers of a weapon, the primary one first.
    pub fn pair(primary: TriggerDefinition, secondary: TriggerDefinition) -> (triggers: [
        TriggerDefinition;
        2
    ])
        ensures
            triggers.deep_view() == seq![primary@, secondary@],
    {
        let triggers = [primary, secondary];
        assert(triggers.deep_view() =~= seq![primary@, secondary@]);
        triggers
    }
}

/// A weapon: how it is held and shown, and its two triggers.
#[derive(Clone, Debug, PartialEq, Eq)]
pub struct WeaponDefinition {
    pub name: Label,
    pub item_type: Option<Label>,
    pub powerup_type: Option<Label>,
    pub weapon_class: Option<Label>,
    pub flags: WeaponFlags,
    pub firing_light_intensity: Fixed16_16,
    pub firing_intensity_decay_ticks: Option<u16>,
    pub idle_height: Fixed16_16,
    pub bob_amplitude: Fixed16_16,
    pub kick_height: Fixed16_16,
    pub reload_height: Fixed16_16,
    pub idle_width: Fixed16_16,
    pub horizontal_amplitude: Fixed16_16,
    pub collection: Option<u16>,
    pub idle_sequence: Option<u16>,
    pub firing_sequence: Option<u16>,
    pub reloading_sequence: Option<u16>,
    pub unused: u16,
    pub charging_sequence: Option<u16>,
    pub charged_sequence: Option<u16>,
    pub ready_ticks: Option<u16>,
    pub await_reload_ticks: Option<u16>,
    pub loading_ticks: Option<u16>,
    pub finish_loading_ticks: Option<u16>,
    pub powerup_ticks: Option<u16>,
    pub triggers: [TriggerDefinition; 2],
}

/// A [`WeaponDefinition`] as a value.
pub struct WeaponDefinitionView {
    pub name: LabelView,
    pub item_type: Option<LabelView>,
    pub powerup_type: Option<LabelView>,
    pub weapon_class: Option<LabelView>,
    pub flags: WeaponFlags,
    pub firing_light_intensity: Fixed16_16,
    pub firing_intensity_decay_ticks: Option<u16>,
    pub idle_height: Fixed16_16,
    pub bob_amplitude: Fixed16_16,
    pub kick_height: Fixed16_16,
    pub reload_height: Fixed16_16,
    pub idle_width: Fixed16_16,
    pub horizontal_amplitude: Fixed16_16,
    pub collection: Option<u16>,
    pub idle_sequence: Option<u16>,
    pub firing_sequence: Option<u16>,
    pub reloading_sequence: Option<u16>,
    pub unused: u16,
    pub charging_sequence: Option<u16>,
    pub charged_sequence: Option<u16>,
    pub ready_ticks: Option<u16>,
    pub await_reload_ticks: Option<u16>,
    pub loading_ticks: Option<u16>,
    pub finish_loading_ticks: Option<u16>,
    pub powerup_ticks: Option<u16>,
    pub triggers: Seq<TriggerDefinitionView>,
}

impl View for WeaponDefinition {
    type V = WeaponDefinitionView;

    open spec fn view(&self) -> WeaponDefinitionView {
        WeaponDefinitionView {
            name: self.name@,
            item_type: self.item_type.deep_view(),
            powerup_type: self.powerup_type.deep_view(),
            weapon_class: self.weapon_class.deep_view(),
            flags: self.flags,
            firing_light_intensity: self.firing_light_intensity,
            firing_intensity_decay_ticks: self.firing_intensity_decay_ticks,
            idle_height: self.idle_height,
            bob_amplitude: self.bob_amplitude,
            kick_height: self.kick_height,
            reload_height: self.reload_height,
            idle_width: self.idle_width,
            horizontal_amplitude: self.horizontal_amplitude,
            collection: self.collection,
            idle_sequence: self.idle_sequence,
            firing_sequence: self.firing_sequence,
            reloading_sequence: self.reloading_sequence,
            unused: self.unused,
            charging_sequence: self.charging_sequence,
            charged_sequence: self.charged_sequence,
            ready_ticks: self.ready_ticks,
            await_reload_ticks: self.await_reload_ticks,
            loading_ticks: self.loading_ticks,
            finish_loading_ticks: self.finish_loading_ticks,
            powerup_ticks: self.powerup_ticks,
            triggers: self.triggers.deep_view(),
        }
    }
}

impl DeepView for WeaponDefinition {
    type V = WeaponDefinitionView;

    open spec fn deep_view(&self) -> WeaponDefinitionView {
        self@
    }
}

impl WeaponDefinition {
    /// The weapon that the record at `at` holds, as weapon number `index`. The
    /// two triggers stand at its end, each a block of its own.
    pub open spec fn record_at(
        bytes: Seq<u8>,
        at: int,
        index: int,
        names: &NameDbs,
    ) -> WeaponDefinitionView {
        WeaponDefinitionView {
            name: label_of(names.weapon_names@, index),
            item_type: optional_label(names.item_names@, optional16_at(bytes, at)),
            powerup_type: optional_label(names.item_names@, optional16_at(bytes, at + 2)),
            weapon_class: optional_label(names.weapon_class_names@, optional16_at(bytes, at + 4)),
            flags: WeaponFlags::of_word(be16_at(bytes, at + 6) as u32),
            firing_light_intensity: fixed16_16_at(bytes, at + 8),
            firing_intensity_decay_ticks: optional16_at(bytes, at + 12),
            idle_height: fixed16_16_at(bytes, at + 14),
            bob_amplitude: fixed16_16_at(bytes, at + 18),
            kick_height: fixed16_16_at(bytes, at + 22),
            reload_height: fixed16_16_at(bytes, at + 26),
            idle_width: fixed16_16_at(bytes, at + 30),
            horizontal_amplitude: fixed16_16_at(bytes, at + 34),
            collection: optional16_at(bytes, at + 38),
            idle_sequence: optional16_at(bytes, at + 40),
            firing_sequence: optional16_at(bytes, at + 42),
            reloading_sequence: optional16_at(bytes, at + 44),
            unused: be16_at(bytes, at + 46),
            charging_sequence: optional16_at(bytes, at + 48),
            charged_sequence: optional16_at(bytes, at + 50),
            ready_ticks: optional16_at(bytes, at + 52),
            await_reload_ticks: optional16_at(bytes, at + 54),
            loading_ticks: optional16_at(bytes, at + 56),
            finish_loading_ticks: optional16_at(bytes, at + 58),
            powerup_ticks: optional16_at(bytes, at + 60),
            triggers: seq![
                TriggerDefinition::record_at(bytes, at + 62, names),
                TriggerDefinition::record_at(bytes, at + 98, names),
            ],
        }
    }

    /// Reads a weapon record as weapon number `index`.
    pub fn read(
        input: &mut ByteCursor,
        namedbs: &NameDbs,
        index: usize,
    ) -> (r: Result<WeaponDefinition, DecodeError>)
        ensures
            final(input)@ == old(input)@.after_read(SIZE_OF_WEAPON_DEFINITION as int),
            r is Ok <==> old(input)@.has(SIZE_OF_WEAPON_DEFINITION as int),
            r matches Ok(weapon) ==> weapon@ == Self::record_at(
                old(input)@.source,
                old(input)@.position,
                index as int,
                namedbs,
            ),
            r matches Err(e) ==> e == DecodeError::IoFailure,
    {
        let name = namedbs.weapon_names.identify(index);
        let item_type = namedbs.item_names.identify_optional(read_optional_16(input)?);
        let powerup_type = namedbs.item_names.identify_optional(read_optional_16(input)?);
        let weapon_class = namedbs.weapon_class_names.identify_optional(read_optional_16(input)?);
        let flags = WeaponFlags::from_word(read16(input)? as u32);
        assert(input@.position == old(input)@.position + 8);
        let firing_light_intensity = read_fx_16_16(input)?;
        let firing_intensity_decay_ticks = read_optional_16(input)?;
        let idle_height = read_fx_16_16(input)?;
        let bob_amplitude = read_fx_16_16(input)?;
        assert(input@.position == old(input)@.position + 22);
        let kick_height = read_fx_16_16(input)?;
        let reload_height = read_fx_16_16(input)?;
        let idle_width = read_fx_16_16(input)?;
        let horizontal_amplitude = read_fx_16_16(input)?;
        assert(input@.position == old(input)@.position + 38);
        let collection = read_optional_16(input)?;
        let idle_sequence = read_optional_16(input)?;
        let firing_sequence = read_optional_16(input)?;
        let reloading_sequence = read_optional_16(input)?;
        assert(input@.position == old(input)@.position + 46);
        let unused = read16(input)?;
        let charging_sequence = read_optional_16(input)?;
        let charged_sequence = read_optional_16(input)?;
        let ready_ticks = read_optional_16(input)?;
        assert(input@.position == old(input)@.position + 54);
        let await_reload_ticks = read_optional_16(input)?;
        let loading_ticks = read_optional_16(input)?;
        let finish_loading_ticks = read_optional_16(input)?;
        let powerup_ticks = read_optional_16(input)?;
        assert(input@.position == old(input)@.position + 62);
        let primary = TriggerDefinition::read(input, namedbs, 0)?;
        let secondary = TriggerDefinition::read(input, namedbs, 1)?;
        let triggers = TriggerDefinition::pair(primary, secondary);
        Ok(
            WeaponDefinition {
                name,
                item_type,
                powerup_type,
                weapon_class,
                flags,
                firing_light_intensity,
                firing_intensity_decay_ticks,
                idle_height,
                bob_amplitude,
                kick_height,
                reload_height,
                idle_width,
                horizontal_amplitude,
                collection,
                idle_sequence,
                firing_sequence,
                reloading_sequence,
                unused,
                charging_sequence,
                charged_sequence,
                ready_ticks,
                await_reload_ticks,
                loading_ticks,
                finish_loading_ticks,
                powerup_ticks,
                triggers,
            },
        )
    }

    /// The records of a weapon chunk: record `i` is the one at `i` times the
    /// size of a record, and takes the label of index `i`. A payload that is
    /// not a whole number of records holds none.
    pub open spec fn definitions(
        payload: Seq<u8>,
        names: &NameDbs,
    ) -> Result<Seq<WeaponDefinitionView>, DecodeError> {
        if payload.len() % (SIZE_OF_WEAPON_DEFINITION as nat) != 0 {
            Err(
                DecodeError::RecordSizeMismatch(
                    EntityKind::Weapon,
                    payload.len() as usize,
                    SIZE_OF_WEAPON_DEFINITION,
                ),
            )
        } else {
            Ok(
                Seq::new(
                    payload.len() / (SIZE_OF_WEAPON_DEFINITION as nat),
                    |i: int| Self::record_at(payload, i * SIZE_OF_WEAPON_DEFINITION, i, names),
                ),
            )
        }
    }

    /// Splits the payload of a weapon chunk into records and decodes each.
    pub fn read_definitions(
        input: &[u8],
        namedbs: &NameDbs,
    ) -> (r: Result<Vec<WeaponDefinition>, DecodeError>)
        ensures
            agrees(r, Self::definitions(input@, namedbs)),
            r is Ok <==> input@.len() % (SIZE_OF_WEAPON_DEFINITION as nat) == 0,
            r matches Ok(records) ==> records@.len() == input@.len() / (
                SIZE_OF_WEAPON_DEFINITION as nat
            ),
    {
        if input.len() % SIZE_OF_WEAPON_DEFINITION != 0 {
            return Err(
                DecodeError::RecordSizeMismatch(
                    EntityKind::Weapon,
                    input.len(),
                    SIZE_OF_WEAPON_DEFINITION,
                ),
            );
        }
        let count: usize = input.len() / SIZE_OF_WEAPON_DEFINITION;
        let mut cursor = ByteCursor::new(input);
        let mut records: Vec<WeaponDefinition> = Vec::new();
        let mut i: usize = 0;
        while i < count
            invariant
                i <= count,
                count * SIZE_OF_WEAPON_DEFINITION == input@.len(),
                cursor@.source == input@,
                cursor@.position == i * SIZE_OF_WEAPON_DEFINITION,
                records@.len() == i,
                forall|k: int|
                    0 <= k < i ==> (#[trigger] records@[k])@ == Self::record_at(
                        input@,
                        k * SIZE_OF_WEAPON_DEFINITION,
                        k,
                        namedbs,
                    ),
            decreases count - i,
        {
            let record = Self::read(&mut cursor, namedbs, i)?;
            records.push(record);
            i = i + 1;
        }
        assert(records.deep_view() =~= Self::definitions(input@, namedbs)->Ok_0);
        Ok(records)
    }
}

/// How the player moves in one gait: velocities, accelerations and the measures
/// of the body, each a 16.16 fixed-point number.
#[derive(Clone, Debug, PartialEq, Eq)]
pub struct PhysicsDefinition {
    pub maximum_forward_velocity: Fixed16_16,
    pub maximum_backward_velocity: Fixed16_16,
    pub maximum_perpendicular_velocity: Fixed16_16,
    pub acceleration: Fixed16_16,
    pub deceleration: Fixed16_16,
    pub airborne_deceleration: Fixed16_16,
    pub gravitational_acceleration: Fixed16_16,
    pub climbing_acceleration: Fixed16_16,
    pub terminal_velocity: Fixed16_16,
    pub external_deceleration: Fixed16_16,
    pub angular_acceleration: Fixed16_16,
    pub angular_deceleration: Fixed16_16,
    pub maximum_angular_velocity: Fixed16_16,
    pub angular_recentering_velocity: Fixed16_16,
    pub fast_angular_velocity: Fixed16_16,
    pub fast_angular_maximum: Fixed16_16,
    pub maximum_elevation: Fixed16_16,
    pub external_angular_deceleration: Fixed16_16,
    pub step_delta: Fixed16_16,
    pub step_amplitude: Fixed16_16,
    pub radius: Fixed16_16,
    pub height: Fixed16_16,
    pub dead_height: Fixed16_16,
    pub camera_height: Fixed16_16,
    pub splash_height: Fixed16_16,
    pub half_camera_separation: Fixed16_16,
}

impl PhysicsDefinition {
    /// The movement profile that the record at `at` holds.
    pub open spec fn record_at(bytes: Seq<u8>, at: int, names: &NameDbs) -> PhysicsDefinition {
        PhysicsDefinition {
            maximum_forward_velocity: fixed16_16_at(bytes, at),
            maximum_backward_velocity: fixed16_16_at(bytes, at + 4),
            maximum_perpendicular_velocity: fixed16_16_at(bytes, at + 8),
            acceleration: fixed16_16_at(bytes, at + 12),
            deceleration: fixed16_16_at(bytes, at + 16),
            airborne_deceleration: fixed16_16_at(bytes, at + 20),
            gravitational_acceleration: fixed16_16_at(bytes, at + 24),
            climbing_acceleration: fixed16_16_at(bytes, at + 28),
            terminal_velocity: fixed16_16_at(bytes, at + 32),
            external_deceleration: fixed16_16_at(bytes, at + 36),
            angular_acceleration: fixed16_16_at(bytes, at + 40),
            angular_deceleration: fixed16_16_at(bytes, at + 44),
            maximum_angular_velocity: fixed16_16_at(bytes, at + 48),
            angular_recentering_velocity: fixed16_16_at(bytes, at + 52),
            fast_angular_velocity: fixed16_16_at(bytes, at + 56),
            fast_angular_maximum: fixed16_16_at(bytes, at + 60),
            maximum_elevation: fixed16_16_at(bytes, at + 64),
            external_angular_deceleration: fixed16_16_at(bytes, at + 68),
            step_delta: fixed16_16_at(bytes, at + 72),
            step_amplitude: fixed16_16_at(bytes, at + 76),
            radius: fixed16_16_at(bytes, at + 80),
            height: fixed16_16_at(bytes, at + 84),
            dead_height: fixed16_16_at(bytes, at + 88),
            camera_height: fixed16_16_at(bytes, at + 92),
            splash_height: fixed16_16_at(bytes, at + 96),
            half_camera_separation: fixed16_16_at(bytes, at + 100),
        }
    }

    /// Reads a movement profile. The names are not used: no field of a profile
    /// is an index.
    pub fn read(
        input: &mut ByteCursor,
        _namedb: &NameDbs,
    ) -> (r: Result<PhysicsDefinition, DecodeError>)
        ensures
            final(input)@ == old(input)@.after_read(SIZE_OF_PHYSICS_DEFINITION as int),
            r is Ok <==> old(input)@.has(SIZE_OF_PHYSICS_DEFINITION as int),
            r matches Ok(profile) ==> profile == Self::record_at(
                old(input)@.source,
                old(input)@.position,
                _namedb,
            ),
            r matches Err(e) ==> e == DecodeError::IoFailure,
    {
        let maximum_forward_velocity = read_fx_16_16(input)?;
        let maximum_backward_velocity = read_fx_16_16(input)?;
        let maximum_perpendicular_velocity = read_fx_16_16(input)?;
        let acceleration = read_fx_16_16(input)?;
        assert(input@.position == old(input)@.position + 16);
        let deceleration = read_fx_16_16(input)?;
        let airborne_deceleration = read_fx_16_16(input)?;
        let gravitational_acceleration = read_fx_16_16(input)?;
        let climbing_acceleration = read_fx_16_16(input)?;
        assert(input@.position == old(input)@.position + 32);
        let terminal_velocity = read_fx_16_16(input)?;
        let external_deceleration = read_fx_16_16(input)?;
        let angular_acceleration = read_fx_16_16(input)?;
        let angular_deceleration = read_fx_16_16(input)?;
        assert(input@.position == old(input)@.position + 48);
        let maximum_angular_velocity = read_fx_16_16(input)?;
        let angular_recentering_velocity = read_fx_16_16(input)?;
        let fast_angular_velocity = read_fx_16_16(input)?;
        let fast_angular_maximum = read_fx_16_16(input)?;
        assert(input@.position == old(input)@.position + 64);
        let maximum_elevation = read_fx_16_16(input)?;
        let external_angular_deceleration = read_fx_16_16(input)?;
        let step_delta = read_fx_16_16(input)?;
        let step_amplitude = read_fx_16_16(input)?;
        assert(input@.position == old(input)@.position + 80);
        let radius = read_fx_16_16(input)?;
        let height = read_fx_16_16(input)?;
        let dead_height = read_fx_16_16(input)?;
        let camera_height = read_fx_16_16(input)?;
        assert(input@.position == old(input)@.position + 96);
        let splash_height = read_fx_16_16(input)?;
        let half_camera_separation = read_fx_16_16(input)?;
        Ok(
            PhysicsDefinition {
                maximum_forward_velocity,
                maximum_backward_velocity,
                maximum_perpendicular_velocity,
                acceleration,
                deceleration,
                airborne_deceleration,
                gravitational_acceleration,
                climbing_acceleration,
                terminal_velocity,
                external_deceleration,
                angular_acceleration,
                angular_deceleration,
                maximum_angular_velocity,
                angular_recentering_velocity,
                fast_angular_velocity,
                fast_angular_maximum,
                maximum_elevation,
                external_angular_deceleration,
                step_delta,
                step_amplitude,
                radius,
                height,
                dead_height,
                camera_height,
                splash_height,
                half_camera_separation,
            },
        )
    }
}

/// The two movement profiles of the player.
#[derive(Clone, Debug, PartialEq, Eq)]
pub struct PhysicsDefinitions {
    pub walking: PhysicsDefinition,
    pub running: PhysicsDefinition,
}

impl PhysicsDefinitions {
    /// The pair of profiles at `at`: walking first, running directly behind it.
    pub open spec fn record_at(bytes: Seq<u8>, at: int, names: &NameDbs) -> PhysicsDefinitions {
        PhysicsDefinitions {
            walking: PhysicsDefinition::record_at(bytes, at, names),
            running: PhysicsDefinition::record_at(bytes, at + SIZE_OF_PHYSICS_DEFINITION, names),
        }
    }

    /// The pair of profiles that the payload of a movement chunk holds. What
    /// follows the pair is not looked at.
    pub open spec fn definitions(
        payload: Seq<u8>,
        names: &NameDbs,
    ) -> Result<PhysicsDefinitions, DecodeError> {
        if payload.len() < 2 * SIZE_OF_PHYSICS_DEFINITION {
            Err(DecodeError::IoFailure)
        } else {
            Ok(Self::record_at(payload, 0, names))
        }
    }

    /// Reads the walking profile and then the running one.
    pub fn read(
        input: &mut ByteCursor,
        namedb: &NameDbs,
    ) -> (r: Result<PhysicsDefinitions, DecodeError>)
        ensures
            final(input)@ == old(input)@.after_read(2 * SIZE_OF_PHYSICS_DEFINITION as int),
            r is Ok <==> old(input)@.has(2 * SIZE_OF_PHYSICS_DEFINITION as int),
            r matches Ok(profiles) ==> profiles == Self::record_at(
                old(input)@.source,
                old(input)@.position,
                namedb,
            ),
            r matches Err(e) ==> e == DecodeError::IoFailure,
    {
        let walking = PhysicsDefinition::read(input, namedb)?;
        let running = PhysicsDefinition::read(input, namedb)?;
        Ok(PhysicsDefinitions { walking, running })
    }
}

/// A whole physics model: the records of the four kinds, and the movement
/// profiles.
#[derive(Clone, Debug, PartialEq, Eq)]
pub struct Physics {
    pub monster_definitions: Vec<MonsterDefinition>,
    pub effect_definitions: Vec<EffectDefinition>,
    pub projectile_definitions: Vec<ProjectileDefinition>,
    pub weapon_definitions: Vec<WeaponDefinition>,
    pub physics: PhysicsDefinitions,
}

/// A [`Physics`] as a value.
pub struct PhysicsView {
    pub monster_definitions: Seq<MonsterDefinitionView>,
    pub effect_definitions: Seq<EffectDefinitionView>,
    pub projectile_definitions: Seq<ProjectileDefinitionView>,
    pub weapon_definitions: Seq<WeaponDefinitionView>,
    pub physics: PhysicsDefinitions,
}

impl View for Physics {
    type V = PhysicsView;

    open spec fn view(&self) -> PhysicsView {
        PhysicsView {
            monster_definitions: self.monster_definitions.deep_view(),
            effect_definitions: self.effect_definitions.deep_view(),
            projectile_definitions: self.projectile_definitions.deep_view(),
            weapon_definitions: self.weapon_definitions.deep_view(),
            physics: self.physics,
        }
    }
}

impl DeepView for Physics {
    type V = PhysicsView;

    open spec fn deep_view(&self) -> PhysicsView {
        self@
    }
}

/// The model that a list of chunks holds: each of the five chunks is looked up
/// by its tag and decoded, monsters first, then effects, projectiles, weapons
/// and the movement profiles. The first chunk that is missing or does not
/// decode decides the error.
pub open spec fn assembled(
    chunks: Seq<ChunkView>,
    names: &NameDbs,
) -> Result<PhysicsView, DecodeError> {
    let monsters = match payload_of(chunks, MONSTER_PHYSICS_TAG) {
        Some(payload) => MonsterDefinition::definitions(payload, names),
        None => Err(DecodeError::ChunkNotFound(MONSTER_PHYSICS_TAG)),
    };
    let effects = match payload_of(chunks, EFFECT_PHYSICS_TAG) {
        Some(payload) => EffectDefinition::definitions(payload, names),
        None => Err(DecodeError::ChunkNotFound(EFFECT_PHYSICS_TAG)),
    };
    let projectiles = match payload_of(chunks, PROJECTILE_PHYSICS_TAG) {
        Some(payload) => ProjectileDefinition::definitions(payload, names),
        None => Err(DecodeError::ChunkNotFound(PROJECTILE_PHYSICS_TAG)),
    };
    let weapons = match payload_of(chunks, WEAPON_PHYSICS_TAG) {
        Some(payload) => WeaponDefinition::definitions(payload, names),
        None => Err(DecodeError::ChunkNotFound(WEAPON_PHYSICS_TAG)),
    };
    let movement = match payload_of(chunks, PHYSICS_PHYSICS_TAG) {
        Some(payload) => PhysicsDefinitions::definitions(payload, names),
        None => Err(DecodeError::ChunkNotFound(PHYSICS_PHYSICS_TAG)),
    };
    if monsters is Err {
        Err(monsters->Err_0)
    } else if effects is Err {
        Err(effects->Err_0)
    } else if projectiles is Err {
        Err(projectiles->Err_0)
    } else if weapons is Err {
        Err(weapons->Err_0)
    } else if movement is Err {
        Err(movement->Err_0)
    } else {
        Ok(
            PhysicsView {
                monster_definitions: monsters->Ok_0,
                effect_definitions: effects->Ok_0,
                projectile_definitions: projectiles->Ok_0,
                weapon_definitions: weapons->Ok_0,
                physics: movement->Ok_0,
            },
        )
    }
}

/// Decodes the five chunks of a physics model out of `chunks`.
pub fn assemble(chunks: &[Chunk], namedbs: &NameDbs) -> (r: Result<Physics, DecodeError>)
    ensures
        agrees(r, assembled(chunks.deep_view(), namedbs)),
{
    let monster_definitions = MonsterDefinition::read_definitions(
        Chunk::find(chunks, MONSTER_PHYSICS_TAG)?,
        namedbs,
    )?;
    let effect_definitions = EffectDefinition::read_definitions(
        Chunk::find(chunks, EFFECT_PHYSICS_TAG)?,
        namedbs,
    )?;
    let projectile_definitions = ProjectileDefinition::read_definitions(
        Chunk::find(chunks, PROJECTILE_PHYSICS_TAG)?,
        namedbs,
    )?;
    let weapon_definitions = WeaponDefinition::read_definitions(
        Chunk::find(chunks, WEAPON_PHYSICS_TAG)?,
        namedbs,
    )?;
    let payload = Chunk::find(chunks, PHYSICS_PHYSICS_TAG)?;
    let mut cursor = ByteCursor::new(payload);
    let physics = PhysicsDefinitions::read(&mut cursor, namedbs)?;
    Ok(
        Physics {
            monster_definitions,
            effect_definitions,
            projectile_definitions,
            weapon_definitions,
            physics,
        },
    )
}

/// A model comes only out of chunks that carry all five tags: where one is
/// missing there is no model, not a part of one.
pub proof fn lemma_model_needs_every_chunk(chunks: Seq<ChunkView>, names: &NameDbs)
    requires
        assembled(chunks, names) is Ok,
    ensures
        payload_of(chunks, MONSTER_PHYSICS_TAG) is Some,
        payload_of(chunks, EFFECT_PHYSICS_TAG) is Some,
        payload_of(chunks, PROJECTILE_PHYSICS_TAG) is Some,
        payload_of(chunks, WEAPON_PHYSICS_TAG) is Some,
        payload_of(chunks, PHYSICS_PHYSICS_TAG) is Some,
{
}

/// Where the movement chunk is missing and the chunks of the four kinds of
/// record are there and decode, the call fails for want of the movement chunk.
pub proof fn lemma_missing_movement(chunks: Seq<ChunkView>, names: &NameDbs)
    requires
        payload_of(chunks, MONSTER_PHYSICS_TAG) is Some,
        MonsterDefinition::definitions(
            payload_of(chunks, MONSTER_PHYSICS_TAG)->0,
            names,
        ) is Ok,
        payload_of(chunks, EFFECT_PHYSICS_TAG) is Some,
        EffectDefinition::definitions(
            payload_of(chunks, EFFECT_PHYSICS_TAG)->0,
            names,
        ) is Ok,
        payload_of(chunks, PROJECTILE_PHYSICS_TAG) is Some,
        ProjectileDefinition::definitions(
            payload_of(chunks, PROJECTILE_PHYSICS_TAG)->0,
            names,
        ) is Ok,
        payload_of(chunks, WEAPON_PHYSICS_TAG) is Some,
        WeaponDefinition::definitions(
            payload_of(chunks, WEAPON_PHYSICS_TAG)->0,
            names,
        ) is Ok,
        payload_of(chunks, PHYSICS_PHYSICS_TAG) is None,
    ensures
        assembled(chunks, names) == Err::<PhysicsView, DecodeError>(
            DecodeError::ChunkNotFound(PHYSICS_PHYSICS_TAG),
        ),
{
}

/// The chunks of the first subfile, or none where there is no subfile.
pub open spec fn first_subfile(files: Seq<Seq<ChunkView>>) -> Seq<ChunkView> {
    if files.len() > 0 {
        files[0]
    } else {
        Seq::empty()
    }
}

/// The model that an archive holds, read from `at` on: the one in the chunks of
/// its first subfile. An archive without a subfile has no chunk to find.
pub open spec fn physics_of(
    bytes: Seq<u8>,
    at: int,
    names: &NameDbs,
) -> Result<PhysicsView, DecodeError> {
    match archive(bytes, at) {
        Ok(wad) => assembled(first_subfile(wad.files), names),
        Err(e) => Err(e),
    }
}

/// Decodes a physics archive: reads the archive, then the records of each of
/// the five kinds from the chunks of its first subfile.
pub fn convert_physics(input: ByteCursor, namedbs: &NameDbs) -> (r: Result<Physics, DecodeError>)
    ensures
        agrees(r, physics_of(input@.source, input@.position, namedbs)),
{
    let wad = Wad::read_wad(input)?;
    if wad.files.len() == 0 {
        return Err(DecodeError::ChunkNotFound(MONSTER_PHYSICS_TAG));
    }
    assemble(wad.files[0].as_slice(), namedbs)
}

} // verus!
