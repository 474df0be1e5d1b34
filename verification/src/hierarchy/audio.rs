//! The properties block that every playable object and container embeds,
//! and the small packed flag words it uses.

use crate::cursor::{fits, le_u16, le_u32, parse_skip, parse_u32_le, parse_u8, Cursor};
use crate::decode::{
    models, parse_list_u16, parse_list_u32, parse_list_u8, parse_many, parse_typed_list,
    read_list_u16, read_list_u32, read_list_u8, read_many, read_typed_list, replicate_all,
    replicate_plain, Record,
};
use vstd::prelude::*;

verus! {

/// Whether the binary digit of weight `weight` (a power of two) is set in `b`.
pub open spec fn bit_set(b: int, weight: int) -> bool {
    (b / weight) % 2 == 1
}

/// How an object is positioned: one byte of flags, lowest bit first.
#[derive(Debug, Clone, Copy, Default, PartialEq, Eq, Structural)]
pub struct PositioningBehaviour {
    pub override_parent: bool,
    pub two_dimensional: bool,
    pub enable_2d_panner: bool,
    pub three_dimensional: bool,
    pub enable_spatialization: bool,
    pub user_defined_should_loop: bool,
    pub update_at_each_frame: bool,
    pub ignore_listener_orientation: bool,
}

impl PositioningBehaviour {
    /// The flags that a byte packs.
    pub open spec fn of_byte(b: u8) -> PositioningBehaviour {
        PositioningBehaviour {
            override_parent: bit_set(b as int, 1),
            two_dimensional: bit_set(b as int, 2),
            enable_2d_panner: bit_set(b as int, 4),
            three_dimensional: bit_set(b as int, 8),
            enable_spatialization: bit_set(b as int, 16),
            user_defined_should_loop: bit_set(b as int, 32),
            update_at_each_frame: bit_set(b as int, 64),
            ignore_listener_orientation: bit_set(b as int, 128),
        }
    }

    /// Unpacks the flags of a byte.
    pub fn from_bytes(bytes: [u8; 1]) -> (r: PositioningBehaviour)
        ensures
            r == Self::of_byte(bytes[0]),
    {
        let b: u8 = bytes[0];
        PositioningBehaviour {
            override_parent: b % 2 == 1,
            two_dimensional: (b / 2) % 2 == 1,
            enable_2d_panner: (b / 4) % 2 == 1,
            three_dimensional: (b / 8) % 2 == 1,
            enable_spatialization: (b / 16) % 2 == 1,
            user_defined_should_loop: (b / 32) % 2 == 1,
            update_at_each_frame: (b / 64) % 2 == 1,
            ignore_listener_orientation: (b / 128) % 2 == 1,
        }
    }
}

/// How an object feeds auxiliary buses: four flags in the low half of a
/// byte, lowest bit first; the high half is unused.
#[derive(Debug, Clone, Copy, Default, PartialEq, Eq, Structural)]
pub struct AuxSendsBehaviour {
    pub override_game_defined: bool,
    pub use_game_defined_aux_sends: bool,
    pub override_user_defined: bool,
    pub override_aux_sends: bool,
}

impl AuxSendsBehaviour {
    /// The flags that a byte packs.
    pub open spec fn of_byte(b: u8) -> AuxSendsBehaviour {
        AuxSendsBehaviour {
            override_game_defined: bit_set(b as int, 1),
            use_game_defined_aux_sends: bit_set(b as int, 2),
            override_user_defined: bit_set(b as int, 4),
            override_aux_sends: bit_set(b as int, 8),
        }
    }

    /// Unpacks the flags of a byte.
    pub fn from_bytes(bytes: [u8; 1]) -> (r: AuxSendsBehaviour)
        ensures
            r == Self::of_byte(bytes[0]),
    {
        let b: u8 = bytes[0];
        AuxSendsBehaviour {
            override_game_defined: b % 2 == 1,
            use_game_defined_aux_sends: (b / 2) % 2 == 1,
            override_user_defined: (b / 4) % 2 == 1,
            override_aux_sends: (b / 8) % 2 == 1,
        }
    }
}

/// The kind of code behind a method: a two-bit field.
#[derive(Debug, Clone, Copy, PartialEq, Eq, Structural)]
pub enum CodeTypeMask {
    IL,
    Native,
    OPTIL,
    Runtime,
}

/// Whether a method is managed: a one-bit field.
#[derive(Debug, Clone, Copy, PartialEq, Eq, Structural)]
pub enum ManagedMask {
    Managed,
    Unmanaged,
}

/// Attributes of a method implementation, packed into a little-endian
/// 16-bit word, lowest bit first: the code type in two bits, the managed
/// bit, five flags, a two-bit value and one more flag.
#[derive(Debug, Clone, Copy, PartialEq, Eq, Structural)]
pub struct MethodImplAttributes {
    pub code_type: CodeTypeMask,
    pub managed: ManagedMask,
    pub forward_def: bool,
    pub preserve_sig: bool,
    pub internal_call: bool,
    pub synchronized: bool,
    pub no_inlining: bool,
    pub max_method_impl_val: u8,
    pub no_optimization: bool,
}

impl MethodImplAttributes {
    /// The attributes that a 16-bit word packs.
    pub open spec fn of_word(w: int) -> MethodImplAttributes {
        MethodImplAttributes {
            code_type: if w % 4 == 0 {
                CodeTypeMask::IL
            } else if w % 4 == 1 {
                CodeTypeMask::Native
            } else if w % 4 == 2 {
                CodeTypeMask::OPTIL
            } else {
                CodeTypeMask::Runtime
            },
            managed: if bit_set(w, 4) {
                ManagedMask::Unmanaged
            } else {
                ManagedMask::Managed
            },
            forward_def: bit_set(w, 8),
            preserve_sig: bit_set(w, 16),
            internal_call: bit_set(w, 32),
            synchronized: bit_set(w, 64),
            no_inlining: bit_set(w, 128),
            max_method_impl_val: ((w / 256) % 4) as u8,
            no_optimization: bit_set(w, 1024),
        }
    }

    /// Unpacks the attributes of two bytes, the low byte first.
    pub fn from_bytes(bytes: [u8; 2]) -> (r: MethodImplAttributes)
        ensures
            r == Self::of_word(bytes[0] as int + 256 * (bytes[1] as int)),
    {
        let w: u16 = bytes[0] as u16 + 256 * (bytes[1] as u16);
        let code: u16 = w % 4;
        MethodImplAttributes {
            code_type: if code == 0 {
                CodeTypeMask::IL
            } else if code == 1 {
                CodeTypeMask::Native
            } else if code == 2 {
                CodeTypeMask::OPTIL
            } else {
                CodeTypeMask::Runtime
            },
            managed: if (w / 4) % 2 == 1 {
                ManagedMask::Unmanaged
            } else {
                ManagedMask::Managed
            },
            forward_def: (w / 8) % 2 == 1,
            preserve_sig: (w / 16) % 2 == 1,
            internal_call: (w / 32) % 2 == 1,
            synchronized: (w / 64) % 2 == 1,
            no_inlining: (w / 128) % 2 == 1,
            max_method_impl_val: ((w / 256) % 4) as u8,
            no_optimization: (w / 1024) % 2 == 1,
        }
    }
}

/// An effect slot of an object.
#[derive(Debug, Clone, Copy, PartialEq, Eq, Structural)]
pub struct AudioEffect {
    pub index: u8,
    pub id: u32,
    pub use_share_sets: u8,
    pub rendered: u8,
}

impl Record for AudioEffect {
    type Model = AudioEffect;

    open spec fn model(&self) -> AudioEffect {
        *self
    }

    /// An index byte, the effect's id and two flag bytes.
    open spec fn parse(s: Seq<u8>, at: int) -> Option<(AudioEffect, int)> {
        if fits(s, at, 7) {
            Some(
                (
                    AudioEffect {
                        index: s[at],
                        id: le_u32(s, at + 1) as u32,
                        use_share_sets: s[at + 5],
                        rendered: s[at + 6],
                    },
                    at + 7,
                ),
            )
        } else {
            None
        }
    }

    fn read(cur: &mut Cursor) -> (r: Option<AudioEffect>) {
        let index: u8 = cur.read_u8()?;
        let id: u32 = cur.read_u32_le()?;
        let use_share_sets: u8 = cur.read_u8()?;
        let rendered: u8 = cur.read_u8()?;
        Some(AudioEffect { index, id, use_share_sets, rendered })
    }

    fn replicate(&self) -> (r: AudioEffect) {
        *self
    }
}

/// A state and the settings that apply in it.
#[derive(Debug, Clone, Copy, PartialEq, Eq, Structural)]
pub struct AudioStateWithSettings {
    pub state_id: u32,
    pub settings_id: u32,
}

impl Record for AudioStateWithSettings {
    type Model = AudioStateWithSettings;

    open spec fn model(&self) -> AudioStateWithSettings {
        *self
    }

    /// Two ids.
    open spec fn parse(s: Seq<u8>, at: int) -> Option<(AudioStateWithSettings, int)> {
        if fits(s, at, 8) {
            Some(
                (
                    AudioStateWithSettings {
                        state_id: le_u32(s, at) as u32,
                        settings_id: le_u32(s, at + 4) as u32,
                    },
                    at + 8,
                ),
            )
        } else {
            None
        }
    }

    fn read(cur: &mut Cursor) -> (r: Option<AudioStateWithSettings>) {
        let state_id: u32 = cur.read_u32_le()?;
        let settings_id: u32 = cur.read_u32_le()?;
        Some(AudioStateWithSettings { state_id, settings_id })
    }

    fn replicate(&self) -> (r: AudioStateWithSettings) {
        *self
    }
}

/// A point of a parameter curve.
#[derive(Debug, Clone, Copy, PartialEq, Eq, Structural)]
pub struct RTPCPoint {
    /// The bits of a single-precision number.
    pub x: u32,
    /// The bits of a single-precision number.
    pub y: u32,
    pub following_shape: u8,
}

impl Record for RTPCPoint {
    type Model = RTPCPoint;

    open spec fn model(&self) -> RTPCPoint {
        *self
    }

    /// Two single-precision numbers, the shape of the segment that follows, and three bytes that
    /// are passed over.
    open spec fn parse(s: Seq<u8>, at: int) -> Option<(RTPCPoint, int)> {
        if fits(s, at, 12) {
            Some(
                (
                    RTPCPoint {
                        x: le_u32(s, at) as u32,
                        y: le_u32(s, at + 4) as u32,
                        following_shape: s[at + 8],
                    },
                    at + 12,
                ),
            )
        } else {
            None
        }
    }

    fn read(cur: &mut Cursor) -> (r: Option<RTPCPoint>) {
        let x: u32 = cur.read_u32_le()?;
        let y: u32 = cur.read_u32_le()?;
        let following_shape: u8 = cur.read_u8()?;
        cur.skip(3)?;
        Some(RTPCPoint { x, y, following_shape })
    }

    fn replicate(&self) -> (r: RTPCPoint) {
        *self
    }
}

/// The raw value of a parameter: four bytes whose reading depends on the
/// parameter's type.
#[derive(Debug, Clone, Copy, PartialEq, Eq)]
pub struct ParamValueType {
    pub value: [u8; 4],
}

impl Record for ParamValueType {
    type Model = Seq<u8>;

    open spec fn model(&self) -> Seq<u8> {
        self.value@
    }

    /// Four bytes.
    open spec fn parse(s: Seq<u8>, at: int) -> Option<(Seq<u8>, int)> {
        <[u8; 4] as Record>::parse(s, at)
    }

    fn read(cur: &mut Cursor) -> (r: Option<ParamValueType>) {
        let value: [u8; 4] = <[u8; 4] as Record>::read(cur)?;
        Some(ParamValueType { value })
    }

    fn replicate(&self) -> (r: ParamValueType) {
        ParamValueType { value: self.value }
    }
}

/// A state group and, for each of its states, the settings that apply.
#[derive(Debug, PartialEq, Eq)]
pub struct AudioStateGroup {
    pub id: u32,
    pub music_change_at: u8,
    pub states_with_settings: Vec<AudioStateWithSettings>,
}

/// The mathematical value of an [`AudioStateGroup`].
pub struct AudioStateGroupModel {
    pub id: u32,
    pub music_change_at: u8,
    pub states_with_settings: Seq<AudioStateWithSettings>,
}

impl Record for AudioStateGroup {
    type Model = AudioStateGroupModel;

    open spec fn model(&self) -> AudioStateGroupModel {
        AudioStateGroupModel {
            id: self.id,
            music_change_at: self.music_change_at,
            states_with_settings: self.states_with_settings@,
        }
    }

    /// The group's id, a byte, and a list of states behind a one-byte count.
    open spec fn parse(s: Seq<u8>, at: int) -> Option<(AudioStateGroupModel, int)> {
        if !fits(s, at, 5) {
            None
        } else {
            match parse_list_u8::<AudioStateWithSettings>(s, at + 5) {
                None => None,
                Some((states_with_settings, end)) => Some(
                    (
                        AudioStateGroupModel {
                            id: le_u32(s, at) as u32,
                            music_change_at: s[at + 4],
                            states_with_settings,
                        },
                        end,
                    ),
                ),
            }
        }
    }

    fn read(cur: &mut Cursor) -> (r: Option<AudioStateGroup>) {
        let id: u32 = cur.read_u32_le()?;
        let music_change_at: u8 = cur.read_u8()?;
        let states_with_settings = read_list_u8::<AudioStateWithSettings>(cur)?;
        assert(models(states_with_settings@) =~= states_with_settings@);
        Some(AudioStateGroup { id, music_change_at, states_with_settings })
    }

    fn replicate(&self) -> (r: AudioStateGroup) {
        AudioStateGroup {
            id: self.id,
            music_change_at: self.music_change_at,
            states_with_settings: replicate_plain(&self.states_with_settings),
        }
    }
}

impl Clone for AudioStateGroup {
    fn clone(&self) -> (r: Self)
        ensures
            r.model() == self.model(),
    {
        self.replicate()
    }
}

/// A game parameter that drives a property along a curve.
#[derive(Debug, PartialEq, Eq)]
pub struct RTPC {
    pub x: u32,
    pub is_midi: u8,
    pub is_general_settings: u8,
    pub param: u8,
    pub unk_id: u32,
    pub curve_scaling_type: u8,
    pub points: Vec<RTPCPoint>,
}

/// The mathematical value of an [`RTPC`].
pub struct RTPCModel {
    pub x: u32,
    pub is_midi: u8,
    pub is_general_settings: u8,
    pub param: u8,
    pub unk_id: u32,
    pub curve_scaling_type: u8,
    pub points: Seq<RTPCPoint>,
}

impl Record for RTPC {
    type Model = RTPCModel;

    open spec fn model(&self) -> RTPCModel {
        RTPCModel {
            x: self.x,
            is_midi: self.is_midi,
            is_general_settings: self.is_general_settings,
            param: self.param,
            unk_id: self.unk_id,
            curve_scaling_type: self.curve_scaling_type,
            points: self.points@,
        }
    }

    /// Twelve bytes of fixed fields, then the curve's points behind a
    /// two-byte count.
    open spec fn parse(s: Seq<u8>, at: int) -> Option<(RTPCModel, int)> {
        if !fits(s, at, 12) {
            None
        } else {
            match parse_list_u16::<RTPCPoint>(s, at + 12) {
                None => None,
                Some((points, end)) => Some(
                    (
                        RTPCModel {
                            x: le_u32(s, at) as u32,
                            is_midi: s[at + 4],
                            is_general_settings: s[at + 5],
                            param: s[at + 6],
                            unk_id: le_u32(s, at + 7) as u32,
                            curve_scaling_type: s[at + 11],
                            points,
                        },
                        end,
                    ),
                ),
            }
        }
    }

    fn read(cur: &mut Cursor) -> (r: Option<RTPC>) {
        let x: u32 = cur.read_u32_le()?;
        let is_midi: u8 = cur.read_u8()?;
        let is_general_settings: u8 = cur.read_u8()?;
        let param: u8 = cur.read_u8()?;
        let unk_id: u32 = cur.read_u32_le()?;
        let curve_scaling_type: u8 = cur.read_u8()?;
        let points = read_list_u16::<RTPCPoint>(cur)?;
        assert(models(points@) =~= points@);
        Some(RTPC { x, is_midi, is_general_settings, param, unk_id, curve_scaling_type, points })
    }

    fn replicate(&self) -> (r: RTPC) {
        RTPC {
            x: self.x,
            is_midi: self.is_midi,
            is_general_settings: self.is_general_settings,
            param: self.param,
            unk_id: self.unk_id,
            curve_scaling_type: self.curve_scaling_type,
            points: replicate_plain(&self.points),
        }
    }
}

impl Clone for RTPC {
    fn clone(&self) -> (r: Self)
        ensures
            r.model() == self.model(),
    {
        self.replicate()
    }
}

/// Positioning that the game drives. Where a value is a floating-point
/// number in the bank, the field holds its bits.
#[derive(Debug, PartialEq, Eq)]
pub struct GameDefinedPositioning {
    pub user_defined_play_settings: u8,
    pub transition_time: u32,
    /// Three single-precision coordinates and a duration.
    pub control_point_keys: Vec<(u32, u32, u32, u32)>,
    pub random_range_unknowns: Vec<(u32, u32)>,
    /// Three single-precision ranges.
    pub random_ranges: Vec<(u32, u32, u32)>,
}

/// The mathematical value of a [`GameDefinedPositioning`].
pub struct GameDefinedPositioningModel {
    pub user_defined_play_settings: u8,
    pub transition_time: u32,
    pub control_point_keys: Seq<(u32, u32, u32, u32)>,
    pub random_range_unknowns: Seq<(u32, u32)>,
    pub random_ranges: Seq<(u32, u32, u32)>,
}

impl GameDefinedPositioningModel {
    /// The value that stands where a bank holds no such block.
    pub open spec fn absent() -> GameDefinedPositioningModel {
        GameDefinedPositioningModel {
            user_defined_play_settings: 0,
            transition_time: 0,
            control_point_keys: Seq::empty(),
            random_range_unknowns: Seq::empty(),
            random_ranges: Seq::empty(),
        }
    }
}

/// Two parallel lists of random ranges behind one four-byte count.
pub open spec fn parse_random_ranges(s: Seq<u8>, at: int) -> Option<
    ((Seq<(u32, u32)>, Seq<(u32, u32, u32)>), int),
> {
    match parse_u32_le(s, at) {
        None => None,
        Some((count, at1)) => match parse_many::<(u32, u32)>(s, at1, count as nat) {
            None => None,
            Some((unknowns, at2)) => match parse_many::<(u32, u32, u32)>(s, at2, count as nat) {
                None => None,
                Some((ranges, at3)) => Some(((unknowns, ranges), at3)),
            },
        },
    }
}

impl Record for GameDefinedPositioning {
    type Model = GameDefinedPositioningModel;

    open spec fn model(&self) -> GameDefinedPositioningModel {
        GameDefinedPositioningModel {
            user_defined_play_settings: self.user_defined_play_settings,
            transition_time: self.transition_time,
            control_point_keys: self.control_point_keys@,
            random_range_unknowns: self.random_range_unknowns@,
            random_ranges: self.random_ranges@,
        }
    }

    /// A byte, a time, the control points behind a four-byte count, and the
    /// random ranges.
    open spec fn parse(s: Seq<u8>, at: int) -> Option<(GameDefinedPositioningModel, int)> {
        if !fits(s, at, 5) {
            None
        } else {
            match parse_list_u32::<(u32, u32, u32, u32)>(s, at + 5) {
                None => None,
                Some((control_point_keys, at1)) => match parse_random_ranges(s, at1) {
                    None => None,
                    Some((ranges, end)) => Some(
                        (
                            GameDefinedPositioningModel {
                                user_defined_play_settings: s[at],
                                transition_time: le_u32(s, at + 1) as u32,
                                control_point_keys,
                                random_range_unknowns: ranges.0,
                                random_ranges: ranges.1,
                            },
                            end,
                        ),
                    ),
                },
            }
        }
    }

    fn read(cur: &mut Cursor) -> (r: Option<GameDefinedPositioning>) {
        let user_defined_play_settings: u8 = cur.read_u8()?;
        let transition_time: u32 = cur.read_u32_le()?;
        let control_point_keys = read_list_u32::<(u32, u32, u32, u32)>(cur)?;
        let count: u32 = cur.read_u32_le()?;
        let random_range_unknowns = read_many::<(u32, u32)>(cur, count as u64)?;
        let random_ranges = read_many::<(u32, u32, u32)>(cur, count as u64)?;
        assert(models(control_point_keys@) =~= control_point_keys@);
        assert(models(random_range_unknowns@) =~= random_range_unknowns@);
        assert(models(random_ranges@) =~= random_ranges@);
        Some(
            GameDefinedPositioning {
                user_defined_play_settings,
                transition_time,
                control_point_keys,
                random_range_unknowns,
                random_ranges,
            },
        )
    }

    fn replicate(&self) -> (r: GameDefinedPositioning) {
        GameDefinedPositioning {
            user_defined_play_settings: self.user_defined_play_settings,
            transition_time: self.transition_time,
            control_point_keys: replicate_plain(&self.control_point_keys),
            random_range_unknowns: replicate_plain(&self.random_range_unknowns),
            random_ranges: replicate_plain(&self.random_ranges),
        }
    }
}

impl Clone for GameDefinedPositioning {
    fn clone(&self) -> (r: Self)
        ensures
            r.model() == self.model(),
    {
        self.replicate()
    }
}

impl Default for GameDefinedPositioning {
    fn default() -> (r: Self)
        ensures
            r.model() == GameDefinedPositioningModel::absent(),
    {
        GameDefinedPositioning {
            user_defined_play_settings: 0,
            transition_time: 0,
            control_point_keys: Vec::new(),
            random_range_unknowns: Vec::new(),
            random_ranges: Vec::new(),
        }
    }
}

/// Where an object sounds from.
#[derive(Debug, PartialEq, Eq)]
pub struct PositioningSettings {
    pub is_game_defined: u8,
    pub attenuation_id: u32,
    /// Present in the bank only where `is_game_defined` is zero.
    pub game_defined: GameDefinedPositioning,
}

/// The mathematical value of a [`PositioningSettings`].
pub struct PositioningSettingsModel {
    pub is_game_defined: u8,
    pub attenuation_id: u32,
    pub game_defined: GameDefinedPositioningModel,
}

impl PositioningSettingsModel {
    /// The value that stands where a bank holds no such block.
    pub open spec fn absent() -> PositioningSettingsModel {
        PositioningSettingsModel {
            is_game_defined: 0,
            attenuation_id: 0,
            game_defined: GameDefinedPositioningModel::absent(),
        }
    }
}

impl Record for PositioningSettings {
    type Model = PositioningSettingsModel;

    open spec fn model(&self) -> PositioningSettingsModel {
        PositioningSettingsModel {
            is_game_defined: self.is_game_defined,
            attenuation_id: self.attenuation_id,
            game_defined: self.game_defined.model(),
        }
    }

    /// A byte and an id; the game-defined block follows only where the byte
    /// is zero.
    open spec fn parse(s: Seq<u8>, at: int) -> Option<(PositioningSettingsModel, int)> {
        if !fits(s, at, 5) {
            None
        } else if s[at] == 0 {
            match GameDefinedPositioning::parse(s, at + 5) {
                None => None,
                Some((game_defined, end)) => Some(
                    (
                        PositioningSettingsModel {
                            is_game_defined: s[at],
                            attenuation_id: le_u32(s, at + 1) as u32,
                            game_defined,
                        },
                        end,
                    ),
                ),
            }
        } else {
            Some(
                (
                    PositioningSettingsModel {
                        is_game_defined: s[at],
                        attenuation_id: le_u32(s, at + 1) as u32,
                        game_defined: GameDefinedPositioningModel::absent(),
                    },
                    at + 5,
                ),
            )
        }
    }

    fn read(cur: &mut Cursor) -> (r: Option<PositioningSettings>) {
        let is_game_defined: u8 = cur.read_u8()?;
        let attenuation_id: u32 = cur.read_u32_le()?;
        let game_defined = if is_game_defined == 0 {
            GameDefinedPositioning::read(cur)?
        } else {
            GameDefinedPositioning::default()
        };
        Some(PositioningSettings { is_game_defined, attenuation_id, game_defined })
    }

    fn replicate(&self) -> (r: PositioningSettings) {
        PositioningSettings {
            is_game_defined: self.is_game_defined,
            attenuation_id: self.attenuation_id,
            game_defined: self.game_defined.replicate(),
        }
    }
}

impl Clone for PositioningSettings {
    fn clone(&self) -> (r: Self)
        ensures
            r.model() == self.model(),
    {
        self.replicate()
    }
}

impl Default for PositioningSettings {
    fn default() -> (r: Self)
        ensures
            r.model() == PositioningSettingsModel::absent(),
    {
        PositioningSettings {
            is_game_defined: 0,
            attenuation_id: 0,
            game_defined: GameDefinedPositioning::default(),
        }
    }
}

/// The properties that every playable object and container carries.
#[derive(Debug, PartialEq, Eq)]
pub struct AudioProperties {
    pub override_effects: u8,
    /// Present in the bank only where the object has effects.
    pub bypassed_effects: u8,
    pub effects: Vec<AudioEffect>,
    pub output_bus_id: u32,
    pub parent_id: u32,
    pub playback_behaviour: u8,
    pub param_types: Vec<u8>,
    pub param_values: Vec<ParamValueType>,
    pub param_pair_types: Vec<u8>,
    /// Pairs of single-precision numbers, each held as its bits.
    pub param_pairs: Vec<(u32, u32)>,
    pub positioning: PositioningBehaviour,
    /// Present in the bank only where the positioning flags ask for it.
    pub positioning_settings: PositioningSettings,
    pub aux_sends_behaviour: AuxSendsBehaviour,
    pub limit_behaviour: u8,
    pub virtual_voice_return: u8,
    pub limit_sound_instances_to: u16,
    pub virtual_voice: u8,
    pub hdr_settings: u8,
    /// Three-byte records whose meaning is not known; kept as they are.
    pub state_properties: Vec<[u8; 3]>,
    pub state_groups: Vec<AudioStateGroup>,
    pub rtpcs: Vec<RTPC>,
}

/// The mathematical value of an [`AudioProperties`].
pub struct AudioPropertiesModel {
    pub override_effects: u8,
    pub bypassed_effects: u8,
    pub effects: Seq<AudioEffect>,
    pub output_bus_id: u32,
    pub parent_id: u32,
    pub playback_behaviour: u8,
    pub param_types: Seq<u8>,
    pub param_values: Seq<Seq<u8>>,
    pub param_pair_types: Seq<u8>,
    pub param_pairs: Seq<(u32, u32)>,
    pub positioning: PositioningBehaviour,
    pub positioning_settings: PositioningSettingsModel,
    pub aux_sends_behaviour: AuxSendsBehaviour,
    pub limit_behaviour: u8,
    pub virtual_voice_return: u8,
    pub limit_sound_instances_to: u16,
    pub virtual_voice: u8,
    pub hdr_settings: u8,
    pub state_properties: Seq<Seq<u8>>,
    pub state_groups: Seq<AudioStateGroupModel>,
    pub rtpcs: Seq<RTPCModel>,
}

impl AudioPropertiesModel {
    /// The value of a properties block that was never read.
    pub open spec fn absent() -> AudioPropertiesModel {
        AudioPropertiesModel {
            override_effects: 0,
            bypassed_effects: 0,
            effects: Seq::empty(),
            output_bus_id: 0,
            parent_id: 0,
            playback_behaviour: 0,
            param_types: Seq::empty(),
            param_values: Seq::empty(),
            param_pair_types: Seq::empty(),
            param_pairs: Seq::empty(),
            positioning: PositioningBehaviour::of_byte(0),
            positioning_settings: PositioningSettingsModel::absent(),
            aux_sends_behaviour: AuxSendsBehaviour::of_byte(0),
            limit_behaviour: 0,
            virtual_voice_return: 0,
            limit_sound_instances_to: 0,
            virtual_voice: 0,
            hdr_settings: 0,
            state_properties: Seq::empty(),
            state_groups: Seq::empty(),
            rtpcs: Seq::empty(),
        }
    }
}

/// The effects of an object: the override flag, the effects behind a
/// one-byte count and, only where there is at least one effect, a byte that
/// says which of them are bypassed. The result is the flag, the effects and
/// the bypass byte, which is zero where the bank holds none.
pub open spec fn parse_effects(s: Seq<u8>, at: int) -> Option<((u8, Seq<AudioEffect>, u8), int)> {
    match parse_u8(s, at) {
        None => None,
        Some((override_effects, at1)) => match parse_list_u8::<AudioEffect>(s, at1) {
            None => None,
            Some((effects, at2)) => if effects.len() > 0 {
                match parse_u8(s, at2) {
                    None => None,
                    Some((bypassed, at3)) => Some(((override_effects, effects, bypassed), at3)),
                }
            } else {
                Some(((override_effects, effects, 0u8), at2))
            },
        },
    }
}

/// Where an object's output goes: three bytes that are passed over, the
/// output bus, the parent and the playback behaviour.
pub open spec fn parse_routing(s: Seq<u8>, at: int) -> Option<((u32, u32, u8), int)> {
    if fits(s, at, 12) {
        Some(((le_u32(s, at + 3) as u32, le_u32(s, at + 7) as u32, s[at + 11]), at + 12))
    } else {
        None
    }
}

/// The positioning of an object: the flag byte; one more byte, passed over,
/// only where the two-dimensional flag is set; and the settings block only
/// where the flags ask for an update at each frame or for a user-defined
/// loop. The conditions are those of the decoded flags.
pub open spec fn parse_positioning(s: Seq<u8>, at: int) -> Option<
    ((PositioningBehaviour, PositioningSettingsModel), int),
> {
    match parse_u8(s, at) {
        None => None,
        Some((b, at1)) => {
            let flags = PositioningBehaviour::of_byte(b);
            match parse_skip(s, at1, if flags.two_dimensional { 1int } else { 0int }) {
                None => None,
                Some(at2) => if flags.update_at_each_frame || flags.user_defined_should_loop {
                    match PositioningSettings::parse(s, at2) {
                        None => None,
                        Some((settings, at3)) => Some(((flags, settings), at3)),
                    }
                } else {
                    Some(((flags, PositioningSettingsModel::absent()), at2))
                },
            }
        },
    }
}

/// The fixed fields behind the positioning of an object.
pub struct VoiceLimits {
    pub aux_sends_behaviour: AuxSendsBehaviour,
    pub limit_behaviour: u8,
    pub virtual_voice_return: u8,
    pub limit_sound_instances_to: u16,
    pub virtual_voice: u8,
    pub hdr_settings: u8,
}

/// The auxiliary-send flags, four bytes that are passed over, and the
/// limiter and virtual-voice fields.
pub open spec fn parse_limits(s: Seq<u8>, at: int) -> Option<(VoiceLimits, int)> {
    if fits(s, at, 11) {
        Some(
            (
                VoiceLimits {
                    aux_sends_behaviour: AuxSendsBehaviour::of_byte(s[at]),
                    limit_behaviour: s[at + 5],
                    virtual_voice_return: s[at + 6],
                    limit_sound_instances_to: le_u16(s, at + 7) as u16,
                    virtual_voice: s[at + 9],
                    hdr_settings: s[at + 10],
                },
                at + 11,
            ),
        )
    } else {
        None
    }
}

/// The state properties and state groups, each behind a one-byte count, and
/// the parameter curves behind a two-byte count.
pub open spec fn parse_states(s: Seq<u8>, at: int) -> Option<
    ((Seq<Seq<u8>>, Seq<AudioStateGroupModel>, Seq<RTPCModel>), int),
> {
    match parse_list_u8::<[u8; 3]>(s, at) {
        None => None,
        Some((state_properties, at1)) => match parse_list_u8::<AudioStateGroup>(s, at1) {
            None => None,
            Some((state_groups, at2)) => match parse_list_u16::<RTPC>(s, at2) {
                None => None,
                Some((rtpcs, at3)) => Some(((state_properties, state_groups, rtpcs), at3)),
            },
        },
    }
}

fn read_effects(cur: &mut Cursor) -> (r: Option<(u8, Vec<AudioEffect>, u8)>)
    ensures
        final(cur).bytes() == old(cur).bytes(),
        match r {
            Some(v) => parse_effects(old(cur).bytes(), old(cur).offset()) == Some(
                ((v.0, v.1@, v.2), final(cur).offset()),
            ),
            None => parse_effects(old(cur).bytes(), old(cur).offset()) is None,
        },
{
    let override_effects: u8 = cur.read_u8()?;
    let effects = read_list_u8::<AudioEffect>(cur)?;
    assert(models(effects@) =~= effects@);
    let bypassed_effects: u8 = if effects.len() > 0 {
        cur.read_u8()?
    } else {
        0
    };
    Some((override_effects, effects, bypassed_effects))
}

fn read_routing(cur: &mut Cursor) -> (r: Option<(u32, u32, u8)>)
    ensures
        final(cur).bytes() == old(cur).bytes(),
        match r {
            Some(v) => parse_routing(old(cur).bytes(), old(cur).offset()) == Some(
                (v, final(cur).offset()),
            ),
            None => parse_routing(old(cur).bytes(), old(cur).offset()) is None,
        },
{
    cur.skip(3)?;
    let output_bus_id: u32 = cur.read_u32_le()?;
    let parent_id: u32 = cur.read_u32_le()?;
    let playback_behaviour: u8 = cur.read_u8()?;
    Some((output_bus_id, parent_id, playback_behaviour))
}

fn read_positioning(cur: &mut Cursor) -> (r: Option<(PositioningBehaviour, PositioningSettings)>)
    ensures
        final(cur).bytes() == old(cur).bytes(),
        match r {
            Some(v) => parse_positioning(old(cur).bytes(), old(cur).offset()) == Some(
                ((v.0, v.1.model()), final(cur).offset()),
            ),
            None => parse_positioning(old(cur).bytes(), old(cur).offset()) is None,
        },
{
    let flags: u8 = cur.read_u8()?;
    let positioning = PositioningBehaviour::from_bytes([flags]);
    if positioning.two_dimensional {
        cur.skip(1)?;
    } else {
        cur.skip(0)?;
    }
    let positioning_settings = if positioning.update_at_each_frame
        || positioning.user_defined_should_loop {
        PositioningSettings::read(cur)?
    } else {
        PositioningSettings::default()
    };
    Some((positioning, positioning_settings))
}

fn read_limits(cur: &mut Cursor) -> (r: Option<VoiceLimits>)
    ensures
        final(cur).bytes() == old(cur).bytes(),
        match r {
            Some(v) => parse_limits(old(cur).bytes(), old(cur).offset()) == Some(
                (v, final(cur).offset()),
            ),
            None => parse_limits(old(cur).bytes(), old(cur).offset()) is None,
        },
{
    let aux: u8 = cur.read_u8()?;
    let aux_sends_behaviour = AuxSendsBehaviour::from_bytes([aux]);
    cur.skip(4)?;
    let limit_behaviour: u8 = cur.read_u8()?;
    let virtual_voice_return: u8 = cur.read_u8()?;
    let limit_sound_instances_to: u16 = cur.read_u16_le()?;
    let virtual_voice: u8 = cur.read_u8()?;
    let hdr_settings: u8 = cur.read_u8()?;
    Some(
        VoiceLimits {
            aux_sends_behaviour,
            limit_behaviour,
            virtual_voice_return,
            limit_sound_instances_to,
            virtual_voice,
            hdr_settings,
        },
    )
}

fn read_states(cur: &mut Cursor) -> (r: Option<(Vec<[u8; 3]>, Vec<AudioStateGroup>, Vec<RTPC>)>)
    ensures
        final(cur).bytes() == old(cur).bytes(),
        match r {
            Some(v) => parse_states(old(cur).bytes(), old(cur).offset()) == Some(
                ((models(v.0@), models(v.1@), models(v.2@)), final(cur).offset()),
            ),
            None => parse_states(old(cur).bytes(), old(cur).offset()) is None,
        },
{
    let state_properties = read_list_u8::<[u8; 3]>(cur)?;
    let state_groups = read_list_u8::<AudioStateGroup>(cur)?;
    let rtpcs = read_list_u16::<RTPC>(cur)?;
    Some((state_properties, state_groups, rtpcs))
}

impl Record for AudioProperties {
    type Model = AudioPropertiesModel;

    open spec fn model(&self) -> AudioPropertiesModel {
        AudioPropertiesModel {
            override_effects: self.override_effects,
            bypassed_effects: self.bypassed_effects,
            effects: self.effects@,
            output_bus_id: self.output_bus_id,
            parent_id: self.parent_id,
            playback_behaviour: self.playback_behaviour,
            param_types: self.param_types@,
            param_values: models(self.param_values@),
            param_pair_types: self.param_pair_types@,
            param_pairs: self.param_pairs@,
            positioning: self.positioning,
            positioning_settings: self.positioning_settings.model(),
            aux_sends_behaviour: self.aux_sends_behaviour,
            limit_behaviour: self.limit_behaviour,
            virtual_voice_return: self.virtual_voice_return,
            limit_sound_instances_to: self.limit_sound_instances_to,
            virtual_voice: self.virtual_voice,
            hdr_settings: self.hdr_settings,
            state_properties: models(self.state_properties@),
            state_groups: models(self.state_groups@),
            rtpcs: models(self.rtpcs@),
        }
    }

    /// In this order: the effects, the routing, the typed parameters, the
    /// typed parameter pairs, the positioning, the limits, and the states
    /// with the parameter curves.
    open spec fn parse(s: Seq<u8>, at: int) -> Option<(AudioPropertiesModel, int)> {
        match parse_effects(s, at) {
            None => None,
            Some((fx, at1)) => match parse_routing(s, at1) {
                None => None,
                Some((routing, at2)) => match parse_typed_list::<ParamValueType>(s, at2) {
                    None => None,
                    Some((params, at3)) => match parse_typed_list::<(u32, u32)>(s, at3) {
                        None => None,
                        Some((pairs, at4)) => match parse_positioning(s, at4) {
                            None => None,
                            Some((pos, at5)) => match parse_limits(s, at5) {
                                None => None,
                                Some((limits, at6)) => match parse_states(s, at6) {
                                    None => None,
                                    Some((states, at7)) => Some(
                                        (
                                            AudioPropertiesModel {
                                                override_effects: fx.0,
                                                bypassed_effects: fx.2,
                                                effects: fx.1,
                                                output_bus_id: routing.0,
                                                parent_id: routing.1,
                                                playback_behaviour: routing.2,
                                                param_types: params.0,
                                                param_values: params.1,
                                                param_pair_types: pairs.0,
                                                param_pairs: pairs.1,
                                                positioning: pos.0,
                                                positioning_settings: pos.1,
                                                aux_sends_behaviour: limits.aux_sends_behaviour,
                                                limit_behaviour: limits.limit_behaviour,
                                                virtual_voice_return: limits.virtual_voice_return,
                                                limit_sound_instances_to:
                                                    limits.limit_sound_instances_to,
                                                virtual_voice: limits.virtual_voice,
                                                hdr_settings: limits.hdr_settings,
                                                state_properties: states.0,
                                                state_groups: states.1,
                                                rtpcs: states.2,
                                            },
                                            at7,
                                        ),
                                    ),
                                },
                            },
                        },
                    },
                },
            },
        }
    }

    fn read(cur: &mut Cursor) -> (r: Option<AudioProperties>) {
        let (override_effects, effects, bypassed_effects) = read_effects(cur)?;
        let (output_bus_id, parent_id, playback_behaviour) = read_routing(cur)?;
        let (param_types, param_values) = read_typed_list::<ParamValueType>(cur)?;
        let (param_pair_types, param_pairs) = read_typed_list::<(u32, u32)>(cur)?;
        assert(models(param_pairs@) =~= param_pairs@);
        let (positioning, positioning_settings) = read_positioning(cur)?;
        let limits = read_limits(cur)?;
        let (state_properties, state_groups, rtpcs) = read_states(cur)?;
        Some(
            AudioProperties {
                override_effects,
                bypassed_effects,
                effects,
                output_bus_id,
                parent_id,
                playback_behaviour,
                param_types,
                param_values,
                param_pair_types,
                param_pairs,
                positioning,
                positioning_settings,
                aux_sends_behaviour: limits.aux_sends_behaviour,
                limit_behaviour: limits.limit_behaviour,
                virtual_voice_return: limits.virtual_voice_return,
                limit_sound_instances_to: limits.limit_sound_instances_to,
                virtual_voice: limits.virtual_voice,
                hdr_settings: limits.hdr_settings,
                state_properties,
                state_groups,
                rtpcs,
            },
        )
    }

    fn replicate(&self) -> (r: AudioProperties) {
        AudioProperties {
            override_effects: self.override_effects,
            bypassed_effects: self.bypassed_effects,
            effects: replicate_plain(&self.effects),
            output_bus_id: self.output_bus_id,
            parent_id: self.parent_id,
            playback_behaviour: self.playback_behaviour,
            param_types: replicate_plain(&self.param_types),
            param_values: replicate_all(&self.param_values),
            param_pair_types: replicate_plain(&self.param_pair_types),
            param_pairs: replicate_plain(&self.param_pairs),
            positioning: self.positioning,
            positioning_settings: self.positioning_settings.replicate(),
            aux_sends_behaviour: self.aux_sends_behaviour,
            limit_behaviour: self.limit_behaviour,
            virtual_voice_return: self.virtual_voice_return,
            limit_sound_instances_to: self.limit_sound_instances_to,
            virtual_voice: self.virtual_voice,
            hdr_settings: self.hdr_settings,
            state_properties: replicate_all(&self.state_properties),
            state_groups: replicate_all(&self.state_groups),
            rtpcs: replicate_all(&self.rtpcs),
        }
    }
}

impl Clone for AudioProperties {
    fn clone(&self) -> (r: Self)
        ensures
            r.model() == self.model(),
    {
        self.replicate()
    }
}

impl Default for AudioProperties {
    fn default() -> (r: Self)
        ensures
            r.model() == AudioPropertiesModel::absent(),
    {
        let r = AudioProperties {
            override_effects: 0,
            bypassed_effects: 0,
            effects: Vec::new(),
            output_bus_id: 0,
            parent_id: 0,
            playback_behaviour: 0,
            param_types: Vec::new(),
            param_values: Vec::new(),
            param_pair_types: Vec::new(),
            param_pairs: Vec::new(),
            positioning: PositioningBehaviour::from_bytes([0]),
            positioning_settings: PositioningSettings::default(),
            aux_sends_behaviour: AuxSendsBehaviour::from_bytes([0]),
            limit_behaviour: 0,
            virtual_voice_return: 0,
            limit_sound_instances_to: 0,
            virtual_voice: 0,
            hdr_settings: 0,
            state_properties: Vec::new(),
            state_groups: Vec::new(),
            rtpcs: Vec::new(),
        };
        assert(r.model().param_values =~= Seq::empty());
        assert(r.model().state_properties =~= Seq::empty());
        assert(r.model().state_groups =~= Seq::empty());
        assert(r.model().rtpcs =~= Seq::empty());
        r
    }
}

} // verus!
