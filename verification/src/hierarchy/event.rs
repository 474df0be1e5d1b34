//! Events and the actions they trigger.

use crate::cursor::{fits, le_u32, parse_u32_le, parse_u8, Cursor};
use crate::decode::{
    models, parse_list_u8, parse_typed_list, read_list_u8, read_typed_list, replicate_plain, Record,
};
use vstd::prelude::*;

verus! {

/// What an action does. The codes run from 0x00 to 0x16 and from 0x19 to
/// 0x22; 0x17 and 0x18 name nothing.
#[derive(Debug, Clone, Copy, PartialEq, Eq, Structural)]
pub enum EventActionType {
    NoAction,
    Stop,
    Pause,
    Resume,
    Play,
    Trigger,
    Mute,
    UnMute,
    SetVoicePitch,
    ResetVoicePitch,
    SetVoiceVolume,
    ResetVoiceVolume,
    SetBusVolume,
    ResetBusVolume,
    SetVoiceLowPassFilter,
    ResetVoiceLowPassFilter,
    EnableState,
    DisableState,
    SetState,
    SetGameParameter,
    ResetGameParameter,
    Unk15,
    Unk16,
    SetSwitch,
    ToggleBypass,
    ResetBypassEffect,
    Break,
    Unk1d,
    Seek,
    Unk1f,
    Unk20,
    Unk21,
    Unk22,
}

impl EventActionType {
    /// The code that stands for this action type in a bank.
    pub open spec fn code(self) -> u8 {
        match self {
            EventActionType::NoAction => 0x00,
            EventActionType::Stop => 0x01,
            EventActionType::Pause => 0x02,
            EventActionType::Resume => 0x03,
            EventActionType::Play => 0x04,
            EventActionType::Trigger => 0x05,
            EventActionType::Mute => 0x06,
            EventActionType::UnMute => 0x07,
            EventActionType::SetVoicePitch => 0x08,
            EventActionType::ResetVoicePitch => 0x09,
            EventActionType::SetVoiceVolume => 0x0a,
            EventActionType::ResetVoiceVolume => 0x0b,
            EventActionType::SetBusVolume => 0x0c,
            EventActionType::ResetBusVolume => 0x0d,
            EventActionType::SetVoiceLowPassFilter => 0x0e,
            EventActionType::ResetVoiceLowPassFilter => 0x0f,
            EventActionType::EnableState => 0x10,
            EventActionType::DisableState => 0x11,
            EventActionType::SetState => 0x12,
            EventActionType::SetGameParameter => 0x13,
            EventActionType::ResetGameParameter => 0x14,
            EventActionType::Unk15 => 0x15,
            EventActionType::Unk16 => 0x16,
            EventActionType::SetSwitch => 0x19,
            EventActionType::ToggleBypass => 0x1a,
            EventActionType::ResetBypassEffect => 0x1b,
            EventActionType::Break => 0x1c,
            EventActionType::Unk1d => 0x1d,
            EventActionType::Seek => 0x1e,
            EventActionType::Unk1f => 0x1f,
            EventActionType::Unk20 => 0x20,
            EventActionType::Unk21 => 0x21,
            EventActionType::Unk22 => 0x22,
        }
    }

    /// Whether a code names an action type.
    pub open spec fn is_code(b: u8) -> bool {
        b <= 0x16 || (0x19 <= b && b <= 0x22)
    }

    /// The action type that a code names.
    pub open spec fn of_code(b: u8) -> Option<EventActionType> {
        match b {
            0x00 => Some(EventActionType::NoAction),
            0x01 => Some(EventActionType::Stop),
            0x02 => Some(EventActionType::Pause),
            0x03 => Some(EventActionType::Resume),
            0x04 => Some(EventActionType::Play),
            0x05 => Some(EventActionType::Trigger),
            0x06 => Some(EventActionType::Mute),
            0x07 => Some(EventActionType::UnMute),
            0x08 => Some(EventActionType::SetVoicePitch),
            0x09 => Some(EventActionType::ResetVoicePitch),
            0x0a => Some(EventActionType::SetVoiceVolume),
            0x0b => Some(EventActionType::ResetVoiceVolume),
            0x0c => Some(EventActionType::SetBusVolume),
            0x0d => Some(EventActionType::ResetBusVolume),
            0x0e => Some(EventActionType::SetVoiceLowPassFilter),
            0x0f => Some(EventActionType::ResetVoiceLowPassFilter),
            0x10 => Some(EventActionType::EnableState),
            0x11 => Some(EventActionType::DisableState),
            0x12 => Some(EventActionType::SetState),
            0x13 => Some(EventActionType::SetGameParameter),
            0x14 => Some(EventActionType::ResetGameParameter),
            0x15 => Some(EventActionType::Unk15),
            0x16 => Some(EventActionType::Unk16),
            0x19 => Some(EventActionType::SetSwitch),
            0x1a => Some(EventActionType::ToggleBypass),
            0x1b => Some(EventActionType::ResetBypassEffect),
            0x1c => Some(EventActionType::Break),
            0x1d => Some(EventActionType::Unk1d),
            0x1e => Some(EventActionType::Seek),
            0x1f => Some(EventActionType::Unk1f),
            0x20 => Some(EventActionType::Unk20),
            0x21 => Some(EventActionType::Unk21),
            0x22 => Some(EventActionType::Unk22),
            _ => None,
        }
    }

    /// Records an action type; a code in the gap or beyond the last one is
    /// refused.
    pub fn from_code(b: u8) -> (r: Option<EventActionType>)
        ensures
            r == Self::of_code(b),
            match r {
                Some(t) => t.code() == b,
                None => !Self::is_code(b),
            },
    {
        let t = match b {
            0x00 => EventActionType::NoAction,
            0x01 => EventActionType::Stop,
            0x02 => EventActionType::Pause,
            0x03 => EventActionType::Resume,
            0x04 => EventActionType::Play,
            0x05 => EventActionType::Trigger,
            0x06 => EventActionType::Mute,
            0x07 => EventActionType::UnMute,
            0x08 => EventActionType::SetVoicePitch,
            0x09 => EventActionType::ResetVoicePitch,
            0x0a => EventActionType::SetVoiceVolume,
            0x0b => EventActionType::ResetVoiceVolume,
            0x0c => EventActionType::SetBusVolume,
            0x0d => EventActionType::ResetBusVolume,
            0x0e => EventActionType::SetVoiceLowPassFilter,
            0x0f => EventActionType::ResetVoiceLowPassFilter,
            0x10 => EventActionType::EnableState,
            0x11 => EventActionType::DisableState,
            0x12 => EventActionType::SetState,
            0x13 => EventActionType::SetGameParameter,
            0x14 => EventActionType::ResetGameParameter,
            0x15 => EventActionType::Unk15,
            0x16 => EventActionType::Unk16,
            0x19 => EventActionType::SetSwitch,
            0x1a => EventActionType::ToggleBypass,
            0x1b => EventActionType::ResetBypassEffect,
            0x1c => EventActionType::Break,
            0x1d => EventActionType::Unk1d,
            0x1e => EventActionType::Seek,
            0x1f => EventActionType::Unk1f,
            0x20 => EventActionType::Unk20,
            0x21 => EventActionType::Unk21,
            0x22 => EventActionType::Unk22,
            _ => {
                return None;
            },
        };
        Some(t)
    }

    /// The code of an action type, as stored in a bank.
    pub fn to_code(&self) -> (b: u8)
        ensures
            b == self.code(),
            Self::of_code(b) == Some(*self),
    {
        match self {
            EventActionType::NoAction => 0x00,
            EventActionType::Stop => 0x01,
            EventActionType::Pause => 0x02,
            EventActionType::Resume => 0x03,
            EventActionType::Play => 0x04,
            EventActionType::Trigger => 0x05,
            EventActionType::Mute => 0x06,
            EventActionType::UnMute => 0x07,
            EventActionType::SetVoicePitch => 0x08,
            EventActionType::ResetVoicePitch => 0x09,
            EventActionType::SetVoiceVolume => 0x0a,
            EventActionType::ResetVoiceVolume => 0x0b,
            EventActionType::SetBusVolume => 0x0c,
            EventActionType::ResetBusVolume => 0x0d,
            EventActionType::SetVoiceLowPassFilter => 0x0e,
            EventActionType::ResetVoiceLowPassFilter => 0x0f,
            EventActionType::EnableState => 0x10,
            EventActionType::DisableState => 0x11,
            EventActionType::SetState => 0x12,
            EventActionType::SetGameParameter => 0x13,
            EventActionType::ResetGameParameter => 0x14,
            EventActionType::Unk15 => 0x15,
            EventActionType::Unk16 => 0x16,
            EventActionType::SetSwitch => 0x19,
            EventActionType::ToggleBypass => 0x1a,
            EventActionType::ResetBypassEffect => 0x1b,
            EventActionType::Break => 0x1c,
            EventActionType::Unk1d => 0x1d,
            EventActionType::Seek => 0x1e,
            EventActionType::Unk1f => 0x1f,
            EventActionType::Unk20 => 0x20,
            EventActionType::Unk21 => 0x21,
            EventActionType::Unk22 => 0x22,
        }
    }

    /// Codes and action types correspond one to one: a code names a type
    /// exactly when it lies outside the gap, and that type has this code.
    pub proof fn lemma_codes_correspond(t: EventActionType, b: u8)
        ensures
            Self::of_code(t.code()) == Some(t),
            Self::of_code(b) is Some <==> Self::is_code(b),
            Self::of_code(b) == Some(t) <==> t.code() == b,
    {
    }

    /// Whether an action of this type carries a settings payload.
    pub open spec fn carries_settings(self) -> bool {
        self == EventActionType::Stop || self == EventActionType::Pause || self
            == EventActionType::Resume || self == EventActionType::Play || self
            == EventActionType::Seek
    }

    /// Whether an action of this type carries a settings payload: only the
    /// stop, pause, resume, play and seek actions do.
    pub fn has_settings(&self) -> (r: bool)
        ensures
            r == self.carries_settings(),
    {
        matches!(
            self,
            EventActionType::Stop | EventActionType::Pause | EventActionType::Resume
                | EventActionType::Play | EventActionType::Seek
        )
    }
}

impl Default for EventActionType {
    fn default() -> (r: Self)
        ensures
            r == EventActionType::NoAction,
    {
        EventActionType::NoAction
    }
}

/// An event: an id and the actions it triggers, in order.
#[derive(Debug, PartialEq, Eq)]
pub struct Event {
    pub id: u32,
    pub action_ids: Vec<u32>,
}

/// The mathematical value of an [`Event`].
pub struct EventModel {
    pub id: u32,
    pub action_ids: Seq<u32>,
}

impl Record for Event {
    type Model = EventModel;

    open spec fn model(&self) -> EventModel {
        EventModel { id: self.id, action_ids: self.action_ids@ }
    }

    /// An id, a one-byte count, and that many action ids.
    open spec fn parse(s: Seq<u8>, at: int) -> Option<(EventModel, int)> {
        match parse_u32_le(s, at) {
            None => None,
            Some((id, at1)) => match parse_list_u8::<u32>(s, at1) {
                None => None,
                Some((action_ids, at2)) => Some((EventModel { id, action_ids }, at2)),
            },
        }
    }

    fn read(cur: &mut Cursor) -> (r: Option<Event>) {
        let id: u32 = cur.read_u32_le()?;
        let action_ids: Vec<u32> = read_list_u8::<u32>(cur)?;
        assert(models(action_ids@) =~= action_ids@);
        Some(Event { id, action_ids })
    }

    fn replicate(&self) -> (r: Event) {
        Event { id: self.id, action_ids: replicate_plain(&self.action_ids) }
    }
}

impl Clone for Event {
    fn clone(&self) -> (r: Self)
        ensures
            r.model() == self.model(),
    {
        self.replicate()
    }
}

impl EventModel {
    /// The event without id and without actions.
    pub open spec fn absent() -> EventModel {
        EventModel { id: 0, action_ids: Seq::empty() }
    }
}

impl Default for Event {
    fn default() -> (r: Self)
        ensures
            r.model() == EventModel::absent(),
    {
        Event { id: 0, action_ids: Vec::new() }
    }
}

/// The objects that a stop, pause or resume action leaves alone.
#[derive(Debug, PartialEq, Eq)]
pub struct EventActionExceptions {
    pub exceptions: Vec<(u32, u8)>,
}

impl Record for EventActionExceptions {
    type Model = Seq<(u32, u8)>;

    open spec fn model(&self) -> Seq<(u32, u8)> {
        self.exceptions@
    }

    /// A one-byte count, and that many pairs of an id and a byte.
    open spec fn parse(s: Seq<u8>, at: int) -> Option<(Seq<(u32, u8)>, int)> {
        parse_list_u8::<(u32, u8)>(s, at)
    }

    fn read(cur: &mut Cursor) -> (r: Option<EventActionExceptions>) {
        let exceptions: Vec<(u32, u8)> = read_list_u8::<(u32, u8)>(cur)?;
        assert(models(exceptions@) =~= exceptions@);
        Some(EventActionExceptions { exceptions })
    }

    fn replicate(&self) -> (r: EventActionExceptions) {
        EventActionExceptions { exceptions: replicate_plain(&self.exceptions) }
    }
}

impl Clone for EventActionExceptions {
    fn clone(&self) -> (r: Self)
        ensures
            r.model() == self.model(),
    {
        self.replicate()
    }
}

impl Default for EventActionExceptions {
    fn default() -> (r: Self)
        ensures
            r.exceptions@.len() == 0,
    {
        EventActionExceptions { exceptions: Vec::new() }
    }
}

/// The settings of an action. Which variant an action carries is decided by
/// its type, not by anything stored with the settings themselves. Where a
/// value is a floating-point number in the bank, the field holds its bits.
#[derive(Debug, PartialEq, Eq)]
pub enum EventActionSettings {
    /// No settings: the action's type carries none.
    Empty,
    Stop((u8, u8, EventActionExceptions)),
    Pause((u8, u8, EventActionExceptions)),
    Resume((u8, u8, EventActionExceptions)),
    Play((u8, u32)),
    /// The second value holds the bits of a single-precision number.
    Seek((u8, u32, u32, u32, u8)),
}

/// The mathematical value of an [`EventActionSettings`].
pub enum EventActionSettingsModel {
    Empty,
    Stop((u8, u8, Seq<(u32, u8)>)),
    Pause((u8, u8, Seq<(u32, u8)>)),
    Resume((u8, u8, Seq<(u32, u8)>)),
    Play((u8, u32)),
    Seek((u8, u32, u32, u32, u8)),
}

/// The payload that the stop, pause and resume settings share: two bytes and
/// a list of exceptions.
pub open spec fn parse_halt_settings(s: Seq<u8>, at: int) -> Option<
    ((u8, u8, Seq<(u32, u8)>), int),
> {
    match parse_u8(s, at) {
        None => None,
        Some((a, at1)) => match parse_u8(s, at1) {
            None => None,
            Some((b, at2)) => match EventActionExceptions::parse(s, at2) {
                None => None,
                Some((exceptions, at3)) => Some(((a, b, exceptions), at3)),
            },
        },
    }
}

/// The payload of a play action: a byte and a 32-bit value.
pub open spec fn parse_play_settings(s: Seq<u8>, at: int) -> Option<((u8, u32), int)> {
    match parse_u8(s, at) {
        None => None,
        Some((a, at1)) => match parse_u32_le(s, at1) {
            None => None,
            Some((b, at2)) => Some(((a, b), at2)),
        },
    }
}

/// The payload of a seek action: a byte, a single-precision number, two
/// 32-bit values and a byte.
pub open spec fn parse_seek_settings(s: Seq<u8>, at: int) -> Option<
    ((u8, u32, u32, u32, u8), int),
> {
    match parse_u8(s, at) {
        None => None,
        Some((a, at1)) => match parse_u32_le(s, at1) {
            None => None,
            Some((b, at2)) => match parse_u32_le(s, at2) {
                None => None,
                Some((c, at3)) => match parse_u32_le(s, at3) {
                    None => None,
                    Some((d, at4)) => match parse_u8(s, at4) {
                        None => None,
                        Some((e, at5)) => Some(((a, b, c, d, e), at5)),
                    },
                },
            },
        }
    }
}

/// The settings that the bytes at `at` spell for an action of type `kind`.
/// A type that carries no settings takes no bytes.
pub open spec fn parse_settings(s: Seq<u8>, at: int, kind: EventActionType) -> Option<
    (EventActionSettingsModel, int),
> {
    match kind {
        EventActionType::Stop => match parse_halt_settings(s, at) {
            None => None,
            Some((v, end)) => Some((EventActionSettingsModel::Stop(v), end)),
        },
        EventActionType::Pause => match parse_halt_settings(s, at) {
            None => None,
            Some((v, end)) => Some((EventActionSettingsModel::Pause(v), end)),
        },
        EventActionType::Resume => match parse_halt_settings(s, at) {
            None => None,
            Some((v, end)) => Some((EventActionSettingsModel::Resume(v), end)),
        },
        EventActionType::Play => match parse_play_settings(s, at) {
            None => None,
            Some((v, end)) => Some((EventActionSettingsModel::Play(v), end)),
        },
        EventActionType::Seek => match parse_seek_settings(s, at) {
            None => None,
            Some((v, end)) => Some((EventActionSettingsModel::Seek(v), end)),
        },
        _ => Some((EventActionSettingsModel::Empty, at)),
    }
}

impl EventActionSettings {
    pub open spec fn model(&self) -> EventActionSettingsModel {
        match self {
            EventActionSettings::Empty => EventActionSettingsModel::Empty,
            EventActionSettings::Stop(v) => EventActionSettingsModel::Stop((v.0, v.1, v.2.model())),
            EventActionSettings::Pause(v) => EventActionSettingsModel::Pause(
                (v.0, v.1, v.2.model()),
            ),
            EventActionSettings::Resume(v) => EventActionSettingsModel::Resume(
                (v.0, v.1, v.2.model()),
            ),
            EventActionSettings::Play(v) => EventActionSettingsModel::Play(*v),
            EventActionSettings::Seek(v) => EventActionSettingsModel::Seek(*v),
        }
    }

    fn read_halt(cur: &mut Cursor) -> (r: Option<(u8, u8, EventActionExceptions)>)
        ensures
            final(cur).bytes() == old(cur).bytes(),
            match r {
                Some(v) => parse_halt_settings(old(cur).bytes(), old(cur).offset()) == Some(
                    ((v.0, v.1, v.2.model()), final(cur).offset()),
                ),
                None => parse_halt_settings(old(cur).bytes(), old(cur).offset()) is None,
            },
    {
        let a: u8 = cur.read_u8()?;
        let b: u8 = cur.read_u8()?;
        let exceptions = EventActionExceptions::read(cur)?;
        Some((a, b, exceptions))
    }

    /// Records the settings of an action whose type is `kind`.
    ///
    /// For a type that carries no settings this reads nothing, leaves the
    /// cursor where it is and yields the empty variant.
    pub fn read(cur: &mut Cursor, kind: EventActionType) -> (r: Option<EventActionSettings>)
        ensures
            final(cur).bytes() == old(cur).bytes(),
            match r {
                Some(v) => parse_settings(old(cur).bytes(), old(cur).offset(), kind) == Some(
                    (v.model(), final(cur).offset()),
                ),
                None => parse_settings(old(cur).bytes(), old(cur).offset(), kind) is None,
            },
            !kind.carries_settings() ==> r is Some && r->0 is Empty && final(cur).offset() == old(cur).offset(),
    {
        match kind {
            EventActionType::Stop => {
                let v = Self::read_halt(cur)?;
                Some(EventActionSettings::Stop(v))
            },
            EventActionType::Pause => {
                let v = Self::read_halt(cur)?;
                Some(EventActionSettings::Pause(v))
            },
            EventActionType::Resume => {
                let v = Self::read_halt(cur)?;
                Some(EventActionSettings::Resume(v))
            },
            EventActionType::Play => {
                let a: u8 = cur.read_u8()?;
                let b: u32 = cur.read_u32_le()?;
                Some(EventActionSettings::Play((a, b)))
            },
            EventActionType::Seek => {
                let a: u8 = cur.read_u8()?;
                let b: u32 = cur.read_u32_le()?;
                let c: u32 = cur.read_u32_le()?;
                let d: u32 = cur.read_u32_le()?;
                let e: u8 = cur.read_u8()?;
                Some(EventActionSettings::Seek((a, b, c, d, e)))
            },
            _ => Some(EventActionSettings::Empty),
        }
    }
}

impl Clone for EventActionSettings {
    fn clone(&self) -> (r: Self)
        ensures
            r.model() == self.model(),
    {
        match self {
            EventActionSettings::Empty => EventActionSettings::Empty,
            EventActionSettings::Stop(v) => EventActionSettings::Stop((v.0, v.1, v.2.replicate())),
            EventActionSettings::Pause(v) => EventActionSettings::Pause(
                (v.0, v.1, v.2.replicate()),
            ),
            EventActionSettings::Resume(v) => EventActionSettings::Resume(
                (v.0, v.1, v.2.replicate()),
            ),
            EventActionSettings::Play(v) => EventActionSettings::Play(*v),
            EventActionSettings::Seek(v) => EventActionSettings::Seek(*v),
        }
    }
}

impl Default for EventActionSettings {
    fn default() -> (r: Self)
        ensures
            r is Empty,
    {
        EventActionSettings::Empty
    }
}

/// An action: what is done, to which object, with which parameters.
#[derive(Debug, PartialEq, Eq)]
pub struct EventAction {
    pub id: u32,
    pub scope: u8,
    pub action_type: EventActionType,
    pub object_id: u32,
    pub object_id_2: u8,
    pub param_types: Vec<u8>,
    pub param_values: Vec<u32>,
    pub param_pair_types: Vec<u8>,
    /// Pairs of single-precision numbers, each held as its bits.
    pub param_pair_values: Vec<(u32, u32)>,
    pub settings: EventActionSettings,
}

/// The mathematical value of an [`EventAction`].
pub struct EventActionModel {
    pub id: u32,
    pub scope: u8,
    pub action_type: EventActionType,
    pub object_id: u32,
    pub object_id_2: u8,
    pub param_types: Seq<u8>,
    pub param_values: Seq<u32>,
    pub param_pair_types: Seq<u8>,
    pub param_pair_values: Seq<(u32, u32)>,
    pub settings: EventActionSettingsModel,
}

/// The fixed fields that open an action.
pub struct EventActionHead {
    pub id: u32,
    pub scope: u8,
    pub action_type: EventActionType,
    pub object_id: u32,
    pub object_id_2: u8,
}

/// The fixed fields of an action: id, scope, type code, object id and a
/// second object id byte. A type code that names no action type is refused.
pub open spec fn parse_action_head(s: Seq<u8>, at: int) -> Option<(EventActionHead, int)> {
    if !fits(s, at, 11) {
        None
    } else {
        match EventActionType::of_code(s[at + 5]) {
            None => None,
            Some(action_type) => Some(
                (
                    EventActionHead {
                        id: le_u32(s, at) as u32,
                        scope: s[at + 4],
                        action_type,
                        object_id: le_u32(s, at + 6) as u32,
                        object_id_2: s[at + 10],
                    },
                    at + 11,
                ),
            ),
        }
    }
}

impl Record for EventAction {
    type Model = EventActionModel;

    open spec fn model(&self) -> EventActionModel {
        EventActionModel {
            id: self.id,
            scope: self.scope,
            action_type: self.action_type,
            object_id: self.object_id,
            object_id_2: self.object_id_2,
            param_types: self.param_types@,
            param_values: self.param_values@,
            param_pair_types: self.param_pair_types@,
            param_pair_values: self.param_pair_values@,
            settings: self.settings.model(),
        }
    }

    /// The fixed fields, the typed parameters, the typed parameter pairs and
    /// the settings that the action's type selects.
    open spec fn parse(s: Seq<u8>, at: int) -> Option<(EventActionModel, int)> {
        match parse_action_head(s, at) {
            None => None,
            Some((head, at1)) => match parse_typed_list::<u32>(s, at1) {
                None => None,
                Some((params, at2)) => match parse_typed_list::<(u32, u32)>(s, at2) {
                    None => None,
                    Some((pairs, at3)) => match parse_settings(s, at3, head.action_type) {
                        None => None,
                        Some((settings, at4)) => Some(
                            (
                                EventActionModel {
                                    id: head.id,
                                    scope: head.scope,
                                    action_type: head.action_type,
                                    object_id: head.object_id,
                                    object_id_2: head.object_id_2,
                                    param_types: params.0,
                                    param_values: params.1,
                                    param_pair_types: pairs.0,
                                    param_pair_values: pairs.1,
                                    settings,
                                },
                                at4,
                            ),
                        ),
                    },
                },
            },
        }
    }

    fn read(cur: &mut Cursor) -> (r: Option<EventAction>) {
        let id: u32 = cur.read_u32_le()?;
        let scope: u8 = cur.read_u8()?;
        let code: u8 = cur.read_u8()?;
        let object_id: u32 = cur.read_u32_le()?;
        let object_id_2: u8 = cur.read_u8()?;
        let action_type = EventActionType::from_code(code)?;
        let (param_types, param_values) = read_typed_list::<u32>(cur)?;
        let (param_pair_types, param_pair_values) = read_typed_list::<(u32, u32)>(cur)?;
        let settings = EventActionSettings::read(cur, action_type)?;
        assert(models(param_values@) =~= param_values@);
        assert(models(param_pair_values@) =~= param_pair_values@);
        Some(
            EventAction {
                id,
                scope,
                action_type,
                object_id,
                object_id_2,
                param_types,
                param_values,
                param_pair_types,
                param_pair_values,
                settings,
            },
        )
    }

    fn replicate(&self) -> (r: EventAction) {
        EventAction {
            id: self.id,
            scope: self.scope,
            action_type: self.action_type,
            object_id: self.object_id,
            object_id_2: self.object_id_2,
            param_types: replicate_plain(&self.param_types),
            param_values: replicate_plain(&self.param_values),
            param_pair_types: replicate_plain(&self.param_pair_types),
            param_pair_values: replicate_plain(&self.param_pair_values),
            settings: self.settings.clone(),
        }
    }
}

impl Clone for EventAction {
    fn clone(&self) -> (r: Self)
        ensures
            r.model() == self.model(),
    {
        self.replicate()
    }
}

impl EventActionModel {
    /// The action that does nothing to no object.
    pub open spec fn absent() -> EventActionModel {
        EventActionModel {
            id: 0,
            scope: 0,
            action_type: EventActionType::NoAction,
            object_id: 0,
            object_id_2: 0,
            param_types: Seq::empty(),
            param_values: Seq::empty(),
            param_pair_types: Seq::empty(),
            param_pair_values: Seq::empty(),
            settings: EventActionSettingsModel::Empty,
        }
    }
}

impl Default for EventAction {
    fn default() -> (r: Self)
        ensures
            r.model() == EventActionModel::absent(),
    {
        EventAction {
            id: 0,
            scope: 0,
            action_type: EventActionType::NoAction,
            object_id: 0,
            object_id_2: 0,
            param_types: Vec::new(),
            param_values: Vec::new(),
            param_pair_types: Vec::new(),
            param_pair_values: Vec::new(),
            settings: EventActionSettings::Empty,
        }
    }
}

/// An action whose type is none of stop, pause, resume, play and seek has
/// the empty settings, and they take no bytes: what follows the action's
/// parameters starts where the parameters end.
pub proof fn lemma_settings_absent_take_nothing(s: Seq<u8>, at: int, kind: EventActionType)
    requires
        !kind.carries_settings(),
    ensures
        parse_settings(s, at, kind) == Some((EventActionSettingsModel::Empty, at)),
{
}

} // verus!
