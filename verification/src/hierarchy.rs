//! The hierarchy chunk: a flat list of type-tagged, length-prefixed objects.

pub mod audio;
pub mod event;
pub mod music;

use crate::cursor::{fits, le_u32, parse_u32_le, Cursor};
use crate::decode::{lemma_parse_many_front, models, parse_many, read_many, replicate_all, Record};
use crate::error::ParseError;
use crate::hierarchy::event::{Event, EventAction, EventActionModel, EventModel};
use crate::hierarchy::music::{
    MusicSwitchContainer, MusicSwitchContainerModel, MusicTrack, MusicTrackModel,
};
use vstd::prelude::*;

verus! {

/// The largest type tag of the current record layout. A record whose tag is
/// larger has its declared length counted from the start of the record, not
/// from the end of its header.
pub const MAX_OBJECT_TAG: u8 = 32;

/// What opens every object record: the type tag and the declared length of what follows.
#[derive(Debug, Clone, Copy, PartialEq, Eq, Structural)]
pub struct HierarchyObjectHeader {
    pub ty: u8,
    pub len: u32,
}

impl Record for HierarchyObjectHeader {
    type Model = HierarchyObjectHeader;

    open spec fn model(&self) -> HierarchyObjectHeader {
        *self
    }

    /// The tag byte and the length.
    open spec fn parse(s: Seq<u8>, at: int) -> Option<(HierarchyObjectHeader, int)> {
        if fits(s, at, 5) {
            Some(
                (
                    HierarchyObjectHeader {
                        ty: s[at],
                        len: le_u32(s, at + 1) as u32,
                    },
                    at + 5,
                ),
            )
        } else {
            None
        }
    }

    fn read(cur: &mut Cursor) -> (r: Option<HierarchyObjectHeader>) {
        let ty: u8 = cur.read_u8()?;
        let len: u32 = cur.read_u32_le()?;
        Some(HierarchyObjectHeader { ty, len })
    }

    fn replicate(&self) -> (r: HierarchyObjectHeader) {
        *self
    }
}

/// What an object is. Four kinds carry a decoded payload; the others are
/// placeholders, and so is every tag that names no kind.
#[derive(Debug, PartialEq, Eq)]
pub enum HierarchyObjectType {
    Unknown,
    Settings,
    Sound,
    EventAction(EventAction),
    Event(Event),
    Container,
    SwitchContainer,
    ActorMixer,
    AudioBus,
    BlendContainer,
    MusicSegment,
    MusicTrack(MusicTrack),
    MusicSwitchContainer(MusicSwitchContainer),
    MusicPlaylistContainer,
    Attenuation,
    DialogueEvent,
    MotionBus,
    MotionEffect,
    Effect,
    EffectCustom,
    AuxiliaryBus,
    Unk22,
}

/// The mathematical value of a [`HierarchyObjectType`].
pub enum HierarchyObjectTypeModel {
    Unknown,
    Settings,
    Sound,
    EventAction(EventActionModel),
    Event(EventModel),
    Container,
    SwitchContainer,
    ActorMixer,
    AudioBus,
    BlendContainer,
    MusicSegment,
    MusicTrack(MusicTrackModel),
    MusicSwitchContainer(MusicSwitchContainerModel),
    MusicPlaylistContainer,
    Attenuation,
    DialogueEvent,
    MotionBus,
    MotionEffect,
    Effect,
    EffectCustom,
    AuxiliaryBus,
    Unk22,
}

impl HierarchyObjectType {
    pub open spec fn model(&self) -> HierarchyObjectTypeModel {
        match self {
            HierarchyObjectType::Unknown => HierarchyObjectTypeModel::Unknown,
            HierarchyObjectType::Settings => HierarchyObjectTypeModel::Settings,
            HierarchyObjectType::Sound => HierarchyObjectTypeModel::Sound,
            HierarchyObjectType::EventAction(v) => HierarchyObjectTypeModel::EventAction(v.model()),
            HierarchyObjectType::Event(v) => HierarchyObjectTypeModel::Event(v.model()),
            HierarchyObjectType::Container => HierarchyObjectTypeModel::Container,
            HierarchyObjectType::SwitchContainer => HierarchyObjectTypeModel::SwitchContainer,
            HierarchyObjectType::ActorMixer => HierarchyObjectTypeModel::ActorMixer,
            HierarchyObjectType::AudioBus => HierarchyObjectTypeModel::AudioBus,
            HierarchyObjectType::BlendContainer => HierarchyObjectTypeModel::BlendContainer,
            HierarchyObjectType::MusicSegment => HierarchyObjectTypeModel::MusicSegment,
            HierarchyObjectType::MusicTrack(v) => HierarchyObjectTypeModel::MusicTrack(v.model()),
            HierarchyObjectType::MusicSwitchContainer(v) => HierarchyObjectTypeModel::MusicSwitchContainer(v.model()),
            HierarchyObjectType::MusicPlaylistContainer => HierarchyObjectTypeModel::MusicPlaylistContainer,
            HierarchyObjectType::Attenuation => HierarchyObjectTypeModel::Attenuation,
            HierarchyObjectType::DialogueEvent => HierarchyObjectTypeModel::DialogueEvent,
            HierarchyObjectType::MotionBus => HierarchyObjectTypeModel::MotionBus,
            HierarchyObjectType::MotionEffect => HierarchyObjectTypeModel::MotionEffect,
            HierarchyObjectType::Effect => HierarchyObjectTypeModel::Effect,
            HierarchyObjectType::EffectCustom => HierarchyObjectTypeModel::EffectCustom,
            HierarchyObjectType::AuxiliaryBus => HierarchyObjectTypeModel::AuxiliaryBus,
            HierarchyObjectType::Unk22 => HierarchyObjectTypeModel::Unk22,
        }
    }
}

impl Clone for HierarchyObjectType {
    fn clone(&self) -> (r: Self)
        ensures
            r.model() == self.model(),
    {
        match self {
            HierarchyObjectType::Unknown => HierarchyObjectType::Unknown,
            HierarchyObjectType::Settings => HierarchyObjectType::Settings,
            HierarchyObjectType::Sound => HierarchyObjectType::Sound,
            HierarchyObjectType::EventAction(v) => HierarchyObjectType::EventAction(v.replicate()),
            HierarchyObjectType::Event(v) => HierarchyObjectType::Event(v.replicate()),
            HierarchyObjectType::Container => HierarchyObjectType::Container,
            HierarchyObjectType::SwitchContainer => HierarchyObjectType::SwitchContainer,
            HierarchyObjectType::ActorMixer => HierarchyObjectType::ActorMixer,
            HierarchyObjectType::AudioBus => HierarchyObjectType::AudioBus,
            HierarchyObjectType::BlendContainer => HierarchyObjectType::BlendContainer,
            HierarchyObjectType::MusicSegment => HierarchyObjectType::MusicSegment,
            HierarchyObjectType::MusicTrack(v) => HierarchyObjectType::MusicTrack(v.replicate()),
            HierarchyObjectType::MusicSwitchContainer(v) => HierarchyObjectType::MusicSwitchContainer(v.replicate()),
            HierarchyObjectType::MusicPlaylistContainer => HierarchyObjectType::MusicPlaylistContainer,
            HierarchyObjectType::Attenuation => HierarchyObjectType::Attenuation,
            HierarchyObjectType::DialogueEvent => HierarchyObjectType::DialogueEvent,
            HierarchyObjectType::MotionBus => HierarchyObjectType::MotionBus,
            HierarchyObjectType::MotionEffect => HierarchyObjectType::MotionEffect,
            HierarchyObjectType::Effect => HierarchyObjectType::Effect,
            HierarchyObjectType::EffectCustom => HierarchyObjectType::EffectCustom,
            HierarchyObjectType::AuxiliaryBus => HierarchyObjectType::AuxiliaryBus,
            HierarchyObjectType::Unk22 => HierarchyObjectType::Unk22,
        }
    }
}

impl Default for HierarchyObjectType {
    fn default() -> (r: Self)
        ensures
            r is Unknown,
    {
        HierarchyObjectType::Unknown
    }
}

/// Whether objects with this tag carry a decoded payload.
pub open spec fn tag_has_payload(tag: u8) -> bool {
    tag == 3 || tag == 4 || tag == 11 || tag == 12
}

/// The placeholder that stands for an object whose tag carries no decoded
/// payload. A tag that names no kind gives the unknown placeholder.
pub open spec fn placeholder(tag: u8) -> HierarchyObjectTypeModel {
    match tag {
        1 => HierarchyObjectTypeModel::Settings,
        2 => HierarchyObjectTypeModel::Sound,
        5 => HierarchyObjectTypeModel::Container,
        6 => HierarchyObjectTypeModel::SwitchContainer,
        7 => HierarchyObjectTypeModel::ActorMixer,
        8 => HierarchyObjectTypeModel::AudioBus,
        9 => HierarchyObjectTypeModel::BlendContainer,
        10 => HierarchyObjectTypeModel::MusicSegment,
        13 => HierarchyObjectTypeModel::MusicPlaylistContainer,
        14 => HierarchyObjectTypeModel::Attenuation,
        15 => HierarchyObjectTypeModel::DialogueEvent,
        16 => HierarchyObjectTypeModel::MotionBus,
        17 => HierarchyObjectTypeModel::MotionEffect,
        18 => HierarchyObjectTypeModel::Effect,
        19 => HierarchyObjectTypeModel::EffectCustom,
        20 => HierarchyObjectTypeModel::AuxiliaryBus,
        22 => HierarchyObjectTypeModel::Unk22,
        _ => HierarchyObjectTypeModel::Unknown,
    }
}

/// The body of an object with tag `tag` whose header ends at `at`. A tag
/// without payload takes no bytes and never fails.
#[verifier::opaque]
pub open spec fn parse_body(s: Seq<u8>, at: int, tag: u8) -> Option<
    (HierarchyObjectTypeModel, int),
> {
    if tag == 3 {
        match EventAction::parse(s, at) {
            None => None,
            Some((v, end)) => Some((HierarchyObjectTypeModel::EventAction(v), end)),
        }
    } else if tag == 4 {
        match Event::parse(s, at) {
            None => None,
            Some((v, end)) => Some((HierarchyObjectTypeModel::Event(v), end)),
        }
    } else if tag == 11 {
        match MusicTrack::parse(s, at) {
            None => None,
            Some((v, end)) => Some((HierarchyObjectTypeModel::MusicTrack(v), end)),
        }
    } else if tag == 12 {
        match MusicSwitchContainer::parse(s, at) {
            None => None,
            Some((v, end)) => Some((HierarchyObjectTypeModel::MusicSwitchContainer(v), end)),
        }
    } else {
        Some((placeholder(tag), at))
    }
}

fn placeholder_for(tag: u8) -> (r: HierarchyObjectType)
    requires
        !tag_has_payload(tag),
    ensures
        r.model() == placeholder(tag),
{
    match tag {
        1 => HierarchyObjectType::Settings,
        2 => HierarchyObjectType::Sound,
        5 => HierarchyObjectType::Container,
        6 => HierarchyObjectType::SwitchContainer,
        7 => HierarchyObjectType::ActorMixer,
        8 => HierarchyObjectType::AudioBus,
        9 => HierarchyObjectType::BlendContainer,
        10 => HierarchyObjectType::MusicSegment,
        13 => HierarchyObjectType::MusicPlaylistContainer,
        14 => HierarchyObjectType::Attenuation,
        15 => HierarchyObjectType::DialogueEvent,
        16 => HierarchyObjectType::MotionBus,
        17 => HierarchyObjectType::MotionEffect,
        18 => HierarchyObjectType::Effect,
        19 => HierarchyObjectType::EffectCustom,
        20 => HierarchyObjectType::AuxiliaryBus,
        22 => HierarchyObjectType::Unk22,
        _ => HierarchyObjectType::Unknown,
    }
}

/// Decodes the body of an object whose header has been read.
fn read_body(cur: &mut Cursor, tag: u8) -> (r: Option<HierarchyObjectType>)
    ensures
        final(cur).bytes() == old(cur).bytes(),
        match r {
            Some(v) => parse_body(old(cur).bytes(), old(cur).offset(), tag) == Some(
                (v.model(), final(cur).offset()),
            ),
            None => parse_body(old(cur).bytes(), old(cur).offset(), tag) is None,
        },
{
    reveal(parse_body);
    if tag == 3 {
        let v = EventAction::read(cur)?;
        Some(HierarchyObjectType::EventAction(v))
    } else if tag == 4 {
        let v = Event::read(cur)?;
        Some(HierarchyObjectType::Event(v))
    } else if tag == 11 {
        let v = MusicTrack::read(cur)?;
        Some(HierarchyObjectType::MusicTrack(v))
    } else if tag == 12 {
        let v = MusicSwitchContainer::read(cur)?;
        Some(HierarchyObjectType::MusicSwitchContainer(v))
    } else {
        Some(placeholder_for(tag))
    }
}

/// One object of the hierarchy.
#[derive(Debug, PartialEq, Eq)]
pub struct HierarchyObject {
    pub header: HierarchyObjectHeader,
    pub obj: HierarchyObjectType,
}

/// The mathematical value of a [`HierarchyObject`].
pub struct HierarchyObjectModel {
    pub header: HierarchyObjectHeader,
    pub obj: HierarchyObjectTypeModel,
}

/// Where the record that starts at `at` with the given tag and declared
/// length ends. The length counts from the end of the five-byte header,
/// except for a tag above the largest known one, where it counts from the
/// start of the record.
pub open spec fn object_end(at: int, tag: u8, len: u32) -> int {
    if tag > 32 {
        at + len
    } else {
        at + 5 + len
    }
}

impl Record for HierarchyObject {
    type Model = HierarchyObjectModel;

    open spec fn model(&self) -> HierarchyObjectModel {
        HierarchyObjectModel { header: self.header, obj: self.obj.model() }
    }

    /// The header, then the body that the tag selects. Wherever the body
    /// ends, the record ends where its header says; that end must be an
    /// offset that a cursor can hold.
    open spec fn parse(s: Seq<u8>, at: int) -> Option<(HierarchyObjectModel, int)> {
        match HierarchyObjectHeader::parse(s, at) {
            None => None,
            Some((header, at1)) => match parse_body(s, at1, header.ty) {
                None => None,
                Some((obj, _)) => if object_end(at, header.ty, header.len) <= u64::MAX {
                    Some(
                        (
                            HierarchyObjectModel { header, obj },
                            object_end(at, header.ty, header.len),
                        ),
                    )
                } else {
                    None
                },
            },
        }
    }

    fn read(cur: &mut Cursor) -> (r: Option<HierarchyObject>) {
        let tag: u8 = cur.peek_u8()?;
        let start: u64 = cur.position();
        let header = HierarchyObjectHeader::read(cur)?;
        let base: u64 = if tag > MAX_OBJECT_TAG {
            start
        } else {
            cur.position()
        };
        let obj = read_body(cur, header.ty)?;
        let end: u64 = base.checked_add(header.len as u64)?;
        cur.seek_to(end);
        Some(HierarchyObject { header, obj })
    }

    fn replicate(&self) -> (r: HierarchyObject) {
        HierarchyObject { header: self.header, obj: self.obj.clone() }
    }
}

impl Clone for HierarchyObject {
    fn clone(&self) -> (r: Self)
        ensures
            r.model() == self.model(),
    {
        self.replicate()
    }
}

impl HierarchyObjectType {
    /// The kind that a tag from 1 to 20 names, with an empty payload where
    /// the kind carries one; the unknown kind for every other tag.
    pub open spec fn of_tag(value: u8) -> HierarchyObjectTypeModel {
        match value {
            1 => HierarchyObjectTypeModel::Settings,
            2 => HierarchyObjectTypeModel::Sound,
            3 => HierarchyObjectTypeModel::EventAction(EventActionModel::absent()),
            4 => HierarchyObjectTypeModel::Event(EventModel::absent()),
            5 => HierarchyObjectTypeModel::Container,
            6 => HierarchyObjectTypeModel::SwitchContainer,
            7 => HierarchyObjectTypeModel::ActorMixer,
            8 => HierarchyObjectTypeModel::AudioBus,
            9 => HierarchyObjectTypeModel::BlendContainer,
            10 => HierarchyObjectTypeModel::MusicSegment,
            11 => HierarchyObjectTypeModel::MusicTrack(MusicTrackModel::absent()),
            12 => HierarchyObjectTypeModel::MusicSwitchContainer(MusicSwitchContainerModel::absent()),
            13 => HierarchyObjectTypeModel::MusicPlaylistContainer,
            14 => HierarchyObjectTypeModel::Attenuation,
            15 => HierarchyObjectTypeModel::DialogueEvent,
            16 => HierarchyObjectTypeModel::MotionBus,
            17 => HierarchyObjectTypeModel::MotionEffect,
            18 => HierarchyObjectTypeModel::Effect,
            19 => HierarchyObjectTypeModel::EffectCustom,
            20 => HierarchyObjectTypeModel::AuxiliaryBus,
            _ => HierarchyObjectTypeModel::Unknown,
        }
    }

    /// An object of the kind that a tag names, before anything is decoded
    /// into it.
    pub fn from(value: u8) -> (r: Self)
        ensures
            r.model() == Self::of_tag(value),
    {
        match value {
            1 => HierarchyObjectType::Settings,
            2 => HierarchyObjectType::Sound,
            3 => HierarchyObjectType::EventAction(EventAction::default()),
            4 => HierarchyObjectType::Event(Event::default()),
            5 => HierarchyObjectType::Container,
            6 => HierarchyObjectType::SwitchContainer,
            7 => HierarchyObjectType::ActorMixer,
            8 => HierarchyObjectType::AudioBus,
            9 => HierarchyObjectType::BlendContainer,
            10 => HierarchyObjectType::MusicSegment,
            11 => HierarchyObjectType::MusicTrack(MusicTrack::default()),
            12 => HierarchyObjectType::MusicSwitchContainer(MusicSwitchContainer::default()),
            13 => HierarchyObjectType::MusicPlaylistContainer,
            14 => HierarchyObjectType::Attenuation,
            15 => HierarchyObjectType::DialogueEvent,
            16 => HierarchyObjectType::MotionBus,
            17 => HierarchyObjectType::MotionEffect,
            18 => HierarchyObjectType::Effect,
            19 => HierarchyObjectType::EffectCustom,
            20 => HierarchyObjectType::AuxiliaryBus,
            _ => HierarchyObjectType::Unknown,
        }
    }
}

/// Access to the payload of an object by the payload's type.
pub trait ExtractInner<T: Record>: Sized {
    /// The payload, where the object is of the kind that carries a `T`.
    spec fn inner(&self) -> Option<T>;

    fn extract_inner(&self) -> (r: Option<&T>)
        ensures
            match r {
                Some(x) => self.inner() == Some(*x),
                None => self.inner() is None,
            },
    ;

    /// The object with `value` in place of its payload, where the object is
    /// of the kind that carries a `T`; the object itself otherwise.
    spec fn with_inner(&self, value: T) -> Self;

    /// The payload for writing: what is written through the reference is
    /// the object's payload afterwards.
    fn extract_inner_mut(&mut self) -> (r: Option<&mut T>)
        ensures
            match r {
                Some(x) => old(self).inner() == Some(*x) && *final(self) == old(self).with_inner(
                    *final(x),
                ),
                None => old(self).inner() is None && *final(self) == *old(self),
            },
    ;

    fn extract_inner_cloned(&self) -> (r: Option<T>)
        ensures
            match r {
                Some(x) => self.inner() matches Some(y) && x.model() == y.model(),
                None => self.inner() is None,
            },
    ;
}

impl ExtractInner<EventAction> for HierarchyObjectType {
    open spec fn inner(&self) -> Option<EventAction> {
        match self {
            HierarchyObjectType::EventAction(v) => Some(*v),
            _ => None,
        }
    }

    open spec fn with_inner(&self, value: EventAction) -> HierarchyObjectType {
        match self {
            HierarchyObjectType::EventAction(_) => HierarchyObjectType::EventAction(value),
            _ => *self,
        }
    }

    fn extract_inner(&self) -> (r: Option<&EventAction>) {
        if let HierarchyObjectType::EventAction(v) = self {
            Some(v)
        } else {
            None
        }
    }

    fn extract_inner_mut(&mut self) -> (r: Option<&mut EventAction>) {
        if let HierarchyObjectType::EventAction(v) = self {
            Some(v)
        } else {
            None
        }
    }

    fn extract_inner_cloned(&self) -> (r: Option<EventAction>) {
        if let HierarchyObjectType::EventAction(v) = self {
            Some(v.replicate())
        } else {
            None
        }
    }
}

impl ExtractInner<Event> for HierarchyObjectType {
    open spec fn inner(&self) -> Option<Event> {
        match self {
            HierarchyObjectType::Event(v) => Some(*v),
            _ => None,
        }
    }

    open spec fn with_inner(&self, value: Event) -> HierarchyObjectType {
        match self {
            HierarchyObjectType::Event(_) => HierarchyObjectType::Event(value),
            _ => *self,
        }
    }

    fn extract_inner(&self) -> (r: Option<&Event>) {
        if let HierarchyObjectType::Event(v) = self {
            Some(v)
        } else {
            None
        }
    }

    fn extract_inner_mut(&mut self) -> (r: Option<&mut Event>) {
        if let HierarchyObjectType::Event(v) = self {
            Some(v)
        } else {
            None
        }
    }

    fn extract_inner_cloned(&self) -> (r: Option<Event>) {
        if let HierarchyObjectType::Event(v) = self {
            Some(v.replicate())
        } else {
            None
        }
    }
}

impl ExtractInner<MusicTrack> for HierarchyObjectType {
    open spec fn inner(&self) -> Option<MusicTrack> {
        match self {
            HierarchyObjectType::MusicTrack(v) => Some(*v),
            _ => None,
        }
    }

    open spec fn with_inner(&self, value: MusicTrack) -> HierarchyObjectType {
        match self {
            HierarchyObjectType::MusicTrack(_) => HierarchyObjectType::MusicTrack(value),
            _ => *self,
        }
    }

    fn extract_inner(&self) -> (r: Option<&MusicTrack>) {
        if let HierarchyObjectType::MusicTrack(v) = self {
            Some(v)
        } else {
            None
        }
    }

    fn extract_inner_mut(&mut self) -> (r: Option<&mut MusicTrack>) {
        if let HierarchyObjectType::MusicTrack(v) = self {
            Some(v)
        } else {
            None
        }
    }

    fn extract_inner_cloned(&self) -> (r: Option<MusicTrack>) {
        if let HierarchyObjectType::MusicTrack(v) = self {
            Some(v.replicate())
        } else {
            None
        }
    }
}

impl ExtractInner<MusicSwitchContainer> for HierarchyObjectType {
    open spec fn inner(&self) -> Option<MusicSwitchContainer> {
        match self {
            HierarchyObjectType::MusicSwitchContainer(v) => Some(*v),
            _ => None,
        }
    }

    open spec fn with_inner(&self, value: MusicSwitchContainer) -> HierarchyObjectType {
        match self {
            HierarchyObjectType::MusicSwitchContainer(_) => HierarchyObjectType::MusicSwitchContainer(value),
            _ => *self,
        }
    }

    fn extract_inner(&self) -> (r: Option<&MusicSwitchContainer>) {
        if let HierarchyObjectType::MusicSwitchContainer(v) = self {
            Some(v)
        } else {
            None
        }
    }

    fn extract_inner_mut(&mut self) -> (r: Option<&mut MusicSwitchContainer>) {
        if let HierarchyObjectType::MusicSwitchContainer(v) = self {
            Some(v)
        } else {
            None
        }
    }

    fn extract_inner_cloned(&self) -> (r: Option<MusicSwitchContainer>) {
        if let HierarchyObjectType::MusicSwitchContainer(v) = self {
            Some(v.replicate())
        } else {
            None
        }
    }
}

/// The body of the hierarchy chunk: how many objects it declares, and the
/// objects once they are read.
#[derive(Debug, PartialEq, Eq)]
pub struct HierarchyChunk {
    pub object_count: u32,
    pub objects: Vec<HierarchyObject>,
}

/// The mathematical value of a [`HierarchyChunk`].
pub struct HierarchyChunkModel {
    pub object_count: u32,
    pub objects: Seq<HierarchyObjectModel>,
}

impl Record for HierarchyChunk {
    type Model = HierarchyChunkModel;

    open spec fn model(&self) -> HierarchyChunkModel {
        HierarchyChunkModel { object_count: self.object_count, objects: models(self.objects@) }
    }

    /// The number of objects. The objects themselves are read afterwards.
    open spec fn parse(s: Seq<u8>, at: int) -> Option<(HierarchyChunkModel, int)> {
        match parse_u32_le(s, at) {
            None => None,
            Some((object_count, end)) => Some(
                (HierarchyChunkModel { object_count, objects: Seq::empty() }, end),
            ),
        }
    }

    fn read(cur: &mut Cursor) -> (r: Option<HierarchyChunk>) {
        let object_count: u32 = cur.read_u32_le()?;
        let r = HierarchyChunk { object_count, objects: Vec::new() };
        assert(r.model().objects =~= Seq::empty());
        Some(r)
    }

    fn replicate(&self) -> (r: HierarchyChunk) {
        HierarchyChunk { object_count: self.object_count, objects: replicate_all(&self.objects) }
    }
}

impl Clone for HierarchyChunk {
    fn clone(&self) -> (r: Self)
        ensures
            r.model() == self.model(),
    {
        self.replicate()
    }
}

impl Default for HierarchyChunk {
    fn default() -> (r: Self)
        ensures
            r.object_count == 0,
            r.objects@.len() == 0,
    {
        HierarchyChunk { object_count: 0, objects: Vec::new() }
    }
}

impl HierarchyChunk {
    /// Reads the objects that the chunk declares, from a cursor that stands
    /// at the first of them, and appends them to the chunk's list. Returns a
    /// copy of the whole list.
    ///
    /// After each object the cursor is moved to the end that the object's
    /// header declares, so the next object is read from there whatever the
    /// decoder of the one before took. Where any object fails to decode, the
    /// chunk is left as it was.
    pub fn read_hierarchy(&mut self, cur: &mut Cursor) -> (r: Result<
        Vec<HierarchyObject>,
        ParseError,
    >)
        ensures
            final(cur).bytes() == old(cur).bytes(),
            final(self).object_count == old(self).object_count,
            match r {
                Ok(all) => match parse_many::<HierarchyObject>(
                    old(cur).bytes(),
                    old(cur).offset(),
                    old(self).object_count as nat,
                ) {
                    Some((decoded, end)) => {
                        &&& final(cur).offset() == end
                        &&& models(final(self).objects@) == models(old(self).objects@) + decoded
                        &&& models(all@) == models(final(self).objects@)
                    },
                    None => false,
                },
                Err(e) => {
                    &&& e == ParseError::InvalidObject
                    &&& parse_many::<HierarchyObject>(
                        old(cur).bytes(),
                        old(cur).offset(),
                        old(self).object_count as nat,
                    ) is None
                    &&& final(self).objects@ == old(self).objects@
                },
            },
    {
        let mut decoded = match read_many::<HierarchyObject>(cur, self.object_count as u64) {
            Some(v) => v,
            None => {
                return Err(ParseError::InvalidObject);
            },
        };
        assert(models(self.objects@ + decoded@) =~= models(self.objects@) + models(decoded@));
        self.objects.append(&mut decoded);
        Ok(replicate_all(&self.objects))
    }
}

/// The payloads of type `T` among some objects, in the objects' order.
pub open spec fn payloads<T: Record>(objs: Seq<HierarchyObject>) -> Seq<T> where
    HierarchyObjectType: ExtractInner<T>,

    decreases objs.len(),
{
    if objs.len() == 0 {
        Seq::empty()
    } else {
        let init = payloads::<T>(objs.drop_last());
        match ExtractInner::<T>::inner(&objs.last().obj) {
            Some(x) => init.push(x),
            None => init,
        }
    }
}

/// The items of a sequence at which `keep` holds, in order.
pub open spec fn selection<T>(items: Seq<T>, keep: Seq<bool>) -> Seq<T>
    recommends
        keep.len() == items.len(),
    decreases items.len(),
{
    if items.len() == 0 {
        Seq::empty()
    } else {
        let init = selection(items.drop_last(), keep.drop_last());
        if keep.last() {
            init.push(items.last())
        } else {
            init
        }
    }
}

/// Some objects with `values` in place of their payloads of type `T`, in
/// order; the objects that carry no such payload stay as they are.
pub open spec fn with_payloads<T: Record>(objs: Seq<HierarchyObject>, values: Seq<T>) -> Seq<
    HierarchyObject,
> where HierarchyObjectType: ExtractInner<T>
    decreases objs.len(),
{
    if objs.len() == 0 {
        Seq::empty()
    } else {
        let last = objs.last();
        match ExtractInner::<T>::inner(&last.obj) {
            Some(_) => with_payloads(objs.drop_last(), values.drop_last()).push(
                HierarchyObject {
                    header: last.header,
                    obj: ExtractInner::<T>::with_inner(&last.obj, values.last()),
                },
            ),
            None => with_payloads(objs.drop_last(), values).push(last),
        }
    }
}

/// Appends to `out` a reference to each payload of type `T` among `objs`,
/// in order.
fn collect_payloads_mut<'a, T: Record>(objs: &'a mut [HierarchyObject], out: &mut Vec<&'a mut T>) where
    HierarchyObjectType: ExtractInner<T>,

    ensures
        final(out)@.len() == old(out)@.len() + payloads::<T>(old(objs)@).len(),
        final(out)@.subrange(0, old(out)@.len() as int) == old(out)@,
        forall|k: int|
            0 <= k < payloads::<T>(old(objs)@).len() ==> *#[trigger] final(out)@[old(out)@.len()
                + k] == payloads::<T>(old(objs)@)[k],
        final(objs)@ == with_payloads::<T>(
            old(objs)@,
            Seq::new(
                payloads::<T>(old(objs)@).len(),
                |k: int| *final(final(out)@[old(out)@.len() + k]),
            ),
        ),
    decreases old(objs)@.len(),
{
    let ghost n = out@.len() as int;
    let ghost all = objs@;
    if objs.len() == 0 {
        assert(out@.subrange(0, n) =~= out@);
        assert(objs@ =~= with_payloads::<T>(
            all,
            Seq::new(payloads::<T>(all).len(), |k: int| *final(out@[n + k])),
        ));
        return ;
    }
    let (init, last) = objs.split_at_mut(objs.len() - 1);
    let ghost front = init@;
    assert(front =~= all.drop_last());
    assert(last@[0] == all.last());
    let ghost last_after = final(last)@;
    collect_payloads_mut(init, out);
    let ghost mid = out@;
    if let Some(x) = ExtractInner::<T>::extract_inner_mut(&mut last[0].obj) {
        out.push(x);
    }
    proof {
        let m = mid.len() as int;
        let found = payloads::<T>(front);
        assert(out@.subrange(0, n) =~= mid.subrange(0, n));
        let values = Seq::new(payloads::<T>(all).len(), |k: int| *final(out@[n + k]));
        let values_front = Seq::new(found.len(), |k: int| *final(mid[n + k]));
        match ExtractInner::<T>::inner(&all.last().obj) {
            Some(v) => {
                assert(out@.len() == m + 1);
                assert(values.drop_last() =~= values_front);
                assert(last_after =~= seq![
                    HierarchyObject {
                        header: all.last().header,
                        obj: ExtractInner::<T>::with_inner(&all.last().obj, values.last()),
                    },
                ]);
            },
            None => {
                assert(out@ == mid);
                assert(values =~= values_front);
                assert(last_after =~= seq![all.last()]);
            },
        }
    }
}

impl HierarchyChunk {
    /// References to the payloads of type `T` among the chunk's objects, in
    /// order. What is written through a reference is the payload of its
    /// object afterwards; everything else in the chunk stays as it is.
    pub fn get_all_by_type_mut<T: Record>(&mut self) -> (r: Vec<&mut T>) where
        HierarchyObjectType: ExtractInner<T>,

        ensures
            final(self).object_count == old(self).object_count,
            r@.len() == payloads::<T>(old(self).objects@).len(),
            forall|k: int|
                0 <= k < r@.len() ==> *#[trigger] r@[k] == payloads::<T>(old(self).objects@)[k],
            final(self).objects@ == with_payloads::<T>(
                old(self).objects@,
                Seq::new(r@.len(), |k: int| *final(r@[k])),
            ),
    {
        let mut out: Vec<&mut T> = Vec::new();
        let ghost before = self.objects@;
        collect_payloads_mut(self.objects.as_mut_slice(), &mut out);
        proof {
            assert forall|k: int| 0 <= k < out@.len() implies *#[trigger] out@[k] == payloads::<T>(
                before,
            )[k] by {
                assert(out@[0 + k] == out@[k]);
            }
            assert(Seq::new(payloads::<T>(before).len(), |k: int| *final(out@[0 + k])) =~= Seq::new(
                out@.len(),
                |k: int| *final(out@[k]),
            ));
        }
        out
    }

    /// The payloads of type `T` among the chunk's objects, in order.
    pub fn get_all_by_type<T: Record>(&self) -> (r: Vec<&T>) where
        HierarchyObjectType: ExtractInner<T>,

        ensures
            r@.len() == payloads::<T>(self.objects@).len(),
            forall|i: int| 0 <= i < r@.len() ==> *#[trigger] r@[i] == payloads::<T>(self.objects@)[i],
    {
        let mut out: Vec<&T> = Vec::new();
        let mut i: usize = 0;
        assert(self.objects@.subrange(0, 0) =~= Seq::empty());
        while i < self.objects.len()
            invariant
                i <= self.objects@.len(),
                out@.len() == payloads::<T>(self.objects@.subrange(0, i as int)).len(),
                forall|j: int|
                    0 <= j < out@.len() ==> *#[trigger] out@[j] == payloads::<T>(
                        self.objects@.subrange(0, i as int),
                    )[j],
            decreases self.objects@.len() - i,
        {
            assert(self.objects@.subrange(0, i + 1).drop_last() =~= self.objects@.subrange(
                0,
                i as int,
            ));
            if let Some(x) = ExtractInner::<T>::extract_inner(&self.objects[i].obj) {
                out.push(x);
            }
            i = i + 1;
        }
        assert(self.objects@.subrange(0, i as int) =~= self.objects@);
        out
    }

    /// Copies of the payloads of type `T` among the chunk's objects, in
    /// order.
    pub fn get_all_by_type_cloned<T: Record>(&self) -> (r: Vec<T>) where
        HierarchyObjectType: ExtractInner<T>,

        ensures
            models(r@) == models(payloads::<T>(self.objects@)),
    {
        let mut out: Vec<T> = Vec::new();
        let mut i: usize = 0;
        assert(self.objects@.subrange(0, 0) =~= Seq::empty());
        assert(models(out@) =~= models(payloads::<T>(self.objects@.subrange(0, 0))));
        while i < self.objects.len()
            invariant
                i <= self.objects@.len(),
                models(out@) == models(payloads::<T>(self.objects@.subrange(0, i as int))),
            decreases self.objects@.len() - i,
        {
            assert(self.objects@.subrange(0, i + 1).drop_last() =~= self.objects@.subrange(
                0,
                i as int,
            ));
            let ghost before = out@;
            let ghost found = payloads::<T>(self.objects@.subrange(0, i as int));
            if let Some(x) = ExtractInner::<T>::extract_inner_cloned(&self.objects[i].obj) {
                out.push(x);
                assert(models(out@) =~= models(before).push(x.model()));
                assert(models(found.push(ExtractInner::<T>::inner(&self.objects@[i as int].obj)->0))
                    =~= models(found).push(x.model()));
            }
            i = i + 1;
        }
        assert(self.objects@.subrange(0, i as int) =~= self.objects@);
        out
    }

    /// Copies of those payloads of type `T` for which `predicate` answered
    /// yes, in the objects' order. The predicate is asked once for each
    /// payload of that type.
    pub fn filter_objects<F, T: Record>(&self, predicate: F) -> (r: Vec<T>) where
        F: Fn(&T) -> bool,
        HierarchyObjectType: ExtractInner<T>,

        requires
            forall|x: &T| predicate.requires((x,)),
        ensures
            exists|keep: Seq<bool>|
                {
                    &&& keep.len() == payloads::<T>(self.objects@).len()
                    &&& forall|i: int|
                        0 <= i < keep.len() ==> predicate.ensures(
                            (&payloads::<T>(self.objects@)[i],),
                            #[trigger] keep[i],
                        )
                    &&& models(r@) == models(selection(payloads::<T>(self.objects@), keep))
                },
    {
        let mut out: Vec<T> = Vec::new();
        let mut i: usize = 0;
        let ghost mut keep: Seq<bool> = Seq::empty();
        assert(self.objects@.subrange(0, 0) =~= Seq::empty());
        assert(models(out@) =~= models(selection(payloads::<T>(self.objects@.subrange(0, 0)), keep)));
        while i < self.objects.len()
            invariant
                i <= self.objects@.len(),
                forall|x: &T| predicate.requires((x,)),
                keep.len() == payloads::<T>(self.objects@.subrange(0, i as int)).len(),
                forall|j: int|
                    0 <= j < keep.len() ==> predicate.ensures(
                        (&payloads::<T>(self.objects@.subrange(0, i as int))[j],),
                        #[trigger] keep[j],
                    ),
                models(out@) == models(
                    selection(payloads::<T>(self.objects@.subrange(0, i as int)), keep),
                ),
            decreases self.objects@.len() - i,
        {
            assert(self.objects@.subrange(0, i + 1).drop_last() =~= self.objects@.subrange(
                0,
                i as int,
            ));
            let ghost before = out@;
            let ghost found = payloads::<T>(self.objects@.subrange(0, i as int));
            let ghost old_keep = keep;
            if let Some(x) = ExtractInner::<T>::extract_inner(&self.objects[i].obj) {
                let yes = predicate(x);
                proof {
                    keep = keep.push(yes);
                    assert(keep.drop_last() =~= old_keep);
                    assert(found.push(*x).drop_last() =~= found);
                }
                if yes {
                    let copy = x.replicate();
                    out.push(copy);
                    assert(models(out@) =~= models(before).push(copy.model()));
                    assert(models(selection(found, old_keep).push(*x)) =~= models(
                        selection(found, old_keep),
                    ).push(x.model()));
                }
            }
            i = i + 1;
        }
        assert(self.objects@.subrange(0, i as int) =~= self.objects@);
        out
    }

    /// As [`HierarchyChunk::filter_objects`]; the chunk is left as it is.
    pub fn filter_objects_mut<F, T: Record>(&mut self, predicate: F) -> (r: Vec<T>) where
        F: Fn(&T) -> bool,
        HierarchyObjectType: ExtractInner<T>,

        requires
            forall|x: &T| predicate.requires((x,)),
        ensures
            *final(self) == *old(self),
            exists|keep: Seq<bool>|
                {
                    &&& keep.len() == payloads::<T>(old(self).objects@).len()
                    &&& forall|i: int|
                        0 <= i < keep.len() ==> predicate.ensures(
                            (&payloads::<T>(old(self).objects@)[i],),
                            #[trigger] keep[i],
                        )
                    &&& models(r@) == models(selection(payloads::<T>(old(self).objects@), keep))
                },
    {
        self.filter_objects(predicate)
    }
}

/// After an object is decoded the cursor stands at the end that the
/// object's header declares, whatever the body took; and that end is never
/// before the start of the record.
pub proof fn lemma_object_ends_where_declared(s: Seq<u8>, at: int)
    requires
        HierarchyObject::parse(s, at) is Some,
    ensures
        fits(s, at, 5),
        match HierarchyObject::parse(s, at) {
            Some((object, end)) => {
                &&& object.header.ty == s[at]
                &&& object.header.len == le_u32(s, at + 1)
                &&& end == object_end(at, object.header.ty, object.header.len)
                &&& end >= at
            },
            None => false,
        },
{
}

/// An object whose tag carries no decoded payload, known or not, decodes
/// whenever its header is present and its declared end can be held: it never
/// stops the objects behind it from being read.
pub proof fn lemma_placeholder_always_decodes(s: Seq<u8>, at: int)
    requires
        fits(s, at, 5),
        !tag_has_payload(s[at]),
        object_end(at, s[at], le_u32(s, at + 1) as u32) <= u64::MAX,
    ensures
        HierarchyObject::parse(s, at) == Some(
            (
                HierarchyObjectModel {
                    header: HierarchyObjectHeader { ty: s[at], len: le_u32(s, at + 1) as u32 },
                    obj: placeholder(s[at]),
                },
                object_end(at, s[at], le_u32(s, at + 1) as u32),
            ),
        ),
{
    reveal(parse_body);
}

/// Where a list of objects starts with an object whose tag carries no
/// decoded payload, the list decodes exactly when the objects behind the
/// end that this object declares do: the object counts as one, is kept as
/// its placeholder, and what it holds is passed over.
pub proof fn lemma_placeholder_does_not_stop_the_list(s: Seq<u8>, at: int, n: nat)
    requires
        fits(s, at, 5),
        !tag_has_payload(s[at]),
        object_end(at, s[at], le_u32(s, at + 1) as u32) <= u64::MAX,
    ensures
        parse_many::<HierarchyObject>(s, at, n + 1) == match parse_many::<HierarchyObject>(
            s,
            object_end(at, s[at], le_u32(s, at + 1) as u32),
            n,
        ) {
            None => None,
            Some((tail, end)) => Some(
                (
                    seq![
                        HierarchyObjectModel {
                            header: HierarchyObjectHeader {
                                ty: s[at],
                                len: le_u32(s, at + 1) as u32,
                            },
                            obj: placeholder(s[at]),
                        },
                    ] + tail,
                    end,
                ),
            ),
        },
{
    lemma_placeholder_always_decodes(s, at);
    lemma_parse_many_front::<HierarchyObject>(s, at, n);
}

/// The objects of a list lie one behind the other: the list never ends
/// before it starts, however its objects declare their lengths.
pub proof fn lemma_object_ends_ascend(s: Seq<u8>, at: int, n: nat)
    requires
        parse_many::<HierarchyObject>(s, at, n) is Some,
    ensures
        parse_many::<HierarchyObject>(s, at, n) matches Some((_, end)) && end >= at,
    decreases n,
{
    if n > 0 {
        lemma_object_ends_ascend(s, at, (n - 1) as nat);
        match parse_many::<HierarchyObject>(s, at, (n - 1) as nat) {
            None => {},
            Some((_, mid)) => {
                lemma_object_ends_where_declared(s, mid);
            },
        }
    }
}

} // verus!
