//! Music objects and the routing tree of a switch container.

use crate::cursor::{fits, le_u16, le_u32, le_u64, parse_u32_le, parse_u8, Cursor};
use crate::decode::{
    models, parse_list_u32, parse_many, read_list_u32, read_many, replicate_all, replicate_plain,
    Record,
};
use crate::error::ParseError;
use crate::hierarchy::audio::{AudioProperties, AudioPropertiesModel};
use vstd::prelude::*;

verus! {

/// Size in bytes of one record of a routing table.
pub const PATH_RECORD_LEN: u32 = 12;

/// A leaf of a routing tree: a playback target.
#[derive(Debug, Clone, Copy, Default, PartialEq, Eq, Structural)]
pub struct MusicPathEndpoint {
    pub from_id: u32,
    pub weight: u16,
    pub probability: u16,
    pub audio_id: u32,
}

/// An inner node of a routing tree.
#[derive(Debug, PartialEq, Eq)]
pub struct AudioPathNode {
    pub from_id: u32,
    pub weight: u16,
    pub probability: u16,
    pub children_start_at_index: u16,
    pub children: Vec<AudioPathElement>,
}

/// One element of a routing tree.
#[derive(Debug, PartialEq, Eq)]
pub enum AudioPathElement {
    /// No element: the value a container holds before its tree is built.
    Empty,
    AudioPath(AudioPathNode),
    MusicEndpoint(MusicPathEndpoint),
}

/// The mathematical value of an [`AudioPathNode`].
pub struct AudioPathNodeModel {
    pub from_id: u32,
    pub weight: u16,
    pub probability: u16,
    pub children_start_at_index: u16,
    pub children: Seq<AudioPathElementModel>,
}

/// The mathematical value of an [`AudioPathElement`].
pub enum AudioPathElementModel {
    Empty,
    AudioPath(AudioPathNodeModel),
    MusicEndpoint(MusicPathEndpoint),
}

impl AudioPathNode {
    pub open spec fn model(&self) -> AudioPathNodeModel
        decreases self,
    {
        AudioPathNodeModel {
            from_id: self.from_id,
            weight: self.weight,
            probability: self.probability,
            children_start_at_index: self.children_start_at_index,
            children: Seq::new(
                self.children@.len(),
                |i: int|
                    if 0 <= i < self.children@.len() {
                        self.children@[i].model()
                    } else {
                        AudioPathElementModel::Empty
                    },
            ),
        }
    }
}

impl AudioPathElement {
    pub open spec fn model(&self) -> AudioPathElementModel
        decreases self,
    {
        match self {
            AudioPathElement::Empty => AudioPathElementModel::Empty,
            AudioPathElement::AudioPath(node) => AudioPathElementModel::AudioPath(node.model()),
            AudioPathElement::MusicEndpoint(leaf) => AudioPathElementModel::MusicEndpoint(*leaf),
        }
    }
}

/// Copies a routing tree.
pub fn clone_path_element(e: &AudioPathElement) -> (r: AudioPathElement)
    ensures
        r.model() == e.model(),
    decreases e,
{
    match e {
        AudioPathElement::Empty => AudioPathElement::Empty,
        AudioPathElement::MusicEndpoint(leaf) => AudioPathElement::MusicEndpoint(*leaf),
        AudioPathElement::AudioPath(node) => AudioPathElement::AudioPath(clone_path_node(node)),
    }
}

/// Copies an inner node with everything below it.
pub fn clone_path_node(node: &AudioPathNode) -> (r: AudioPathNode)
    ensures
        r.model() == node.model(),
    decreases node,
{
    let mut children: Vec<AudioPathElement> = Vec::new();
    let mut i: usize = 0;
    while i < node.children.len()
        invariant
            i <= node.children@.len(),
            children@.len() == i,
            forall|j: int| 0 <= j < i ==> (#[trigger] children@[j]).model() == node.children@[j].model(),
        decreases node.children@.len() - i,
    {
        let child = clone_path_element(&node.children[i]);
        children.push(child);
        i = i + 1;
    }
    let r = AudioPathNode {
        from_id: node.from_id,
        weight: node.weight,
        probability: node.probability,
        children_start_at_index: node.children_start_at_index,
        children,
    };
    assert(r.model().children =~= node.model().children);
    r
}

impl Clone for AudioPathNode {
    fn clone(&self) -> (r: Self)
        ensures
            r.model() == self.model(),
    {
        clone_path_node(self)
    }
}

impl Clone for AudioPathElement {
    fn clone(&self) -> (r: Self)
        ensures
            r.model() == self.model(),
    {
        clone_path_element(self)
    }
}

/// Number of whole records in a routing table.
pub open spec fn path_record_count(blob: Seq<u8>) -> int {
    blob.len() as int / 12
}

/// The second word of record `index`: a target id in a leaf, a packed pair of
/// first child and child count in an inner node.
pub open spec fn path_link(blob: Seq<u8>, index: int) -> int {
    le_u32(blob, 12 * index + 4)
}

/// Low half of a record's second word: the index of the first child.
pub open spec fn path_children_start(blob: Seq<u8>, index: int) -> int {
    path_link(blob, index) % 65536
}

/// High half of a record's second word: the number of children.
pub open spec fn path_child_count(blob: Seq<u8>, index: int) -> int {
    path_link(blob, index) / 65536
}

/// Whether record `index` is an inner node. The table carries no mark for it:
/// a record is an inner node exactly when its second word, read as a pair of
/// first child and child count, names a run of records that starts strictly
/// after the record itself and ends within the table.
pub open spec fn path_is_internal(blob: Seq<u8>, index: int) -> bool {
    &&& index < path_children_start(blob, index)
    &&& path_children_start(blob, index) < path_record_count(blob)
    &&& path_children_start(blob, index) + path_child_count(blob, index) <= path_record_count(
        blob,
    )
}

/// The routing tree rooted at record `index`, for `0 <= index` below the
/// record count.
pub open spec fn path_element(blob: Seq<u8>, index: int) -> AudioPathElementModel
    decreases path_record_count(blob) - index,
{
    let from_id = le_u32(blob, 12 * index) as u32;
    let weight = le_u16(blob, 12 * index + 8) as u16;
    let probability = le_u16(blob, 12 * index + 10) as u16;
    if path_is_internal(blob, index) {
        let start = path_children_start(blob, index);
        AudioPathElementModel::AudioPath(
            AudioPathNodeModel {
                from_id,
                weight,
                probability,
                children_start_at_index: start as u16,
                children: Seq::new(
                    path_child_count(blob, index) as nat,
                    |i: int|
                        if 0 <= i < path_child_count(blob, index) {
                            path_element(blob, start + i)
                        } else {
                            AudioPathElementModel::Empty
                        },
                ),
            },
        )
    } else {
        AudioPathElementModel::MusicEndpoint(
            MusicPathEndpoint {
                from_id,
                weight,
                probability,
                audio_id: path_link(blob, index) as u32,
            },
        )
    }
}

/// Rebuilds the routing tree rooted at record `index` of a routing table.
///
/// Fails exactly when the table holds no whole record at `index`.
pub fn build_path_element(blob: &[u8], index: u32) -> (r: Result<AudioPathElement, ParseError>)
    ensures
        match r {
            Ok(e) => index < path_record_count(blob@) && e.model() == path_element(
                blob@,
                index as int,
            ),
            Err(e) => index >= path_record_count(blob@) && e == ParseError::PathIndexOutOfBounds,
        },
    decreases path_record_count(blob@) - index,
{
    let len: u64 = blob.len() as u64;
    let records: u64 = len / 12;
    if index as u64 >= records {
        return Err(ParseError::PathIndexOutOfBounds);
    }
    let at: usize = (index as u64 * 12) as usize;
    let from_id: u32 = blob[at] as u32 + blob[at + 1] as u32 * 256 + blob[at + 2] as u32 * 65536
        + blob[at + 3] as u32 * 16777216;
    let link: u32 = blob[at + 4] as u32 + blob[at + 5] as u32 * 256 + blob[at + 6] as u32 * 65536
        + blob[at + 7] as u32 * 16777216;
    let weight: u16 = blob[at + 8] as u16 + blob[at + 9] as u16 * 256;
    let probability: u16 = blob[at + 10] as u16 + blob[at + 11] as u16 * 256;
    let start: u32 = link % 65536;
    let count: u32 = link / 65536;
    if index < start && (start as u64) < records && start as u64 + count as u64 <= records {
        let mut children: Vec<AudioPathElement> = Vec::new();
        let mut i: u32 = 0;
        while i < count
            invariant
                i <= count,
                count == path_child_count(blob@, index as int),
                start == path_children_start(blob@, index as int),
                path_is_internal(blob@, index as int),
                records == path_record_count(blob@),
                index < records,
                children@.len() == i,
                forall|j: int|
                    0 <= j < i ==> (#[trigger] children@[j]).model() == path_element(
                        blob@,
                        start + j,
                    ),
            decreases count - i,
        {
            let child = match build_path_element(blob, start + i) {
                Ok(c) => c,
                Err(e) => {
                    return Err(e);
                },
            };
            children.push(child);
            i = i + 1;
        }
        let node = AudioPathNode {
            from_id,
            weight,
            probability,
            children_start_at_index: start as u16,
            children,
        };
        assert(node.model().children =~= path_element(blob@, index as int)->AudioPath_0.children);
        Ok(AudioPathElement::AudioPath(node))
    } else {
        Ok(
            AudioPathElement::MusicEndpoint(
                MusicPathEndpoint { from_id, weight, probability, audio_id: link },
            ),
        )
    }
}

/// A piece of audio that a track plays.
#[derive(Debug, Clone, Copy, PartialEq, Eq, Structural)]
pub struct Sound {
    pub unk4: u8,
    pub unk5: u8,
    pub conversion: u8,
    pub unk7: u8,
    pub source: u8,
    pub audio_id: u32,
    pub audio_len: u32,
    pub audio_type: u8,
}

impl Record for Sound {
    type Model = Sound;

    open spec fn model(&self) -> Sound {
        *self
    }

    /// Five bytes, the audio's id and length, and its type.
    open spec fn parse(s: Seq<u8>, at: int) -> Option<(Sound, int)> {
        if fits(s, at, 14) {
            Some(
                (
                    Sound {
                        unk4: s[at],
                        unk5: s[at + 1],
                        conversion: s[at + 2],
                        unk7: s[at + 3],
                        source: s[at + 4],
                        audio_id: le_u32(s, at + 5) as u32,
                        audio_len: le_u32(s, at + 9) as u32,
                        audio_type: s[at + 13],
                    },
                    at + 14,
                ),
            )
        } else {
            None
        }
    }

    fn read(cur: &mut Cursor) -> (r: Option<Sound>) {
        let unk4: u8 = cur.read_u8()?;
        let unk5: u8 = cur.read_u8()?;
        let conversion: u8 = cur.read_u8()?;
        let unk7: u8 = cur.read_u8()?;
        let source: u8 = cur.read_u8()?;
        let audio_id: u32 = cur.read_u32_le()?;
        let audio_len: u32 = cur.read_u32_le()?;
        let audio_type: u8 = cur.read_u8()?;
        Some(Sound { unk4, unk5, conversion, unk7, source, audio_id, audio_len, audio_type })
    }

    fn replicate(&self) -> (r: Sound) {
        *self
    }
}

/// When a piece of audio plays within its track. The offsets are double-precision numbers, each
/// held as its bits.
#[derive(Debug, Clone, Copy, PartialEq, Eq, Structural)]
pub struct MusicTrackTimeParameter {
    pub sub_track_index: u32,
    pub audio_id: u32,
    pub event_id: u32,
    pub begin_offset: u64,
    pub begin_trim_offset: u64,
    pub end_trim_offset: u64,
    pub end_offset: u64,
}

impl Record for MusicTrackTimeParameter {
    type Model = MusicTrackTimeParameter;

    open spec fn model(&self) -> MusicTrackTimeParameter {
        *self
    }

    /// Three 32-bit values and four double-precision numbers.
    open spec fn parse(s: Seq<u8>, at: int) -> Option<(MusicTrackTimeParameter, int)> {
        if fits(s, at, 44) {
            Some(
                (
                    MusicTrackTimeParameter {
                        sub_track_index: le_u32(s, at) as u32,
                        audio_id: le_u32(s, at + 4) as u32,
                        event_id: le_u32(s, at + 8) as u32,
                        begin_offset: le_u64(s, at + 12) as u64,
                        begin_trim_offset: le_u64(s, at + 20) as u64,
                        end_trim_offset: le_u64(s, at + 28) as u64,
                        end_offset: le_u64(s, at + 36) as u64,
                    },
                    at + 44,
                ),
            )
        } else {
            None
        }
    }

    fn read(cur: &mut Cursor) -> (r: Option<MusicTrackTimeParameter>) {
        let sub_track_index: u32 = cur.read_u32_le()?;
        let audio_id: u32 = cur.read_u32_le()?;
        let event_id: u32 = cur.read_u32_le()?;
        let begin_offset: u64 = cur.read_u64_le()?;
        let begin_trim_offset: u64 = cur.read_u64_le()?;
        let end_trim_offset: u64 = cur.read_u64_le()?;
        let end_offset: u64 = cur.read_u64_le()?;
        Some(
            MusicTrackTimeParameter {
                sub_track_index,
                audio_id,
                event_id,
                begin_offset,
                begin_trim_offset,
                end_trim_offset,
                end_offset,
            },
        )
    }

    fn replicate(&self) -> (r: MusicTrackTimeParameter) {
        *self
    }
}

/// A point of a track's automation curve. The coordinates are single-precision numbers, each held
/// as its bits.
#[derive(Debug, Clone, Copy, PartialEq, Eq, Structural)]
pub struct MusicCurvePoint {
    pub x: u32,
    pub y: u32,
    pub following_shape: u32,
}

impl Record for MusicCurvePoint {
    type Model = MusicCurvePoint;

    open spec fn model(&self) -> MusicCurvePoint {
        *self
    }

    /// Two single-precision numbers and the shape of the segment that follows.
    open spec fn parse(s: Seq<u8>, at: int) -> Option<(MusicCurvePoint, int)> {
        if fits(s, at, 12) {
            Some(
                (
                    MusicCurvePoint {
                        x: le_u32(s, at) as u32,
                        y: le_u32(s, at + 4) as u32,
                        following_shape: le_u32(s, at + 8) as u32,
                    },
                    at + 12,
                ),
            )
        } else {
            None
        }
    }

    fn read(cur: &mut Cursor) -> (r: Option<MusicCurvePoint>) {
        let x: u32 = cur.read_u32_le()?;
        let y: u32 = cur.read_u32_le()?;
        let following_shape: u32 = cur.read_u32_le()?;
        Some(MusicCurvePoint { x, y, following_shape })
    }

    fn replicate(&self) -> (r: MusicCurvePoint) {
        *self
    }
}

/// A short segment that a trigger plays over the music.
#[derive(Debug, Clone, Copy, PartialEq, Eq, Structural)]
pub struct MusicStinger {
    pub trigger_id: u32,
    pub segment_id: u32,
    pub play_at: u32,
    pub cue_id: u32,
    pub do_not_repeat_in: u32,
    pub allow_playing_in_next_segment: u32,
}

impl Record for MusicStinger {
    type Model = MusicStinger;

    open spec fn model(&self) -> MusicStinger {
        *self
    }

    /// Six 32-bit values.
    open spec fn parse(s: Seq<u8>, at: int) -> Option<(MusicStinger, int)> {
        if fits(s, at, 24) {
            Some(
                (
                    MusicStinger {
                        trigger_id: le_u32(s, at) as u32,
                        segment_id: le_u32(s, at + 4) as u32,
                        play_at: le_u32(s, at + 8) as u32,
                        cue_id: le_u32(s, at + 12) as u32,
                        do_not_repeat_in: le_u32(s, at + 16) as u32,
                        allow_playing_in_next_segment: le_u32(s, at + 20) as u32,
                    },
                    at + 24,
                ),
            )
        } else {
            None
        }
    }

    fn read(cur: &mut Cursor) -> (r: Option<MusicStinger>) {
        let trigger_id: u32 = cur.read_u32_le()?;
        let segment_id: u32 = cur.read_u32_le()?;
        let play_at: u32 = cur.read_u32_le()?;
        let cue_id: u32 = cur.read_u32_le()?;
        let do_not_repeat_in: u32 = cur.read_u32_le()?;
        let allow_playing_in_next_segment: u32 = cur.read_u32_le()?;
        Some(
            MusicStinger {
                trigger_id,
                segment_id,
                play_at,
                cue_id,
                do_not_repeat_in,
                allow_playing_in_next_segment,
            },
        )
    }

    fn replicate(&self) -> (r: MusicStinger) {
        *self
    }
}

/// A segment that plays between the source and the destination of a transition.
#[derive(Debug, Clone, Copy, PartialEq, Eq, Structural)]
pub struct TransitionSegment {
    pub id: u32,
    pub fade_in_duration: u32,
    pub fade_in_curve: u32,
    pub fade_in_offset: u32,
    pub fade_out_duration: u32,
    pub fade_out_curve: u32,
    pub fade_out_offset: u32,
    pub play_pre_entry: u8,
    pub play_post_exit: u8,
}

impl Record for TransitionSegment {
    type Model = TransitionSegment;

    open spec fn model(&self) -> TransitionSegment {
        *self
    }

    /// Seven 32-bit values and two bytes.
    open spec fn parse(s: Seq<u8>, at: int) -> Option<(TransitionSegment, int)> {
        if fits(s, at, 30) {
            Some(
                (
                    TransitionSegment {
                        id: le_u32(s, at) as u32,
                        fade_in_duration: le_u32(s, at + 4) as u32,
                        fade_in_curve: le_u32(s, at + 8) as u32,
                        fade_in_offset: le_u32(s, at + 12) as u32,
                        fade_out_duration: le_u32(s, at + 16) as u32,
                        fade_out_curve: le_u32(s, at + 20) as u32,
                        fade_out_offset: le_u32(s, at + 24) as u32,
                        play_pre_entry: s[at + 28],
                        play_post_exit: s[at + 29],
                    },
                    at + 30,
                ),
            )
        } else {
            None
        }
    }

    fn read(cur: &mut Cursor) -> (r: Option<TransitionSegment>) {
        let id: u32 = cur.read_u32_le()?;
        let fade_in_duration: u32 = cur.read_u32_le()?;
        let fade_in_curve: u32 = cur.read_u32_le()?;
        let fade_in_offset: u32 = cur.read_u32_le()?;
        let fade_out_duration: u32 = cur.read_u32_le()?;
        let fade_out_curve: u32 = cur.read_u32_le()?;
        let fade_out_offset: u32 = cur.read_u32_le()?;
        let play_pre_entry: u8 = cur.read_u8()?;
        let play_post_exit: u8 = cur.read_u8()?;
        Some(
            TransitionSegment {
                id,
                fade_in_duration,
                fade_in_curve,
                fade_in_offset,
                fade_out_duration,
                fade_out_curve,
                fade_out_offset,
                play_pre_entry,
                play_post_exit,
            },
        )
    }

    fn replicate(&self) -> (r: TransitionSegment) {
        *self
    }
}

impl Default for TransitionSegment {
    fn default() -> (r: Self)
        ensures
            r == (
                TransitionSegment {
                    id: 0,
                    fade_in_duration: 0,
                    fade_in_curve: 0,
                    fade_in_offset: 0,
                    fade_out_duration: 0,
                    fade_out_curve: 0,
                    fade_out_offset: 0,
                    play_pre_entry: 0,
                    play_post_exit: 0,
                }
            ),
    {
        TransitionSegment {
            id: 0,
            fade_in_duration: 0,
            fade_in_curve: 0,
            fade_in_offset: 0,
            fade_out_duration: 0,
            fade_out_curve: 0,
            fade_out_offset: 0,
            play_pre_entry: 0,
            play_post_exit: 0,
        }
    }
}

/// How a track picks what it plays.
#[derive(Debug, Clone, Copy, PartialEq, Eq, Hash, Structural)]
pub enum MusicTrackType {
    Normal,
    RandomStep,
    SequenceStep,
    Switch,
}

impl MusicTrackType {
    /// The track type that a code names; codes above 3 name none.
    pub open spec fn of_code(b: u8) -> Option<MusicTrackType> {
        match b {
            0 => Some(MusicTrackType::Normal),
            1 => Some(MusicTrackType::RandomStep),
            2 => Some(MusicTrackType::SequenceStep),
            3 => Some(MusicTrackType::Switch),
            _ => None,
        }
    }

    /// Decodes a track type.
    pub fn from_code(b: u8) -> (r: Option<MusicTrackType>)
        ensures
            r == Self::of_code(b),
    {
        match b {
            0 => Some(MusicTrackType::Normal),
            1 => Some(MusicTrackType::RandomStep),
            2 => Some(MusicTrackType::SequenceStep),
            3 => Some(MusicTrackType::Switch),
            _ => None,
        }
    }
}

impl Default for MusicTrackType {
    fn default() -> (r: Self)
        ensures
            r == MusicTrackType::Normal,
    {
        MusicTrackType::Normal
    }
}

/// An automation curve of a track.
#[derive(Debug, PartialEq, Eq)]
pub struct MusicTrackCurve {
    pub time_parameter_index: u32,
    pub curve_type: u32,
    pub point_count: u32,
    pub points: Vec<MusicCurvePoint>,
}

/// The mathematical value of a [`MusicTrackCurve`].
pub struct MusicTrackCurveModel {
    pub time_parameter_index: u32,
    pub curve_type: u32,
    pub point_count: u32,
    pub points: Seq<MusicCurvePoint>,
}

impl Record for MusicTrackCurve {
    type Model = MusicTrackCurveModel;

    open spec fn model(&self) -> MusicTrackCurveModel {
        MusicTrackCurveModel {
            time_parameter_index: self.time_parameter_index,
            curve_type: self.curve_type,
            point_count: self.point_count,
            points: self.points@,
        }
    }

    /// Two 32-bit values, the number of points and the points themselves.
    open spec fn parse(s: Seq<u8>, at: int) -> Option<(MusicTrackCurveModel, int)> {
        if !fits(s, at, 12) {
            None
        } else {
            match parse_many::<MusicCurvePoint>(s, at + 12, le_u32(s, at + 8) as nat) {
                None => None,
                Some((points, end)) => Some(
                    (
                        MusicTrackCurveModel {
                            time_parameter_index: le_u32(s, at) as u32,
                            curve_type: le_u32(s, at + 4) as u32,
                            point_count: le_u32(s, at + 8) as u32,
                            points,
                        },
                        end,
                    ),
                ),
            }
        }
    }

    fn read(cur: &mut Cursor) -> (r: Option<MusicTrackCurve>) {
        let time_parameter_index: u32 = cur.read_u32_le()?;
        let curve_type: u32 = cur.read_u32_le()?;
        let point_count: u32 = cur.read_u32_le()?;
        let points = read_many::<MusicCurvePoint>(cur, point_count as u64)?;
        assert(models(points@) =~= points@);
        Some(MusicTrackCurve { time_parameter_index, curve_type, point_count, points })
    }

    fn replicate(&self) -> (r: MusicTrackCurve) {
        MusicTrackCurve {
            time_parameter_index: self.time_parameter_index,
            curve_type: self.curve_type,
            point_count: self.point_count,
            points: replicate_plain(&self.points),
        }
    }
}

impl Clone for MusicTrackCurve {
    fn clone(&self) -> (r: Self)
        ensures
            r.model() == self.model(),
    {
        self.replicate()
    }
}

/// What a switch track plays in which state, and how it fades.
#[derive(Debug, PartialEq, Eq)]
pub struct MusicSwitchParams {
    pub group_id: u32,
    pub default_switch_state_id: u32,
    pub sub_track_count: u32,
    pub associated_switch_state_ids: Vec<u32>,
    pub fade_out_dur: u32,
    pub fade_out_shape: u32,
    pub face_out_offset: u32,
    pub exit_souce_at: u32,
    pub exit_source_at_cueid: u32,
    pub fade_in_dur: u32,
    pub fade_in_shape: u32,
    pub fade_in_offset: u32,
}

/// The mathematical value of a [`MusicSwitchParams`].
pub struct MusicSwitchParamsModel {
    pub group_id: u32,
    pub default_switch_state_id: u32,
    pub sub_track_count: u32,
    pub associated_switch_state_ids: Seq<u32>,
    pub fade_out_dur: u32,
    pub fade_out_shape: u32,
    pub face_out_offset: u32,
    pub exit_souce_at: u32,
    pub exit_source_at_cueid: u32,
    pub fade_in_dur: u32,
    pub fade_in_shape: u32,
    pub fade_in_offset: u32,
}

impl MusicSwitchParamsModel {
    /// The value that stands where a track holds no such block.
    pub open spec fn absent() -> MusicSwitchParamsModel {
        MusicSwitchParamsModel {
            group_id: 0,
            default_switch_state_id: 0,
            sub_track_count: 0,
            associated_switch_state_ids: Seq::empty(),
            fade_out_dur: 0,
            fade_out_shape: 0,
            face_out_offset: 0,
            exit_souce_at: 0,
            exit_source_at_cueid: 0,
            fade_in_dur: 0,
            fade_in_shape: 0,
            fade_in_offset: 0,
        }
    }
}

impl Record for MusicSwitchParams {
    type Model = MusicSwitchParamsModel;

    open spec fn model(&self) -> MusicSwitchParamsModel {
        MusicSwitchParamsModel {
            group_id: self.group_id,
            default_switch_state_id: self.default_switch_state_id,
            sub_track_count: self.sub_track_count,
            associated_switch_state_ids: self.associated_switch_state_ids@,
            fade_out_dur: self.fade_out_dur,
            fade_out_shape: self.fade_out_shape,
            face_out_offset: self.face_out_offset,
            exit_souce_at: self.exit_souce_at,
            exit_source_at_cueid: self.exit_source_at_cueid,
            fade_in_dur: self.fade_in_dur,
            fade_in_shape: self.fade_in_shape,
            fade_in_offset: self.fade_in_offset,
        }
    }

    /// A byte that is passed over, the group and its default state, the
    /// number of sub-tracks with one state id for each, and eight 32-bit
    /// values that describe the fades.
    open spec fn parse(s: Seq<u8>, at: int) -> Option<(MusicSwitchParamsModel, int)> {
        if !fits(s, at, 13) {
            None
        } else {
            match parse_many::<u32>(s, at + 13, le_u32(s, at + 9) as nat) {
                None => None,
                Some((ids, at1)) => if !fits(s, at1, 32) {
                    None
                } else {
                    Some(
                        (
                            MusicSwitchParamsModel {
                                group_id: le_u32(s, at + 1) as u32,
                                default_switch_state_id: le_u32(s, at + 5) as u32,
                                sub_track_count: le_u32(s, at + 9) as u32,
                                associated_switch_state_ids: ids,
                                fade_out_dur: le_u32(s, at1) as u32,
                                fade_out_shape: le_u32(s, at1 + 4) as u32,
                                face_out_offset: le_u32(s, at1 + 8) as u32,
                                exit_souce_at: le_u32(s, at1 + 12) as u32,
                                exit_source_at_cueid: le_u32(s, at1 + 16) as u32,
                                fade_in_dur: le_u32(s, at1 + 20) as u32,
                                fade_in_shape: le_u32(s, at1 + 24) as u32,
                                fade_in_offset: le_u32(s, at1 + 28) as u32,
                            },
                            at1 + 32,
                        ),
                    )
                },
            }
        }
    }

    fn read(cur: &mut Cursor) -> (r: Option<MusicSwitchParams>) {
        cur.skip(1)?;
        let group_id: u32 = cur.read_u32_le()?;
        let default_switch_state_id: u32 = cur.read_u32_le()?;
        let sub_track_count: u32 = cur.read_u32_le()?;
        let associated_switch_state_ids = read_many::<u32>(cur, sub_track_count as u64)?;
        assert(models(associated_switch_state_ids@) =~= associated_switch_state_ids@);
        let fade_out_dur: u32 = cur.read_u32_le()?;
        let fade_out_shape: u32 = cur.read_u32_le()?;
        let face_out_offset: u32 = cur.read_u32_le()?;
        let exit_souce_at: u32 = cur.read_u32_le()?;
        let exit_source_at_cueid: u32 = cur.read_u32_le()?;
        let fade_in_dur: u32 = cur.read_u32_le()?;
        let fade_in_shape: u32 = cur.read_u32_le()?;
        let fade_in_offset: u32 = cur.read_u32_le()?;
        Some(
            MusicSwitchParams {
                group_id,
                default_switch_state_id,
                sub_track_count,
                associated_switch_state_ids,
                fade_out_dur,
                fade_out_shape,
                face_out_offset,
                exit_souce_at,
                exit_source_at_cueid,
                fade_in_dur,
                fade_in_shape,
                fade_in_offset,
            },
        )
    }

    fn replicate(&self) -> (r: MusicSwitchParams) {
        MusicSwitchParams {
            group_id: self.group_id,
            default_switch_state_id: self.default_switch_state_id,
            sub_track_count: self.sub_track_count,
            associated_switch_state_ids: replicate_plain(&self.associated_switch_state_ids),
            fade_out_dur: self.fade_out_dur,
            fade_out_shape: self.fade_out_shape,
            face_out_offset: self.face_out_offset,
            exit_souce_at: self.exit_souce_at,
            exit_source_at_cueid: self.exit_source_at_cueid,
            fade_in_dur: self.fade_in_dur,
            fade_in_shape: self.fade_in_shape,
            fade_in_offset: self.fade_in_offset,
        }
    }
}

impl Clone for MusicSwitchParams {
    fn clone(&self) -> (r: Self)
        ensures
            r.model() == self.model(),
    {
        self.replicate()
    }
}

impl Default for MusicSwitchParams {
    fn default() -> (r: Self)
        ensures
            r.model() == MusicSwitchParamsModel::absent(),
    {
        MusicSwitchParams {
            group_id: 0,
            default_switch_state_id: 0,
            sub_track_count: 0,
            associated_switch_state_ids: Vec::new(),
            fade_out_dur: 0,
            fade_out_shape: 0,
            face_out_offset: 0,
            exit_souce_at: 0,
            exit_source_at_cueid: 0,
            fade_in_dur: 0,
            fade_in_shape: 0,
            fade_in_offset: 0,
        }
    }
}

/// How the music moves from some sources to some destinations.
#[derive(Debug, PartialEq, Eq)]
pub struct MusicTransition {
    pub source_ids: Vec<u32>,
    pub destination_ids: Vec<u32>,
    pub fade_out_duration: u32,
    pub fade_out_curve: u32,
    pub fade_out_offset: u32,
    pub exit_source_at: u32,
    pub exit_source_at_id: u32,
    pub play_post_exit: u8,
    pub fade_in_duration: u32,
    pub fade_in_curve: u32,
    pub fade_in_offset: u32,
    pub custom_cue_filter_id: u32,
    pub jump_to_playlist_item_id: u32,
    pub destination_sync_to: u32,
    pub play_pre_entry: u8,
    pub match_source_cue_name: u8,
    pub use_transition_segment: u8,
    /// Present in the bank only where `use_transition_segment` is 1.
    pub transition_segment: TransitionSegment,
}

/// The mathematical value of a [`MusicTransition`].
pub struct MusicTransitionModel {
    pub source_ids: Seq<u32>,
    pub destination_ids: Seq<u32>,
    pub fade_out_duration: u32,
    pub fade_out_curve: u32,
    pub fade_out_offset: u32,
    pub exit_source_at: u32,
    pub exit_source_at_id: u32,
    pub play_post_exit: u8,
    pub fade_in_duration: u32,
    pub fade_in_curve: u32,
    pub fade_in_offset: u32,
    pub custom_cue_filter_id: u32,
    pub jump_to_playlist_item_id: u32,
    pub destination_sync_to: u32,
    pub play_pre_entry: u8,
    pub match_source_cue_name: u8,
    pub use_transition_segment: u8,
    pub transition_segment: TransitionSegment,
}

/// The segment of a transition whose flag byte is `flag`: read from the bank
/// where the flag is 1, all zero otherwise.
pub open spec fn parse_transition_segment(s: Seq<u8>, at: int, flag: u8) -> Option<
    (TransitionSegment, int),
> {
    if flag == 1 {
        TransitionSegment::parse(s, at)
    } else {
        Some(
            (
                TransitionSegment {
                    id: 0,
                    fade_in_duration: 0,
                    fade_in_curve: 0,
                    fade_in_offset: 0,
                    fade_out_duration: 0,
                    fade_out_curve: 0,
                    fade_out_offset: 0,
                    play_pre_entry: 0,
                    play_post_exit: 0,
                },
                at,
            ),
        )
    }
}

/// The sources and the destinations of a transition, each behind a
/// four-byte count.
pub open spec fn parse_transition_ends(s: Seq<u8>, at: int) -> Option<
    ((Seq<u32>, Seq<u32>), int),
> {
    match parse_list_u32::<u32>(s, at) {
        None => None,
        Some((sources, at1)) => match parse_list_u32::<u32>(s, at1) {
            None => None,
            Some((destinations, at2)) => Some(((sources, destinations), at2)),
        },
    }
}

fn read_transition_ends(cur: &mut Cursor) -> (r: Option<(Vec<u32>, Vec<u32>)>)
    ensures
        final(cur).bytes() == old(cur).bytes(),
        match r {
            Some(v) => parse_transition_ends(old(cur).bytes(), old(cur).offset()) == Some(
                ((v.0@, v.1@), final(cur).offset()),
            ),
            None => parse_transition_ends(old(cur).bytes(), old(cur).offset()) is None,
        },
{
    let sources = read_list_u32::<u32>(cur)?;
    let destinations = read_list_u32::<u32>(cur)?;
    assert(models(sources@) =~= sources@);
    assert(models(destinations@) =~= destinations@);
    Some((sources, destinations))
}

fn read_transition_segment(cur: &mut Cursor, flag: u8) -> (r: Option<TransitionSegment>)
    ensures
        final(cur).bytes() == old(cur).bytes(),
        match r {
            Some(v) => parse_transition_segment(old(cur).bytes(), old(cur).offset(), flag)
                == Some((v, final(cur).offset())),
            None => parse_transition_segment(old(cur).bytes(), old(cur).offset(), flag) is None,
        },
{
    if flag == 1 {
        TransitionSegment::read(cur)
    } else {
        Some(TransitionSegment::default())
    }
}

impl Record for MusicTransition {
    type Model = MusicTransitionModel;

    open spec fn model(&self) -> MusicTransitionModel {
        MusicTransitionModel {
            source_ids: self.source_ids@,
            destination_ids: self.destination_ids@,
            fade_out_duration: self.fade_out_duration,
            fade_out_curve: self.fade_out_curve,
            fade_out_offset: self.fade_out_offset,
            exit_source_at: self.exit_source_at,
            exit_source_at_id: self.exit_source_at_id,
            play_post_exit: self.play_post_exit,
            fade_in_duration: self.fade_in_duration,
            fade_in_curve: self.fade_in_curve,
            fade_in_offset: self.fade_in_offset,
            custom_cue_filter_id: self.custom_cue_filter_id,
            jump_to_playlist_item_id: self.jump_to_playlist_item_id,
            destination_sync_to: self.destination_sync_to,
            play_pre_entry: self.play_pre_entry,
            match_source_cue_name: self.match_source_cue_name,
            use_transition_segment: self.use_transition_segment,
            transition_segment: self.transition_segment,
        }
    }

    /// The sources and destinations, 48 bytes of fixed fields whose last
    /// byte is the segment flag, and the segment that the flag gates.
    open spec fn parse(s: Seq<u8>, at: int) -> Option<(MusicTransitionModel, int)> {
        match parse_transition_ends(s, at) {
            None => None,
            Some((ends, at1)) => if !fits(s, at1, 48) {
                None
            } else {
                match parse_transition_segment(s, at1 + 48, s[at1 + 47]) {
                    None => None,
                    Some((segment, end)) => Some(
                        (
                            MusicTransitionModel {
                                source_ids: ends.0,
                                destination_ids: ends.1,
                                fade_out_duration: le_u32(s, at1) as u32,
                                fade_out_curve: le_u32(s, at1 + 4) as u32,
                                fade_out_offset: le_u32(s, at1 + 8) as u32,
                                exit_source_at: le_u32(s, at1 + 12) as u32,
                                exit_source_at_id: le_u32(s, at1 + 16) as u32,
                                play_post_exit: s[at1 + 20],
                                fade_in_duration: le_u32(s, at1 + 21) as u32,
                                fade_in_curve: le_u32(s, at1 + 25) as u32,
                                fade_in_offset: le_u32(s, at1 + 29) as u32,
                                custom_cue_filter_id: le_u32(s, at1 + 33) as u32,
                                jump_to_playlist_item_id: le_u32(s, at1 + 37) as u32,
                                destination_sync_to: le_u32(s, at1 + 41) as u32,
                                play_pre_entry: s[at1 + 45],
                                match_source_cue_name: s[at1 + 46],
                                use_transition_segment: s[at1 + 47],
                                transition_segment: segment,
                            },
                            end,
                        ),
                    ),
                }
            },
        }
    }

    fn read(cur: &mut Cursor) -> (r: Option<MusicTransition>) {
        let (source_ids, destination_ids) = read_transition_ends(cur)?;
        let fade_out_duration: u32 = cur.read_u32_le()?;
        let fade_out_curve: u32 = cur.read_u32_le()?;
        let fade_out_offset: u32 = cur.read_u32_le()?;
        let exit_source_at: u32 = cur.read_u32_le()?;
        let exit_source_at_id: u32 = cur.read_u32_le()?;
        let play_post_exit: u8 = cur.read_u8()?;
        let fade_in_duration: u32 = cur.read_u32_le()?;
        let fade_in_curve: u32 = cur.read_u32_le()?;
        let fade_in_offset: u32 = cur.read_u32_le()?;
        let custom_cue_filter_id: u32 = cur.read_u32_le()?;
        let jump_to_playlist_item_id: u32 = cur.read_u32_le()?;
        let destination_sync_to: u32 = cur.read_u32_le()?;
        let play_pre_entry: u8 = cur.read_u8()?;
        let match_source_cue_name: u8 = cur.read_u8()?;
        let use_transition_segment: u8 = cur.read_u8()?;
        let transition_segment = read_transition_segment(cur, use_transition_segment)?;
        Some(
            MusicTransition {
                source_ids,
                destination_ids,
                fade_out_duration,
                fade_out_curve,
                fade_out_offset,
                exit_source_at,
                exit_source_at_id,
                play_post_exit,
                fade_in_duration,
                fade_in_curve,
                fade_in_offset,
                custom_cue_filter_id,
                jump_to_playlist_item_id,
                destination_sync_to,
                play_pre_entry,
                match_source_cue_name,
                use_transition_segment,
                transition_segment,
            },
        )
    }

    fn replicate(&self) -> (r: MusicTransition) {
        MusicTransition {
            source_ids: replicate_plain(&self.source_ids),
            destination_ids: replicate_plain(&self.destination_ids),
            fade_out_duration: self.fade_out_duration,
            fade_out_curve: self.fade_out_curve,
            fade_out_offset: self.fade_out_offset,
            exit_source_at: self.exit_source_at,
            exit_source_at_id: self.exit_source_at_id,
            play_post_exit: self.play_post_exit,
            fade_in_duration: self.fade_in_duration,
            fade_in_curve: self.fade_in_curve,
            fade_in_offset: self.fade_in_offset,
            custom_cue_filter_id: self.custom_cue_filter_id,
            jump_to_playlist_item_id: self.jump_to_playlist_item_id,
            destination_sync_to: self.destination_sync_to,
            play_pre_entry: self.play_pre_entry,
            match_source_cue_name: self.match_source_cue_name,
            use_transition_segment: self.use_transition_segment,
            transition_segment: self.transition_segment,
        }
    }
}

impl Clone for MusicTransition {
    fn clone(&self) -> (r: Self)
        ensures
            r.model() == self.model(),
    {
        self.replicate()
    }
}

/// A track of music.
#[derive(Debug, PartialEq, Eq)]
pub struct MusicTrack {
    pub id: u32,
    pub midi_behaviour: u8,
    pub sounds: Vec<Sound>,
    pub time_parameters: Vec<MusicTrackTimeParameter>,
    /// Present in the bank only where the track has time parameters.
    pub sub_track_count: u32,
    pub curves: Vec<MusicTrackCurve>,
    pub properties: AudioProperties,
    pub track_type: MusicTrackType,
    /// Present in the bank only where the track is a switch track.
    pub switch_params: MusicSwitchParams,
    pub look_ahead_time: u32,
}

/// The mathematical value of a [`MusicTrack`].
pub struct MusicTrackModel {
    pub id: u32,
    pub midi_behaviour: u8,
    pub sounds: Seq<Sound>,
    pub time_parameters: Seq<MusicTrackTimeParameter>,
    pub sub_track_count: u32,
    pub curves: Seq<MusicTrackCurveModel>,
    pub properties: AudioPropertiesModel,
    pub track_type: MusicTrackType,
    pub switch_params: MusicSwitchParamsModel,
    pub look_ahead_time: u32,
}

/// The time parameters of a track behind a four-byte count and, only where
/// there is at least one, the number of sub-tracks (zero otherwise).
pub open spec fn parse_time_parameters(s: Seq<u8>, at: int) -> Option<
    ((Seq<MusicTrackTimeParameter>, u32), int),
> {
    match parse_list_u32::<MusicTrackTimeParameter>(s, at) {
        None => None,
        Some((params, at1)) => if params.len() > 0 {
            match parse_u32_le(s, at1) {
                None => None,
                Some((sub_tracks, at2)) => Some(((params, sub_tracks), at2)),
            }
        } else {
            Some(((params, 0u32), at1))
        },
    }
}

/// The end of a track: its type, the switch parameters only where the type
/// is the switch type, and the look-ahead time. A type code above 3 is
/// refused.
pub open spec fn parse_track_tail(s: Seq<u8>, at: int) -> Option<
    ((MusicTrackType, MusicSwitchParamsModel, u32), int),
> {
    match parse_u8(s, at) {
        None => None,
        Some((code, at1)) => match MusicTrackType::of_code(code) {
            None => None,
            Some(track_type) => if track_type == MusicTrackType::Switch {
                match MusicSwitchParams::parse(s, at1) {
                    None => None,
                    Some((params, at2)) => match parse_u32_le(s, at2) {
                        None => None,
                        Some((look_ahead, at3)) => Some(((track_type, params, look_ahead), at3)),
                    },
                }
            } else {
                match parse_u32_le(s, at1) {
                    None => None,
                    Some((look_ahead, at2)) => Some(
                        ((track_type, MusicSwitchParamsModel::absent(), look_ahead), at2),
                    ),
                }
            },
        },
    }
}

fn read_time_parameters(cur: &mut Cursor) -> (r: Option<(Vec<MusicTrackTimeParameter>, u32)>)
    ensures
        final(cur).bytes() == old(cur).bytes(),
        match r {
            Some(v) => parse_time_parameters(old(cur).bytes(), old(cur).offset()) == Some(
                ((v.0@, v.1), final(cur).offset()),
            ),
            None => parse_time_parameters(old(cur).bytes(), old(cur).offset()) is None,
        },
{
    let params = read_list_u32::<MusicTrackTimeParameter>(cur)?;
    assert(models(params@) =~= params@);
    let sub_tracks: u32 = if params.len() > 0 {
        cur.read_u32_le()?
    } else {
        0
    };
    Some((params, sub_tracks))
}

fn read_track_tail(cur: &mut Cursor) -> (r: Option<(MusicTrackType, MusicSwitchParams, u32)>)
    ensures
        final(cur).bytes() == old(cur).bytes(),
        match r {
            Some(v) => parse_track_tail(old(cur).bytes(), old(cur).offset()) == Some(
                ((v.0, v.1.model(), v.2), final(cur).offset()),
            ),
            None => parse_track_tail(old(cur).bytes(), old(cur).offset()) is None,
        },
{
    let code: u8 = cur.read_u8()?;
    let track_type = MusicTrackType::from_code(code)?;
    let switch_params = if track_type == MusicTrackType::Switch {
        MusicSwitchParams::read(cur)?
    } else {
        MusicSwitchParams::default()
    };
    let look_ahead: u32 = cur.read_u32_le()?;
    Some((track_type, switch_params, look_ahead))
}

impl Record for MusicTrack {
    type Model = MusicTrackModel;

    open spec fn model(&self) -> MusicTrackModel {
        MusicTrackModel {
            id: self.id,
            midi_behaviour: self.midi_behaviour,
            sounds: self.sounds@,
            time_parameters: self.time_parameters@,
            sub_track_count: self.sub_track_count,
            curves: models(self.curves@),
            properties: self.properties.model(),
            track_type: self.track_type,
            switch_params: self.switch_params.model(),
            look_ahead_time: self.look_ahead_time,
        }
    }

    /// The id and the midi behaviour, the sounds, the time parameters, the
    /// curves, the properties block and the tail.
    open spec fn parse(s: Seq<u8>, at: int) -> Option<(MusicTrackModel, int)> {
        if !fits(s, at, 5) {
            None
        } else {
            match parse_list_u32::<Sound>(s, at + 5) {
                None => None,
                Some((sounds, at1)) => match parse_time_parameters(s, at1) {
                    None => None,
                    Some((times, at2)) => match parse_list_u32::<MusicTrackCurve>(s, at2) {
                        None => None,
                        Some((curves, at3)) => match AudioProperties::parse(s, at3) {
                            None => None,
                            Some((properties, at4)) => match parse_track_tail(s, at4) {
                                None => None,
                                Some((tail, at5)) => Some(
                                    (
                                        MusicTrackModel {
                                            id: le_u32(s, at) as u32,
                                            midi_behaviour: s[at + 4],
                                            sounds,
                                            time_parameters: times.0,
                                            sub_track_count: times.1,
                                            curves,
                                            properties,
                                            track_type: tail.0,
                                            switch_params: tail.1,
                                            look_ahead_time: tail.2,
                                        },
                                        at5,
                                    ),
                                ),
                            },
                        },
                    },
                },
            }
        }
    }

    fn read(cur: &mut Cursor) -> (r: Option<MusicTrack>) {
        let id: u32 = cur.read_u32_le()?;
        let midi_behaviour: u8 = cur.read_u8()?;
        let sounds = read_list_u32::<Sound>(cur)?;
        assert(models(sounds@) =~= sounds@);
        let (time_parameters, sub_track_count) = read_time_parameters(cur)?;
        let curves = read_list_u32::<MusicTrackCurve>(cur)?;
        let properties = AudioProperties::read(cur)?;
        let (track_type, switch_params, look_ahead_time) = read_track_tail(cur)?;
        Some(
            MusicTrack {
                id,
                midi_behaviour,
                sounds,
                time_parameters,
                sub_track_count,
                curves,
                properties,
                track_type,
                switch_params,
                look_ahead_time,
            },
        )
    }

    fn replicate(&self) -> (r: MusicTrack) {
        MusicTrack {
            id: self.id,
            midi_behaviour: self.midi_behaviour,
            sounds: replicate_plain(&self.sounds),
            time_parameters: replicate_plain(&self.time_parameters),
            sub_track_count: self.sub_track_count,
            curves: replicate_all(&self.curves),
            properties: self.properties.replicate(),
            track_type: self.track_type,
            switch_params: self.switch_params.replicate(),
            look_ahead_time: self.look_ahead_time,
        }
    }
}

impl Clone for MusicTrack {
    fn clone(&self) -> (r: Self)
        ensures
            r.model() == self.model(),
    {
        self.replicate()
    }
}

impl MusicTrackModel {
    /// The track that holds nothing.
    pub open spec fn absent() -> MusicTrackModel {
        MusicTrackModel {
            id: 0,
            midi_behaviour: 0,
            sounds: Seq::empty(),
            time_parameters: Seq::empty(),
            sub_track_count: 0,
            curves: Seq::empty(),
            properties: AudioPropertiesModel::absent(),
            track_type: MusicTrackType::Normal,
            switch_params: MusicSwitchParamsModel::absent(),
            look_ahead_time: 0,
        }
    }
}

impl Default for MusicTrack {
    fn default() -> (r: Self)
        ensures
            r.model() == MusicTrackModel::absent(),
    {
        let r = MusicTrack {
            id: 0,
            midi_behaviour: 0,
            sounds: Vec::new(),
            time_parameters: Vec::new(),
            sub_track_count: 0,
            curves: Vec::new(),
            properties: AudioProperties::default(),
            track_type: MusicTrackType::Normal,
            switch_params: MusicSwitchParams::default(),
            look_ahead_time: 0,
        };
        assert(r.model().curves =~= Seq::empty());
        r
    }
}

impl AudioPathNodeModel {
    /// The node of a container whose tree was not built.
    pub open spec fn absent() -> AudioPathNodeModel {
        AudioPathNodeModel {
            from_id: 0,
            weight: 0,
            probability: 0,
            children_start_at_index: 0,
            children: Seq::empty(),
        }
    }
}

impl Default for AudioPathNode {
    fn default() -> (r: Self)
        ensures
            r.model() == AudioPathNodeModel::absent(),
    {
        let r = AudioPathNode {
            from_id: 0,
            weight: 0,
            probability: 0,
            children_start_at_index: 0,
            children: Vec::new(),
        };
        assert(r.model().children =~= Seq::empty());
        r
    }
}

impl Default for AudioPathElement {
    fn default() -> (r: Self)
        ensures
            r is Empty,
    {
        AudioPathElement::Empty
    }
}

/// A container that picks what plays by the current value of its switch
/// groups. Where a value is a floating-point number in the bank, the field
/// holds its bits.
#[derive(Debug, PartialEq, Eq)]
pub struct MusicSwitchContainer {
    pub id: u32,
    pub midi_behaviour: u8,
    pub properties: AudioProperties,
    pub child_ids: Vec<u32>,
    /// A double-precision number.
    pub grid_period_time: u64,
    /// A double-precision number.
    pub grid_offset_time: u64,
    /// A single-precision number.
    pub tempo: u32,
    pub time_signature: (u8, u8),
    pub stingers: Vec<MusicStinger>,
    pub transitions: Vec<MusicTransition>,
    pub continue_on_group_change: u8,
    pub group_ids: Vec<u32>,
    pub group_types: Vec<u8>,
    /// The length in bytes that the bank declares for the routing table.
    pub path_selection_length: u32,
    pub use_weighted: u8,
    /// The routing tree; the node without children until the tree is built.
    pub paths: AudioPathNode,
    /// The routing table as the bank holds it.
    pub path_sections: Vec<u8>,
}

/// The mathematical value of a [`MusicSwitchContainer`].
pub struct MusicSwitchContainerModel {
    pub id: u32,
    pub midi_behaviour: u8,
    pub properties: AudioPropertiesModel,
    pub child_ids: Seq<u32>,
    pub grid_period_time: u64,
    pub grid_offset_time: u64,
    pub tempo: u32,
    pub time_signature: (u8, u8),
    pub stingers: Seq<MusicStinger>,
    pub transitions: Seq<MusicTransitionModel>,
    pub continue_on_group_change: u8,
    pub group_ids: Seq<u32>,
    pub group_types: Seq<u8>,
    pub path_selection_length: u32,
    pub use_weighted: u8,
    pub paths: AudioPathNodeModel,
    pub path_sections: Seq<u8>,
}

/// The timing of a container.
pub struct MusicTiming {
    pub grid_period_time: u64,
    pub grid_offset_time: u64,
    pub tempo: u32,
    pub time_signature: (u8, u8),
}

/// The grid period and offset, the tempo, the two bytes of the time
/// signature, and one byte that is passed over.
pub open spec fn parse_timing(s: Seq<u8>, at: int) -> Option<(MusicTiming, int)> {
    if fits(s, at, 23) {
        Some(
            (
                MusicTiming {
                    grid_period_time: le_u64(s, at) as u64,
                    grid_offset_time: le_u64(s, at + 8) as u64,
                    tempo: le_u32(s, at + 16) as u32,
                    time_signature: (s[at + 20], s[at + 21]),
                },
                at + 23,
            ),
        )
    } else {
        None
    }
}

/// The stingers and the transitions, each behind a four-byte count.
pub open spec fn parse_cues(s: Seq<u8>, at: int) -> Option<
    ((Seq<MusicStinger>, Seq<MusicTransitionModel>), int),
> {
    match parse_list_u32::<MusicStinger>(s, at) {
        None => None,
        Some((stingers, at1)) => match parse_list_u32::<MusicTransition>(s, at1) {
            None => None,
            Some((transitions, at2)) => Some(((stingers, transitions), at2)),
        },
    }
}

/// The switch groups: the flag that says whether play continues when a
/// group changes, then two parallel lists behind one four-byte count, the
/// group ids and the group types.
pub open spec fn parse_groups(s: Seq<u8>, at: int) -> Option<((u8, Seq<u32>, Seq<u8>), int)> {
    match parse_u8(s, at) {
        None => None,
        Some((flag, at1)) => match parse_u32_le(s, at1) {
            None => None,
            Some((count, at2)) => match parse_many::<u32>(s, at2, count as nat) {
                None => None,
                Some((ids, at3)) => match parse_many::<u8>(s, at3, count as nat) {
                    None => None,
                    Some((types, at4)) => Some(((flag, ids, types), at4)),
                },
            },
        },
    }
}

/// The routing table: its length in bytes, the weighting flag, and that
/// many bytes. The length is taken as it is; whether it is a whole number of
/// records is asked when the tree is built.
pub open spec fn parse_path_table(s: Seq<u8>, at: int) -> Option<((u32, u8, Seq<u8>), int)> {
    match parse_u32_le(s, at) {
        None => None,
        Some((length, at1)) => match parse_u8(s, at1) {
            None => None,
            Some((use_weighted, at2)) => match parse_many::<u8>(s, at2, length as nat) {
                None => None,
                Some((table, at3)) => Some(((length, use_weighted, table), at3)),
            },
        },
    }
}

fn read_timing(cur: &mut Cursor) -> (r: Option<MusicTiming>)
    ensures
        final(cur).bytes() == old(cur).bytes(),
        match r {
            Some(v) => parse_timing(old(cur).bytes(), old(cur).offset()) == Some(
                (v, final(cur).offset()),
            ),
            None => parse_timing(old(cur).bytes(), old(cur).offset()) is None,
        },
{
    let grid_period_time: u64 = cur.read_u64_le()?;
    let grid_offset_time: u64 = cur.read_u64_le()?;
    let tempo: u32 = cur.read_u32_le()?;
    let upper: u8 = cur.read_u8()?;
    let lower: u8 = cur.read_u8()?;
    cur.skip(1)?;
    Some(MusicTiming { grid_period_time, grid_offset_time, tempo, time_signature: (upper, lower) })
}

fn read_cues(cur: &mut Cursor) -> (r: Option<(Vec<MusicStinger>, Vec<MusicTransition>)>)
    ensures
        final(cur).bytes() == old(cur).bytes(),
        match r {
            Some(v) => parse_cues(old(cur).bytes(), old(cur).offset()) == Some(
                ((v.0@, models(v.1@)), final(cur).offset()),
            ),
            None => parse_cues(old(cur).bytes(), old(cur).offset()) is None,
        },
{
    let stingers = read_list_u32::<MusicStinger>(cur)?;
    assert(models(stingers@) =~= stingers@);
    let transitions = read_list_u32::<MusicTransition>(cur)?;
    Some((stingers, transitions))
}

fn read_groups(cur: &mut Cursor) -> (r: Option<(u8, Vec<u32>, Vec<u8>)>)
    ensures
        final(cur).bytes() == old(cur).bytes(),
        match r {
            Some(v) => parse_groups(old(cur).bytes(), old(cur).offset()) == Some(
                ((v.0, v.1@, v.2@), final(cur).offset()),
            ),
            None => parse_groups(old(cur).bytes(), old(cur).offset()) is None,
        },
{
    let flag: u8 = cur.read_u8()?;
    let count: u32 = cur.read_u32_le()?;
    let ids = read_many::<u32>(cur, count as u64)?;
    let types = read_many::<u8>(cur, count as u64)?;
    assert(models(ids@) =~= ids@);
    assert(models(types@) =~= types@);
    Some((flag, ids, types))
}

fn read_path_table(cur: &mut Cursor) -> (r: Option<(u32, u8, Vec<u8>)>)
    ensures
        final(cur).bytes() == old(cur).bytes(),
        match r {
            Some(v) => parse_path_table(old(cur).bytes(), old(cur).offset()) == Some(
                ((v.0, v.1, v.2@), final(cur).offset()),
            ),
            None => parse_path_table(old(cur).bytes(), old(cur).offset()) is None,
        },
{
    let length: u32 = cur.read_u32_le()?;
    let use_weighted: u8 = cur.read_u8()?;
    let table = read_many::<u8>(cur, length as u64)?;
    assert(models(table@) =~= table@);
    Some((length, use_weighted, table))
}

impl Record for MusicSwitchContainer {
    type Model = MusicSwitchContainerModel;

    open spec fn model(&self) -> MusicSwitchContainerModel {
        MusicSwitchContainerModel {
            id: self.id,
            midi_behaviour: self.midi_behaviour,
            properties: self.properties.model(),
            child_ids: self.child_ids@,
            grid_period_time: self.grid_period_time,
            grid_offset_time: self.grid_offset_time,
            tempo: self.tempo,
            time_signature: self.time_signature,
            stingers: self.stingers@,
            transitions: models(self.transitions@),
            continue_on_group_change: self.continue_on_group_change,
            group_ids: self.group_ids@,
            group_types: self.group_types@,
            path_selection_length: self.path_selection_length,
            use_weighted: self.use_weighted,
            paths: self.paths.model(),
            path_sections: self.path_sections@,
        }
    }

    /// The id and the midi behaviour, the properties block, the children
    /// behind a four-byte count, the timing, the stingers and transitions,
    /// the switch groups and the routing table. The tree is not built here:
    /// the container comes out with the node that has no children.
    open spec fn parse(s: Seq<u8>, at: int) -> Option<(MusicSwitchContainerModel, int)> {
        if !fits(s, at, 5) {
            None
        } else {
            match AudioProperties::parse(s, at + 5) {
                None => None,
                Some((properties, at1)) => match parse_list_u32::<u32>(s, at1) {
                    None => None,
                    Some((child_ids, at2)) => match parse_timing(s, at2) {
                        None => None,
                        Some((timing, at3)) => match parse_cues(s, at3) {
                            None => None,
                            Some((cues, at4)) => match parse_groups(s, at4) {
                                None => None,
                                Some((groups, at5)) => match parse_path_table(s, at5) {
                                    None => None,
                                    Some((table, at6)) => Some(
                                        (
                                            MusicSwitchContainerModel {
                                                id: le_u32(s, at) as u32,
                                                midi_behaviour: s[at + 4],
                                                properties,
                                                child_ids,
                                                grid_period_time: timing.grid_period_time,
                                                grid_offset_time: timing.grid_offset_time,
                                                tempo: timing.tempo,
                                                time_signature: timing.time_signature,
                                                stingers: cues.0,
                                                transitions: cues.1,
                                                continue_on_group_change: groups.0,
                                                group_ids: groups.1,
                                                group_types: groups.2,
                                                path_selection_length: table.0,
                                                use_weighted: table.1,
                                                paths: AudioPathNodeModel::absent(),
                                                path_sections: table.2,
                                            },
                                            at6,
                                        ),
                                    ),
                                },
                            },
                        },
                    },
                },
            }
        }
    }

    fn read(cur: &mut Cursor) -> (r: Option<MusicSwitchContainer>) {
        let id: u32 = cur.read_u32_le()?;
        let midi_behaviour: u8 = cur.read_u8()?;
        let properties = AudioProperties::read(cur)?;
        let child_ids = read_list_u32::<u32>(cur)?;
        assert(models(child_ids@) =~= child_ids@);
        let timing = read_timing(cur)?;
        let (stingers, transitions) = read_cues(cur)?;
        let (continue_on_group_change, group_ids, group_types) = read_groups(cur)?;
        let (path_selection_length, use_weighted, path_sections) = read_path_table(cur)?;
        Some(
            MusicSwitchContainer {
                id,
                midi_behaviour,
                properties,
                child_ids,
                grid_period_time: timing.grid_period_time,
                grid_offset_time: timing.grid_offset_time,
                tempo: timing.tempo,
                time_signature: timing.time_signature,
                stingers,
                transitions,
                continue_on_group_change,
                group_ids,
                group_types,
                path_selection_length,
                use_weighted,
                paths: AudioPathNode::default(),
                path_sections,
            },
        )
    }

    fn replicate(&self) -> (r: MusicSwitchContainer) {
        MusicSwitchContainer {
            id: self.id,
            midi_behaviour: self.midi_behaviour,
            properties: self.properties.replicate(),
            child_ids: replicate_plain(&self.child_ids),
            grid_period_time: self.grid_period_time,
            grid_offset_time: self.grid_offset_time,
            tempo: self.tempo,
            time_signature: self.time_signature,
            stingers: replicate_plain(&self.stingers),
            transitions: replicate_all(&self.transitions),
            continue_on_group_change: self.continue_on_group_change,
            group_ids: replicate_plain(&self.group_ids),
            group_types: replicate_plain(&self.group_types),
            path_selection_length: self.path_selection_length,
            use_weighted: self.use_weighted,
            paths: self.paths.clone(),
            path_sections: replicate_plain(&self.path_sections),
        }
    }
}

impl Clone for MusicSwitchContainer {
    fn clone(&self) -> (r: Self)
        ensures
            r.model() == self.model(),
    {
        self.replicate()
    }
}

impl MusicSwitchContainerModel {
    /// The container that holds nothing.
    pub open spec fn absent() -> MusicSwitchContainerModel {
        MusicSwitchContainerModel {
            id: 0,
            midi_behaviour: 0,
            properties: AudioPropertiesModel::absent(),
            child_ids: Seq::empty(),
            grid_period_time: 0,
            grid_offset_time: 0,
            tempo: 0,
            time_signature: (0, 0),
            stingers: Seq::empty(),
            transitions: Seq::empty(),
            continue_on_group_change: 0,
            group_ids: Seq::empty(),
            group_types: Seq::empty(),
            path_selection_length: 0,
            use_weighted: 0,
            paths: AudioPathNodeModel::absent(),
            path_sections: Seq::empty(),
        }
    }
}

impl Default for MusicSwitchContainer {
    fn default() -> (r: Self)
        ensures
            r.model() == MusicSwitchContainerModel::absent(),
    {
        let r = MusicSwitchContainer {
            id: 0,
            midi_behaviour: 0,
            properties: AudioProperties::default(),
            child_ids: Vec::new(),
            grid_period_time: 0,
            grid_offset_time: 0,
            tempo: 0,
            time_signature: (0, 0),
            stingers: Vec::new(),
            transitions: Vec::new(),
            continue_on_group_change: 0,
            group_ids: Vec::new(),
            group_types: Vec::new(),
            path_selection_length: 0,
            use_weighted: 0,
            paths: AudioPathNode::default(),
            path_sections: Vec::new(),
        };
        assert(r.model().transitions =~= Seq::empty());
        r
    }
}

/// What building the routing tree of a container yields: the tree rooted at
/// record `index` of its table, or why there is none. The declared length is
/// looked at first.
pub open spec fn path_element_of(
    declared_length: u32,
    table: Seq<u8>,
    index: int,
) -> Result<AudioPathElementModel, ParseError> {
    if declared_length % 12 != 0 {
        Err(ParseError::PathLengthNotAligned)
    } else if index >= path_record_count(table) {
        Err(ParseError::PathIndexOutOfBounds)
    } else {
        Ok(path_element(table, index))
    }
}

impl MusicSwitchContainer {
    /// Rebuilds the routing tree rooted at record `children_start_at` of the
    /// container's routing table. The container itself is left as it is.
    ///
    /// Fails where the declared length of the table is no multiple of 12,
    /// and where the table holds no whole record at that index.
    pub fn read_path_element(&mut self, children_start_at: u32) -> (r: Result<
        AudioPathElement,
        ParseError,
    >)
        ensures
            *final(self) == *old(self),
            match r {
                Ok(e) => path_element_of(
                    old(self).path_selection_length,
                    old(self).path_sections@,
                    children_start_at as int,
                ) == Ok::<AudioPathElementModel, ParseError>(e.model()),
                Err(e) => path_element_of(
                    old(self).path_selection_length,
                    old(self).path_sections@,
                    children_start_at as int,
                ) == Err::<AudioPathElementModel, ParseError>(e),
            },
    {
        if self.path_selection_length % PATH_RECORD_LEN > 0 {
            return Err(ParseError::PathLengthNotAligned);
        }
        build_path_element(self.path_sections.as_slice(), children_start_at)
    }
}

/// A table whose declared length is no multiple of 12 has no tree, at any
/// index and whatever it holds.
pub proof fn lemma_unaligned_length_has_no_tree(declared_length: u32, table: Seq<u8>, index: int)
    requires
        declared_length % 12 != 0,
    ensures
        path_element_of(declared_length, table, index) == Err::<AudioPathElementModel, ParseError>(
            ParseError::PathLengthNotAligned,
        ),
{
}

/// A record whose second word, read as a first child, points at the record
/// itself or before it is a leaf, and the word is its target id. So is one
/// whose children would reach beyond the table.
pub proof fn lemma_backward_link_is_leaf(blob: Seq<u8>, index: int)
    requires
        0 <= index < path_record_count(blob),
        path_children_start(blob, index) <= index || path_children_start(blob, index)
            + path_child_count(blob, index) > path_record_count(blob),
    ensures
        path_element(blob, index) == AudioPathElementModel::MusicEndpoint(
            MusicPathEndpoint {
                from_id: le_u32(blob, 12 * index) as u32,
                weight: le_u16(blob, 12 * index + 8) as u16,
                probability: le_u16(blob, 12 * index + 10) as u16,
                audio_id: path_link(blob, index) as u32,
            },
        ),
{
}

/// An inner node has as many children as its record says, and child `i` is
/// the tree rooted at record `first child + i`.
pub proof fn lemma_internal_node_children(blob: Seq<u8>, index: int, i: int)
    requires
        0 <= index,
        path_is_internal(blob, index),
        0 <= i < path_child_count(blob, index),
    ensures
        path_element(blob, index) matches AudioPathElementModel::AudioPath(node) && node.children.len()
            == path_child_count(blob, index) && node.children[i] == path_element(
            blob,
            path_children_start(blob, index) + i,
        ),
{
}

} // verus!
