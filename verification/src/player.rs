//! What the player needs of a decoded bank: which events start and stop its
//! music, and which switch container they drive.

use crate::bank::{parse, parse_bank, SoundbankChunk, SoundbankChunkModel, SoundbankChunkTypes,
    SoundbankChunkTypesModel};
use crate::decode::{models, Record};
use crate::error::ParseError;
use crate::hierarchy::event::EventActionType;
use crate::hierarchy::music::{
    AudioPathElement, AudioPathElementModel, MusicSwitchContainer, MusicSwitchContainerModel,
};
use crate::sound_engine::{render_audio, set_switch, stop_all, EngineRequest};
use crate::hierarchy::{
    HierarchyChunk, HierarchyChunkModel, HierarchyObjectModel, HierarchyObjectType,
    HierarchyObjectTypeModel,
};
use vstd::prelude::*;

verus! {

/// The switch group that selects the music.
pub const MUSIC_GROUP_ID: u32 = 1246133352;

/// How far the loading of a bank has come.
#[derive(Debug, Clone, Copy, PartialEq, Eq, Structural)]
pub enum BankStatus {
    /// Nothing is being loaded.
    Idle,
    LoadingBanks,
    ReadingHierarchy,
    Externals { current_file: usize, total_files: usize },
}

impl BankStatus {
    /// The words that describe each status.
    pub open spec fn text(self) -> Seq<char> {
        match self {
            BankStatus::Idle => ""@,
            BankStatus::LoadingBanks => "Loading Soundbanks"@,
            BankStatus::ReadingHierarchy => "Reading Bank Hierarchy"@,
            BankStatus::Externals { .. } => "Loading Externals"@,
        }
    }

    /// The words that describe the status; none where nothing is loaded.
    /// For external files the counts are to be put behind the words.
    pub fn label(&self) -> (text: &'static str)
        ensures
            text@ == self.text(),
    {
        match self {
            BankStatus::Idle => {
                proof {
                    reveal_strlit("");
                }
                ""
            },
            BankStatus::LoadingBanks => {
                proof {
                    reveal_strlit("Loading Soundbanks");
                }
                "Loading Soundbanks"
            },
            BankStatus::ReadingHierarchy => {
                proof {
                    reveal_strlit("Reading Bank Hierarchy");
                }
                "Reading Bank Hierarchy"
            },
            BankStatus::Externals { .. } => {
                proof {
                    reveal_strlit("Loading Externals");
                }
                "Loading Externals"
            },
        }
    }
}

/// The record of how far the loading of a bank has come.
#[derive(Debug, Clone, Copy, PartialEq, Eq, Structural)]
pub struct LoadProgress {
    pub status: BankStatus,
}

impl LoadProgress {
    /// The record before anything is loaded.
    pub fn new() -> (r: Self)
        ensures
            r.status == BankStatus::Idle,
    {
        LoadProgress { status: BankStatus::Idle }
    }

    /// Notes a new status.
    pub fn set(&mut self, status: BankStatus)
        ensures
            final(self).status == status,
    {
        self.status = status;
    }
}

/// The status that was noted last.
pub fn bank_progress(progress: &LoadProgress) -> (r: BankStatus)
    ensures
        r == progress.status,
{
    progress.status
}

/// The kinds of callback that the player shows.
#[derive(Debug, Clone, Copy, PartialEq, Eq, Hash, Structural)]
pub enum CallbackType {
    MusicPlaylist,
    MusicSyncBeat,
    MusicSyncBar,
    MusicSyncEntry,
    MusicSyncExit,
    MusicSyncPoint,
    Duration,
}

/// The ids of the actions of type `kind` among some objects, in order.
pub open spec fn action_ids(objs: Seq<HierarchyObjectModel>, kind: EventActionType) -> Seq<u32>
    decreases objs.len(),
{
    if objs.len() == 0 {
        Seq::empty()
    } else {
        let init = action_ids(objs.drop_last(), kind);
        match objs.last().obj {
            HierarchyObjectTypeModel::EventAction(a) => if a.action_type == kind {
                init.push(a.id)
            } else {
                init
            },
            _ => init,
        }
    }
}

/// The ids of the objects that the actions of type `kind` act on, in order.
pub open spec fn action_targets(objs: Seq<HierarchyObjectModel>, kind: EventActionType) -> Seq<
    u32,
>
    decreases objs.len(),
{
    if objs.len() == 0 {
        Seq::empty()
    } else {
        let init = action_targets(objs.drop_last(), kind);
        match objs.last().obj {
            HierarchyObjectTypeModel::EventAction(a) => if a.action_type == kind {
                init.push(a.object_id)
            } else {
                init
            },
            _ => init,
        }
    }
}

/// Whether two lists of ids share an id.
pub open spec fn share_an_id(a: Seq<u32>, b: Seq<u32>) -> bool {
    exists|i: int| 0 <= i < a.len() && b.contains(#[trigger] a[i])
}

/// The ids of the events that trigger at least one of the actions `ids`,
/// in order.
pub open spec fn events_triggering(objs: Seq<HierarchyObjectModel>, ids: Seq<u32>) -> Seq<u32>
    decreases objs.len(),
{
    if objs.len() == 0 {
        Seq::empty()
    } else {
        let init = events_triggering(objs.drop_last(), ids);
        match objs.last().obj {
            HierarchyObjectTypeModel::Event(e) => if share_an_id(e.action_ids, ids) {
                init.push(e.id)
            } else {
                init
            },
            _ => init,
        }
    }
}

/// Whether an object is a switch container that one of `targets` names.
pub open spec fn is_targeted_switch(o: HierarchyObjectModel, targets: Seq<u32>) -> bool {
    match o.obj {
        HierarchyObjectTypeModel::MusicSwitchContainer(sw) => targets.contains(sw.id),
        _ => false,
    }
}

/// Whether `x` is among `v`.
pub fn contains_id(v: &Vec<u32>, x: u32) -> (r: bool)
    ensures
        r == v@.contains(x),
{
    let mut i: usize = 0;
    while i < v.len()
        invariant
            i <= v@.len(),
            forall|k: int| 0 <= k < i ==> v@[k] != x,
        decreases v@.len() - i,
    {
        if v[i] == x {
            assert(v@[i as int] == x);
            return true;
        }
        i = i + 1;
    }
    false
}

/// Whether two lists of ids share an id.
pub fn shares_an_id(a: &Vec<u32>, b: &Vec<u32>) -> (r: bool)
    ensures
        r == share_an_id(a@, b@),
{
    let mut i: usize = 0;
    while i < a.len()
        invariant
            i <= a@.len(),
            forall|k: int| 0 <= k < i ==> !b@.contains(#[trigger] a@[k]),
        decreases a@.len() - i,
    {
        if contains_id(b, a[i]) {
            assert(b@.contains(a@[i as int]));
            return true;
        }
        i = i + 1;
    }
    false
}

/// The ids and the targets of the actions of type `kind` in a hierarchy.
pub fn actions_of_type(hirc: &HierarchyChunk, kind: EventActionType) -> (r: (Vec<u32>, Vec<u32>))
    ensures
        r.0@ == action_ids(models(hirc.objects@), kind),
        r.1@ == action_targets(models(hirc.objects@), kind),
{
    let mut ids: Vec<u32> = Vec::new();
    let mut targets: Vec<u32> = Vec::new();
    let mut i: usize = 0;
    let ghost objs = models(hirc.objects@);
    assert(objs.subrange(0, 0) =~= Seq::empty());
    while i < hirc.objects.len()
        invariant
            i <= hirc.objects@.len(),
            objs == models(hirc.objects@),
            ids@ == action_ids(objs.subrange(0, i as int), kind),
            targets@ == action_targets(objs.subrange(0, i as int), kind),
        decreases hirc.objects@.len() - i,
    {
        assert(objs.subrange(0, i + 1).drop_last() =~= objs.subrange(0, i as int));
        assert(objs.subrange(0, i + 1).last() == hirc.objects@[i as int].model());
        if let HierarchyObjectType::EventAction(a) = &hirc.objects[i].obj {
            if a.action_type == kind {
                ids.push(a.id);
                targets.push(a.object_id);
            }
        }
        i = i + 1;
    }
    assert(objs.subrange(0, i as int) =~= objs);
    (ids, targets)
}

/// The ids of the events of a hierarchy that trigger one of the actions
/// `ids`.
pub fn events_that_trigger(hirc: &HierarchyChunk, ids: &Vec<u32>) -> (r: Vec<u32>)
    ensures
        r@ == events_triggering(models(hirc.objects@), ids@),
{
    let mut out: Vec<u32> = Vec::new();
    let mut i: usize = 0;
    let ghost objs = models(hirc.objects@);
    assert(objs.subrange(0, 0) =~= Seq::empty());
    while i < hirc.objects.len()
        invariant
            i <= hirc.objects@.len(),
            objs == models(hirc.objects@),
            out@ == events_triggering(objs.subrange(0, i as int), ids@),
        decreases hirc.objects@.len() - i,
    {
        assert(objs.subrange(0, i + 1).drop_last() =~= objs.subrange(0, i as int));
        assert(objs.subrange(0, i + 1).last() == hirc.objects@[i as int].model());
        if let HierarchyObjectType::Event(e) = &hirc.objects[i].obj {
            if shares_an_id(&e.action_ids, ids) {
                out.push(e.id);
            }
        }
        i = i + 1;
    }
    assert(objs.subrange(0, i as int) =~= objs);
    out
}

/// The index of the first switch container of a hierarchy that one of
/// `targets` names, if there is one.
pub fn first_targeted_switch(hirc: &HierarchyChunk, targets: &Vec<u32>) -> (r: Option<usize>)
    ensures
        match r {
            Some(i) => {
                &&& i < hirc.objects@.len()
                &&& is_targeted_switch(hirc.objects@[i as int].model(), targets@)
                &&& forall|j: int|
                    0 <= j < i ==> !is_targeted_switch(
                        (#[trigger] hirc.objects@[j]).model(),
                        targets@,
                    )
            },
            None => forall|j: int|
                0 <= j < hirc.objects@.len() ==> !is_targeted_switch(
                    (#[trigger] hirc.objects@[j]).model(),
                    targets@,
                ),
        },
{
    let mut i: usize = 0;
    while i < hirc.objects.len()
        invariant
            i <= hirc.objects@.len(),
            forall|j: int|
                0 <= j < i ==> !is_targeted_switch((#[trigger] hirc.objects@[j]).model(), targets@),
        decreases hirc.objects@.len() - i,
    {
        if let HierarchyObjectType::MusicSwitchContainer(sw) = &hirc.objects[i].obj {
            if contains_id(targets, sw.id) {
                return Some(i);
            }
        }
        i = i + 1;
    }
    None
}

/// Why a bank cannot be played.
#[derive(Debug, Clone, Copy, PartialEq, Eq, Structural)]
pub enum LoadError {
    /// The bank does not decode.
    Parse(ParseError),
    /// Neither of the bank's two leading chunks is the hierarchy.
    NoHierarchy,
    /// No switch container of the bank is the target of a play action.
    NoMusicSwitchContainer,
}

impl LoadError {
    /// The sentence that describes each failure.
    pub open spec fn text(self) -> Seq<char> {
        match self {
            LoadError::Parse(e) => e.text(),
            LoadError::NoHierarchy => "No hierarchy chunk found in the soundbank"@,
            LoadError::NoMusicSwitchContainer =>
                "No MusicSwitchContainer objects found in the hierarchy"@,
        }
    }

    /// A sentence that describes the failure.
    pub fn message(&self) -> (text: &'static str)
        ensures
            text@ == self.text(),
    {
        match self {
            LoadError::Parse(e) => e.message(),
            LoadError::NoHierarchy => {
                proof {
                    reveal_strlit("No hierarchy chunk found in the soundbank");
                }
                "No hierarchy chunk found in the soundbank"
            },
            LoadError::NoMusicSwitchContainer => {
                proof {
                    reveal_strlit("No MusicSwitchContainer objects found in the hierarchy");
                }
                "No MusicSwitchContainer objects found in the hierarchy"
            },
        }
    }
}

/// What the player keeps of a loaded bank.
#[derive(Debug)]
pub struct BankData {
    /// The id under which the engine holds the bank.
    pub id: u32,
    /// The events that trigger a play action.
    pub play_event_ids: Vec<u32>,
    /// The events that trigger a stop action.
    pub stop_event_ids: Vec<u32>,
    /// The first switch container that a play action acts on.
    pub main_switch: MusicSwitchContainer,
    /// The bytes of the banks that were loaded.
    pub bank_data: Vec<Vec<u8>>,
    pub hierarchy: HierarchyChunk,
}

impl BankData {
    /// Whether this is what the player keeps of the hierarchy `h` of a bank
    /// with the bytes `data`, held under `bank_id`: the play events are
    /// those that trigger a play action, the stop events those that trigger
    /// a stop action, and the main switch is the first switch container
    /// that a play action acts on.
    pub open spec fn is_selection_of(
        &self,
        h: HierarchyChunkModel,
        bank_id: u32,
        data: Seq<u8>,
    ) -> bool {
        let objs = h.objects;
        &&& self.id == bank_id
        &&& self.bank_data@.len() == 1
        &&& self.bank_data@[0]@ == data
        &&& self.hierarchy.model() == h
        &&& self.play_event_ids@ == events_triggering(objs, action_ids(objs, EventActionType::Play))
        &&& self.stop_event_ids@ == events_triggering(objs, action_ids(objs, EventActionType::Stop))
        &&& exists|i: int|
            {
                &&& 0 <= i < objs.len()
                &&& #[trigger] objs[i].obj == HierarchyObjectTypeModel::MusicSwitchContainer(
                    self.main_switch.model(),
                )
                &&& is_targeted_switch(objs[i], action_targets(objs, EventActionType::Play))
                &&& forall|j: int|
                    0 <= j < i ==> !is_targeted_switch(
                        #[trigger] objs[j],
                        action_targets(objs, EventActionType::Play),
                    )
            }
    }
}

/// The first hierarchy chunk among some chunks, if there is one.
pub open spec fn first_hierarchy(chunks: Seq<SoundbankChunkModel>) -> Option<HierarchyChunkModel>
    decreases chunks.len(),
{
    if chunks.len() == 0 {
        None
    } else {
        match chunks.first().chunk {
            SoundbankChunkTypesModel::Hierarchy(h) => Some(h),
            _ => first_hierarchy(chunks.drop_first()),
        }
    }
}

/// The index of the first hierarchy chunk among some chunks.
pub fn find_hierarchy(chunks: &Vec<SoundbankChunk>) -> (r: Option<usize>)
    ensures
        match r {
            Some(i) => i < chunks@.len() && (chunks@[i as int].chunk matches SoundbankChunkTypes::Hierarchy(
                h,
            ) && first_hierarchy(models(chunks@)) == Some(h.model())),
            None => first_hierarchy(models(chunks@)) is None,
        },
{
    let mut i: usize = 0;
    let ghost all = models(chunks@);
    assert(all.subrange(0, all.len() as int) =~= all);
    while i < chunks.len()
        invariant
            i <= chunks@.len(),
            all == models(chunks@),
            first_hierarchy(all) == first_hierarchy(all.subrange(i as int, all.len() as int)),
        decreases chunks@.len() - i,
    {
        let ghost rest = all.subrange(i as int, all.len() as int);
        assert(rest.first() == chunks@[i as int].model());
        assert(rest.drop_first() =~= all.subrange(i + 1, all.len() as int));
        if let SoundbankChunkTypes::Hierarchy(_) = &chunks[i].chunk {
            return Some(i);
        }
        i = i + 1;
    }
    None
}

/// Picks from a decoded hierarchy what the player needs, for a bank that
/// the engine holds under `bank_id` and whose bytes are `data`.
///
/// Fails exactly where no switch container is the target of a play action.
pub fn select_bank_data(hirc: &HierarchyChunk, bank_id: u32, data: &[u8]) -> (r: Result<
    BankData,
    LoadError,
>)
    ensures
        match r {
            Ok(bank) => bank.is_selection_of(hirc.model(), bank_id, data@),
            Err(e) => {
                let objs = models(hirc.objects@);
                &&& e == LoadError::NoMusicSwitchContainer
                &&& forall|j: int|
                    0 <= j < objs.len() ==> !is_targeted_switch(
                        #[trigger] objs[j],
                        action_targets(objs, EventActionType::Play),
                    )
            },
        },
{
    let (play_ids, play_targets) = actions_of_type(hirc, EventActionType::Play);
    let index = match first_targeted_switch(hirc, &play_targets) {
        Some(i) => i,
        None => {
            return Err(LoadError::NoMusicSwitchContainer);
        },
    };
    let main_switch = match &hirc.objects[index].obj {
        HierarchyObjectType::MusicSwitchContainer(sw) => sw.replicate(),
        _ => {
            return Err(LoadError::NoMusicSwitchContainer);
        },
    };
    let play_event_ids = events_that_trigger(hirc, &play_ids);
    let (stop_ids, _) = actions_of_type(hirc, EventActionType::Stop);
    let stop_event_ids = events_that_trigger(hirc, &stop_ids);
    let mut copy: Vec<u8> = Vec::new();
    let mut i: usize = 0;
    while i < data.len()
        invariant
            i <= data@.len(),
            copy@ == data@.subrange(0, i as int),
        decreases data@.len() - i,
    {
        copy.push(data[i]);
        assert(copy@ =~= data@.subrange(0, i + 1));
        i = i + 1;
    }
    assert(data@.subrange(0, i as int) =~= data@);
    let mut bank_data: Vec<Vec<u8>> = Vec::new();
    bank_data.push(copy);
    assert(models(hirc.objects@)[index as int] == hirc.objects@[index as int].model());
    Ok(
        BankData {
            id: bank_id,
            play_event_ids,
            stop_event_ids,
            main_switch,
            bank_data,
            hierarchy: hirc.replicate(),
        },
    )
}

/// Decodes a bank that the engine holds under `bank_id` and picks from it
/// what the player needs.
pub fn load_bank(data: &[u8], bank_id: u32) -> (r: Result<BankData, LoadError>)
    ensures
        match r {
            Ok(bank) => parse_bank(data@) matches Ok(chunks) && first_hierarchy(chunks) == Some(
                bank.hierarchy.model(),
            ) && bank.is_selection_of(bank.hierarchy.model(), bank_id, data@),
            Err(LoadError::Parse(e)) => parse_bank(data@) == Err::<
                Seq<SoundbankChunkModel>,
                ParseError,
            >(e),
            Err(LoadError::NoHierarchy) => parse_bank(data@) matches Ok(chunks) && first_hierarchy(
                chunks,
            ) is None,
            Err(LoadError::NoMusicSwitchContainer) => parse_bank(data@) matches Ok(chunks)
                && first_hierarchy(chunks) matches Some(h) && forall|j: int|
                0 <= j < h.objects.len() ==> !is_targeted_switch(
                    #[trigger] h.objects[j],
                    action_targets(h.objects, EventActionType::Play),
                ),
        },
{
    let chunks = match parse(data) {
        Ok(c) => c,
        Err(e) => {
            return Err(LoadError::Parse(e));
        },
    };
    let index = match find_hierarchy(&chunks) {
        Some(i) => i,
        None => {
            return Err(LoadError::NoHierarchy);
        },
    };
    match &chunks[index].chunk {
        SoundbankChunkTypes::Hierarchy(hirc) => select_bank_data(hirc, bank_id, data),
        _ => Err(LoadError::NoHierarchy),
    }
}

/// The game object on which the player plays.
pub const PLAYER_GAME_OBJECT: u64 = 100;

/// A value that a switch group can be set to, and what plays for it.
#[derive(Debug, Clone, Copy, PartialEq, Eq, Structural)]
pub struct SwitchChoice {
    /// The value of the switch.
    pub switch_value: u32,
    /// The id of what plays for that value.
    pub audio_id: u32,
}

/// The choices among some elements of a routing tree: one for each leaf,
/// in order. Inner nodes offer no choice.
pub open spec fn leaf_choices(children: Seq<AudioPathElementModel>) -> Seq<SwitchChoice>
    decreases children.len(),
{
    if children.len() == 0 {
        Seq::empty()
    } else {
        let init = leaf_choices(children.drop_last());
        match children.last() {
            AudioPathElementModel::MusicEndpoint(leaf) => init.push(
                SwitchChoice { switch_value: leaf.from_id, audio_id: leaf.audio_id },
            ),
            _ => init,
        }
    }
}

/// The switch value that a container starts with: that of the first child
/// of its routing tree where that child is a leaf, zero otherwise.
pub open spec fn initial_switch(sw: MusicSwitchContainerModel) -> u32 {
    if sw.paths.children.len() == 0 {
        0
    } else {
        match sw.paths.children[0] {
            AudioPathElementModel::MusicEndpoint(leaf) => leaf.from_id,
            _ => 0,
        }
    }
}

/// The switch value that a container starts with.
pub fn first_switch(sw: &MusicSwitchContainer) -> (r: u32)
    ensures
        r == initial_switch(sw.model()),
{
    if sw.paths.children.len() == 0 {
        return 0;
    }
    match &sw.paths.children[0] {
        AudioPathElement::MusicEndpoint(leaf) => leaf.from_id,
        _ => 0,
    }
}

/// The switch values that the root of a container's routing tree offers,
/// each with what plays for it.
pub fn switch_choices(sw: &MusicSwitchContainer) -> (r: Vec<SwitchChoice>)
    ensures
        r@ == leaf_choices(sw.model().paths.children),
{
    let mut out: Vec<SwitchChoice> = Vec::new();
    let mut i: usize = 0;
    let ghost children = sw.model().paths.children;
    assert(children.subrange(0, 0) =~= Seq::empty());
    while i < sw.paths.children.len()
        invariant
            i <= sw.paths.children@.len(),
            children == sw.model().paths.children,
            children.len() == sw.paths.children@.len(),
            out@ == leaf_choices(children.subrange(0, i as int)),
        decreases sw.paths.children@.len() - i,
    {
        assert(children.subrange(0, i + 1).drop_last() =~= children.subrange(0, i as int));
        assert(children.subrange(0, i + 1).last() == sw.paths.children@[i as int].model());
        if let AudioPathElement::MusicEndpoint(leaf) = &sw.paths.children[i] {
            out.push(SwitchChoice { switch_value: leaf.from_id, audio_id: leaf.audio_id });
        }
        i = i + 1;
    }
    assert(children.subrange(0, i as int) =~= children);
    out
}

/// The switch group that a container's choices belong to: the first of its
/// groups, if it has one.
pub fn switch_group(sw: &MusicSwitchContainer) -> (r: Option<u32>)
    ensures
        r == if sw.group_ids@.len() > 0 {
            Some(sw.group_ids@[0])
        } else {
            None
        },
{
    if sw.group_ids.len() > 0 {
        Some(sw.group_ids[0])
    } else {
        None
    }
}

/// The switch containers among some objects whose id is one of `ids`, in
/// order.
pub open spec fn switches_named(objs: Seq<HierarchyObjectModel>, ids: Seq<u32>) -> Seq<
    MusicSwitchContainerModel,
>
    decreases objs.len(),
{
    if objs.len() == 0 {
        Seq::empty()
    } else {
        let init = switches_named(objs.drop_last(), ids);
        match objs.last().obj {
            HierarchyObjectTypeModel::MusicSwitchContainer(sw) => if ids.contains(sw.id) {
                init.push(sw)
            } else {
                init
            },
            _ => init,
        }
    }
}

/// Copies of the switch containers that the choices of another container
/// lead to: those whose id is what plays for one of the choices.
pub fn child_switches(hirc: &HierarchyChunk, choices: &Vec<SwitchChoice>) -> (r: Vec<
    MusicSwitchContainer,
>)
    ensures
        models(r@) == switches_named(
            models(hirc.objects@),
            choices@.map_values(|c: SwitchChoice| c.audio_id),
        ),
{
    let mut ids: Vec<u32> = Vec::new();
    let mut k: usize = 0;
    while k < choices.len()
        invariant
            k <= choices@.len(),
            ids@ == choices@.subrange(0, k as int).map_values(|c: SwitchChoice| c.audio_id),
        decreases choices@.len() - k,
    {
        ids.push(choices[k].audio_id);
        assert(ids@ =~= choices@.subrange(0, k + 1).map_values(|c: SwitchChoice| c.audio_id));
        k = k + 1;
    }
    assert(choices@.subrange(0, k as int) =~= choices@);
    let mut out: Vec<MusicSwitchContainer> = Vec::new();
    let mut i: usize = 0;
    let ghost objs = models(hirc.objects@);
    assert(objs.subrange(0, 0) =~= Seq::empty());
    assert(models(out@) =~= switches_named(objs.subrange(0, 0), ids@));
    while i < hirc.objects.len()
        invariant
            i <= hirc.objects@.len(),
            objs == models(hirc.objects@),
            models(out@) == switches_named(objs.subrange(0, i as int), ids@),
        decreases hirc.objects@.len() - i,
    {
        assert(objs.subrange(0, i + 1).drop_last() =~= objs.subrange(0, i as int));
        assert(objs.subrange(0, i + 1).last() == hirc.objects@[i as int].model());
        let ghost before = out@;
        if let HierarchyObjectType::MusicSwitchContainer(sw) = &hirc.objects[i].obj {
            if contains_id(&ids, sw.id) {
                let copy = sw.replicate();
                out.push(copy);
                assert(models(out@) =~= models(before).push(copy.model()));
            }
        }
        i = i + 1;
    }
    assert(objs.subrange(0, i as int) =~= objs);
    out
}

/// What the audio loop does in one round.
#[derive(Debug, PartialEq, Eq)]
pub struct AudioStep {
    /// The requests to perform, in order.
    pub requests: Vec<EngineRequest>,
    /// The switch value that the engine holds after them.
    pub last_switch: u32,
    /// Whether the loop ends with this round.
    pub finished: bool,
}

/// The requests of one round of the audio loop.
pub open spec fn audio_requests(
    should_stop: bool,
    switch: u32,
    last_switch: u32,
    switch_group: u32,
) -> Seq<EngineRequest> {
    if should_stop {
        seq![EngineRequest::StopAll { game_object_id: 100 }]
    } else if switch != last_switch {
        seq![
            EngineRequest::SetSwitch {
                switch_group,
                switch_state: switch,
                game_object_id: 100,
            },
            EngineRequest::RenderAudio { allow_sync_render: true },
        ]
    } else {
        seq![EngineRequest::RenderAudio { allow_sync_render: true }]
    }
}

/// Decides one round of the audio loop. Where the player is to stop,
/// everything on its game object is stopped and the loop ends. Otherwise
/// the switch is set if its value is not the one that was set last, and the
/// engine is asked to render.
pub fn audio_step(should_stop: bool, switch: u32, last_switch: u32, switch_group: u32) -> (r:
    AudioStep)
    ensures
        r.requests@ == audio_requests(should_stop, switch, last_switch, switch_group),
        r.finished == should_stop,
        r.last_switch == if should_stop {
            last_switch
        } else {
            switch
        },
{
    let mut requests: Vec<EngineRequest> = Vec::new();
    if should_stop {
        requests.push(stop_all(Some(PLAYER_GAME_OBJECT)));
        assert(requests@ =~= audio_requests(should_stop, switch, last_switch, switch_group));
        return AudioStep { requests, last_switch, finished: true };
    }
    if switch != last_switch {
        requests.push(set_switch(switch_group, switch, PLAYER_GAME_OBJECT));
    }
    requests.push(render_audio(true));
    assert(requests@ =~= audio_requests(should_stop, switch, last_switch, switch_group));
    AudioStep { requests, last_switch: switch, finished: false }
}

/// Whether a hierarchy holds music to switch between: at least one switch
/// container.
pub open spec fn has_switch_container(objs: Seq<HierarchyObjectModel>) -> bool {
    exists|i: int|
        0 <= i < objs.len() && (#[trigger] objs[i]).obj is MusicSwitchContainer
}

/// Whether the bytes are a bank of music: a bank that decodes, with a
/// hierarchy that holds at least one switch container.
pub fn is_music_bank(data: &[u8]) -> (r: bool)
    ensures
        r == (parse_bank(data@) matches Ok(chunks) && first_hierarchy(chunks) matches Some(h)
            && has_switch_container(h.objects)),
{
    let chunks = match parse(data) {
        Ok(c) => c,
        Err(_) => {
            return false;
        },
    };
    let index = match find_hierarchy(&chunks) {
        Some(i) => i,
        None => {
            return false;
        },
    };
    match &chunks[index].chunk {
        SoundbankChunkTypes::Hierarchy(hirc) => holds_switch_container(hirc),
        _ => false,
    }
}

/// Whether a hierarchy holds at least one switch container.
pub fn holds_switch_container(hirc: &HierarchyChunk) -> (r: bool)
    ensures
        r == has_switch_container(models(hirc.objects@)),
{
    let ghost objs = models(hirc.objects@);
    let mut i: usize = 0;
    while i < hirc.objects.len()
        invariant
            i <= hirc.objects@.len(),
            objs == models(hirc.objects@),
            forall|j: int| 0 <= j < i ==> !((#[trigger] objs[j]).obj is MusicSwitchContainer),
        decreases hirc.objects@.len() - i,
    {
        assert(objs[i as int] == hirc.objects@[i as int].model());
        if let HierarchyObjectType::MusicSwitchContainer(_) = &hirc.objects[i].obj {
            assert(objs[i as int].obj is MusicSwitchContainer);
            return true;
        }
        i = i + 1;
    }
    false
}

} // verus!
