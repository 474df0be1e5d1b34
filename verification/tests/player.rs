use azilis_parser::error::ParseError;
use azilis_parser::hierarchy::HierarchyChunk;
use azilis_parser::hierarchy::music::{
    AudioPathElement, AudioPathNode, MusicPathEndpoint, MusicSwitchContainer,
};
use azilis_parser::player::{
    audio_step, bank_progress, child_switches, contains_id, find_hierarchy, first_switch,
    holds_switch_container, is_music_bank, load_bank, select_bank_data, shares_an_id,
    switch_choices, switch_group, BankStatus, LoadError, LoadProgress, SwitchChoice,
};
use azilis_parser::sound_engine::EngineRequest;
use azilis_parser::{parse, SoundbankChunkTypes};

fn pl_u32(out: &mut Vec<u8>, v: u32) {
    out.extend_from_slice(&v.to_le_bytes());
}

fn pl_object(tag: u8, body: &[u8]) -> Vec<u8> {
    let mut out = vec![tag];
    pl_u32(&mut out, body.len() as u32);
    out.extend_from_slice(body);
    out
}

fn pl_event(id: u32, actions: &[u32]) -> Vec<u8> {
    let mut out = Vec::new();
    pl_u32(&mut out, id);
    out.push(actions.len() as u8);
    for a in actions {
        pl_u32(&mut out, *a);
    }
    pl_object(4, &out)
}

fn pl_action(id: u32, code: u8, object_id: u32) -> Vec<u8> {
    let mut out = Vec::new();
    pl_u32(&mut out, id);
    out.push(0);
    out.push(code);
    pl_u32(&mut out, object_id);
    out.extend_from_slice(&[0, 0, 0]);
    match code {
        0x04 => out.extend_from_slice(&[0, 0, 0, 0, 0]),
        0x01 => out.extend_from_slice(&[0, 0, 0]),
        _ => {}
    }
    pl_object(3, &out)
}

fn pl_switch(id: u32) -> Vec<u8> {
    let mut out = Vec::new();
    pl_u32(&mut out, id);
    out.push(0);
    out.extend_from_slice(&[0; 32]);
    pl_u32(&mut out, 0);
    out.extend_from_slice(&[0; 23]);
    pl_u32(&mut out, 0);
    pl_u32(&mut out, 0);
    out.push(0);
    pl_u32(&mut out, 0);
    pl_u32(&mut out, 12);
    out.push(0);
    out.extend_from_slice(&[0; 12]);
    pl_object(12, &out)
}

fn pl_bank(objects: &[Vec<u8>]) -> Vec<u8> {
    let mut out = b"BKHD".to_vec();
    pl_u32(&mut out, 24);
    pl_u32(&mut out, 0x8C);
    out.extend_from_slice(&[0; 20]);
    out.extend_from_slice(b"HIRC");
    pl_u32(&mut out, 0);
    pl_u32(&mut out, objects.len() as u32);
    for o in objects {
        out.extend_from_slice(o);
    }
    out
}

#[test]
fn status_labels() {
    assert_eq!(BankStatus::Idle.label(), "");
    assert_eq!(BankStatus::LoadingBanks.label(), "Loading Soundbanks");
    assert_eq!(BankStatus::ReadingHierarchy.label(), "Reading Bank Hierarchy");
    assert_eq!(
        BankStatus::Externals { current_file: 1, total_files: 2 }.label(),
        "Loading Externals"
    );
}

#[test]
fn progress_holds_the_last_status() {
    let mut progress = LoadProgress::new();
    assert_eq!(bank_progress(&progress), BankStatus::Idle);
    progress.set(BankStatus::LoadingBanks);
    assert_eq!(bank_progress(&progress), BankStatus::LoadingBanks);
    progress.set(BankStatus::Externals { current_file: 3, total_files: 9 });
    assert_eq!(
        bank_progress(&progress),
        BankStatus::Externals { current_file: 3, total_files: 9 }
    );
}

#[test]
fn id_lists() {
    assert!(contains_id(&vec![1, 2, 3], 3));
    assert!(!contains_id(&vec![1, 2, 3], 4));
    assert!(!contains_id(&vec![], 0));
    assert!(shares_an_id(&vec![1, 2], &vec![5, 2]));
    assert!(!shares_an_id(&vec![1, 2], &vec![3, 4]));
    assert!(!shares_an_id(&vec![], &vec![3, 4]));
    assert!(!shares_an_id(&vec![1], &vec![]));
}

#[test]
fn selects_events_and_main_switch() {
    let data = pl_bank(&[
        pl_event(0xE1, &[0xA1]),       // triggers a play action
        pl_event(0xE2, &[0xA3]),       // triggers a stop action
        pl_event(0xE3, &[0xA9]),       // triggers nothing known
        pl_event(0xE4, &[0xA9, 0xA2]), // triggers a play action, second in its list
        pl_switch(0x50),               // not a target
        pl_action(0xA1, 0x04, 0x52),
        pl_action(0xA2, 0x04, 0x51),
        pl_action(0xA3, 0x01, 0x51),
        pl_action(0xA4, 0x06, 0x50), // mute: no play action
        pl_switch(0x51),
        pl_switch(0x52),
    ]);
    let bank = load_bank(&data, 0xB1).unwrap();
    assert_eq!(bank.id, 0xB1);
    assert_eq!(bank.play_event_ids, vec![0xE1, 0xE4]);
    assert_eq!(bank.stop_event_ids, vec![0xE2]);
    assert_eq!(bank.main_switch.id, 0x51);
    assert_eq!(bank.bank_data, vec![data.clone()]);
    assert_eq!(bank.hierarchy.objects.len(), 11);
}

#[test]
fn no_targeted_switch_is_not_found() {
    let data = pl_bank(&[pl_event(0xE1, &[0xA1]), pl_action(0xA1, 0x04, 0x52), pl_switch(0x51)]);
    assert_eq!(load_bank(&data, 1).err(), Some(LoadError::NoMusicSwitchContainer));
    // a stop action does not make a switch the main one
    let data = pl_bank(&[pl_action(0xA1, 0x01, 0x51), pl_switch(0x51)]);
    assert_eq!(load_bank(&data, 1).err(), Some(LoadError::NoMusicSwitchContainer));
    let data = pl_bank(&[]);
    assert_eq!(load_bank(&data, 1).err(), Some(LoadError::NoMusicSwitchContainer));
}

#[test]
fn no_events_is_no_failure() {
    let data = pl_bank(&[pl_action(0xA1, 0x04, 0x51), pl_switch(0x51)]);
    let bank = load_bank(&data, 1).unwrap();
    assert!(bank.play_event_ids.is_empty());
    assert!(bank.stop_event_ids.is_empty());
    assert_eq!(bank.main_switch.id, 0x51);
}

#[test]
fn bank_that_does_not_decode() {
    assert_eq!(
        load_bank(&[], 1).err(),
        Some(LoadError::Parse(ParseError::InvalidSoundbankHeader))
    );
    let mut data = pl_bank(&[pl_switch(0x51)]);
    data.truncate(data.len() - 1);
    assert_eq!(load_bank(&data, 1).err(), Some(LoadError::Parse(ParseError::InvalidObject)));
}

#[test]
fn bank_without_hierarchy() {
    let mut data = b"BKHD".to_vec();
    pl_u32(&mut data, 24);
    pl_u32(&mut data, 0x8C);
    data.extend_from_slice(&[0; 20]);
    data.extend_from_slice(b"DATA");
    pl_u32(&mut data, 0);
    assert_eq!(load_bank(&data, 1).err(), Some(LoadError::NoHierarchy));
    let chunks = parse(&data).unwrap();
    assert_eq!(find_hierarchy(&chunks), None);
}

#[test]
fn finds_the_hierarchy_chunk() {
    let data = pl_bank(&[]);
    let chunks = parse(&data).unwrap();
    assert_eq!(find_hierarchy(&chunks), Some(1));
    assert_eq!(find_hierarchy(&Vec::new()), None);
}

#[test]
fn selection_from_a_hierarchy() {
    let empty = HierarchyChunk::default();
    assert_eq!(
        select_bank_data(&empty, 5, &[1, 2, 3]).err(),
        Some(LoadError::NoMusicSwitchContainer)
    );
}

#[test]
fn load_error_messages() {
    assert_eq!(
        LoadError::NoMusicSwitchContainer.message(),
        "No MusicSwitchContainer objects found in the hierarchy"
    );
    assert_eq!(
        LoadError::Parse(ParseError::InvalidSoundbankHeader).message(),
        "Invalid Soundbank Header"
    );
    assert!(!LoadError::NoHierarchy.message().is_empty());
}

fn pl_leaf(from_id: u32, audio_id: u32) -> AudioPathElement {
    AudioPathElement::MusicEndpoint(MusicPathEndpoint { from_id, weight: 0, probability: 0, audio_id })
}

fn pl_tree(children: Vec<AudioPathElement>) -> MusicSwitchContainer {
    let mut sw = MusicSwitchContainer::default();
    sw.paths.children = children;
    sw
}

#[test]
fn first_switch_is_the_first_leaf_or_zero() {
    assert_eq!(first_switch(&pl_tree(vec![])), 0);
    assert_eq!(first_switch(&pl_tree(vec![pl_leaf(11, 1), pl_leaf(22, 2)])), 11);
    let inner = AudioPathElement::AudioPath(AudioPathNode {
        from_id: 9,
        weight: 0,
        probability: 0,
        children_start_at_index: 1,
        children: vec![pl_leaf(33, 3)],
    });
    assert_eq!(first_switch(&pl_tree(vec![inner, pl_leaf(22, 2)])), 0);
    assert_eq!(first_switch(&pl_tree(vec![AudioPathElement::Empty])), 0);
}

#[test]
fn choices_are_the_leaves_of_the_root() {
    let inner = AudioPathElement::AudioPath(AudioPathNode {
        from_id: 9,
        weight: 0,
        probability: 0,
        children_start_at_index: 1,
        children: vec![pl_leaf(33, 3)],
    });
    let sw = pl_tree(vec![pl_leaf(11, 1), inner, AudioPathElement::Empty, pl_leaf(22, 2)]);
    assert_eq!(
        switch_choices(&sw),
        vec![
            SwitchChoice { switch_value: 11, audio_id: 1 },
            SwitchChoice { switch_value: 22, audio_id: 2 },
        ]
    );
    assert!(switch_choices(&pl_tree(vec![])).is_empty());
}

#[test]
fn switch_group_is_the_first_group() {
    let mut sw = MusicSwitchContainer::default();
    assert_eq!(switch_group(&sw), None);
    sw.group_ids = vec![0xA1, 0xA2];
    assert_eq!(switch_group(&sw), Some(0xA1));
}

#[test]
fn child_switches_by_what_plays() {
    let data = pl_bank(&[pl_switch(0x50), pl_event(1, &[]), pl_switch(0x51), pl_switch(0x52)]);
    let chunks = parse(&data).unwrap();
    let SoundbankChunkTypes::Hierarchy(hirc) = &chunks[1].chunk else {
        panic!("expected the hierarchy");
    };
    let choices = vec![
        SwitchChoice { switch_value: 1, audio_id: 0x52 },
        SwitchChoice { switch_value: 2, audio_id: 0x99 },
        SwitchChoice { switch_value: 0x51, audio_id: 0x50 },
    ];
    let found = child_switches(hirc, &choices);
    assert_eq!(found.iter().map(|s| s.id).collect::<Vec<_>>(), vec![0x50, 0x52]);
    assert!(child_switches(hirc, &Vec::new()).is_empty());
}

#[test]
fn audio_loop_rounds() {
    let stop = audio_step(true, 5, 4, 77);
    assert_eq!(stop.requests, vec![EngineRequest::StopAll { game_object_id: 100 }]);
    assert!(stop.finished);
    assert_eq!(stop.last_switch, 4);

    let change = audio_step(false, 5, 4, 77);
    assert_eq!(
        change.requests,
        vec![
            EngineRequest::SetSwitch { switch_group: 77, switch_state: 5, game_object_id: 100 },
            EngineRequest::RenderAudio { allow_sync_render: true },
        ]
    );
    assert!(!change.finished);
    assert_eq!(change.last_switch, 5);

    let same = audio_step(false, 5, 5, 77);
    assert_eq!(same.requests, vec![EngineRequest::RenderAudio { allow_sync_render: true }]);
    assert!(!same.finished);
    assert_eq!(same.last_switch, 5);
}

#[test]
fn music_banks_hold_a_switch_container() {
    assert!(is_music_bank(&pl_bank(&[pl_event(1, &[]), pl_switch(0x51)])));
    assert!(!is_music_bank(&pl_bank(&[pl_event(1, &[])])));
    assert!(!is_music_bank(&pl_bank(&[])));
    assert!(!is_music_bank(&[]));
    let mut broken = pl_bank(&[pl_switch(0x51)]);
    broken.truncate(broken.len() - 1);
    assert!(!is_music_bank(&broken));
    let data = pl_bank(&[pl_switch(0x51)]);
    let chunks = parse(&data).unwrap();
    let SoundbankChunkTypes::Hierarchy(hirc) = &chunks[1].chunk else {
        panic!("expected the hierarchy");
    };
    assert!(holds_switch_container(hirc));
    assert!(!holds_switch_container(&HierarchyChunk::default()));
}
