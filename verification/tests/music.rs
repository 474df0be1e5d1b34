use azilis_parser::cursor::Cursor;
use azilis_parser::decode::Record;
use azilis_parser::hierarchy::music::{
    AudioPathNode, MusicCurvePoint, MusicStinger, MusicSwitchContainer, MusicSwitchParams,
    MusicTrack, MusicTrackCurve, MusicTrackTimeParameter, MusicTrackType, MusicTransition, Sound,
    TransitionSegment,
};

fn mu_u32(out: &mut Vec<u8>, v: u32) {
    out.extend_from_slice(&v.to_le_bytes());
}

/// A properties block without anything optional: 32 bytes.
fn mu_properties(parent_id: u32) -> Vec<u8> {
    let mut out = vec![0, 0, 0, 0, 0];
    mu_u32(&mut out, 0x0B05);
    mu_u32(&mut out, parent_id);
    out.extend_from_slice(&[0; 19]);
    out
}

fn mu_transition_fixed(flag: u8) -> Vec<u8> {
    let mut out = Vec::new();
    for v in [101u32, 102, 103, 104, 105] {
        mu_u32(&mut out, v);
    }
    out.push(0x11);
    for v in [201u32, 202, 203, 204, 205, 206] {
        mu_u32(&mut out, v);
    }
    out.push(0x22);
    out.push(0x33);
    out.push(flag);
    out
}

fn mu_segment() -> Vec<u8> {
    let mut out = Vec::new();
    for v in [1u32, 2, 3, 4, 5, 6, 7] {
        mu_u32(&mut out, v);
    }
    out.push(8);
    out.push(9);
    out
}

fn mu_container(path_len: u32, blob: &[u8]) -> Vec<u8> {
    let mut out = Vec::new();
    mu_u32(&mut out, 0xC0FFEE);
    out.push(0x04);
    out.extend_from_slice(&mu_properties(0x77));
    mu_u32(&mut out, 2);
    mu_u32(&mut out, 0x1001);
    mu_u32(&mut out, 0x1002);
    out.extend_from_slice(&1000.0f64.to_le_bytes());
    out.extend_from_slice(&0.5f64.to_le_bytes());
    out.extend_from_slice(&120.0f32.to_le_bytes());
    out.push(4);
    out.push(3);
    out.push(0xAB); // passed over
    mu_u32(&mut out, 1); // one stinger
    for v in [1u32, 2, 3, 4, 5, 6] {
        mu_u32(&mut out, v);
    }
    mu_u32(&mut out, 1); // one transition
    mu_u32(&mut out, 1);
    mu_u32(&mut out, 0xFFFF_FFFF);
    mu_u32(&mut out, 0);
    out.extend_from_slice(&mu_transition_fixed(1));
    out.extend_from_slice(&mu_segment());
    out.push(1); // continue on group change
    mu_u32(&mut out, 2); // two groups: the ids first, then the types
    mu_u32(&mut out, 0xA1);
    mu_u32(&mut out, 0xA2);
    out.push(0);
    out.push(1);
    mu_u32(&mut out, path_len);
    out.push(1); // weighted
    out.extend_from_slice(blob);
    out
}

#[test]
fn track_type_codes() {
    assert_eq!(MusicTrackType::from_code(0), Some(MusicTrackType::Normal));
    assert_eq!(MusicTrackType::from_code(1), Some(MusicTrackType::RandomStep));
    assert_eq!(MusicTrackType::from_code(2), Some(MusicTrackType::SequenceStep));
    assert_eq!(MusicTrackType::from_code(3), Some(MusicTrackType::Switch));
    assert_eq!(MusicTrackType::from_code(4), None);
    assert_eq!(MusicTrackType::from_code(255), None);
    assert_eq!(MusicTrackType::default(), MusicTrackType::Normal);
}

#[test]
fn sound_record() {
    let mut data = vec![1, 2, 3, 4, 5];
    mu_u32(&mut data, 0xAAAA);
    mu_u32(&mut data, 0xBBBB);
    data.push(6);
    let mut cur = Cursor::new(&data);
    assert_eq!(
        Sound::read(&mut cur),
        Some(Sound {
            unk4: 1,
            unk5: 2,
            conversion: 3,
            unk7: 4,
            source: 5,
            audio_id: 0xAAAA,
            audio_len: 0xBBBB,
            audio_type: 6,
        })
    );
    assert_eq!(cur.position(), 14);
    assert_eq!(Sound::read(&mut Cursor::new(&data[..13])), None);
}

#[test]
fn time_parameter_record() {
    let mut data = Vec::new();
    mu_u32(&mut data, 1);
    mu_u32(&mut data, 2);
    mu_u32(&mut data, 3);
    for v in [0.0f64, 1.5, -2.25, 1e9] {
        data.extend_from_slice(&v.to_le_bytes());
    }
    let mut cur = Cursor::new(&data);
    let p = MusicTrackTimeParameter::read(&mut cur).unwrap();
    assert_eq!(cur.position(), 44);
    assert_eq!((p.sub_track_index, p.audio_id, p.event_id), (1, 2, 3));
    assert_eq!(f64::from_bits(p.begin_offset), 0.0);
    assert_eq!(f64::from_bits(p.begin_trim_offset), 1.5);
    assert_eq!(f64::from_bits(p.end_trim_offset), -2.25);
    assert_eq!(f64::from_bits(p.end_offset), 1e9);
}

#[test]
fn curve_with_points() {
    let mut data = Vec::new();
    mu_u32(&mut data, 7);
    mu_u32(&mut data, 8);
    mu_u32(&mut data, 2);
    for (x, y, shape) in [(0.0f32, 1.0f32, 4u32), (2.0, 3.0, 9)] {
        data.extend_from_slice(&x.to_le_bytes());
        data.extend_from_slice(&y.to_le_bytes());
        mu_u32(&mut data, shape);
    }
    let mut cur = Cursor::new(&data);
    let curve = MusicTrackCurve::read(&mut cur).unwrap();
    assert_eq!(cur.position(), 36);
    assert_eq!(
        curve,
        MusicTrackCurve {
            time_parameter_index: 7,
            curve_type: 8,
            point_count: 2,
            points: vec![
                MusicCurvePoint { x: 0.0f32.to_bits(), y: 1.0f32.to_bits(), following_shape: 4 },
                MusicCurvePoint { x: 2.0f32.to_bits(), y: 3.0f32.to_bits(), following_shape: 9 },
            ],
        }
    );
    assert_eq!(MusicTrackCurve::read(&mut Cursor::new(&data[..35])), None);
}

#[test]
fn switch_params_record() {
    let mut data = vec![0xEE];
    mu_u32(&mut data, 10);
    mu_u32(&mut data, 20);
    mu_u32(&mut data, 2);
    mu_u32(&mut data, 31);
    mu_u32(&mut data, 32);
    for v in [1u32, 2, 3, 4, 5, 6, 7, 8] {
        mu_u32(&mut data, v);
    }
    let mut cur = Cursor::new(&data);
    let p = MusicSwitchParams::read(&mut cur).unwrap();
    assert_eq!(cur.position(), data.len() as u64);
    assert_eq!(
        p,
        MusicSwitchParams {
            group_id: 10,
            default_switch_state_id: 20,
            sub_track_count: 2,
            associated_switch_state_ids: vec![31, 32],
            fade_out_dur: 1,
            fade_out_shape: 2,
            face_out_offset: 3,
            exit_souce_at: 4,
            exit_source_at_cueid: 5,
            fade_in_dur: 6,
            fade_in_shape: 7,
            fade_in_offset: 8,
        }
    );
}

#[test]
fn transition_without_segment() {
    let mut data = Vec::new();
    mu_u32(&mut data, 2);
    mu_u32(&mut data, 1);
    mu_u32(&mut data, 2);
    mu_u32(&mut data, 1);
    mu_u32(&mut data, 3);
    data.extend_from_slice(&mu_transition_fixed(0));
    data.extend_from_slice(&[0xFF; 30]);
    let mut cur = Cursor::new(&data);
    let t = MusicTransition::read(&mut cur).unwrap();
    assert_eq!(cur.position(), data.len() as u64 - 30);
    assert_eq!(t.source_ids, vec![1, 2]);
    assert_eq!(t.destination_ids, vec![3]);
    assert_eq!(t.fade_out_duration, 101);
    assert_eq!(t.fade_out_curve, 102);
    assert_eq!(t.fade_out_offset, 103);
    assert_eq!(t.exit_source_at, 104);
    assert_eq!(t.exit_source_at_id, 105);
    assert_eq!(t.play_post_exit, 0x11);
    assert_eq!(t.fade_in_duration, 201);
    assert_eq!(t.fade_in_curve, 202);
    assert_eq!(t.fade_in_offset, 203);
    assert_eq!(t.custom_cue_filter_id, 204);
    assert_eq!(t.jump_to_playlist_item_id, 205);
    assert_eq!(t.destination_sync_to, 206);
    assert_eq!(t.play_pre_entry, 0x22);
    assert_eq!(t.match_source_cue_name, 0x33);
    assert_eq!(t.use_transition_segment, 0);
    assert_eq!(t.transition_segment, TransitionSegment::default());
}

#[test]
fn transition_segment_only_for_flag_one() {
    for flag in [0u8, 1, 2, 255] {
        let mut data = vec![0u8; 8];
        data.extend_from_slice(&mu_transition_fixed(flag));
        data.extend_from_slice(&mu_segment());
        let mut cur = Cursor::new(&data);
        let t = MusicTransition::read(&mut cur).unwrap();
        if flag == 1 {
            assert_eq!(cur.position(), data.len() as u64);
            assert_eq!(
                t.transition_segment,
                TransitionSegment {
                    id: 1,
                    fade_in_duration: 2,
                    fade_in_curve: 3,
                    fade_in_offset: 4,
                    fade_out_duration: 5,
                    fade_out_curve: 6,
                    fade_out_offset: 7,
                    play_pre_entry: 8,
                    play_post_exit: 9,
                }
            );
        } else {
            assert_eq!(cur.position(), data.len() as u64 - 30);
            assert_eq!(t.transition_segment, TransitionSegment::default());
        }
    }
}

fn mu_track(time_params: u32, track_type: u8) -> Vec<u8> {
    let mut out = Vec::new();
    mu_u32(&mut out, 0x7AC4);
    out.push(2);
    mu_u32(&mut out, 1);
    out.extend_from_slice(&[1, 2, 3, 4, 5]);
    mu_u32(&mut out, 0x5001);
    mu_u32(&mut out, 0x5002);
    out.push(6);
    mu_u32(&mut out, time_params);
    for i in 0..time_params {
        mu_u32(&mut out, i);
        mu_u32(&mut out, 0x5001);
        mu_u32(&mut out, 0);
        out.extend_from_slice(&[0; 32]);
    }
    if time_params > 0 {
        mu_u32(&mut out, 9); // sub-tracks
    }
    mu_u32(&mut out, 0); // curves
    out.extend_from_slice(&mu_properties(0x88));
    out.push(track_type);
    if track_type == 3 {
        out.push(0);
        mu_u32(&mut out, 0x61);
        mu_u32(&mut out, 0x62);
        mu_u32(&mut out, 0);
        out.extend_from_slice(&[0; 32]);
    }
    mu_u32(&mut out, 0x1234);
    out
}

#[test]
fn track_without_time_parameters_has_no_sub_track_count() {
    let data = mu_track(0, 0);
    let mut cur = Cursor::new(&data);
    let track = MusicTrack::read(&mut cur).unwrap();
    assert_eq!(cur.position(), data.len() as u64);
    assert_eq!(track.id, 0x7AC4);
    assert_eq!(track.midi_behaviour, 2);
    assert_eq!(track.sounds.len(), 1);
    assert_eq!(track.sounds[0].audio_id, 0x5001);
    assert!(track.time_parameters.is_empty());
    assert_eq!(track.sub_track_count, 0);
    assert!(track.curves.is_empty());
    assert_eq!(track.properties.parent_id, 0x88);
    assert_eq!(track.track_type, MusicTrackType::Normal);
    assert_eq!(track.switch_params, MusicSwitchParams::default());
    assert_eq!(track.look_ahead_time, 0x1234);
}

#[test]
fn track_with_time_parameters_has_sub_track_count() {
    let data = mu_track(2, 1);
    let mut cur = Cursor::new(&data);
    let track = MusicTrack::read(&mut cur).unwrap();
    assert_eq!(cur.position(), data.len() as u64);
    assert_eq!(track.time_parameters.len(), 2);
    assert_eq!(track.time_parameters[1].sub_track_index, 1);
    assert_eq!(track.sub_track_count, 9);
    assert_eq!(track.track_type, MusicTrackType::RandomStep);
    assert_eq!(track.look_ahead_time, 0x1234);
}

#[test]
fn switch_track_has_switch_params() {
    let data = mu_track(0, 3);
    let mut cur = Cursor::new(&data);
    let track = MusicTrack::read(&mut cur).unwrap();
    assert_eq!(cur.position(), data.len() as u64);
    assert_eq!(track.track_type, MusicTrackType::Switch);
    assert_eq!(track.switch_params.group_id, 0x61);
    assert_eq!(track.switch_params.default_switch_state_id, 0x62);
    assert_eq!(track.look_ahead_time, 0x1234);
    assert_eq!(track.clone(), track);
}

#[test]
fn track_with_unknown_type_fails() {
    let data = mu_track(0, 4);
    assert_eq!(MusicTrack::read(&mut Cursor::new(&data)), None);
}

#[test]
fn truncated_track_fails() {
    let data = mu_track(1, 3);
    for len in 0..data.len() {
        assert_eq!(MusicTrack::read(&mut Cursor::new(&data[..len])), None, "length {}", len);
    }
}

#[test]
fn switch_container_fields() {
    let blob = [0x5Au8; 24];
    let data = mu_container(24, &blob);
    let mut cur = Cursor::new(&data);
    let sw = MusicSwitchContainer::read(&mut cur).unwrap();
    assert_eq!(cur.position(), data.len() as u64);
    assert_eq!(sw.id, 0xC0FFEE);
    assert_eq!(sw.midi_behaviour, 4);
    assert_eq!(sw.properties.output_bus_id, 0x0B05);
    assert_eq!(sw.properties.parent_id, 0x77);
    assert_eq!(sw.child_ids, vec![0x1001, 0x1002]);
    assert_eq!(f64::from_bits(sw.grid_period_time), 1000.0);
    assert_eq!(f64::from_bits(sw.grid_offset_time), 0.5);
    assert_eq!(f32::from_bits(sw.tempo), 120.0);
    assert_eq!(sw.time_signature, (4, 3));
    assert_eq!(
        sw.stingers,
        vec![MusicStinger {
            trigger_id: 1,
            segment_id: 2,
            play_at: 3,
            cue_id: 4,
            do_not_repeat_in: 5,
            allow_playing_in_next_segment: 6,
        }]
    );
    assert_eq!(sw.transitions.len(), 1);
    assert_eq!(sw.transitions[0].source_ids, vec![0xFFFF_FFFF]);
    assert!(sw.transitions[0].destination_ids.is_empty());
    assert_eq!(sw.transitions[0].transition_segment.id, 1);
    assert_eq!(sw.continue_on_group_change, 1);
    assert_eq!(sw.group_ids, vec![0xA1, 0xA2]);
    assert_eq!(sw.group_types, vec![0, 1]);
    assert_eq!(sw.path_selection_length, 24);
    assert_eq!(sw.use_weighted, 1);
    assert_eq!(sw.path_sections, blob.to_vec());
    assert_eq!(sw.paths, AudioPathNode::default());
    assert!(sw.paths.children.is_empty());
}

#[test]
fn switch_container_keeps_unaligned_table() {
    // the length is taken as it is when the container is read
    let blob = [1u8; 13];
    let data = mu_container(13, &blob);
    let sw = MusicSwitchContainer::read(&mut Cursor::new(&data)).unwrap();
    assert_eq!(sw.path_selection_length, 13);
    assert_eq!(sw.path_sections.len(), 13);
}

#[test]
fn switch_container_with_short_table_fails() {
    let data = mu_container(24, &[0u8; 23]);
    assert_eq!(MusicSwitchContainer::read(&mut Cursor::new(&data)), None);
}

#[test]
fn truncated_switch_container_fails() {
    let data = mu_container(12, &[0u8; 12]);
    for len in 0..data.len() {
        assert_eq!(
            MusicSwitchContainer::read(&mut Cursor::new(&data[..len])),
            None,
            "length {}",
            len
        );
    }
}

#[test]
fn default_container_is_empty() {
    let sw = MusicSwitchContainer::default();
    assert_eq!(sw.id, 0);
    assert_eq!(sw.path_selection_length, 0);
    assert!(sw.path_sections.is_empty());
    assert!(sw.child_ids.is_empty());
    assert_eq!(sw.paths, AudioPathNode::default());
    let track = MusicTrack::default();
    assert_eq!(track.track_type, MusicTrackType::Normal);
    assert!(track.sounds.is_empty());
}
