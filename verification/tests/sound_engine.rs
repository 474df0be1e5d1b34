use azilis_parser::sound_engine::{
    add_default_listener, add_listener, c_string, call_result, call_result_with,
    channel_mask_to_num_channels, clear_banks, load_bank_by_id, load_bank_by_name, post_result,
    register_game_obj, register_named_game_obj, remove_default_listener, remove_listener,
    render_audio, set_default_listeners, set_game_object_output_bus_volume, set_listeners,
    set_offline_rendering, set_offline_rendering_time, set_switch, stop_all, unload_bank_by_id,
    unload_bank_by_name,
    unregister_all_game_obj, unregister_game_obj, AkCallbackType, AkChannelConfig, AkCodecId,
    AkExternalSourceInfo, AkResult, EngineRequest, PostEvent, AkID, AK_INVALID_GAME_OBJECT,
    AK_INVALID_PLAYING_ID,
    AK_SPEAKER_SETUP_2_0, AK_SPEAKER_SETUP_5_1, AK_SPEAKER_SETUP_7POINT1,
};

#[test]
fn set_standard_counts_the_mask_bits() {
    let mut cc = AkChannelConfig::default();
    cc.set_standard(AK_SPEAKER_SETUP_2_0);
    assert_eq!(cc, AkChannelConfig { num_channels: 2, config_type: 1, channel_mask: 0x3 });
    cc.set_standard(0);
    assert_eq!(cc, AkChannelConfig { num_channels: 0, config_type: 1, channel_mask: 0 });
    cc.set_standard(u32::MAX);
    assert_eq!(cc.num_channels, 32);
    cc.set_standard(0x8000_0001);
    assert_eq!(cc.num_channels, 2);
    cc.set_standard(AK_SPEAKER_SETUP_5_1);
    assert_eq!(cc.num_channels, 6);
    for mask in [1u32, 0x63F, 0xF0F0, 0x1234_5678] {
        cc.set_standard(mask);
        assert_eq!(cc.num_channels, mask.count_ones());
        assert_eq!(cc.channel_mask, mask);
    }
}

#[test]
fn standard_masks_by_channel_count() {
    assert_eq!(channel_mask_to_num_channels(0), 0);
    assert_eq!(channel_mask_to_num_channels(1), 0x4);
    assert_eq!(channel_mask_to_num_channels(2), 0x3);
    assert_eq!(channel_mask_to_num_channels(3), 0xB);
    assert_eq!(channel_mask_to_num_channels(4), 0x603);
    assert_eq!(channel_mask_to_num_channels(5), 0x607);
    assert_eq!(channel_mask_to_num_channels(6), 0x60F);
    assert_eq!(channel_mask_to_num_channels(7), 0x637);
    assert_eq!(channel_mask_to_num_channels(8), AK_SPEAKER_SETUP_7POINT1);
    assert_eq!(channel_mask_to_num_channels(9), 0);
    assert_eq!(channel_mask_to_num_channels(u32::MAX), 0);
}

#[test]
fn standard_mask_has_as_many_speakers_as_channels() {
    for n in 1..=8u32 {
        let mut cc = AkChannelConfig::default();
        cc.set_standard(channel_mask_to_num_channels(n));
        assert_eq!(cc.num_channels, n);
    }
}

#[test]
fn packed_channel_config() {
    let cc = AkChannelConfig { num_channels: 2, config_type: 1, channel_mask: 0x3 };
    assert_eq!(cc.as_ak(), 0x0000_3102);
    let cc = AkChannelConfig { num_channels: 8, config_type: 1, channel_mask: 0x63F };
    assert_eq!(cc.as_ak(), 0x0063_F108);
    // fields that do not fit lose their upper bits
    let cc = AkChannelConfig { num_channels: 0x1FF, config_type: 0x1F, channel_mask: 0xFFFF_FFFF };
    assert_eq!(cc.as_ak(), 0xFFFF_FFFF);
    let cc = AkChannelConfig { num_channels: 0x100, config_type: 0x10, channel_mask: 0x10_0000 };
    assert_eq!(cc.as_ak(), 0);
    assert_eq!(AkChannelConfig::default().as_ak(), 0);
}

#[test]
fn engine_answers() {
    assert_eq!(call_result(AkResult::AK_Success), Ok(()));
    assert_eq!(call_result(AkResult::AK_Fail), Err(AkResult::AK_Fail));
    assert_eq!(call_result(AkResult::AK_InvalidParameter), Err(AkResult::AK_InvalidParameter));
    assert_eq!(call_result_with(AkResult::AK_Success, 42), Ok(42));
    assert_eq!(call_result_with(AkResult::AK_BankReadError, 42), Err(AkResult::AK_BankReadError));
    assert_eq!(post_result(AK_INVALID_PLAYING_ID), Err(AkResult::AK_Fail));
    assert_eq!(post_result(1), Ok(1));
    assert_eq!(post_result(u32::MAX), Ok(u32::MAX));
}

#[test]
fn c_strings_end_in_zero() {
    assert_eq!(c_string(""), Some(vec![0]));
    assert_eq!(c_string("Init"), Some(b"Init\0".to_vec()));
    assert_eq!(c_string("é"), Some(vec![0xC3, 0xA9, 0]));
    assert_eq!(c_string("a\0b"), None);
    assert_eq!(c_string("\0"), None);
    assert_eq!(c_string("ab\0"), None);
}

#[test]
fn plain_requests() {
    assert_eq!(render_audio(true), EngineRequest::RenderAudio { allow_sync_render: true });
    assert_eq!(render_audio(false), EngineRequest::RenderAudio { allow_sync_render: false });
    assert_eq!(set_offline_rendering(true), EngineRequest::SetOfflineRendering { enable: true });
    assert_eq!(unregister_all_game_obj(), EngineRequest::UnregisterAllGameObj);
    assert_eq!(unregister_game_obj(5), EngineRequest::UnregisterGameObj { game_object_id: 5 });
    assert_eq!(register_game_obj(100), EngineRequest::RegisterGameObj { game_object_id: 100 });
    assert_eq!(add_default_listener(1), EngineRequest::AddDefaultListener { listener_id: 1 });
    assert_eq!(remove_default_listener(2), EngineRequest::RemoveDefaultListener { listener_id: 2 });
    assert_eq!(add_listener(3, 4), EngineRequest::AddListener { emitter_id: 3, listener_id: 4 });
    assert_eq!(
        remove_listener(3, 4),
        EngineRequest::RemoveListener { emitter_id: 3, listener_id: 4 }
    );
    assert_eq!(load_bank_by_id(0xB4), EngineRequest::LoadBankById { id: 0xB4 });
    assert_eq!(clear_banks(), EngineRequest::ClearBanks);
}

#[test]
fn listener_lists_carry_their_count() {
    assert_eq!(
        set_default_listeners(&[1, 2, 3]),
        EngineRequest::SetDefaultListeners { listener_ids: vec![1, 2, 3], count: 3 }
    );
    assert_eq!(
        set_default_listeners(&[]),
        EngineRequest::SetDefaultListeners { listener_ids: vec![], count: 0 }
    );
    assert_eq!(
        set_listeners(9, &[u64::MAX]),
        EngineRequest::SetListeners { emitter_id: 9, listener_ids: vec![u64::MAX], count: 1 }
    );
}

#[test]
fn named_requests_carry_c_strings() {
    assert_eq!(
        register_named_game_obj(7, "Player"),
        Some(EngineRequest::RegisterNamedGameObj { game_object_id: 7, name: b"Player\0".to_vec() })
    );
    assert_eq!(register_named_game_obj(7, "Pl\0ayer"), None);
    assert_eq!(
        load_bank_by_name("Init.bnk"),
        Some(EngineRequest::LoadBankByName { name: b"Init.bnk\0".to_vec() })
    );
    assert_eq!(load_bank_by_name("\0"), None);
}

#[test]
fn external_sources() {
    let by_id = AkExternalSourceInfo::from_id(0x1D, 0xC00C, AkCodecId::Vorbis);
    assert_eq!(
        by_id,
        AkExternalSourceInfo {
            external_src_cookie: 0xC00C,
            codec: AkCodecId::Vorbis,
            memory_size: 0,
            file_id: 0x1D,
        }
    );
    let by_path = AkExternalSourceInfo::from_path("music/a.wem", 0xC00C, AkCodecId::PCM);
    assert_eq!(
        by_path,
        AkExternalSourceInfo {
            external_src_cookie: 0xC00C,
            codec: AkCodecId::PCM,
            memory_size: 0,
            file_id: 0,
        }
    );
    assert_eq!(AkCodecId::Bank.to_code(), 0);
    assert_eq!(AkCodecId::PCM.to_code(), 1);
    assert_eq!(AkCodecId::ADPCM.to_code(), 2);
    assert_eq!(AkCodecId::XMA.to_code(), 3);
    assert_eq!(AkCodecId::Vorbis.to_code(), 4);
}

#[test]
fn post_event_by_id() {
    let source = AkExternalSourceInfo::from_id(1, 2, AkCodecId::Vorbis);
    let event = PostEvent::new(100, AkID::ID(0xE1), vec![source]);
    assert_eq!(
        event.post(),
        Some(EngineRequest::PostEventById {
            event_id: 0xE1,
            game_object_id: 100,
            flags: 0,
            external_sources: vec![source],
            playing_id: AK_INVALID_PLAYING_ID,
        })
    );
}

#[test]
fn post_event_builder_chains() {
    let mut event = PostEvent::new(100, AkID::Name("Play_Music"), Vec::new());
    event
        .add_flags(AkCallbackType(0x80))
        .add_flags(AkCallbackType(0x40))
        .add_flags(AkCallbackType(0x80))
        .playing_id(77);
    assert_eq!(
        event.post(),
        Some(EngineRequest::PostEventByName {
            name: b"Play_Music\0".to_vec(),
            game_object_id: 100,
            flags: 0xC0,
            external_sources: vec![],
            playing_id: 77,
        })
    );
    event.flags(AkCallbackType(0x8));
    let Some(EngineRequest::PostEventByName { flags, playing_id, .. }) = event.post() else {
        panic!("expected a request by name");
    };
    assert_eq!(flags, 0x8);
    assert_eq!(playing_id, 77);
}

#[test]
fn post_event_with_bad_name_has_no_request() {
    let event = PostEvent::new(1, AkID::Name("a\0b"), Vec::new());
    assert_eq!(event.post(), None);
}

#[test]
fn stop_all_for_one_or_for_all() {
    assert_eq!(stop_all(Some(100)), EngineRequest::StopAll { game_object_id: 100 });
    assert_eq!(stop_all(None), EngineRequest::StopAll { game_object_id: u64::MAX });
    assert_eq!(AK_INVALID_GAME_OBJECT, u64::MAX);
    assert_eq!(
        set_switch(1, 2, 3),
        EngineRequest::SetSwitch { switch_group: 1, switch_state: 2, game_object_id: 3 }
    );
}

#[test]
fn post_with_callback_adds_end_of_event() {
    let mut event = PostEvent::new(100, AkID::ID(5), Vec::new());
    event.flags(AkCallbackType(0x80));
    let Some(EngineRequest::PostEventById { flags, .. }) = event.post_with_callback() else {
        panic!("expected a request by id");
    };
    assert_eq!(flags, 0x81);
    // the event itself keeps its flags
    let Some(EngineRequest::PostEventById { flags, .. }) = event.post() else {
        panic!("expected a request by id");
    };
    assert_eq!(flags, 0x80);
    event.flags(AkCallbackType(0x1));
    let Some(EngineRequest::PostEventById { flags, .. }) = event.post_with_callback() else {
        panic!("expected a request by id");
    };
    assert_eq!(flags, 0x1);
    let named = PostEvent::new(100, AkID::Name("x\0"), Vec::new());
    assert_eq!(named.post_with_callback(), None);
}

#[test]
fn requests_that_carry_numbers_as_bits() {
    assert_eq!(
        set_offline_rendering_time(0.5f32.to_bits()),
        EngineRequest::SetOfflineRenderingTime { frame_time_bits: 0x3F00_0000 }
    );
    assert_eq!(
        set_game_object_output_bus_volume(100, 1, 1.0f32.to_bits()),
        EngineRequest::SetGameObjectOutputBusVolume {
            emitter_id: 100,
            listener_id: 1,
            control_value_bits: 0x3F80_0000,
        }
    );
}

#[test]
fn unload_requests() {
    assert_eq!(unload_bank_by_id(9), EngineRequest::UnloadBankById { id: 9 });
    assert_eq!(
        unload_bank_by_name("Music"),
        Some(EngineRequest::UnloadBankByName { name: b"Music\0".to_vec() })
    );
    assert_eq!(unload_bank_by_name("Mu\0sic"), None);
}

#[test]
fn external_source_in_memory() {
    assert_eq!(
        AkExternalSourceInfo::from_ptr(4096, 7, AkCodecId::ADPCM),
        AkExternalSourceInfo {
            external_src_cookie: 7,
            codec: AkCodecId::ADPCM,
            memory_size: 4096,
            file_id: 0,
        }
    );
}
