//! What the player asks of the sound engine.
//!
//! Nothing here talks to the engine. Each function checks and lays out the
//! arguments of one engine call and hands back the request as a value; the
//! program that owns the engine performs it and hands the engine's answer to
//! the functions that read it.

use vstd::prelude::*;
use vstd::string::StringSliceAdditionalSpecFns;

verus! {

pub type AkGameObjectID = u64;

pub type AkBankID = u32;

pub type AkPlayingID = u32;

pub type AkUniqueID = u32;

pub type AkFileID = u32;

/// The playing id that stands for "no playback".
pub const AK_INVALID_PLAYING_ID: u32 = 0;

/// The game object id that stands for "no object", or for all objects.
pub const AK_INVALID_GAME_OBJECT: u64 = 0xFFFF_FFFF_FFFF_FFFF;

/// The callback kind that tells of the end of an event.
pub const AK_END_OF_EVENT: u32 = 0x1;

/// Front centre only.
pub const AK_SPEAKER_SETUP_1_0_CENTER: u32 = 0x4;

/// Front left and right.
pub const AK_SPEAKER_SETUP_2_0: u32 = 0x3;

/// Front left and right, and the low-frequency channel.
pub const AK_SPEAKER_SETUP_2_1: u32 = 0xB;

/// Front and side left and right.
pub const AK_SPEAKER_SETUP_4_0: u32 = 0x603;

/// Front left, right and centre, and side left and right.
pub const AK_SPEAKER_SETUP_5_0: u32 = 0x607;

/// As 5.0, and the low-frequency channel.
pub const AK_SPEAKER_SETUP_5_1: u32 = 0x60F;

/// Front left, right and centre, and side and back left and right.
pub const AK_SPEAKER_SETUP_7: u32 = 0x637;

/// As 7, and the low-frequency channel.
pub const AK_SPEAKER_SETUP_7POINT1: u32 = 0x63F;

/// The configuration type of a standard speaker setup.
pub const AK_CHANNEL_CONFIG_TYPE_STANDARD: u32 = 0x1;

/// Number of binary digits that are set in `m`.
pub open spec fn bit_count(m: nat) -> nat
    decreases m,
{
    if m == 0 {
        0
    } else {
        (m % 2) + bit_count(m / 2)
    }
}

/// A number has no more set digits than its value, and 32 at most where it
/// fits in 32 bits.
pub proof fn lemma_bit_count_bound(m: nat, width: nat)
    requires
        m < vstd::arithmetic::power2::pow2(width),
    ensures
        bit_count(m) <= width,
    decreases width,
{
    vstd::arithmetic::power2::lemma2_to64();
    if m == 0 {
    } else if width == 0 {
    } else {
        vstd::arithmetic::power2::lemma_pow2_unfold(width);
        lemma_bit_count_bound(m / 2, (width - 1) as nat);
    }
}

/// How the channels of an output are laid out.
#[derive(Debug, Clone, Copy, Default, PartialEq, Eq, Structural)]
pub struct AkChannelConfig {
    pub num_channels: u32,
    pub config_type: u32,
    pub channel_mask: u32,
}

impl AkChannelConfig {
    /// Makes this a standard configuration with the speakers of
    /// `channel_mask`: one channel for each bit that is set.
    pub fn set_standard(&mut self, channel_mask: u32)
        ensures
            final(self).config_type == 1,
            final(self).channel_mask == channel_mask,
            final(self).num_channels == bit_count(channel_mask as nat),
    {
        let mut rest: u32 = channel_mask;
        let mut count: u32 = 0;
        proof {
            vstd::arithmetic::power2::lemma2_to64();
            lemma_bit_count_bound(channel_mask as nat, 32);
        }
        while rest != 0
            invariant
                count + bit_count(rest as nat) == bit_count(channel_mask as nat),
                bit_count(channel_mask as nat) <= 32,
            decreases rest,
        {
            count = count + rest % 2;
            rest = rest / 2;
        }
        self.config_type = AK_CHANNEL_CONFIG_TYPE_STANDARD;
        self.channel_mask = channel_mask;
        self.num_channels = count;
    }

    /// The word in which the engine holds a configuration: the number of
    /// channels in the low 8 bits, the type in the next 4, the mask in the
    /// upper 20. A field that does not fit loses its upper bits.
    pub open spec fn packed(self) -> int {
        (self.num_channels % 256) + 256 * (self.config_type % 16) + 4096 * (self.channel_mask
            % 1048576)
    }

    /// Packs the configuration into the word that the engine takes.
    pub fn as_ak(&self) -> (word: u32)
        ensures
            word == self.packed(),
    {
        (self.num_channels % 256) + 256 * (self.config_type % 16) + 4096 * (self.channel_mask
            % 1048576)
    }
}

/// The speaker mask of the standard setup with `num_channels` channels, for
/// one to eight channels; zero for any other number.
pub open spec fn standard_mask(num_channels: u32) -> u32 {
    match num_channels {
        1 => AK_SPEAKER_SETUP_1_0_CENTER,
        2 => AK_SPEAKER_SETUP_2_0,
        3 => AK_SPEAKER_SETUP_2_1,
        4 => AK_SPEAKER_SETUP_4_0,
        5 => AK_SPEAKER_SETUP_5_0,
        6 => AK_SPEAKER_SETUP_5_1,
        7 => AK_SPEAKER_SETUP_7,
        8 => AK_SPEAKER_SETUP_7POINT1,
        _ => 0,
    }
}

/// The speaker mask of the standard setup with `num_channels` channels.
/// Despite its name it goes from the number of channels to the mask.
pub fn channel_mask_to_num_channels(num_channels: u32) -> (mask: u32)
    ensures
        mask == standard_mask(num_channels),
{
    match num_channels {
        1 => AK_SPEAKER_SETUP_1_0_CENTER,
        2 => AK_SPEAKER_SETUP_2_0,
        3 => AK_SPEAKER_SETUP_2_1,
        4 => AK_SPEAKER_SETUP_4_0,
        5 => AK_SPEAKER_SETUP_5_0,
        6 => AK_SPEAKER_SETUP_5_1,
        7 => AK_SPEAKER_SETUP_7,
        8 => AK_SPEAKER_SETUP_7POINT1,
        _ => 0,
    }
}

/// The standard setup for `n` channels has `n` speakers, for one to eight
/// channels: a configuration set from its mask counts `n` channels.
pub proof fn lemma_standard_mask_counts(n: u32)
    requires
        1 <= n <= 8,
    ensures
        bit_count(standard_mask(n) as nat) == n,
{
    assert(bit_count(0) == 0);
    assert(bit_count(1) == 1);
    assert(bit_count(2) == 1);
    assert(bit_count(3) == 2);
    assert(bit_count(4) == 1);
    assert(bit_count(5) == 2);
    assert(bit_count(6) == 2);
    assert(bit_count(11) == 3);
    assert(bit_count(12) == 2);
    assert(bit_count(24) == 2);
    assert(bit_count(48) == 2);
    assert(bit_count(49) == 3);
    assert(bit_count(96) == 2);
    assert(bit_count(99) == 4);
    assert(bit_count(192) == 2);
    assert(bit_count(193) == 3);
    assert(bit_count(198) == 4);
    assert(bit_count(199) == 5);
    assert(bit_count(384) == 2);
    assert(bit_count(385) == 3);
    assert(bit_count(387) == 4);
    assert(bit_count(397) == 5);
    assert(bit_count(399) == 6);
    assert(bit_count(769) == 3);
    assert(bit_count(771) == 4);
    assert(bit_count(775) == 5);
    assert(bit_count(795) == 6);
    assert(bit_count(799) == 7);
    assert(bit_count(1539) == 4);
    assert(bit_count(1543) == 5);
    assert(bit_count(1551) == 6);
    assert(bit_count(1591) == 7);
    assert(bit_count(1599) == 8);
}

/// What the engine answers to a call.
#[allow(non_camel_case_types)]
#[derive(Debug, Clone, Copy, PartialEq, Eq, Structural)]
pub enum AkResult {
    AK_Success,
    AK_Fail,
    AK_InvalidParameter,
    AK_InvalidID,
    AK_IDNotFound,
    AK_InvalidFile,
    AK_InsufficientMemory,
    AK_BankReadError,
    AK_WrongBankVersion,
    AK_NotInitialized,
    AK_DeviceNotReady,
    AK_DeviceNotFound,
    AK_InvalidFloatValue,
    AK_MemManagerNotInitialized,
    AK_StreamMgrNotInitialized,
    AK_SSEInstructionsNotSupported,
}

/// Reads the engine's answer to a call that yields nothing: success is
/// `Ok`, every other answer is the error.
pub fn call_result(answer: AkResult) -> (r: Result<(), AkResult>)
    ensures
        r is Ok <==> answer == AkResult::AK_Success,
        r matches Err(e) ==> e == answer,
{
    match answer {
        AkResult::AK_Success => Ok(()),
        other => Err(other),
    }
}

/// Reads the engine's answer to a call that yields a value: on success the
/// value, else the error.
pub fn call_result_with(answer: AkResult, value: u32) -> (r: Result<u32, AkResult>)
    ensures
        r is Ok <==> answer == AkResult::AK_Success,
        r matches Ok(v) ==> v == value,
        r matches Err(e) ==> e == answer,
{
    match answer {
        AkResult::AK_Success => Ok(value),
        other => Err(other),
    }
}

/// Reads the playing id that the engine hands back for a posted event: the
/// invalid id means that posting failed.
pub fn post_result(playing_id: u32) -> (r: Result<u32, AkResult>)
    ensures
        r == if playing_id == AK_INVALID_PLAYING_ID {
            Err::<u32, AkResult>(AkResult::AK_Fail)
        } else {
            Ok::<u32, AkResult>(playing_id)
        },
{
    if playing_id == AK_INVALID_PLAYING_ID {
        Err(AkResult::AK_Fail)
    } else {
        Ok(playing_id)
    }
}

/// The bytes of a C string that spells `text`: the bytes of the text and a
/// closing zero. A text that holds a zero byte has no C string.
pub open spec fn c_string_of(text: Seq<u8>) -> Option<Seq<u8>> {
    if text.contains(0u8) {
        None
    } else {
        Some(text.push(0u8))
    }
}

/// Lays a text out as a C string.
pub fn c_string(text: &str) -> (r: Option<Vec<u8>>)
    ensures
        match r {
            Some(v) => c_string_of(text.spec_bytes()) == Some(v@),
            None => c_string_of(text.spec_bytes()) is None,
        },
{
    let bytes = text.as_bytes();
    let mut out: Vec<u8> = Vec::new();
    let mut i: usize = 0;
    while i < bytes.len()
        invariant
            i <= bytes@.len(),
            bytes@ == text.spec_bytes(),
            out@ == bytes@.subrange(0, i as int),
            forall|k: int| 0 <= k < i ==> bytes@[k] != 0u8,
        decreases bytes@.len() - i,
    {
        let b: u8 = bytes[i];
        if b == 0 {
            assert(bytes@[i as int] == 0u8);
            assert(bytes@.contains(0u8));
            return None;
        }
        out.push(b);
        assert(out@ =~= bytes@.subrange(0, i + 1));
        i = i + 1;
    }
    assert(bytes@.subrange(0, i as int) =~= bytes@);
    out.push(0);
    Some(out)
}

/// A request to the sound engine, with its arguments laid out as the engine
/// takes them.
#[derive(Debug, Clone, PartialEq, Eq)]
pub enum EngineRequest {
    RenderAudio { allow_sync_render: bool },
    SetOfflineRendering { enable: bool },
    /// The time is a single-precision number of seconds, held as its bits.
    SetOfflineRenderingTime { frame_time_bits: u32 },
    /// The volume is a single-precision number, held as its bits.
    SetGameObjectOutputBusVolume { emitter_id: u64, listener_id: u64, control_value_bits: u32 },
    UnregisterAllGameObj,
    UnregisterGameObj { game_object_id: u64 },
    RegisterGameObj { game_object_id: u64 },
    /// The name is a C string.
    RegisterNamedGameObj { game_object_id: u64, name: Vec<u8> },
    SetDefaultListeners { listener_ids: Vec<u64>, count: u32 },
    AddDefaultListener { listener_id: u64 },
    RemoveDefaultListener { listener_id: u64 },
    SetListeners { emitter_id: u64, listener_ids: Vec<u64>, count: u32 },
    AddListener { emitter_id: u64, listener_id: u64 },
    RemoveListener { emitter_id: u64, listener_id: u64 },
    /// The name is a C string.
    LoadBankByName { name: Vec<u8> },
    LoadBankById { id: u32 },
    ClearBanks,
    /// The name is a C string.
    UnloadBankByName { name: Vec<u8> },
    UnloadBankById { id: u32 },
    /// For one game object, or for all where the id is the invalid one.
    StopAll { game_object_id: u64 },
    SetSwitch { switch_group: u32, switch_state: u32, game_object_id: u64 },
    /// The name is a C string.
    PostEventByName {
        name: Vec<u8>,
        game_object_id: u64,
        flags: u32,
        external_sources: Vec<AkExternalSourceInfo>,
        playing_id: u32,
    },
    PostEventById {
        event_id: u32,
        game_object_id: u64,
        flags: u32,
        external_sources: Vec<AkExternalSourceInfo>,
        playing_id: u32,
    },
}

/// Asks the engine to work through its command queue; to be asked once per
/// frame.
pub fn render_audio(allow_sync_render: bool) -> (r: EngineRequest)
    ensures
        r == (EngineRequest::RenderAudio { allow_sync_render }),
{
    EngineRequest::RenderAudio { allow_sync_render }
}

/// Asks the engine to switch offline rendering on or off.
pub fn set_offline_rendering(enable_offline_rendering: bool) -> (r: EngineRequest)
    ensures
        r == (EngineRequest::SetOfflineRendering { enable: enable_offline_rendering }),
{
    EngineRequest::SetOfflineRendering { enable: enable_offline_rendering }
}

/// Asks the engine to take this much time, in seconds, as having passed at
/// each round of offline rendering. The time is given and kept as the bits
/// of a single-precision number.
pub fn set_offline_rendering_time(frame_time_bits: u32) -> (r: EngineRequest)
    ensures
        r == (EngineRequest::SetOfflineRenderingTime { frame_time_bits }),
{
    EngineRequest::SetOfflineRenderingTime { frame_time_bits }
}

/// Asks the engine to set the volume at which an emitter reaches the output
/// bus of a listener, or of all its listeners where the listener is the
/// invalid game object. The volume is given and kept as the bits of a
/// single-precision number; the engine judges its value.
pub fn set_game_object_output_bus_volume(
    emitter_id: AkGameObjectID,
    listener_id: AkGameObjectID,
    control_value_bits: u32,
) -> (r: EngineRequest)
    ensures
        r == (EngineRequest::SetGameObjectOutputBusVolume {
            emitter_id,
            listener_id,
            control_value_bits,
        }),
{
    EngineRequest::SetGameObjectOutputBusVolume { emitter_id, listener_id, control_value_bits }
}

/// Asks the engine to forget every game object.
pub fn unregister_all_game_obj() -> (r: EngineRequest)
    ensures
        r == EngineRequest::UnregisterAllGameObj,
{
    EngineRequest::UnregisterAllGameObj
}

/// Asks the engine to forget a game object.
pub fn unregister_game_obj(game_object_id: AkGameObjectID) -> (r: EngineRequest)
    ensures
        r == (EngineRequest::UnregisterGameObj { game_object_id }),
{
    EngineRequest::UnregisterGameObj { game_object_id }
}

/// Asks the engine to register a game object.
pub fn register_game_obj(game_object_id: AkGameObjectID) -> (r: EngineRequest)
    ensures
        r == (EngineRequest::RegisterGameObj { game_object_id }),
{
    EngineRequest::RegisterGameObj { game_object_id }
}

/// Asks the engine to register a game object under a name, which serves
/// monitoring only. A name that holds a zero byte cannot be handed to the
/// engine: there is no request then.
pub fn register_named_game_obj(game_object_id: AkGameObjectID, name: &str) -> (r: Option<
    EngineRequest,
>)
    ensures
        match r {
            Some(EngineRequest::RegisterNamedGameObj { game_object_id: id, name: bytes }) => id
                == game_object_id && c_string_of(name.spec_bytes()) == Some(bytes@),
            Some(_) => false,
            None => c_string_of(name.spec_bytes()) is None,
        },
{
    let bytes = c_string(name)?;
    Some(EngineRequest::RegisterNamedGameObj { game_object_id, name: bytes })
}

fn copy_ids(ids: &[u64]) -> (r: Vec<u64>)
    ensures
        r@ == ids@,
{
    let mut out: Vec<u64> = Vec::new();
    let mut i: usize = 0;
    while i < ids.len()
        invariant
            i <= ids@.len(),
            out@ == ids@.subrange(0, i as int),
        decreases ids@.len() - i,
    {
        out.push(ids[i]);
        assert(out@ =~= ids@.subrange(0, i + 1));
        i = i + 1;
    }
    assert(ids@.subrange(0, i as int) =~= ids@);
    out
}

/// Asks the engine to take these listeners as the default ones, in place of
/// those it had. The engine takes the number of listeners as a 32-bit
/// count.
pub fn set_default_listeners(listener_ids: &[AkGameObjectID]) -> (r: EngineRequest)
    requires
        listener_ids@.len() <= u32::MAX,
    ensures
        match r {
            EngineRequest::SetDefaultListeners { listener_ids: ids, count } => ids@
                == listener_ids@ && count == listener_ids@.len(),
            _ => false,
        },
{
    EngineRequest::SetDefaultListeners {
        listener_ids: copy_ids(listener_ids),
        count: listener_ids.len() as u32,
    }
}

/// Asks the engine for one more default listener.
pub fn add_default_listener(listener_id: AkGameObjectID) -> (r: EngineRequest)
    ensures
        r == (EngineRequest::AddDefaultListener { listener_id }),
{
    EngineRequest::AddDefaultListener { listener_id }
}

/// Asks the engine to drop a default listener.
pub fn remove_default_listener(listener_id: AkGameObjectID) -> (r: EngineRequest)
    ensures
        r == (EngineRequest::RemoveDefaultListener { listener_id }),
{
    EngineRequest::RemoveDefaultListener { listener_id }
}

/// Asks the engine to take these listeners as those of an emitter, in place
/// of those it had.
pub fn set_listeners(emitter_id: AkGameObjectID, listener_ids: &[AkGameObjectID]) -> (r:
    EngineRequest)
    requires
        listener_ids@.len() <= u32::MAX,
    ensures
        match r {
            EngineRequest::SetListeners { emitter_id: emitter, listener_ids: ids, count } => emitter
                == emitter_id && ids@ == listener_ids@ && count == listener_ids@.len(),
            _ => false,
        },
{
    EngineRequest::SetListeners {
        emitter_id,
        listener_ids: copy_ids(listener_ids),
        count: listener_ids.len() as u32,
    }
}

/// Asks the engine for one more listener of an emitter.
pub fn add_listener(emitter_id: AkGameObjectID, listener_id: AkGameObjectID) -> (r: EngineRequest)
    ensures
        r == (EngineRequest::AddListener { emitter_id, listener_id }),
{
    EngineRequest::AddListener { emitter_id, listener_id }
}

/// Asks the engine to drop a listener of an emitter.
pub fn remove_listener(emitter_id: AkGameObjectID, listener_id: AkGameObjectID) -> (r:
    EngineRequest)
    ensures
        r == (EngineRequest::RemoveListener { emitter_id, listener_id }),
{
    EngineRequest::RemoveListener { emitter_id, listener_id }
}

/// Asks the engine to load a bank by its name. A name that holds a zero
/// byte cannot be handed to the engine: there is no request then.
pub fn load_bank_by_name(name: &str) -> (r: Option<EngineRequest>)
    ensures
        match r {
            Some(EngineRequest::LoadBankByName { name: bytes }) => c_string_of(name.spec_bytes())
                == Some(bytes@),
            Some(_) => false,
            None => c_string_of(name.spec_bytes()) is None,
        },
{
    let bytes = c_string(name)?;
    Some(EngineRequest::LoadBankByName { name: bytes })
}

/// Asks the engine to load a bank by its id.
pub fn load_bank_by_id(id: AkBankID) -> (r: EngineRequest)
    ensures
        r == (EngineRequest::LoadBankById { id }),
{
    EngineRequest::LoadBankById { id }
}

/// Asks the engine to unload a bank by its name. A name that holds a zero
/// byte cannot be handed to the engine: there is no request then.
pub fn unload_bank_by_name(name: &str) -> (r: Option<EngineRequest>)
    ensures
        match r {
            Some(EngineRequest::UnloadBankByName { name: bytes }) => c_string_of(name.spec_bytes())
                == Some(bytes@),
            Some(_) => false,
            None => c_string_of(name.spec_bytes()) is None,
        },
{
    let bytes = c_string(name)?;
    Some(EngineRequest::UnloadBankByName { name: bytes })
}

/// Asks the engine to unload a bank by its id.
pub fn unload_bank_by_id(id: AkBankID) -> (r: EngineRequest)
    ensures
        r == (EngineRequest::UnloadBankById { id }),
{
    EngineRequest::UnloadBankById { id }
}

/// Asks the engine to unload every bank.
pub fn clear_banks() -> (r: EngineRequest)
    ensures
        r == EngineRequest::ClearBanks,
{
    EngineRequest::ClearBanks
}

/// Asks the engine to stop what plays on a game object, or everything
/// where no game object is given.
pub fn stop_all(game_object_id: Option<AkGameObjectID>) -> (r: EngineRequest)
    ensures
        r == (EngineRequest::StopAll {
            game_object_id: match game_object_id {
                Some(id) => id,
                None => AK_INVALID_GAME_OBJECT,
            },
        }),
{
    match game_object_id {
        Some(id) => EngineRequest::StopAll { game_object_id: id },
        None => EngineRequest::StopAll { game_object_id: AK_INVALID_GAME_OBJECT },
    }
}

/// Asks the engine to set a switch group of a game object to a state.
pub fn set_switch(switch_group: u32, switch_state: u32, game_object_id: AkGameObjectID) -> (r:
    EngineRequest)
    ensures
        r == (EngineRequest::SetSwitch { switch_group, switch_state, game_object_id }),
{
    EngineRequest::SetSwitch { switch_group, switch_state, game_object_id }
}

/// The format of a piece of audio.
#[derive(Debug, Clone, Copy, PartialEq, Eq, Structural)]
pub enum AkCodecId {
    Bank,
    PCM,
    ADPCM,
    XMA,
    Vorbis,
}

impl AkCodecId {
    /// The number by which the engine knows the format.
    pub open spec fn code(self) -> u32 {
        match self {
            AkCodecId::Bank => 0,
            AkCodecId::PCM => 1,
            AkCodecId::ADPCM => 2,
            AkCodecId::XMA => 3,
            AkCodecId::Vorbis => 4,
        }
    }

    /// The number by which the engine knows the format.
    pub fn to_code(self) -> (r: u32)
        ensures
            r == self.code(),
    {
        match self {
            AkCodecId::Bank => 0,
            AkCodecId::PCM => 1,
            AkCodecId::ADPCM => 2,
            AkCodecId::XMA => 3,
            AkCodecId::Vorbis => 4,
        }
    }
}

/// Where the audio of an external source comes from.
#[derive(Debug, Clone, Copy, PartialEq, Eq, Structural)]
pub struct AkExternalSourceInfo {
    pub external_src_cookie: u32,
    pub codec: AkCodecId,
    pub memory_size: u32,
    pub file_id: u32,
}

impl AkExternalSourceInfo {
    /// A source that lies in memory, `size` bytes long.
    pub fn from_ptr(size: u32, external_src_cookie: u32, codec: AkCodecId) -> (r: Self)
        ensures
            r == (AkExternalSourceInfo {
                external_src_cookie,
                codec,
                memory_size: size,
                file_id: 0,
            }),
    {
        AkExternalSourceInfo { memory_size: size, external_src_cookie, codec, file_id: 0 }
    }

    /// A source that is named by a file path. The description holds no
    /// path: the engine finds the file by the cookie.
    pub fn from_path(file_path: &str, external_src_cookie: u32, codec: AkCodecId) -> (r: Self)
        ensures
            r == (AkExternalSourceInfo { external_src_cookie, codec, memory_size: 0, file_id: 0 }),
    {
        AkExternalSourceInfo { external_src_cookie, codec, memory_size: 0, file_id: 0 }
    }

    /// A source that is named by a file id.
    pub fn from_id(id: AkFileID, external_src_cookie: u32, codec: AkCodecId) -> (r: Self)
        ensures
            r == (AkExternalSourceInfo { external_src_cookie, codec, memory_size: 0, file_id: id }),
    {
        AkExternalSourceInfo { file_id: id, external_src_cookie, codec, memory_size: 0 }
    }
}

/// An event, by name or by id.
#[derive(Debug, Clone, Copy, PartialEq, Eq)]
pub enum AkID<'a> {
    Name(&'a str),
    ID(u32),
}

/// A set of callback kinds, one bit each.
#[derive(Debug, Clone, Copy, PartialEq, Eq, Structural)]
pub struct AkCallbackType(pub u32);

/// An event that is about to be posted to the engine.
#[derive(Debug)]
pub struct PostEvent<'a> {
    game_obj_id: u64,
    event_id: AkID<'a>,
    flags: AkCallbackType,
    external_sources: Vec<AkExternalSourceInfo>,
    playing_id: u32,
}

impl<'a> PostEvent<'a> {
    pub closed spec fn spec_game_obj_id(&self) -> u64 {
        self.game_obj_id
    }

    pub closed spec fn spec_event_id(&self) -> AkID<'a> {
        self.event_id
    }

    pub closed spec fn spec_flags(&self) -> u32 {
        self.flags.0
    }

    pub closed spec fn spec_external_sources(&self) -> Seq<AkExternalSourceInfo> {
        self.external_sources@
    }

    pub closed spec fn spec_playing_id(&self) -> u32 {
        self.playing_id
    }

    /// Whether two events differ in nothing but their flags and their
    /// target playing id.
    pub open spec fn same_event(&self, other: &Self) -> bool {
        &&& self.spec_game_obj_id() == other.spec_game_obj_id()
        &&& self.spec_event_id() == other.spec_event_id()
        &&& self.spec_external_sources() == other.spec_external_sources()
    }

    /// An event to play on a game object, without flags and without a
    /// target playing id.
    pub fn new(
        game_obj_id: AkGameObjectID,
        event_id: AkID<'a>,
        external_sources: Vec<AkExternalSourceInfo>,
    ) -> (r: PostEvent<'a>)
        ensures
            r.spec_game_obj_id() == game_obj_id,
            r.spec_event_id() == event_id,
            r.spec_flags() == 0,
            r.spec_external_sources() == external_sources@,
            r.spec_playing_id() == AK_INVALID_PLAYING_ID,
    {
        PostEvent {
            game_obj_id,
            event_id,
            flags: AkCallbackType(0),
            external_sources,
            playing_id: AK_INVALID_PLAYING_ID,
        }
    }

    /// Adds flags to those that are set.
    pub fn add_flags(&mut self, flags: AkCallbackType) -> (r: &mut Self)
        ensures
            r.spec_flags() == old(self).spec_flags() | flags.0,
            r.spec_playing_id() == old(self).spec_playing_id(),
            r.same_event(old(self)),
            *final(self) == *final(r),
    {
        self.flags = AkCallbackType(self.flags.0 | flags.0);
        self
    }

    /// Sets the flags, in place of those that were set.
    pub fn flags(&mut self, flags: AkCallbackType) -> (r: &mut Self)
        ensures
            r.spec_flags() == flags.0,
            r.spec_playing_id() == old(self).spec_playing_id(),
            r.same_event(old(self)),
            *final(self) == *final(r),
    {
        self.flags = flags;
        self
    }

    /// Sets the playing id that the event's actions are to target.
    pub fn playing_id(&mut self, id: AkPlayingID) -> (r: &mut Self)
        ensures
            r.spec_playing_id() == id,
            r.spec_flags() == old(self).spec_flags(),
            r.same_event(old(self)),
            *final(self) == *final(r),
    {
        self.playing_id = id;
        self
    }

    /// The request that posts the event. An event that is named by a name
    /// with a zero byte in it cannot be handed to the engine: there is no
    /// request then.
    pub fn post(&self) -> (r: Option<EngineRequest>)
        ensures
            self.is_request(r, self.spec_flags()),
    {
        self.request(self.flags.0)
    }

    /// The request that posts the event for a caller that wants to be told
    /// of what happens to it: the end of the event is among its flags,
    /// whether it was set or not.
    pub fn post_with_callback(&self) -> (r: Option<EngineRequest>)
        ensures
            self.is_request(r, self.spec_flags() | AK_END_OF_EVENT),
    {
        self.request(self.flags.0 | AK_END_OF_EVENT)
    }

    /// Whether `r` is the request that posts this event with `with_flags`
    /// as its flags.
    pub open spec fn is_request(&self, r: Option<EngineRequest>, with_flags: u32) -> bool {
        match self.spec_event_id() {
            AkID::ID(id) => match r {
                Some(
                    EngineRequest::PostEventById {
                        event_id,
                        game_object_id,
                        flags,
                        external_sources,
                        playing_id,
                    },
                ) => {
                    &&& event_id == id
                    &&& game_object_id == self.spec_game_obj_id()
                    &&& flags == with_flags
                    &&& external_sources@ == self.spec_external_sources()
                    &&& playing_id == self.spec_playing_id()
                },
                _ => false,
            },
            AkID::Name(text) => match r {
                Some(
                    EngineRequest::PostEventByName {
                        name,
                        game_object_id,
                        flags,
                        external_sources,
                        playing_id,
                    },
                ) => {
                    &&& c_string_of(text.spec_bytes()) == Some(name@)
                    &&& game_object_id == self.spec_game_obj_id()
                    &&& flags == with_flags
                    &&& external_sources@ == self.spec_external_sources()
                    &&& playing_id == self.spec_playing_id()
                },
                Some(_) => false,
                None => c_string_of(text.spec_bytes()) is None,
            },
        }
    }

    fn request(&self, with_flags: u32) -> (r: Option<EngineRequest>)
        ensures
            self.is_request(r, with_flags),
    {
        let mut sources: Vec<AkExternalSourceInfo> = Vec::new();
        let mut i: usize = 0;
        while i < self.external_sources.len()
            invariant
                i <= self.external_sources@.len(),
                sources@ == self.external_sources@.subrange(0, i as int),
            decreases self.external_sources@.len() - i,
        {
            sources.push(self.external_sources[i]);
            assert(sources@ =~= self.external_sources@.subrange(0, i + 1));
            i = i + 1;
        }
        assert(self.external_sources@.subrange(0, i as int) =~= self.external_sources@);
        match self.event_id {
            AkID::Name(text) => {
                let name = c_string(text)?;
                Some(
                    EngineRequest::PostEventByName {
                        name,
                        game_object_id: self.game_obj_id,
                        flags: with_flags,
                        external_sources: sources,
                        playing_id: self.playing_id,
                    },
                )
            },
            AkID::ID(id) => Some(
                EngineRequest::PostEventById {
                    event_id: id,
                    game_object_id: self.game_obj_id,
                    flags: with_flags,
                    external_sources: sources,
                    playing_id: self.playing_id,
                },
            ),
        }
    }
}

} // verus!
