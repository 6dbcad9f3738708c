use vstd::prelude::*;

verus! {

/// Command codes of the envelope protocol. The numeric value of each code is
/// part of the wire contract; see [`Command::code`].
#[derive(Clone, Copy, Debug, PartialEq, Eq, Structural)]
pub enum Command {
    PluginState,
    Initiate,
    Reset,
    Ping,
    Pong,
    InstanceState,
    SoundState,
    SelfStateUpdate,
    PlayerStateUpdate,
    BulkUpdate,
    RemovePlayer,
    TalkState,
    PlaySound,
    StopSound,
    PhoneCommunicationUpdate,
    StopPhoneCommunication,
    RadioCommunicationUpdate,
    StopRadioCommunication,
    RadioTowerUpdate,
    RadioTrafficState,
    AddRadioChannelMember,
    UpdateRadioChannelMembers,
    RemoveRadioChannelMember,
    MegaphoneCommunicationUpdate,
    StopMegaphoneCommunication,
}

/// The wire value of a command code.
pub open spec fn command_code(c: Command) -> u32 {
    match c {
        Command::PluginState => 0,
        Command::Initiate => 1,
        Command::Reset => 2,
        Command::Ping => 3,
        Command::Pong => 4,
        Command::InstanceState => 5,
        Command::SoundState => 6,
        Command::SelfStateUpdate => 7,
        Command::PlayerStateUpdate => 8,
        Command::BulkUpdate => 9,
        Command::RemovePlayer => 10,
        Command::TalkState => 11,
        Command::PlaySound => 18,
        Command::StopSound => 19,
        Command::PhoneCommunicationUpdate => 20,
        Command::StopPhoneCommunication => 21,
        Command::RadioCommunicationUpdate => 30,
        Command::StopRadioCommunication => 31,
        Command::RadioTowerUpdate => 32,
        Command::RadioTrafficState => 33,
        Command::AddRadioChannelMember => 37,
        Command::UpdateRadioChannelMembers => 38,
        Command::RemoveRadioChannelMember => 39,
        Command::MegaphoneCommunicationUpdate => 40,
        Command::StopMegaphoneCommunication => 41,
    }
}

/// The command whose wire value is `n`, if any.
pub open spec fn command_of(n: u32) -> Option<Command> {
    match n {
        0 => Some(Command::PluginState),
        1 => Some(Command::Initiate),
        2 => Some(Command::Reset),
        3 => Some(Command::Ping),
        4 => Some(Command::Pong),
        5 => Some(Command::InstanceState),
        6 => Some(Command::SoundState),
        7 => Some(Command::SelfStateUpdate),
        8 => Some(Command::PlayerStateUpdate),
        9 => Some(Command::BulkUpdate),
        10 => Some(Command::RemovePlayer),
        11 => Some(Command::TalkState),
        18 => Some(Command::PlaySound),
        19 => Some(Command::StopSound),
        20 => Some(Command::PhoneCommunicationUpdate),
        21 => Some(Command::StopPhoneCommunication),
        30 => Some(Command::RadioCommunicationUpdate),
        31 => Some(Command::StopRadioCommunication),
        32 => Some(Command::RadioTowerUpdate),
        33 => Some(Command::RadioTrafficState),
        37 => Some(Command::AddRadioChannelMember),
        38 => Some(Command::UpdateRadioChannelMembers),
        39 => Some(Command::RemoveRadioChannelMember),
        40 => Some(Command::MegaphoneCommunicationUpdate),
        41 => Some(Command::StopMegaphoneCommunication),
        _ => None,
    }
}

/// Whether `n` is the wire value of some command.
pub open spec fn is_command_code(n: u32) -> bool {
    command_of(n) is Some
}

/// Reading back the wire value of a command gives that command.
pub proof fn lemma_command_of_code(c: Command)
    ensures
        command_of(command_code(c)) == Some(c),
{
}

/// The command read from a wire value has that wire value.
pub proof fn lemma_code_of_command(n: u32)
    requires
        is_command_code(n),
    ensures
        command_code(command_of(n)->Some_0) == n,
{
}

impl Command {
    /// The wire value of this command.
    pub fn code(self) -> (r: u32)
        ensures
            r == command_code(self),
    {
        match self {
            Command::PluginState => 0,
            Command::Initiate => 1,
            Command::Reset => 2,
            Command::Ping => 3,
            Command::Pong => 4,
            Command::InstanceState => 5,
            Command::SoundState => 6,
            Command::SelfStateUpdate => 7,
            Command::PlayerStateUpdate => 8,
            Command::BulkUpdate => 9,
            Command::RemovePlayer => 10,
            Command::TalkState => 11,
            Command::PlaySound => 18,
            Command::StopSound => 19,
            Command::PhoneCommunicationUpdate => 20,
            Command::StopPhoneCommunication => 21,
            Command::RadioCommunicationUpdate => 30,
            Command::StopRadioCommunication => 31,
            Command::RadioTowerUpdate => 32,
            Command::RadioTrafficState => 33,
            Command::AddRadioChannelMember => 37,
            Command::UpdateRadioChannelMembers => 38,
            Command::RemoveRadioChannelMember => 39,
            Command::MegaphoneCommunicationUpdate => 40,
            Command::StopMegaphoneCommunication => 41,
        }
    }

    /// The command whose wire value is `n`; `None` for a value that names no
    /// command.
    pub fn from_code(n: u32) -> (r: Option<Command>)
        ensures
            r == command_of(n),
    {
        let r = match n {
            0 => Some(Command::PluginState),
            1 => Some(Command::Initiate),
            2 => Some(Command::Reset),
            3 => Some(Command::Ping),
            4 => Some(Command::Pong),
            5 => Some(Command::InstanceState),
            6 => Some(Command::SoundState),
            7 => Some(Command::SelfStateUpdate),
            8 => Some(Command::PlayerStateUpdate),
            9 => Some(Command::BulkUpdate),
            10 => Some(Command::RemovePlayer),
            11 => Some(Command::TalkState),
            18 => Some(Command::PlaySound),
            19 => Some(Command::StopSound),
            20 => Some(Command::PhoneCommunicationUpdate),
            21 => Some(Command::StopPhoneCommunication),
            30 => Some(Command::RadioCommunicationUpdate),
            31 => Some(Command::StopRadioCommunication),
            32 => Some(Command::RadioTowerUpdate),
            33 => Some(Command::RadioTrafficState),
            37 => Some(Command::AddRadioChannelMember),
            38 => Some(Command::UpdateRadioChannelMembers),
            39 => Some(Command::RemoveRadioChannelMember),
            40 => Some(Command::MegaphoneCommunicationUpdate),
            41 => Some(Command::StopMegaphoneCommunication),
            _ => None,
        };
        r
    }
}


/// An IEEE-754 single-precision number, held as its bit pattern. The protocol
/// carries positions, ranges and volumes as such numbers; this library only
/// stores and forwards them, so it keeps the exact bits.
#[derive(Clone, Copy, Debug, PartialEq, Eq, Structural)]
pub struct Float32 {
    pub bits: u32,
}

/// Bit pattern of 1800.0.
pub const BITS_1800: u32 = 0x44e1_0000;

/// Bit pattern of 3000.0.
pub const BITS_3000: u32 = 0x453b_8000;

/// Bit pattern of 8000.0.
pub const BITS_8000: u32 = 0x45fa_0000;

/// Bit pattern of 0.3 (rounded to single precision).
pub const BITS_0_3: u32 = 0x3e99_999a;

/// A point or direction in game space.
#[derive(Clone, Copy, Debug, PartialEq, Eq, Structural)]
pub struct Vector3 {
    pub x: Float32,
    pub y: Float32,
    pub z: Float32,
}

/// Connection greeting: plugin version and the number of active instances.
#[derive(Clone, Debug, PartialEq)]
pub struct PluginStateParameter {
    pub version: String,
    pub active_instances: u32,
}

/// Initiation parameters of a game-server instance.
#[derive(Clone, Debug, PartialEq)]
pub struct InitiateParameter {
    pub server_unique_identifier: String,
    pub name: String,
    pub channel_id: u64,
    pub channel_password: String,
    pub sound_pack: String,
    pub swiss_channel_ids: Vec<u64>,
    pub send_talk_states: bool,
    pub send_radio_traffic_states: bool,
    pub ultra_short_range_distance: Float32,
    pub short_range_distance: Float32,
    pub long_range_distance: Float32,
}

/// Default of `send_talk_states` when the wire omits it.
pub fn default_talk_state() -> (r: bool)
    ensures
        r == true,
{
    true
}

/// Default of `send_radio_traffic_states` when the wire omits it.
pub fn default_radio_traffic_state() -> (r: bool)
    ensures
        r == false,
{
    false
}

/// Default of `ultra_short_range_distance` (1800.0) when the wire omits it.
pub fn default_ultra_short_range_distance() -> (r: Float32)
    ensures
        r.bits == BITS_1800,
{
    Float32 { bits: BITS_1800 }
}

/// Default of `short_range_distance` (3000.0) when the wire omits it.
pub fn default_short_range_distance() -> (r: Float32)
    ensures
        r.bits == BITS_3000,
{
    Float32 { bits: BITS_3000 }
}

/// Default of `long_range_distance` (8000.0) when the wire omits it.
pub fn default_long_range_distance() -> (r: Float32)
    ensures
        r.bits == BITS_8000,
{
    Float32 { bits: BITS_8000 }
}

/// State of a game instance as reported to the client.
#[derive(Clone, Copy, Debug, PartialEq, Eq, Structural)]
pub enum GameInstanceState {
    NotConnected,
    Connected,
    Ingame,
    InSwissChannel,
}

impl GameInstanceState {
    /// The wire value of this state.
    pub fn code(self) -> (r: u8)
        ensures
            r == (match self {
                GameInstanceState::NotConnected => 0u8,
                GameInstanceState::Connected => 1u8,
                GameInstanceState::Ingame => 2u8,
                GameInstanceState::InSwissChannel => 3u8,
            }),
    {
        match self {
            GameInstanceState::NotConnected => 0,
            GameInstanceState::Connected => 1,
            GameInstanceState::Ingame => 2,
            GameInstanceState::InSwissChannel => 3,
        }
    }

    /// The state whose wire value is `n`, if any.
    pub fn from_code(n: u8) -> (r: Option<GameInstanceState>)
        ensures
            match r {
                Some(s) => s.code_spec() == n,
                None => n > 3,
            },
    {
        match n {
            0 => Some(GameInstanceState::NotConnected),
            1 => Some(GameInstanceState::Connected),
            2 => Some(GameInstanceState::Ingame),
            3 => Some(GameInstanceState::InSwissChannel),
            _ => None,
        }
    }

    /// The wire value, as a spec function.
    pub open spec fn code_spec(self) -> u8 {
        match self {
            GameInstanceState::NotConnected => 0u8,
            GameInstanceState::Connected => 1u8,
            GameInstanceState::Ingame => 2u8,
            GameInstanceState::InSwissChannel => 3u8,
        }
    }
}

/// Radio hardware classes.
#[derive(Clone, Copy, Debug, PartialEq, Eq, Structural)]
pub enum RadioType {
    NoRadio,
    ShortRange,
    LongRange,
    Distributed,
    UltraShortRange,
}

impl RadioType {
    /// The wire value, as a spec function.
    pub open spec fn code_spec(self) -> u8 {
        match self {
            RadioType::NoRadio => 1u8,
            RadioType::ShortRange => 2u8,
            RadioType::LongRange => 4u8,
            RadioType::Distributed => 8u8,
            RadioType::UltraShortRange => 16u8,
        }
    }

    /// The wire value of this radio type.
    pub fn code(self) -> (r: u8)
        ensures
            r == self.code_spec(),
    {
        match self {
            RadioType::NoRadio => 1,
            RadioType::ShortRange => 2,
            RadioType::LongRange => 4,
            RadioType::Distributed => 8,
            RadioType::UltraShortRange => 16,
        }
    }

    /// The radio type whose wire value is `n`, if any.
    pub fn from_code(n: u8) -> (r: Option<RadioType>)
        ensures
            match r {
                Some(t) => t.code_spec() == n,
                None => n != 1 && n != 2 && n != 4 && n != 8 && n != 16,
            },
    {
        match n {
            1 => Some(RadioType::NoRadio),
            2 => Some(RadioType::ShortRange),
            4 => Some(RadioType::LongRange),
            8 => Some(RadioType::Distributed),
            16 => Some(RadioType::UltraShortRange),
            _ => None,
        }
    }
}

/// Readiness of an instance as reported to the client.
#[derive(Clone, Copy, Debug, PartialEq, Eq, Structural)]
pub struct InstanceStateParameter {
    pub is_connected_to_server: bool,
    pub is_ready: bool,
    pub state: GameInstanceState,
}

/// Microphone and speaker switches of the local user.
#[derive(Clone, Copy, Debug, PartialEq, Eq, Structural)]
pub struct SoundStateParameter {
    pub is_microphone_muted: bool,
    pub is_microphone_enabled: bool,
    pub is_sound_muted: bool,
    pub is_sound_enabled: bool,
}

/// Echo applied to the local player's voice.
#[derive(Clone, Copy, Debug, PartialEq, Eq, Structural)]
pub struct EchoEffect {
    pub duration: i32,
    pub rolloff: Float32,
    pub delay: i32,
}

/// The local player's own state.
#[derive(Clone, Copy, Debug, PartialEq, Eq)]
pub struct SelfStateUpdateParameter {
    pub position: Vector3,
    pub rotation: Float32,
    pub voice_range: Float32,
    pub is_alive: bool,
    pub echo: Option<EchoEffect>,
}

/// Muffling applied to a remote player's voice.
#[derive(Clone, Copy, Debug, PartialEq, Eq, Structural)]
pub struct MuffleEffect {
    pub intensity: i32,
}

/// State of one remote player; the name identifies the player in a roster.
#[derive(Clone, Debug, PartialEq)]
pub struct PlayerStateUpdateParameter {
    pub name: String,
    pub position: Vector3,
    pub rotation: Float32,
    pub voice_range: Float32,
    pub is_alive: bool,
    pub volume_override: Option<Float32>,
    pub distance_culled: bool,
    pub muffle: Option<MuffleEffect>,
}

/// A full snapshot: the self state and the whole roster.
#[derive(Clone, Debug, PartialEq)]
pub struct BulkUpdateParameter {
    pub player_states: Vec<PlayerStateUpdateParameter>,
    pub self_state: SelfStateUpdateParameter,
}

/// Removal of one player from a roster, by name.
#[derive(Clone, Debug, PartialEq)]
pub struct RemovePlayerParameter {
    pub name: String,
}

/// Whether a player has started or stopped talking.
#[derive(Clone, Debug, PartialEq)]
pub struct TalkStateParameter {
    pub name: String,
    pub is_talking: bool,
}

/// Request to play a sound file under a handle.
#[derive(Clone, Debug, PartialEq)]
pub struct PlaySoundParameter {
    pub file_name: String,
    pub is_loop: bool,
    pub handle: String,
}

/// Request to stop the sound playing under a handle.
#[derive(Clone, Debug, PartialEq)]
pub struct StopSoundParameter {
    pub handle: String,
}

/// A phone call's current parameters.
#[derive(Clone, Debug, PartialEq)]
pub struct PhoneCommunicationUpdateParameter {
    pub name: String,
    pub signal_strength: i32,
    pub volume: Option<Float32>,
    pub direct: bool,
    pub relayed_by: Vec<String>,
}

/// End of a phone call.
#[derive(Clone, Debug, PartialEq)]
pub struct StopPhoneCommunicationParameter {
    pub name: String,
}

/// A radio transmission's current parameters.
#[derive(Clone, Debug, PartialEq)]
pub struct RadioCommunicationUpdateParameter {
    pub name: String,
    pub sender_radio_type: RadioType,
    pub own_radio_type: RadioType,
    pub play_mic_click: bool,
    pub volume: Option<Float32>,
    pub direct: bool,
    pub secondary: bool,
    pub relayed_by: Vec<String>,
}

/// End of a radio transmission.
#[derive(Clone, Debug, PartialEq)]
pub struct StopRadioCommunicationParameter {
    pub name: String,
    pub play_mic_click: bool,
}

/// A radio tower: its position and range.
#[derive(Clone, Copy, Debug, PartialEq, Eq, Structural)]
pub struct Tower {
    pub x: Float32,
    pub y: Float32,
    pub z: Float32,
    pub range: Float32,
}

/// The current set of radio towers.
#[derive(Clone, Debug, PartialEq)]
pub struct RadioTowerUpdateParameter {
    pub towers: Vec<Tower>,
}

/// Radio traffic heard by the local player.
#[derive(Clone, Debug, PartialEq)]
pub struct RadioTrafficStateParameter {
    pub name: String,
    pub is_sending: bool,
    pub is_primary_channel: bool,
    pub active_relay: String,
}

/// A player joins a radio channel.
#[derive(Clone, Debug, PartialEq)]
pub struct AddRadioChannelMemberParameter {
    pub player_name: String,
    pub is_primary_channel: bool,
}

/// The full member list of a radio channel.
#[derive(Clone, Debug, PartialEq)]
pub struct UpdateRadioChannelMembersParameter {
    pub player_names: Vec<String>,
    pub is_primary_channel: bool,
}

/// A player leaves a radio channel.
#[derive(Clone, Debug, PartialEq)]
pub struct RemoveRadioChannelMemberParameter {
    pub player_name: String,
    pub is_primary_channel: bool,
}

/// A megaphone transmission's current parameters.
#[derive(Clone, Debug, PartialEq)]
pub struct MegaphoneCommunicationUpdateParameter {
    pub name: String,
    pub range: Float32,
    pub volume: Option<Float32>,
}

/// End of a megaphone transmission.
#[derive(Clone, Debug, PartialEq)]
pub struct StopMegaphoneCommunicationParameter {
    pub name: String,
}

/// Default of `is_alive` when the wire omits it.
pub fn default_is_alive() -> (r: bool)
    ensures
        r == true,
{
    true
}

/// Default of an echo's `duration` when the wire omits it.
pub fn default_duration() -> (r: i32)
    ensures
        r == 100,
{
    100
}

/// Default of an echo's `rolloff` (0.3) when the wire omits it.
pub fn default_rolloff() -> (r: Float32)
    ensures
        r.bits == BITS_0_3,
{
    Float32 { bits: BITS_0_3 }
}

/// Default of an echo's `delay` when the wire omits it.
pub fn default_delay() -> (r: i32)
    ensures
        r == 25,
{
    25
}

/// Default of a muffle's `intensity` when the wire omits it.
pub fn default_intensity() -> (r: i32)
    ensures
        r == 10,
{
    10
}

/// Default of a tower's `range` (8000.0) when the wire omits it.
pub fn default_range() -> (r: Float32)
    ensures
        r.bits == BITS_8000,
{
    Float32 { bits: BITS_8000 }
}

/// Error codes of the protocol.
#[derive(Clone, Copy, Debug, PartialEq, Eq, Structural)]
pub enum Error {
    OK,
    InvalidJson,
    NotConnectedToServer,
    AlreadyInGame,
    ChannelNotAvailable,
    NameNotAvailable,
    InvalidValue,
    ServerBlacklisted,
    ServerUnderlicensed,
}

impl Error {
    /// The wire value, as a spec function.
    pub open spec fn code_spec(self) -> u8 {
        match self {
            Error::OK => 0u8,
            Error::InvalidJson => 1u8,
            Error::NotConnectedToServer => 2u8,
            Error::AlreadyInGame => 3u8,
            Error::ChannelNotAvailable => 4u8,
            Error::NameNotAvailable => 5u8,
            Error::InvalidValue => 6u8,
            Error::ServerBlacklisted => 100u8,
            Error::ServerUnderlicensed => 101u8,
        }
    }

    /// The wire value of this error code.
    pub fn code(self) -> (r: u8)
        ensures
            r == self.code_spec(),
    {
        match self {
            Error::OK => 0,
            Error::InvalidJson => 1,
            Error::NotConnectedToServer => 2,
            Error::AlreadyInGame => 3,
            Error::ChannelNotAvailable => 4,
            Error::NameNotAvailable => 5,
            Error::InvalidValue => 6,
            Error::ServerBlacklisted => 100,
            Error::ServerUnderlicensed => 101,
        }
    }

    /// The error code whose wire value is `n`, if any.
    pub fn from_code(n: u8) -> (r: Option<Error>)
        ensures
            match r {
                Some(e) => e.code_spec() == n,
                None => n > 6 && n != 100 && n != 101,
            },
    {
        match n {
            0 => Some(Error::OK),
            1 => Some(Error::InvalidJson),
            2 => Some(Error::NotConnectedToServer),
            3 => Some(Error::AlreadyInGame),
            4 => Some(Error::ChannelNotAvailable),
            5 => Some(Error::NameNotAvailable),
            6 => Some(Error::InvalidValue),
            100 => Some(Error::ServerBlacklisted),
            101 => Some(Error::ServerUnderlicensed),
            _ => None,
        }
    }
}

/// The payload of an envelope: one record per payload-carrying command.
#[derive(Clone, Debug, PartialEq)]
pub enum ParamMessageType {
    PluginStateParameter(PluginStateParameter),
    InitiateParameter(InitiateParameter),
    InstanceStateParameter(InstanceStateParameter),
    SoundStateParameter(SoundStateParameter),
    SelfStateUpdateParameter(SelfStateUpdateParameter),
    PlayerStateUpdateParameter(PlayerStateUpdateParameter),
    BulkUpdateParameter(BulkUpdateParameter),
    RemovePlayerParameter(RemovePlayerParameter),
    TalkStateParameter(TalkStateParameter),
    PlaySoundParameter(PlaySoundParameter),
    StopSoundParameter(StopSoundParameter),
    PhoneCommunicationUpdateParameter(PhoneCommunicationUpdateParameter),
    StopPhoneCommunicationParameter(StopPhoneCommunicationParameter),
    RadioCommunicationUpdateParameter(RadioCommunicationUpdateParameter),
    StopRadioCommunicationParameter(StopRadioCommunicationParameter),
    RadioTowerUpdateParameter(RadioTowerUpdateParameter),
    RadioTrafficStateParameter(RadioTrafficStateParameter),
    AddRadioChannelMemberParameter(AddRadioChannelMemberParameter),
    UpdateRadioChannelMembersParameter(UpdateRadioChannelMembersParameter),
    RemoveRadioChannelMemberParameter(RemoveRadioChannelMemberParameter),
    MegaphoneCommunicationUpdateParameter(MegaphoneCommunicationUpdateParameter),
    StopMegaphoneCommunicationParameter(StopMegaphoneCommunicationParameter),
}

/// The shape of a payload, without its contents.
#[derive(Clone, Copy, Debug, PartialEq, Eq, Structural)]
pub enum PayloadKind {
    PluginState,
    Initiate,
    InstanceState,
    SoundState,
    SelfStateUpdate,
    PlayerStateUpdate,
    BulkUpdate,
    RemovePlayer,
    TalkState,
    PlaySound,
    StopSound,
    PhoneCommunicationUpdate,
    StopPhoneCommunication,
    RadioCommunicationUpdate,
    StopRadioCommunication,
    RadioTowerUpdate,
    RadioTrafficState,
    AddRadioChannelMember,
    UpdateRadioChannelMembers,
    RemoveRadioChannelMember,
    MegaphoneCommunicationUpdate,
    StopMegaphoneCommunication,
}

/// The shape of a payload.
pub open spec fn kind_of(p: ParamMessageType) -> PayloadKind {
    match p {
        ParamMessageType::PluginStateParameter(_) => PayloadKind::PluginState,
        ParamMessageType::InitiateParameter(_) => PayloadKind::Initiate,
        ParamMessageType::InstanceStateParameter(_) => PayloadKind::InstanceState,
        ParamMessageType::SoundStateParameter(_) => PayloadKind::SoundState,
        ParamMessageType::SelfStateUpdateParameter(_) => PayloadKind::SelfStateUpdate,
        ParamMessageType::PlayerStateUpdateParameter(_) => PayloadKind::PlayerStateUpdate,
        ParamMessageType::BulkUpdateParameter(_) => PayloadKind::BulkUpdate,
        ParamMessageType::RemovePlayerParameter(_) => PayloadKind::RemovePlayer,
        ParamMessageType::TalkStateParameter(_) => PayloadKind::TalkState,
        ParamMessageType::PlaySoundParameter(_) => PayloadKind::PlaySound,
        ParamMessageType::StopSoundParameter(_) => PayloadKind::StopSound,
        ParamMessageType::PhoneCommunicationUpdateParameter(_) => PayloadKind::PhoneCommunicationUpdate,
        ParamMessageType::StopPhoneCommunicationParameter(_) => PayloadKind::StopPhoneCommunication,
        ParamMessageType::RadioCommunicationUpdateParameter(_) => PayloadKind::RadioCommunicationUpdate,
        ParamMessageType::StopRadioCommunicationParameter(_) => PayloadKind::StopRadioCommunication,
        ParamMessageType::RadioTowerUpdateParameter(_) => PayloadKind::RadioTowerUpdate,
        ParamMessageType::RadioTrafficStateParameter(_) => PayloadKind::RadioTrafficState,
        ParamMessageType::AddRadioChannelMemberParameter(_) => PayloadKind::AddRadioChannelMember,
        ParamMessageType::UpdateRadioChannelMembersParameter(_) => PayloadKind::UpdateRadioChannelMembers,
        ParamMessageType::RemoveRadioChannelMemberParameter(_) => PayloadKind::RemoveRadioChannelMember,
        ParamMessageType::MegaphoneCommunicationUpdateParameter(_) => PayloadKind::MegaphoneCommunicationUpdate,
        ParamMessageType::StopMegaphoneCommunicationParameter(_) => PayloadKind::StopMegaphoneCommunication,
    }
}

impl ParamMessageType {
    /// The shape of this payload.
    pub fn kind(&self) -> (r: PayloadKind)
        ensures
            r == kind_of(*self),
    {
        match self {
            ParamMessageType::PluginStateParameter(_) => PayloadKind::PluginState,
            ParamMessageType::InitiateParameter(_) => PayloadKind::Initiate,
            ParamMessageType::InstanceStateParameter(_) => PayloadKind::InstanceState,
            ParamMessageType::SoundStateParameter(_) => PayloadKind::SoundState,
            ParamMessageType::SelfStateUpdateParameter(_) => PayloadKind::SelfStateUpdate,
            ParamMessageType::PlayerStateUpdateParameter(_) => PayloadKind::PlayerStateUpdate,
            ParamMessageType::BulkUpdateParameter(_) => PayloadKind::BulkUpdate,
            ParamMessageType::RemovePlayerParameter(_) => PayloadKind::RemovePlayer,
            ParamMessageType::TalkStateParameter(_) => PayloadKind::TalkState,
            ParamMessageType::PlaySoundParameter(_) => PayloadKind::PlaySound,
            ParamMessageType::StopSoundParameter(_) => PayloadKind::StopSound,
            ParamMessageType::PhoneCommunicationUpdateParameter(_) => PayloadKind::PhoneCommunicationUpdate,
            ParamMessageType::StopPhoneCommunicationParameter(_) => PayloadKind::StopPhoneCommunication,
            ParamMessageType::RadioCommunicationUpdateParameter(_) => PayloadKind::RadioCommunicationUpdate,
            ParamMessageType::StopRadioCommunicationParameter(_) => PayloadKind::StopRadioCommunication,
            ParamMessageType::RadioTowerUpdateParameter(_) => PayloadKind::RadioTowerUpdate,
            ParamMessageType::RadioTrafficStateParameter(_) => PayloadKind::RadioTrafficState,
            ParamMessageType::AddRadioChannelMemberParameter(_) => PayloadKind::AddRadioChannelMember,
            ParamMessageType::UpdateRadioChannelMembersParameter(_) => PayloadKind::UpdateRadioChannelMembers,
            ParamMessageType::RemoveRadioChannelMemberParameter(_) => PayloadKind::RemoveRadioChannelMember,
            ParamMessageType::MegaphoneCommunicationUpdateParameter(_) => PayloadKind::MegaphoneCommunicationUpdate,
            ParamMessageType::StopMegaphoneCommunicationParameter(_) => PayloadKind::StopMegaphoneCommunication,
        }
    }
}

/// The payload shape that a command carries; `None` for the commands that
/// carry no payload (`Reset`, `Ping`, `Pong`).
pub open spec fn expected_payload(c: Command) -> Option<PayloadKind> {
    match c {
        Command::PluginState => Some(PayloadKind::PluginState),
        Command::Initiate => Some(PayloadKind::Initiate),
        Command::InstanceState => Some(PayloadKind::InstanceState),
        Command::SoundState => Some(PayloadKind::SoundState),
        Command::SelfStateUpdate => Some(PayloadKind::SelfStateUpdate),
        Command::PlayerStateUpdate => Some(PayloadKind::PlayerStateUpdate),
        Command::BulkUpdate => Some(PayloadKind::BulkUpdate),
        Command::RemovePlayer => Some(PayloadKind::RemovePlayer),
        Command::TalkState => Some(PayloadKind::TalkState),
        Command::PlaySound => Some(PayloadKind::PlaySound),
        Command::StopSound => Some(PayloadKind::StopSound),
        Command::PhoneCommunicationUpdate => Some(PayloadKind::PhoneCommunicationUpdate),
        Command::StopPhoneCommunication => Some(PayloadKind::StopPhoneCommunication),
        Command::RadioCommunicationUpdate => Some(PayloadKind::RadioCommunicationUpdate),
        Command::StopRadioCommunication => Some(PayloadKind::StopRadioCommunication),
        Command::RadioTowerUpdate => Some(PayloadKind::RadioTowerUpdate),
        Command::RadioTrafficState => Some(PayloadKind::RadioTrafficState),
        Command::AddRadioChannelMember => Some(PayloadKind::AddRadioChannelMember),
        Command::UpdateRadioChannelMembers => Some(PayloadKind::UpdateRadioChannelMembers),
        Command::RemoveRadioChannelMember => Some(PayloadKind::RemoveRadioChannelMember),
        Command::MegaphoneCommunicationUpdate => Some(PayloadKind::MegaphoneCommunicationUpdate),
        Command::StopMegaphoneCommunication => Some(PayloadKind::StopMegaphoneCommunication),
        Command::Reset | Command::Ping | Command::Pong => None,
    }
}

impl Command {
    /// The payload shape that this command carries, if any.
    pub fn payload_kind(self) -> (r: Option<PayloadKind>)
        ensures
            r == expected_payload(self),
    {
        match self {
            Command::PluginState => Some(PayloadKind::PluginState),
            Command::Initiate => Some(PayloadKind::Initiate),
            Command::InstanceState => Some(PayloadKind::InstanceState),
            Command::SoundState => Some(PayloadKind::SoundState),
            Command::SelfStateUpdate => Some(PayloadKind::SelfStateUpdate),
            Command::PlayerStateUpdate => Some(PayloadKind::PlayerStateUpdate),
            Command::BulkUpdate => Some(PayloadKind::BulkUpdate),
            Command::RemovePlayer => Some(PayloadKind::RemovePlayer),
            Command::TalkState => Some(PayloadKind::TalkState),
            Command::PlaySound => Some(PayloadKind::PlaySound),
            Command::StopSound => Some(PayloadKind::StopSound),
            Command::PhoneCommunicationUpdate => Some(PayloadKind::PhoneCommunicationUpdate),
            Command::StopPhoneCommunication => Some(PayloadKind::StopPhoneCommunication),
            Command::RadioCommunicationUpdate => Some(PayloadKind::RadioCommunicationUpdate),
            Command::StopRadioCommunication => Some(PayloadKind::StopRadioCommunication),
            Command::RadioTowerUpdate => Some(PayloadKind::RadioTowerUpdate),
            Command::RadioTrafficState => Some(PayloadKind::RadioTrafficState),
            Command::AddRadioChannelMember => Some(PayloadKind::AddRadioChannelMember),
            Command::UpdateRadioChannelMembers => Some(PayloadKind::UpdateRadioChannelMembers),
            Command::RemoveRadioChannelMember => Some(PayloadKind::RemoveRadioChannelMember),
            Command::MegaphoneCommunicationUpdate => Some(PayloadKind::MegaphoneCommunicationUpdate),
            Command::StopMegaphoneCommunication => Some(PayloadKind::StopMegaphoneCommunication),
            Command::Reset | Command::Ping | Command::Pong => None,
        }
    }
}

/// A message of the protocol: a command, the key of the instance that it
/// concerns (absent only for the connection greeting) and its payload.
#[derive(Clone, Debug, PartialEq)]
pub struct ProtocolMessage {
    pub command: Command,
    pub server_unique_identifier: Option<String>,
    pub parameter: Option<ParamMessageType>,
}

/// Whether payload `p` is the shape that command `c` carries.
pub open spec fn payload_fits(c: Command, p: Option<ParamMessageType>) -> bool {
    match p {
        None => expected_payload(c) is None,
        Some(q) => expected_payload(c) == Some(kind_of(q)),
    }
}

impl ProtocolMessage {
    /// Every command but the greeting names an instance, and the payload has
    /// the shape that the command carries.
    pub open spec fn well_formed(&self) -> bool {
        &&& (self.server_unique_identifier is None ==> self.command == Command::PluginState)
        &&& payload_fits(self.command, self.parameter)
    }
}

} // verus!
