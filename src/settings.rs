use vstd::prelude::*;

verus! {

/// Where a voice source is placed in the stereo image.
#[derive(Clone, Copy, Debug, PartialEq, Eq, Structural)]
pub enum StereoMode {
    Stereo,
    LeftOnly,
    RightOnly,
}

impl StereoMode {
    /// The label shown for this mode.
    pub open spec fn label_view(self) -> Seq<char> {
        match self {
            StereoMode::Stereo => "Stereo"@,
            StereoMode::LeftOnly => "Left Only"@,
            StereoMode::RightOnly => "Right Only"@,
        }
    }

    /// Every mode, in the order offered to the user.
    pub fn all() -> (r: [StereoMode; 3])
        ensures
            r@ == seq![StereoMode::Stereo, StereoMode::LeftOnly, StereoMode::RightOnly],
    {
        let r = [StereoMode::Stereo, StereoMode::LeftOnly, StereoMode::RightOnly];
        assert(r@ =~= seq![StereoMode::Stereo, StereoMode::LeftOnly, StereoMode::RightOnly]);
        r
    }

    /// The label shown for this mode.
    pub fn label(&self) -> (r: &'static str)
        ensures
            r@ == self.label_view(),
    {
        match self {
            StereoMode::Stereo => "Stereo",
            StereoMode::LeftOnly => "Left Only",
            StereoMode::RightOnly => "Right Only",
        }
    }

    /// The label shown for this mode, as an owned string.
    pub fn to_string(&self) -> (r: String)
        ensures
            r@ == self.label_view(),
    {
        self.label().to_owned()
    }
}

/// When the radio microphone click is played.
#[derive(Clone, Copy, Debug, PartialEq, Eq, Structural)]
pub enum MicClickMode {
    ScriptDependent,
    Never,
    Always,
}

impl Default for MicClickMode {
    fn default() -> (r: MicClickMode)
        ensures
            r == MicClickMode::ScriptDependent,
    {
        MicClickMode::ScriptDependent
    }
}

impl MicClickMode {
    /// The label shown for this mode.
    pub open spec fn label_view(self) -> Seq<char> {
        match self {
            MicClickMode::ScriptDependent => "Script Dependent"@,
            MicClickMode::Never => "Never"@,
            MicClickMode::Always => "Always"@,
        }
    }

    /// Every mode, in the order offered to the user.
    pub fn all() -> (r: [MicClickMode; 3])
        ensures
            r@ == seq![MicClickMode::ScriptDependent, MicClickMode::Never, MicClickMode::Always],
    {
        let r = [MicClickMode::ScriptDependent, MicClickMode::Never, MicClickMode::Always];
        assert(r@ =~= seq![MicClickMode::ScriptDependent, MicClickMode::Never, MicClickMode::Always]);
        r
    }

    /// The label shown for this mode.
    pub fn label(&self) -> (r: &'static str)
        ensures
            r@ == self.label_view(),
    {
        match self {
            MicClickMode::ScriptDependent => "Script Dependent",
            MicClickMode::Never => "Never",
            MicClickMode::Always => "Always",
        }
    }

    /// The label shown for this mode, as an owned string.
    pub fn to_string(&self) -> (r: String)
        ensures
            r@ == self.label_view(),
    {
        self.label().to_owned()
    }
}

/// An edit made in the settings window.
#[derive(Clone, Debug, PartialEq)]
pub enum Message {
    Confirm,
    WebSocketChanged(String),
    Has3dChanged(bool),
    PhoneOffset(StereoMode),
    RadioOffset(StereoMode),
    SecondaryRadioOffset(StereoMode),
    MicClickMode(MicClickMode),
}

/// The local settings edited in the settings window.
#[derive(Clone, Debug, PartialEq)]
pub struct Settings {
    pub web_socket_address: String,
    pub is_3d_enabled: bool,
    pub phone_offset: Option<StereoMode>,
    pub radio_offset: Option<StereoMode>,
    pub secondary_radio_offset: Option<StereoMode>,
    pub mic_click_mode: Option<MicClickMode>,
}

impl Settings {
    /// The settings a fresh window starts from.
    pub fn new() -> (r: Settings)
        ensures
            r.web_socket_address@ == "ws://localhost:31850"@,
            !r.is_3d_enabled,
            r.phone_offset == Some(StereoMode::Stereo),
            r.radio_offset == Some(StereoMode::Stereo),
            r.secondary_radio_offset == Some(StereoMode::Stereo),
            r.mic_click_mode == Some(MicClickMode::ScriptDependent),
    {
        Settings {
            web_socket_address: "ws://localhost:31850".to_owned(),
            is_3d_enabled: false,
            phone_offset: Some(StereoMode::Stereo),
            radio_offset: Some(StereoMode::Stereo),
            secondary_radio_offset: Some(StereoMode::Stereo),
            mic_click_mode: Some(MicClickMode::ScriptDependent),
        }
    }

    /// The window title.
    pub fn title(&self) -> (r: String)
        ensures
            r@ == "RustyChat - Settings"@,
    {
        "RustyChat - Settings".to_owned()
    }

    /// Applies one edit: each message sets the one setting it names; `Confirm`
    /// changes nothing.
    pub fn update(&mut self, message: Message)
        ensures
            match message {
                Message::Confirm => *final(self) == *old(self),
                Message::WebSocketChanged(v) => *final(self) == (Settings { web_socket_address: v, ..*old(self) }),
                Message::Has3dChanged(v) => *final(self) == (Settings { is_3d_enabled: v, ..*old(self) }),
                Message::PhoneOffset(v) => *final(self) == (Settings { phone_offset: Some(v), ..*old(self) }),
                Message::RadioOffset(v) => *final(self) == (Settings { radio_offset: Some(v), ..*old(self) }),
                Message::SecondaryRadioOffset(v) => *final(self) == (Settings {
                    secondary_radio_offset: Some(v),
                    ..*old(self)
                }),
                Message::MicClickMode(v) => *final(self) == (Settings { mic_click_mode: Some(v), ..*old(self) }),
            },
    {
        match message {
            Message::Confirm => {},
            Message::WebSocketChanged(value) => self.web_socket_address = value,
            Message::Has3dChanged(value) => self.is_3d_enabled = value,
            Message::PhoneOffset(value) => self.phone_offset = Some(value),
            Message::RadioOffset(value) => self.radio_offset = Some(value),
            Message::SecondaryRadioOffset(value) => self.secondary_radio_offset = Some(value),
            Message::MicClickMode(value) => self.mic_click_mode = Some(value),
        }
    }
}

} // verus!
