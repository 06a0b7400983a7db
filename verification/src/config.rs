use crate::error::{Error, Fault};
use vstd::prelude::*;

verus! {

/// How the hotkey arms the trigger.
#[derive(Clone, Copy, Debug, PartialEq, Eq, Structural)]
pub enum TriggerType {
    /// Armed while the key is held down.
    Hold,
    /// Each press flips between armed and disarmed.
    Toggle,
}

impl Default for TriggerType {
    fn default() -> (t: TriggerType)
        ensures
            t == TriggerType::Hold,
    {
        TriggerType::Hold
    }
}

/// One thousand: sensitivities and offsets are held in thousandths.
pub const MILLI: i32 = 1000;

/// The control settings. Sensitivities and offsets are fixed-point numbers in
/// thousandths: a yaw sensitivity of 300 scales by 0.3, an offset of -250
/// moves the target point a quarter of the box towards its low edge.
#[derive(Debug)]
pub struct ControlSettings {
    /// Horizontal scale factor, in thousandths.
    pub yaw_sensitivity: u32,
    /// Vertical scale factor, in thousandths.
    pub pitch_sensitivity: u32,
    /// The name of the hotkey.
    pub hotkey: String,
    pub trigger_type: TriggerType,
    /// Horizontal target offset as a fraction of the box's width, in thousandths.
    pub x_target_offset: i32,
    /// Vertical target offset as a fraction of the box's height, in thousandths.
    pub y_target_offset: i32,
}

/// The control settings as contracts see them.
pub ghost struct ControlView {
    pub yaw_sensitivity: u32,
    pub pitch_sensitivity: u32,
    pub hotkey: Seq<char>,
    pub trigger_type: TriggerType,
    pub x_target_offset: i32,
    pub y_target_offset: i32,
}

impl View for ControlSettings {
    type V = ControlView;

    open spec fn view(&self) -> ControlView {
        ControlView {
            yaw_sensitivity: self.yaw_sensitivity,
            pitch_sensitivity: self.pitch_sensitivity,
            hotkey: self.hotkey@,
            trigger_type: self.trigger_type,
            x_target_offset: self.x_target_offset,
            y_target_offset: self.y_target_offset,
        }
    }
}

/// The built-in settings: both sensitivities 0.3, the first side button as
/// hotkey, hold to trigger, no offsets.
pub open spec fn default_control() -> ControlView {
    ControlView {
        yaw_sensitivity: 300,
        pitch_sensitivity: 300,
        hotkey: "x1"@,
        trigger_type: TriggerType::Hold,
        x_target_offset: 0,
        y_target_offset: 0,
    }
}

impl ControlView {
    /// Both sensitivities are positive and both offsets lie in [-1, 1].
    pub open spec fn valid(self) -> bool {
        &&& self.yaw_sensitivity > 0
        &&& self.pitch_sensitivity > 0
        &&& -1000 <= self.x_target_offset <= 1000
        &&& -1000 <= self.y_target_offset <= 1000
    }
}

impl ControlSettings {
    /// Whether the settings are in range: both sensitivities positive, both
    /// offsets in [-1, 1].
    pub fn is_valid(&self) -> (ok: bool)
        ensures
            ok == self@.valid(),
    {
        self.yaw_sensitivity > 0 && self.pitch_sensitivity > 0 && -MILLI <= self.x_target_offset
            && self.x_target_offset <= MILLI && -MILLI <= self.y_target_offset
            && self.y_target_offset <= MILLI
    }
}

impl Default for ControlSettings {
    fn default() -> (s: ControlSettings)
        ensures
            s@ == default_control(),
            s@.valid(),
    {
        ControlSettings {
            yaw_sensitivity: 300,
            pitch_sensitivity: 300,
            hotkey: String::from_str("x1"),
            trigger_type: TriggerType::Hold,
            x_target_offset: 0,
            y_target_offset: 0,
        }
    }
}

impl Clone for ControlSettings {
    fn clone(&self) -> (s: ControlSettings)
        ensures
            s@ == self@,
    {
        ControlSettings {
            yaw_sensitivity: self.yaw_sensitivity,
            pitch_sensitivity: self.pitch_sensitivity,
            hotkey: self.hotkey.clone(),
            trigger_type: self.trigger_type,
            x_target_offset: self.x_target_offset,
            y_target_offset: self.y_target_offset,
        }
    }
}

/// The configuration record that is kept on disk.
#[derive(Debug)]
pub struct AppConfig {
    pub control: ControlSettings,
}

impl View for AppConfig {
    type V = ControlView;

    open spec fn view(&self) -> ControlView {
        self.control@
    }
}

impl Default for AppConfig {
    fn default() -> (c: AppConfig)
        ensures
            c@ == default_control(),
    {
        AppConfig { control: ControlSettings::default() }
    }
}

impl Clone for AppConfig {
    fn clone(&self) -> (c: AppConfig)
        ensures
            c@ == self@,
    {
        AppConfig { control: self.control.clone() }
    }
}

/// What was found where the configuration is kept.
#[derive(Debug)]
pub enum StoredRecord {
    /// No file.
    Absent,
    /// A file that is no record; the reader's words.
    Malformed(String),
    /// The record.
    Parsed(AppConfig),
}

/// Holds the current configuration and the place where it is kept.
#[derive(Debug)]
pub struct ConfigManager {
    config: AppConfig,
    path: String,
}

impl ConfigManager {
    /// The configuration held now.
    pub closed spec fn current(&self) -> ControlView {
        self.config@
    }

    /// The place where the configuration is kept.
    pub closed spec fn location(&self) -> Seq<char> {
        self.path@
    }

    /// Starts from what the file at `path` held. Without a file the
    /// built-in settings are held. A file that cannot be read as a record is
    /// refused.
    pub fn new(path: String, stored: StoredRecord) -> (res: Result<ConfigManager, Error>)
        ensures
            match stored {
                StoredRecord::Absent => res matches Ok(m) && m.location() == path@ && m.current()
                    == default_control(),
                StoredRecord::Parsed(c) => res matches Ok(m) && m.location() == path@
                    && m.current() == c@,
                StoredRecord::Malformed(words) => res matches Err(e) && e.fault
                    == Fault::MalformedConfig && e.detail@ == words@,
            },
    {
        match stored {
            StoredRecord::Absent => Ok(ConfigManager { config: AppConfig::default(), path }),
            StoredRecord::Parsed(config) => Ok(ConfigManager { config, path }),
            StoredRecord::Malformed(words) => Err(Error::new(Fault::MalformedConfig, words)),
        }
    }

    /// Holds the built-in settings, to be kept at `path`.
    pub fn with_defaults(path: String) -> (m: ConfigManager)
        ensures
            m.location() == path@,
            m.current() == default_control(),
    {
        ConfigManager { config: AppConfig::default(), path }
    }

    /// A copy of the configuration held now.
    pub fn load(&self) -> (c: AppConfig)
        ensures
            c@ == self.current(),
    {
        self.config.clone()
    }

    /// The place where the configuration is kept.
    pub fn path(&self) -> (p: &String)
        ensures
            p@ == self.location(),
    {
        &self.path
    }

    /// Replaces the control settings and hands back the record to write.
    pub fn update_control(&mut self, control: ControlSettings) -> (record: AppConfig)
        ensures
            final(self).current() == control@,
            final(self).location() == old(self).location(),
            record@ == control@,
    {
        self.config.control = control;
        self.config.clone()
    }
}

} // verus!
