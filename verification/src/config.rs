use vstd::prelude::*;

verus! {

/// Which features of the utility are switched on.
#[derive(Clone, Copy, Debug, PartialEq, Eq, Structural)]
pub struct FeatureFlags {
    pub desktop_toggler: bool,
    pub cursor_hider: bool,
}

/// Settings of the cursor hider.
#[derive(Clone, Copy, Debug, PartialEq, Eq, Structural)]
pub struct CursorHiderConfig {
    pub timeout_seconds: u64,
}

/// The whole settings file.
#[derive(Clone, Copy, Debug, PartialEq, Eq, Structural)]
pub struct AppConfig {
    pub features: FeatureFlags,
    pub cursor_hider: CursorHiderConfig,
}

/// The settings used when no settings file exists: the desktop toggler on,
/// the cursor hider off, and a five-second hiding timeout.
pub open spec fn default_config() -> AppConfig {
    AppConfig {
        features: FeatureFlags { desktop_toggler: true, cursor_hider: false },
        cursor_hider: CursorHiderConfig { timeout_seconds: 5 },
    }
}

impl Default for AppConfig {
    fn default() -> (config: Self)
        ensures
            config == default_config(),
    {
        AppConfig {
            features: FeatureFlags { desktop_toggler: true, cursor_hider: false },
            cursor_hider: CursorHiderConfig { timeout_seconds: 5 },
        }
    }
}

/// The parts of the settings file's path: the per-user application data
/// directory (the current directory when it is unknown), the program's
/// directory in it, and the file name.
pub fn settings_path_parts(app_data: Option<String>) -> (parts: Vec<String>)
    ensures
        parts@.len() == 3,
        parts@[0]@ == match app_data {
            Some(dir) => dir@,
            None => "."@,
        },
        parts@[1]@ == "DesktopIconToggler"@,
        parts@[2]@ == "settings.json"@,
{
    let base = match app_data {
        Some(dir) => dir,
        None => String::from_str("."),
    };
    let mut parts: Vec<String> = Vec::new();
    parts.push(base);
    parts.push(String::from_str("DesktopIconToggler"));
    parts.push(String::from_str("settings.json"));
    parts
}

/// What was found where the settings file should be.
#[derive(Clone, Debug, PartialEq, Eq)]
pub enum StoredConfig {
    /// There is no settings file.
    Missing,
    /// The file exists but could not be read; the reason.
    Unreadable(String),
    /// The file was read but does not hold valid settings; the reason.
    Unparsable(String),
    /// The settings the file holds.
    Parsed(AppConfig),
}

pub open spec fn ok_string(r: Result<String, String>) -> Result<Seq<char>, Seq<char>> {
    match r {
        Ok(s) => Ok(s@),
        Err(e) => Err(e@),
    }
}

/// What the settings window is told when it asks for the settings.
pub open spec fn load_config_spec(stored: StoredConfig) -> Result<AppConfig, Seq<char>> {
    match stored {
        StoredConfig::Missing => Ok(default_config()),
        StoredConfig::Unreadable(e) => Err("Failed to read config file: "@ + e@),
        StoredConfig::Unparsable(e) => Err("Failed to parse config: "@ + e@),
        StoredConfig::Parsed(c) => Ok(c),
    }
}

/// The settings handed to the settings window: the defaults when there is no
/// file, the file's settings when it holds valid ones, and otherwise an
/// error message naming what went wrong.
pub fn load_config(stored: StoredConfig) -> (r: Result<AppConfig, String>)
    ensures
        match (r, load_config_spec(stored)) {
            (Ok(c), Ok(d)) => c == d,
            (Err(e), Err(f)) => e@ == f,
            _ => false,
        },
{
    match stored {
        StoredConfig::Missing => Ok(AppConfig::default()),
        StoredConfig::Unreadable(e) => Err(String::from_str("Failed to read config file: ").concat(e.as_str())),
        StoredConfig::Unparsable(e) => Err(String::from_str("Failed to parse config: ").concat(e.as_str())),
        StoredConfig::Parsed(c) => Ok(c),
    }
}

/// The steps of saving the settings from the settings window.
#[derive(Debug, PartialEq, Eq)]
pub enum SaveStep {
    /// Create the directory of the settings file.
    CreateDirectory,
    /// Turn the settings into text.
    Serialize,
    /// Write the text to the settings file.
    Write,
    /// Ask the running utility to read the settings again.
    Notify,
    /// Saving is over, with this answer for the settings window.
    Finished(Result<String, String>),
}

/// The view of a step, with its answer as character sequences.
pub ghost enum SaveStepView {
    CreateDirectory,
    Serialize,
    Write,
    Notify,
    Finished(Result<Seq<char>, Seq<char>>),
}

impl View for SaveStep {
    type V = SaveStepView;

    open spec fn view(&self) -> SaveStepView {
        match self {
            SaveStep::CreateDirectory => SaveStepView::CreateDirectory,
            SaveStep::Serialize => SaveStepView::Serialize,
            SaveStep::Write => SaveStepView::Write,
            SaveStep::Notify => SaveStepView::Notify,
            SaveStep::Finished(r) => SaveStepView::Finished(ok_string(*r)),
        }
    }
}

pub open spec fn outcome_view(outcome: Result<(), String>) -> Result<(), Seq<char>> {
    match outcome {
        Ok(()) => Ok(()),
        Err(e) => Err(e@),
    }
}

/// The step after `step` ended with `outcome`: a failing step ends saving
/// with an error that names it, a successful one leads to the next step, and
/// after the notification saving ends successfully.
pub open spec fn save_step_spec(step: SaveStepView, outcome: Result<(), Seq<char>>) -> SaveStepView {
    match step {
        SaveStepView::CreateDirectory => match outcome {
            Ok(()) => SaveStepView::Serialize,
            Err(e) => SaveStepView::Finished(Err("Failed to create config directory: "@ + e)),
        },
        SaveStepView::Serialize => match outcome {
            Ok(()) => SaveStepView::Write,
            Err(e) => SaveStepView::Finished(Err("Failed to serialize config: "@ + e)),
        },
        SaveStepView::Write => match outcome {
            Ok(()) => SaveStepView::Notify,
            Err(e) => SaveStepView::Finished(Err("Failed to write config file: "@ + e)),
        },
        SaveStepView::Notify => SaveStepView::Finished(Ok("Settings saved successfully"@)),
        SaveStepView::Finished(r) => SaveStepView::Finished(r),
    }
}

/// The answer of a whole save: the error of the first failing step, or the
/// success message.
pub open spec fn save_answer(
    directory: Result<(), Seq<char>>,
    serialized: Result<(), Seq<char>>,
    written: Result<(), Seq<char>>,
) -> Result<Seq<char>, Seq<char>> {
    match directory {
        Err(e) => Err("Failed to create config directory: "@ + e),
        Ok(()) => match serialized {
            Err(e) => Err("Failed to serialize config: "@ + e),
            Ok(()) => match written {
                Err(e) => Err("Failed to write config file: "@ + e),
                Ok(()) => Ok("Settings saved successfully"@),
            },
        },
    }
}

impl SaveStep {
    /// Where saving begins.
    pub fn begin() -> (s: Self)
        ensures
            s@ == SaveStepView::CreateDirectory,
    {
        SaveStep::CreateDirectory
    }

    /// Advances saving past the current step, which ended with `outcome`.
    pub fn next(self, outcome: Result<(), String>) -> (s: Self)
        ensures
            s@ == save_step_spec(self@, outcome_view(outcome)),
    {
        match self {
            SaveStep::CreateDirectory => match outcome {
                Ok(()) => SaveStep::Serialize,
                Err(e) => SaveStep::Finished(
                    Err(String::from_str("Failed to create config directory: ").concat(e.as_str())),
                ),
            },
            SaveStep::Serialize => match outcome {
                Ok(()) => SaveStep::Write,
                Err(e) => SaveStep::Finished(Err(String::from_str("Failed to serialize config: ").concat(e.as_str()))),
            },
            SaveStep::Write => match outcome {
                Ok(()) => SaveStep::Notify,
                Err(e) => SaveStep::Finished(Err(String::from_str("Failed to write config file: ").concat(e.as_str()))),
            },
            SaveStep::Notify => SaveStep::Finished(Ok(String::from_str("Settings saved successfully"))),
            SaveStep::Finished(r) => SaveStep::Finished(r),
        }
    }
}

/// Saving from the start with the outcomes of the three fallible steps ends,
/// at the latest after the notification, with the error of the first failing
/// step or the success message; it succeeds exactly when all three succeed,
/// and the running utility is notified only then.
pub proof fn lemma_save_outcome(
    directory: Result<(), Seq<char>>,
    serialized: Result<(), Seq<char>>,
    written: Result<(), Seq<char>>,
    notified: Result<(), Seq<char>>,
)
    ensures
        ({
            let s1 = save_step_spec(SaveStepView::CreateDirectory, directory);
            let s2 = save_step_spec(s1, serialized);
            let s3 = save_step_spec(s2, written);
            let s4 = save_step_spec(s3, notified);
            &&& s4 == SaveStepView::Finished(save_answer(directory, serialized, written))
            &&& (save_answer(directory, serialized, written) is Ok <==> (directory is Ok && serialized is Ok
                && written is Ok))
            &&& (s3 == SaveStepView::Notify <==> (directory is Ok && serialized is Ok && written is Ok))
        }),
{
}

/// The settings window gets the stored settings unchanged when the file
/// holds valid ones, the defaults (desktop toggler on, cursor hider off,
/// five seconds) when there is no file, and an error naming the failure,
/// followed by its reason, otherwise.
pub proof fn lemma_load_config_answers(c: AppConfig, reason: String)
    ensures
        load_config_spec(StoredConfig::Parsed(c)) == Ok::<AppConfig, Seq<char>>(c),
        load_config_spec(StoredConfig::Missing) == Ok::<AppConfig, Seq<char>>(
            AppConfig {
                features: FeatureFlags { desktop_toggler: true, cursor_hider: false },
                cursor_hider: CursorHiderConfig { timeout_seconds: 5 },
            },
        ),
        load_config_spec(StoredConfig::Unreadable(reason)) matches Err(m) && m.len() > reason@.len() && m.subrange(
            m.len() - reason@.len(),
            m.len() as int,
        ) == reason@,
        load_config_spec(StoredConfig::Unparsable(reason)) matches Err(m) && m.len() > reason@.len() && m.subrange(
            m.len() - reason@.len(),
            m.len() as int,
        ) == reason@,
{
    reveal_strlit("Failed to read config file: ");
    reveal_strlit("Failed to parse config: ");
    let m1 = "Failed to read config file: "@ + reason@;
    assert(m1.subrange(m1.len() - reason@.len(), m1.len() as int) =~= reason@);
    let m2 = "Failed to parse config: "@ + reason@;
    assert(m2.subrange(m2.len() - reason@.len(), m2.len() as int) =~= reason@);
}

/// The settings that the running utility applies.
#[derive(Clone, Copy, Debug, PartialEq, Eq, Structural)]
pub struct CoreSettings {
    pub desktop_toggler: bool,
    pub cursor_hider: bool,
    pub cursor_hider_timeout: u64,
}

/// What to do with the cursor hider after reading the settings.
#[derive(Clone, Copy, Debug, PartialEq, Eq, Structural)]
pub enum HiderCommand {
    /// (Re)start it with this timeout in seconds.
    Start(u64),
    /// Stop it.
    Stop,
}

/// The settings the running utility reads.
#[derive(Clone, Copy, Debug, PartialEq, Eq, Structural)]
pub enum SettingsRead {
    /// The file held these settings.
    Parsed(AppConfig),
    /// The file was read but does not hold valid settings.
    Unparsable,
    /// The file could not be read.
    Unreadable,
}

/// The outcome of reading the settings in the running utility.
#[derive(Clone, Copy, Debug, PartialEq, Eq, Structural)]
pub struct SettingsReload {
    /// The settings in force afterwards.
    pub settings: CoreSettings,
    /// What to do with the cursor hider.
    pub hider: HiderCommand,
    /// Whether to overwrite the settings file with the defaults.
    pub rewrite_defaults: bool,
}

/// The settings in force when the utility starts.
pub open spec fn initial_core_settings() -> CoreSettings {
    CoreSettings { desktop_toggler: true, cursor_hider: false, cursor_hider_timeout: 5 }
}

/// Valid settings are applied as they are and start or stop the cursor
/// hider; a file that cannot be read or parsed is overwritten with the
/// defaults, and the default settings come into force (so the hider stops).
pub open spec fn reload_spec(current: CoreSettings, read: SettingsRead) -> SettingsReload {
    match read {
        SettingsRead::Parsed(c) => SettingsReload {
            settings: CoreSettings {
                desktop_toggler: c.features.desktop_toggler,
                cursor_hider: c.features.cursor_hider,
                cursor_hider_timeout: c.cursor_hider.timeout_seconds,
            },
            hider: if c.features.cursor_hider {
                HiderCommand::Start(c.cursor_hider.timeout_seconds)
            } else {
                HiderCommand::Stop
            },
            rewrite_defaults: false,
        },
        _ => SettingsReload {
            settings: initial_core_settings(),
            hider: HiderCommand::Stop,
            rewrite_defaults: true,
        },
    }
}

impl CoreSettings {
    /// The settings in force when the utility starts.
    pub fn initial() -> (s: Self)
        ensures
            s == initial_core_settings(),
    {
        CoreSettings { desktop_toggler: true, cursor_hider: false, cursor_hider_timeout: 5 }
    }

    /// Applies what was read from the settings file.
    pub fn reload(self, read: SettingsRead) -> (r: SettingsReload)
        ensures
            r == reload_spec(self, read),
    {
        match read {
            SettingsRead::Parsed(c) => SettingsReload {
                settings: CoreSettings {
                    desktop_toggler: c.features.desktop_toggler,
                    cursor_hider: c.features.cursor_hider,
                    cursor_hider_timeout: c.cursor_hider.timeout_seconds,
                },
                hider: if c.features.cursor_hider {
                HiderCommand::Start(c.cursor_hider.timeout_seconds)
            } else {
                HiderCommand::Stop
            },
                rewrite_defaults: false,
            },
            _ => SettingsReload {
                settings: CoreSettings::initial(),
                hider: HiderCommand::Stop,
                rewrite_defaults: true,
            },
        }
    }
}

/// Valid settings read by the running utility come into force field by
/// field; the hider is started with the file's timeout exactly when the
/// file switches it on, whatever the desktop toggler's setting, and stopped
/// otherwise; the file is not rewritten.
pub proof fn lemma_reload_parsed(current: CoreSettings, c: AppConfig)
    ensures
        ({
            let r = reload_spec(current, SettingsRead::Parsed(c));
            &&& r.settings.desktop_toggler == c.features.desktop_toggler
            &&& r.settings.cursor_hider == c.features.cursor_hider
            &&& r.settings.cursor_hider_timeout == c.cursor_hider.timeout_seconds
            &&& c.features.cursor_hider ==> r.hider == HiderCommand::Start(c.cursor_hider.timeout_seconds)
            &&& !c.features.cursor_hider ==> r.hider == HiderCommand::Stop
            &&& !r.rewrite_defaults
        }),
{
}

/// A file that cannot be read or parsed brings the default settings (desktop
/// toggler on, cursor hider off, five seconds) into force, stops the hider
/// and has the file rewritten with the defaults.
pub proof fn lemma_reload_bad_file(current: CoreSettings, read: SettingsRead)
    requires
        !(read is Parsed),
    ensures
        reload_spec(current, read) == (SettingsReload {
            settings: CoreSettings { desktop_toggler: true, cursor_hider: false, cursor_hider_timeout: 5 },
            hider: HiderCommand::Stop,
            rewrite_defaults: true,
        }),
{
}

/// The settings the utility starts with are the default settings; reading
/// the default settings file, or a file that cannot be read or parsed, puts
/// exactly those settings in force and stops the hider.
pub proof fn lemma_defaults_agree(current: CoreSettings)
    ensures
        reload_spec(current, SettingsRead::Parsed(default_config())).settings == initial_core_settings(),
        reload_spec(current, SettingsRead::Parsed(default_config())).hider == HiderCommand::Stop,
        reload_spec(current, SettingsRead::Unparsable).settings == reload_spec(
            current,
            SettingsRead::Parsed(default_config()),
        ).settings,
        reload_spec(current, SettingsRead::Unreadable).settings == initial_core_settings(),
        reload_spec(current, SettingsRead::Unparsable).hider == HiderCommand::Stop,
        reload_spec(current, SettingsRead::Unreadable).hider == HiderCommand::Stop,
{
}

/// Reading the same valid settings twice gives the same settings in force
/// and the same command for the hider, whatever was in force before.
pub proof fn lemma_reload_idempotent(current: CoreSettings, config: AppConfig)
    ensures
        ({
            let first = reload_spec(current, SettingsRead::Parsed(config));
            let second = reload_spec(first.settings, SettingsRead::Parsed(config));
            second == first
        }),
{
}

} // verus!
