//! Command-line arguments and what they ask the program to do.

use crate::preset::{parses_as, VoicePreset};
use vstd::prelude::*;

verus! {

/// The command-line arguments.
#[derive(Debug, Clone, PartialEq, Eq)]
pub struct Args {
    /// List the input and output devices and exit.
    pub list_devices: bool,
    /// A configuration file (TOML) to start from.
    pub config: Option<String>,
    /// A preset to apply over the configuration.
    pub preset: Option<String>,
    /// Start with processing bypassed.
    pub bypass: bool,
    /// Record this many seconds, write the raw and processed takes, and exit.
    pub record_test: Option<u32>,
    /// Run without the GUI.
    pub no_gui: bool,
    /// Log in detail.
    pub verbose: bool,
}

/// What the program does for a set of arguments.
#[derive(Debug, Clone, Copy, PartialEq, Eq, Structural)]
pub enum RunMode {
    /// List the devices and exit.
    ListDevices,
    /// Record a test take of this many seconds and exit.
    RecordTest(u32),
    /// Run until stopped, without a window.
    Headless,
    /// Open the dashboard.
    Gui,
}

/// How the starting configuration is put together: read `config_file` (or
/// take the defaults), apply the parsed `preset` over it when the name is
/// known (an unknown name leaves the configuration as it is, with a
/// warning), then switch bypass on when `force_bypass` is set.
#[derive(Debug, Clone, PartialEq, Eq)]
pub struct ConfigPlan {
    pub config_file: Option<String>,
    pub preset: Option<Result<VoicePreset, String>>,
    pub force_bypass: bool,
}

/// The mode that a set of arguments selects: listing devices comes first,
/// then a test recording, then running without a window, and else the GUI.
pub open spec fn run_mode_of(list_devices: bool, record_test: Option<u32>, no_gui: bool) -> RunMode {
    if list_devices {
        RunMode::ListDevices
    } else if record_test is Some {
        RunMode::RecordTest(record_test->0)
    } else if no_gui {
        RunMode::Headless
    } else {
        RunMode::Gui
    }
}

/// What each argument asks for, whatever the others say: `--list-devices`
/// wins over everything; otherwise `--record-test N` records a take of `N`
/// seconds, with or without `--no-gui`; otherwise `--no-gui` runs without a
/// window; and only with none of them does the dashboard open.
pub proof fn law_run_mode_precedence(list_devices: bool, record_test: Option<u32>, no_gui: bool)
    ensures
        list_devices ==> run_mode_of(list_devices, record_test, no_gui) == RunMode::ListDevices,
        forall|n: u32|
            !list_devices && record_test == Some(n) ==> run_mode_of(list_devices, record_test, no_gui)
                == RunMode::RecordTest(n),
        !list_devices && record_test is None && no_gui ==> run_mode_of(
            list_devices,
            record_test,
            no_gui,
        ) == RunMode::Headless,
        run_mode_of(list_devices, record_test, no_gui) == RunMode::Gui <==> (!list_devices
            && record_test is None && !no_gui),
        run_mode_of(list_devices, record_test, no_gui) is RecordTest ==> record_test is Some,
{
}

impl Args {
    /// What the program is to do.
    pub fn run_mode(&self) -> (r: RunMode)
        ensures
            r == run_mode_of(self.list_devices, self.record_test, self.no_gui),
            self.list_devices ==> r == RunMode::ListDevices,
            !self.list_devices && self.record_test is Some ==> r == RunMode::RecordTest(
                self.record_test->0,
            ),
            !self.list_devices && self.record_test is None && self.no_gui ==> r
                == RunMode::Headless,
            !self.list_devices && self.record_test is None && !self.no_gui ==> r == RunMode::Gui,
    {
        if self.list_devices {
            RunMode::ListDevices
        } else if let Some(seconds) = self.record_test {
            RunMode::RecordTest(seconds)
        } else if self.no_gui {
            RunMode::Headless
        } else {
            RunMode::Gui
        }
    }

    /// The log level to show unless the environment sets one.
    pub fn log_level(&self) -> (r: &'static str)
        ensures
            r@ == (if self.verbose {
                "debug"@
            } else {
                "info"@
            }),
    {
        if self.verbose {
            "debug"
        } else {
            "info"
        }
    }

    /// How the starting configuration is put together.
    pub fn config_plan(&self) -> (r: ConfigPlan)
        ensures
            r.config_file == self.config,
            r.force_bypass == self.bypass,
            self.preset is None ==> r.preset is None,
            self.preset matches Some(name) ==> (r.preset matches Some(parsed) && parses_as(
                name@,
                parsed,
            )),
    {
        let config_file = match &self.config {
            Some(path) => Some(path.clone()),
            None => None,
        };
        let preset = match &self.preset {
            Some(name) => Some(VoicePreset::parse(name.as_str())),
            None => None,
        };
        ConfigPlan { config_file, preset, force_bypass: self.bypass }
    }
}

} // verus!
