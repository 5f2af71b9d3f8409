//! The settings that the transport, the pedal scanner and the dispatcher
//! consume: plain values, read and written elsewhere.

use vstd::prelude::*;
use vstd::string::*;

verus! {

pub const DEFAULT_VENDOR_ID: u16 = 0x0911;

pub const DEFAULT_PRODUCT_ID: u16 = 0x1844;

pub const DEFAULT_LEFT_CODE: u32 = 288;

pub const DEFAULT_MIDDLE_CODE: u32 = 290;

pub const DEFAULT_RIGHT_CODE: u32 = 289;

#[derive(Debug, Clone)]
pub struct PathsConfig {
    pub default_open_dir: String,
}

#[derive(Debug, Clone, Copy, PartialEq, Eq, Structural)]
pub struct ApplicationConfig {
    pub rewind_seconds: u32,
    pub forward_seconds: u32,
    pub hold_rewind_interval_ms: u64,
    pub play_start_rewind_seconds: u32,
}

#[derive(Debug, Clone)]
pub struct InputConfig {
    pub device_path: Option<String>,
    pub selected_model: Option<String>,
}

#[derive(Debug, Clone)]
pub struct PedalModel {
    pub name: String,
    pub vendor_id: u16,
    pub product_id: u16,
    pub left_code: u32,
    pub middle_code: u32,
    pub right_code: u32,
}

#[derive(Debug, Clone, Copy, PartialEq, Eq, Structural)]
pub struct PedalDefaults {
    pub vendor_id: u16,
    pub product_id: u16,
    pub left_code: u32,
    pub middle_code: u32,
    pub right_code: u32,
}

#[derive(Debug, Clone)]
pub struct Config {
    pub paths: PathsConfig,
    pub application: ApplicationConfig,
    pub input: InputConfig,
    pub pedal_defaults: PedalDefaults,
    pub pedals: Vec<PedalModel>,
}

/// The key codes of the three pedal roles that are in effect.
#[derive(Debug, Clone, Copy, PartialEq, Eq, Structural)]
pub struct RoleCodes {
    pub left: u32,
    pub middle: u32,
    pub right: u32,
}

/// What the file system tells about the places where the file dialog may
/// start.
#[derive(Debug)]
pub struct DirProbe {
    /// Whether the configured directory exists and is a directory.
    pub configured_is_dir: bool,
    /// The home directory, if one is known.
    pub home: Option<String>,
    /// Whether the home directory is a directory.
    pub home_is_dir: bool,
    /// The current directory, if it can be had.
    pub current_dir: Option<String>,
}

/// The first model at or after `from` that carries `name`.
pub open spec fn first_named(pedals: Seq<PedalModel>, name: Seq<char>, from: int) -> Option<
    PedalModel,
>
    decreases pedals.len() - from,
{
    if from < 0 || from >= pedals.len() {
        None
    } else if pedals[from].name@ == name {
        Some(pedals[from])
    } else {
        first_named(pedals, name, from + 1)
    }
}

impl Config {
    /// The codes in effect: those of the first listed model that carries the
    /// selected name, and the defaults when no model is selected or none
    /// carries the name.
    pub open spec fn spec_role_codes(&self) -> RoleCodes {
        let defaults = RoleCodes {
            left: self.pedal_defaults.left_code,
            middle: self.pedal_defaults.middle_code,
            right: self.pedal_defaults.right_code,
        };
        match self.input.selected_model {
            Some(name) => match first_named(self.pedals@, name@, 0) {
                Some(model) => RoleCodes {
                    left: model.left_code,
                    middle: model.middle_code,
                    right: model.right_code,
                },
                None => defaults,
            },
            None => defaults,
        }
    }

    /// Where the file dialog starts: the configured directory if it is one,
    /// else the home directory if it is one, else the current directory, and
    /// `.` when even that is not known.
    pub open spec fn spec_open_dir(&self, probe: DirProbe) -> Seq<char> {
        if probe.configured_is_dir {
            self.paths.default_open_dir@
        } else if probe.home.is_some() && probe.home_is_dir {
            probe.home.unwrap()@
        } else if probe.current_dir.is_some() {
            probe.current_dir.unwrap()@
        } else {
            "."@
        }
    }

    /// Picks the directory in which the file dialog starts.
    pub fn resolve_default_open_dir(&self, probe: DirProbe) -> (dir: String)
        ensures
            dir@ == self.spec_open_dir(probe),
    {
        if probe.configured_is_dir {
            return self.paths.default_open_dir.clone();
        }
        if probe.home_is_dir {
            match probe.home {
                Some(home) => {
                    return home;
                },
                None => {},
            }
        }
        match probe.current_dir {
            Some(dir) => dir,
            None => String::from_str("."),
        }
    }

    /// Resolves the role codes from the selected model or the defaults.
    pub fn role_codes(&self) -> (codes: RoleCodes)
        ensures
            codes == self.spec_role_codes(),
    {
        let defaults = RoleCodes {
            left: self.pedal_defaults.left_code,
            middle: self.pedal_defaults.middle_code,
            right: self.pedal_defaults.right_code,
        };
        match &self.input.selected_model {
            Some(name) => {
                let mut i: usize = 0;
                while i < self.pedals.len()
                    invariant
                        i <= self.pedals@.len(),
                        self.input.selected_model == Some(*name),
                        first_named(self.pedals@, name@, 0) == first_named(
                            self.pedals@,
                            name@,
                            i as int,
                        ),
                    decreases self.pedals@.len() - i,
                {
                    let model = &self.pedals[i];
                    if model.name == *name {
                        assert(first_named(self.pedals@, name@, i as int) == Some(*model));
                        return RoleCodes {
                            left: model.left_code,
                            middle: model.middle_code,
                            right: model.right_code,
                        };
                    }
                    i = i + 1;
                }
                defaults
            },
            None => defaults,
        }
    }
}

impl Default for Config {
    /// The settings used when none are stored: three seconds of rewind and of
    /// forward, a repeat every half second, one second of rewind on play, the
    /// default pedal and no further model.
    fn default() -> (cfg: Config)
        ensures
            cfg.paths.default_open_dir@
                == "/run/user/1000/gvfs/smb-share:server=100.99.88.66,share=daten/diktat"@,
            cfg.application == (ApplicationConfig {
                rewind_seconds: 3,
                forward_seconds: 3,
                hold_rewind_interval_ms: 500,
                play_start_rewind_seconds: 1,
            }),
            cfg.input.device_path.is_none(),
            cfg.input.selected_model.is_none(),
            cfg.pedal_defaults == (PedalDefaults {
                vendor_id: DEFAULT_VENDOR_ID,
                product_id: DEFAULT_PRODUCT_ID,
                left_code: DEFAULT_LEFT_CODE,
                middle_code: DEFAULT_MIDDLE_CODE,
                right_code: DEFAULT_RIGHT_CODE,
            }),
            cfg.pedals@.len() == 0,
    {
        Config {
            paths: PathsConfig {
                default_open_dir: String::from_str(
                    "/run/user/1000/gvfs/smb-share:server=100.99.88.66,share=daten/diktat",
                ),
            },
            application: ApplicationConfig {
                rewind_seconds: 3,
                forward_seconds: 3,
                hold_rewind_interval_ms: 500,
                play_start_rewind_seconds: 1,
            },
            input: InputConfig { device_path: None, selected_model: None },
            pedal_defaults: PedalDefaults {
                vendor_id: DEFAULT_VENDOR_ID,
                product_id: DEFAULT_PRODUCT_ID,
                left_code: DEFAULT_LEFT_CODE,
                middle_code: DEFAULT_MIDDLE_CODE,
                right_code: DEFAULT_RIGHT_CODE,
            },
            pedals: Vec::new(),
        }
    }
}

} // verus!
