//! The persisted settings record and how the control surface rewrites it:
//! parsing of the textual parameters, their defaults, and the lower bounds
//! the refresh interval is clamped to.

use vstd::prelude::*;

verus! {

use crate::strutil::{is_numeral, numeral_val, parse_u16, parse_u32, str_eq};

/// The lowest refresh interval the settings accept, in milliseconds.
pub const MIN_REFRESH_MS: u16 = 50;

/// The lowest capture interval the dedicated capture-interval setter
/// accepts, in milliseconds.
pub const MIN_CAPTURE_MS: u16 = 10;

/// The process settings: the advertised address and the capture and
/// display preferences. Read by the broadcaster each sweep, rewritten by
/// the control surface.
#[derive(Clone, Debug)]
pub struct ConfigHandler {
    pub local_ip: String,
    pub auto_hide: bool,
    pub max_fps: bool,
    pub refresh_rate: u16,
    pub cpu_displays: bool,
    pub multiple_displays: bool,
    pub auto_start: bool,
    pub calibrated: bool,
    pub log_enabled: bool,
}

/// A bundle of diagnostic state, serialized by the caller when saving a
/// debug report.
#[derive(Clone, Debug)]
pub struct DebugSave {
    pub instrument_list: String,
    pub config: String,
    pub status: String,
}

impl ConfigHandler {
    /// The default settings a fresh installation starts with, advertising
    /// the given local address.
    pub fn init(local_ip: String) -> (r: ConfigHandler)
        ensures
            r.local_ip == local_ip,
            r.auto_hide == true,
            r.max_fps == true,
            r.refresh_rate == 200,
            r.cpu_displays == false,
            r.multiple_displays == true,
            r.auto_start == false,
            r.calibrated == false,
            r.log_enabled == false,
    {
        ConfigHandler {
            local_ip,
            auto_hide: true,
            max_fps: true,
            refresh_rate: 200,
            cpu_displays: false,
            multiple_displays: true,
            auto_start: false,
            calibrated: false,
            log_enabled: false,
        }
    }

    /// Adopts the preference fields of a loaded settings record, keeping
    /// the advertised address of this one.
    pub fn apply_loaded(&mut self, loaded: &ConfigHandler)
        ensures
            final(self).local_ip == old(self).local_ip,
            final(self).auto_hide == loaded.auto_hide,
            final(self).refresh_rate == loaded.refresh_rate,
            final(self).max_fps == loaded.max_fps,
            final(self).auto_start == loaded.auto_start,
            final(self).multiple_displays == loaded.multiple_displays,
            final(self).cpu_displays == loaded.cpu_displays,
            final(self).calibrated == loaded.calibrated,
            final(self).log_enabled == loaded.log_enabled,
    {
        self.auto_hide = loaded.auto_hide;
        self.refresh_rate = loaded.refresh_rate;
        self.max_fps = loaded.max_fps;
        self.auto_start = loaded.auto_start;
        self.multiple_displays = loaded.multiple_displays;
        self.cpu_displays = loaded.cpu_displays;
        self.calibrated = loaded.calibrated;
        self.log_enabled = loaded.log_enabled;
    }

    /// Turns logging on, as the debug-report request does.
    pub fn enable_logging(&mut self)
        ensures
            *final(self) == (ConfigHandler { log_enabled: true, ..*old(self) }),
    {
        self.log_enabled = true;
    }

    /// Whether the data folder beside the executable exists on disk.
    pub fn is_data_created(exe_dir: &str) -> bool {
        let folder: String = crate::paths::get_data_folder(exe_dir);
        crate::paths::path_exists(folder.as_str())
    }

    /// Whether the settings file beside the executable exists on disk.
    pub fn is_config_created(exe_dir: &str) -> bool {
        let file: String = crate::paths::get_config_file(exe_dir);
        crate::paths::path_exists(file.as_str())
    }
}

/// What a textual boolean parameter means: the two literals decide, any
/// other text and an absent parameter fall back to the default.
pub open spec fn spec_bool_param(s: Option<Seq<char>>, default: bool) -> bool {
    match s {
        None => default,
        Some(t) => if t == "true"@ {
            true
        } else if t == "false"@ {
            false
        } else {
            default
        },
    }
}

/// Parses a textual boolean parameter with a default.
pub fn parse_bool_or(s: Option<&str>, default: bool) -> (r: bool)
    ensures
        r == spec_bool_param(match s {
            Some(t) => Some(t@),
            None => None,
        }, default),
{
    proof {
        reveal_strlit("true");
        reveal_strlit("false");
        assert("true"@.len() == 4);
        assert("false"@.len() == 5);
    }
    match s {
        None => default,
        Some(t) => {
            if str_eq(t, "true") {
                true
            } else if str_eq(t, "false") {
                false
            } else {
                default
            }
        },
    }
}

/// What a textual sixteen-bit parameter means: its decimal value when it
/// is a fitting numeral, the default otherwise or when absent.
pub open spec fn spec_u16_param(s: Option<Seq<char>>, default: u16) -> u16 {
    match s {
        None => default,
        Some(t) => if is_numeral(t) && numeral_val(t) <= u16::MAX {
            numeral_val(t) as u16
        } else {
            default
        },
    }
}

/// Parses a textual sixteen-bit parameter with a default.
pub fn parse_u16_or(s: Option<&str>, default: u16) -> (r: u16)
    ensures
        r == spec_u16_param(match s {
            Some(t) => Some(t@),
            None => None,
        }, default),
{
    match s {
        None => default,
        Some(t) => match parse_u16(t) {
            Some(v) => v,
            None => default,
        },
    }
}

/// The refresh interval after clamping: never below the minimum.
pub open spec fn spec_clamp_refresh(r: u16) -> u16 {
    if r < MIN_REFRESH_MS {
        MIN_REFRESH_MS
    } else {
        r
    }
}

/// Rewrites the settings from the textual parameters of one settings
/// request: every preference gets its parameter's value or its default,
/// and the refresh interval is clamped to the minimum. The advertised
/// address, the calibration flag and the logging flag are untouched.
pub fn apply_settings_params(
    conf: &mut ConfigHandler,
    refresh: Option<&str>,
    autohide: Option<&str>,
    maxfps: Option<&str>,
    multiple: Option<&str>,
    alternate: Option<&str>,
    autostart: Option<&str>,
)
    ensures
        final(conf).refresh_rate == spec_clamp_refresh(spec_u16_param(match refresh {
            Some(t) => Some(t@),
            None => None,
        }, 200)),
        final(conf).auto_hide == spec_bool_param(match autohide {
            Some(t) => Some(t@),
            None => None,
        }, true),
        final(conf).max_fps == spec_bool_param(match maxfps {
            Some(t) => Some(t@),
            None => None,
        }, true),
        final(conf).multiple_displays == spec_bool_param(match multiple {
            Some(t) => Some(t@),
            None => None,
        }, true),
        final(conf).cpu_displays == spec_bool_param(match alternate {
            Some(t) => Some(t@),
            None => None,
        }, false),
        final(conf).auto_start == spec_bool_param(match autostart {
            Some(t) => Some(t@),
            None => None,
        }, false),
        final(conf).local_ip == old(conf).local_ip,
        final(conf).calibrated == old(conf).calibrated,
        final(conf).log_enabled == old(conf).log_enabled,
{
    let mut refresh_ms: u16 = parse_u16_or(refresh, 200);
    if refresh_ms < MIN_REFRESH_MS {
        refresh_ms = MIN_REFRESH_MS;
    }
    conf.refresh_rate = refresh_ms;
    conf.auto_hide = parse_bool_or(autohide, true);
    conf.max_fps = parse_bool_or(maxfps, true);
    conf.multiple_displays = parse_bool_or(multiple, true);
    conf.cpu_displays = parse_bool_or(alternate, false);
    conf.auto_start = parse_bool_or(autostart, false);
}

/// Rewrites the capture interval from its dedicated request: the
/// parameter's value truncated to sixteen bits (zero when absent or not a
/// numeral), then clamped to the minimum capture interval.
pub fn apply_min_capture_ms(conf: &mut ConfigHandler, ms: Option<&str>)
    ensures
        ({
            let parsed: int = match ms {
                None => 0,
                Some(t) => if is_numeral(t@) && numeral_val(t@) <= u32::MAX {
                    numeral_val(t@)
                } else {
                    0
                },
            };
            let low: int = parsed % 0x10000;
            final(conf).refresh_rate == (if low < MIN_CAPTURE_MS {
                MIN_CAPTURE_MS as int
            } else {
                low
            })
        }),
        final(conf).local_ip == old(conf).local_ip,
        final(conf).auto_hide == old(conf).auto_hide,
        final(conf).max_fps == old(conf).max_fps,
        final(conf).multiple_displays == old(conf).multiple_displays,
        final(conf).cpu_displays == old(conf).cpu_displays,
        final(conf).auto_start == old(conf).auto_start,
        final(conf).calibrated == old(conf).calibrated,
        final(conf).log_enabled == old(conf).log_enabled,
{
    let parsed: u32 = match ms {
        None => 0,
        Some(t) => match parse_u32(t) {
            Some(v) => v,
            None => 0,
        },
    };
    let mut low: u16 = (parsed % 0x10000) as u16;
    if low < MIN_CAPTURE_MS {
        low = MIN_CAPTURE_MS;
    }
    conf.refresh_rate = low;
}

} // verus!
