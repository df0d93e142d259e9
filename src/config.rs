use vstd::prelude::*;
use vstd::string::*;
use crate::recorder::{join_path, path_join};

verus! {

/// The settings the pipeline runs with, fixed before it starts.
pub struct Config {
    /// Path of the input device that carries the button.
    pub mouse_device: String,
    /// Audio input device name, or `default` for the system default.
    pub audio_device: String,
    /// Directory that finished recordings are written to.
    pub output_dir: String,
    /// Transcription endpoint URL.
    pub whisper_url: String,
    /// Notification endpoint URL.
    pub ntfy_topic: String,
}

/// Values that replace those of the configuration file, where present.
pub struct ConfigOverrides {
    pub mouse_device: Option<String>,
    pub audio_device: Option<String>,
    pub output_dir: Option<String>,
    pub whisper_url: Option<String>,
    pub ntfy_topic: Option<String>,
}

/// The value of a setting after an optional override.
pub open spec fn overridden(base: String, over: Option<String>) -> Seq<char> {
    match over {
        Some(v) => v@,
        None => base@,
    }
}

/// The command-line flag that names the configuration file.
pub open spec fn config_flag() -> Seq<char> {
    "--config"@
}

/// `i` is the first position of the configuration flag among the arguments.
pub open spec fn is_first_flag(args: Seq<String>, i: int) -> bool {
    0 <= i < args.len() && args[i]@ == config_flag() && forall|j: int|
        0 <= j < i ==> #[trigger] args[j]@ != config_flag()
}

/// The configuration file path: the argument after the first `--config`
/// where one follows it, else `voice-memo/config.toml` under the user's
/// configuration directory, or under `.` where there is none.
pub open spec fn config_path_of(args: Seq<String>, config_dir: Option<String>) -> Seq<char> {
    if exists|i: int| #[trigger] is_first_flag(args, i) && i + 1 < args.len() {
        args[(choose|i: int| #[trigger] is_first_flag(args, i) && i + 1 < args.len()) + 1]@
    } else {
        let base = match config_dir {
            Some(d) => d@,
            None => "."@,
        };
        join_path(join_path(base, "voice-memo"@), "config.toml"@)
    }
}

impl Config {
    /// This configuration with each present override in place of its setting.
    pub fn with_overrides(self, o: ConfigOverrides) -> (r: Config)
        ensures
            r.mouse_device@ == overridden(self.mouse_device, o.mouse_device),
            r.audio_device@ == overridden(self.audio_device, o.audio_device),
            r.output_dir@ == overridden(self.output_dir, o.output_dir),
            r.whisper_url@ == overridden(self.whisper_url, o.whisper_url),
            r.ntfy_topic@ == overridden(self.ntfy_topic, o.ntfy_topic),
    {
        Config {
            mouse_device: match o.mouse_device {
                Some(v) => v,
                None => self.mouse_device,
            },
            audio_device: match o.audio_device {
                Some(v) => v,
                None => self.audio_device,
            },
            output_dir: match o.output_dir {
                Some(v) => v,
                None => self.output_dir,
            },
            whisper_url: match o.whisper_url {
                Some(v) => v,
                None => self.whisper_url,
            },
            ntfy_topic: match o.ntfy_topic {
                Some(v) => v,
                None => self.ntfy_topic,
            },
        }
    }

    /// Where to read the configuration from, given the command-line
    /// arguments and the user's configuration directory, if any.
    pub fn config_path(args: &Vec<String>, config_dir: Option<String>) -> (r: String)
        ensures
            r@ == config_path_of(args@, config_dir),
    {
        let flag = String::from_str("--config");
        let mut i: usize = 0;
        while i < args.len()
            invariant
                0 <= i <= args@.len(),
                flag@ == config_flag(),
                forall|j: int| 0 <= j < i ==> #[trigger] args@[j]@ != config_flag(),
            decreases args@.len() - i,
        {
            if args[i] == flag {
                assert(is_first_flag(args@, i as int));
                assert forall|k: int| #[trigger] is_first_flag(args@, k) implies k == i by {
                    if k < i {
                        assert(args@[k]@ != config_flag());
                    } else if k > i {
                        assert(args@[i as int]@ != config_flag());
                    }
                }
                if i + 1 < args.len() {
                    return args[i + 1].clone();
                } else {
                    return Self::default_config_path(config_dir);
                }
            }
            i = i + 1;
        }
        assert forall|k: int| !#[trigger] is_first_flag(args@, k) by {
            if 0 <= k < args@.len() {
                assert(args@[k]@ != config_flag());
            }
        }
        Self::default_config_path(config_dir)
    }

    fn default_config_path(config_dir: Option<String>) -> (r: String)
        ensures
            r@ == join_path(
                join_path(
                    match config_dir {
                        Some(d) => d@,
                        None => "."@,
                    },
                    "voice-memo"@,
                ),
                "config.toml"@,
            ),
    {
        let base = match config_dir {
            Some(d) => d,
            None => String::from_str("."),
        };
        let dir = path_join(base.as_str(), "voice-memo");
        path_join(dir.as_str(), "config.toml")
    }
}

} // verus!
