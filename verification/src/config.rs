//! Command-line configuration and its validation.

use vstd::prelude::*;
use crate::hotkey::CommandKeySide;
use crate::model::ModelSize;

verus! {

/// Default length limit of one recording window, in seconds.
pub const DEFAULT_MAX_RECORD_SECONDS: u64 = 45;
/// Default longest command-key press that still counts as a tap, in milliseconds.
pub const DEFAULT_HOTKEY_MAX_TAP_MS: u64 = 450;
/// Default length of a one-shot tool recording, in seconds.
pub const DEFAULT_TOOL_RECORD_SECONDS: u64 = 5;
/// Thread count used when the machine's parallelism is unknown.
pub const FALLBACK_THREADS: usize = 4;

/// Command-line arguments, as parsed.
#[derive(Debug)]
pub struct Cli {
    /// Whisper model size preset to use.
    pub model_size: ModelSize,
    /// Directory where Whisper model files are cached.
    pub model_dir: String,
    /// CPU threads used by Whisper.
    pub threads: Option<usize>,
    /// Maximum length in seconds for one recording window.
    pub max_record_seconds: u64,
    /// Maximum press duration in milliseconds for a command-key tap.
    pub hotkey_max_tap_ms: u64,
    /// Which command key triggers the tap hotkey.
    pub command_key: CommandKeySide,
    /// Disable GPU acceleration and force CPU-only inference.
    pub no_gpu: bool,
    /// Disable Flash Attention in Whisper context initialization.
    pub no_flash_attn: bool,
    /// Do not auto-paste after transcription; copy to clipboard only.
    pub no_auto_paste: bool,
    /// Record once, print the transcript and exit.
    pub tool_transcribe_once: bool,
    /// Recording length of the one-shot tool, in seconds.
    pub tool_record_seconds: u64,
    /// Text that biases the one-shot tool's decoder.
    pub tool_initial_prompt: Option<String>,
}

impl Cli {
    /// The arguments of a command line that sets nothing, with the model
    /// cache under `model_dir`.
    pub fn defaults(model_dir: String) -> (cli: Cli)
        ensures
            cli.model_size == ModelSize::Base,
            cli.model_dir == model_dir,
            cli.threads is None,
            cli.max_record_seconds == DEFAULT_MAX_RECORD_SECONDS,
            cli.hotkey_max_tap_ms == DEFAULT_HOTKEY_MAX_TAP_MS,
            cli.command_key == CommandKeySide::Right,
            !cli.no_gpu,
            !cli.no_flash_attn,
            !cli.no_auto_paste,
            !cli.tool_transcribe_once,
            cli.tool_record_seconds == DEFAULT_TOOL_RECORD_SECONDS,
            cli.tool_initial_prompt is None,
    {
        Cli {
            model_size: ModelSize::Base,
            model_dir,
            threads: None,
            max_record_seconds: DEFAULT_MAX_RECORD_SECONDS,
            hotkey_max_tap_ms: DEFAULT_HOTKEY_MAX_TAP_MS,
            command_key: CommandKeySide::Right,
            no_gpu: false,
            no_flash_attn: false,
            no_auto_paste: false,
            tool_transcribe_once: false,
            tool_record_seconds: DEFAULT_TOOL_RECORD_SECONDS,
            tool_initial_prompt: None,
        }
    }
}

/// Runtime config resolved from the command line.
#[derive(Debug)]
pub struct Config {
    pub model_size: ModelSize,
    pub model_dir: String,
    pub threads: i32,
    pub max_record_seconds: u64,
    pub hotkey_max_tap_ms: u64,
    pub command_key: CommandKeySide,
    pub use_gpu: bool,
    pub flash_attn: bool,
    pub auto_paste: bool,
}

/// Why a command line cannot be used.
#[derive(Debug, Clone, Copy, PartialEq, Eq, Structural)]
pub enum ConfigError {
    MaxRecordSecondsZero,
    HotkeyMaxTapZero,
    ModelDirEmpty,
    ThreadsZero,
    ThreadsTooLarge,
}

/// The message shown for a configuration error.
pub open spec fn config_error_message(e: ConfigError) -> Seq<char> {
    match e {
        ConfigError::MaxRecordSecondsZero => "--max-record-seconds must be at least 1"@,
        ConfigError::HotkeyMaxTapZero => "--hotkey-max-tap-ms must be at least 1"@,
        ConfigError::ModelDirEmpty => "--model-dir must not be empty"@,
        ConfigError::ThreadsZero => "--threads must be at least 1"@,
        ConfigError::ThreadsTooLarge => "thread count is too large"@,
    }
}

impl ConfigError {
    /// Returns the user-facing message of the error.
    pub fn message(&self) -> (m: &'static str)
        ensures
            m@ == config_error_message(*self),
    {
        match self {
            ConfigError::MaxRecordSecondsZero => "--max-record-seconds must be at least 1",
            ConfigError::HotkeyMaxTapZero => "--hotkey-max-tap-ms must be at least 1",
            ConfigError::ModelDirEmpty => "--model-dir must not be empty",
            ConfigError::ThreadsZero => "--threads must be at least 1",
            ConfigError::ThreadsTooLarge => "thread count is too large",
        }
    }
}

/// The thread count asked for: the explicit request, else the machine's
/// parallelism, else the fallback.
pub open spec fn chosen_threads(input: Option<usize>, available: Option<usize>) -> usize {
    match input {
        Some(n) => n,
        None => match available {
            Some(n) => n,
            None => FALLBACK_THREADS,
        },
    }
}

/// Resolves thread count with a robust default for local inference.
pub fn normalize_threads(input: Option<usize>, available: Option<usize>) -> (r: Result<i32, ConfigError>)
    ensures
        chosen_threads(input, available) == 0 ==> r == Err::<i32, ConfigError>(ConfigError::ThreadsZero),
        chosen_threads(input, available) > i32::MAX ==> r == Err::<i32, ConfigError>(ConfigError::ThreadsTooLarge),
        0 < chosen_threads(input, available) <= i32::MAX ==> r == Ok::<i32, ConfigError>(chosen_threads(input, available) as i32),
{
    let chosen = match input {
        Some(n) => n,
        None => match available {
            Some(n) => n,
            None => FALLBACK_THREADS,
        },
    };
    if chosen == 0 {
        return Err(ConfigError::ThreadsZero);
    }
    if chosen > 2147483647usize {
        return Err(ConfigError::ThreadsTooLarge);
    }
    Ok(chosen as i32)
}

/// The error a command line is refused with, checked in order, if any.
pub open spec fn cli_error(cli: Cli, available: Option<usize>) -> Option<ConfigError> {
    if cli.max_record_seconds == 0 {
        Some(ConfigError::MaxRecordSecondsZero)
    } else if cli.hotkey_max_tap_ms == 0 {
        Some(ConfigError::HotkeyMaxTapZero)
    } else if cli.model_dir@.len() == 0 {
        Some(ConfigError::ModelDirEmpty)
    } else if chosen_threads(cli.threads, available) == 0 {
        Some(ConfigError::ThreadsZero)
    } else if chosen_threads(cli.threads, available) > i32::MAX {
        Some(ConfigError::ThreadsTooLarge)
    } else {
        None
    }
}

impl Config {
    /// Validates command-line values and produces a normalized runtime
    /// config; `available` is the machine's parallelism, if known.
    pub fn from_cli(cli: Cli, available: Option<usize>) -> (r: Result<Config, ConfigError>)
        ensures
            match cli_error(cli, available) {
                Some(e) => r == Err::<Config, ConfigError>(e),
                None => r matches Ok(c) && {
                    &&& c.model_size == cli.model_size
                    &&& c.model_dir == cli.model_dir
                    &&& c.threads == chosen_threads(cli.threads, available)
                    &&& c.max_record_seconds == cli.max_record_seconds
                    &&& c.hotkey_max_tap_ms == cli.hotkey_max_tap_ms
                    &&& c.command_key == cli.command_key
                    &&& c.use_gpu == !cli.no_gpu
                    &&& c.flash_attn == !cli.no_flash_attn
                    &&& c.auto_paste == !cli.no_auto_paste
                },
            },
    {
        if cli.max_record_seconds == 0 {
            return Err(ConfigError::MaxRecordSecondsZero);
        }
        if cli.hotkey_max_tap_ms == 0 {
            return Err(ConfigError::HotkeyMaxTapZero);
        }
        if cli.model_dir.as_str().unicode_len() == 0 {
            return Err(ConfigError::ModelDirEmpty);
        }
        let threads = match normalize_threads(cli.threads, available) {
            Ok(t) => t,
            Err(e) => {
                return Err(e);
            },
        };
        Ok(Config {
            model_size: cli.model_size,
            model_dir: cli.model_dir,
            threads,
            max_record_seconds: cli.max_record_seconds,
            hotkey_max_tap_ms: cli.hotkey_max_tap_ms,
            command_key: cli.command_key,
            use_gpu: !cli.no_gpu,
            flash_attn: !cli.no_flash_attn,
            auto_paste: !cli.no_auto_paste,
        })
    }
}

} // verus!
