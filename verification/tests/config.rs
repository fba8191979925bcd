use whisper_input::config::{normalize_threads, Cli, Config, ConfigError};
use whisper_input::hotkey::CommandKeySide;
use whisper_input::model::ModelSize;

fn valid_cli() -> Cli {
    let mut cli = Cli::defaults(String::from("/tmp/whisper_models"));
    cli.model_size = ModelSize::Small;
    cli.threads = Some(2);
    cli
}

#[test]
fn normalize_threads_rejects_zero() {
    let err = normalize_threads(Some(0), Some(8)).expect_err("zero threads should fail");
    assert!(err.message().contains("at least 1"));
}

#[test]
fn cli_default_model_size_is_base() {
    let cli = Cli::defaults(String::from("/tmp/whisper_models"));
    assert_eq!(cli.model_size, ModelSize::Base);
}

#[test]
fn from_cli_maps_fields() {
    let cli = valid_cli();
    let config = Config::from_cli(cli, Some(8)).expect("cli should parse");

    assert_eq!(config.model_size, ModelSize::Small);
    assert_eq!(config.model_dir, String::from("/tmp/whisper_models"));
    assert_eq!(config.threads, 2);
    assert!(config.use_gpu);
    assert!(config.flash_attn);
    assert!(config.auto_paste);
}

#[test]
fn from_cli_allows_disabling_gpu_features() {
    let mut cli = Cli::defaults(String::from("/tmp/whisper_models"));
    cli.model_size = ModelSize::Small;
    cli.no_gpu = true;
    cli.no_flash_attn = true;
    let config = Config::from_cli(cli, Some(8)).expect("cli should parse");

    assert!(!config.use_gpu);
    assert!(!config.flash_attn);
}

#[test]
fn defaults_match_documented_values() {
    let cli = Cli::defaults(String::from("/tmp/m"));
    assert_eq!(cli.max_record_seconds, 45);
    assert_eq!(cli.hotkey_max_tap_ms, 450);
    assert_eq!(cli.command_key, CommandKeySide::Right);
    assert!(!cli.no_auto_paste);
}

#[test]
fn each_invalid_value_has_its_error() {
    let mut cli = valid_cli();
    cli.max_record_seconds = 0;
    assert_eq!(Config::from_cli(cli, Some(8)).unwrap_err(), ConfigError::MaxRecordSecondsZero);

    let mut cli = valid_cli();
    cli.hotkey_max_tap_ms = 0;
    assert_eq!(Config::from_cli(cli, Some(8)).unwrap_err(), ConfigError::HotkeyMaxTapZero);

    let mut cli = valid_cli();
    cli.model_dir = String::new();
    assert_eq!(Config::from_cli(cli, Some(8)).unwrap_err(), ConfigError::ModelDirEmpty);

    let mut cli = valid_cli();
    cli.threads = Some(0);
    assert_eq!(Config::from_cli(cli, Some(8)).unwrap_err(), ConfigError::ThreadsZero);

    let mut cli = valid_cli();
    cli.threads = Some(3_000_000_000);
    assert_eq!(Config::from_cli(cli, Some(8)).unwrap_err(), ConfigError::ThreadsTooLarge);
    assert_eq!(ConfigError::ThreadsTooLarge.message(), "thread count is too large");
}

#[test]
fn thread_count_falls_back_to_parallelism_then_four() {
    assert_eq!(normalize_threads(None, Some(6)), Ok(6));
    assert_eq!(normalize_threads(None, None), Ok(4));
    assert_eq!(normalize_threads(Some(3), Some(6)), Ok(3));
}

#[test]
fn flags_invert_into_config() {
    let mut cli = valid_cli();
    cli.no_auto_paste = true;
    cli.command_key = CommandKeySide::Left;
    let config = Config::from_cli(cli, None).unwrap();
    assert!(!config.auto_paste);
    assert_eq!(config.command_key, CommandKeySide::Left);
    assert_eq!(config.max_record_seconds, 45);
}
