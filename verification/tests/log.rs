use std::path::PathBuf;

use fazuh_common::log::cli::resolve_ansi;
use fazuh_common::log::cli::ColorMode;
use fazuh_common::log::plan_logging;
use fazuh_common::log::FileAppenderConfigBuilderError;
use fazuh_common::log::LogConfigBuilderError;
use fazuh_common::log::FileAppenderConfig;
use fazuh_common::log::FileAppenderConfigBuilder;
use fazuh_common::log::Level;
use fazuh_common::log::LogConfigBuilder;
use fazuh_common::log::Rotation;
use fazuh_common::log::Verbosity;
use fazuh_common::log::DEFAULT_MAX_FILES;

fn file_config(dir: &str) -> FileAppenderConfig {
    FileAppenderConfigBuilder::default()
        .dir(PathBuf::from(dir))
        .prefix("test_log".to_string())
        .suffix("log".to_string())
        .max_files(3)
        .build()
        .unwrap()
}

#[test]
fn verbosity_from_flag_count() {
    assert_eq!(Verbosity::from(0u8).level(), Level::Warn);
    assert_eq!(Verbosity::from(1u8).level(), Level::Info);
    assert_eq!(Verbosity::from(2u8).level(), Level::Debug);
    assert_eq!(Verbosity::from(3u8).level(), Level::Trace);
    assert_eq!(Verbosity::from(255u8).level(), Level::Trace);
}

#[test]
fn verbosity_new_and_from_level_keep_the_level() {
    for level in [Level::Error, Level::Warn, Level::Info, Level::Debug, Level::Trace] {
        assert_eq!(Verbosity::new(level).level(), level);
        assert_eq!(Verbosity::from(level).level(), level);
        assert_eq!(*Verbosity::new(level), level);
    }
}

#[test]
fn verbosity_as_ref_names_the_level() {
    let v = Verbosity::from(1u8);
    let s: &str = v.as_ref();
    assert_eq!(s, "INFO");
    let names: Vec<&str> = [Level::Trace, Level::Debug, Level::Info, Level::Warn, Level::Error]
        .iter()
        .map(|l| l.as_str())
        .collect();
    assert_eq!(names, vec!["TRACE", "DEBUG", "INFO", "WARN", "ERROR"]);
}

#[test]
fn levels_are_ordered_by_verbosity() {
    assert!(Level::Error < Level::Warn);
    assert!(Level::Warn < Level::Info);
    assert!(Level::Info < Level::Debug);
    assert!(Level::Debug < Level::Trace);
    assert!(Verbosity::from(0u8) < Verbosity::from(1u8));
    assert!(Verbosity::from(2u8) < Verbosity::from(9u8));
}

#[test]
fn more_flags_never_less_verbose() {
    for a in 0u8..=10 {
        for b in a..=10 {
            assert!(Verbosity::from(a) <= Verbosity::from(b));
        }
    }
}

#[test]
fn log_config_builder_requires_verbosity() {
    let res = LogConfigBuilder::default().ansi(true).build();
    assert!(matches!(res, Err(LogConfigBuilderError::UninitializedField("verbosity"))));
    let res = LogConfigBuilder::default().build();
    assert!(matches!(res, Err(LogConfigBuilderError::UninitializedField("verbosity"))));
}

#[test]
fn log_config_builder_requires_ansi() {
    let res = LogConfigBuilder::default().verbosity(2u8).build();
    assert!(matches!(res, Err(LogConfigBuilderError::UninitializedField("ansi"))));
}

#[test]
fn log_config_builder_reads_back_settings() {
    let config = LogConfigBuilder::default()
        .verbosity(1u8)
        .ansi(true)
        .build()
        .unwrap();
    assert_eq!(config.verbosity().level(), Level::Info);
    assert!(config.ansi());
    assert!(config.file_appender().is_none());

    let mut builder = LogConfigBuilder::default();
    builder.verbosity(Level::Error);
    builder.ansi(false);
    builder.verbosity(Verbosity::from(2u8));
    builder.file_appender(file_config("/tmp/logs"));
    let config = builder.build().unwrap();
    assert_eq!(config.verbosity().level(), Level::Debug);
    assert!(!config.ansi());
    let file = config.file_appender().as_ref().unwrap();
    assert_eq!(file.dir, PathBuf::from("/tmp/logs"));
    assert_eq!(file.prefix, "test_log");
    assert_eq!(file.suffix, "log");
    assert_eq!(file.max_files, 3);
    // building does not consume the builder
    assert!(builder.build().is_ok());
}

#[test]
fn file_appender_builder_required_fields_in_order() {
    let res = FileAppenderConfigBuilder::default().build();
    assert!(matches!(res, Err(FileAppenderConfigBuilderError::UninitializedField("dir"))));
    let res = FileAppenderConfigBuilder::default()
        .dir(PathBuf::from("x"))
        .suffix("log".to_string())
        .build();
    assert!(matches!(res, Err(FileAppenderConfigBuilderError::UninitializedField("prefix"))));
    let res = FileAppenderConfigBuilder::default()
        .dir(PathBuf::from("x"))
        .prefix("p".to_string())
        .build();
    assert!(matches!(res, Err(FileAppenderConfigBuilderError::UninitializedField("suffix"))));
}

#[test]
fn file_appender_max_files_defaults_to_seven() {
    let config = FileAppenderConfigBuilder::default()
        .dir(PathBuf::from("/var/log/my-app"))
        .prefix("my-app".to_string())
        .suffix("log".to_string())
        .build()
        .unwrap();
    assert_eq!(config.max_files, 7);
    assert_eq!(DEFAULT_MAX_FILES, 7);
    assert_eq!(config.dir, PathBuf::from("/var/log/my-app"));
}

#[test]
fn file_appender_config_clone_keeps_fields() {
    let config = file_config("/srv/app/logs");
    let copy = config.clone();
    assert_eq!(copy.dir, PathBuf::from("/srv/app/logs"));
    assert_eq!(copy.prefix, config.prefix);
    assert_eq!(copy.suffix, config.suffix);
    assert_eq!(copy.max_files, config.max_files);
}

#[test]
fn plan_uses_verbosity_without_rust_log() {
    let config = LogConfigBuilder::default()
        .verbosity(1u8)
        .ansi(true)
        .build()
        .unwrap();
    let plan = plan_logging(config, None);
    assert_eq!(plan.filter_directive, "INFO");
    assert!(plan.stdout_ansi);
    assert!(plan.file.is_none());
    assert!(!plan.file_ansi);
    assert_eq!(plan.file_rotation, Rotation::Daily);
}

#[test]
fn plan_prefers_rust_log() {
    let config = LogConfigBuilder::default()
        .verbosity(0u8)
        .ansi(false)
        .file_appender(file_config("/tmp/app"))
        .build()
        .unwrap();
    let plan = plan_logging(config, Some("my_crate=trace".to_string()));
    assert_eq!(plan.filter_directive, "my_crate=trace");
    assert!(!plan.stdout_ansi);
    assert!(!plan.file_ansi);
    let file = plan.file.unwrap();
    assert_eq!(file.dir, PathBuf::from("/tmp/app"));
    assert_eq!(file.max_files, 3);
}

#[test]
fn plan_names_each_level() {
    for (count, name) in [(0u8, "WARN"), (1, "INFO"), (2, "DEBUG"), (3, "TRACE")] {
        let config = LogConfigBuilder::default()
            .verbosity(count)
            .ansi(true)
            .build()
            .unwrap();
        assert_eq!(plan_logging(config, None).filter_directive, name);
    }
}

#[test]
fn color_mode_defaults_to_auto() {
    assert_eq!(ColorMode::default(), ColorMode::Auto);
}

#[test]
fn color_never_is_plain() {
    assert!(!resolve_ansi(ColorMode::Never, true, false, None));
    assert!(!resolve_ansi(ColorMode::Never, false, false, Some("1".to_string())));
}

#[test]
fn color_always_without_overrides() {
    assert!(resolve_ansi(ColorMode::Always, false, false, None));
    assert!(resolve_ansi(ColorMode::Always, false, false, Some("1".to_string())));
}

#[test]
fn color_auto_follows_terminal() {
    assert!(resolve_ansi(ColorMode::Auto, true, false, None));
    assert!(!resolve_ansi(ColorMode::Auto, false, false, None));
}

#[test]
fn color_environment_overrides() {
    assert!(!resolve_ansi(ColorMode::Always, true, true, None));
    assert!(!resolve_ansi(ColorMode::Always, true, false, Some("0".to_string())));
    assert!(!resolve_ansi(ColorMode::Auto, true, false, Some("0".to_string())));
    assert!(resolve_ansi(ColorMode::Auto, true, false, Some("00".to_string())));
    assert!(resolve_ansi(ColorMode::Always, true, false, Some(String::new())));
}

#[test]
fn builders_clone_their_settings() {
    let mut builder = FileAppenderConfigBuilder::default();
    builder.dir(PathBuf::from("/logs")).prefix("app".to_string());
    let mut copy = builder.clone();
    copy.suffix("txt".to_string());
    assert!(builder.build().is_err());
    let config = copy.build().unwrap();
    assert_eq!(config.dir, PathBuf::from("/logs"));
    assert_eq!(config.prefix, "app");
    assert_eq!(config.suffix, "txt");

    let mut log_builder = LogConfigBuilder::default();
    log_builder.verbosity(3u8).ansi(true);
    let log_config = log_builder.clone().build().unwrap();
    assert_eq!(log_config.verbosity().level(), Level::Trace);
    assert!(log_config.clone().ansi());
}

#[test]
fn verbosities_with_one_level_are_equal() {
    assert_eq!(Verbosity::from(3u8), Verbosity::from(255u8));
    assert_eq!(Verbosity::from(1u8), Verbosity::new(Level::Info));
}

#[test]
fn file_appender_set_directly_reaches_the_plan() {
    let config = LogConfigBuilder::default()
        .verbosity(Verbosity::from(1u8))
        .ansi(false)
        .file_appender(file_config("/tmp/test_logs"))
        .build()
        .unwrap();
    assert_eq!(config.verbosity(), Verbosity::new(Level::Info));
    let plan = plan_logging(config, None);
    assert_eq!(plan.filter_directive, "INFO");
    let file = plan.file.unwrap();
    assert_eq!(file.dir, PathBuf::from("/tmp/test_logs"));
    assert_eq!(file.prefix, "test_log");
    assert_eq!(file.suffix, "log");
    assert_eq!(file.max_files, 3);
    assert_eq!(plan.file_rotation, Rotation::Daily);
    assert!(!plan.file_ansi);
}
