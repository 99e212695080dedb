use pomosh::config::ConfigError;
use pomosh::config::DurationType;
use pomosh::config::SessionConfig;
use pomosh::config::TextStyle;
use pomosh::config::MAX_MINUTES;
use pomosh::config::MIN_MINUTES;

#[test]
fn new_config_has_the_default_settings() {
    let config = SessionConfig::new();
    assert_eq!(config.duration(DurationType::Focus), 25);
    assert_eq!(config.duration(DurationType::Break), 5);
    assert_eq!(config.duration(DurationType::LongBreak), 10);
    assert!(!config.mute());
    assert_eq!(config.style(), TextStyle::Univers);
}

#[test]
fn durations_are_bounded_by_one_and_a_hundred() {
    assert_eq!(MIN_MINUTES, 1);
    assert_eq!(MAX_MINUTES, 100);
}

#[test]
fn set_duration_changes_one_duration() {
    let mut config = SessionConfig::new();
    assert_eq!(config.set_duration(DurationType::Break, 7), Ok(()));
    assert_eq!(config.duration(DurationType::Focus), 25);
    assert_eq!(config.duration(DurationType::Break), 7);
    assert_eq!(config.duration(DurationType::LongBreak), 10);
    assert_eq!(config.set_duration(DurationType::Focus, 1), Ok(()));
    assert_eq!(config.set_duration(DurationType::LongBreak, 100), Ok(()));
    assert_eq!(config.duration(DurationType::Focus), 1);
    assert_eq!(config.duration(DurationType::Break), 7);
    assert_eq!(config.duration(DurationType::LongBreak), 100);
}

#[test]
fn set_duration_refuses_what_is_out_of_bounds() {
    let mut config = SessionConfig::new();
    for minutes in [0, -1, 101, i64::MAX, i64::MIN] {
        for kind in [DurationType::Focus, DurationType::Break, DurationType::LongBreak] {
            assert_eq!(
                config.set_duration(kind, minutes),
                Err(ConfigError::OutOfBounds { minutes })
            );
        }
    }
    assert_eq!(config.duration(DurationType::Focus), 25);
    assert_eq!(config.duration(DurationType::Break), 5);
    assert_eq!(config.duration(DurationType::LongBreak), 10);
}

#[test]
fn mute_and_style_are_set_alone() {
    let mut config = SessionConfig::new();
    config.set_mute(true);
    assert!(config.mute());
    assert_eq!(config.style(), TextStyle::Univers);
    config.set_style(TextStyle::Yuanqing);
    assert!(config.mute());
    assert_eq!(config.style(), TextStyle::Yuanqing);
    assert_eq!(config.duration(DurationType::Focus), 25);
    config.set_mute(false);
    assert!(!config.mute());
}

#[test]
fn presets_one_and_two() {
    let mut config = SessionConfig::new();
    config.set_mute(true);
    config.set_style(TextStyle::Yuanqing);
    assert!(config.apply_preset(2));
    assert_eq!(config.duration(DurationType::Focus), 50);
    assert_eq!(config.duration(DurationType::Break), 10);
    assert_eq!(config.duration(DurationType::LongBreak), 20);
    assert!(config.mute());
    assert_eq!(config.style(), TextStyle::Yuanqing);
    assert!(config.apply_preset(1));
    assert_eq!(config.duration(DurationType::Focus), 25);
    assert_eq!(config.duration(DurationType::Break), 5);
    assert_eq!(config.duration(DurationType::LongBreak), 10);
}

#[test]
fn an_unknown_preset_changes_nothing() {
    let mut config = SessionConfig::new();
    assert_eq!(config.set_duration(DurationType::Focus, 33), Ok(()));
    for code in [0, 3, 25, u32::MAX] {
        assert!(!config.apply_preset(code));
    }
    assert_eq!(config.duration(DurationType::Focus), 33);
    assert_eq!(config.duration(DurationType::Break), 5);
    assert_eq!(config.duration(DurationType::LongBreak), 10);
}

#[test]
fn style_codes_one_and_two() {
    assert_eq!(TextStyle::from_code(1), Some(TextStyle::Univers));
    assert_eq!(TextStyle::from_code(2), Some(TextStyle::Yuanqing));
    assert_eq!(TextStyle::from_code(0), None);
    assert_eq!(TextStyle::from_code(3), None);
}
