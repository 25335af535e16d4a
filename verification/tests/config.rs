use mouse_smoother::config::Config;

#[test]
fn default_durations() {
    let config = Config::default();
    assert_eq!(config.wheel.debounce_time_ms, 50);
    assert_eq!(config.wheel.h_debounce_time_ms, 50);
    assert_eq!(config.wheel.debounce_timeout_ms, 300);
}

#[test]
fn default_device_and_logging() {
    let config = Config::default();
    assert_eq!(config.device.path, None);
    assert_eq!(config.device.name_filter, None);
    assert_eq!(config.logging.level, "info");
}

#[test]
fn getters_return_the_configured_durations() {
    let mut config = Config::default();
    config.wheel.debounce_time_ms = 75;
    config.wheel.h_debounce_time_ms = 125;
    config.wheel.debounce_timeout_ms = 450;
    assert_eq!(config.get_debounce_time(), 75);
    assert_eq!(config.get_h_debounce_time(), 125);
    assert_eq!(config.get_debounce_timeout(), 450);
}
