use vpx::encoder::vp8::VP8;
use vpx::encoder::vp9::VP9;
use vpx::encoder::{EncoderConfig, Settings};
use vpx::error::CodecError;

fn vp8_defaults() -> Settings {
    Settings { width: 320, height: 240, timebase_num: 1, timebase_den: 30, target_bitrate: 256 }
}

fn vp9_defaults() -> Settings {
    Settings { width: 640, height: 480, timebase_num: 1, timebase_den: 60, target_bitrate: 1000 }
}

#[test]
fn default_config_round_trip_vp8() {
    let config = EncoderConfig::<VP8>::new(0, vp8_defaults());
    assert!(config.is_ok());
    assert_eq!(Settings::from(config.unwrap()), vp8_defaults());
}

#[test]
fn default_config_round_trip_vp9() {
    let config = EncoderConfig::<VP9>::new(0, vp9_defaults());
    assert!(config.is_ok());
    assert_eq!(Settings::from(config.unwrap()), vp9_defaults());
}

#[test]
fn failed_default_query_is_reported() {
    assert_eq!(
        EncoderConfig::<VP8>::new(1, vp8_defaults()).err(),
        Some(CodecError::Unspecified)
    );
    assert_eq!(
        EncoderConfig::<VP9>::new(8, vp9_defaults()).err(),
        Some(CodecError::InvalidParam)
    );
    assert_eq!(
        EncoderConfig::<VP9>::new(4, vp9_defaults()).err(),
        Some(CodecError::Incapable)
    );
}

#[test]
fn set_frame_dimensions_changes_only_the_dimensions() {
    let mut config = EncoderConfig::<VP8>::new(0, vp8_defaults()).unwrap();
    config.set_frame_dimensions(1280, 720);
    assert_eq!(
        Settings::from(config),
        Settings { width: 1280, height: 720, ..vp8_defaults() }
    );
}

#[test]
fn set_timebase_changes_only_the_timebase() {
    let mut config = EncoderConfig::<VP8>::new(0, vp8_defaults()).unwrap();
    config.set_timebase(1001, 30000);
    assert_eq!(
        Settings::from(config),
        Settings { timebase_num: 1001, timebase_den: 30000, ..vp8_defaults() }
    );
}

#[test]
fn set_timebase_keeps_the_bit_pattern_of_large_values() {
    let mut config = EncoderConfig::<VP9>::new(0, vp9_defaults()).unwrap();
    config.set_timebase(u32::MAX, 0x8000_0000);
    let settings = Settings::from(config);
    assert_eq!(settings.timebase_num, -1);
    assert_eq!(settings.timebase_den, i32::MIN);
    let mut config = EncoderConfig::<VP9>::new(0, vp9_defaults()).unwrap();
    config.set_timebase(0x7fff_ffff, 0);
    let settings = Settings::from(config);
    assert_eq!(settings.timebase_num, i32::MAX);
    assert_eq!(settings.timebase_den, 0);
}

#[test]
fn set_target_bitrate_changes_only_the_bitrate() {
    let mut config = EncoderConfig::<VP9>::new(0, vp9_defaults()).unwrap();
    config.set_target_bitrate(200);
    assert_eq!(Settings::from(config), Settings { target_bitrate: 200, ..vp9_defaults() });
}

#[test]
fn setters_compose() {
    let mut config = EncoderConfig::<VP8>::new(0, vp8_defaults()).unwrap();
    config.set_target_bitrate(200);
    config.set_timebase(1, 25);
    config.set_frame_dimensions(16, 9);
    config.set_frame_dimensions(176, 144);
    assert_eq!(
        Settings::from(config),
        Settings { width: 176, height: 144, timebase_num: 1, timebase_den: 25, target_bitrate: 200 }
    );
}
