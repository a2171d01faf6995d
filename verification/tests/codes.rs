use libusb1_sys::constants;
use usbhost::error::from_libusb;
use usbhost::fields::speed_from_libusb;
use usbhost::native;
use usbhost::{LogCallbackMode, LogKey, LogLevel, NativeCode, Speed};

#[test]
fn log_level_codes_are_those_of_the_native_library() {
    assert_eq!(LogLevel::Off.as_c_int(), constants::LIBUSB_LOG_LEVEL_NONE);
    assert_eq!(LogLevel::Error.as_c_int(), constants::LIBUSB_LOG_LEVEL_ERROR);
    assert_eq!(LogLevel::Warning.as_c_int(), constants::LIBUSB_LOG_LEVEL_WARNING);
    assert_eq!(LogLevel::Info.as_c_int(), constants::LIBUSB_LOG_LEVEL_INFO);
    assert_eq!(LogLevel::Debug.as_c_int(), constants::LIBUSB_LOG_LEVEL_DEBUG);
}

#[test]
fn log_level_codes_have_their_exact_values() {
    assert_eq!(LogLevel::Off.as_c_int(), 0);
    assert_eq!(LogLevel::Error.as_c_int(), 1);
    assert_eq!(LogLevel::Warning.as_c_int(), 2);
    assert_eq!(LogLevel::Info.as_c_int(), 3);
    assert_eq!(LogLevel::Debug.as_c_int(), 4);
}

#[test]
fn log_level_decodes_known_codes() {
    assert_eq!(LogLevel::from_c_int(1), LogLevel::Error);
    assert_eq!(LogLevel::from_c_int(2), LogLevel::Warning);
    assert_eq!(LogLevel::from_c_int(3), LogLevel::Info);
    assert_eq!(LogLevel::from_c_int(4), LogLevel::Debug);
    assert_eq!(LogLevel::from_c_int(0), LogLevel::Off);
}

#[test]
fn log_level_decodes_unknown_codes_to_off() {
    assert_eq!(LogLevel::from_c_int(5), LogLevel::Off);
    assert_eq!(LogLevel::from_c_int(-1), LogLevel::Off);
    assert_eq!(LogLevel::from_c_int(i32::MAX), LogLevel::Off);
    assert_eq!(LogLevel::from_c_int(i32::MIN), LogLevel::Off);
}

#[test]
fn log_level_round_trips_through_its_code() {
    for level in [
        LogLevel::Off,
        LogLevel::Error,
        LogLevel::Warning,
        LogLevel::Info,
        LogLevel::Debug,
    ] {
        assert_eq!(LogLevel::from_c_int(level.as_c_int()), level);
    }
}

#[test]
fn callback_mode_codes_are_those_of_the_native_library() {
    assert_eq!(LogCallbackMode::Global.as_c_int(), constants::LIBUSB_LOG_CB_GLOBAL);
    assert_eq!(LogCallbackMode::Context.as_c_int(), constants::LIBUSB_LOG_CB_CONTEXT);
    assert_eq!(LogCallbackMode::Global.as_c_int(), 1);
    assert_eq!(LogCallbackMode::Context.as_c_int(), 2);
}

#[test]
fn callback_mode_picks_the_registry_key() {
    assert_eq!(LogCallbackMode::Global.key(0x1000), LogKey::Global);
    assert_eq!(LogCallbackMode::Context.key(0x1000), LogKey::Context(0x1000));
}

#[test]
fn capability_and_option_codes_are_those_of_the_native_library() {
    assert_eq!(native::CAP_HAS_CAPABILITY, constants::LIBUSB_CAP_HAS_CAPABILITY);
    assert_eq!(native::CAP_HAS_HOTPLUG, constants::LIBUSB_CAP_HAS_HOTPLUG);
    assert_eq!(native::CAP_HAS_HID_ACCESS, constants::LIBUSB_CAP_HAS_HID_ACCESS);
    assert_eq!(
        native::CAP_SUPPORTS_DETACH_KERNEL_DRIVER,
        constants::LIBUSB_CAP_SUPPORTS_DETACH_KERNEL_DRIVER
    );
    assert_eq!(native::OPTION_LOG_LEVEL, constants::LIBUSB_OPTION_LOG_LEVEL);
    assert_eq!(native::DEFAULT_CONTEXT, std::ptr::null_mut::<u8>() as usize);
}

#[test]
fn error_codes_are_those_of_the_native_library() {
    assert_eq!(NativeCode::Io.as_c_int(), constants::LIBUSB_ERROR_IO);
    assert_eq!(NativeCode::InvalidParam.as_c_int(), constants::LIBUSB_ERROR_INVALID_PARAM);
    assert_eq!(NativeCode::Access.as_c_int(), constants::LIBUSB_ERROR_ACCESS);
    assert_eq!(NativeCode::NoDevice.as_c_int(), constants::LIBUSB_ERROR_NO_DEVICE);
    assert_eq!(NativeCode::NotFound.as_c_int(), constants::LIBUSB_ERROR_NOT_FOUND);
    assert_eq!(NativeCode::Busy.as_c_int(), constants::LIBUSB_ERROR_BUSY);
    assert_eq!(NativeCode::Timeout.as_c_int(), constants::LIBUSB_ERROR_TIMEOUT);
    assert_eq!(NativeCode::Overflow.as_c_int(), constants::LIBUSB_ERROR_OVERFLOW);
    assert_eq!(NativeCode::Pipe.as_c_int(), constants::LIBUSB_ERROR_PIPE);
    assert_eq!(NativeCode::Interrupted.as_c_int(), constants::LIBUSB_ERROR_INTERRUPTED);
    assert_eq!(NativeCode::NoMem.as_c_int(), constants::LIBUSB_ERROR_NO_MEM);
    assert_eq!(NativeCode::NotSupported.as_c_int(), constants::LIBUSB_ERROR_NOT_SUPPORTED);
    assert_eq!(NativeCode::Other.as_c_int(), constants::LIBUSB_ERROR_OTHER);
}

#[test]
fn native_status_codes_are_classified() {
    assert_eq!(from_libusb(-1), NativeCode::Io);
    assert_eq!(from_libusb(-2), NativeCode::InvalidParam);
    assert_eq!(from_libusb(-3), NativeCode::Access);
    assert_eq!(from_libusb(-4), NativeCode::NoDevice);
    assert_eq!(from_libusb(-5), NativeCode::NotFound);
    assert_eq!(from_libusb(-6), NativeCode::Busy);
    assert_eq!(from_libusb(-7), NativeCode::Timeout);
    assert_eq!(from_libusb(-8), NativeCode::Overflow);
    assert_eq!(from_libusb(-9), NativeCode::Pipe);
    assert_eq!(from_libusb(-10), NativeCode::Interrupted);
    assert_eq!(from_libusb(-11), NativeCode::NoMem);
    assert_eq!(from_libusb(-12), NativeCode::NotSupported);
    assert_eq!(from_libusb(-99), NativeCode::Other);
}

#[test]
fn unlisted_status_codes_count_as_other() {
    assert_eq!(from_libusb(-13), NativeCode::Other);
    assert_eq!(from_libusb(-98), NativeCode::Other);
    assert_eq!(from_libusb(-100), NativeCode::Other);
    assert_eq!(from_libusb(0), NativeCode::Other);
    assert_eq!(from_libusb(7), NativeCode::Other);
    assert_eq!(from_libusb(i32::MIN), NativeCode::Other);
}

#[test]
fn failure_kinds_round_trip_through_their_code() {
    for kind in [
        NativeCode::Io,
        NativeCode::InvalidParam,
        NativeCode::Access,
        NativeCode::NoDevice,
        NativeCode::NotFound,
        NativeCode::Busy,
        NativeCode::Timeout,
        NativeCode::Overflow,
        NativeCode::Pipe,
        NativeCode::Interrupted,
        NativeCode::NoMem,
        NativeCode::NotSupported,
        NativeCode::Other,
    ] {
        assert!(kind.as_c_int() < 0);
        assert_eq!(from_libusb(kind.as_c_int()), kind);
    }
}

#[test]
fn speed_codes_are_those_of_the_native_library() {
    assert_eq!(speed_from_libusb(constants::LIBUSB_SPEED_UNKNOWN), Speed::Unknown);
    assert_eq!(speed_from_libusb(constants::LIBUSB_SPEED_LOW), Speed::Low);
    assert_eq!(speed_from_libusb(constants::LIBUSB_SPEED_FULL), Speed::Full);
    assert_eq!(speed_from_libusb(constants::LIBUSB_SPEED_HIGH), Speed::High);
    assert_eq!(speed_from_libusb(constants::LIBUSB_SPEED_SUPER), Speed::Super);
    assert_eq!(speed_from_libusb(constants::LIBUSB_SPEED_SUPER_PLUS), Speed::SuperPlus);
}

#[test]
fn unknown_speed_codes_decode_to_unknown() {
    assert_eq!(speed_from_libusb(0), Speed::Unknown);
    assert_eq!(speed_from_libusb(6), Speed::Unknown);
    assert_eq!(speed_from_libusb(-1), Speed::Unknown);
    assert_eq!(speed_from_libusb(i32::MAX), Speed::Unknown);
}
