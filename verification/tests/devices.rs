use usbhost::device::from_libusb as device_from_libusb;
use usbhost::device_handle::from_libusb as handle_from_libusb;
use usbhost::device_list::from_libusb as list_from_libusb;
use usbhost::{Context, Device, Error, LogLevel, NativeCall, NativeCode, Runtime, Speed};

type Callback = Box<dyn Fn(LogLevel, String)>;

fn device(runtime: &mut Runtime<Callback>) -> Device {
    let ctx = Context::new(runtime, 0, 0x1000).unwrap();
    device_from_libusb(ctx, 0xd1)
}

#[test]
fn a_device_is_made_from_a_context_and_an_identity() {
    let mut runtime: Runtime<Callback> = Runtime::new();
    let ctx = Context::new(&mut runtime, 0, 0x1000).unwrap();
    let owner = ctx.clone(&mut runtime);
    let device = device_from_libusb(owner, 0xd7);
    assert_eq!(device.as_raw(), 0xd7);
    assert_eq!(*device.context_ref(), ctx);
    assert_eq!(runtime.owners_of(ctx.id()), 2);
    assert_eq!(
        device.drop(&mut runtime),
        vec![NativeCall::UnrefDevice { device: 0xd7 }]
    );
    assert_eq!(runtime.owners_of(ctx.id()), 1);
}

#[test]
fn a_list_is_made_from_a_context_and_its_entries() {
    let mut runtime: Runtime<Callback> = Runtime::new();
    let ctx = Context::new(&mut runtime, 0, 0x1000).unwrap();
    let list = list_from_libusb(ctx, 0xa000, vec![1, 2, 3, 4]);
    assert_eq!(list.len(), 4);
    assert_eq!(list.as_raw(), 0xa000);
    let (device, call) = list.get(&mut runtime, 3).unwrap();
    assert_eq!(device.as_raw(), 4);
    assert_eq!(call, NativeCall::RefDevice { device: 4 });
    assert!(list.get(&mut runtime, 4).is_none());
    assert!(list.get(&mut runtime, usize::MAX).is_none());
    assert_eq!(
        list.drop(&mut runtime),
        vec![NativeCall::FreeDeviceList { list: 0xa000, unref_devices: true }]
    );
    assert_eq!(
        device.drop(&mut runtime),
        vec![NativeCall::UnrefDevice { device: 4 }, NativeCall::Exit { context: 0x1000 }]
    );
}

#[test]
fn a_handle_is_made_from_a_context_and_an_identity() {
    let mut runtime: Runtime<Callback> = Runtime::new();
    let ctx = Context::new(&mut runtime, 0, 0x1000).unwrap();
    let handle = handle_from_libusb(ctx, 0xe000);
    assert_eq!(handle.as_raw(), 0xe000);
    assert_eq!(
        handle.drop(&mut runtime),
        vec![NativeCall::Close { handle: 0xe000 }, NativeCall::Exit { context: 0x1000 }]
    );
}

#[test]
fn the_device_descriptor_is_handed_on_or_its_failure_reported() {
    let mut runtime: Runtime<Callback> = Runtime::new();
    let device = device(&mut runtime);
    assert_eq!(device.device_descriptor(0, [18u8, 1, 0, 2]), Ok([18u8, 1, 0, 2]));
    assert_eq!(
        device.device_descriptor(-1, [0u8; 4]),
        Err(Error::DescriptorReadError(NativeCode::Io))
    );
    assert_eq!(
        device.device_descriptor(-5, [0u8; 4]),
        Err(Error::DescriptorReadError(NativeCode::NotFound))
    );
}

#[test]
fn a_missing_configuration_is_not_found() {
    let mut runtime: Runtime<Callback> = Runtime::new();
    let device = device(&mut runtime);
    assert_eq!(device.config_descriptor(0, "config 0"), Ok("config 0"));
    assert_eq!(device.config_descriptor(-5, "unset"), Err(Error::NotFound));
    assert_eq!(
        device.config_descriptor(-4, "unset"),
        Err(Error::NativeError(NativeCode::NoDevice))
    );
    assert_eq!(
        device.config_descriptor(-3, "unset"),
        Err(Error::NativeError(NativeCode::Access))
    );
    assert_eq!(
        device.config_descriptor(-77, "unset"),
        Err(Error::NativeError(NativeCode::Other))
    );
}

#[test]
fn an_unconfigured_device_has_no_active_configuration() {
    let mut runtime: Runtime<Callback> = Runtime::new();
    let device = device(&mut runtime);
    assert_eq!(device.active_config_descriptor(0, 42u8), Ok(42u8));
    assert_eq!(device.active_config_descriptor(-5, 0u8), Err(Error::NotFound));
    assert_eq!(
        device.active_config_descriptor(-1, 0u8),
        Err(Error::NativeError(NativeCode::Io))
    );
}

#[test]
fn the_speed_is_decoded_from_its_native_code() {
    let mut runtime: Runtime<Callback> = Runtime::new();
    let device = device(&mut runtime);
    assert_eq!(device.speed(1), Speed::Low);
    assert_eq!(device.speed(2), Speed::Full);
    assert_eq!(device.speed(3), Speed::High);
    assert_eq!(device.speed(4), Speed::Super);
    assert_eq!(device.speed(5), Speed::SuperPlus);
    assert_eq!(device.speed(0), Speed::Unknown);
    assert_eq!(device.speed(99), Speed::Unknown);
}

#[test]
fn a_denied_open_is_an_access_error() {
    let mut runtime: Runtime<Callback> = Runtime::new();
    let device = device(&mut runtime);
    let id = device.context_ref().id();
    match device.open(&mut runtime, -3, 0) {
        Err(error) => assert_eq!(error, Error::AccessError),
        Ok(_) => panic!("a denied open gave a handle"),
    }
    match device.open(&mut runtime, -4, 0) {
        Err(error) => assert_eq!(error, Error::NativeError(NativeCode::NoDevice)),
        Ok(_) => panic!("an open on a removed device gave a handle"),
    }
    match device.open(&mut runtime, -5, 0) {
        Err(error) => assert_eq!(error, Error::NativeError(NativeCode::NotFound)),
        Ok(_) => panic!("a failed open gave a handle"),
    }
    assert_eq!(runtime.owners_of(id), 1);
}

#[test]
fn an_open_device_holds_a_further_owner() {
    let mut runtime: Runtime<Callback> = Runtime::new();
    let device = device(&mut runtime);
    let id = device.context_ref().id();
    let handle = device.open(&mut runtime, 0, 0xe000).unwrap();
    assert_eq!(handle.as_raw(), 0xe000);
    assert_eq!(handle.context_ref(), device.context_ref());
    assert_eq!(runtime.owners_of(id), 2);
    assert_eq!(
        handle.drop(&mut runtime),
        vec![NativeCall::Close { handle: 0xe000 }]
    );
    assert_eq!(
        device.drop(&mut runtime),
        vec![NativeCall::UnrefDevice { device: 0xd1 }, NativeCall::Exit { context: 0x1000 }]
    );
}
