use eir::usb::usb_config;
use eir::usb::CONTROL_BUFFER_LEN;
use eir::usb::DESCRIPTOR_BUFFER_LEN;
use eir::usb::LINK_PACKET_SIZE;

#[test]
fn device_presents_itself_as_declared() {
    let settings = usb_config();
    assert_eq!(settings.vendor_id, 0xc0de);
    assert_eq!(settings.product_id, 0xcafe);
    assert_eq!(settings.manufacturer, "Moonforge");
    assert_eq!(settings.product, "Eir - robot doctor");
    assert_eq!(settings.serial_number, "12345678");
    assert_eq!(settings.max_power, 100);
    assert_eq!(settings.max_packet_size_0, 64);
    assert_eq!(settings.device_class, 0xEF);
    assert_eq!(settings.device_sub_class, 0x02);
    assert_eq!(settings.device_protocol, 0x01);
    assert!(settings.composite_with_iads);
}

#[test]
fn device_stack_takes_the_settings() {
    let settings = usb_config();
    let mut config = embassy_usb::Config::new(settings.vendor_id, settings.product_id);
    config.manufacturer = Some(settings.manufacturer);
    config.product = Some(settings.product);
    config.serial_number = Some(settings.serial_number);
    config.max_power = settings.max_power;
    config.max_packet_size_0 = settings.max_packet_size_0;
    config.device_class = settings.device_class;
    config.device_sub_class = settings.device_sub_class;
    config.device_protocol = settings.device_protocol;
    config.composite_with_iads = settings.composite_with_iads;
    assert!(config.max_power <= 500);
    assert!(matches!(config.max_packet_size_0, 8 | 16 | 32 | 64));
    assert!(
        !config.composite_with_iads
            || (config.device_class == 0xEF
                && config.device_sub_class == 0x02
                && config.device_protocol == 0x01)
    );
}

#[test]
fn link_buffers_are_as_declared() {
    assert_eq!(LINK_PACKET_SIZE, 64);
    assert_eq!(CONTROL_BUFFER_LEN, 64);
    assert_eq!(DESCRIPTOR_BUFFER_LEN, 256);
}
