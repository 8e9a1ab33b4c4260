//! How the device presents itself on the bus that carries the serial link.

use vstd::prelude::*;

verus! {

/// Largest packet of the serial link's data endpoints, in bytes.
pub const LINK_PACKET_SIZE: u16 = 64;

/// Size of the buffer for control requests, in bytes.
pub const CONTROL_BUFFER_LEN: usize = 64;

/// Size of each descriptor buffer, in bytes.
pub const DESCRIPTOR_BUFFER_LEN: usize = 256;

/// The settings of the device on the bus.
#[derive(Clone, Copy, Debug)]
pub struct UsbSettings {
    pub vendor_id: u16,
    pub product_id: u16,
    pub manufacturer: &'static str,
    pub product: &'static str,
    pub serial_number: &'static str,
    /// Current that the device asks for, in milliamperes.
    pub max_power: u16,
    /// Largest packet of the control endpoint, in bytes.
    pub max_packet_size_0: u8,
    pub device_class: u8,
    pub device_sub_class: u8,
    pub device_protocol: u8,
    /// Whether the functions of the device are bound by interface
    /// association descriptors, which some hosts need.
    pub composite_with_iads: bool,
}

/// What a device stack checks before it takes the settings: a device bound
/// by interface association descriptors announces the class codes reserved
/// for that, it asks for no more than 500 mA, and its control endpoint has
/// one of the four packet sizes there are.
pub open spec fn usb_settings_accepted(settings: UsbSettings) -> bool {
    &&& settings.composite_with_iads ==> settings.device_class == 0xEF && settings.device_sub_class
        == 0x02 && settings.device_protocol == 0x01
    &&& settings.max_power <= 500
    &&& settings.max_packet_size_0 == 8 || settings.max_packet_size_0 == 16
        || settings.max_packet_size_0 == 32 || settings.max_packet_size_0 == 64
}

/// The settings of this device.
pub fn usb_config() -> (settings: UsbSettings)
    ensures
        settings.vendor_id == 0xc0de,
        settings.product_id == 0xcafe,
        settings.manufacturer@ == "Moonforge"@,
        settings.product@ == "Eir - robot doctor"@,
        settings.serial_number@ == "12345678"@,
        settings.max_power == 100,
        settings.max_packet_size_0 == 64,
        settings.device_class == 0xEF,
        settings.device_sub_class == 0x02,
        settings.device_protocol == 0x01,
        settings.composite_with_iads,
        usb_settings_accepted(settings),
{
    UsbSettings {
        vendor_id: 0xc0de,
        product_id: 0xcafe,
        manufacturer: "Moonforge",
        product: "Eir - robot doctor",
        serial_number: "12345678",
        max_power: 100,
        max_packet_size_0: 64,
        // Hosts of one common family take the device only with these codes.
        device_class: 0xEF,
        device_sub_class: 0x02,
        device_protocol: 0x01,
        composite_with_iads: true,
    }
}

} // verus!
