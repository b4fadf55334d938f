use rpi_gpio::system::{DeviceInfo, Error, Model, SoC};

fn lines(text: &[&str]) -> Vec<Vec<u8>> {
    text.iter().map(|l| l.as_bytes().to_vec()).collect()
}

#[test]
fn identifies_raspberry_pi_4_model_b() {
    let cpuinfo = lines(&[
        "processor\t: 0",
        "BogoMIPS\t: 108.00",
        "Hardware\t: BCM2711",
        "Revision\t: d03114",
        "Serial\t\t: 10000000abcdef01",
        "Model\t\t: Raspberry Pi 4 Model B Rev 1.4",
    ]);
    let info = DeviceInfo::new(&cpuinfo).unwrap();
    assert_eq!(info.model(), Model::RaspberryPi4ModelB);
    assert_eq!(info.soc(), SoC::Bcm2711);
    assert_eq!(info.peripheral_base(), 0xfe00_0000);
    assert_eq!(info.gpio_offset(), 0x20_0000);
}

#[test]
fn revision_is_compared_case_insensitively() {
    let cpuinfo = lines(&["Hardware\t: BCM2711", "Revision\t: D03114"]);
    assert!(DeviceInfo::new(&cpuinfo).is_ok());
}

#[test]
fn later_lines_overwrite_earlier_ones() {
    let cpuinfo = lines(&[
        "Hardware\t: BCM2835",
        "Revision\t: 900092",
        "Hardware\t: BCM2711",
        "Revision\t: d03114",
    ]);
    assert!(DeviceInfo::new(&cpuinfo).is_ok());

    let cpuinfo = lines(&[
        "Hardware\t: BCM2711",
        "Revision\t: d03114",
        "Revision\t: 900092",
    ]);
    assert!(matches!(DeviceInfo::new(&cpuinfo), Err(Error::UnknownModel)));
}

#[test]
fn unknown_hardware_is_rejected() {
    let cpuinfo = lines(&["Hardware\t: BCM2835", "Revision\t: d03114"]);
    assert!(matches!(DeviceInfo::new(&cpuinfo), Err(Error::UnknownModel)));
}

#[test]
fn unknown_revision_is_rejected() {
    let cpuinfo = lines(&["Hardware\t: BCM2711", "Revision\t: a02082"]);
    assert!(matches!(DeviceInfo::new(&cpuinfo), Err(Error::UnknownModel)));
}

#[test]
fn empty_listing_is_rejected() {
    assert!(matches!(DeviceInfo::new(&Vec::new()), Err(Error::UnknownModel)));
}

#[test]
fn keys_must_carry_the_exact_prefix() {
    // The key, the tab and the separator all matter: none of these lines
    // carries a recognised key.
    let cpuinfo = lines(&[
        "Hardware: BCM2711",
        "hardware\t: BCM2711",
        "Revision\t:d03114",
        " Revision\t: d03114",
    ]);
    assert!(matches!(DeviceInfo::new(&cpuinfo), Err(Error::UnknownModel)));
}

#[test]
fn value_may_be_empty() {
    // A line that is exactly the prefix yields an empty value, which does
    // not identify any board.
    let cpuinfo = lines(&["Hardware\t: ", "Revision\t: "]);
    assert!(matches!(DeviceInfo::new(&cpuinfo), Err(Error::UnknownModel)));
}

#[test]
fn display_names() {
    assert_eq!(Model::RaspberryPi4ModelB.name(), "RaspberryPi4ModelB");
    assert_eq!(SoC::Bcm2711.name(), "BCM2711");
    assert_eq!(Error::UnknownModel.describe(), "Unknown Raspberry Pi model");
}
