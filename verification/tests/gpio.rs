use rpi_gpio::gpio::mem::{GpioMem, GPIO_MEM_REGISTERS, GPCLR0, GPLEV0, GPSET0};
use rpi_gpio::gpio::pin::MAX;
use rpi_gpio::gpio::{decode_mode, encode_mode, Error, Gpio, Level, Mode};

const ALL_MODES: [Mode; 8] = [
    Mode::Input,
    Mode::Output,
    Mode::Alt0,
    Mode::Alt1,
    Mode::Alt2,
    Mode::Alt3,
    Mode::Alt4,
    Mode::Alt5,
];

#[test]
fn mode_round_trip_all_patterns() {
    for m in ALL_MODES {
        assert_eq!(decode_mode(encode_mode(m)), m);
    }
    for bits in 0..8u8 {
        assert_eq!(encode_mode(decode_mode(bits)), bits);
    }
}

#[test]
fn mode_encoding_table() {
    assert_eq!(encode_mode(Mode::Input), 0b000);
    assert_eq!(encode_mode(Mode::Output), 0b001);
    assert_eq!(encode_mode(Mode::Alt0), 0b100);
    assert_eq!(encode_mode(Mode::Alt1), 0b101);
    assert_eq!(encode_mode(Mode::Alt2), 0b110);
    assert_eq!(encode_mode(Mode::Alt3), 0b111);
    assert_eq!(encode_mode(Mode::Alt4), 0b011);
    assert_eq!(encode_mode(Mode::Alt5), 0b010);
}

#[test]
fn set_mode_reads_back_for_every_pin_and_mode() {
    let mut mem = GpioMem::open().unwrap();
    for pin in 0..MAX as u8 {
        for m in ALL_MODES {
            mem.set_mode(pin, m);
            assert_eq!(mem.mode(pin), m);
        }
    }
}

#[test]
fn set_mode_leaves_neighbours_in_same_word_alone() {
    // Pins 20..=29 share function-select word 2.
    let mut mem = GpioMem::open().unwrap();
    mem.set_mode(21, Mode::Alt3);
    mem.set_mode(29, Mode::Alt5);
    mem.set_mode(25, Mode::Output);
    assert_eq!(mem.mode(21), Mode::Alt3);
    assert_eq!(mem.mode(29), Mode::Alt5);
    assert_eq!(mem.mode(25), Mode::Output);
    for pin in [20u8, 22, 23, 24, 26, 27, 28] {
        assert_eq!(mem.mode(pin), Mode::Input);
    }
}

#[test]
fn levels_start_low_and_follow_set_high_set_low() {
    let mut mem = GpioMem::open().unwrap();
    for pin in 0..MAX as u8 {
        assert_eq!(mem.level(pin), Level::Low);
    }
    for pin in 0..MAX as u8 {
        mem.set_high(pin);
        assert_eq!(mem.level(pin), Level::High);
        mem.set_low(pin);
        assert_eq!(mem.level(pin), Level::Low);
    }
}

#[test]
fn set_high_leaves_other_pins_in_same_word_alone() {
    // Pins 0..=31 share one set/clear/level word.
    let mut mem = GpioMem::open().unwrap();
    mem.set_high(8);
    assert_eq!(mem.level(8), Level::High);
    for pin in 0..32u8 {
        if pin != 8 {
            assert_eq!(mem.level(pin), Level::Low);
        }
    }
    mem.set_high(9);
    mem.set_low(8);
    assert_eq!(mem.level(8), Level::Low);
    assert_eq!(mem.level(9), Level::High);
    for pin in 0..32u8 {
        if pin != 9 {
            assert_eq!(mem.level(pin), Level::Low);
        }
    }
}

#[test]
fn write_word_set_bank_drives_level_bank() {
    let mut mem = GpioMem::open().unwrap();
    // A set-bank write turns the written bits on in the level word...
    mem.write_word(GPSET0, 0b101);
    assert_eq!(mem.read_word(GPLEV0), 0b101);
    // ...the set bank itself holds nothing...
    assert_eq!(mem.read_word(GPSET0), 0);
    // ...a clear-bank write turns its bits off and no other...
    mem.write_word(GPCLR0, 0b001);
    assert_eq!(mem.read_word(GPLEV0), 0b100);
    // ...and a write to the read-only level bank has no effect.
    mem.write_word(GPLEV0, 0xffff_ffff);
    assert_eq!(mem.read_word(GPLEV0), 0b100);
}

#[test]
fn write_word_plain_words_store_in_place() {
    let mut mem = GpioMem::open().unwrap();
    let last = GPIO_MEM_REGISTERS - 1;
    mem.write_word(last, 0xdead_beef);
    assert_eq!(mem.read_word(last), 0xdead_beef);
    mem.write_word(0, 0b111);
    assert_eq!(mem.read_word(0), 0b111);
    assert_eq!(mem.mode(0), Mode::Alt3);
}

#[test]
fn claim_twice_fails_until_released() {
    let mut gpio = Gpio::new();
    let first = gpio.claim(12).unwrap();
    assert_eq!(first.pin(), 12);
    match gpio.claim(12) {
        Err(Error::PinNotAvailable(pin)) => assert_eq!(pin, 12),
        _ => panic!("claiming a claimed pin must fail with PinNotAvailable"),
    }
    gpio.release(first);
    let second = gpio.claim(12).unwrap();
    assert_eq!(second.pin(), 12);
}

#[test]
fn claim_out_of_range_fails() {
    let mut gpio = Gpio::new();
    for pin in [MAX as u8, MAX as u8 + 1, u8::MAX] {
        assert!(matches!(gpio.claim(pin), Err(Error::PinNotAvailable(p)) if p == pin));
    }
    // A failed claim on one pin does not affect others.
    assert!(gpio.claim(MAX as u8 - 1).is_ok());
}

#[test]
fn output_handle_released_after_claim_conflict() {
    let mut gpio = Gpio::new();
    let mut mem = GpioMem::open().unwrap();
    let out = gpio.claim(5).unwrap().into_output(&mut mem);
    assert!(matches!(gpio.claim(5), Err(Error::PinNotAvailable(5))));
    out.release(&mut mem, &mut gpio);
    assert!(gpio.claim(5).is_ok());
}

#[test]
fn into_output_when_already_output_causes_no_churn() {
    let mut gpio = Gpio::new();
    let mut mem = GpioMem::open().unwrap();
    let pin = gpio.claim(3).unwrap();
    pin.set_mode(&mut mem, Mode::Output);
    let words_before: Vec<u32> = (0..GPIO_MEM_REGISTERS).map(|w| mem.read_word(w)).collect();

    let out = pin.into_output(&mut mem);
    assert_eq!(mem.mode(3), Mode::Output);
    out.release(&mut mem, &mut gpio);

    // No previous mode was recorded, so release writes nothing back: the
    // whole register block is untouched.
    assert_eq!(mem.mode(3), Mode::Output);
    for w in 0..GPIO_MEM_REGISTERS {
        assert_eq!(mem.read_word(w), words_before[w]);
    }
}

#[test]
fn release_restores_previous_mode_when_enabled() {
    let mut gpio = Gpio::new();
    let mut mem = GpioMem::open().unwrap();
    let pin = gpio.claim(7).unwrap();
    assert_eq!(pin.mode(&mem), Mode::Input);
    let out = pin.into_output(&mut mem);
    assert_eq!(out.reset_on_drop(), true);
    assert_eq!(mem.mode(7), Mode::Output);
    out.release(&mut mem, &mut gpio);
    assert_eq!(mem.mode(7), Mode::Input);
}

#[test]
fn release_keeps_output_mode_when_restore_disabled() {
    let mut gpio = Gpio::new();
    let mut mem = GpioMem::open().unwrap();
    let pin = gpio.claim(7).unwrap();
    let mut out = pin.into_output(&mut mem);
    out.set_reset_on_drop(false);
    assert_eq!(out.reset_on_drop(), false);
    out.release(&mut mem, &mut gpio);
    assert_eq!(mem.mode(7), Mode::Output);
    // The claim is returned regardless of the restore flag.
    assert!(gpio.claim(7).is_ok());
}

#[test]
fn release_restores_alternate_function_too() {
    let mut gpio = Gpio::new();
    let mut mem = GpioMem::open().unwrap();
    let pin = gpio.claim(14).unwrap();
    pin.set_mode(&mut mem, Mode::Alt5);
    let out = pin.into_output(&mut mem);
    assert_eq!(mem.mode(14), Mode::Output);
    out.release(&mut mem, &mut gpio);
    assert_eq!(mem.mode(14), Mode::Alt5);
}

#[test]
fn end_to_end_claim_pin_27() {
    let mut gpio = Gpio::new();
    let mut mem = GpioMem::open().unwrap();

    let pin = gpio.claim(27).unwrap();
    assert_eq!(pin.mode(&mem), Mode::Input);

    let mut out = pin.into_output(&mut mem);
    out.set_high(&mut mem);
    assert_eq!(mem.level(27), Level::High);

    out.release(&mut mem, &mut gpio);
    assert_eq!(mem.mode(27), Mode::Input);
}

#[test]
fn pin_write_drives_levels() {
    let mut gpio = Gpio::new();
    let mut mem = GpioMem::open().unwrap();
    let pin = gpio.claim(31).unwrap();
    pin.write(&mut mem, Level::High);
    assert_eq!(mem.level(31), Level::High);
    assert_eq!(mem.level(30), Level::Low);
    pin.write(&mut mem, Level::Low);
    assert_eq!(mem.level(31), Level::Low);
}

#[test]
fn output_pins_compare_by_pin_number() {
    let mut mem = GpioMem::open().unwrap();
    let mut gpio_a = Gpio::new();
    let mut gpio_b = Gpio::new();
    let pin_a = gpio_a.claim(9).unwrap();
    let pin_b = gpio_b.claim(9).unwrap();
    assert_eq!(pin_a, pin_b);
    let out_a = pin_a.into_output(&mut mem);
    let mut out_b = pin_b.into_output(&mut mem);
    // The two handles differ in recorded previous mode and restore flag, but
    // equality goes by the pin number alone.
    out_b.set_reset_on_drop(false);
    assert!(out_a == out_b);
    let pin_c = gpio_a.claim(10).unwrap();
    let out_c = pin_c.into_output(&mut mem);
    assert!(out_a != out_c);
}

#[test]
fn level_not_flips() {
    assert_eq!(Level::Low.not(), Level::High);
    assert_eq!(Level::High.not(), Level::Low);
}

#[test]
fn mode_and_level_names() {
    assert_eq!(Mode::Input.name(), "In");
    assert_eq!(Mode::Output.name(), "Out");
    assert_eq!(Mode::Alt0.name(), "Alt0");
    assert_eq!(Mode::Alt1.name(), "Alt1");
    assert_eq!(Mode::Alt2.name(), "Alt2");
    assert_eq!(Mode::Alt3.name(), "Alt3");
    assert_eq!(Mode::Alt4.name(), "Alt4");
    assert_eq!(Mode::Alt5.name(), "Alt5");
    assert_eq!(Level::Low.name(), "Low");
    assert_eq!(Level::High.name(), "High");
}

#[test]
fn error_messages() {
    assert_eq!(
        Error::UnknownModel.describe(),
        "Unknown Raspberry Pi model"
    );
    assert_eq!(Error::PinNotAvailable(5).describe(), "Pin 5 is not available");
    assert_eq!(Error::PinNotAvailable(27).describe(), "Pin 27 is not available");
    assert_eq!(Error::PinNotAvailable(100).describe(), "Pin 100 is not available");
    assert_eq!(Error::PinNotAvailable(254).describe(), "Pin 254 is not available");
    assert_eq!(
        Error::PermissionDenied(String::from("/dev/gpiomem")).describe(),
        "Permission denied: /dev/gpiomem"
    );
    assert_eq!(Error::ThreadPanic.describe(), "Thread panicked");
    let io = std::io::Error::new(std::io::ErrorKind::NotFound, "gone");
    assert_eq!(Error::Io(io).describe(), "I/O error");
}

#[test]
fn error_conversions() {
    let io = std::io::Error::new(std::io::ErrorKind::PermissionDenied, "denied");
    assert!(matches!(Error::from(io), Error::Io(_)));
    assert!(matches!(
        Error::from(rpi_gpio::system::Error::UnknownModel),
        Error::UnknownModel
    ));
}

#[test]
fn open_reports_bcm2711_with_reset_state() {
    let mem = GpioMem::open().unwrap();
    assert_eq!(mem.soc(), rpi_gpio::system::SoC::Bcm2711);
    for w in 0..GPIO_MEM_REGISTERS {
        assert_eq!(mem.read_word(w), 0);
    }
}
