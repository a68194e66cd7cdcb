use solar_tracker::hal_devices::{StepAndDirection, StepPulse};
use solar_tracker::rtc::{
    Ds323x, RegisterRead, RegisterWrite, SqWFreq, CONTROL_POR_VALUE, DEVICE_ADDRESS,
    STATUS_POR_VALUE,
};

fn control_write(data: u8) -> RegisterWrite {
    RegisterWrite { address: 0x68, register: 0x0E, data }
}

#[test]
fn new_device_holds_the_power_on_values() {
    let dev = Ds323x::new_ds3231();
    assert_eq!(dev.control(), 0b0001_1100);
    assert_eq!(dev.status(), 0b1000_1000);
    assert_eq!(CONTROL_POR_VALUE, 0x1C);
    assert_eq!(STATUS_POR_VALUE, 0x88);
    assert_eq!(DEVICE_ADDRESS, 0x68);
}

#[test]
fn oscillator_enable_and_disable() {
    let mut dev = Ds323x::new_ds3231();
    assert_eq!(dev.disable(), control_write(0b1001_1100));
    assert_eq!(dev.control(), 0b1001_1100);
    assert_eq!(dev.enable(), control_write(0b0001_1100));
    assert_eq!(dev.control(), 0b0001_1100);
}

#[test]
fn square_wave_and_interrupt_bits() {
    let mut dev = Ds323x::new_ds3231();
    assert_eq!(dev.use_int_sqw_output_as_square_wave(), control_write(0b0001_1000));
    assert_eq!(dev.use_int_sqw_output_as_interrupt(), control_write(0b0001_1100));
    assert_eq!(dev.enable_square_wave(), control_write(0b0101_1100));
    assert_eq!(dev.disable_square_wave(), control_write(0b0001_1100));
    assert_eq!(dev.enable_alarm1_interrupts(), control_write(0b0001_1101));
    assert_eq!(dev.enable_alarm2_interrupts(), control_write(0b0001_1111));
    assert_eq!(dev.disable_alarm1_interrupts(), control_write(0b0001_1110));
    assert_eq!(dev.disable_alarm2_interrupts(), control_write(0b0001_1100));
    assert_eq!(dev.status(), 0x88);
}

#[test]
fn square_wave_frequency() {
    let mut dev = Ds323x::new_ds3231();
    assert_eq!(dev.set_square_wave_frequency(SqWFreq::_1Hz), control_write(0b0000_0100));
    assert_eq!(dev.set_square_wave_frequency(SqWFreq::_1_024Hz), control_write(0b0000_1100));
    assert_eq!(dev.set_square_wave_frequency(SqWFreq::_4_096Hz), control_write(0b0001_1100));
    assert_eq!(dev.set_square_wave_frequency(SqWFreq::_8_192Hz), control_write(0b0001_1100));
    assert_eq!(dev.set_square_wave_frequency(SqWFreq::_1Hz), control_write(0b0000_0100));
    assert_eq!(dev.set_square_wave_frequency(SqWFreq::_4_096Hz), control_write(0b0001_0100));
    assert_eq!(dev.control(), 0b0001_0100);
}

#[test]
fn status_writes_keep_the_alarm_flags() {
    let mut dev = Ds323x::new_ds3231();
    assert_eq!(
        dev.disable_32khz_output(),
        RegisterWrite { address: 0x68, register: 0x0F, data: 0b1000_0011 }
    );
    assert_eq!(dev.status(), 0b1000_0000);
    assert_eq!(
        dev.enable_32khz_output(),
        RegisterWrite { address: 0x68, register: 0x0F, data: 0b1000_1011 }
    );
    assert_eq!(dev.status(), 0b1000_1000);
    assert_eq!(
        dev.write_status_without_clearing_alarm(0),
        RegisterWrite { address: 0x68, register: 0x0F, data: 0b0000_0011 }
    );
    assert_eq!(dev.status(), 0);
    assert_eq!(dev.control(), 0x1C);
}

#[test]
fn temperature_conversion_respects_one_in_progress() {
    let dev = Ds323x::new_ds3231();
    assert_eq!(dev.convert_temperature(0b0001_1100), Some(control_write(0b0011_1100)));
    assert_eq!(dev.convert_temperature(0b0011_1100), None);
    assert_eq!(dev.control(), 0x1C);
}

#[test]
fn aging_offset_is_twos_complement() {
    let dev = Ds323x::new_ds3231();
    assert_eq!(
        dev.set_aging_offset(-1),
        RegisterWrite { address: 0x68, register: 0x10, data: 0xFF }
    );
    assert_eq!(dev.set_aging_offset(5).data, 5);
    assert_eq!(dev.set_aging_offset(-128).data, 0x80);
    assert_eq!(dev.set_aging_offset(127).data, 0x7F);
    assert_eq!(dev.aging_offset(0xFF), -1);
    assert_eq!(dev.aging_offset(0x80), -128);
    assert_eq!(dev.aging_offset(0x7F), 127);
    assert_eq!(dev.aging_offset(0), 0);
    for v in i8::MIN..=i8::MAX {
        assert_eq!(dev.aging_offset(dev.set_aging_offset(v).data), v);
    }
}

#[test]
fn register_transfers() {
    let dev = Ds323x::new_ds3231();
    assert_eq!(
        dev.write_register(0x07, 0x55),
        RegisterWrite { address: 0x68, register: 0x07, data: 0x55 }
    );
    assert_eq!(
        dev.read_register(0x11),
        RegisterRead { address: 0x68, register: 0x11, length: 1 }
    );
    assert_eq!(
        dev.read_data(&[0x00, 0, 0, 0, 0, 0, 0, 0]),
        RegisterRead { address: 0x68, register: 0x00, length: 7 }
    );
    assert_eq!(dev.read_data(&[0x0E]), RegisterRead { address: 0x68, register: 0x0E, length: 0 });
}

#[test]
fn step_and_direction_keeps_its_pins() {
    let device = StepAndDirection::new(15u8, "direction");
    let (step, direction) = device.into_inner();
    assert_eq!(step, 15);
    assert_eq!(direction, "direction");
}

#[test]
fn step_pulse_holds_direction_and_toggles_step() {
    let device = StepAndDirection::new((), ());
    assert_eq!(device.step(true), StepPulse { setup: 0b10, active: 0b11, release: 0b10 });
    assert_eq!(device.step(false), StepPulse { setup: 0b00, active: 0b01, release: 0b00 });
    assert_eq!(device.output_levels(0b00), (false, false));
    assert_eq!(device.output_levels(0b01), (true, false));
    assert_eq!(device.output_levels(0b10), (false, true));
    assert_eq!(device.output_levels(0b11), (true, true));
}
