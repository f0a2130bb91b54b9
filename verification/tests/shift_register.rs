use xmz_shift_register::{PinCommand, RegisterType, ShiftRegister, ShiftRegisterError};

#[test]
fn test_set() {
    let mut register = ShiftRegister::new(RegisterType::MOCK);
    // after construction the data field must be 0'ed
    assert!(register.data == 0);
    // set the fifth bit in data field
    register.set(5).unwrap();
    assert!(register.data == 0b0001_0000);
}

// Set should only set new bits, it should keep the data field of the ShiftRegister struct intakt.
#[test]
fn test_multiple_set() {
    let mut register = ShiftRegister::new(RegisterType::MOCK);
    register.set(1).unwrap();
    assert!(register.data == 0b1);
    register.set(5).unwrap();
    assert!(register.data == 0b0001_0001);
    register.set(10).unwrap();
    assert!(register.data == 0b0010_0001_0001);
}

#[test]
fn test_get_one_bit() {
    let mut register = ShiftRegister::new(RegisterType::MOCK);
    // befor all value sould be null, tested already
    assert!(register.get(5).unwrap() == false);
    register.set(5).unwrap();
    assert!(register.get(5).unwrap() == true);
}

#[test]
fn test_toggle_one_bit() {
    let mut register = ShiftRegister::new(RegisterType::MOCK);
    assert!(register.get(5).unwrap() == false);
    // Toggle on
    register.toggle(5).unwrap();
    assert!(register.get(5).unwrap() == true);
    // Toggle off
    register.toggle(5).unwrap();
    assert!(register.get(5).unwrap() == false);

    register.toggle(5).unwrap();
    assert!(register.get(5).unwrap() == true);
    register.toggle(5).unwrap();
    assert!(register.get(5).unwrap() == false);
}

/// `shift_out()` should not change the data in self.data field.
#[test]
fn test_shift_out_should_not_change_data() {
    let mut register = ShiftRegister::new(RegisterType::MOCK);
    register.set(1).unwrap();
    register.set(2).unwrap();
    assert!(register.data == 0b11);
    let _ = register.shift_out();
    assert!(register.data == 0b11);
}

#[test]
fn test_export_pins_on_mock() {
    let mock = ShiftRegister::new(RegisterType::MOCK);
    let cmds = mock.export_pins();
    assert!(cmds.is_empty());
}

#[test]
fn fresh_buffer_has_every_bit_clear() {
    let register = ShiftRegister::new(RegisterType::LED);
    for i in 1..=64u64 {
        assert_eq!(register.get(i).unwrap(), false);
    }
}

#[test]
fn set_leaves_every_other_bit_untouched() {
    let mut register = ShiftRegister::new(RegisterType::MOCK);
    register.set(23).unwrap();
    register.set(7).unwrap();
    for j in 1..=64u64 {
        let expected = j == 7 || j == 23;
        assert_eq!(register.get(j).unwrap(), expected);
    }
}

#[test]
fn set_twice_equals_set_once() {
    let mut once = ShiftRegister::new(RegisterType::MOCK);
    once.set(13).unwrap();
    let mut twice = ShiftRegister::new(RegisterType::MOCK);
    twice.set(13).unwrap();
    twice.set(13).unwrap();
    assert_eq!(once.data, twice.data);
}

#[test]
fn toggle_even_times_restores_odd_times_flips() {
    let mut register = ShiftRegister::new(RegisterType::MOCK);
    register.set(2).unwrap();
    let before = register.data;
    let initial = register.get(9).unwrap();
    for _ in 0..4 {
        register.toggle(9).unwrap();
    }
    assert_eq!(register.get(9).unwrap(), initial);
    assert_eq!(register.data, before);
    for _ in 0..3 {
        register.toggle(9).unwrap();
    }
    assert_eq!(register.get(9).unwrap(), !initial);
}

#[test]
fn commit_never_changes_the_buffer() {
    let mut register = ShiftRegister::new(RegisterType::RELAIS);
    register.set(1).unwrap();
    register.set(33).unwrap();
    register.toggle(64).unwrap();
    let before = register.data;
    let _ = register.shift_out();
    assert_eq!(register.data, before);
    let _ = register.shift_out();
    assert_eq!(register.data, before);
}

#[test]
fn mock_commit_produces_no_commands() {
    let mut mock = ShiftRegister::new(RegisterType::MOCK);
    mock.set(5).unwrap();
    assert!(mock.export_pins().is_empty());
    assert!(mock.set_pin_direction().is_empty());
    let plan = mock.shift_out();
    assert!(plan.setup.is_empty());
    assert!(plan.serial.is_empty());
}

#[test]
fn scenario_set_bits_and_commit() {
    let mut register = ShiftRegister::new(RegisterType::MOCK);
    assert_eq!(register.data, 0);
    register.set(5).unwrap();
    assert_eq!(register.data, 0b0001_0000);
    register.set(1).unwrap();
    assert_eq!(register.data, 0b0001_0001);
    register.set(10).unwrap();
    assert_eq!(register.data, 0b0000_0010_0001_0001);
    let _ = register.shift_out();
    assert_eq!(register.data, 0b0000_0010_0001_0001);
}

#[test]
fn scenario_toggle_on_zero_buffer() {
    let mut register = ShiftRegister::new(RegisterType::MOCK);
    register.toggle(5).unwrap();
    assert_eq!(register.get(5).unwrap(), true);
    register.toggle(5).unwrap();
    assert_eq!(register.get(5).unwrap(), false);
}

#[test]
fn out_of_range_indices_are_rejected() {
    let mut register = ShiftRegister::new(RegisterType::MOCK);
    assert_eq!(register.set(0), Err(ShiftRegisterError::OutOfRangeBit));
    assert_eq!(register.set(65), Err(ShiftRegisterError::OutOfRangeBit));
    assert_eq!(register.get(0), Err(ShiftRegisterError::OutOfRangeBit));
    assert_eq!(register.get(65), Err(ShiftRegisterError::OutOfRangeBit));
    assert_eq!(register.toggle(0), Err(ShiftRegisterError::OutOfRangeBit));
    assert_eq!(register.toggle(65), Err(ShiftRegisterError::OutOfRangeBit));
    // the rejected calls leave the buffer untouched
    assert_eq!(register.data, 0);
}

#[test]
fn pin_bindings_per_profile() {
    let led = ShiftRegister::new(RegisterType::LED);
    assert_eq!(
        (led.oe_pin, led.ds_pin, led.clock_pin, led.latch_pin),
        (276, 38, 44, 40)
    );
    let relais = ShiftRegister::new(RegisterType::RELAIS);
    assert_eq!(
        (relais.oe_pin, relais.ds_pin, relais.clock_pin, relais.latch_pin),
        (277, 45, 39, 37)
    );
    let mock = ShiftRegister::new(RegisterType::MOCK);
    assert_eq!(
        (mock.oe_pin, mock.ds_pin, mock.clock_pin, mock.latch_pin),
        (0, 0, 0, 0)
    );
}

#[test]
fn setup_commands_export_then_configure() {
    let led = ShiftRegister::new(RegisterType::LED);
    let plan = led.shift_out();
    assert_eq!(
        plan.setup[..4],
        [
            PinCommand::Export(276),
            PinCommand::Export(38),
            PinCommand::Export(44),
            PinCommand::Export(40),
        ]
    );
    assert_eq!(
        plan.setup[4..],
        [
            PinCommand::SetDirectionOut(276),
            PinCommand::SetValue(276, false),
            PinCommand::SetDirectionOut(38),
            PinCommand::SetValue(38, false),
            PinCommand::SetDirectionOut(44),
            PinCommand::SetValue(44, false),
            PinCommand::SetDirectionOut(40),
            PinCommand::SetValue(40, false),
        ]
    );
}

#[test]
fn serial_stream_is_msb_first_with_one_latch_pulse() {
    let mut led = ShiftRegister::new(RegisterType::LED);
    // bit 63 (index 64) is the most significant, clocked first;
    // bit 0 (index 1) is clocked last
    led.set(64).unwrap();
    led.set(1).unwrap();
    let plan = led.shift_out();
    assert_eq!(plan.serial.len(), 194);
    // first clocked bit: buffer bit 63, high
    assert_eq!(plan.serial[0], PinCommand::SetValue(38, true));
    assert_eq!(plan.serial[1], PinCommand::SetValue(44, true));
    assert_eq!(plan.serial[2], PinCommand::SetValue(44, false));
    // a middle bit was never set: low on the data line
    assert_eq!(plan.serial[3 * 30], PinCommand::SetValue(38, false));
    // last clocked bit: buffer bit 0, high
    assert_eq!(plan.serial[3 * 63], PinCommand::SetValue(38, true));
    assert_eq!(plan.serial[3 * 63 + 1], PinCommand::SetValue(44, true));
    assert_eq!(plan.serial[3 * 63 + 2], PinCommand::SetValue(44, false));
    // exactly one latch pulse, high then low, after all 64 bits
    assert_eq!(plan.serial[192], PinCommand::SetValue(40, true));
    assert_eq!(plan.serial[193], PinCommand::SetValue(40, false));
}

#[test]
fn init_clears_buffer_and_plans_all_zero_commit() {
    let mut relais = ShiftRegister::new(RegisterType::RELAIS);
    relais.set(3).unwrap();
    relais.set(17).unwrap();
    let plan = relais.init();
    assert_eq!(relais.data, 0);
    assert_eq!(plan.serial.len(), 194);
    // every clocked bit drives the data line (pin 45) low
    for k in 0..64 {
        assert_eq!(plan.serial[3 * k], PinCommand::SetValue(45, false));
    }
}

#[test]
fn reset_clears_buffer_without_commands() {
    let mut register = ShiftRegister::new(RegisterType::LED);
    register.set(8).unwrap();
    assert_ne!(register.data, 0);
    register.reset();
    assert_eq!(register.data, 0);
}
