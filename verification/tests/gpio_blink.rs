use gpio_blink::bank::{
    RegisterBank, FSEL27_MASK, FSEL27_SHIFT, GPCLR0_WORD, GPFSEL2_WORD, GPLEV0_WORD, GPSET0_WORD,
    PAGE_WORDS, PIN27_SHIFT,
};
use gpio_blink::bits::{apply_field, extract_bit};
use gpio_blink::driver::{driver_step, DriverAction, DriverState, BLINK_COUNT};
use gpio_blink::mapper::{complete_mapping, map_registers, MapError, MapRequest};

#[test]
fn apply_field_preserves_outside_mask() {
    // All-ones register, output code into the 3-bit field at bit 21.
    let r = apply_field(0xFFFF_FFFF, FSEL27_MASK, 1, FSEL27_SHIFT);
    assert_eq!(r, 0xFF3F_FFFF);
    // Every bit kept by the mask is unchanged; the field holds the payload.
    assert_eq!(r & FSEL27_MASK, 0xFFFF_FFFF & FSEL27_MASK);
    assert_eq!(r & !FSEL27_MASK, 1 << FSEL27_SHIFT);
}

#[test]
fn apply_field_sets_exactly_the_field() {
    // A register with arbitrary traffic in other fields.
    let v = 0x1234_5678;
    let r = apply_field(v, FSEL27_MASK, 0b101, FSEL27_SHIFT);
    assert_eq!(r & FSEL27_MASK, v & FSEL27_MASK);
    assert_eq!((r >> FSEL27_SHIFT) & 0b111, 0b101);
}

#[test]
fn apply_field_zero_payload_clears_field() {
    let r = apply_field(0xFFFF_FFFF, FSEL27_MASK, 0, FSEL27_SHIFT);
    assert_eq!(r, 0xFF1F_FFFF);
}

#[test]
fn extract_bit_reads_single_bit() {
    assert_eq!(extract_bit(0b1000, 3), 1);
    assert_eq!(extract_bit(0b1000, 2), 0);
    assert_eq!(extract_bit(0x8000_0000, 31), 1);
    assert_eq!(extract_bit(0xFFFF_FFFF, 0), 1);
    assert_eq!(extract_bit(0xFFFF_FFFE, 0), 0);
}

#[test]
fn extract_bit_idempotent_and_independent() {
    // The result is a pure bit: extracting from it again gives it back.
    let r = extract_bit(0xDEAD_BEEF, PIN27_SHIFT);
    assert_eq!(extract_bit(r, 0), r);
    // Flipping every other bit leaves the extracted bit unchanged.
    let v = 0xDEAD_BEEF;
    let flipped = v ^ !(1 << PIN27_SHIFT);
    assert_eq!(extract_bit(v, PIN27_SHIFT), extract_bit(flipped, PIN27_SHIFT));
}

#[test]
fn configure_sets_only_the_mode_field() {
    // Function-select register starts at zero; afterwards bits 21..=23 hold
    // 0b001 and every other word of the page is still zero.
    let mut bank = RegisterBank::new();
    bank.configure_pin_as_output();
    assert_eq!(bank.read_word(GPFSEL2_WORD), 0b001 << FSEL27_SHIFT);
    for off in 0..PAGE_WORDS {
        if off != GPFSEL2_WORD {
            assert_eq!(bank.read_word(off), 0);
        }
    }
}

#[test]
fn configure_preserves_other_fields() {
    let mut bank = RegisterBank::new();
    bank.write_word(GPFSEL2_WORD, 0xFFFF_FFFF);
    bank.configure_pin_as_output();
    assert_eq!(bank.read_word(GPFSEL2_WORD), 0xFF3F_FFFF);
}

#[test]
fn toggle_from_low_targets_set_register() {
    // Level bit 27 is 0: the toggle writes 1 << 27 into the set register
    // and leaves the clear register untouched.
    let mut bank = RegisterBank::new();
    let level = bank.toggle_pin();
    assert_eq!(level, 0);
    assert_eq!(bank.read_word(GPSET0_WORD), 1 << PIN27_SHIFT);
    assert_eq!(bank.read_word(GPCLR0_WORD), 0);
    assert_eq!(extract_bit(bank.read_word(GPLEV0_WORD), PIN27_SHIFT), 1);
}

#[test]
fn toggle_from_high_targets_clear_register() {
    let mut bank = RegisterBank::new();
    bank.write_word(GPLEV0_WORD, 1 << PIN27_SHIFT);
    let level = bank.toggle_pin();
    assert_eq!(level, 1);
    assert_eq!(bank.read_word(GPCLR0_WORD), 1 << PIN27_SHIFT);
    assert_eq!(bank.read_word(GPSET0_WORD), 0);
    assert_eq!(extract_bit(bank.read_word(GPLEV0_WORD), PIN27_SHIFT), 0);
}

#[test]
fn toggle_twice_round_trips() {
    // From low: two toggles return the level to low.
    let mut bank = RegisterBank::new();
    bank.toggle_pin();
    bank.toggle_pin();
    assert_eq!(extract_bit(bank.read_word(GPLEV0_WORD), PIN27_SHIFT), 0);
    // From high: two toggles return the level to high.
    let mut bank = RegisterBank::new();
    bank.write_word(GPLEV0_WORD, 1 << PIN27_SHIFT);
    bank.toggle_pin();
    bank.toggle_pin();
    assert_eq!(extract_bit(bank.read_word(GPLEV0_WORD), PIN27_SHIFT), 1);
}

#[test]
fn ten_toggles_have_even_parity() {
    // Ten consecutive toggles from level 0: the level is 1 after each odd
    // count, 0 after each even count, and after all ten equals the start.
    let mut bank = RegisterBank::new();
    assert_eq!(extract_bit(bank.read_word(GPLEV0_WORD), PIN27_SHIFT), 0);
    for n in 1..=10u32 {
        bank.toggle_pin();
        let bit = extract_bit(bank.read_word(GPLEV0_WORD), PIN27_SHIFT);
        assert_eq!(bit, n % 2);
    }
    assert_eq!(extract_bit(bank.read_word(GPLEV0_WORD), PIN27_SHIFT), 0);
}

#[test]
fn restore_drives_low_and_resets_mode() {
    let mut bank = RegisterBank::new();
    bank.configure_pin_as_output();
    bank.toggle_pin();
    assert_eq!(extract_bit(bank.read_word(GPLEV0_WORD), PIN27_SHIFT), 1);
    bank.restore_pin_as_input();
    assert_eq!(extract_bit(bank.read_word(GPLEV0_WORD), PIN27_SHIFT), 0);
    assert_eq!((bank.read_word(GPFSEL2_WORD) >> FSEL27_SHIFT) & 0b111, 0);
    assert_eq!(bank.read_word(GPCLR0_WORD), 1 << PIN27_SHIFT);
}

#[test]
fn map_registers_open_failure_is_fatal() {
    // A simulated device-open failure: the error carries the open step's
    // code as DeviceOpenFailed, and no mapping request exists, so the
    // mapping step cannot be attempted.
    let r = map_registers(0x3F20_0000, 4096, Err(13));
    assert_eq!(r, Err(MapError::DeviceOpenFailed(13)));
}

#[test]
fn map_registers_success_builds_the_request() {
    let r = map_registers(0x3F20_0000, 4096, Ok(5));
    assert_eq!(
        r,
        Ok(MapRequest { fd: 5, physical_base: 0x3F20_0000, length: 4096 })
    );
}

#[test]
fn complete_mapping_failure_is_mapping_failed() {
    let r = complete_mapping(Err(22));
    assert_eq!(r, Err(MapError::MappingFailed(22)));
}

#[test]
fn complete_mapping_success_passes_the_base_through() {
    let r = complete_mapping(Ok(0x7F00_0000));
    assert_eq!(r, Ok(0x7F00_0000));
}

#[test]
fn driver_runs_one_way() {
    assert_eq!(
        driver_step(DriverState::Unconfigured, 0),
        (DriverAction::Configure, DriverState::ConfiguredOutput)
    );
    assert_eq!(
        driver_step(DriverState::ConfiguredOutput, 0),
        (DriverAction::ToggleAndWait, DriverState::ConfiguredOutput)
    );
    assert_eq!(
        driver_step(DriverState::ConfiguredOutput, BLINK_COUNT - 1),
        (DriverAction::ToggleAndWait, DriverState::ConfiguredOutput)
    );
    assert_eq!(
        driver_step(DriverState::ConfiguredOutput, BLINK_COUNT),
        (DriverAction::Restore, DriverState::TerminatedInput)
    );
    assert_eq!(
        driver_step(DriverState::TerminatedInput, BLINK_COUNT),
        (DriverAction::Halt, DriverState::TerminatedInput)
    );
}

#[test]
fn driver_blinks_exactly_blink_count_times() {
    let mut state = DriverState::Unconfigured;
    let mut blinks: u32 = 0;
    let mut toggles: u32 = 0;
    loop {
        let (action, next) = driver_step(state, blinks);
        match action {
            DriverAction::Configure => {}
            DriverAction::ToggleAndWait => {
                toggles += 1;
                blinks += 1;
            }
            DriverAction::Restore => {}
            DriverAction::Halt => break,
        }
        state = next;
    }
    assert_eq!(toggles, BLINK_COUNT);
    assert_eq!(state, DriverState::TerminatedInput);
}
