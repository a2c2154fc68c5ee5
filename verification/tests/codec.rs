use acctrl::consts::{
    degrees_of_code, fan_code, mode_code, temp_code, FanSpeed, Mode, FLAGS_DEF, STATE_OFF,
    STATE_ON, TEMP_CODE_OFF,
};
use acctrl::signal::{
    signal_from_u8, signal_to_u8, signals_to_durations, verify_and_trim, verify_checksum,
    AcCommand, AcCtrl, Signal, SignalType,
};

fn is_type(s: &Signal, t: SignalType) -> bool {
    s.signal_type == t
}

#[test]
fn classifier_zero_band_boundaries() {
    assert!(is_type(&Signal::decode(350_000), SignalType::Invalid));
    assert!(is_type(&Signal::decode(350_001), SignalType::Zero));
    assert!(is_type(&Signal::decode(503_000), SignalType::Zero));
    assert!(is_type(&Signal::decode(649_999), SignalType::Zero));
    assert!(is_type(&Signal::decode(650_000), SignalType::Invalid));
}

#[test]
fn classifier_one_band_boundaries() {
    assert!(is_type(&Signal::decode(1_350_000), SignalType::Invalid));
    assert!(is_type(&Signal::decode(1_350_001), SignalType::One));
    assert!(is_type(&Signal::decode(1_582_000), SignalType::One));
    assert!(is_type(&Signal::decode(1_649_999), SignalType::One));
    assert!(is_type(&Signal::decode(1_650_000), SignalType::Invalid));
}

#[test]
fn classifier_preamble_band_boundaries() {
    assert!(is_type(&Signal::decode(4_000_000), SignalType::Invalid));
    assert!(is_type(&Signal::decode(4_000_001), SignalType::Preamble));
    assert!(is_type(&Signal::decode(4_400_000), SignalType::Preamble));
    assert!(is_type(&Signal::decode(5_999_999), SignalType::Preamble));
    assert!(is_type(&Signal::decode(6_000_000), SignalType::Invalid));
}

#[test]
fn classifier_extremes_are_invalid() {
    assert!(is_type(&Signal::decode(0), SignalType::Invalid));
    assert!(is_type(&Signal::decode(1_000_000), SignalType::Invalid));
    assert!(is_type(&Signal::decode(u64::MAX), SignalType::Invalid));
}

#[test]
fn nominal_pulses() {
    let one = Signal::one();
    assert!(matches!(one.signal_type, SignalType::One));
    assert_eq!(one.duration, 1_582_000);
    assert_eq!(one.bit(), 1);
    let zero = Signal::zero();
    assert!(matches!(zero.signal_type, SignalType::Zero));
    assert_eq!(zero.duration, 503_000);
    assert_eq!(zero.bit(), 0);
}

#[test]
fn byte_roundtrip_all_values() {
    for b in 0..=255u8 {
        let pulses = signal_from_u8(b);
        assert_eq!(pulses.len(), 8);
        assert_eq!(signal_to_u8(&pulses), b);
    }
}

#[test]
fn byte_packing_is_msb_first() {
    let pulses = signal_from_u8(0b10110010);
    let expected = [true, false, true, true, false, false, true, false];
    for (p, one) in pulses.iter().zip(expected.iter()) {
        if *one {
            assert!(matches!(p.signal_type, SignalType::One));
        } else {
            assert!(matches!(p.signal_type, SignalType::Zero));
        }
    }
    let mut rebuilt = Vec::new();
    for one in expected.iter() {
        rebuilt.push(if *one { Signal::one() } else { Signal::zero() });
    }
    assert_eq!(signal_to_u8(&rebuilt), 0b10110010);
}

#[test]
fn temp_table_is_a_bijection() {
    let mut degrees: Vec<u8> = vec![0];
    for d in 17..=30u8 {
        degrees.push(d);
    }
    let codes: Vec<u8> = degrees.iter().map(|d| temp_code(*d)).collect();
    for i in 0..codes.len() {
        for j in 0..codes.len() {
            if i != j {
                assert_ne!(codes[i], codes[j]);
            }
        }
    }
    for (d, c) in degrees.iter().zip(codes.iter()) {
        assert_eq!(degrees_of_code(*c), Some(*d));
    }
    assert_eq!(temp_code(0), TEMP_CODE_OFF);
    assert_eq!(degrees_of_code(0b1111), None);
}

#[test]
fn temp_table_exact_codes() {
    assert_eq!(temp_code(17), 0b0000);
    assert_eq!(temp_code(22), 0b0111);
    assert_eq!(temp_code(30), 0b1011);
    assert_eq!(temp_code(0), 0b1110);
}

#[test]
fn encode_decode_roundtrip_when_on() {
    let modes = [Mode::Cool, Mode::Heat, Mode::Dry, Mode::Auto];
    let fans = [FanSpeed::Auto, FanSpeed::Low, FanSpeed::Medium, FanSpeed::High];
    for mode in modes.iter() {
        for fan in fans.iter() {
            for temp in 17..=30u8 {
                let record = AcCtrl::new(temp, *fan, *mode, true);
                let decoded = record.decode();
                assert_eq!(
                    decoded,
                    Some(AcCommand { on: true, mode: *mode, fan: *fan, temperature: temp })
                );
            }
        }
    }
}

#[test]
fn decode_reports_fan_only_by_convention() {
    let record = AcCtrl::new(25, FanSpeed::Auto, Mode::Fan, true);
    assert_eq!(record.temp_and_mode, 0b0100 | (0b1110 << 4));
    let decoded = record.decode().unwrap();
    assert!(matches!(decoded.mode, Mode::Fan));
    assert!(decoded.on);
    assert_eq!(decoded.temperature, 0);
}

#[test]
fn decode_rejects_unmapped_codes() {
    // temperature code 0b1111 is not in the table
    let bad_temp = AcCtrl { flags: FLAGS_DEF, fan_and_state: 0b1011_1111, temp_and_mode: 0b1111_0000 };
    assert_eq!(bad_temp.decode(), None);
    // fan code 0b0000 is unmapped
    let bad_fan = AcCtrl { flags: FLAGS_DEF, fan_and_state: 0b0000_1111, temp_and_mode: 0b0111_0000 };
    assert_eq!(bad_fan.decode(), None);
    // mode code 0b0001 is unmapped
    let bad_mode = AcCtrl { flags: FLAGS_DEF, fan_and_state: 0b1011_1111, temp_and_mode: 0b0111_0001 };
    assert_eq!(bad_mode.decode(), None);
    // state nibble 0b0101 is neither on nor off
    let bad_state = AcCtrl { flags: FLAGS_DEF, fan_and_state: 0b1011_0101, temp_and_mode: 0b0111_0000 };
    assert_eq!(bad_state.decode(), None);
}

#[test]
fn scenario_cool_high_22_on() {
    let record = AcCtrl::new(22, FanSpeed::High, Mode::Cool, true);
    assert_eq!(record.flags, 0b10110010);
    assert_eq!(record.fan_and_state, 0b00111111);
    assert_eq!(record.temp_and_mode, 0b01110000);
    let frame = record.to_signals();
    assert_eq!(frame.len(), 48);
    assert!(verify_checksum(&frame));
}

#[test]
fn scenario_power_off() {
    for fan in [FanSpeed::Auto, FanSpeed::Low, FanSpeed::Medium, FanSpeed::High] {
        for mode in [Mode::Cool, Mode::Heat, Mode::Dry, Mode::Auto, Mode::Fan] {
            for temp in [0u8, 17, 30] {
                let record = AcCtrl::new(temp, fan, mode, false);
                assert_eq!(record.fan_and_state & 0xF, STATE_OFF);
                assert_eq!(record.fan_and_state >> 4, fan_code(FanSpeed::Off));
                assert_eq!(record.temp_and_mode >> 4, TEMP_CODE_OFF);
                assert_eq!(record.temp_and_mode & 0xF, mode_code(mode));
            }
        }
    }
}

#[test]
fn checksum_holds_for_self_generated_frames() {
    for temp in 17..=30u8 {
        let record = AcCtrl::new(temp, FanSpeed::Medium, Mode::Heat, true);
        assert!(verify_checksum(&record.to_signals()));
    }
    let off = AcCtrl::new(0, FanSpeed::Off, Mode::Cool, false);
    assert!(verify_checksum(&off.to_signals()));
}

#[test]
fn checksum_rejects_a_flipped_bit() {
    let record = AcCtrl::new(22, FanSpeed::High, Mode::Cool, true);
    let mut frame = record.to_signals();
    // flip the first pulse of the frame
    frame[0] = if matches!(frame[0].signal_type, SignalType::One) {
        Signal::zero()
    } else {
        Signal::one()
    };
    assert!(!verify_checksum(&frame));
}

#[test]
fn verify_and_trim_accepts_a_repeated_frame() {
    let record = AcCtrl::new(22, FanSpeed::High, Mode::Cool, true);
    let frame = record.to_signals();
    // a realistic capture: preambles and noise around two copies of the frame
    let mut capture = Vec::new();
    capture.push(Signal::decode(4_400_000));
    capture.push(Signal::decode(4_400_000));
    capture.extend(frame.iter().cloned());
    capture.push(Signal::decode(123));
    capture.push(Signal::decode(4_400_000));
    capture.push(Signal::decode(4_400_000));
    capture.extend(frame.iter().cloned());
    let trimmed = verify_and_trim(&capture).expect("capture should validate");
    assert_eq!(trimmed.len(), 48);
    for (a, b) in trimmed.iter().zip(frame.iter()) {
        assert!(is_type(a, b.signal_type));
    }
    let rebuilt = AcCtrl::from_signals(&trimmed);
    assert_eq!(rebuilt, record);
}

#[test]
fn verify_and_trim_rejects_mismatched_halves() {
    let record = AcCtrl::new(22, FanSpeed::High, Mode::Cool, true);
    let frame = record.to_signals();
    let mut capture = frame.clone();
    let mut second = frame.clone();
    // corrupt one category in the second half
    second[5] = if matches!(second[5].signal_type, SignalType::One) {
        Signal::zero()
    } else {
        Signal::one()
    };
    capture.extend(second);
    assert_eq!(capture.len(), 96);
    assert!(verify_and_trim(&capture).is_none());
}

#[test]
fn verify_and_trim_rejects_wrong_count() {
    let record = AcCtrl::new(22, FanSpeed::High, Mode::Cool, true);
    let frame = record.to_signals();
    let mut capture = frame.clone();
    capture.extend(frame.iter().cloned());
    capture.pop();
    assert!(verify_and_trim(&capture).is_none());
    assert!(verify_and_trim(&frame).is_none());
    assert!(verify_and_trim(&Vec::new()).is_none());
}

#[test]
fn from_signals_reads_both_capture_shapes() {
    let record = AcCtrl::new(19, FanSpeed::Low, Mode::Dry, true);
    let frame = record.to_signals();
    assert_eq!(AcCtrl::from_signals(&frame), record);
    // only the non-inverted half: bytes 0, 2, 4 of the frame
    let mut short = Vec::new();
    short.extend(frame[0..8].iter().cloned());
    short.extend(frame[16..24].iter().cloned());
    short.extend(frame[32..40].iter().cloned());
    assert_eq!(AcCtrl::from_signals(&short), record);
}

#[test]
fn durations_list_for_a_short_sequence() {
    let signals = vec![Signal::one(), Signal::zero()];
    let durs = signals_to_durations(&signals);
    let rep = vec![4400u32, 4400, 576, 1582, 576, 503, 576];
    let mut expected = rep.clone();
    expected.push(5000);
    expected.extend(rep);
    assert_eq!(durs, expected);
}

#[test]
fn durations_list_for_a_full_frame() {
    let record = AcCtrl::new(22, FanSpeed::High, Mode::Cool, true);
    let frame = record.to_signals();
    let durs = signals_to_durations(&frame);
    // 2 * (3 preamble entries + 48 * 2) + 1 separator
    assert_eq!(durs.len(), 2 * (3 + 96) + 1);
    assert_eq!(durs[0], 4400);
    assert_eq!(durs[1], 4400);
    assert_eq!(durs[2], 576);
    assert_eq!(durs[3 + 96], 5000);
    // flags start 1, 0, 1, 1, ...
    assert_eq!(durs[3], 1582);
    assert_eq!(durs[5], 503);
    assert_eq!(durs[durs.len() - 1], 576);
}

#[test]
fn on_state_uses_requested_fan_and_temp() {
    let record = AcCtrl::new(30, FanSpeed::Low, Mode::Auto, true);
    assert_eq!(record.fan_and_state, (0b1001 << 4) | STATE_ON);
    assert_eq!(record.temp_and_mode, 0b1000 | (0b1011 << 4));
}
