use wfm::header::{
    binary32, channel_header, infer_points, logic_analyzer_header, rolling_correction,
    time_header, trigger_header, waveform_header,
};
use wfm::{
    Binary32, ChannelHeader, Coupling, Cursor, Error, LogicAnalyzerHeader, Source, Stage,
    TimeHeader, TriggerHeader, TriggerMode, Unit,
};

fn put(buffer: &mut [u8], at: usize, bytes: &[u8]) {
    buffer[at..at + bytes.len()].copy_from_slice(bytes);
}

/// A buffer of `len` bytes in which every byte differs from its neighbours,
/// so that a field read at a wrong offset shows.
fn pattern(len: usize) -> Vec<u8> {
    (0..len).map(|i| (i * 7 + 3) as u8).collect()
}

fn channel_block() -> Vec<u8> {
    let mut b = pattern(24);
    put(&mut b, 2, &1000i32.to_le_bytes());
    put(&mut b, 6, &(-20i16).to_le_bytes());
    put(&mut b, 10, &10.0f32.to_le_bytes());
    b[14] = 0x5a;
    b[15] = 1;
    b[16] = 0;
    put(&mut b, 18, &1000i32.to_le_bytes());
    put(&mut b, 22, &50i16.to_le_bytes());
    b
}

fn time_block() -> Vec<u8> {
    let mut b = pattern(36);
    put(&mut b, 0, &500_000_000i64.to_le_bytes());
    put(&mut b, 8, &(-3i64).to_le_bytes());
    put(&mut b, 16, &1.0e9f32.to_le_bytes());
    put(&mut b, 20, &1_000_000_000_000i64.to_le_bytes());
    put(&mut b, 28, &(-250_000_000i64).to_le_bytes());
    b
}

fn logic_block() -> Vec<u8> {
    let mut b = pattern(22);
    b[0] = 0x03;
    b[1] = 9;
    put(&mut b, 2, &0x8001u16.to_le_bytes());
    for i in 0..16 {
        b[4 + i] = 100 + i as u8;
    }
    b[20] = 8;
    b[21] = 7;
    b
}

fn trigger_block(mode: u8, source: u8, coupling: u8) -> Vec<u8> {
    let mut b = pattern(40);
    b[0] = mode;
    b[1] = source;
    b[2] = coupling;
    b[3] = 0x11;
    put(&mut b, 5, &0.5f32.to_le_bytes());
    put(&mut b, 9, &1.0e-7f32.to_le_bytes());
    put(&mut b, 13, &(-1.25f32).to_le_bytes());
    b[17] = 2;
    b[18] = 0x22;
    put(&mut b, 21, &3.0f32.to_le_bytes());
    b[25] = 0x33;
    put(&mut b, 29, &4.0f32.to_le_bytes());
    put(&mut b, 33, &5.0f32.to_le_bytes());
    b[37] = 0x44;
    b[38] = 0x55;
    b[39] = 0x66;
    b
}

fn header_bytes(roll_stop: u32, raw_ch1_points: u32, raw_ch2_points: u32) -> Vec<u8> {
    let mut b = pattern(276);
    put(&mut b, 0, &[0xa5, 0xa5, 0x00, 0x00]);
    b[16] = 0x21;
    put(&mut b, 20, &roll_stop.to_le_bytes());
    put(&mut b, 28, &raw_ch1_points.to_le_bytes());
    b[32] = 1;
    put(&mut b, 34, &channel_block());
    let mut ch2 = channel_block();
    ch2[15] = 0;
    ch2[16] = 1;
    put(&mut ch2, 18, &(-2000i32).to_le_bytes());
    put(&mut b, 58, &ch2);
    put(&mut b, 84, &time_block());
    put(&mut b, 120, &logic_block());
    b[142] = 4;
    put(&mut b, 143, &trigger_block(0, 1, 2));
    put(&mut b, 183, &trigger_block(6, 5, 0));
    put(&mut b, 229, &raw_ch2_points.to_le_bytes());
    let mut time2 = time_block();
    put(&mut time2, 20, &77i64.to_le_bytes());
    put(&mut b, 233, &time2);
    put(&mut b, 269, &2.0e8f32.to_le_bytes());
    b
}

const TRUNCATED: Error = Error::Truncated { stage: Stage::Header };

#[test]
fn binary32_keeps_the_bits() {
    let bytes = 12.5f32.to_le_bytes();
    let (value, c) = binary32(Cursor::new(&bytes)).unwrap();
    assert_eq!(value, Binary32 { bits: 0x4148_0000 });
    assert_eq!(f32::from_bits(value.bits), 12.5);
    assert_eq!(c.position(), 4);
    assert!(binary32(Cursor::new(&bytes[..3])).is_none());
}

#[test]
fn binary32_keeps_a_nan_as_it_is() {
    let bytes = [0x01u8, 0x00, 0xc0, 0xff];
    let (value, _) = binary32(Cursor::new(&bytes)).unwrap();
    assert_eq!(value.bits, 0xffc0_0001);
}

#[test]
fn channel_header_reads_its_fields() {
    let bytes = channel_block();
    let (header, c) = channel_header(Cursor::new(&bytes)).unwrap();
    assert_eq!(
        header,
        ChannelHeader {
            scale_display: 1000,
            shift_display: -20,
            probe_value: Binary32 { bits: 10.0f32.to_bits() },
            invert_display: 0x5a,
            scale_measured: 1000,
            shift_measured: 50,
            inverted: false,
            enabled: true,
            unit: Unit::V,
        }
    );
    assert_eq!(c.position(), 24);
}

#[test]
fn channel_header_takes_any_byte_but_zero_as_set() {
    let mut bytes = channel_block();
    bytes[15] = 0;
    bytes[16] = 0x80;
    let (header, _) = channel_header(Cursor::new(&bytes)).unwrap();
    assert!(!header.enabled);
    assert!(header.inverted);
}

#[test]
fn channel_header_needs_24_bytes() {
    let bytes = channel_block();
    for len in 0..24 {
        assert!(channel_header(Cursor::new(&bytes[..len])).is_none());
    }
}

#[test]
fn channel_header_reads_from_the_cursor_on() {
    let mut bytes = vec![0xeeu8; 5];
    bytes.extend_from_slice(&channel_block());
    let c = Cursor::new(&bytes).skip(5).unwrap();
    let (header, c) = channel_header(c).unwrap();
    assert_eq!(header.scale_measured, 1000);
    assert_eq!(header.shift_measured, 50);
    assert_eq!(c.position(), 29);
}

#[test]
fn volt_inputs_are_decoded_exactly() {
    let bytes = channel_block();
    let (header, _) = channel_header(Cursor::new(&bytes)).unwrap();
    let scale = header.scale_measured as f32;
    let probe = f32::from_bits(header.probe_value.bits);
    assert_eq!(scale, 1000.0);
    assert_eq!(probe, 10.0);
    assert_eq!(header.shift_measured, 50);
    assert!(!header.inverted);
}

#[test]
fn time_header_reads_its_fields() {
    let bytes = time_block();
    let (header, c) = time_header(Cursor::new(&bytes)).unwrap();
    assert_eq!(
        header,
        TimeHeader {
            scale_display: 500_000_000,
            offset_display: -3,
            sample_rate_hz: Binary32 { bits: 1.0e9f32.to_bits() },
            scale_measured: 1_000_000_000_000,
            offset_measured: -250_000_000,
        }
    );
    assert_eq!(c.position(), 36);
    assert!(time_header(Cursor::new(&bytes[..35])).is_none());
}

#[test]
fn logic_analyzer_header_reads_its_fields() {
    let bytes = logic_block();
    let (header, c) = logic_analyzer_header(Cursor::new(&bytes)).unwrap();
    assert_eq!(
        header,
        LogicAnalyzerHeader {
            enabled: true,
            active_channel: 9,
            enabled_channels: 0x8001,
            position: [
                100, 101, 102, 103, 104, 105, 106, 107, 108, 109, 110, 111, 112, 113, 114, 115
            ],
            group8to15size: 8,
            group0to7size: 7,
        }
    );
    assert_eq!(c.position(), 22);
    assert!(logic_analyzer_header(Cursor::new(&bytes[..21])).is_none());
}

#[test]
fn logic_analyzer_is_enabled_by_the_lowest_bit_alone() {
    let mut bytes = logic_block();
    for raw in 0..=255u8 {
        bytes[0] = raw;
        let (header, _) = logic_analyzer_header(Cursor::new(&bytes)).unwrap();
        assert_eq!(header.enabled, raw & 1 == 1);
    }
}

#[test]
fn trigger_header_reads_its_fields() {
    let bytes = trigger_block(4, 3, 1);
    let (header, c) = trigger_header(Cursor::new(&bytes)).unwrap();
    assert_eq!(
        header,
        TriggerHeader {
            mode: TriggerMode::Alt,
            source: Source::Ext5,
            coupling: Coupling::Ac,
            sweep: 0x11,
            sens: Binary32 { bits: 0.5f32.to_bits() },
            holdoff: Binary32 { bits: 1.0e-7f32.to_bits() },
            level: Binary32 { bits: (-1.25f32).to_bits() },
            direct: true,
            pulse_type: 0x22,
            pulse_width: Binary32 { bits: 3.0f32.to_bits() },
            slope_type: 0x33,
            lower: Binary32 { bits: 4.0f32.to_bits() },
            slope_width: Binary32 { bits: 5.0f32.to_bits() },
            video_pol: 0x44,
            video_sync: 0x55,
            video_std: 0x66,
        }
    );
    assert_eq!(c.position(), 40);
}

#[test]
fn trigger_header_refuses_a_code_above_the_largest() {
    let at = |bytes: &[u8]| trigger_header(Cursor::new(bytes)).map(|(header, _)| header);
    assert_eq!(
        at(&trigger_block(7, 0, 0)),
        Err(Error::InvalidEnumCode { offset: 0, code: 7 })
    );
    assert_eq!(
        at(&trigger_block(0, 6, 0)),
        Err(Error::InvalidEnumCode { offset: 1, code: 6 })
    );
    assert_eq!(
        at(&trigger_block(0, 0, 3)),
        Err(Error::InvalidEnumCode { offset: 2, code: 3 })
    );
    assert_eq!(
        at(&trigger_block(9, 8, 7)),
        Err(Error::InvalidEnumCode { offset: 0, code: 9 })
    );
    assert_eq!(
        at(&trigger_block(6, 8, 7)),
        Err(Error::InvalidEnumCode { offset: 1, code: 8 })
    );
    assert!(at(&trigger_block(6, 5, 2)).is_ok());
}

#[test]
fn trigger_header_reports_the_offset_in_the_buffer() {
    let mut bytes = vec![0u8; 143];
    bytes.extend_from_slice(&trigger_block(0, 0, 200));
    let c = Cursor::new(&bytes).skip(143).unwrap();
    assert_eq!(
        trigger_header(c).map(|(header, _)| header),
        Err(Error::InvalidEnumCode { offset: 145, code: 200 })
    );
}

#[test]
fn trigger_header_reads_the_block_before_it_decodes() {
    let bytes = trigger_block(7, 0, 0);
    for len in 0..40 {
        assert_eq!(
            trigger_header(Cursor::new(&bytes[..len])).map(|(header, _)| header),
            Err(TRUNCATED)
        );
    }
}

#[test]
fn rolling_correction_without_rolling_mode() {
    assert_eq!(rolling_correction(0, 524288), Ok((524284, 0)));
    assert_eq!(rolling_correction(0, 4), Ok((0, 0)));
    assert_eq!(rolling_correction(0, u32::MAX), Ok((u32::MAX - 4, 0)));
}

#[test]
fn rolling_correction_in_rolling_mode() {
    assert_eq!(rolling_correction(100, 524288), Ok((524182, 102)));
    assert_eq!(rolling_correction(100, 106), Ok((0, 102)));
    assert_eq!(rolling_correction(1, 7), Ok((0, 3)));
    assert_eq!(rolling_correction(u32::MAX - 6, u32::MAX), Ok((0, u32::MAX - 4)));
}

#[test]
fn rolling_correction_fails_below_zero() {
    assert_eq!(rolling_correction(0, 3), Err(Error::ArithmeticUnderflow));
    assert_eq!(rolling_correction(0, 0), Err(Error::ArithmeticUnderflow));
    assert_eq!(rolling_correction(100, 105), Err(Error::ArithmeticUnderflow));
    assert_eq!(rolling_correction(100, 5), Err(Error::ArithmeticUnderflow));
    assert_eq!(rolling_correction(u32::MAX, u32::MAX), Err(Error::ArithmeticUnderflow));
    assert_eq!(rolling_correction(u32::MAX - 5, u32::MAX), Err(Error::ArithmeticUnderflow));
}

#[test]
fn channel_2_takes_the_points_of_channel_1_where_it_has_none() {
    assert_eq!(infer_points(true, 524284, 0), 524284);
    assert_eq!(infer_points(true, 0, 0), 0);
    assert_eq!(infer_points(false, 524284, 0), 0);
}

#[test]
fn channel_2_keeps_its_own_points() {
    assert_eq!(infer_points(true, 524284, 300000), 300000);
    assert_eq!(infer_points(false, 524284, 300000), 300000);
}

#[test]
fn waveform_header_reads_every_field_at_its_offset() {
    let bytes = header_bytes(0, 524288, 0);
    let (header, c) = waveform_header(&bytes).unwrap();
    assert_eq!(c.position(), 276);
    assert_eq!(c.remaining(), 0);
    assert_eq!(header.adc_mode, 0x21);
    assert_eq!(header.roll_stop, 0);
    assert_eq!(header.active_channel, 1);
    let (ch1, _) = channel_header(Cursor::new(&bytes[34..58])).unwrap();
    let (ch2, _) = channel_header(Cursor::new(&bytes[58..82])).unwrap();
    assert_eq!(header.ch1, ch1);
    assert_eq!(header.ch2, ch2);
    assert!(header.ch1.enabled && !header.ch1.inverted);
    assert!(!header.ch2.enabled && header.ch2.inverted);
    assert_eq!(header.ch2.scale_measured, -2000);
    let (time, _) = time_header(Cursor::new(&bytes[84..120])).unwrap();
    let (time2, _) = time_header(Cursor::new(&bytes[233..269])).unwrap();
    assert_eq!(header.time, time);
    assert_eq!(header.time2, time2);
    assert_eq!(header.time.scale_measured, 1_000_000_000_000);
    assert_eq!(header.time2.scale_measured, 77);
    let (logic, _) = logic_analyzer_header(Cursor::new(&bytes[120..142])).unwrap();
    assert_eq!(header.logic, logic);
    assert_eq!(header.logic.position[15], 115);
    assert_eq!(header.trigger1.mode, TriggerMode::Edge);
    assert_eq!(header.trigger1.source, Source::Ch2);
    assert_eq!(header.trigger1.coupling, Coupling::Gnd);
    assert_eq!(header.trigger2.mode, TriggerMode::Duration);
    assert_eq!(header.trigger2.source, Source::DigCh);
    assert_eq!(header.trigger2.coupling, Coupling::Dc);
    assert_eq!(header.trigger2.video_std, 0x66);
    assert_eq!(header.ch1_points, 524284);
    assert_eq!(header.ch1_skip, 0);
    assert_eq!(header.ch2_points, 524284);
}

#[test]
fn waveform_header_corrects_for_rolling_mode() {
    let bytes = header_bytes(100, 524288, 300000);
    let (header, _) = waveform_header(&bytes).unwrap();
    assert_eq!(header.roll_stop, 100);
    assert_eq!(header.ch1_points, 524182);
    assert_eq!(header.ch1_skip, 102);
    assert_eq!(header.ch2_points, 300000);
}

#[test]
fn waveform_header_leaves_channel_2_without_points_where_channel_1_is_off() {
    let mut bytes = header_bytes(0, 524288, 0);
    bytes[34 + 15] = 0;
    let (header, _) = waveform_header(&bytes).unwrap();
    assert!(!header.ch1.enabled);
    assert_eq!(header.ch1_points, 524284);
    assert_eq!(header.ch2_points, 0);
}

#[test]
fn waveform_header_stops_at_the_first_sample() {
    let mut bytes = header_bytes(0, 4, 0);
    bytes.extend_from_slice(&[1, 2, 3]);
    let (_, c) = waveform_header(&bytes).unwrap();
    assert_eq!(c.position(), 276);
    assert_eq!(c.remaining(), 3);
}

#[test]
fn waveform_header_refuses_another_tag() {
    let header = |bytes: &[u8]| waveform_header(bytes).map(|(header, _)| header);
    for at in 0..4 {
        let mut bytes = header_bytes(0, 524288, 0);
        bytes[at] ^= 0x01;
        assert_eq!(header(&bytes), Err(Error::MagicMismatch));
        assert_eq!(header(&bytes[..at + 1]), Err(Error::MagicMismatch));
    }
    assert_eq!(header(&[0x00]), Err(Error::MagicMismatch));
    assert_eq!(header(&[0xa5, 0xa5, 0x00]), Err(TRUNCATED));
    assert_eq!(header(&[]), Err(TRUNCATED));
}

#[test]
fn waveform_header_needs_276_bytes() {
    let bytes = header_bytes(0, 524288, 0);
    for len in 0..276 {
        assert_eq!(
            waveform_header(&bytes[..len]).map(|(header, _)| header),
            Err(TRUNCATED)
        );
    }
    assert!(waveform_header(&bytes).is_ok());
}

#[test]
fn waveform_header_refuses_codes_above_the_largest() {
    let header = |bytes: &[u8]| waveform_header(bytes).map(|(header, _)| header);
    let cases = [(142usize, 7u8), (143, 7), (144, 6), (145, 3), (183, 7), (184, 6), (185, 3)];
    for (offset, code) in cases {
        let mut bytes = header_bytes(0, 524288, 0);
        bytes[offset] = code;
        assert_eq!(header(&bytes), Err(Error::InvalidEnumCode { offset, code }));
        bytes[offset] = code - 1;
        assert!(header(&bytes).is_ok());
    }
}

#[test]
fn waveform_header_reports_the_first_failure() {
    let header = |bytes: &[u8]| waveform_header(bytes).map(|(header, _)| header);
    let mut bytes = header_bytes(0, 524288, 0);
    bytes[143] = 0xff;
    bytes[185] = 0xff;
    bytes[142] = 0xff;
    assert_eq!(header(&bytes), Err(Error::InvalidEnumCode { offset: 143, code: 0xff }));
    assert_eq!(header(&bytes[..183]), Err(Error::InvalidEnumCode { offset: 143, code: 0xff }));
    assert_eq!(header(&bytes[..182]), Err(TRUNCATED));
    bytes[143] = 0;
    assert_eq!(header(&bytes), Err(Error::InvalidEnumCode { offset: 185, code: 0xff }));
    assert_eq!(header(&bytes[..223]), Err(Error::InvalidEnumCode { offset: 185, code: 0xff }));
    assert_eq!(header(&bytes[..222]), Err(TRUNCATED));
    bytes[185] = 0;
    assert_eq!(header(&bytes), Err(Error::InvalidEnumCode { offset: 142, code: 0xff }));
    assert_eq!(header(&bytes[..275]), Err(TRUNCATED));
    bytes[28..32].copy_from_slice(&3u32.to_le_bytes());
    assert_eq!(header(&bytes), Err(Error::ArithmeticUnderflow));
    bytes[0] = 0;
    assert_eq!(header(&bytes), Err(Error::MagicMismatch));
}

#[test]
fn waveform_header_fails_where_the_points_fall_below_zero() {
    let header = |bytes: &[u8]| waveform_header(bytes).map(|(header, _)| header);
    assert_eq!(header(&header_bytes(0, 3, 0)), Err(Error::ArithmeticUnderflow));
    assert_eq!(header(&header_bytes(100, 105, 0)), Err(Error::ArithmeticUnderflow));
    assert!(header(&header_bytes(100, 106, 0)).is_ok());
}
