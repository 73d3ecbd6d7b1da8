use bitsong::export::{
    export_file_name, interleave_levels, parse_bit_width, prepare_export, to_i16_sample,
    to_i24_sample, to_i8_sample, BitWidth, ExportError, ExportSamples,
};

#[test]
fn parse_known_bit_widths() {
    assert_eq!(parse_bit_width("8bit"), Ok(BitWidth::Bits8));
    assert_eq!(parse_bit_width("16bit"), Ok(BitWidth::Bits16));
    assert_eq!(parse_bit_width("24bit"), Ok(BitWidth::Bits24));
    assert_eq!(parse_bit_width("32bit"), Ok(BitWidth::Float32));
}

#[test]
fn parse_unknown_bit_width() {
    assert_eq!(
        parse_bit_width("12bit"),
        Err(ExportError::UnsupportedBitWidth("12bit".to_string()))
    );
    assert_eq!(parse_bit_width(""), Err(ExportError::UnsupportedBitWidth(String::new())));
}

#[test]
fn bit_width_properties() {
    assert_eq!(BitWidth::Bits8.bits_per_sample(), 8);
    assert_eq!(BitWidth::Bits16.bits_per_sample(), 16);
    assert_eq!(BitWidth::Bits24.bits_per_sample(), 24);
    assert_eq!(BitWidth::Float32.bits_per_sample(), 32);
    assert!(BitWidth::Float32.is_float());
    assert!(!BitWidth::Bits24.is_float());
}

#[test]
fn i8_rescaling_matches_float_truncation() {
    for x in i8::MIN..=i8::MAX {
        let expect = ((x as f32 / 128.0) * 127.0) as i8;
        assert_eq!(to_i8_sample(x), expect, "level {}", x);
    }
    assert_eq!(to_i8_sample(-128), -127);
    assert_eq!(to_i8_sample(127), 126);
    assert_eq!(to_i8_sample(-1), 0);
}

#[test]
fn i16_rescaling_matches_float_truncation() {
    for x in i8::MIN..=i8::MAX {
        let expect = ((x as f32 / 128.0) * 32767.0) as i16;
        assert_eq!(to_i16_sample(x), expect, "level {}", x);
    }
    assert_eq!(to_i16_sample(-128), -32767);
    assert_eq!(to_i16_sample(64), 16383);
}

#[test]
fn i24_rescaling_matches_float_truncation() {
    for x in i8::MIN..=i8::MAX {
        let expect = ((x as f32 / 128.0) * 8388607.0) as i32;
        assert_eq!(to_i24_sample(x), expect, "level {}", x);
    }
    assert_eq!(to_i24_sample(-128), -8388607);
    assert_eq!(to_i24_sample(1), 65535);
}

#[test]
fn interleave_alternates_channels() {
    let l = vec![1i8, 2, 3];
    let r = vec![-1i8, -2, -3, -4];
    assert_eq!(interleave_levels(&l, &r), vec![1, -1, 2, -2, 3, -3]);
    assert_eq!(interleave_levels(&Vec::new(), &r), Vec::<i8>::new());
}

#[test]
fn prepare_export_refuses_mismatched_channels_first() {
    let l = vec![1i8, 2];
    let r = vec![1i8];
    assert!(matches!(prepare_export(&l, &r, "8bit"), Err(ExportError::ChannelLengthMismatch)));
    assert!(matches!(prepare_export(&l, &r, "nope"), Err(ExportError::ChannelLengthMismatch)));
}

#[test]
fn prepare_export_refuses_unknown_width() {
    let l = vec![1i8];
    let r = vec![2i8];
    match prepare_export(&l, &r, "64bit") {
        Err(ExportError::UnsupportedBitWidth(t)) => assert_eq!(t, "64bit"),
        other => panic!("unexpected {:?}", other),
    }
}

#[test]
fn prepare_export_converts_frames() {
    let l = vec![-128i8, 0, 127];
    let r = vec![64i8, -1, 1];
    match prepare_export(&l, &r, "8bit") {
        Ok(ExportSamples::Int8(v)) => assert_eq!(v, vec![(-127, 63), (0, 0), (126, 0)]),
        other => panic!("unexpected {:?}", other),
    }
    match prepare_export(&l, &r, "16bit") {
        Ok(ExportSamples::Int16(v)) => assert_eq!(v, vec![(-32767, 16383), (0, -255), (32511, 255)]),
        other => panic!("unexpected {:?}", other),
    }
    match prepare_export(&l, &r, "24bit") {
        Ok(ExportSamples::Int24(v)) => {
            assert_eq!(v, vec![(-8388607, 4194303), (0, -65535), (8323071, 65535)])
        }
        other => panic!("unexpected {:?}", other),
    }
    match prepare_export(&l, &r, "32bit") {
        Ok(ExportSamples::Float32(v)) => assert_eq!(v, vec![(-128, 64), (0, -1), (127, 1)]),
        other => panic!("unexpected {:?}", other),
    }
}

#[test]
fn export_file_name_joins_parts() {
    assert_eq!(export_file_name("song".to_string(), "16bit", "wav"), "song_16bit_wav.wav");
    assert_eq!(export_file_name(String::new(), "8bit", ""), "_8bit_.wav");
}
