use bitsong::export::{export_wav, ExportError, WavExport};
use bitsong::wav::{encode_wav_i16, encode_wav_i24, encode_wav_i8, FrameSlot};
use hound::{SampleFormat, WavReader, WavSpec, WavWriter};
use std::io::Cursor;

fn spec(bits: u16) -> WavSpec {
    WavSpec { channels: 2, sample_rate: 44100, bits_per_sample: bits, sample_format: SampleFormat::Int }
}

fn direct_i8(frames: &[(i8, i8)]) -> Vec<u8> {
    let mut c = Cursor::new(Vec::new());
    {
        let mut w = WavWriter::new(&mut c, spec(8)).unwrap();
        for &(l, r) in frames {
            w.write_sample(l).unwrap();
            w.write_sample(r).unwrap();
        }
    }
    c.into_inner()
}

fn direct_i16(frames: &[(i16, i16)]) -> Vec<u8> {
    let mut c = Cursor::new(Vec::new());
    {
        let mut w = WavWriter::new(&mut c, spec(16)).unwrap();
        for &(l, r) in frames {
            w.write_sample(l).unwrap();
            w.write_sample(r).unwrap();
        }
    }
    c.into_inner()
}

fn direct_i24(frames: &[(i32, i32)]) -> Vec<u8> {
    let mut c = Cursor::new(Vec::new());
    {
        let mut w = WavWriter::new(&mut c, spec(24)).unwrap();
        for &(l, r) in frames {
            w.write_sample(l).unwrap();
            w.write_sample(r).unwrap();
        }
    }
    c.into_inner()
}

#[test]
fn encode_i8_matches_single_writer() {
    let frames = vec![(-127i8, 63i8), (0, 0), (126, -1)];
    let bytes = encode_wav_i8(44100, &frames);
    assert_eq!(bytes, direct_i8(&frames));
    assert_eq!(encode_wav_i8(44100, &Vec::new()), direct_i8(&[]));
}

#[test]
fn encode_i16_matches_single_writer() {
    let frames = vec![(-32767i16, 16383i16), (0, -255), (32511, 255)];
    assert_eq!(encode_wav_i16(44100, &frames), direct_i16(&frames));
}

#[test]
fn encode_i24_matches_single_writer() {
    let frames = vec![(-8388607i32, 4194303i32), (0, -65535), (8323071, 65535)];
    let bytes = encode_wav_i24(44100, &frames).unwrap();
    assert_eq!(bytes, direct_i24(&frames));
    let mut reader = WavReader::new(Cursor::new(bytes)).unwrap();
    assert_eq!(reader.spec().bits_per_sample, 24);
    assert_eq!(reader.spec().channels, 2);
    let samples: Vec<i32> = reader.samples::<i32>().map(|s| s.unwrap()).collect();
    assert_eq!(samples, vec![-8388607, 4194303, 0, -65535, 8323071, 65535]);
}

#[test]
fn export_wav_encodes_16bit() {
    let l = vec![-128i8, 0, 127];
    let r = vec![64i8, -1, 1];
    match export_wav(&l, &r, "16bit", 22050) {
        Ok(WavExport::Encoded(b)) => {
            let reader = WavReader::new(Cursor::new(b.clone())).unwrap();
            assert_eq!(reader.spec().sample_rate, 22050);
            assert_eq!(reader.spec().bits_per_sample, 16);
            assert_eq!(reader.spec().channels, 2);
            let mut c = Cursor::new(Vec::new());
            {
                let s = WavSpec { sample_rate: 22050, ..spec(16) };
                let mut w = WavWriter::new(&mut c, s).unwrap();
                for x in [-32767i16, 16383, 0, -255, 32511, 255] {
                    w.write_sample(x).unwrap();
                }
            }
            assert_eq!(b, c.into_inner());
        }
        other => panic!("unexpected {:?}", other),
    }
}

#[test]
fn export_wav_encodes_8bit_samples() {
    let l = vec![-128i8, 127];
    let r = vec![1i8, -1];
    match export_wav(&l, &r, "8bit", 44100) {
        Ok(WavExport::Encoded(b)) => {
            let mut reader = WavReader::new(Cursor::new(b)).unwrap();
            assert_eq!(reader.spec().bits_per_sample, 8);
            let samples: Vec<i8> = reader.samples::<i8>().map(|s| s.unwrap()).collect();
            assert_eq!(samples, vec![-127, 0, 126, 0]);
        }
        other => panic!("unexpected {:?}", other),
    }
}

#[test]
fn export_wav_hands_back_float_frames() {
    let l = vec![-128i8, 5];
    let r = vec![7i8, 127];
    match export_wav(&l, &r, "32bit", 44100) {
        Ok(WavExport::FloatFrames(v)) => assert_eq!(v, vec![(-128, 7), (5, 127)]),
        other => panic!("unexpected {:?}", other),
    }
}

#[test]
fn export_wav_refusals() {
    assert!(matches!(
        export_wav(&vec![1i8], &vec![], "8bit", 44100),
        Err(ExportError::ChannelLengthMismatch)
    ));
    match export_wav(&vec![1i8], &vec![2i8], "4bit", 44100) {
        Err(ExportError::UnsupportedBitWidth(t)) => assert_eq!(t, "4bit"),
        other => panic!("unexpected {:?}", other),
    }
}

#[test]
fn encode_i24_refuses_samples_wider_than_24_bits() {
    assert_eq!(encode_wav_i24(44100, &vec![(0, 0), (8388608, 0)]), Err(FrameSlot::Left));
    assert_eq!(encode_wav_i24(44100, &vec![(-8388608, -8388609)]), Err(FrameSlot::Right));
    assert!(encode_wav_i24(44100, &vec![(-8388608, 8388607)]).is_ok());
}
