use vstd::prelude::*;

verus! {

/// hound's error type, carried through unopened.
#[verifier::external_type_specification]
#[verifier::external_body]
pub struct ExHoundError(hound::Error);

/// The channel of a stereo frame whose write failed.
#[derive(Copy, Clone, Debug, PartialEq, Eq, Structural)]
pub enum FrameSlot {
    Left,
    Right,
}

/// Whether a stereo WAV file with `bytes_per_sample` bytes per sample,
/// `sample_rate` Hz and `frame_count` frames stays within the 32-bit sizes
/// of the format: a positive sample rate, a byte rate that fits in a `u32`,
/// and a file size (data plus at most 64 header bytes) that fits in a `u32`.
pub open spec fn wav_fits(sample_rate: int, frame_count: int, bytes_per_sample: int) -> bool {
    &&& 0 < sample_rate
    &&& sample_rate * 2 * bytes_per_sample <= u32::MAX
    &&& frame_count * 2 * bytes_per_sample + 64 <= u32::MAX
}

/// Whether a 24-bit sample can hold `x`.
pub open spec fn fits_i24(x: i32) -> bool {
    -8388608 <= x <= 8388607
}

/// Whether every sample of `frames` fits in 24 bits.
pub open spec fn all_fit_i24(frames: Seq<(i32, i32)>) -> bool {
    forall|k: int| 0 <= k < frames.len() ==> fits_i24(#[trigger] frames[k].0) && fits_i24(frames[k].1)
}

/// The bytes of the WAV file, with integer samples, that hound's
/// `WavWriter::new` writes into an empty in-memory buffer for a stream of
/// `channels` channels at `sample_rate` Hz and `bits_per_sample` bits, once
/// the writer is dropped: a header describing zero samples.
pub uninterp spec fn wav_header(channels: u16, sample_rate: u32, bits_per_sample: u16) -> Seq<u8>;

/// The bytes that result from reopening the WAV file `file` with hound's
/// `WavWriter::new_append`, writing the 8-bit samples `left` then `right`
/// with `write_sample`, and dropping the writer (which updates the header).
pub uninterp spec fn wav_append_i8(file: Seq<u8>, left: i8, right: i8) -> Seq<u8>;

/// As [`wav_append_i8`], with 16-bit samples.
pub uninterp spec fn wav_append_i16(file: Seq<u8>, left: i16, right: i16) -> Seq<u8>;

/// As [`wav_append_i8`], with samples given as `i32` (24-bit files).
pub uninterp spec fn wav_append_i32(file: Seq<u8>, left: i32, right: i32) -> Seq<u8>;

/// The stereo WAV file with 8-bit samples at `sample_rate` Hz holding
/// `frames`: the header, then each frame appended in order.
pub open spec fn wav_file_i8(sample_rate: u32, frames: Seq<(i8, i8)>) -> Seq<u8>
    decreases frames.len(),
{
    if frames.len() == 0 {
        wav_header(2, sample_rate, 8)
    } else {
        wav_append_i8(wav_file_i8(sample_rate, frames.drop_last()), frames.last().0, frames.last().1)
    }
}

/// As [`wav_file_i8`], with 16-bit samples.
pub open spec fn wav_file_i16(sample_rate: u32, frames: Seq<(i16, i16)>) -> Seq<u8>
    decreases frames.len(),
{
    if frames.len() == 0 {
        wav_header(2, sample_rate, 16)
    } else {
        wav_append_i16(wav_file_i16(sample_rate, frames.drop_last()), frames.last().0, frames.last().1)
    }
}

/// As [`wav_file_i8`], with 24-bit samples given as `i32`.
pub open spec fn wav_file_i24(sample_rate: u32, frames: Seq<(i32, i32)>) -> Seq<u8>
    decreases frames.len(),
{
    if frames.len() == 0 {
        wav_header(2, sample_rate, 24)
    } else {
        wav_append_i32(wav_file_i24(sample_rate, frames.drop_last()), frames.last().0, frames.last().1)
    }
}

/// Whether `file` is a stereo file of [`wav_file_i8`] that still fits the
/// format after one more frame.
pub open spec fn has_room_i8(file: Seq<u8>) -> bool {
    exists|sr: u32, fr: Seq<(i8, i8)>| #[trigger] wav_file_i8(sr, fr) == file && wav_fits(sr as int, fr.len() + 1int, 1)
}

/// Whether `file` is a stereo file of [`wav_file_i16`] that still fits the
/// format after one more frame.
pub open spec fn has_room_i16(file: Seq<u8>) -> bool {
    exists|sr: u32, fr: Seq<(i16, i16)>| #[trigger] wav_file_i16(sr, fr) == file && wav_fits(sr as int, fr.len() + 1int, 2)
}

/// Whether `file` is a stereo file of [`wav_file_i24`] that still fits the
/// format after one more frame.
pub open spec fn has_room_i24(file: Seq<u8>) -> bool {
    exists|sr: u32, fr: Seq<(i32, i32)>| #[trigger] wav_file_i24(sr, fr) == file && wav_fits(sr as int, fr.len() + 1int, 3)
}

/// Calls hound's `WavWriter::new` on an empty `Cursor<Vec<u8>>` with the
/// given channel count, sample rate, bit depth and integer sample format,
/// drops the writer and returns the buffer.
/// Required, as hound divides by the sample rate and by the channel count
/// and computes the byte rate in a `u32`: a positive channel count and rate,
/// a bit depth hound writes, and a byte rate that fits.
/// Claimed: it succeeds, with the bytes [`wav_header`] of the arguments
/// (hound's only failures here are a refused bit depth and errors of the
/// in-memory buffer, which does not fail).
#[verifier::external_body]
fn wav_new(channels: u16, sample_rate: u32, bits_per_sample: u16) -> (r: Result<Vec<u8>, hound::Error>)
    requires
        channels > 0,
        sample_rate > 0,
        bits_per_sample == 8 || bits_per_sample == 16 || bits_per_sample == 24 || bits_per_sample == 32,
        sample_rate * channels * ((bits_per_sample + 7) / 8) <= u32::MAX,
    ensures
        r is Ok,
        r matches Ok(b) ==> b@ == wav_header(channels, sample_rate, bits_per_sample),
{
    let spec = hound::WavSpec { channels, sample_rate, bits_per_sample, sample_format: hound::SampleFormat::Int };
    let mut cursor = std::io::Cursor::new(Vec::new());
    let writer = hound::WavWriter::new(&mut cursor, spec)?;
    drop(writer);
    Ok(cursor.into_inner())
}

/// Reopens `file` with hound's `WavWriter::new_append` on a `Cursor`, writes
/// `left` then `right` with `write_sample`, drops the writer and returns the
/// buffer. Required: `file` is a stereo 8-bit file as written here, with room
/// for one more frame. Claimed: it succeeds with the bytes
/// [`wav_append_i8`] of the arguments (an 8-bit sample always fits).
#[verifier::external_body]
fn wav_push_i8(file: Vec<u8>, left: i8, right: i8) -> (r: Result<Vec<u8>, FrameSlot>)
    requires
        has_room_i8(file@),
    ensures
        r is Ok,
        r matches Ok(b) ==> b@ == wav_append_i8(file@, left, right),
{
    let mut cursor = std::io::Cursor::new(file);
    let mut writer = hound::WavWriter::new_append(&mut cursor).map_err(|_| FrameSlot::Left)?;
    writer.write_sample(left).map_err(|_| FrameSlot::Left)?;
    writer.write_sample(right).map_err(|_| FrameSlot::Right)?;
    drop(writer);
    Ok(cursor.into_inner())
}

/// As [`wav_push_i8`], for 16-bit files, with [`wav_append_i16`].
#[verifier::external_body]
fn wav_push_i16(file: Vec<u8>, left: i16, right: i16) -> (r: Result<Vec<u8>, FrameSlot>)
    requires
        has_room_i16(file@),
    ensures
        r is Ok,
        r matches Ok(b) ==> b@ == wav_append_i16(file@, left, right),
{
    let mut cursor = std::io::Cursor::new(file);
    let mut writer = hound::WavWriter::new_append(&mut cursor).map_err(|_| FrameSlot::Left)?;
    writer.write_sample(left).map_err(|_| FrameSlot::Left)?;
    writer.write_sample(right).map_err(|_| FrameSlot::Right)?;
    drop(writer);
    Ok(cursor.into_inner())
}

/// As [`wav_push_i8`], for 24-bit files, with [`wav_append_i32`]. A sample
/// that does not fit in 24 bits is refused (hound's `TooWide`), as `Left`
/// when the left sample does not fit, else as `Right`; when both fit the
/// push succeeds.
#[verifier::external_body]
fn wav_push_i32(file: Vec<u8>, left: i32, right: i32) -> (r: Result<Vec<u8>, FrameSlot>)
    requires
        has_room_i24(file@),
    ensures
        fits_i24(left) && fits_i24(right) ==> r is Ok,
        r matches Ok(b) ==> b@ == wav_append_i32(file@, left, right),
        !fits_i24(left) ==> (r matches Err(FrameSlot::Left)),
        fits_i24(left) && !fits_i24(right) ==> (r matches Err(FrameSlot::Right)),
{
    let mut cursor = std::io::Cursor::new(file);
    let mut writer = hound::WavWriter::new_append(&mut cursor).map_err(|_| FrameSlot::Left)?;
    writer.write_sample(left).map_err(|_| FrameSlot::Left)?;
    writer.write_sample(right).map_err(|_| FrameSlot::Right)?;
    drop(writer);
    Ok(cursor.into_inner())
}

/// Encodes a stereo WAV file with 8-bit samples: the header, then every
/// frame, left sample first.
pub fn encode_wav_i8(sample_rate: u32, frames: &Vec<(i8, i8)>) -> (b: Vec<u8>)
    requires
        wav_fits(sample_rate as int, frames@.len() as int, 1),
    ensures
        b@ == wav_file_i8(sample_rate, frames@),
{
    let mut file = match wav_new(2, sample_rate, 8) {
        Ok(b) => b,
        Err(_) => return Vec::new(),
    };
    let mut i: usize = 0;
    while i < frames.len()
        invariant
            i <= frames@.len(),
            wav_fits(sample_rate as int, frames@.len() as int, 1),
            file@ == wav_file_i8(sample_rate, frames@.take(i as int)),
        decreases frames@.len() - i,
    {
        let (l, r) = frames[i];
        assert(wav_file_i8(sample_rate, frames@.take(i as int)) == file@);
        file = match wav_push_i8(file, l, r) {
            Ok(b) => b,
            Err(_) => return Vec::new(),
        };
        assert(frames@.take(i + 1).drop_last() =~= frames@.take(i as int));
        i = i + 1;
    }
    assert(frames@.take(i as int) =~= frames@);
    file
}

/// Encodes a stereo WAV file with 16-bit samples: the header, then every
/// frame, left sample first.
pub fn encode_wav_i16(sample_rate: u32, frames: &Vec<(i16, i16)>) -> (b: Vec<u8>)
    requires
        wav_fits(sample_rate as int, frames@.len() as int, 2),
    ensures
        b@ == wav_file_i16(sample_rate, frames@),
{
    let mut file = match wav_new(2, sample_rate, 16) {
        Ok(b) => b,
        Err(_) => return Vec::new(),
    };
    let mut i: usize = 0;
    while i < frames.len()
        invariant
            i <= frames@.len(),
            wav_fits(sample_rate as int, frames@.len() as int, 2),
            file@ == wav_file_i16(sample_rate, frames@.take(i as int)),
        decreases frames@.len() - i,
    {
        let (l, r) = frames[i];
        assert(wav_file_i16(sample_rate, frames@.take(i as int)) == file@);
        file = match wav_push_i16(file, l, r) {
            Ok(b) => b,
            Err(_) => return Vec::new(),
        };
        assert(frames@.take(i + 1).drop_last() =~= frames@.take(i as int));
        i = i + 1;
    }
    assert(frames@.take(i as int) =~= frames@);
    file
}

/// Encodes a stereo WAV file with 24-bit samples: the header, then every
/// frame, left sample first. It succeeds exactly when every sample fits in
/// 24 bits; otherwise the channel of the first sample that does not fit is
/// reported.
pub fn encode_wav_i24(sample_rate: u32, frames: &Vec<(i32, i32)>) -> (res: Result<Vec<u8>, FrameSlot>)
    requires
        wav_fits(sample_rate as int, frames@.len() as int, 3),
    ensures
        all_fit_i24(frames@) ==> (res matches Ok(b) && b@ == wav_file_i24(sample_rate, frames@)),
        res is Ok ==> all_fit_i24(frames@),
{
    let mut file = match wav_new(2, sample_rate, 24) {
        Ok(b) => b,
        Err(_) => return Err(FrameSlot::Left),
    };
    let mut i: usize = 0;
    while i < frames.len()
        invariant
            i <= frames@.len(),
            wav_fits(sample_rate as int, frames@.len() as int, 3),
            file@ == wav_file_i24(sample_rate, frames@.take(i as int)),
            all_fit_i24(frames@.take(i as int)),
        decreases frames@.len() - i,
    {
        let (l, r) = frames[i];
        assert(frames@[i as int].0 == l && frames@[i as int].1 == r);
        assert(wav_file_i24(sample_rate, frames@.take(i as int)) == file@);
        let pushed = wav_push_i32(file, l, r);
        file = match pushed {
            Ok(b) => b,
            Err(slot) => return Err(slot),
        };
        assert(fits_i24(l) && fits_i24(r));
        assert(frames@.take(i + 1).drop_last() =~= frames@.take(i as int));
        assert(all_fit_i24(frames@.take(i + 1))) by {
            assert forall|k: int| 0 <= k < i + 1 implies fits_i24(#[trigger] frames@.take(i + 1)[k].0)
                && fits_i24(frames@.take(i + 1)[k].1) by {
                if k < i {
                    assert(frames@.take(i + 1)[k] == frames@.take(i as int)[k]);
                }
            }
        }
        i = i + 1;
    }
    assert(frames@.take(i as int) =~= frames@);
    Ok(file)
}

/// The 8-bit file of no frames is the bare header, and the file of
/// `frames` followed by one more frame is the file of `frames` with that frame
/// appended: every frame is written, in order, left sample first.
pub proof fn lemma_wav_file_i8_appends(sample_rate: u32, frames: Seq<(i8, i8)>, left: i8, right: i8)
    ensures
        wav_file_i8(sample_rate, Seq::empty()) == wav_header(2, sample_rate, 8),
        wav_file_i8(sample_rate, frames.push((left, right))) == wav_append_i8(
            wav_file_i8(sample_rate, frames),
            left,
            right,
        ),
{
    assert(frames.push((left, right)).drop_last() =~= frames);
}

/// The 16-bit file of no frames is the bare header, and the file of
/// `frames` followed by one more frame is the file of `frames` with that frame
/// appended: every frame is written, in order, left sample first.
pub proof fn lemma_wav_file_i16_appends(sample_rate: u32, frames: Seq<(i16, i16)>, left: i16, right: i16)
    ensures
        wav_file_i16(sample_rate, Seq::empty()) == wav_header(2, sample_rate, 16),
        wav_file_i16(sample_rate, frames.push((left, right))) == wav_append_i16(
            wav_file_i16(sample_rate, frames),
            left,
            right,
        ),
{
    assert(frames.push((left, right)).drop_last() =~= frames);
}

/// The 24-bit file of no frames is the bare header, and the file of
/// `frames` followed by one more frame is the file of `frames` with that frame
/// appended: every frame is written, in order, left sample first.
pub proof fn lemma_wav_file_i24_appends(sample_rate: u32, frames: Seq<(i32, i32)>, left: i32, right: i32)
    ensures
        wav_file_i24(sample_rate, Seq::empty()) == wav_header(2, sample_rate, 24),
        wav_file_i24(sample_rate, frames.push((left, right))) == wav_append_i32(
            wav_file_i24(sample_rate, frames),
            left,
            right,
        ),
{
    assert(frames.push((left, right)).drop_last() =~= frames);
}

} // verus!
