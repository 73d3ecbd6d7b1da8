use vstd::prelude::*;
use crate::basetype::Level;
use crate::wav::{
    encode_wav_i16, encode_wav_i24, encode_wav_i8, fits_i24, wav_file_i16, wav_file_i24, wav_file_i8,
    wav_fits, wav_header,
};

verus! {

/// Sample format of an exported WAV file.
#[derive(Copy, Clone, Debug, PartialEq, Eq, Structural)]
pub enum BitWidth {
    /// 8-bit integer samples.
    Bits8,
    /// 16-bit integer samples.
    Bits16,
    /// 24-bit integer samples.
    Bits24,
    /// 32-bit floating-point samples.
    Float32,
}

impl BitWidth {
    pub open spec fn spec_bits_per_sample(self) -> u16 {
        match self {
            BitWidth::Bits8 => 8,
            BitWidth::Bits16 => 16,
            BitWidth::Bits24 => 24,
            BitWidth::Float32 => 32,
        }
    }

    /// Bytes that one sample takes in a WAV file.
    pub open spec fn spec_bytes_per_sample(self) -> int {
        (self.spec_bits_per_sample() + 7) / 8
    }

    /// Bits per sample written in the WAV header.
    pub fn bits_per_sample(&self) -> (b: u16)
        ensures
            b == self.spec_bits_per_sample(),
    {
        match self {
            BitWidth::Bits8 => 8,
            BitWidth::Bits16 => 16,
            BitWidth::Bits24 => 24,
            BitWidth::Float32 => 32,
        }
    }

    /// Whether samples are floating point (else signed integers).
    pub fn is_float(&self) -> (b: bool)
        ensures
            b == (*self == BitWidth::Float32),
    {
        match self {
            BitWidth::Float32 => true,
            _ => false,
        }
    }
}

/// Why an export was refused.
#[derive(Debug, PartialEq, Eq)]
pub enum ExportError {
    /// The rendered left and right channels differ in length.
    ChannelLengthMismatch,
    /// The requested bit width is none of `8bit`, `16bit`, `24bit`, `32bit`;
    /// the requested text is kept.
    UnsupportedBitWidth(String),
}

/// The bit width named by `s`, if it names one.
pub open spec fn bit_width_named(s: Seq<char>) -> Option<BitWidth> {
    if s == "8bit"@ {
        Some(BitWidth::Bits8)
    } else if s == "16bit"@ {
        Some(BitWidth::Bits16)
    } else if s == "24bit"@ {
        Some(BitWidth::Bits24)
    } else if s == "32bit"@ {
        Some(BitWidth::Float32)
    } else {
        None
    }
}

/// Reads a bit-width name: `8bit`, `16bit` and `24bit` give integer
/// samples, `32bit` gives floating-point samples; anything else is refused.
pub fn parse_bit_width(s: &str) -> (r: Result<BitWidth, ExportError>)
    ensures
        bit_width_named(s@) matches Some(w) ==> r == Ok::<BitWidth, ExportError>(w),
        bit_width_named(s@) is None ==> (r matches Err(ExportError::UnsupportedBitWidth(t)) && t@ == s@),
{
    proof {
        reveal_strlit("8bit");
        reveal_strlit("16bit");
        reveal_strlit("24bit");
        reveal_strlit("32bit");
    }
    let name = s.to_owned();
    if name == "8bit".to_owned() {
        Ok(BitWidth::Bits8)
    } else if name == "16bit".to_owned() {
        Ok(BitWidth::Bits16)
    } else if name == "24bit".to_owned() {
        Ok(BitWidth::Bits24)
    } else if name == "32bit".to_owned() {
        Ok(BitWidth::Float32)
    } else {
        Err(ExportError::UnsupportedBitWidth(name))
    }
}

/// Division that rounds toward zero.
pub open spec fn trunc_div(a: int, d: int) -> int {
    if a >= 0 {
        a / d
    } else {
        -((-a) / d)
    }
}

/// A level `x` (full scale 128) rescaled to full scale `full_scale`:
/// `x * full_scale / 128`, rounded toward zero. For a signed byte and the
/// full scales used here this is exactly what truncating the product
/// `(x / 128.0) * full_scale` computed in `f32` gives.
pub open spec fn rescaled(x: int, full_scale: int) -> int {
    trunc_div(x * full_scale, 128)
}

proof fn lemma_rescaled_bounds(x: int, full_scale: int)
    requires
        -128 <= x <= 127,
        0 <= full_scale,
    ensures
        -full_scale <= rescaled(x, full_scale) <= full_scale,
{
    if x >= 0 {
        assert(0 <= (x * full_scale) / 128 <= full_scale) by (nonlinear_arith)
            requires
                0 <= x <= 127,
                0 <= full_scale,
        ;
    } else {
        assert(-(x * full_scale) == (-x) * full_scale) by (nonlinear_arith);
        assert(0 <= ((-x) * full_scale) / 128 <= full_scale) by (nonlinear_arith)
            requires
                0 < -x <= 128,
                0 <= full_scale,
        ;
    }
}

fn rescale(x: Level, full_scale: i32) -> (r: i32)
    requires
        0 <= full_scale <= 8388607,
    ensures
        r == rescaled(x as int, full_scale as int),
        -full_scale <= r <= full_scale,
{
    proof {
        lemma_rescaled_bounds(x as int, full_scale as int);
    }
    let v: i32 = x as i32;
    if v >= 0 {
        assert(0 <= v * full_scale <= 127 * 8388607) by (nonlinear_arith)
            requires
                0 <= v <= 127,
                0 <= full_scale <= 8388607,
        ;
        let p: i32 = v * full_scale;
        p / 128
    } else {
        let a: i32 = -v;
        assert(0 <= a * full_scale <= 128 * 8388607) by (nonlinear_arith)
            requires
                0 < a <= 128,
                0 <= full_scale <= 8388607,
        ;
        assert(-((x as int) * full_scale) == a * full_scale) by (nonlinear_arith)
            requires
                a == -(x as int),
        ;
        let p: i32 = a * full_scale;
        -(p / 128)
    }
}

/// A level as an 8-bit sample: `x * 127 / 128`, rounded toward zero.
pub fn to_i8_sample(x: Level) -> (r: i8)
    ensures
        r == rescaled(x as int, 127),
{
    let v = rescale(x, 127);
    v as i8
}

/// A level as a 16-bit sample: `x * 32767 / 128`, rounded toward zero.
pub fn to_i16_sample(x: Level) -> (r: i16)
    ensures
        r == rescaled(x as int, 32767),
{
    let v = rescale(x, 32767);
    v as i16
}

/// A level as a 24-bit sample: `x * 8388607 / 128`, rounded toward zero.
pub fn to_i24_sample(x: Level) -> (r: i32)
    ensures
        r == rescaled(x as int, 8388607),
        -8388607 <= r <= 8388607,
{
    rescale(x, 8388607)
}

/// Rescaling keeps the order of levels: a louder level never becomes a
/// quieter sample.
pub proof fn lemma_rescaled_monotonic(x: int, y: int, full_scale: int)
    requires
        -128 <= x <= y <= 127,
        0 <= full_scale,
    ensures
        rescaled(x, full_scale) <= rescaled(y, full_scale),
{
    lemma_rescaled_bounds(x, full_scale);
    lemma_rescaled_bounds(y, full_scale);
    if 0 <= x {
        assert((x * full_scale) / 128 <= (y * full_scale) / 128) by (nonlinear_arith)
            requires
                0 <= x <= y,
                0 <= full_scale,
        ;
    } else if y < 0 {
        assert(-(x * full_scale) == (-x) * full_scale) by (nonlinear_arith);
        assert(-(y * full_scale) == (-y) * full_scale) by (nonlinear_arith);
        assert(((-y) * full_scale) / 128 <= ((-x) * full_scale) / 128) by (nonlinear_arith)
            requires
                0 < -y <= -x,
                0 <= full_scale,
        ;
    } else {
        assert(0 <= (y * full_scale) / 128) by (nonlinear_arith)
            requires
                0 <= y,
                0 <= full_scale,
        ;
        assert(-(x * full_scale) == (-x) * full_scale) by (nonlinear_arith);
        assert(0 <= ((-x) * full_scale) / 128) by (nonlinear_arith)
            requires
                0 < -x,
                0 <= full_scale,
        ;
    }
}

/// Rescaling is symmetric around silence: silence stays silence and
/// opposite levels give opposite samples.
pub proof fn lemma_rescaled_symmetric(x: int, full_scale: int)
    requires
        -127 <= x <= 127,
        0 <= full_scale,
    ensures
        rescaled(0, full_scale) == 0,
        rescaled(-x, full_scale) == -rescaled(x, full_scale),
{
    assert((-x) * full_scale == -(x * full_scale)) by (nonlinear_arith);
    assert(0 * full_scale == 0) by (nonlinear_arith);
}

/// Left and right samples in the order a stereo stream carries them:
/// `left[0], right[0], left[1], right[1], ...`, for every left sample.
pub open spec fn interleaved<T>(left: Seq<T>, right: Seq<T>) -> Seq<T> {
    Seq::new(
        (2 * left.len()) as nat,
        |k: int| if k % 2 == 0 { left[k / 2] } else { right[k / 2] },
    )
}

/// Interleaves two rendered channels into one stereo stream, one frame per
/// left sample.
pub fn interleave_levels(left: &Vec<Level>, right: &Vec<Level>) -> (out: Vec<Level>)
    requires
        right@.len() >= left@.len(),
    ensures
        out@ == interleaved(left@, right@),
{
    let n = left.len();
    let mut out: Vec<Level> = Vec::new();
    let mut i: usize = 0;
    while i < n
        invariant
            n == left@.len(),
            right@.len() >= n,
            i <= n,
            out@.len() == 2 * i,
            forall|k: int| 0 <= k < 2 * i ==> #[trigger] out@[k] == (if k % 2 == 0 {
                left@[k / 2]
            } else {
                right@[k / 2]
            }),
        decreases n - i,
    {
        out.push(left[i]);
        out.push(right[i]);
        proof {
            assert forall|k: int| 0 <= k < 2 * (i + 1) implies #[trigger] out@[k] == (if k % 2 == 0 {
                left@[k / 2]
            } else {
                right@[k / 2]
            }) by {
                if k == 2 * i {
                    assert(k / 2 == i);
                } else if k == 2 * i + 1 {
                    assert(k / 2 == i);
                }
            }
        }
        i = i + 1;
    }
    assert(out@ =~= interleaved(left@, right@));
    out
}

/// The stereo stream alternates the channels: it holds two samples per left
/// sample, the left one at even positions and the right one after it.
pub proof fn lemma_interleaved_channels<T>(left: Seq<T>, right: Seq<T>, i: int)
    requires
        0 <= i < left.len(),
    ensures
        interleaved(left, right).len() == 2 * left.len(),
        interleaved(left, right)[2 * i] == left[i],
        interleaved(left, right)[2 * i + 1] == right[i],
{
    assert((2 * i) % 2 == 0 && (2 * i) / 2 == i);
    assert((2 * i + 1) % 2 == 1 && (2 * i + 1) / 2 == i);
}

/// Sample frames ready for a WAV writer, in the sample type of the chosen
/// bit width. Each frame is `(left, right)`; frames are written in order,
/// left sample first. Floating-point frames keep the raw levels: each one is
/// written as `level / 128`.
#[derive(Debug)]
pub enum ExportSamples {
    Int8(Vec<(i8, i8)>),
    Int16(Vec<(i16, i16)>),
    Int24(Vec<(i32, i32)>),
    Float32(Vec<(Level, Level)>),
}

/// Frame `i` holds `f` of the `i`-th left and right levels.
pub open spec fn frames<T>(left: Seq<Level>, right: Seq<Level>, f: spec_fn(Level) -> T) -> Seq<(T, T)> {
    Seq::new(left.len(), |i: int| (f(left[i]), f(right[i])))
}

/// Whether `s` holds exactly the frames that export of `left` and `right`
/// at bit width `w` writes.
pub open spec fn export_frames_are(s: ExportSamples, left: Seq<Level>, right: Seq<Level>, w: BitWidth) -> bool {
    match (w, s) {
        (BitWidth::Bits8, ExportSamples::Int8(v)) => v@ == frames(
            left,
            right,
            |x: Level| rescaled(x as int, 127) as i8,
        ),
        (BitWidth::Bits16, ExportSamples::Int16(v)) => v@ == frames(
            left,
            right,
            |x: Level| rescaled(x as int, 32767) as i16,
        ),
        (BitWidth::Bits24, ExportSamples::Int24(v)) => v@ == frames(
            left,
            right,
            |x: Level| rescaled(x as int, 8388607) as i32,
        ),
        (BitWidth::Float32, ExportSamples::Float32(v)) => v@ == frames(left, right, |x: Level| x),
        _ => false,
    }
}

fn frames_i8(left: &Vec<Level>, right: &Vec<Level>) -> (v: Vec<(i8, i8)>)
    requires
        left@.len() == right@.len(),
    ensures
        v@ == frames(left@, right@, |x: Level| rescaled(x as int, 127) as i8),
{
    let mut v: Vec<(i8, i8)> = Vec::new();
    let mut i: usize = 0;
    while i < left.len()
        invariant
            left@.len() == right@.len(),
            i <= left@.len(),
            v@ == frames(left@.take(i as int), right@.take(i as int), |x: Level| rescaled(x as int, 127) as i8),
        decreases left@.len() - i,
    {
        let a = to_i8_sample(left[i]);
        let b = to_i8_sample(right[i]);
        v.push((a, b));
        i = i + 1;
        assert(v@ =~= frames(left@.take(i as int), right@.take(i as int), |x: Level| rescaled(x as int, 127) as i8));
    }
    assert(left@.take(i as int) =~= left@);
    assert(right@.take(i as int) =~= right@);
    v
}

fn frames_i16(left: &Vec<Level>, right: &Vec<Level>) -> (v: Vec<(i16, i16)>)
    requires
        left@.len() == right@.len(),
    ensures
        v@ == frames(left@, right@, |x: Level| rescaled(x as int, 32767) as i16),
{
    let mut v: Vec<(i16, i16)> = Vec::new();
    let mut i: usize = 0;
    while i < left.len()
        invariant
            left@.len() == right@.len(),
            i <= left@.len(),
            v@ == frames(left@.take(i as int), right@.take(i as int), |x: Level| rescaled(x as int, 32767) as i16),
        decreases left@.len() - i,
    {
        let a = to_i16_sample(left[i]);
        let b = to_i16_sample(right[i]);
        v.push((a, b));
        i = i + 1;
        assert(v@ =~= frames(left@.take(i as int), right@.take(i as int), |x: Level| rescaled(x as int, 32767) as i16));
    }
    assert(left@.take(i as int) =~= left@);
    assert(right@.take(i as int) =~= right@);
    v
}

fn frames_i24(left: &Vec<Level>, right: &Vec<Level>) -> (v: Vec<(i32, i32)>)
    requires
        left@.len() == right@.len(),
    ensures
        v@ == frames(left@, right@, |x: Level| rescaled(x as int, 8388607) as i32),
{
    let mut v: Vec<(i32, i32)> = Vec::new();
    let mut i: usize = 0;
    while i < left.len()
        invariant
            left@.len() == right@.len(),
            i <= left@.len(),
            v@ == frames(left@.take(i as int), right@.take(i as int), |x: Level| rescaled(x as int, 8388607) as i32),
        decreases left@.len() - i,
    {
        let a = to_i24_sample(left[i]);
        let b = to_i24_sample(right[i]);
        v.push((a, b));
        i = i + 1;
        assert(v@ =~= frames(left@.take(i as int), right@.take(i as int), |x: Level| rescaled(x as int, 8388607) as i32));
    }
    assert(left@.take(i as int) =~= left@);
    assert(right@.take(i as int) =~= right@);
    v
}

fn frames_raw(left: &Vec<Level>, right: &Vec<Level>) -> (v: Vec<(Level, Level)>)
    requires
        left@.len() == right@.len(),
    ensures
        v@ == frames(left@, right@, |x: Level| x),
{
    let mut v: Vec<(Level, Level)> = Vec::new();
    let mut i: usize = 0;
    while i < left.len()
        invariant
            left@.len() == right@.len(),
            i <= left@.len(),
            v@ == frames(left@.take(i as int), right@.take(i as int), |x: Level| x),
        decreases left@.len() - i,
    {
        v.push((left[i], right[i]));
        i = i + 1;
        assert(v@ =~= frames(left@.take(i as int), right@.take(i as int), |x: Level| x));
    }
    assert(left@.take(i as int) =~= left@);
    assert(right@.take(i as int) =~= right@);
    v
}

/// Prepares the rendered channels for WAV export at the bit width named by
/// `bit_width`. Channels of different lengths are refused first; then an
/// unknown bit width is refused; otherwise every frame is converted.
pub fn prepare_export(left: &Vec<Level>, right: &Vec<Level>, bit_width: &str) -> (r: Result<ExportSamples, ExportError>)
    ensures
        left@.len() != right@.len() ==> r matches Err(ExportError::ChannelLengthMismatch),
        left@.len() == right@.len() && bit_width_named(bit_width@) is None ==> (r matches Err(
            ExportError::UnsupportedBitWidth(t),
        ) && t@ == bit_width@),
        left@.len() == right@.len() ==> (bit_width_named(bit_width@) matches Some(w) ==> (r matches Ok(s)
            && export_frames_are(s, left@, right@, w))),
{
    if left.len() != right.len() {
        return Err(ExportError::ChannelLengthMismatch);
    }
    let w = parse_bit_width(bit_width)?;
    match w {
        BitWidth::Bits8 => Ok(ExportSamples::Int8(frames_i8(left, right))),
        BitWidth::Bits16 => Ok(ExportSamples::Int16(frames_i16(left, right))),
        BitWidth::Bits24 => Ok(ExportSamples::Int24(frames_i24(left, right))),
        BitWidth::Float32 => Ok(ExportSamples::Float32(frames_raw(left, right))),
    }
}

/// The result of a WAV export: the encoded file for integer bit widths, or
/// the frames to write as floating-point samples (`level / 128`) for
/// `32bit`.
#[derive(Debug)]
pub enum WavExport {
    Encoded(Vec<u8>),
    FloatFrames(Vec<(Level, Level)>),
}

/// The stereo WAV file that export at the integer bit width `w` and
/// `sample_rate` Hz produces for the rendered channels.
pub open spec fn wav_file_for(w: BitWidth, sample_rate: u32, left: Seq<Level>, right: Seq<Level>) -> Seq<u8>
    recommends
        w != BitWidth::Float32,
{
    match w {
        BitWidth::Bits8 => wav_file_i8(
            sample_rate,
            frames(left, right, |x: Level| rescaled(x as int, 127) as i8),
        ),
        BitWidth::Bits16 => wav_file_i16(
            sample_rate,
            frames(left, right, |x: Level| rescaled(x as int, 32767) as i16),
        ),
        BitWidth::Bits24 => wav_file_i24(
            sample_rate,
            frames(left, right, |x: Level| rescaled(x as int, 8388607) as i32),
        ),
        BitWidth::Float32 => Seq::empty(),
    }
}

/// For every integer bit width, the exported file starts from a header for
/// two channels, the given sample rate and that width's bits per sample:
/// with no frames it is exactly that header.
pub proof fn lemma_wav_header_matches_width(w: BitWidth, sample_rate: u32)
    requires
        w != BitWidth::Float32,
    ensures
        wav_file_for(w, sample_rate, Seq::empty(), Seq::empty()) == wav_header(
            2,
            sample_rate,
            w.spec_bits_per_sample(),
        ),
{
    assert(frames(Seq::<Level>::empty(), Seq::<Level>::empty(), |x: Level| rescaled(x as int, 127) as i8).len() == 0);
    assert(frames(Seq::<Level>::empty(), Seq::<Level>::empty(), |x: Level| rescaled(x as int, 32767) as i16).len() == 0);
    assert(frames(Seq::<Level>::empty(), Seq::<Level>::empty(), |x: Level| rescaled(x as int, 8388607) as i32).len() == 0);
}

/// Whether encoding at the integer width named by `bit_width` is asked for
/// (equal channels, a known width other than `32bit`).
pub open spec fn encodes_here(left: Seq<Level>, right: Seq<Level>, bit_width: Seq<char>) -> bool {
    &&& left.len() == right.len()
    &&& bit_width_named(bit_width) is Some
    &&& bit_width_named(bit_width) != Some(BitWidth::Float32)
}

/// Exports the rendered channels as a stereo WAV file at `sample_rate` Hz
/// and the bit width named by `bit_width`. Unequal channels are refused
/// first, then an unknown bit width. Integer widths are encoded here and
/// always succeed; for `32bit` the frames are handed back for
/// floating-point encoding.
pub fn export_wav(left: &Vec<Level>, right: &Vec<Level>, bit_width: &str, sample_rate: u32) -> (r: Result<WavExport, ExportError>)
    requires
        encodes_here(left@, right@, bit_width@) ==> wav_fits(
            sample_rate as int,
            left@.len() as int,
            bit_width_named(bit_width@).unwrap().spec_bytes_per_sample(),
        ),
    ensures
        left@.len() != right@.len() ==> r matches Err(ExportError::ChannelLengthMismatch),
        left@.len() == right@.len() && bit_width_named(bit_width@) is None ==> (r matches Err(
            ExportError::UnsupportedBitWidth(t),
        ) && t@ == bit_width@),
        left@.len() == right@.len() && bit_width_named(bit_width@) == Some(BitWidth::Float32) ==> (r matches Ok(
            WavExport::FloatFrames(v),
        ) && v@ == frames(left@, right@, |x: Level| x)),
        encodes_here(left@, right@, bit_width@) ==> (r matches Ok(WavExport::Encoded(b)) && b@ == wav_file_for(
            bit_width_named(bit_width@).unwrap(),
            sample_rate,
            left@,
            right@,
        )),
{
    let samples = prepare_export(left, right, bit_width)?;
    match samples {
        ExportSamples::Int8(v) => Ok(WavExport::Encoded(encode_wav_i8(sample_rate, &v))),
        ExportSamples::Int16(v) => Ok(WavExport::Encoded(encode_wav_i16(sample_rate, &v))),
        ExportSamples::Int24(v) => {
            assert forall|k: int| 0 <= k < v@.len() implies fits_i24(#[trigger] v@[k].0) && fits_i24(
                v@[k].1,
            ) by {
                lemma_rescaled_bounds(left@[k] as int, 8388607);
                lemma_rescaled_bounds(right@[k] as int, 8388607);
            }
            match encode_wav_i24(sample_rate, &v) {
                Ok(b) => Ok(WavExport::Encoded(b)),
                Err(_) => {
                    // Every rescaled sample fits in 24 bits, so encoding cannot fail.
                    proof {
                        assert(false);
                    }
                    Err(ExportError::ChannelLengthMismatch)
                },
            }
        },
        ExportSamples::Float32(v) => Ok(WavExport::FloatFrames(v)),
    }
}

/// The name of the exported file: `<song>_<bit width>_<format>.wav`.
pub fn export_file_name(song_name: String, bit_width: &str, format: &str) -> (name: String)
    ensures
        name@ == song_name@ + "_"@ + bit_width@ + "_"@ + format@ + ".wav"@,
{
    let mut name = song_name;
    name.append("_");
    name.append(bit_width);
    name.append("_");
    name.append(format);
    name.append(".wav");
    name
}

/// A level rescaled to full scale `full_scale` is `x * full_scale / 128`
/// rounded toward zero: it has the sign of the level and lies less than one
/// unit (of 128ths) from the exact quotient, on the side of zero.
pub proof fn lemma_rescaled_truncates(x: int, full_scale: int)
    requires
        -128 <= x <= 127,
        0 <= full_scale,
    ensures
        x >= 0 ==> 0 <= rescaled(x, full_scale) && 0 <= x * full_scale - 128 * rescaled(x, full_scale)
            < 128,
        x < 0 ==> rescaled(x, full_scale) <= 0 && 0 <= 128 * rescaled(x, full_scale) - x * full_scale
            < 128,
{
    if x >= 0 {
        let a = x * full_scale;
        assert(0 <= a) by (nonlinear_arith)
            requires
                a == x * full_scale,
                0 <= x,
                0 <= full_scale,
        ;
        assert(0 <= a / 128 && 0 <= a - 128 * (a / 128) < 128) by (nonlinear_arith)
            requires
                0 <= a,
        ;
    } else {
        let a = (-x) * full_scale;
        assert(-(x * full_scale) == a) by (nonlinear_arith)
            requires
                a == (-x) * full_scale,
        ;
        assert(0 <= a) by (nonlinear_arith)
            requires
                a == (-x) * full_scale,
                0 < -x,
                0 <= full_scale,
        ;
        assert(0 <= a / 128 && 0 <= a - 128 * (a / 128) < 128) by (nonlinear_arith)
            requires
                0 <= a,
        ;
    }
}

/// Frame `i` of `frames(left, right, f)` holds `f` of the `i`-th left
/// level, then `f` of the `i`-th right level, and there is one frame per
/// left level.
pub proof fn lemma_frames_pair_channels<T>(left: Seq<Level>, right: Seq<Level>, f: spec_fn(Level) -> T, i: int)
    requires
        0 <= i < left.len(),
    ensures
        frames(left, right, f).len() == left.len(),
        frames(left, right, f)[i] == (f(left[i]), f(right[i])),
{
}

/// The 8-bit export file holds, frame by frame and left sample first, each
/// level rescaled to full scale 127.
pub proof fn lemma_export_file_8bit(sample_rate: u32, left: Seq<Level>, right: Seq<Level>)
    ensures
        wav_file_for(BitWidth::Bits8, sample_rate, left, right) == wav_file_i8(
            sample_rate,
            Seq::new(
                left.len(),
                |i: int| (rescaled(left[i] as int, 127) as i8, rescaled(right[i] as int, 127) as i8),
            ),
        ),
{
    assert(frames(left, right, |x: Level| rescaled(x as int, 127) as i8) =~= Seq::new(
        left.len(),
        |i: int| (rescaled(left[i] as int, 127) as i8, rescaled(right[i] as int, 127) as i8),
    ));
}

/// The 16-bit export file holds, frame by frame and left sample first, each
/// level rescaled to full scale 32767.
pub proof fn lemma_export_file_16bit(sample_rate: u32, left: Seq<Level>, right: Seq<Level>)
    ensures
        wav_file_for(BitWidth::Bits16, sample_rate, left, right) == wav_file_i16(
            sample_rate,
            Seq::new(
                left.len(),
                |i: int| (rescaled(left[i] as int, 32767) as i16, rescaled(right[i] as int, 32767) as i16),
            ),
        ),
{
    assert(frames(left, right, |x: Level| rescaled(x as int, 32767) as i16) =~= Seq::new(
        left.len(),
        |i: int| (rescaled(left[i] as int, 32767) as i16, rescaled(right[i] as int, 32767) as i16),
    ));
}

/// The 24-bit export file holds, frame by frame and left sample first, each
/// level rescaled to full scale 8388607.
pub proof fn lemma_export_file_24bit(sample_rate: u32, left: Seq<Level>, right: Seq<Level>)
    ensures
        wav_file_for(BitWidth::Bits24, sample_rate, left, right) == wav_file_i24(
            sample_rate,
            Seq::new(
                left.len(),
                |i: int| (rescaled(left[i] as int, 8388607) as i32, rescaled(right[i] as int, 8388607) as i32),
            ),
        ),
{
    assert(frames(left, right, |x: Level| rescaled(x as int, 8388607) as i32) =~= Seq::new(
        left.len(),
        |i: int| (rescaled(left[i] as int, 8388607) as i32, rescaled(right[i] as int, 8388607) as i32),
    ));
}

/// Each bit-width name gives the width with that many bits per sample
/// (`32bit` being the floating-point one), and no other text names a width.
pub proof fn lemma_bit_width_names(s: Seq<char>)
    ensures
        bit_width_named("8bit"@) == Some(BitWidth::Bits8),
        bit_width_named("16bit"@) == Some(BitWidth::Bits16),
        bit_width_named("24bit"@) == Some(BitWidth::Bits24),
        bit_width_named("32bit"@) == Some(BitWidth::Float32),
        BitWidth::Bits8.spec_bits_per_sample() == 8,
        BitWidth::Bits16.spec_bits_per_sample() == 16,
        BitWidth::Bits24.spec_bits_per_sample() == 24,
        BitWidth::Float32.spec_bits_per_sample() == 32,
        bit_width_named(s) is Some ==> (s == "8bit"@ || s == "16bit"@ || s == "24bit"@ || s == "32bit"@),
{
    reveal_strlit("8bit");
    reveal_strlit("16bit");
    reveal_strlit("24bit");
    reveal_strlit("32bit");
    assert("16bit"@.len() != "8bit"@.len());
    assert("24bit"@.len() != "8bit"@.len());
    assert("24bit"@[0] != "16bit"@[0]);
    assert("32bit"@.len() != "8bit"@.len());
    assert("32bit"@[0] != "16bit"@[0]);
    assert("32bit"@[0] != "24bit"@[0]);
}

} // verus!
