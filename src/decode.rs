//! Decoding an animated WebP or GIF file into renderable frames and their
//! delays.
use vstd::prelude::*;
use image::AnimationDecoder;
use crate::timing::{duration_delays, end_timestamps, frame_delay, frame_delays, int_timestamps};

verus! {

/// One frame as the animation decoder hands it out: canvas size, RGBA
/// pixels and the frame's timestamp in milliseconds.
pub struct RawFrame {
    pub width: u32,
    pub height: u32,
    pub rgba: Vec<u8>,
    pub timestamp: i32,
}

/// The plain values a decoded frame carries: width, height, pixels, timestamp.
pub open spec fn raw_frame_view(f: RawFrame) -> (u32, u32, Seq<u8>, i32) {
    (f.width, f.height, f.rgba@, f.timestamp)
}

pub open spec fn raw_frames_view(r: Option<Vec<RawFrame>>) -> Option<Seq<(u32, u32, Seq<u8>, i32)>> {
    match r {
        Some(v) => Some(v@.map_values(|f: RawFrame| raw_frame_view(f))),
        None => None,
    }
}

/// The frames that the WebP animation decoder yields for a file's bytes, in
/// stream order, or `None` where it refuses the data.
pub uninterp spec fn webp_frames_of(data: Seq<u8>) -> Option<Seq<(u32, u32, Seq<u8>, i32)>>;

/// The PNG encoding of an RGBA pixel buffer of the given size, or `None`
/// where the buffer does not hold the image or the encoder fails.
pub uninterp spec fn png_of(width: u32, height: u32, rgba: Seq<u8>) -> Option<Seq<u8>>;

/// Relies on `webp_animation::Decoder::new` and the decoder's frame iterator:
/// the frames depend on the bytes alone, and an empty buffer is refused.
#[verifier::external_body]
fn decode_webp_frames(data: &Vec<u8>) -> (r: Option<Vec<RawFrame>>)
    ensures
        raw_frames_view(r) == webp_frames_of(data@),
        data@.len() == 0 ==> r is None,
{
    match webp_animation::Decoder::new(data) {
        Ok(decoder) => Some(
            decoder.into_iter().map(|f| RawFrame {
                width: f.dimensions().0,
                height: f.dimensions().1,
                rgba: f.data().to_vec(),
                timestamp: f.timestamp(),
            }).collect(),
        ),
        Err(_) => None,
    }
}

/// One frame as the GIF decoder hands it out: the frame drawn onto the full
/// logical screen as RGBA, and how long it shows, as a ratio of milliseconds.
pub struct GifFrame {
    pub width: u32,
    pub height: u32,
    pub rgba: Vec<u8>,
    pub delay_numer: u32,
    pub delay_denom: u32,
}

pub open spec fn gif_frame_view(f: GifFrame) -> (u32, u32, Seq<u8>, u32, u32) {
    (f.width, f.height, f.rgba@, f.delay_numer, f.delay_denom)
}

pub open spec fn gif_frames_view(r: Option<Vec<GifFrame>>) -> Option<Seq<(u32, u32, Seq<u8>, u32, u32)>> {
    match r {
        Some(v) => Some(v@.map_values(|f: GifFrame| gif_frame_view(f))),
        None => None,
    }
}

/// The frames that the GIF decoder yields for a file's bytes, in stream
/// order, or `None` where it refuses the data or any of its frames.
pub uninterp spec fn gif_frames_of(data: Seq<u8>) -> Option<Seq<(u32, u32, Seq<u8>, u32, u32)>>;

/// Relies on the image crate's `GifDecoder::new`, `into_frames`,
/// `Frames::collect_frames` and `Delay::numer_denom_ms`: the frames depend on
/// the bytes alone.
#[verifier::external_body]
fn decode_gif_frames(data: &Vec<u8>) -> (r: Option<Vec<GifFrame>>)
    ensures
        gif_frames_view(r) == gif_frames_of(data@),
{
    let decoder = image::codecs::gif::GifDecoder::new(std::io::Cursor::new(data.as_slice())).ok()?;
    let frames = decoder.into_frames().collect_frames().ok()?;
    Some(frames.into_iter().map(|f| {
        let (delay_numer, delay_denom) = f.delay().numer_denom_ms();
        let buf = f.into_buffer();
        GifFrame { width: buf.width(), height: buf.height(), rgba: buf.into_raw(), delay_numer, delay_denom }
    }).collect())
}

pub open spec fn bytes_view(r: Option<Vec<u8>>) -> Option<Seq<u8>> {
    match r {
        Some(v) => Some(v@),
        None => None,
    }
}

/// Relies on the image crate's `RgbaImage::from_raw` and
/// `DynamicImage::write_to` with `ImageFormat::Png`: the encoding depends on
/// its arguments alone. The PNG encoder panics unless the buffer holds
/// exactly `4 * width * height` bytes.
#[verifier::external_body]
fn encode_png(width: u32, height: u32, rgba: &Vec<u8>) -> (r: Option<Vec<u8>>)
    requires
        rgba@.len() == 4 * (width as int) * (height as int),
    ensures
        bytes_view(r) == png_of(width, height, rgba@),
{
    let img = image::RgbaImage::from_raw(width, height, rgba.clone())?;
    let mut png: Vec<u8> = Vec::new();
    match image::DynamicImage::ImageRgba8(img).write_to(
        &mut std::io::Cursor::new(&mut png),
        image::ImageFormat::Png,
    ) {
        Ok(()) => Some(png),
        Err(_) => None,
    }
}

/// The PNG encoding of a frame, or `None` where its buffer is not exactly an
/// RGBA image of its size or the encoder fails.
pub open spec fn encoded_frame(width: u32, height: u32, rgba: Seq<u8>) -> Option<Seq<u8>> {
    if rgba.len() == 4 * (width as int) * (height as int) {
        png_of(width, height, rgba)
    } else {
        None
    }
}

/// Encodes one decoded frame as PNG, refusing a buffer of the wrong length.
fn encode_frame(width: u32, height: u32, rgba: &Vec<u8>) -> (r: Option<Vec<u8>>)
    ensures
        bytes_view(r) == encoded_frame(width, height, rgba@),
{
    let n = rgba.len();
    proof {
        let w = width as int;
        let h = height as int;
        assert(0 <= w * h <= u32::MAX * u32::MAX) by (nonlinear_arith)
            requires
                0 <= w <= u32::MAX,
                0 <= h <= u32::MAX,
        ;
        assert(4 * w * h == (w * h) * 4) by (nonlinear_arith);
        vstd::arithmetic::div_mod::lemma_mod_multiples_basic(w * h, 4);
        vstd::arithmetic::div_mod::lemma_div_multiples_vanish(w * h, 4);
        vstd::arithmetic::div_mod::lemma_fundamental_div_mod(n as int, 4);
    }
    let pixels = (width as u64) * (height as u64);
    if n % 4 != 0 || pixels != (n / 4) as u64 {
        return None;
    }
    encode_png(width, height, rgba)
}

/// What an animation holds: its frames (each an encoded image) and the
/// delay of each frame in milliseconds, paired by index.
pub struct AnimationView {
    pub frames: Seq<Seq<u8>>,
    pub delays: Seq<u64>,
}

/// An animation of at least two frames, each paired with its delay.
pub open spec fn valid_animation(a: AnimationView) -> bool {
    &&& a.frames.len() == a.delays.len()
    &&& a.frames.len() >= 2
}

/// A decoded animation: immutable, at least two frames, one delay per frame.
pub struct AnimationData {
    frames: Vec<Vec<u8>>,
    delays: Vec<u64>,
}

impl View for AnimationData {
    type V = AnimationView;

    closed spec fn view(&self) -> AnimationView {
        AnimationView { frames: self.frames@.map_values(|f: Vec<u8>| f@), delays: self.delays@ }
    }
}

impl AnimationData {
    #[verifier::type_invariant]
    closed spec fn inv(&self) -> bool {
        &&& self.frames@.len() == self.delays@.len()
        &&& self.frames@.len() >= 2
    }

    /// The number of frames.
    pub fn frame_count(&self) -> (r: usize)
        ensures
            r == self@.frames.len(),
            valid_animation(self@),
    {
        proof {
            use_type_invariant(self);
        }
        self.frames.len()
    }

    /// The encoded image of frame `i`.
    pub fn frame(&self, i: usize) -> (r: &Vec<u8>)
        requires
            i < self@.frames.len(),
        ensures
            r@ == self@.frames[i as int],
    {
        &self.frames[i]
    }

    /// How long frame `i` stays on screen, in milliseconds.
    pub fn delay(&self, i: usize) -> (r: u64)
        requires
            i < self@.delays.len(),
        ensures
            r == self@.delays[i as int],
    {
        self.delays[i]
    }
}

/// The encoded frames that survive conversion, in stream order.
pub open spec fn kept_frames(encoded: Seq<Option<Seq<u8>>>) -> Seq<Seq<u8>>
    decreases encoded.len(),
{
    if encoded.len() == 0 {
        Seq::empty()
    } else {
        let rest = kept_frames(encoded.drop_last());
        match encoded.last() {
            Some(f) => rest.push(f),
            None => rest,
        }
    }
}

/// The delays of the frames that survive conversion, in stream order.
pub open spec fn kept_delays(encoded: Seq<Option<Seq<u8>>>, delays: Seq<u64>) -> Seq<u64>
    decreases encoded.len(),
{
    if encoded.len() == 0 || delays.len() == 0 {
        Seq::empty()
    } else {
        let rest = kept_delays(encoded.drop_last(), delays.drop_last());
        match encoded.last() {
            Some(_) => rest.push(delays.last()),
            None => rest,
        }
    }
}

/// The animation made of the frames that converted, or `None` where fewer
/// than two did.
pub open spec fn assembled(encoded: Seq<Option<Seq<u8>>>, delays: Seq<u64>) -> Option<AnimationView> {
    let frames = kept_frames(encoded);
    if frames.len() < 2 {
        None
    } else {
        Some(AnimationView { frames, delays: kept_delays(encoded, delays) })
    }
}

pub open spec fn animation_view(r: Option<AnimationData>) -> Option<AnimationView> {
    match r {
        Some(a) => Some(a@),
        None => None,
    }
}

proof fn lemma_kept_lengths(encoded: Seq<Option<Seq<u8>>>, delays: Seq<u64>)
    requires
        encoded.len() == delays.len(),
    ensures
        kept_frames(encoded).len() == kept_delays(encoded, delays).len(),
    decreases encoded.len(),
{
    if encoded.len() > 0 {
        lemma_kept_lengths(encoded.drop_last(), delays.drop_last());
    }
}

/// Builds an animation from each frame's conversion result and delay: a frame
/// whose conversion failed is dropped together with its delay, and fewer than
/// two remaining frames give no animation.
pub fn assemble_animation(encoded: Vec<Option<Vec<u8>>>, delays: &Vec<u64>) -> (r: Option<AnimationData>)
    requires
        encoded@.len() == delays@.len(),
    ensures
        animation_view(r) == assembled(encoded@.map_values(|e: Option<Vec<u8>>| bytes_view(e)), delays@),
        r is None <==> kept_frames(encoded@.map_values(|e: Option<Vec<u8>>| bytes_view(e))).len() < 2,
{
    let ghost enc = encoded@.map_values(|e: Option<Vec<u8>>| bytes_view(e));
    let n = encoded.len();
    let mut frames: Vec<Vec<u8>> = Vec::new();
    let mut kept: Vec<u64> = Vec::new();
    let mut rest = encoded;
    let mut pending: Vec<Option<Vec<u8>>> = Vec::new();
    // Reverse so that popping yields the frames in stream order.
    while rest.len() > 0
        invariant
            pending@.len() + rest@.len() == n,
            forall|j: int| 0 <= j < rest@.len() ==> bytes_view(rest@[j]) == enc[j],
            forall|j: int| 0 <= j < pending@.len() ==> bytes_view(pending@[j]) == enc[n - 1 - j],
            enc.len() == n,
        decreases rest@.len(),
    {
        let e = rest.pop().unwrap();
        pending.push(e);
    }
    let mut i: usize = 0;
    while i < n
        invariant
            n == delays@.len(),
            enc.len() == n,
            i <= n,
            pending@.len() == n - i,
            forall|j: int| 0 <= j < pending@.len() ==> bytes_view(pending@[j]) == enc[n - 1 - j],
            frames@.map_values(|f: Vec<u8>| f@) == kept_frames(enc.subrange(0, i as int)),
            kept@ == kept_delays(enc.subrange(0, i as int), delays@.subrange(0, i as int)),
        decreases n - i,
    {
        let e = pending.pop().unwrap();
        proof {
            let s = enc.subrange(0, i as int + 1);
            assert(s.drop_last() =~= enc.subrange(0, i as int));
            assert(delays@.subrange(0, i as int + 1).drop_last() =~= delays@.subrange(0, i as int));
        }
        match e {
            Some(f) => {
                frames.push(f);
                kept.push(delays[i]);
                proof {
                    assert(frames@.map_values(|f: Vec<u8>| f@) =~= kept_frames(enc.subrange(0, i as int + 1)));
                }
            },
            None => {},
        }
        i = i + 1;
    }
    proof {
        assert(enc.subrange(0, n as int) =~= enc);
        assert(delays@.subrange(0, n as int) =~= delays@);
        lemma_kept_lengths(enc, delays@);
    }
    if frames.len() < 2 {
        None
    } else {
        let a = AnimationData { frames, delays: kept };
        proof {
            assert(a@.frames =~= kept_frames(enc));
        }
        Some(a)
    }
}


/// The timestamps of decoded WebP frames, in stream order.
pub open spec fn timestamps_of(fs: Seq<(u32, u32, Seq<u8>, i32)>) -> Seq<i32> {
    fs.map_values(|f: (u32, u32, Seq<u8>, i32)| f.3)
}

/// The PNG encoding of each decoded WebP frame, in stream order.
pub open spec fn encodings_of(fs: Seq<(u32, u32, Seq<u8>, i32)>) -> Seq<Option<Seq<u8>>> {
    fs.map_values(|f: (u32, u32, Seq<u8>, i32)| encoded_frame(f.0, f.1, f.2))
}

/// How long a GIF frame shows, in whole milliseconds.
pub open spec fn duration_ms(numer: u32, denom: u32) -> u32 {
    if denom == 0 {
        0
    } else {
        (numer / denom) as u32
    }
}

/// The durations of decoded GIF frames, in stream order.
pub open spec fn gif_durations_of(fs: Seq<(u32, u32, Seq<u8>, u32, u32)>) -> Seq<u32> {
    fs.map_values(|f: (u32, u32, Seq<u8>, u32, u32)| duration_ms(f.3, f.4))
}

/// The PNG encoding of each decoded GIF frame, in stream order.
pub open spec fn gif_encodings_of(fs: Seq<(u32, u32, Seq<u8>, u32, u32)>) -> Seq<Option<Seq<u8>>> {
    fs.map_values(|f: (u32, u32, Seq<u8>, u32, u32)| encoded_frame(f.0, f.1, f.2))
}

/// Whether the bytes start with the GIF signature `GIF8`.
pub open spec fn is_gif(data: Seq<u8>) -> bool {
    data.len() >= 4 && data[0] == 0x47u8 && data[1] == 0x49u8 && data[2] == 0x46u8 && data[3] == 0x38u8
}

/// The animation that a file's bytes give: a GIF is read by the GIF decoder,
/// anything else by the WebP decoder. Every decoded frame is encoded as PNG
/// and timed by the frames' timestamps (a GIF frame's timestamp being the time
/// it ends); frames that fail to encode are dropped with their delays.
pub open spec fn animation_of(data: Seq<u8>) -> Option<AnimationView> {
    if is_gif(data) {
        match gif_frames_of(data) {
            None => None,
            Some(fs) => assembled(
                gif_encodings_of(fs),
                Seq::new(fs.len(), |i: int| frame_delay(end_timestamps(gif_durations_of(fs)), i) as u64),
            ),
        }
    } else {
        match webp_frames_of(data) {
            None => None,
            Some(fs) => assembled(
                encodings_of(fs),
                Seq::new(fs.len(), |i: int| frame_delay(int_timestamps(timestamps_of(fs)), i) as u64),
            ),
        }
    }
}

fn decode_webp(data: &Vec<u8>) -> (r: Option<AnimationData>)
    requires
        !is_gif(data@),
    ensures
        animation_view(r) == animation_of(data@),
        data@.len() == 0 ==> r is None,
{
    let frames = match decode_webp_frames(data) {
        Some(f) => f,
        None => {
            return None;
        },
    };
    let ghost fs = frames@.map_values(|f: RawFrame| raw_frame_view(f));
    let mut timestamps: Vec<i32> = Vec::new();
    let mut encoded: Vec<Option<Vec<u8>>> = Vec::new();
    let n = frames.len();
    let mut i: usize = 0;
    while i < n
        invariant
            n == frames@.len(),
            fs == frames@.map_values(|f: RawFrame| raw_frame_view(f)),
            i <= n,
            encoded@.len() == i,
            timestamps@ == timestamps_of(fs).subrange(0, i as int),
            encoded@.map_values(|e: Option<Vec<u8>>| bytes_view(e)) == encodings_of(fs).subrange(0, i as int),
        decreases n - i,
    {
        let f = &frames[i];
        timestamps.push(f.timestamp);
        let e = encode_frame(f.width, f.height, &f.rgba);
        let ghost before = encoded@;
        encoded.push(e);
        proof {
            assert(fs[i as int] == raw_frame_view(frames@[i as int]));
            assert forall|j: int| 0 <= j < i implies bytes_view(#[trigger] encoded@[j]) == encodings_of(fs)[j] by {
                assert(before.map_values(|e: Option<Vec<u8>>| bytes_view(e))[j] == encodings_of(fs).subrange(
                    0,
                    i as int,
                )[j]);
            }
            assert(timestamps@ =~= timestamps_of(fs).subrange(0, i as int + 1));
            assert(encoded@.map_values(|e: Option<Vec<u8>>| bytes_view(e)) =~= encodings_of(fs).subrange(
                0,
                i as int + 1,
            ));
        }
        i = i + 1;
    }
    let delays = frame_delays(&timestamps);
    proof {
        assert(timestamps@ =~= timestamps_of(fs));
        assert(delays@ =~= Seq::new(fs.len(), |i: int| frame_delay(int_timestamps(timestamps_of(fs)), i) as u64));
        assert(encoded@.map_values(|e: Option<Vec<u8>>| bytes_view(e)) =~= encodings_of(fs));
    }
    assemble_animation(encoded, &delays)
}

fn decode_gif(data: &Vec<u8>) -> (r: Option<AnimationData>)
    requires
        is_gif(data@),
    ensures
        animation_view(r) == animation_of(data@),
{
    let frames = match decode_gif_frames(data) {
        Some(f) => f,
        None => {
            return None;
        },
    };
    let ghost fs = frames@.map_values(|f: GifFrame| gif_frame_view(f));
    let mut durations: Vec<u32> = Vec::new();
    let mut encoded: Vec<Option<Vec<u8>>> = Vec::new();
    let n = frames.len();
    let mut i: usize = 0;
    while i < n
        invariant
            n == frames@.len(),
            fs == frames@.map_values(|f: GifFrame| gif_frame_view(f)),
            i <= n,
            encoded@.len() == i,
            durations@ == gif_durations_of(fs).subrange(0, i as int),
            encoded@.map_values(|e: Option<Vec<u8>>| bytes_view(e)) == gif_encodings_of(fs).subrange(
                0,
                i as int,
            ),
        decreases n - i,
    {
        let f = &frames[i];
        let d: u32 = if f.delay_denom == 0 {
            0
        } else {
            f.delay_numer / f.delay_denom
        };
        durations.push(d);
        let e = encode_frame(f.width, f.height, &f.rgba);
        let ghost before = encoded@;
        encoded.push(e);
        proof {
            assert(fs[i as int] == gif_frame_view(frames@[i as int]));
            assert forall|j: int| 0 <= j < i implies bytes_view(#[trigger] encoded@[j]) == gif_encodings_of(fs)[j] by {
                assert(before.map_values(|e: Option<Vec<u8>>| bytes_view(e))[j] == gif_encodings_of(
                    fs,
                ).subrange(0, i as int)[j]);
            }
            assert(durations@ =~= gif_durations_of(fs).subrange(0, i as int + 1));
            assert(encoded@.map_values(|e: Option<Vec<u8>>| bytes_view(e)) =~= gif_encodings_of(
                fs,
            ).subrange(0, i as int + 1));
        }
        i = i + 1;
    }
    let delays = duration_delays(&durations);
    proof {
        assert(durations@ =~= gif_durations_of(fs));
        assert(delays@ =~= Seq::new(
            fs.len(),
            |i: int| frame_delay(end_timestamps(gif_durations_of(fs)), i) as u64,
        ));
        assert(encoded@.map_values(|e: Option<Vec<u8>>| bytes_view(e)) =~= gif_encodings_of(fs));
    }
    assemble_animation(encoded, &delays)
}

/// Decodes the bytes of an animated GIF or WebP file into an animation. Data
/// that the decoder refuses, or that leaves fewer than two usable frames,
/// gives `None`.
pub fn decode_animation(data: &Vec<u8>) -> (r: Option<AnimationData>)
    ensures
        animation_view(r) == animation_of(data@),
        data@.len() == 0 ==> r is None,
{
    let gif = data.len() >= 4 && data[0] == 0x47u8 && data[1] == 0x49u8 && data[2] == 0x46u8 && data[3]
        == 0x38u8;
    if gif {
        decode_gif(data)
    } else {
        decode_webp(data)
    }
}

} // verus!
