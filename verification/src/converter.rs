use vstd::prelude::*;

verus! {

/// What a finished conversion reports: how many frames the GIF has and how
/// long one pass of the animation takes, in hundredths of a second.
#[derive(Debug, Clone, Copy, PartialEq, Eq, Structural)]
pub struct ConversionSummary {
    pub frame_count: usize,
    pub total_delay_cs: u32,
}

/// What reading a GIF back reports: its number of frames and the sum of
/// their delays, in hundredths of a second.
#[derive(Debug, Clone, Copy, PartialEq, Eq, Structural)]
pub struct GifInspection {
    pub frame_count: usize,
    pub total_delay_cs: u32,
}

/// The shortest delay a GIF frame gets, in milliseconds.
pub const MIN_FRAME_DELAY_MS: i32 = 20;

/// The time at which frame `i` ends, in milliseconds: the timestamps the
/// decoder reports, never going back before an earlier one or before 0.
pub open spec fn frame_end_ms(timestamps: Seq<i32>, i: int) -> int
    decreases i + 1,
{
    if i < 0 {
        0
    } else {
        let before = frame_end_ms(timestamps, i - 1);
        if timestamps[i] > before { timestamps[i] as int } else { before }
    }
}

/// How long frame `i` shows, in milliseconds: the time since the previous
/// frame ended, but at least 20 ms.
pub open spec fn frame_delay_ms(timestamps: Seq<i32>, i: int) -> int {
    let d = frame_end_ms(timestamps, i) - frame_end_ms(timestamps, i - 1);
    if d > MIN_FRAME_DELAY_MS { d } else { MIN_FRAME_DELAY_MS as int }
}

/// A delay of `ms` milliseconds in the hundredths of a second of a GIF:
/// `ms / 10` rounded half away from zero, at most `u16::MAX`. For every
/// `ms` from 20 to `i32::MAX` this is what `((ms as f32) / 10.0).round()`
/// converted to `u16` gives: below 655350 the quotient is exact to well
/// within 0.1, so it rounds the same way, and from there on both saturate.
pub open spec fn centiseconds_of_ms(ms: int) -> int {
    let c = (ms + 5) / 10;
    if c > 65535 { 65535 } else { c }
}

/// The GIF delay of frame `i`, in hundredths of a second.
pub open spec fn frame_delay_cs(timestamps: Seq<i32>, i: int) -> int {
    centiseconds_of_ms(frame_delay_ms(timestamps, i))
}

/// The GIF delays of all frames.
pub open spec fn frame_delays_cs(timestamps: Seq<i32>) -> Seq<u16> {
    Seq::new(timestamps.len(), |i: int| frame_delay_cs(timestamps, i) as u16)
}

/// The sum of a list of delays.
pub open spec fn delay_sum(delays: Seq<u16>) -> int
    decreases delays.len(),
{
    if delays.len() == 0 {
        0
    } else {
        delay_sum(delays.drop_last()) + delays.last()
    }
}

proof fn lemma_frame_end_bounds(timestamps: Seq<i32>, i: int)
    requires
        i < timestamps.len(),
    ensures
        0 <= frame_end_ms(timestamps, i - 1) <= frame_end_ms(timestamps, i) <= i32::MAX,
    decreases i + 1,
{
    if i >= 1 {
        lemma_frame_end_bounds(timestamps, i - 1);
    }
}

/// Law: every frame of the GIF shows for at least two hundredths of a
/// second, and at most `u16::MAX` of them.
pub proof fn law_frame_delay_bounds(timestamps: Seq<i32>, i: int)
    requires
        0 <= i < timestamps.len(),
    ensures
        2 <= frame_delay_cs(timestamps, i) <= 65535,
{
    lemma_frame_end_bounds(timestamps, i);
}

/// A timeline in which every frame lasts from 20 ms to 655350 ms: each
/// timestamp lies that far after the one before it (the first after 0).
pub open spec fn steady_timeline(timestamps: Seq<i32>) -> bool {
    forall|i: int|
        #![trigger timestamps[i]]
        0 <= i < timestamps.len() ==> 20 <= timestamps[i] - (if i == 0 { 0 } else { timestamps[i - 1] as int })
            <= 655350
}

/// The end of a frame depends only on the timestamps up to it.
proof fn lemma_frame_end_prefix(timestamps: Seq<i32>, prefix: Seq<i32>, i: int)
    requires
        i < prefix.len() <= timestamps.len(),
        prefix == timestamps.take(prefix.len() as int),
    ensures
        frame_end_ms(prefix, i) == frame_end_ms(timestamps, i),
    decreases i + 1,
{
    if i >= 0 {
        lemma_frame_end_prefix(timestamps, prefix, i - 1);
    }
}

/// In a steady timeline every frame ends at its own timestamp.
proof fn lemma_steady_frame_ends(timestamps: Seq<i32>, i: int)
    requires
        steady_timeline(timestamps),
        0 <= i < timestamps.len(),
    ensures
        frame_end_ms(timestamps, i) == timestamps[i],
    decreases i,
{
    assert(20 <= timestamps[i] - (if i == 0 { 0 } else { timestamps[i - 1] as int }));
    if i > 0 {
        lemma_steady_frame_ends(timestamps, i - 1);
    } else {
        assert(frame_end_ms(timestamps, -1) == 0);
    }
}

/// Law: where every frame of the WebP lasts from 20 ms to 655350 ms, one
/// pass of the GIF lasts as long as the WebP's timeline to within 5 ms per
/// frame (each delay is rounded to the nearest hundredth of a second).
pub proof fn law_play_time_follows_timeline(timestamps: Seq<i32>)
    requires
        steady_timeline(timestamps),
        timestamps.len() > 0,
    ensures
        -5 * timestamps.len() <= 10 * delay_sum(frame_delays_cs(timestamps)) - timestamps.last() <= 5
            * timestamps.len(),
    decreases timestamps.len(),
{
    let n = timestamps.len() as int;
    let rest = timestamps.drop_last();
    let delays = frame_delays_cs(timestamps);
    assert forall|i: int| 0 <= i < n - 1 implies delays[i] == frame_delays_cs(rest)[i] by {
        lemma_frame_end_prefix(timestamps, rest, i);
        lemma_frame_end_prefix(timestamps, rest, i - 1);
    }
    assert(delays.drop_last() =~= frame_delays_cs(rest));
    lemma_steady_frame_ends(timestamps, n - 1);
    let before: int = if n == 1 { 0 } else { timestamps[n - 2] as int };
    assert(20 <= timestamps[n - 1] - before <= 655350);
    if n > 1 {
        lemma_steady_frame_ends(timestamps, n - 2);
        assert forall|i: int| 0 <= i < rest.len() implies 20 <= #[trigger] rest[i] - (if i == 0 {
            0
        } else {
            rest[i - 1] as int
        }) <= 655350 by {
            assert(rest[i] == timestamps[i]);
            assert(20 <= timestamps[i] - (if i == 0 { 0 } else { timestamps[i - 1] as int }));
        }
        law_play_time_follows_timeline(rest);
    }
    let g = timestamps[n - 1] - before;
    if n == 1 {
        assert(frame_end_ms(timestamps, -1) == 0);
        assert(delay_sum(delays.drop_last()) == 0);
    } else {
        assert(rest.last() == timestamps[n - 2]);
    }
    assert(frame_end_ms(timestamps, n - 2) == before);
    assert(frame_delay_ms(timestamps, n - 1) == g);
    assert(-5 <= 10 * ((g + 5) / 10) - g <= 5);
    assert(delays.last() == (g + 5) / 10);
    assert(delay_sum(delays) == delay_sum(delays.drop_last()) + delays.last());
}

/// The GIF delay for a delay of `ms` milliseconds (at least 20).
fn centiseconds(ms: i32) -> (cs: u16)
    requires
        ms >= MIN_FRAME_DELAY_MS,
    ensures
        cs == centiseconds_of_ms(ms as int),
{
    let c = (ms as i64 + 5) / 10;
    if c > 65535 {
        65535
    } else {
        c as u16
    }
}

/// The GIF delay of every frame, from the frames' timestamps in milliseconds.
pub fn gif_frame_delays(timestamps: &[i32]) -> (delays: Vec<u16>)
    ensures
        delays@ == frame_delays_cs(timestamps@),
{
    let mut delays: Vec<u16> = Vec::new();
    let mut previous: i32 = 0;
    let mut i: usize = 0;
    while i < timestamps.len()
        invariant
            i <= timestamps@.len(),
            previous == frame_end_ms(timestamps@, i - 1),
            delays@ =~= frame_delays_cs(timestamps@).take(i as int),
        decreases timestamps.len() - i,
    {
        proof {
            lemma_frame_end_bounds(timestamps@, i as int);
        }
        let t = timestamps[i];
        let timestamp = if t > previous { t } else { previous };
        let elapsed = timestamp - previous;
        let delay_ms = if elapsed > MIN_FRAME_DELAY_MS { elapsed } else { MIN_FRAME_DELAY_MS };
        delays.push(centiseconds(delay_ms));
        previous = timestamp;
        i = i + 1;
    }
    delays
}

/// The sum of `delays`, or `None` where it does not fit in a `u32`.
pub fn sum_delays(delays: &[u16]) -> (r: Option<u32>)
    ensures
        match r {
            Some(total) => total == delay_sum(delays@),
            None => delay_sum(delays@) > u32::MAX,
        },
{
    let mut total: u32 = 0;
    let mut i: usize = 0;
    while i < delays.len()
        invariant
            i <= delays@.len(),
            total == delay_sum(delays@.take(i as int)),
        decreases delays.len() - i,
    {
        assert(delays@.take(i + 1).drop_last() =~= delays@.take(i as int));
        let d = delays[i];
        if total > u32::MAX - d as u32 {
            proof {
                lemma_delay_sum_prefix(delays@, i + 1);
            }
            return None;
        }
        total = total + d as u32;
        i = i + 1;
    }
    assert(delays@.take(delays@.len() as int) =~= delays@);
    Some(total)
}

/// A sum of delays is at least the sum of any prefix of them.
proof fn lemma_delay_sum_prefix(delays: Seq<u16>, n: int)
    requires
        0 <= n <= delays.len(),
    ensures
        delay_sum(delays.take(n)) <= delay_sum(delays),
    decreases delays.len(),
{
    if n < delays.len() {
        assert(delays.drop_last().take(n) =~= delays.take(n));
        lemma_delay_sum_prefix(delays.drop_last(), n);
    } else {
        assert(delays.take(n) =~= delays);
    }
}

/// One decoded frame of a WebP animation: when it ends, in milliseconds, and
/// its pixels as RGBA bytes.
pub struct WebpFrame {
    pub timestamp: i32,
    pub rgba: Vec<u8>,
}

/// A decoded WebP animation: the canvas size and the frames in order.
pub struct WebpAnimation {
    pub width: u32,
    pub height: u32,
    pub frames: Vec<WebpFrame>,
}

/// The model of a decoded animation: width, height, and each frame's
/// timestamp and pixels.
pub type AnimationModel = (u32, u32, Seq<(i32, Seq<u8>)>);

impl View for WebpAnimation {
    type V = AnimationModel;

    open spec fn view(&self) -> AnimationModel {
        (self.width, self.height, self.frames@.map_values(|f: WebpFrame| (f.timestamp, f.rgba@)))
    }
}

/// The timestamps of an animation's frames.
pub open spec fn timestamps_of(animation: AnimationModel) -> Seq<i32> {
    animation.2.map_values(|f: (i32, Seq<u8>)| f.0)
}

/// Every frame holds four bytes for each pixel of the canvas.
pub open spec fn frames_fill_canvas(animation: AnimationModel) -> bool {
    forall|i: int|
        0 <= i < animation.2.len() ==> (#[trigger] animation.2[i]).1.len() == animation.0 as nat
            * animation.1 as nat * 4
}

/// The result of decoding `bytes` as a WebP animation with the
/// `webp_animation` crate (libwebp underneath): the animation, or the text
/// of the decoder's error.
pub uninterp spec fn webp_decoding(bytes: Seq<u8>) -> Result<AnimationModel, Seq<char>>;

/// Decodes a WebP animation with `webp_animation::Decoder::new` and its frame
/// iterator into plain values, or gives the decoder's error as text. The
/// result is named `webp_decoding`; beyond that only what the crate's source
/// shows of every frame is stated: it has `width * height * 4` bytes (RGBA,
/// the decoder's default colour mode; libwebp refuses canvases of 2^32
/// pixels and more, so the size does not wrap).
#[verifier::external_body]
fn decode_webp(bytes: &[u8]) -> (r: Result<WebpAnimation, String>)
    ensures
        match r {
            Ok(animation) => webp_decoding(bytes@) == Ok::<AnimationModel, Seq<char>>(animation@),
            Err(message) => webp_decoding(bytes@) == Err::<AnimationModel, Seq<char>>(message@),
        },
        r matches Ok(animation) ==> frames_fill_canvas(animation@),
{
    let decoder = webp_animation::Decoder::new(bytes).map_err(|error| error.to_string())?;
    let (width, height) = decoder.dimensions();
    let frames = decoder
        .into_iter()
        .map(|frame| WebpFrame { timestamp: frame.timestamp(), rgba: frame.data().to_vec() })
        .collect();
    Ok(WebpAnimation { width, height, frames })
}

#[verifier::external_type_specification]
#[verifier::external_body]
pub struct ExGifEncodingError(gif::EncodingError);

#[verifier::external_type_specification]
#[verifier::external_body]
pub struct ExGifDecodingError(gif::DecodingError);

#[verifier::external_type_specification]
#[verifier::external_body]
pub struct ExIoError(std::io::Error);

/// Why a conversion failed.
#[derive(Debug)]
pub enum ConvertError {
    /// The file could not be read or written.
    Io(std::io::Error),
    /// The WebP data could not be decoded; the decoder's message.
    WebP(String),
    /// The GIF could not be written.
    Gif(gif::EncodingError),
    /// The GIF could not be read back.
    GifDecode(gif::DecodingError),
    /// The WebP data holds no frame.
    EmptyAnimation,
    /// The canvas is wider or taller than a GIF can be.
    ImageTooLarge,
}

/// The message that starts the text of an `Io` error.
pub open spec fn io_error_prefix() -> Seq<char> {
    "无法读取文件："@
}

/// The message that starts the text of a `WebP` error.
pub open spec fn webp_error_prefix() -> Seq<char> {
    "无法读取 WebP 动画："@
}

/// The message that starts the text of a `Gif` error.
pub open spec fn gif_error_prefix() -> Seq<char> {
    "无法写入 GIF："@
}

/// The message that starts the text of a `GifDecode` error.
pub open spec fn gif_decode_error_prefix() -> Seq<char> {
    "无法检查 GIF："@
}

/// The text of an `EmptyAnimation` error.
pub open spec fn empty_animation_text() -> Seq<char> {
    "WebP 没有可转换的画面"@
}

/// The text of an `ImageTooLarge` error.
pub open spec fn image_too_large_text() -> Seq<char> {
    "图片尺寸太大，无法写入 GIF"@
}

/// A message followed by the text of an inner error.
fn prefixed(prefix: &str, detail: &str) -> (r: String)
    ensures
        r@ == prefix@ + detail@,
{
    let mut text = String::from_str(prefix);
    text.append(detail);
    text
}

impl ConvertError {
    /// The text shown for the error: a message in the window's language,
    /// followed, where there is one, by the text of the inner error.
    pub fn message(&self) -> (r: String)
        ensures
            match self {
                ConvertError::WebP(detail) => r@ == webp_error_prefix() + detail@,
                ConvertError::EmptyAnimation => r@ == empty_animation_text(),
                ConvertError::ImageTooLarge => r@ == image_too_large_text(),
                ConvertError::Io(_) => exists|detail: Seq<char>| r@ == io_error_prefix() + detail,
                ConvertError::Gif(_) => exists|detail: Seq<char>| r@ == gif_error_prefix() + detail,
                ConvertError::GifDecode(_) => exists|detail: Seq<char>| r@ == gif_decode_error_prefix()
                    + detail,
            },
    {
        match self {
            ConvertError::Io(error) => {
                let detail = error.to_string();
                let r = prefixed("无法读取文件：", detail.as_str());
                assert(r@ == io_error_prefix() + detail@);
                r
            },
            ConvertError::WebP(detail) => prefixed("无法读取 WebP 动画：", detail.as_str()),
            ConvertError::Gif(error) => {
                let detail = error.to_string();
                let r = prefixed("无法写入 GIF：", detail.as_str());
                assert(r@ == gif_error_prefix() + detail@);
                r
            },
            ConvertError::GifDecode(error) => {
                let detail = error.to_string();
                let r = prefixed("无法检查 GIF：", detail.as_str());
                assert(r@ == gif_decode_error_prefix() + detail@);
                r
            },
            ConvertError::EmptyAnimation => String::from_str("WebP 没有可转换的画面"),
            ConvertError::ImageTooLarge => String::from_str("图片尺寸太大，无法写入 GIF"),
        }
    }
}

/// A GIF being written into memory by a `gif::Encoder`. The encoder is
/// generic over `std::io::Write`, a bound Verus cannot read, so its
/// declaration is refused; it is held here, out of Verus's sight, and what
/// it has been given is known through `gif_stream_settings` and
/// `gif_stream_frames`.
#[verifier::external_body]
pub struct GifStream {
    encoder: gif::Encoder<Vec<u8>>,
}

/// What a GIF stream was made with: the width and height of its logical
/// screen, and its repetition setting once set (`Some(None)` for forever,
/// `Some(Some(n))` for `n` times).
pub uninterp spec fn gif_stream_settings(stream: GifStream) -> (u16, u16, Option<Option<u16>>);

/// The frames written to a GIF stream so far, in order: each frame's RGBA
/// pixels, the quantizer speed it was made with, and its delay.
pub uninterp spec fn gif_stream_frames(stream: GifStream) -> Seq<(Seq<u8>, i32, u16)>;

/// The bytes that the `gif` crate's encoder writes for a stream with these
/// settings and frames (each made with `Frame::from_rgba_speed` at the
/// stream's screen size and given its delay), trailer included.
pub uninterp spec fn gif_encoding(
    settings: (u16, u16, Option<Option<u16>>),
    frames: Seq<(Seq<u8>, i32, u16)>,
) -> Seq<u8>;

/// `gif::Encoder::new` on an empty buffer, with no global palette. With an
/// empty palette and a `Vec` to write into, the crate's source shows no way
/// for it to fail.
#[verifier::external_body]
fn gif_stream_new(width: u16, height: u16) -> (r: Result<GifStream, gif::EncodingError>)
    ensures
        r is Ok,
        r matches Ok(stream) ==> gif_stream_settings(stream) == (width, height, None::<Option<u16>>),
        r matches Ok(stream) ==> gif_stream_frames(stream) == Seq::<(Seq<u8>, i32, u16)>::empty(),
{
    gif::Encoder::new(Vec::new(), width, height, &[]).map(|encoder| GifStream { encoder })
}

/// `gif::Encoder::set_repeat`: `None` repeats the animation forever,
/// `Some(n)` `n` times. Writing into a `Vec`, it does not fail; it is set
/// once, before any frame.
#[verifier::external_body]
fn gif_stream_set_repeat(stream: &mut GifStream, times: Option<u16>) -> (r: Result<(), gif::EncodingError>)
    requires
        gif_stream_settings(*old(stream)).2 is None,
        gif_stream_frames(*old(stream)).len() == 0,
    ensures
        r is Ok,
        gif_stream_settings(*final(stream)) == (
            gif_stream_settings(*old(stream)).0,
            gif_stream_settings(*old(stream)).1,
            Some(times),
        ),
        gif_stream_frames(*final(stream)) == gif_stream_frames(*old(stream)),
{
    let repeat = match times {
        None => gif::Repeat::Infinite,
        Some(n) => gif::Repeat::Finite(n),
    };
    stream.encoder.set_repeat(repeat)
}

/// `gif::Encoder::write_frame` of the frame that `gif::Frame::from_rgba_speed`
/// makes from RGBA pixels at the screen's size, with its delay set.
/// `from_rgba_speed` panics unless there are four bytes per pixel and the
/// speed lies in 1..=30, so both are required. On success the frame is added
/// to the stream's frames. Writing can still fail where the encoder cannot
/// reserve memory for the compressed image (`try_reserve`); nothing is
/// stated of the stream then.
#[verifier::external_body]
fn gif_stream_write_rgba_frame(
    stream: &mut GifStream,
    width: u16,
    height: u16,
    pixels: &mut Vec<u8>,
    speed: i32,
    delay: u16,
) -> (r: Result<(), gif::EncodingError>)
    requires
        old(pixels)@.len() == width as nat * height as nat * 4,
        1 <= speed <= 30,
        gif_stream_settings(*old(stream)).0 == width,
        gif_stream_settings(*old(stream)).1 == height,
    ensures
        r is Ok ==> gif_stream_settings(*final(stream)) == gif_stream_settings(*old(stream))
            && gif_stream_frames(*final(stream)) == gif_stream_frames(*old(stream)).push(
            (old(pixels)@, speed, delay),
        ),
{
    let mut frame = gif::Frame::from_rgba_speed(width, height, pixels.as_mut_slice(), speed);
    frame.delay = delay;
    stream.encoder.write_frame(&frame)
}

/// `gif::Encoder::into_inner`: writes the trailer and hands back the bytes,
/// which are the encoding of the stream's settings and frames. Writing the
/// trailer into a `Vec` does not fail.
#[verifier::external_body]
fn gif_stream_finish(stream: GifStream) -> (r: Result<Vec<u8>, std::io::Error>)
    ensures
        r is Ok,
        r matches Ok(bytes) ==> bytes@ == gif_encoding(
            gif_stream_settings(stream),
            gif_stream_frames(stream),
        ),
{
    stream.encoder.into_inner()
}

/// The timestamps of the animation's frames, in order.
fn animation_timestamps(animation: &WebpAnimation) -> (r: Vec<i32>)
    ensures
        r@ == timestamps_of(animation@),
{
    let count = animation.frames.len();
    let mut timestamps: Vec<i32> = Vec::new();
    let mut i: usize = 0;
    while i < count
        invariant
            count == animation.frames@.len(),
            i <= count,
            timestamps@ =~= timestamps_of(animation@).take(i as int),
        decreases count - i,
    {
        timestamps.push(animation.frames[i].timestamp);
        i = i + 1;
    }
    assert(timestamps@ =~= timestamps_of(animation@));
    timestamps
}

/// The canvas fits the 16-bit width and height of a GIF.
pub open spec fn fits_gif(animation: AnimationModel) -> bool {
    animation.0 <= 65535 && animation.1 <= 65535
}

/// The total delay of the GIF made from `animation`, in hundredths of a second.
pub open spec fn total_delay_of(animation: AnimationModel) -> int {
    delay_sum(frame_delays_cs(timestamps_of(animation)))
}

/// What converting `animation` reports when it succeeds.
pub open spec fn summary_of(animation: AnimationModel) -> ConversionSummary {
    ConversionSummary {
        frame_count: animation.2.len() as usize,
        total_delay_cs: total_delay_of(animation) as u32,
    }
}

/// What encoding `animation` may give: too large a canvas and an empty
/// animation are refused, in that order; past them only the GIF encoder's
/// failure to reserve memory can stop it; a success reports the frames and
/// their total delay, and gives the GIF that the `gif` crate writes for a
/// screen of the canvas's size, repeating forever, with one frame per WebP
/// frame in order.
pub open spec fn encoding_outcome(
    animation: AnimationModel,
    r: Result<(Vec<u8>, ConversionSummary), ConvertError>,
) -> bool {
    &&& (r matches Err(ConvertError::ImageTooLarge)) <==> !fits_gif(animation)
    &&& (r matches Err(ConvertError::EmptyAnimation)) <==> fits_gif(animation) && animation.2.len() == 0
    &&& (r matches Err(ConvertError::WebP(_))) ==> false
    &&& (r matches Err(ConvertError::GifDecode(_))) ==> false
    &&& (r matches Err(ConvertError::Io(_))) ==> false
    &&& r matches Ok((bytes, summary)) ==> {
        &&& fits_gif(animation) && animation.2.len() > 0
        &&& summary == summary_of(animation)
        &&& bytes@ == gif_encoding(
            (animation.0 as u16, animation.1 as u16, Some(None::<u16>)),
            gif_frames_of(animation),
        )
    }
}

/// The GIF frames made from `animation`: each WebP frame's pixels, at the
/// quantizer speed `QUANTIZER_SPEED`, with the delay `frame_delays_cs` gives it.
pub open spec fn gif_frames_of(animation: AnimationModel) -> Seq<(Seq<u8>, i32, u16)> {
    Seq::new(
        animation.2.len(),
        |i: int| (animation.2[i].1, QUANTIZER_SPEED, frame_delays_cs(timestamps_of(animation))[i]),
    )
}

/// How fast the colour quantizer works when a frame has more than 256
/// colours (1 is best, 30 fastest).
pub const QUANTIZER_SPEED: i32 = 10;

/// Encodes a decoded animation as a GIF that repeats forever: one GIF frame
/// per WebP frame, each with the delay `gif_frame_delays` gives it. Gives
/// `None`, and encodes nothing, where the canvas fits a GIF and there are
/// frames but their total delay in hundredths of a second does not fit in a
/// `u32`.
pub fn encode_animation(animation: &WebpAnimation) -> (r: Option<Result<(Vec<u8>, ConversionSummary), ConvertError>>)
    requires
        frames_fill_canvas(animation@),
    ensures
        r is None <==> fits_gif(animation@) && animation@.2.len() > 0 && total_delay_of(animation@)
            > u32::MAX,
        r matches Some(result) ==> encoding_outcome(animation@, result),
{
    if animation.width > 65535 || animation.height > 65535 {
        return Some(Err(ConvertError::ImageTooLarge));
    }
    let width = animation.width as u16;
    let height = animation.height as u16;
    let count = animation.frames.len();
    if count == 0 {
        return Some(Err(ConvertError::EmptyAnimation));
    }
    let delays = gif_frame_delays(animation_timestamps(animation).as_slice());
    let total = match sum_delays(delays.as_slice()) {
        Some(total) => total,
        None => return None,
    };
    let mut stream = match gif_stream_new(width, height) {
        Ok(stream) => stream,
        Err(error) => return Some(Err(ConvertError::Gif(error))),
    };
    match gif_stream_set_repeat(&mut stream, None) {
        Ok(()) => {},
        Err(error) => return Some(Err(ConvertError::Gif(error))),
    }
    let ghost frames = gif_frames_of(animation@);
    let mut i: usize = 0;
    while i < count
        invariant
            count == animation.frames@.len() == delays@.len(),
            i <= count,
            width == animation.width,
            height == animation.height,
            frames_fill_canvas(animation@),
            delays@ == frame_delays_cs(timestamps_of(animation@)),
            total == total_delay_of(animation@),
            frames == gif_frames_of(animation@),
            gif_stream_settings(stream) == (width, height, Some(None::<u16>)),
            gif_stream_frames(stream) == frames.take(i as int),
        decreases count - i,
    {
        let mut pixels = animation.frames[i].rgba.clone();
        assert(pixels@ =~= animation.frames@[i as int].rgba@);
        assert(animation@.2[i as int].1 == animation.frames@[i as int].rgba@);
        match gif_stream_write_rgba_frame(&mut stream, width, height, &mut pixels, QUANTIZER_SPEED, delays[i]) {
            Ok(()) => {},
            Err(error) => return Some(Err(ConvertError::Gif(error))),
        }
        assert(frames.take(i + 1) =~= frames.take(i as int).push(frames[i as int]));
        i = i + 1;
    }
    assert(frames.take(count as int) =~= frames);
    let bytes = match gif_stream_finish(stream) {
        Ok(bytes) => bytes,
        Err(error) => return Some(Err(ConvertError::Io(error))),
    };
    Some(Ok((bytes, ConversionSummary { frame_count: count, total_delay_cs: total })))
}

/// Converts WebP bytes to GIF bytes: decodes the animation and encodes it
/// with `encode_animation`. Gives `None`, and converts nothing, where the
/// canvas fits a GIF and there are frames but their total delay in
/// hundredths of a second does not fit in a `u32`.
pub fn convert_webp_bytes(webp: &[u8]) -> (r: Option<Result<(Vec<u8>, ConversionSummary), ConvertError>>)
    ensures
        match webp_decoding(webp@) {
            Err(message) => r matches Some(Err(ConvertError::WebP(m))) && m@ == message,
            Ok(animation) => {
                &&& r is None <==> fits_gif(animation) && animation.2.len() > 0
                    && total_delay_of(animation) > u32::MAX
                &&& r matches Some(result) ==> encoding_outcome(animation, result)
            },
        },
{
    let animation = match decode_webp(webp) {
        Ok(animation) => animation,
        Err(message) => return Some(Err(ConvertError::WebP(message))),
    };
    encode_animation(&animation)
}

/// What the `gif` crate's decoder (RGBA output, default memory limit) gives
/// for `bytes` when `read_info` is followed by `read_next_frame` until it
/// reports the end: the delay of every frame it hands out, in order, or
/// `None` where `read_info` or one of those calls fails.
pub uninterp spec fn gif_delays_of(bytes: Seq<u8>) -> Option<Seq<u16>>;

/// Reads a GIF with `gif::DecodeOptions::read_info` (RGBA output) and then
/// `gif::Decoder::read_next_frame` until it reports the end, keeping each
/// frame's delay, and stops at the first error. The decoder reads only from
/// `bytes` and its default memory limit is fixed, so the result is named
/// `gif_delays_of`.
#[verifier::external_body]
fn read_gif_delays(bytes: &[u8]) -> (r: Result<Vec<u16>, gif::DecodingError>)
    ensures
        match r {
            Ok(delays) => gif_delays_of(bytes@) == Some(delays@),
            Err(_) => gif_delays_of(bytes@) is None,
        },
{
    let mut options = gif::DecodeOptions::new();
    options.set_color_output(gif::ColorOutput::RGBA);
    let mut decoder = options.read_info(bytes)?;
    std::iter::from_fn(|| decoder.read_next_frame().map(|frame| frame.map(|frame| frame.delay)).transpose())
        .collect()
}

/// What reading `bytes` as a GIF gives: the decoder's error where it refuses
/// them, else the number of frames and the sum of their delays, or `None`
/// where that sum does not fit in a `u32`.
pub open spec fn inspection_outcome(bytes: Seq<u8>, r: Option<Result<GifInspection, ConvertError>>) -> bool {
    match gif_delays_of(bytes) {
        None => r matches Some(Err(ConvertError::GifDecode(_))),
        Some(delays) => if delay_sum(delays) <= u32::MAX {
            r == Some(
                Ok::<GifInspection, ConvertError>(
                    GifInspection {
                        frame_count: delays.len() as usize,
                        total_delay_cs: delay_sum(delays) as u32,
                    },
                ),
            )
        } else {
            r is None
        },
    }
}

/// Reads a GIF back and reports its frames and their total delay.
pub fn inspect_gif_bytes(bytes: &[u8]) -> (r: Option<Result<GifInspection, ConvertError>>)
    ensures
        inspection_outcome(bytes@, r),
{
    let delays = match read_gif_delays(bytes) {
        Ok(delays) => delays,
        Err(error) => return Some(Err(ConvertError::GifDecode(error))),
    };
    inspection_of_delays(delays.as_slice())
}

/// The report for a GIF whose frames carry `delays`: their number and sum,
/// or `None` where the sum does not fit in a `u32`.
pub fn inspection_of_delays(delays: &[u16]) -> (r: Option<Result<GifInspection, ConvertError>>)
    ensures
        delay_sum(delays@) <= u32::MAX ==> r == Some(
            Ok::<GifInspection, ConvertError>(
                GifInspection {
                    frame_count: delays@.len() as usize,
                    total_delay_cs: delay_sum(delays@) as u32,
                },
            ),
        ),
        delay_sum(delays@) > u32::MAX ==> r is None,
{
    match sum_delays(delays) {
        Some(total) => Some(Ok(GifInspection { frame_count: delays.len(), total_delay_cs: total })),
        None => None,
    }
}

} // verus!
