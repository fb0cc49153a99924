//! The video side: turning planar pictures into packed pixels, and deciding
//! when each picture is due.

use vstd::prelude::*;
use vstd::arithmetic::div_mod::lemma_fundamental_div_mod_converse;
use crate::frame::{TimeInfo, Timebase, VideoFrame, VideoFrameView};
use crate::queue::FrameQueue;
use crate::state::PlayerState;

verus! {

/// What a container says of a video stream.
#[derive(Clone, Copy, Debug, PartialEq, Eq, Structural)]
pub struct VideoInfo {
    pub width: usize,
    pub height: usize,
}

/// One packed pixel.
#[derive(Clone, Copy, Debug, PartialEq, Eq, Structural)]
pub struct Rgba {
    pub r: u8,
    pub g: u8,
    pub b: u8,
    pub a: u8,
}

/// Red, in thousandths: `1.164 (Y - 16) + 1.596 (Cr - 128)`.
pub open spec fn red_milli(y: int, cr: int) -> int {
    1164 * (y - 16) + 1596 * (cr - 128)
}

/// Green, in thousandths: `1.164 (Y - 16) - 0.391 (Cb - 128) - 0.813 (Cr - 128)`.
pub open spec fn green_milli(y: int, cb: int, cr: int) -> int {
    1164 * (y - 16) - 391 * (cb - 128) - 813 * (cr - 128)
}

/// Blue, in thousandths: `1.164 (Y - 16) + 2.018 (Cb - 128)`.
pub open spec fn blue_milli(y: int, cb: int) -> int {
    1164 * (y - 16) + 2018 * (cb - 128)
}

/// A channel value given in thousandths, cut to the range of a byte and
/// with its fraction dropped.
pub open spec fn clamped(milli: int) -> int {
    if milli <= 0 {
        0
    } else if milli >= 255_000 {
        255
    } else {
        milli / 1000
    }
}

/// The packed pixel of one luma and two chroma samples, fully opaque.
pub open spec fn to_rgba(y: u8, cb: u8, cr: u8) -> Rgba {
    Rgba {
        r: clamped(red_milli(y as int, cr as int)) as u8,
        g: clamped(green_milli(y as int, cb as int, cr as int)) as u8,
        b: clamped(blue_milli(y as int, cb as int)) as u8,
        a: 255,
    }
}

/// Byte `c` of a packed pixel: red, green, blue, alpha.
pub open spec fn channel(p: Rgba, c: int) -> u8 {
    if c == 0 {
        p.r
    } else if c == 1 {
        p.g
    } else if c == 2 {
        p.b
    } else {
        p.a
    }
}

/// Cuts a channel value given in thousandths to a byte.
pub fn clamp(milli: i32) -> (c: u8)
    ensures
        c == clamped(milli as int),
{
    if milli <= 0 {
        return 0;
    }
    if milli >= 255_000 {
        return 255;
    }
    (milli / 1000) as u8
}

/// Converts one pixel.
pub fn ycbcr_to_rgba(y: u8, cb: u8, cr: u8) -> (p: Rgba)
    ensures
        p == to_rgba(y, cb, cr),
{
    let luma: i32 = 1164 * (y as i32 - 16);
    let blue_diff: i32 = cb as i32 - 128;
    let red_diff: i32 = cr as i32 - 128;
    Rgba {
        r: clamp(luma + 1596 * red_diff),
        g: clamp(luma - 391 * blue_diff - 813 * red_diff),
        b: clamp(luma + 2018 * blue_diff),
        a: 255,
    }
}

impl VideoFrameView {
    /// The packed pixel in column `x` of row `y`.
    pub open spec fn pixel(self, x: int, y: int) -> Rgba {
        to_rgba(self.luma(x, y), self.cb(x, y), self.cr(x, y))
    }

    /// The top left `width` by `height` pixels, packed row by row, four
    /// bytes to the pixel.
    pub open spec fn packed(self, width: int, height: int) -> Seq<u8> {
        Seq::new(
            (4 * width * height) as nat,
            |i: int| channel(self.pixel((i / 4) % width, (i / 4) / width), i % 4),
        )
    }
}

/// Where byte `c` of the pixel in column `col` of row `row` lies in a packed
/// buffer of `width` pixels to the row.
proof fn lemma_packed_position(width: int, height: int, row: int, col: int, c: int)
    requires
        0 <= col < width,
        0 <= row < height,
        0 <= c < 4,
    ensures
        ({
            let i = 4 * (row * width + col) + c;
            &&& 0 <= i < 4 * width * height
            &&& i / 4 == row * width + col
            &&& i % 4 == c
            &&& (i / 4) % width == col
            &&& (i / 4) / width == row
        }),
{
    lemma_fundamental_div_mod_converse(row * width + col, width, row, col);
    assert(0 <= row * width && row * width + width <= height * width && 4 * width * height == 4
        * (height * width)) by (nonlinear_arith)
        requires
            0 <= row < height,
            0 < width,
    ;
}

impl VideoFrame {
    /// Packs the top left `width` by `height` pixels of the picture. `None`
    /// where the picture is smaller than that, or the packed pixels would
    /// not fit in memory.
    pub fn to_rgba(&self, width: usize, height: usize) -> (r: Option<Vec<u8>>)
        ensures
            r is Some <==> width <= self@.width && height <= self@.height && 4 * width * height
                <= usize::MAX,
            r matches Some(bytes) ==> bytes@ == self@.packed(width as int, height as int),
    {
        if width > self.width() || height > self.height() {
            return None;
        }
        assert(4 * width * height == 4 * (width * height)) by (nonlinear_arith);
        let total: usize = match width.checked_mul(height) {
            None => {
                return None;
            },
            Some(pixels) => match pixels.checked_mul(4) {
                None => {
                    return None;
                },
                Some(bytes) => bytes,
            },
        };
        let ghost want = self@.packed(width as int, height as int);
        let mut out: Vec<u8> = Vec::with_capacity(total);
        let mut row: usize = 0;
        while row < height
            invariant
                width <= self@.width,
                height <= self@.height,
                row <= height,
                want == self@.packed(width as int, height as int),
                want.len() == 4 * width * height,
                out@.len() == 4 * (row * width),
                forall|i: int| 0 <= i < out@.len() ==> out@[i] == want[i],
            decreases height - row,
        {
            let mut col: usize = 0;
            while col < width
                invariant
                    width <= self@.width,
                    height <= self@.height,
                    row < height,
                    col <= width,
                    want == self@.packed(width as int, height as int),
                    want.len() == 4 * width * height,
                    out@.len() == 4 * (row * width + col),
                    forall|i: int| 0 <= i < out@.len() ==> out@[i] == want[i],
                decreases width - col,
            {
                let (luma, cb, cr) = self.sample(col, row);
                let p = ycbcr_to_rgba(luma, cb, cr);
                proof {
                    lemma_packed_position(width as int, height as int, row as int, col as int, 0);
                    lemma_packed_position(width as int, height as int, row as int, col as int, 1);
                    lemma_packed_position(width as int, height as int, row as int, col as int, 2);
                    lemma_packed_position(width as int, height as int, row as int, col as int, 3);
                }
                out.push(p.r);
                out.push(p.g);
                out.push(p.b);
                out.push(p.a);
                col += 1;
            }
            assert((row + 1) * width == row * width + width) by (nonlinear_arith);
            row += 1;
        }
        assert(4 * (height * width) == 4 * width * height) by (nonlinear_arith);
        assert(out@ =~= want);
        Some(out)
    }
}

/// The quotient of `a` by `b`, rounded toward zero. `b` is not zero.
pub open spec fn trunc_quotient(a: int, b: int) -> int {
    if a >= 0 {
        if b > 0 {
            a / b
        } else {
            -(a / (-b))
        }
    } else {
        if b > 0 {
            -((-a) / b)
        } else {
            (-a) / (-b)
        }
    }
}

/// A timestamp of `pts` ticks in nanoseconds: the ticks times a thousand
/// million times the length of a tick, rounded toward zero.
pub open spec fn nanos_of(pts: int, timebase: Timebase) -> int {
    trunc_quotient(pts * 1_000_000_000 * timebase.num, timebase.den as int)
}

impl TimeInfo {
    /// When the frame is due, in nanoseconds of the stream's clock. `None`
    /// where the timestamp or the timebase is missing, the timebase has no
    /// denominator, or the result is out of range.
    pub open spec fn nanos(self) -> Option<i64> {
        match (self.pts, self.timebase) {
            (Some(pts), Some(timebase)) => if timebase.den != 0 && i64::MIN <= nanos_of(
                pts as int,
                timebase,
            ) <= i64::MAX {
                Some(nanos_of(pts as int, timebase) as i64)
            } else {
                None
            },
            _ => None,
        }
    }

    pub fn to_nanos(&self) -> (r: Option<i64>)
        ensures
            r == self.nanos(),
    {
        let (pts, timebase) = match (self.pts, self.timebase) {
            (Some(pts), Some(timebase)) => (pts, timebase),
            _ => {
                return None;
            },
        };
        if timebase.den == 0 {
            return None;
        }
        let ticks: u128 = magnitude(pts);
        let num: u128 = magnitude(timebase.num);
        let den: u128 = magnitude(timebase.den);
        let scaled: u128 = ticks * 1_000_000_000;
        proof {
            lemma_product(pts as int, timebase.num as int);
        }
        let ghost exact = pts * 1_000_000_000 * timebase.num;
        let ghost size = if exact >= 0 { exact } else { -exact };
        assert(size == scaled * num);
        let product: u128 = match scaled.checked_mul(num) {
            None => {
                proof {
                    lemma_quotient_at_least(size, den as int, 0x1_0000_0000_0000_0000);
                }
                return None;
            },
            Some(product) => product,
        };
        let quotient: u128 = product / den;
        let negative: bool = ((pts < 0) != (timebase.num < 0)) != (timebase.den < 0);
        if product == 0 {
            Some(0)
        } else if negative {
            if quotient <= 0x8000_0000_0000_0000 {
                Some((-(quotient as i128)) as i64)
            } else {
                None
            }
        } else {
            if quotient <= 0x7fff_ffff_ffff_ffff {
                Some(quotient as i64)
            } else {
                None
            }
        }
    }
}

/// How long a renderer sleeps before it looks again when there is nothing
/// to show, in nanoseconds.
pub const POLL_NANOS: u64 = 100_000_000;

/// How long to wait before showing a frame due at `due`, when the frame
/// before it was due at `shown` and was shown `elapsed` nanoseconds ago: what
/// is left of the distance between the two, and nothing where a time is
/// unknown or the distance has already passed.
pub open spec fn wait_before(shown: Option<i64>, due: Option<i64>, elapsed: u64) -> int {
    match (shown, due) {
        (Some(s), Some(d)) => if d - s > elapsed {
            d - s - elapsed
        } else {
            0
        },
        _ => 0,
    }
}

/// A frame never waits longer than its distance to the frame before it, and
/// not at all once that distance has gone by; with no time gone by it waits
/// the whole distance.
pub proof fn lemma_wait_bounds(shown: i64, due: i64, elapsed: u64)
    ensures
        0 <= wait_before(Some(shown), Some(due), elapsed) <= u64::MAX,
        due - shown <= elapsed ==> wait_before(Some(shown), Some(due), elapsed) == 0,
        due - shown > elapsed ==> wait_before(Some(shown), Some(due), elapsed) == due - shown
            - elapsed,
        due >= shown ==> wait_before(Some(shown), Some(due), 0) == due - shown,
{
}

/// Computes `wait_before`.
pub fn pacing_delay(shown: Option<i64>, due: Option<i64>, elapsed: u64) -> (wait: u64)
    ensures
        wait == wait_before(shown, due, elapsed),
{
    match (shown, due) {
        (Some(s), Some(d)) => if d > s {
            let apart: u64 = (d as i128 - s as i128) as u64;
            if apart > elapsed {
                apart - elapsed
            } else {
                0
            }
        } else {
            0
        },
        _ => 0,
    }
}

/// A video output of a fixed picture size.
#[derive(Debug)]
pub struct VideoPlayer {
    width: usize,
    height: usize,
}

/// The state of a running video renderer.
pub struct RendererView {
    pub width: int,
    pub height: int,
    /// When the frame shown last was due, in nanoseconds of the stream's
    /// clock; `None` before the first frame.
    pub shown: Option<i64>,
}

/// A running video renderer: the picture size it publishes and the pacing
/// reference it keeps from frame to frame.
#[derive(Debug)]
pub struct VideoRenderer {
    width: usize,
    height: usize,
    shown: Option<i64>,
}

/// What the render loop does next.
#[derive(Debug)]
pub enum RenderStep {
    /// Leave the loop.
    Exit,
    /// Sleep for `POLL_NANOS`, then look again.
    Idle,
    /// Sleep for `wait` nanoseconds, then publish `frame`.
    Show { wait: u64, frame: VideoFrame },
}

impl VideoPlayer {
    pub closed spec fn view(&self) -> VideoInfo {
        VideoInfo { width: self.width, height: self.height }
    }

    pub fn new(info: &VideoInfo) -> (p: Self)
        ensures
            p@ == *info,
    {
        VideoPlayer { width: info.width, height: info.height }
    }

    /// Starts a renderer that has shown nothing yet.
    pub fn create_stream(self) -> (r: VideoRenderer)
        ensures
            r@ == (RendererView {
                width: self@.width as int,
                height: self@.height as int,
                shown: None,
            }),
    {
        VideoRenderer { width: self.width, height: self.height, shown: None }
    }
}

impl View for VideoRenderer {
    type V = RendererView;

    closed spec fn view(&self) -> RendererView {
        RendererView { width: self.width as int, height: self.height as int, shown: self.shown }
    }
}

impl VideoRenderer {
    /// Decides one iteration of the render loop from the session's state,
    /// the video queue, and the nanoseconds gone by since the last frame was
    /// shown. Only a playing session takes a frame off the queue; a held one
    /// leaves every frame where it is. The first frame is shown at once;
    /// each later one waits out what is left of its distance to the frame
    /// before it.
    pub fn step(
        &mut self,
        state: PlayerState,
        queue: &mut FrameQueue<VideoFrame>,
        elapsed: u64,
    ) -> (next: RenderStep)
        requires
            old(queue)@.wf(),
        ensures
            final(queue)@.wf(),
            final(self)@.width == old(self)@.width,
            final(self)@.height == old(self)@.height,
            state.terminal() ==> next is Exit,
            !state.terminal() && !(state is Playing && old(queue)@.frames.len() > 0) ==> next
                is Idle,
            !(next is Show) ==> final(self)@ == old(self)@ && final(queue)@ == old(queue)@,
            state is Playing && old(queue)@.frames.len() > 0 ==> {
                let first = old(queue)@.frames[0];
                &&& next == (RenderStep::Show {
                    wait: wait_before(old(self)@.shown, first@.time.nanos(), elapsed) as u64,
                    frame: first,
                })
                &&& final(queue)@ == old(queue)@.take()
                &&& final(self)@.shown == first@.time.nanos()
            },
    {
        match state {
            PlayerState::Terminating | PlayerState::Terminated => RenderStep::Exit,
            PlayerState::Stopped | PlayerState::Paused => RenderStep::Idle,
            PlayerState::Playing => match queue.pop() {
                None => RenderStep::Idle,
                Some(frame) => {
                    let due: Option<i64> = frame.time().to_nanos();
                    let wait: u64 = pacing_delay(self.shown, due, elapsed);
                    self.shown = due;
                    RenderStep::Show { wait, frame }
                },
            },
        }
    }

    /// The packed pixels to publish for `frame`: always four bytes for each
    /// pixel of the renderer's picture size. `None` where the frame is
    /// smaller than that size, or the pixels would not fit in memory.
    pub fn render(&self, frame: &VideoFrame) -> (r: Option<Vec<u8>>)
        ensures
            r is Some <==> self@.width <= frame@.width && self@.height <= frame@.height && 4
                * self@.width * self@.height <= usize::MAX,
            r matches Some(bytes) ==> bytes@ == frame@.packed(self@.width, self@.height)
                && bytes@.len() == self@.width * self@.height * 4,
    {
        let r = frame.to_rgba(self.width, self.height);
        assert(4 * self.width * self.height == self.width * self.height * 4) by (nonlinear_arith);
        r
    }
}

/// The size of `x` without its sign.
fn magnitude(x: i64) -> (m: u128)
    ensures
        m == (if x >= 0 { x as int } else { -(x as int) }),
        m <= 0x8000_0000_0000_0000,
{
    if x >= 0 {
        x as u128
    } else {
        (-(x as i128)) as u128
    }
}

/// The size and the sign of a scaled product follow from those of its
/// factors.
proof fn lemma_product(p: int, n: int)
    ensures
        ({
            let exact = p * 1_000_000_000 * n;
            let sp = if p >= 0 { p } else { -p };
            let sn = if n >= 0 { n } else { -n };
            &&& (if exact >= 0 { exact } else { -exact }) == (sp * 1_000_000_000) * sn
            &&& (exact > 0 <==> (p > 0 && n > 0) || (p < 0 && n < 0))
            &&& (exact < 0 <==> (p > 0 && n < 0) || (p < 0 && n > 0))
        }),
{
    assert(p * 1_000_000_000 * n == 1_000_000_000 * (p * n)) by (nonlinear_arith);
    assert((-p) * n == -(p * n) && p * (-n) == -(p * n) && (-p) * (-n) == p * n)
        by (nonlinear_arith);
    assert((-p) * 1_000_000_000 * n == 1_000_000_000 * ((-p) * n)) by (nonlinear_arith);
    assert(p * 1_000_000_000 * (-n) == 1_000_000_000 * (p * (-n))) by (nonlinear_arith);
    assert((-p) * 1_000_000_000 * (-n) == 1_000_000_000 * ((-p) * (-n))) by (nonlinear_arith);
    assert((p > 0 && n > 0) || (p < 0 && n < 0) ==> p * n > 0) by (nonlinear_arith);
    assert((p > 0 && n < 0) || (p < 0 && n > 0) ==> p * n < 0) by (nonlinear_arith);
    assert(p == 0 || n == 0 ==> p * n == 0) by (nonlinear_arith);
}

/// A dividend of at least `q * d` has a quotient of at least `q`.
proof fn lemma_quotient_at_least(a: int, d: int, q: int)
    requires
        0 < d,
        d * q <= a,
    ensures
        q <= a / d,
{
    vstd::arithmetic::div_mod::lemma_div_is_ordered(d * q, a, d);
    vstd::arithmetic::div_mod::lemma_div_multiples_vanish(q, d);
}

} // verus!
