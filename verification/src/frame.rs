//! Decoded frames as the pipeline carries them.

use vstd::prelude::*;

verus! {

/// The length of one tick of a stream's clock, in seconds: `num / den`.
#[derive(Clone, Copy, Debug, PartialEq, Eq, Structural)]
pub struct Timebase {
    pub num: i64,
    pub den: i64,
}

/// When a frame is due, where the decoder knows.
#[derive(Clone, Copy, Debug, PartialEq, Eq, Structural)]
pub struct TimeInfo {
    /// The presentation timestamp, in ticks.
    pub pts: Option<i64>,
    pub timebase: Option<Timebase>,
}

/// The two kinds of media that the pipeline plays.
#[derive(Clone, Copy, Debug, PartialEq, Eq, Structural)]
pub enum MediaKind {
    Audio,
    Video,
}

/// Whether a plane of `len` bytes, with rows `stride` bytes apart, holds
/// `rows` rows of `cols` samples each.
pub open spec fn plane_holds(len: int, stride: int, cols: int, rows: int) -> bool {
    rows > 0 && cols > 0 ==> (rows - 1) * stride + cols <= len
}

/// The samples along one axis of a chroma plane, for a picture of `n`
/// samples along that axis: half of them, rounded up.
pub open spec fn chroma_extent(n: int) -> int {
    (n + 1) / 2
}

/// Decides `plane_holds` without overflow.
pub fn plane_fits(len: usize, stride: usize, cols: usize, rows: usize) -> (b: bool)
    ensures
        b == plane_holds(len as int, stride as int, cols as int, rows as int),
{
    if rows == 0 || cols == 0 {
        return true;
    }
    match (rows - 1).checked_mul(stride) {
        None => false,
        Some(above) => match above.checked_add(cols) {
            None => false,
            Some(need) => need <= len,
        },
    }
}

/// A block of interleaved signed 16-bit samples.
#[derive(Debug)]
pub struct AudioFrame {
    data: Vec<i16>,
    channels: usize,
    rate: usize,
    /// How many samples of `data` belong to the frame, over all channels.
    len: usize,
    time: TimeInfo,
}

/// An audio frame as the pipeline sees it.
pub struct AudioFrameView {
    /// The samples to play, channel by channel within each instant.
    pub interleaved: Seq<i16>,
    pub channels: nat,
    pub rate: nat,
    pub time: TimeInfo,
}

impl View for AudioFrame {
    type V = AudioFrameView;

    closed spec fn view(&self) -> AudioFrameView {
        AudioFrameView {
            interleaved: self.data@.take(self.len as int),
            channels: self.channels as nat,
            rate: self.rate as nat,
            time: self.time,
        }
    }
}

impl AudioFrame {
    /// The buffer covers what the frame claims to hold.
    #[verifier::type_invariant]
    spec fn covered(self) -> bool {
        self.len <= self.data@.len()
    }

    /// A frame of `samples` instants of `channels` samples each, read from
    /// the front of `data`. `None` where `data` is too short for that.
    pub fn new(data: Vec<i16>, channels: usize, rate: usize, samples: usize, time: TimeInfo) -> (r:
        Option<AudioFrame>)
        ensures
            r is Some <==> samples * channels <= data@.len(),
            r matches Some(f) ==> f@ == (AudioFrameView {
                interleaved: data@.take(samples * channels),
                channels: channels as nat,
                rate: rate as nat,
                time,
            }),
    {
        let held: usize = data.len();
        match samples.checked_mul(channels) {
            None => None,
            Some(len) => if len <= held {
                Some(AudioFrame { data, channels, rate, len, time })
            } else {
                None
            },
        }
    }

    /// The number of samples to play, over all channels.
    pub fn len(&self) -> (n: usize)
        ensures
            n == self@.interleaved.len(),
    {
        proof {
            use_type_invariant(self);
        }
        self.len
    }

    pub fn channels(&self) -> (n: usize)
        ensures
            n == self@.channels,
    {
        self.channels
    }

    /// Samples per second and channel.
    pub fn rate(&self) -> (n: usize)
        ensures
            n == self@.rate,
    {
        self.rate
    }

    pub fn time(&self) -> (t: TimeInfo)
        ensures
            t == self@.time,
    {
        self.time
    }

    /// The sample at `index` of the interleaved stream.
    pub fn sample(&self, index: usize) -> (s: i16)
        requires
            index < self@.interleaved.len(),
        ensures
            s == self@.interleaved[index as int],
    {
        proof {
            use_type_invariant(self);
        }
        self.data[index]
    }
}

/// A planar picture with half-resolution chroma: one luma plane of
/// `width` by `height` samples and two chroma planes of half that size along
/// each axis, rounded up. Each plane has its own distance between rows.
#[derive(Debug)]
pub struct VideoFrame {
    width: usize,
    height: usize,
    y: Vec<u8>,
    u: Vec<u8>,
    v: Vec<u8>,
    y_stride: usize,
    u_stride: usize,
    v_stride: usize,
    time: TimeInfo,
}

/// A picture as the pipeline sees it.
pub struct VideoFrameView {
    pub width: int,
    pub height: int,
    pub y: Seq<u8>,
    pub u: Seq<u8>,
    pub v: Seq<u8>,
    pub y_stride: int,
    pub u_stride: int,
    pub v_stride: int,
    pub time: TimeInfo,
}

impl VideoFrameView {
    /// Every plane covers the picture.
    pub open spec fn wf(self) -> bool {
        &&& 0 <= self.width
        &&& 0 <= self.height
        &&& 0 <= self.y_stride
        &&& 0 <= self.u_stride
        &&& 0 <= self.v_stride
        &&& plane_holds(self.y.len() as int, self.y_stride, self.width, self.height)
        &&& plane_holds(
            self.u.len() as int,
            self.u_stride,
            chroma_extent(self.width),
            chroma_extent(self.height),
        )
        &&& plane_holds(
            self.v.len() as int,
            self.v_stride,
            chroma_extent(self.width),
            chroma_extent(self.height),
        )
    }

    /// The luma sample of the pixel in column `x` of row `y`.
    pub open spec fn luma(self, x: int, y: int) -> u8 {
        self.y[y * self.y_stride + x]
    }

    /// The blue-difference sample shared by the pixel in column `x` of row
    /// `y`.
    pub open spec fn cb(self, x: int, y: int) -> u8 {
        self.u[(y / 2) * self.u_stride + x / 2]
    }

    /// The red-difference sample shared by the pixel in column `x` of row
    /// `y`.
    pub open spec fn cr(self, x: int, y: int) -> u8 {
        self.v[(y / 2) * self.v_stride + x / 2]
    }
}

impl View for VideoFrame {
    type V = VideoFrameView;

    closed spec fn view(&self) -> VideoFrameView {
        VideoFrameView {
            width: self.width as int,
            height: self.height as int,
            y: self.y@,
            u: self.u@,
            v: self.v@,
            y_stride: self.y_stride as int,
            u_stride: self.u_stride as int,
            v_stride: self.v_stride as int,
            time: self.time,
        }
    }
}

/// The three planes of a picture, each with the distance between its rows.
#[derive(Debug)]
pub struct Planes {
    pub y: Vec<u8>,
    pub y_stride: usize,
    pub u: Vec<u8>,
    pub u_stride: usize,
    pub v: Vec<u8>,
    pub v_stride: usize,
}

impl VideoFrame {
    /// Every plane covers the picture.
    #[verifier::type_invariant]
    spec fn covered(self) -> bool {
        self@.wf()
    }

    /// A picture of `width` by `height` pixels over `planes`. `None` where a
    /// plane is too short for the picture.
    pub fn new(width: usize, height: usize, planes: Planes, time: TimeInfo) -> (r: Option<
        VideoFrame,
    >)
        ensures
            r is Some <==> (VideoFrameView {
                width: width as int,
                height: height as int,
                y: planes.y@,
                u: planes.u@,
                v: planes.v@,
                y_stride: planes.y_stride as int,
                u_stride: planes.u_stride as int,
                v_stride: planes.v_stride as int,
                time,
            }).wf(),
            r matches Some(f) ==> f@.wf() && f@ == (VideoFrameView {
                width: width as int,
                height: height as int,
                y: planes.y@,
                u: planes.u@,
                v: planes.v@,
                y_stride: planes.y_stride as int,
                u_stride: planes.u_stride as int,
                v_stride: planes.v_stride as int,
                time,
            }),
    {
        let cw: usize = width / 2 + width % 2;
        let ch: usize = height / 2 + height % 2;
        if plane_fits(planes.y.len(), planes.y_stride, width, height) && plane_fits(
            planes.u.len(),
            planes.u_stride,
            cw,
            ch,
        ) && plane_fits(planes.v.len(), planes.v_stride, cw, ch) {
            Some(
                VideoFrame {
                    width,
                    height,
                    y: planes.y,
                    u: planes.u,
                    v: planes.v,
                    y_stride: planes.y_stride,
                    u_stride: planes.u_stride,
                    v_stride: planes.v_stride,
                    time,
                },
            )
        } else {
            None
        }
    }

    pub fn width(&self) -> (w: usize)
        ensures
            w == self@.width,
    {
        self.width
    }

    pub fn height(&self) -> (h: usize)
        ensures
            h == self@.height,
    {
        self.height
    }

    pub fn time(&self) -> (t: TimeInfo)
        ensures
            t == self@.time,
    {
        self.time
    }

    /// The luma and the two chroma samples of the pixel in column `x` of row
    /// `y`.
    pub fn sample(&self, x: usize, y: usize) -> (s: (u8, u8, u8))
        requires
            x < self@.width,
            y < self@.height,
        ensures
            s.0 == self@.luma(x as int, y as int),
            s.1 == self@.cb(x as int, y as int),
            s.2 == self@.cr(x as int, y as int),
    {
        proof {
            use_type_invariant(self);
            lemma_in_plane(
                self.y@.len() as int,
                self.y_stride as int,
                self.width as int,
                self.height as int,
                x as int,
                y as int,
            );
            lemma_in_plane(
                self.u@.len() as int,
                self.u_stride as int,
                chroma_extent(self.width as int),
                chroma_extent(self.height as int),
                x as int / 2,
                y as int / 2,
            );
            lemma_in_plane(
                self.v@.len() as int,
                self.v_stride as int,
                chroma_extent(self.width as int),
                chroma_extent(self.height as int),
                x as int / 2,
                y as int / 2,
            );
        }
        // The lengths bound the offsets computed below.
        let _lens: (usize, usize, usize) = (self.y.len(), self.u.len(), self.v.len());
        let luma: u8 = self.y[y * self.y_stride + x];
        let cb: u8 = self.u[(y / 2) * self.u_stride + x / 2];
        let cr: u8 = self.v[(y / 2) * self.v_stride + x / 2];
        (luma, cb, cr)
    }
}

/// A sample inside the picture lies inside the plane that holds the picture.
pub proof fn lemma_in_plane(len: int, stride: int, cols: int, rows: int, x: int, y: int)
    requires
        plane_holds(len, stride, cols, rows),
        0 <= stride,
        0 <= x < cols,
        0 <= y < rows,
    ensures
        0 <= y * stride,
        0 <= y * stride + x < len,
{
    assert(0 <= y * stride && y * stride <= (rows - 1) * stride) by (nonlinear_arith)
        requires
            0 <= y <= rows - 1,
            0 <= stride,
    ;
}

/// One frame as it leaves a decoder.
#[derive(Debug)]
pub enum DecodedFrame {
    Audio(AudioFrame),
    Video(VideoFrame),
}

impl DecodedFrame {
    pub open spec fn kind_of(&self) -> MediaKind {
        match self {
            DecodedFrame::Audio(_) => MediaKind::Audio,
            DecodedFrame::Video(_) => MediaKind::Video,
        }
    }

    /// The kind of media that the frame carries.
    pub fn kind(&self) -> (k: MediaKind)
        ensures
            k == self.kind_of(),
    {
        match self {
            DecodedFrame::Audio(_) => MediaKind::Audio,
            DecodedFrame::Video(_) => MediaKind::Video,
        }
    }
}

} // verus!
