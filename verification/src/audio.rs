//! The audio side: negotiating an output format with the device, and filling
//! the device's buffers from queued frames.

use vstd::prelude::*;
use vstd::string::StringExecFns;
use crate::frame::AudioFrame;
use crate::queue::FrameQueue;
use crate::text::{decimal, push_decimal};

verus! {

/// How one sample is stored.
#[derive(Clone, Copy, Debug, PartialEq, Eq, Structural)]
pub enum SampleFormat {
    I16,
    U16,
    F32,
    /// Any other way that a device may offer.
    Other,
}

/// One concrete output format: what a stream is opened with.
#[derive(Clone, Copy, Debug, PartialEq, Eq, Structural)]
pub struct Format {
    pub channels: usize,
    pub sample_rate: usize,
    pub data_type: SampleFormat,
}

/// A family of formats that a device offers: one channel count, one sample
/// type, and every rate of a closed range.
#[derive(Clone, Copy, Debug, PartialEq, Eq, Structural)]
pub struct SupportedFormat {
    pub channels: u16,
    pub min_sample_rate: u32,
    pub max_sample_rate: u32,
    pub data_type: SampleFormat,
}

/// What a container says of an audio stream.
#[derive(Clone, Copy, Debug, PartialEq, Eq, Structural)]
pub struct AudioInfo {
    /// Samples per second and channel.
    pub rate: usize,
    /// Channels of the stream's channel map, where it has one.
    pub channels: Option<usize>,
}

/// Why audio output could not be set up or driven.
#[derive(Debug)]
pub enum AudioError {
    NoOutputDevice,
    /// The device would not list its formats; the device's own words.
    SupportedFormats(String),
    /// No offered format matches the stream exactly.
    FormatNotSupported(Format),
    /// The device would not open a stream; the device's own words.
    BuildStream(String),
    /// The device would not start; the device's own words.
    PlayStream(String),
    /// The device would not stop; the device's own words.
    PauseStream(String),
}

impl SampleFormat {
    /// The name of the sample type.
    pub open spec fn name(self) -> Seq<char> {
        match self {
            SampleFormat::I16 => "I16"@,
            SampleFormat::U16 => "U16"@,
            SampleFormat::F32 => "F32"@,
            SampleFormat::Other => "Other"@,
        }
    }
}

impl Format {
    /// The format written out field by field.
    pub open spec fn described(self) -> Seq<char> {
        "Format { channels: "@ + decimal(self.channels as nat) + ", sample_rate: "@ + decimal(
            self.sample_rate as nat,
        ) + ", data_type: "@ + self.data_type.name() + " }"@
    }

    /// Writes the format out at the end of `text`.
    pub fn describe(&self, text: &mut String)
        ensures
            final(text)@ == old(text)@ + self.described(),
    {
        text.append("Format { channels: ");
        push_decimal(text, self.channels as u64);
        text.append(", sample_rate: ");
        push_decimal(text, self.sample_rate as u64);
        text.append(", data_type: ");
        text.append(
            match self.data_type {
                SampleFormat::I16 => "I16",
                SampleFormat::U16 => "U16",
                SampleFormat::F32 => "F32",
                SampleFormat::Other => "Other",
            },
        );
        text.append(" }");
        assert(text@ =~= old(text)@ + self.described());
    }

    /// The format a stream has to be played in: its own rate and channel
    /// count (none without a channel map), as signed 16-bit samples.
    pub open spec fn of_stream(audio: AudioInfo) -> Format {
        Format {
            channels: match audio.channels {
                Some(n) => n,
                None => 0,
            },
            sample_rate: audio.rate,
            data_type: SampleFormat::I16,
        }
    }
}

impl AudioError {
    /// The error in words.
    pub open spec fn text(self) -> Seq<char> {
        match self {
            AudioError::NoOutputDevice => "no output device available"@,
            AudioError::SupportedFormats(words) => words@,
            AudioError::FormatNotSupported(format) => "format "@ + format.described()
                + " not supported"@,
            AudioError::BuildStream(words) => words@,
            AudioError::PlayStream(words) => words@,
            AudioError::PauseStream(words) => words@,
        }
    }

    /// The error in words, for whoever reads logs.
    pub fn message(&self) -> (m: String)
        ensures
            m@ == self.text(),
    {
        match self {
            AudioError::NoOutputDevice => "no output device available".to_owned(),
            AudioError::SupportedFormats(words) => words.clone(),
            AudioError::FormatNotSupported(format) => {
                let mut m: String = "format ".to_owned();
                format.describe(&mut m);
                m.append(" not supported");
                assert(m@ =~= self.text());
                m
            },
            AudioError::BuildStream(words) => words.clone(),
            AudioError::PlayStream(words) => words.clone(),
            AudioError::PauseStream(words) => words.clone(),
        }
    }
}

impl SupportedFormat {
    /// Whether `format` is one of the formats of this family.
    pub open spec fn admits(self, format: Format) -> bool {
        &&& self.min_sample_rate <= format.sample_rate
        &&& self.max_sample_rate >= format.sample_rate
        &&& self.channels == format.channels
        &&& self.data_type == format.data_type
    }

    pub fn supports(&self, format: &Format) -> (b: bool)
        ensures
            b == self.admits(*format),
    {
        self.min_sample_rate as usize <= format.sample_rate
            && self.max_sample_rate as usize >= format.sample_rate
            && self.channels as usize == format.channels
            && self.data_type == format.data_type
    }
}

/// Whether some family of `offered` holds `format`.
pub open spec fn offers(offered: Seq<SupportedFormat>, format: Format) -> bool {
    exists|i: int| 0 <= i < offered.len() && (#[trigger] offered[i]).admits(format)
}

/// An output device that has agreed to a stream's format.
#[derive(Debug)]
pub struct AudioPlayer {
    format: Format,
}

impl AudioPlayer {
    /// The format that was agreed on.
    pub closed spec fn view(&self) -> Format {
        self.format
    }

    /// Settles the output format for `audio` against what the device offers.
    /// There is no fallback: the stream's exact rate and channel count must
    /// be on offer as signed 16-bit samples.
    pub fn new(audio: &AudioInfo, offered: &Vec<SupportedFormat>) -> (r: Result<
        AudioPlayer,
        AudioError,
    >)
        ensures
            r is Ok <==> offers(offered@, Format::of_stream(*audio)),
            r matches Ok(p) ==> p@ == Format::of_stream(*audio),
            r matches Err(e) ==> e == AudioError::FormatNotSupported(Format::of_stream(*audio)),
    {
        let format = Format {
            channels: match audio.channels {
                Some(n) => n,
                None => 0,
            },
            sample_rate: audio.rate,
            data_type: SampleFormat::I16,
        };
        let mut i: usize = 0;
        while i < offered.len()
            invariant
                i <= offered.len(),
                format == Format::of_stream(*audio),
                forall|j: int| 0 <= j < i ==> !(#[trigger] offered@[j]).admits(format),
            decreases offered.len() - i,
        {
            if offered[i].supports(&format) {
                return Ok(AudioPlayer { format });
            }
            i += 1;
        }
        Err(AudioError::FormatNotSupported(format))
    }

    pub fn format(&self) -> (f: Format)
        ensures
            f == self@,
    {
        self.format
    }

    /// The state that the device's fill callback starts from: no frame in
    /// progress.
    pub fn create_stream(&self) -> (c: PartialFrameCursor)
        ensures
            c.wf(),
            c@ == Seq::<i16>::empty(),
    {
        PartialFrameCursor { frame: None, offset: 0 }
    }
}

/// The samples of `frames`, one frame after the other.
pub open spec fn samples_of(frames: Seq<AudioFrame>) -> Seq<i16>
    decreases frames.len(),
{
    if frames.len() == 0 {
        Seq::empty()
    } else {
        frames[0]@.interleaved + samples_of(frames.skip(1))
    }
}

/// How many samples one buffer of `room` samples takes from a backlog of
/// `have`: all it can hold, or all there are.
pub open spec fn taken(have: nat, room: nat) -> nat {
    if have < room {
        have
    } else {
        room
    }
}

/// What a run of fills plays from `backlog`, where the device asks for
/// buffers of `sizes` one after the other: the samples of every buffer
/// without its silence, in the order of the buffers.
pub open spec fn played(backlog: Seq<i16>, sizes: Seq<nat>) -> Seq<i16>
    decreases sizes.len(),
{
    if sizes.len() == 0 {
        Seq::empty()
    } else {
        let n = taken(backlog.len(), sizes[0]) as int;
        backlog.take(n) + played(backlog.skip(n), sizes.skip(1))
    }
}

/// The sum of `sizes`.
pub open spec fn total(sizes: Seq<nat>) -> nat
    decreases sizes.len(),
{
    if sizes.len() == 0 {
        0
    } else {
        sizes[0] + total(sizes.skip(1))
    }
}

/// Whether `out` is `raw` with `gain` applied to every sample.
pub open spec fn gained<F: Fn(i16) -> i16>(gain: F, raw: Seq<i16>, out: Seq<i16>) -> bool {
    &&& raw.len() == out.len()
    &&& forall|i: int| 0 <= i < raw.len() ==> gain.ensures((raw[i],), #[trigger] out[i])
}

/// Queueing a frame puts its samples behind every sample queued before.
pub proof fn lemma_queued_last(frames: Seq<AudioFrame>, frame: AudioFrame)
    ensures
        samples_of(frames.push(frame)) == samples_of(frames) + frame@.interleaved,
    decreases frames.len(),
{
    if frames.len() == 0 {
        assert(frames.push(frame).skip(1) =~= Seq::<AudioFrame>::empty());
        assert(samples_of(Seq::<AudioFrame>::empty()) =~= Seq::<i16>::empty());
        assert(samples_of(frames) =~= Seq::<i16>::empty());
        assert(samples_of(frames.push(frame)) =~= frame@.interleaved);
        assert(samples_of(frames) + frame@.interleaved =~= frame@.interleaved);
    } else {
        assert(frames.push(frame).skip(1) =~= frames.skip(1).push(frame));
        lemma_queued_last(frames.skip(1), frame);
        assert(frames[0]@.interleaved + (samples_of(frames.skip(1)) + frame@.interleaved)
            =~= (frames[0]@.interleaved + samples_of(frames.skip(1))) + frame@.interleaved);
    }
}

/// However the device sizes its buffers, a run of fills plays the front of
/// the backlog, as much of it as the buffers hold together: every sample
/// once, none left out, in the order in which they were queued.
pub proof fn lemma_played_once(backlog: Seq<i16>, sizes: Seq<nat>)
    ensures
        played(backlog, sizes) == backlog.take(taken(backlog.len(), total(sizes)) as int),
    decreases sizes.len(),
{
    if sizes.len() == 0 {
        assert(backlog.take(0) =~= Seq::<i16>::empty());
    } else {
        let n = taken(backlog.len(), sizes[0]) as int;
        let rest = backlog.skip(n);
        lemma_played_once(rest, sizes.skip(1));
        let m = taken(rest.len(), total(sizes.skip(1))) as int;
        assert(n + m == taken(backlog.len(), total(sizes)));
        assert(backlog.take(n) + rest.take(m) =~= backlog.take(n + m));
    }
}

/// The sizes of a run of buffers.
pub open spec fn sizes_of(outs: Seq<Seq<i16>>) -> Seq<nat> {
    Seq::new(outs.len(), |i: int| outs[i].len())
}

/// Whether `outs` are buffers as a run of fills leaves them, one fill to
/// the buffer, where the first fill finds `backlog` and nothing is queued
/// meanwhile: each buffer holds, with `gain` applied, as much of the front
/// of what was left as it has room for, and silence behind that.
pub open spec fn filled<F: Fn(i16) -> i16>(gain: F, backlog: Seq<i16>, outs: Seq<Seq<i16>>) -> bool
    decreases outs.len(),
{
    outs.len() == 0 || {
        let n = taken(backlog.len(), outs[0].len()) as int;
        &&& gained(gain, backlog.take(n), outs[0].take(n))
        &&& forall|i: int| n <= i < outs[0].len() ==> (#[trigger] outs[0][i]) == 0
        &&& filled(gain, backlog.skip(n), outs.skip(1))
    }
}

/// What is heard of a run of buffers filled from a backlog of `have`
/// samples: each buffer up to where its silence begins, one after the
/// other.
pub open spec fn heard(have: nat, outs: Seq<Seq<i16>>) -> Seq<i16>
    decreases outs.len(),
{
    if outs.len() == 0 {
        Seq::empty()
    } else {
        let n = taken(have, outs[0].len());
        outs[0].take(n as int) + heard((have - n) as nat, outs.skip(1))
    }
}

/// Whatever the sizes of the buffers, what is heard of a run of fills is the
/// front of the backlog with the gain applied, as much of it as the buffers
/// hold together: every queued sample once, in its place, none doubled and
/// none left out.
pub proof fn lemma_heard_once<F: Fn(i16) -> i16>(gain: F, backlog: Seq<i16>, outs: Seq<Seq<i16>>)
    requires
        filled(gain, backlog, outs),
    ensures
        gained(
            gain,
            backlog.take(taken(backlog.len(), total(sizes_of(outs))) as int),
            heard(backlog.len(), outs),
        ),
    decreases outs.len(),
{
    lemma_played_once(backlog, sizes_of(outs));
    if outs.len() == 0 {
        assert(backlog.take(0) =~= Seq::<i16>::empty());
    } else {
        let n = taken(backlog.len(), outs[0].len()) as int;
        let rest = backlog.skip(n);
        assert(sizes_of(outs).skip(1) =~= sizes_of(outs.skip(1)));
        lemma_heard_once(gain, rest, outs.skip(1));
        lemma_played_once(rest, sizes_of(outs.skip(1)));
        let m = taken(rest.len(), total(sizes_of(outs.skip(1)))) as int;
        lemma_gained_in_turn(
            gain,
            backlog.take(n),
            outs[0].take(n),
            rest.take(m),
            heard(rest.len(), outs.skip(1)),
        );
        assert(backlog.take(n) + rest.take(m) =~= backlog.take(n + m));
        assert(n + m == taken(backlog.len(), total(sizes_of(outs))));
    }
}

/// Gain is applied sample by sample: what holds of two runs of samples
/// holds of the two played one after the other.
pub proof fn lemma_gained_in_turn<F: Fn(i16) -> i16>(
    gain: F,
    raw1: Seq<i16>,
    out1: Seq<i16>,
    raw2: Seq<i16>,
    out2: Seq<i16>,
)
    requires
        gained(gain, raw1, out1),
        gained(gain, raw2, out2),
    ensures
        gained(gain, raw1 + raw2, out1 + out2),
{
    assert forall|i: int| 0 <= i < (raw1 + raw2).len() implies gain.ensures(
        ((raw1 + raw2)[i],),
        #[trigger] (out1 + out2)[i],
    ) by {
        if i < raw1.len() {
            assert((out1 + out2)[i] == out1[i]);
        } else {
            assert((out1 + out2)[i] == out2[i - raw1.len()]);
        }
    }
}

/// The frame that the fill callback is part way through, if any. One
/// decoded frame may span several callbacks, and one callback several
/// frames.
#[derive(Debug)]
pub struct PartialFrameCursor {
    frame: Option<AudioFrame>,
    offset: usize,
}

impl View for PartialFrameCursor {
    type V = Seq<i16>;

    /// The samples of the frame in progress that are still to be played.
    closed spec fn view(&self) -> Seq<i16> {
        match self.frame {
            Some(f) => f@.interleaved.skip(self.offset as int),
            None => Seq::empty(),
        }
    }
}

impl PartialFrameCursor {
    /// The offset lies inside the frame in progress.
    pub closed spec fn wf(&self) -> bool {
        match self.frame {
            Some(f) => self.offset <= f@.interleaved.len(),
            None => self.offset == 0,
        }
    }

    /// Fills one device buffer. Samples come from the frame in progress,
    /// then from the frames of `queue` in their order, each passed through
    /// `gain`. Where the queue runs dry the rest of the buffer is silence:
    /// the call never waits. Returns how many samples were played; what was
    /// not played stays in its order for the next call.
    pub fn fill<F: Fn(i16) -> i16>(
        &mut self,
        queue: &mut FrameQueue<AudioFrame>,
        out: &mut [i16],
        gain: F,
    ) -> (written: usize)
        requires
            old(self).wf(),
            old(queue)@.wf(),
            forall|s: i16| gain.requires((s,)),
        ensures
            final(self).wf(),
            final(queue)@.wf(),
            final(queue)@.capacity == old(queue)@.capacity,
            final(out)@.len() == old(out)@.len(),
            final(queue)@.frames.len() <= old(queue)@.frames.len(),
            final(queue)@.frames == old(queue)@.frames.skip(
                old(queue)@.frames.len() - final(queue)@.frames.len(),
            ),
            ({
                let backlog = old(self)@ + samples_of(old(queue)@.frames);
                &&& written == taken(backlog.len(), old(out)@.len())
                &&& gained(gain, backlog.take(written as int), final(out)@.take(written as int))
                &&& forall|i: int| written <= i < final(out)@.len() ==> final(out)@[i] == 0
                &&& final(self)@ + samples_of(final(queue)@.frames) == backlog.skip(written as int)
            }),
    {
        let ghost backlog = self@ + samples_of(queue@.frames);
        let n: usize = out.len();
        let mut at: usize = 0;
        let mut dry: bool = false;
        while at < n && !dry
            invariant
                at <= n,
                n == out@.len(),
                out@.len() == old(out)@.len(),
                self.wf(),
                queue@.wf(),
                queue@.capacity == old(queue)@.capacity,
                queue@.frames.len() <= old(queue)@.frames.len(),
                queue@.frames == old(queue)@.frames.skip(
                    old(queue)@.frames.len() - queue@.frames.len(),
                ),
                forall|s: i16| gain.requires((s,)),
                at <= backlog.len(),
                self@ + samples_of(queue@.frames) == backlog.skip(at as int),
                forall|i: int| 0 <= i < at ==> gain.ensures((backlog[i],), #[trigger] out@[i]),
                dry ==> at == backlog.len(),
            decreases
                    (n - at) + queue@.frames.len() + (if self.frame is Some {
                        1int
                    } else {
                        0
                    }) + (if dry {
                        0int
                    } else {
                        1
                    }),
        {
            let ghost left = self@ + samples_of(queue@.frames);
            let current: Option<AudioFrame> = match self.frame.take() {
                Some(f) => Some(f),
                None => {
                    self.offset = 0;
                    queue.pop()
                },
            };
            match current {
                None => {
                    dry = true;
                    assert(left =~= Seq::<i16>::empty());
                    assert(backlog.skip(at as int).len() == 0);
                },
                Some(f) => {
                    let ghost rest = samples_of(queue@.frames);
                    let start: usize = self.offset;
                    assert(left =~= f@.interleaved.skip(start as int) + rest);
                    let held: usize = f.len() - start;
                    let room: usize = n - at;
                    let len: usize = if room < held { room } else { held };
                    assert(backlog.skip(at as int).len() >= held);
                    let mut k: usize = 0;
                    while k < len
                        invariant
                            k <= len,
                            len <= held,
                            len <= n - at,
                            held == f@.interleaved.len() - start,
                            start <= f@.interleaved.len() <= usize::MAX,
                            at + held <= backlog.len(),
                            n == out@.len(),
                            out@.len() == old(out)@.len(),
                            at <= backlog.len(),
                            f@.interleaved.skip(start as int) + rest == backlog.skip(at as int),
                            forall|s: i16| gain.requires((s,)),
                            forall|i: int|
                                0 <= i < at + k ==> gain.ensures((backlog[i],), #[trigger] out@[i]),
                        decreases len - k,
                    {
                        let raw: i16 = f.sample(start + k);
                        assert(raw == (f@.interleaved.skip(start as int) + rest)[k as int]);
                        assert(raw == backlog[at + k]);
                        let played: i16 = gain(raw);
                        out[at + k] = played;
                        k += 1;
                    }
                    assert(backlog.skip(at as int).len() >= len);
                    assert((f@.interleaved.skip(start as int) + rest).skip(len as int)
                        =~= f@.interleaved.skip(start + len) + rest);
                    assert(backlog.skip(at as int).skip(len as int) =~= backlog.skip(at + len));
                    at += len;
                    if held == len {
                        assert(f@.interleaved.skip(start + len) =~= Seq::<i16>::empty());
                        self.frame = None;
                        self.offset = 0;
                    } else {
                        self.frame = Some(f);
                        self.offset = start + len;
                    }
                },
            }
        }
        let written: usize = at;
        while at < n
            invariant
                written <= at <= n,
                written <= backlog.len(),
                n == out@.len(),
                out@.len() == old(out)@.len(),
                forall|i: int| 0 <= i < written ==> gain.ensures((backlog[i],), #[trigger] out@[i]),
                forall|i: int| written <= i < at ==> out@[i] == 0,
            decreases n - at,
        {
            out[at] = 0;
            at += 1;
        }
        written
    }
}

} // verus!
