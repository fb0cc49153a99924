//! The session controller: the one place where commands become state.

use vstd::prelude::*;
use std::collections::HashMap;
use crate::audio::{AudioError, AudioInfo};
use crate::frame::{AudioFrame, DecodedFrame, VideoFrame};
use crate::queue::FrameQueue;
use crate::state::{PlayerState, Transition};
use crate::text::same_text;
use crate::types::{VideoEvent, VideoEventType, VideoEventView};
use crate::video::VideoInfo;

verus! {

broadcast use vstd::std_specs::hash::group_hash_axioms;

/// What a container says a stream carries.
#[derive(Clone, Copy, Debug, PartialEq, Eq, Structural)]
pub enum StreamParams {
    Video(VideoInfo),
    Audio(AudioInfo),
}

/// One elementary stream as the container's headers describe it.
#[derive(Debug)]
pub struct Stream {
    /// The index that the stream's packets carry.
    pub index: isize,
    pub codec_id: Option<String>,
    pub kind: Option<StreamParams>,
}

/// A decoder to set up: for which stream of the container, counted from
/// the first, for the packets of which index, and of which entry of the
/// registry.
#[derive(Clone, Copy, Debug, PartialEq, Eq, Structural)]
pub struct Decoding {
    pub stream: usize,
    pub stream_index: isize,
    pub codec: usize,
}

/// What a source found in a container.
pub struct ContextView {
    /// The decoders to set up, in the order of their streams.
    pub decoders: Seq<Decoding>,
    pub video: Option<VideoInfo>,
    pub audio: Option<AudioInfo>,
}

/// The first entry of `registry` at or after `from` that is called `name`.
pub open spec fn first_named(registry: Seq<String>, name: Seq<char>, from: int) -> Option<int>
    decreases registry.len() - from,
{
    if from < 0 || from >= registry.len() {
        None
    } else if registry[from]@ == name {
        Some(from)
    } else {
        first_named(registry, name, from + 1)
    }
}

/// The entry of `registry` that decodes `stream`: the first one called by
/// the stream's codec identifier. A stream without an identifier has none.
pub open spec fn decoder_of(registry: Seq<String>, stream: Stream) -> Option<int> {
    match stream.codec_id {
        Some(id) => first_named(registry, id@, 0),
        None => None,
    }
}

/// What opening `streams` against `registry` comes to. Every stream with a
/// decoder in the registry gets one; a stream without is passed over. The
/// picture and sound parameters are those of the last stream of each kind
/// that got a decoder.
pub open spec fn planned(streams: Seq<Stream>, registry: Seq<String>) -> ContextView
    decreases streams.len(),
{
    if streams.len() == 0 {
        ContextView { decoders: Seq::empty(), video: None, audio: None }
    } else {
        let before = planned(streams.drop_last(), registry);
        let stream = streams.last();
        match decoder_of(registry, stream) {
            None => before,
            Some(codec) => ContextView {
                decoders: before.decoders.push(
                    Decoding {
                        stream: (streams.len() - 1) as usize,
                        stream_index: stream.index,
                        codec: codec as usize,
                    },
                ),
                video: match stream.kind {
                    Some(StreamParams::Video(info)) => Some(info),
                    _ => before.video,
                },
                audio: match stream.kind {
                    Some(StreamParams::Audio(info)) => Some(info),
                    _ => before.audio,
                },
            },
        }
    }
}

/// The decoder that takes the packets of `stream_index`: the last one set
/// up for that index.
pub open spec fn serving(decoders: Seq<Decoding>, stream_index: isize) -> Option<int>
    decreases decoders.len(),
{
    if decoders.len() == 0 {
        None
    } else if decoders.last().stream_index == stream_index {
        Some(decoders.len() - 1)
    } else {
        serving(decoders.drop_last(), stream_index)
    }
}

/// What `first_named` finds is called `name`, and nothing before it is; where
/// it finds nothing, no entry from `from` on is called `name`.
pub proof fn lemma_first_named(registry: Seq<String>, name: Seq<char>, from: int)
    requires
        0 <= from,
    ensures
        match first_named(registry, name, from) {
            Some(p) => {
                &&& from <= p < registry.len()
                &&& registry[p]@ == name
                &&& forall|j: int| from <= j < p ==> (#[trigger] registry[j])@ != name
            },
            None => forall|j: int| from <= j < registry.len() ==> (#[trigger] registry[j])@ != name,
        },
    decreases registry.len() - from,
{
    if from < registry.len() && registry[from]@ != name {
        lemma_first_named(registry, name, from + 1);
    }
}

/// What `serving` finds takes the packets of `stream_index`, and nothing
/// after it does; where it finds nothing, no decoder takes them.
pub proof fn lemma_serving(decoders: Seq<Decoding>, stream_index: isize)
    ensures
        match serving(decoders, stream_index) {
            Some(k) => {
                &&& 0 <= k < decoders.len()
                &&& decoders[k].stream_index == stream_index
                &&& forall|j: int|
                    k < j < decoders.len() ==> (#[trigger] decoders[j]).stream_index
                        != stream_index
            },
            None => forall|j: int|
                0 <= j < decoders.len() ==> (#[trigger] decoders[j]).stream_index != stream_index,
        },
    decreases decoders.len(),
{
    if decoders.len() > 0 && decoders.last().stream_index != stream_index {
        lemma_serving(decoders.drop_last(), stream_index);
        assert forall|j: int| 0 <= j < decoders.len() - 1 implies decoders.drop_last()[j]
            == decoders[j] by {}
    }
}

/// Finds the first entry of `registry` that is called `name`.
pub fn find_codec(registry: &Vec<String>, name: &str) -> (r: Option<usize>)
    ensures
        r matches Some(p) ==> first_named(registry@, name@, 0) == Some(p as int),
        r is None ==> first_named(registry@, name@, 0) is None,
        r matches Some(p) ==> p < registry@.len() && registry@[p as int]@ == name@,
        r matches Some(p) ==> forall|j: int| 0 <= j < p ==> (#[trigger] registry@[j])@ != name@,
        r is None ==> forall|j: int|
            0 <= j < registry@.len() ==> (#[trigger] registry@[j])@ != name@,
{
    let mut i: usize = 0;
    while i < registry.len()
        invariant
            i <= registry@.len(),
            first_named(registry@, name@, 0) == first_named(registry@, name@, i as int),
        decreases registry.len() - i,
    {
        if same_text(registry[i].as_str(), name) {
            proof {
                lemma_first_named(registry@, name@, 0);
            }
            return Some(i);
        }
        i += 1;
    }
    proof {
        lemma_first_named(registry@, name@, 0);
    }
    None
}

/// What the demuxer reports when asked for its next event.
#[derive(Clone, Copy, Debug, PartialEq, Eq, Structural)]
pub enum DemuxEvent {
    /// A packet of the stream with this index.
    NewPacket(isize),
    /// The container has ended.
    Eof,
    /// Anything else.
    Other,
}

/// What to do about a demuxer event.
#[derive(Clone, Copy, Debug, PartialEq, Eq, Structural)]
pub enum DecodeStep {
    /// Feed the packet to this decoder, then ask it for a frame. That it has
    /// none ready is no fault: decoders may hold packets back.
    Decode(usize),
    /// Drop the packet and say so: no decoder takes this stream index.
    Skip(isize),
    /// Nothing to decode.
    Idle,
    /// The event is not one that the source handles.
    Unsupported,
}

/// An opened source: which decoder takes which stream, and what the streams
/// are.
#[derive(Debug)]
pub struct PlaybackContext {
    decoders: Vec<Decoding>,
    /// For each stream index that is decoded, the place of its decoder
    /// among `decoders`.
    by_index: HashMap<isize, usize>,
    video: Option<VideoInfo>,
    audio: Option<AudioInfo>,
}

/// Whether `by_index` leads from every stream index to the decoder that
/// serves it, and from no other.
pub open spec fn indexes(by_index: Map<isize, usize>, decoders: Seq<Decoding>) -> bool {
    forall|i: isize|
        match #[trigger] serving(decoders, i) {
            Some(k) => by_index.contains_key(i) && by_index[i] == k,
            None => !by_index.contains_key(i),
        }
}

impl View for PlaybackContext {
    type V = ContextView;

    closed spec fn view(&self) -> ContextView {
        ContextView { decoders: self.decoders@, video: self.video, audio: self.audio }
    }
}

impl PlaybackContext {
    #[verifier::type_invariant]
    spec fn indexed(self) -> bool {
        indexes(self.by_index@, self.decoders@)
    }

    /// Settles which streams are decoded and with what, from the streams
    /// that the container's headers list and the names that the decoders of
    /// the registry go by.
    pub fn from_streams(streams: &Vec<Stream>, registry: &Vec<String>) -> (c: PlaybackContext)
        ensures
            c@ == planned(streams@, registry@),
    {
        let mut decoders: Vec<Decoding> = Vec::new();
        let mut by_index: HashMap<isize, usize> = HashMap::new();
        let mut video: Option<VideoInfo> = None;
        let mut audio: Option<AudioInfo> = None;
        let mut i: usize = 0;
        assert(streams@.take(0) =~= Seq::<Stream>::empty());
        while i < streams.len()
            invariant
                i <= streams@.len(),
                (ContextView { decoders: decoders@, video, audio }) == planned(
                    streams@.take(i as int),
                    registry@,
                ),
                indexes(by_index@, decoders@),
            decreases streams.len() - i,
        {
            let stream = &streams[i];
            assert(streams@.take(i + 1).drop_last() =~= streams@.take(i as int));
            assert(streams@.take(i + 1).last() == streams@[i as int]);
            let codec: Option<usize> = match &stream.codec_id {
                Some(id) => find_codec(registry, id.as_str()),
                None => None,
            };
            match codec {
                None => {},
                Some(codec) => {
                    let ghost before = decoders@;
                    let ghost index_before = by_index@;
                    by_index.insert(stream.index, decoders.len());
                    decoders.push(Decoding { stream: i, stream_index: stream.index, codec });
                    assert(decoders@.drop_last() =~= before);
                    assert forall|j: isize|
                        match #[trigger] serving(decoders@, j) {
                            Some(k) => by_index@.contains_key(j) && by_index@[j] == k,
                            None => !by_index@.contains_key(j),
                        } by {
                        if j != stream.index {
                            assert(serving(decoders@, j) == serving(before, j));
                            assert(indexes(index_before, before));
                        }
                    }
                    match stream.kind {
                        Some(StreamParams::Video(info)) => {
                            video = Some(info);
                        },
                        Some(StreamParams::Audio(info)) => {
                            audio = Some(info);
                        },
                        None => {},
                    }
                },
            }
            i += 1;
        }
        assert(streams@.take(streams@.len() as int) =~= streams@);
        PlaybackContext { decoders, by_index, video, audio }
    }

    /// The picture parameters of the source, where it has a video stream.
    pub fn video(&self) -> (v: Option<VideoInfo>)
        ensures
            v == self@.video,
    {
        self.video
    }

    /// The sound parameters of the source, where it has an audio stream.
    pub fn audio(&self) -> (a: Option<AudioInfo>)
        ensures
            a == self@.audio,
    {
        self.audio
    }

    /// The decoders to set up, in order.
    pub fn decoders(&self) -> (d: &Vec<Decoding>)
        ensures
            d@ == self@.decoders,
    {
        &self.decoders
    }

    /// The decoder that takes the packets of `stream_index`, as its place
    /// among the decoders of the source.
    pub fn decoder_for(&self, stream_index: isize) -> (r: Option<usize>)
        ensures
            r matches Some(k) ==> serving(self@.decoders, stream_index) == Some(k as int),
            r is None ==> serving(self@.decoders, stream_index) is None,
            r matches Some(k) ==> k < self@.decoders.len() && self@.decoders[k as int].stream_index
                == stream_index,
            r is None ==> forall|j: int|
                0 <= j < self@.decoders.len() ==> (#[trigger] self@.decoders[j]).stream_index
                    != stream_index,
    {
        proof {
            use_type_invariant(self);
            lemma_serving(self.decoders@, stream_index);
        }
        match self.by_index.get(&stream_index) {
            Some(k) => Some(*k),
            None => None,
        }
    }

    /// Decides what one demuxer event calls for.
    pub fn decode_one(&self, event: DemuxEvent) -> (step: DecodeStep)
        ensures
            step == (match event {
                DemuxEvent::NewPacket(stream_index) => match serving(
                    self@.decoders,
                    stream_index,
                ) {
                    Some(k) => DecodeStep::Decode(k as usize),
                    None => DecodeStep::Skip(stream_index),
                },
                DemuxEvent::Eof => DecodeStep::Idle,
                DemuxEvent::Other => DecodeStep::Unsupported,
            }),
    {
        match event {
            DemuxEvent::NewPacket(stream_index) => match self.decoder_for(stream_index) {
                Some(k) => DecodeStep::Decode(k),
                None => DecodeStep::Skip(stream_index),
            },
            DemuxEvent::Eof => DecodeStep::Idle,
            DemuxEvent::Other => DecodeStep::Unsupported,
        }
    }
}

/// The most frames that wait between the decoder and the video renderer.
pub const VIDEO_QUEUE_CAPACITY: usize = 24;

/// What the decode loop does next.
#[derive(Clone, Copy, Debug, PartialEq, Eq, Structural)]
pub enum DispatchStep {
    /// Leave the loop.
    Exit,
    /// Decode one event and route what comes of it.
    Decode,
}

/// Decides one iteration of the decode loop from the session's state, and
/// gives the state to store: a loop that leaves confirms the disposal.
pub fn dispatch_gate(state: PlayerState) -> (r: (DispatchStep, PlayerState))
    ensures
        state.terminal() ==> r.0 is Exit && r.1 == state.step(Transition::Acknowledge),
        !state.terminal() ==> r.0 is Decode && r.1 == state,
{
    if state.is_terminal() {
        (DispatchStep::Exit, state.apply(Transition::Acknowledge))
    } else {
        (DispatchStep::Decode, state)
    }
}

/// The two queues of a session: sound is never held back, pictures are.
pub fn frame_queues() -> (q: (FrameQueue<AudioFrame>, FrameQueue<VideoFrame>))
    ensures
        q.0@.wf(),
        q.0@.frames == Seq::<AudioFrame>::empty(),
        q.0@.capacity == None::<nat>,
        q.1@.wf(),
        q.1@.frames == Seq::<VideoFrame>::empty(),
        q.1@.capacity == Some(VIDEO_QUEUE_CAPACITY as nat),
{
    (FrameQueue::unbounded(), FrameQueue::bounded(VIDEO_QUEUE_CAPACITY))
}

/// Puts a decoded frame in the queue of its kind, behind the frames
/// already there. A frame that its queue has no room for comes back
/// untouched, to be offered again: it is never dropped, and the other queue
/// is never touched.
pub fn route(
    frame: DecodedFrame,
    audio: &mut FrameQueue<AudioFrame>,
    video: &mut FrameQueue<VideoFrame>,
) -> (refused: Option<DecodedFrame>)
    requires
        old(audio)@.wf(),
        old(video)@.wf(),
    ensures
        final(audio)@.wf(),
        final(video)@.wf(),
        frame matches DecodedFrame::Audio(a) ==> {
            &&& final(audio)@ == old(audio)@.offer(a)
            &&& final(video)@ == old(video)@
            &&& refused == (if old(audio)@.full() {
                Some(frame)
            } else {
                None
            })
        },
        frame matches DecodedFrame::Video(v) ==> {
            &&& final(video)@ == old(video)@.offer(v)
            &&& final(audio)@ == old(audio)@
            &&& refused == (if old(video)@.full() {
                Some(frame)
            } else {
                None
            })
        },
{
    match frame {
        DecodedFrame::Audio(a) => match audio.push(a) {
            Some(a) => Some(DecodedFrame::Audio(a)),
            None => None,
        },
        DecodedFrame::Video(v) => match video.push(v) {
            Some(v) => Some(DecodedFrame::Video(v)),
            None => None,
        },
    }
}

/// Why a session could not be opened or driven.
#[derive(Debug)]
pub enum PlayerError {
    /// The container could not be read; the demuxer's own words.
    Format(String),
    /// A decoder could not be configured; the decoder's own words.
    Codec(String),
    Audio(AudioError),
    /// The file could not be opened; the system's own words.
    Io(String),
}

impl PlayerError {
    /// The error in words.
    pub open spec fn text(self) -> Seq<char> {
        match self {
            PlayerError::Format(words) => words@,
            PlayerError::Codec(words) => words@,
            PlayerError::Audio(error) => error.text(),
            PlayerError::Io(words) => words@,
        }
    }

    /// The error in words, for whoever reads logs.
    pub fn message(&self) -> (m: String)
        ensures
            m@ == self.text(),
    {
        match self {
            PlayerError::Format(words) => words.clone(),
            PlayerError::Codec(words) => words.clone(),
            PlayerError::Audio(error) => error.message(),
            PlayerError::Io(words) => words.clone(),
        }
    }
}

/// A session as commands see it.
pub struct PlayerView {
    pub width: int,
    pub height: int,
    pub state: PlayerState,
}

/// One playback session: the picture size it reports and its state.
#[derive(Debug)]
pub struct Player {
    width: i64,
    height: i64,
    state: PlayerState,
}

impl View for Player {
    type V = PlayerView;

    closed spec fn view(&self) -> PlayerView {
        PlayerView { width: self.width as int, height: self.height as int, state: self.state }
    }
}

impl Player {
    /// A session for a stream of the given picture size, not yet started.
    pub fn new(video: &VideoInfo) -> (p: Player)
        requires
            video.width <= i64::MAX,
            video.height <= i64::MAX,
        ensures
            p@ == (PlayerView {
                width: video.width as int,
                height: video.height as int,
                state: PlayerState::Stopped,
            }),
    {
        Player { width: video.width as i64, height: video.height as i64, state: PlayerState::Stopped }
    }

    /// Takes up playing, given what the audio device said when asked to
    /// start. A device failure is handed on and leaves the session as it
    /// was; a disposed session stays disposed.
    pub fn play(&mut self, device: Result<(), AudioError>) -> (r: Result<(), PlayerError>)
        ensures
            device is Ok ==> r is Ok && final(self)@ == (PlayerView {
                state: old(self)@.state.step(Transition::Play),
                ..old(self)@
            }),
            device matches Err(e) ==> r == Err::<(), PlayerError>(PlayerError::Audio(e))
                && final(self)@ == old(self)@,
    {
        match device {
            Ok(()) => {
                self.state = self.state.apply(Transition::Play);
                Ok(())
            },
            Err(e) => Err(PlayerError::Audio(e)),
        }
    }

    /// Holds playback, given what the audio device said when asked to stop.
    /// A device failure is handed on and leaves the session as it was; a
    /// disposed session stays disposed.
    pub fn pause(&mut self, device: Result<(), AudioError>) -> (r: Result<(), PlayerError>)
        ensures
            device is Ok ==> r is Ok && final(self)@ == (PlayerView {
                state: old(self)@.state.step(Transition::Pause),
                ..old(self)@
            }),
            device matches Err(e) ==> r == Err::<(), PlayerError>(PlayerError::Audio(e))
                && final(self)@ == old(self)@,
    {
        match device {
            Ok(()) => {
                self.state = self.state.apply(Transition::Pause);
                Ok(())
            },
            Err(e) => Err(PlayerError::Audio(e)),
        }
    }

    /// Takes note that the decode loop has left.
    pub fn acknowledge(&mut self)
        ensures
            final(self)@ == (PlayerView {
                state: old(self)@.state.step(Transition::Acknowledge),
                ..old(self)@
            }),
    {
        self.state = self.state.apply(Transition::Acknowledge);
    }

    pub fn state(&self) -> (s: PlayerState)
        ensures
            s == self@.state,
    {
        self.state
    }

    /// The width of the picture, as the stream's headers give it.
    pub fn width(&self) -> (w: i64)
        ensures
            w == self@.width,
    {
        self.width
    }

    /// The height of the picture, as the stream's headers give it.
    pub fn height(&self) -> (h: i64)
        ensures
            h == self@.height,
    {
        self.height
    }

    /// The playback position. Positions are not tracked: it is always the
    /// start.
    pub fn position(&self) -> (p: i64)
        ensures
            p == 0,
    {
        0
    }

    /// What a new listener is told first: that the session is ready, the
    /// size of its picture, and a nominal duration of one.
    pub fn on_listen(&self) -> (e: VideoEvent)
        ensures
            e@ == (VideoEventView {
                event: VideoEventType::Initialized,
                width: Some(self@.width as i64),
                height: Some(self@.height as i64),
                duration: Some(1),
                values: None,
            }),
    {
        VideoEvent::initialized(self.width, self.height, 1)
    }

    /// Accepted, and without effect: there is no seeking.
    pub fn seek_to(&self, _location: i64) {
    }

    /// Accepted, and without effect: there is no looping.
    pub fn set_looping(&self, _looping: bool) {
    }

    /// Asks the loops to stop.
    pub fn dispose(&mut self)
        ensures
            final(self)@ == (PlayerView {
                state: old(self)@.state.step(Transition::Dispose),
                ..old(self)@
            }),
            final(self)@.state.terminal(),
    {
        self.state = self.state.apply(Transition::Dispose);
    }
}

} // verus!
