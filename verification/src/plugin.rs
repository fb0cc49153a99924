//! The command surface: which method a call names, and which session a
//! texture id stands for.

use vstd::prelude::*;
use vstd::string::StringExecFns;
use std::collections::HashMap;
use crate::audio::AudioError;
use crate::player::{Player, PlayerError, PlayerView};
use crate::state::Transition;
use crate::text::{push_signed_decimal, same_text, signed_decimal};
use crate::types::{
    SeekToArgs, SetLoopingArgs, TextureIdArgs, VideoEvent, VideoEventType, VideoEventView,
};

verus! {

broadcast use vstd::std_specs::hash::group_hash_axioms;

/// The methods that the host may call.
#[derive(Clone, Copy, Debug, PartialEq, Eq, Structural)]
pub enum Method {
    Create,
    Init,
    SetLooping,
    SetVolume,
    Pause,
    Play,
    Position,
    SeekTo,
    Dispose,
}

impl Method {
    /// The method that a name stands for. Names are matched whole and with
    /// their case; any other name stands for nothing.
    pub open spec fn named(name: Seq<char>) -> Option<Method> {
        if name == "create"@ {
            Some(Method::Create)
        } else if name == "init"@ {
            Some(Method::Init)
        } else if name == "setLooping"@ {
            Some(Method::SetLooping)
        } else if name == "setVolume"@ {
            Some(Method::SetVolume)
        } else if name == "pause"@ {
            Some(Method::Pause)
        } else if name == "play"@ {
            Some(Method::Play)
        } else if name == "position"@ {
            Some(Method::Position)
        } else if name == "seekTo"@ {
            Some(Method::SeekTo)
        } else if name == "dispose"@ {
            Some(Method::Dispose)
        } else {
            None
        }
    }

    /// Decodes the name of a call. `None` means that the method is not
    /// implemented.
    pub fn from_name(name: &str) -> (m: Option<Method>)
        ensures
            m == Self::named(name@),
    {
        if same_text(name, "create") {
            Some(Method::Create)
        } else if same_text(name, "init") {
            Some(Method::Init)
        } else if same_text(name, "setLooping") {
            Some(Method::SetLooping)
        } else if same_text(name, "setVolume") {
            Some(Method::SetVolume)
        } else if same_text(name, "pause") {
            Some(Method::Pause)
        } else if same_text(name, "play") {
            Some(Method::Play)
        } else if same_text(name, "position") {
            Some(Method::Position)
        } else if same_text(name, "seekTo") {
            Some(Method::SeekTo)
        } else if same_text(name, "dispose") {
            Some(Method::Dispose)
        } else {
            None
        }
    }
}

/// The error of a call that names a texture without a session.
#[derive(Clone, Copy, Debug, PartialEq, Eq, Structural)]
pub struct InvalidTextureId;

impl InvalidTextureId {
    /// The error in words, for whoever reads logs.
    pub fn message(&self) -> (m: String)
        ensures
            m@ == "invalid texture id"@,
    {
        "invalid texture id".to_owned()
    }
}

/// The name of the channel on which the host calls methods.
pub fn channel_name() -> (name: &'static str)
    ensures
        name@ == "flutter.io/videoPlayer"@,
{
    "flutter.io/videoPlayer"
}

/// The name of the channel on which the session under `texture_id` reports
/// its events.
pub open spec fn event_channel_of(texture_id: i64) -> Seq<char> {
    "flutter.io/videoPlayer"@ + "/videoEvents"@ + signed_decimal(texture_id as int)
}

/// Names the event channel of the session under `texture_id`.
pub fn event_channel(texture_id: i64) -> (name: String)
    ensures
        name@ == event_channel_of(texture_id),
{
    let mut name: String = channel_name().to_owned();
    name.append("/videoEvents");
    push_signed_decimal(&mut name, texture_id);
    name
}

/// A call on a session, with its arguments decoded.
#[derive(Clone, Copy, Debug, PartialEq, Eq, Structural)]
pub enum Call {
    Init,
    SetLooping(SetLoopingArgs),
    /// The volume itself travels beside the call.
    SetVolume(TextureIdArgs),
    Pause(TextureIdArgs),
    Play(TextureIdArgs),
    Position(TextureIdArgs),
    SeekTo(SeekToArgs),
    Dispose(TextureIdArgs),
}

impl Call {
    /// The texture of the session that the call is about, if it is about
    /// one.
    pub open spec fn texture(self) -> Option<i64> {
        match self {
            Call::Init => None,
            Call::SetLooping(args) => Some(args.texture_id),
            Call::SetVolume(args) => Some(args.texture_id),
            Call::Pause(args) => Some(args.texture_id),
            Call::Play(args) => Some(args.texture_id),
            Call::Position(args) => Some(args.texture_id),
            Call::SeekTo(args) => Some(args.texture_id),
            Call::Dispose(args) => Some(args.texture_id),
        }
    }
}

/// The answer to a call.
#[derive(Clone, Copy, Debug, PartialEq, Eq, Structural)]
pub enum Reply {
    Null,
    I64(i64),
}

/// Why a call failed.
#[derive(Debug)]
pub enum CallError {
    InvalidTextureId,
    Player(PlayerError),
}

/// One session on the host's side: the channel for its events, the
/// session, and whatever the host keeps with it.
#[derive(Debug)]
pub struct StreamHandler<D> {
    pub channel: String,
    pub player: Player,
    pub device: D,
}

impl<D> StreamHandler<D> {
    pub fn new(channel: String, player: Player, device: D) -> (h: Self)
        ensures
            h.channel == channel,
            h.player == player,
            h.device == device,
    {
        StreamHandler { channel, player, device }
    }

    /// Whether `self` is `before` with its session taken through `t` and
    /// nothing else changed.
    pub open spec fn moved(self, before: StreamHandler<D>, t: Transition) -> bool {
        &&& self.channel == before.channel
        &&& self.device == before.device
        &&& self.player@ == (PlayerView { state: before.player@.state.step(t), ..before.player@ })
    }

    /// What a new listener is told first: that the session is ready, the
    /// size of its picture, and a nominal duration of one.
    pub fn on_listen(&self) -> (e: VideoEvent)
        ensures
            e@ == (VideoEventView {
                event: VideoEventType::Initialized,
                width: Some(self.player@.width as i64),
                height: Some(self.player@.height as i64),
                duration: Some(1),
                values: None,
            }),
    {
        self.player.on_listen()
    }
}

/// What a call comes to.
#[derive(Debug)]
pub enum Step<D> {
    /// Nothing is left to do but to answer.
    Reply(Reply),
    /// The audio device of the session is to start (or to stop); what it
    /// says goes to `settle`, which gives the answer.
    Device { texture_id: i64, start: bool },
    /// The volume that came with the call is to be stored with the session;
    /// the answer is `Null`.
    Volume(i64),
    /// The session is closed and handed over, disposal already asked for;
    /// its event channel is to be taken down. The answer is `Null`.
    Closed(StreamHandler<D>),
}

/// The open sessions, each under the id of the texture it draws to.
pub struct Handler<D> {
    streams: HashMap<i64, StreamHandler<D>>,
}

impl<D> View for Handler<D> {
    type V = Map<i64, StreamHandler<D>>;

    closed spec fn view(&self) -> Map<i64, StreamHandler<D>> {
        self.streams@
    }
}

impl<D> Handler<D> {
    /// No session is open.
    pub fn new() -> (h: Self)
        ensures
            h@ == Map::<i64, StreamHandler<D>>::empty(),
    {
        Handler { streams: HashMap::new() }
    }

    /// Opens a session under `texture_id`, in place of any session that was
    /// there, which is handed back. The session reports on the event channel
    /// named after its texture.
    pub fn create(&mut self, texture_id: i64, player: Player, device: D) -> (previous: Option<
        StreamHandler<D>,
    >)
        ensures
            final(self)@.dom() == old(self)@.dom().insert(texture_id),
            final(self)@[texture_id].channel@ == event_channel_of(texture_id),
            final(self)@[texture_id].player == player,
            final(self)@[texture_id].device == device,
            forall|other: i64|
                other != texture_id && old(self)@.contains_key(other) ==> final(self)@[other]
                    == old(self)@[other],
            previous == (if old(self)@.contains_key(texture_id) {
                Some(old(self)@[texture_id])
            } else {
                None::<StreamHandler<D>>
            }),
    {
        let stream = StreamHandler::new(event_channel(texture_id), player, device);
        let previous = self.streams.insert(texture_id, stream);
        assert(self.streams@.dom() =~= old(self)@.dom().insert(texture_id));
        previous
    }

    /// The session that a call means.
    pub fn stream(&self, texture_id: i64) -> (r: Result<&StreamHandler<D>, InvalidTextureId>)
        ensures
            r is Ok <==> self@.contains_key(texture_id),
            r matches Ok(s) ==> *s == self@[texture_id],
    {
        match self.streams.get(&texture_id) {
            Some(s) => Ok(s),
            None => Err(InvalidTextureId),
        }
    }

    /// Decides a call. A call about a texture without a session fails and
    /// changes nothing. Looping, seeking and the position are accepted and
    /// answered at once: there is no looping, no seeking, and the position
    /// is always the start. Playing, pausing and the volume need the host's
    /// hand first. Disposal asks the session's loops to stop and closes
    /// the session; every other session stays as it is.
    pub fn on_method_call(&mut self, call: Call) -> (r: Result<Step<D>, InvalidTextureId>)
        ensures
            match call.texture() {
                None => r == Ok::<Step<D>, InvalidTextureId>(Step::Reply(Reply::Null)) && final(self)@
                    == old(self)@,
                Some(id) => if !old(self)@.contains_key(id) {
                    r is Err && final(self)@ == old(self)@
                } else {
                    match call {
                        Call::Init | Call::SetLooping(_) | Call::SeekTo(_) => r == Ok::<
                            Step<D>,
                            InvalidTextureId,
                        >(Step::Reply(Reply::Null)) && final(self)@ == old(self)@,
                        Call::Position(_) => r == Ok::<Step<D>, InvalidTextureId>(
                            Step::Reply(Reply::I64(0)),
                        ) && final(self)@ == old(self)@,
                        Call::SetVolume(_) => r == Ok::<Step<D>, InvalidTextureId>(
                            Step::Volume(id),
                        ) && final(self)@ == old(self)@,
                        Call::Play(_) => r == Ok::<Step<D>, InvalidTextureId>(
                            Step::Device { texture_id: id, start: true },
                        ) && final(self)@ == old(self)@,
                        Call::Pause(_) => r == Ok::<Step<D>, InvalidTextureId>(
                            Step::Device { texture_id: id, start: false },
                        ) && final(self)@ == old(self)@,
                        Call::Dispose(_) => {
                            &&& r matches Ok(Step::Closed(closed))
                            &&& closed.moved(old(self)@[id], Transition::Dispose)
                            &&& final(self)@ == old(self)@.remove(id)
                        },
                    }
                },
            },
    {
        match call {
            Call::Init => Ok(Step::Reply(Reply::Null)),
            Call::SetLooping(args) => match self.streams.get(&args.texture_id) {
                Some(stream) => {
                    stream.player.set_looping(args.looping);
                    Ok(Step::Reply(Reply::Null))
                },
                None => Err(InvalidTextureId),
            },
            Call::SetVolume(args) => match self.streams.get(&args.texture_id) {
                Some(_) => Ok(Step::Volume(args.texture_id)),
                None => Err(InvalidTextureId),
            },
            Call::Pause(args) => match self.streams.get(&args.texture_id) {
                Some(_) => Ok(Step::Device { texture_id: args.texture_id, start: false }),
                None => Err(InvalidTextureId),
            },
            Call::Play(args) => match self.streams.get(&args.texture_id) {
                Some(_) => Ok(Step::Device { texture_id: args.texture_id, start: true }),
                None => Err(InvalidTextureId),
            },
            Call::Position(args) => match self.streams.get(&args.texture_id) {
                Some(stream) => Ok(Step::Reply(Reply::I64(stream.player.position()))),
                None => Err(InvalidTextureId),
            },
            Call::SeekTo(args) => match self.streams.get(&args.texture_id) {
                Some(stream) => {
                    stream.player.seek_to(args.location);
                    Ok(Step::Reply(Reply::Null))
                },
                None => Err(InvalidTextureId),
            },
            Call::Dispose(args) => match self.streams.remove(&args.texture_id) {
                Some(stream) => {
                    let mut stream = stream;
                    stream.player.dispose();
                    Ok(Step::Closed(stream))
                },
                None => Err(InvalidTextureId),
            },
        }
    }

    /// Settles a call to play (or to pause) once the audio device of the
    /// session has been asked to start (or to stop). Where the device
    /// failed, its error is the answer and the session stays as it was;
    /// otherwise the session plays (or is held), unless it was disposed
    /// of. No other session changes.
    pub fn settle(&mut self, texture_id: i64, start: bool, device: Result<(), AudioError>) -> (r:
        Result<Reply, CallError>)
        ensures
            !old(self)@.contains_key(texture_id) ==> r == Err::<Reply, CallError>(
                CallError::InvalidTextureId,
            ) && final(self)@ == old(self)@,
            old(self)@.contains_key(texture_id) ==> {
                &&& final(self)@.dom() == old(self)@.dom()
                &&& forall|other: i64|
                    other != texture_id && old(self)@.contains_key(other) ==> final(self)@[other]
                        == old(self)@[other]
                &&& ({
                    let before = old(self)@[texture_id];
                    let after = final(self)@[texture_id];
                    match device {
                        Ok(()) => r == Ok::<Reply, CallError>(Reply::Null) && after.moved(
                            before,
                            if start {
                                Transition::Play
                            } else {
                                Transition::Pause
                            },
                        ),
                        Err(e) => r == Err::<Reply, CallError>(
                            CallError::Player(PlayerError::Audio(e)),
                        ) && after.channel == before.channel && after.device == before.device
                            && after.player@ == before.player@,
                    }
                })
            },
    {
        match self.streams.remove(&texture_id) {
            None => {
                assert(self.streams@ =~= old(self)@);
                Err(CallError::InvalidTextureId)
            },
            Some(stream) => {
                let mut stream = stream;
                let settled = if start {
                    stream.player.play(device)
                } else {
                    stream.player.pause(device)
                };
                self.streams.insert(texture_id, stream);
                assert(self.streams@.dom() =~= old(self)@.dom());
                match settled {
                    Ok(()) => Ok(Reply::Null),
                    Err(e) => Err(CallError::Player(e)),
                }
            },
        }
    }
}

} // verus!
