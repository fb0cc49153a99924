//! The arguments and events that cross the command surface.

use vstd::prelude::*;

verus! {

/// How to open a session.
#[derive(Debug)]
pub struct CreateArgs {
    pub uri: Option<String>,
    pub format_hint: Option<VideoFormat>,
    pub asset: Option<String>,
    pub package: Option<String>,
}

/// A hint at the kind of source behind a uri.
#[derive(Clone, Copy, Debug, PartialEq, Eq, Structural)]
pub enum VideoFormat {
    Dash,
    Hls,
    Ss,
    Other,
}

/// The session that a call is about.
#[derive(Clone, Copy, Debug, PartialEq, Eq, Structural)]
pub struct TextureIdArgs {
    pub texture_id: i64,
}

#[derive(Clone, Copy, Debug, PartialEq, Eq, Structural)]
pub struct SetLoopingArgs {
    pub texture_id: i64,
    pub looping: bool,
}

#[derive(Clone, Copy, Debug, PartialEq, Eq, Structural)]
pub struct SeekToArgs {
    pub texture_id: i64,
    pub location: i64,
}

/// What an event tells the host.
#[derive(Clone, Copy, Debug, PartialEq, Eq, Structural)]
pub enum VideoEventType {
    Initialized,
    Completed,
    BufferingUpdate,
    BufferingStart,
    BufferingEnd,
    Unknown,
}

impl Default for VideoEventType {
    fn default() -> (t: Self)
        ensures
            t == VideoEventType::Unknown,
    {
        VideoEventType::Unknown
    }
}

/// An event as the host reads it.
pub struct VideoEventView {
    pub event: VideoEventType,
    pub width: Option<i64>,
    pub height: Option<i64>,
    pub duration: Option<i64>,
    pub values: Option<Seq<(i64, i64)>>,
}

/// An event for the host. Each kind of event fills the fields that belong to
/// it and leaves the others out.
#[derive(Debug)]
pub struct VideoEvent {
    event: VideoEventType,
    width: Option<i64>,
    height: Option<i64>,
    duration: Option<i64>,
    values: Option<Vec<(i64, i64)>>,
}

impl View for VideoEvent {
    type V = VideoEventView;

    closed spec fn view(&self) -> VideoEventView {
        VideoEventView {
            event: self.event,
            width: self.width,
            height: self.height,
            duration: self.duration,
            values: match self.values {
                Some(v) => Some(v@),
                None => None,
            },
        }
    }
}

impl Default for VideoEvent {
    /// An event of unknown kind that says nothing.
    fn default() -> (e: Self)
        ensures
            e@ == (VideoEventView {
                event: VideoEventType::Unknown,
                width: None,
                height: None,
                duration: None,
                values: None,
            }),
    {
        VideoEvent {
            event: VideoEventType::Unknown,
            width: None,
            height: None,
            duration: None,
            values: None,
        }
    }
}

impl VideoEvent {
    /// The session is ready: its picture size and its duration.
    pub fn initialized(width: i64, height: i64, duration: i64) -> (e: Self)
        ensures
            e@ == (VideoEventView {
                event: VideoEventType::Initialized,
                width: Some(width),
                height: Some(height),
                duration: Some(duration),
                values: None,
            }),
    {
        VideoEvent {
            event: VideoEventType::Initialized,
            width: Some(width),
            height: Some(height),
            duration: Some(duration),
            values: None,
        }
    }

    /// Playback has reached the end.
    pub fn completed() -> (e: Self)
        ensures
            e@ == (VideoEventView {
                event: VideoEventType::Completed,
                width: None,
                height: None,
                duration: None,
                values: None,
            }),
    {
        VideoEvent {
            event: VideoEventType::Completed,
            width: None,
            height: None,
            duration: None,
            values: None,
        }
    }

    /// The ranges that are buffered, each as its two ends.
    pub fn buffering_update(values: Vec<(i64, i64)>) -> (e: Self)
        ensures
            e@ == (VideoEventView {
                event: VideoEventType::BufferingUpdate,
                width: None,
                height: None,
                duration: None,
                values: Some(values@),
            }),
    {
        VideoEvent {
            event: VideoEventType::BufferingUpdate,
            width: None,
            height: None,
            duration: None,
            values: Some(values),
        }
    }

    /// Buffering has begun.
    pub fn buffering_start() -> (e: Self)
        ensures
            e@ == (VideoEventView {
                event: VideoEventType::BufferingStart,
                width: None,
                height: None,
                duration: None,
                values: None,
            }),
    {
        VideoEvent {
            event: VideoEventType::BufferingStart,
            width: None,
            height: None,
            duration: None,
            values: None,
        }
    }

    /// Buffering has ended.
    pub fn buffering_end() -> (e: Self)
        ensures
            e@ == (VideoEventView {
                event: VideoEventType::BufferingEnd,
                width: None,
                height: None,
                duration: None,
                values: None,
            }),
    {
        VideoEvent {
            event: VideoEventType::BufferingEnd,
            width: None,
            height: None,
            duration: None,
            values: None,
        }
    }

    pub fn event(&self) -> (t: VideoEventType)
        ensures
            t == self@.event,
    {
        self.event
    }

    pub fn width(&self) -> (w: Option<i64>)
        ensures
            w == self@.width,
    {
        self.width
    }

    pub fn height(&self) -> (h: Option<i64>)
        ensures
            h == self@.height,
    {
        self.height
    }

    pub fn duration(&self) -> (d: Option<i64>)
        ensures
            d == self@.duration,
    {
        self.duration
    }

    /// The buffered ranges, where the event carries them.
    pub fn values(&self) -> (v: Option<&Vec<(i64, i64)>>)
        ensures
            v is Some <==> self@.values is Some,
            v matches Some(ranges) ==> Some(ranges@) == self@.values,
    {
        self.values.as_ref()
    }
}

} // verus!
