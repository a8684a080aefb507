use vstd::prelude::*;

verus! {

/// The two kinds of media a capture pipeline can deliver.
#[derive(Clone, Copy, PartialEq, Eq, Structural, Debug)]
pub enum MediaKind {
    Video,
    Audio,
}

/// One discrete unit of captured media: an opaque payload identifier, the
/// presentation timestamp the native layer attached, and the kind tag.
/// Immutable once produced.
#[derive(Clone, Copy, PartialEq, Eq, Structural, Debug)]
pub struct SampleBuffer {
    pub payload: u64,
    pub timestamp: u64,
    pub kind: MediaKind,
}

impl SampleBuffer {
    /// Whether this buffer is tagged as audio.
    pub open spec fn is_audio(self) -> bool {
        self.kind is Audio
    }

    /// Whether this buffer is tagged as video.
    pub open spec fn is_video(self) -> bool {
        self.kind is Video
    }
}

} // verus!
