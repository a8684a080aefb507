use vstd::prelude::*;

verus! {

/// A resolved capture target: one display, window, or running application,
/// identified by the opaque numeric identifier the target selector produced.
#[derive(Clone, Copy, PartialEq, Eq, Structural, Debug)]
pub enum InitParams {
    Display(u64),
    Window(u64),
    Application(u64),
}

/// An immutable wrapper around one resolved capture target.  Consumed once at
/// session creation and never mutated.
#[derive(Clone, Copy, PartialEq, Eq, Structural, Debug)]
pub struct SCContentFilter {
    params: InitParams,
}

impl SCContentFilter {
    /// The target this filter selects.
    pub closed spec fn target(self) -> InitParams {
        self.params
    }

    /// Wraps one resolved capture target.
    pub fn new(params: InitParams) -> (f: Self)
        ensures
            f.target() == params,
    {
        SCContentFilter { params }
    }
}

/// The immutable option set consumed at session creation.  The only option
/// whose effect crosses into the session core's contract is `captures_audio`:
/// it decides whether audio-tagged buffers may ever be dispatched.
#[derive(Clone, Copy, PartialEq, Eq, Structural, Debug)]
pub struct SCStreamConfiguration {
    pub width: u32,
    pub height: u32,
    pub frames_per_second: u32,
    pub captures_audio: bool,
}

impl SCStreamConfiguration {
    /// A configuration with every option at its default: no resolution or
    /// frame-rate request, audio capture off.
    pub fn empty() -> (c: Self)
        ensures
            c == (SCStreamConfiguration {
                width: 0,
                height: 0,
                frames_per_second: 0,
                captures_audio: false,
            }),
    {
        SCStreamConfiguration { width: 0, height: 0, frames_per_second: 0, captures_audio: false }
    }

    /// The same configuration with audio capture switched on or off.
    pub fn captures_audio(self, captures_audio: bool) -> (c: Self)
        ensures
            c == (SCStreamConfiguration { captures_audio, ..self }),
    {
        SCStreamConfiguration { captures_audio, ..self }
    }
}

} // verus!
