use vstd::prelude::*;
use crate::config::{InitParams, SCContentFilter, SCStreamConfiguration};
use crate::handle::CaptureHandle;
use crate::registry::{count_false, Delivery, OutputRegistry};
use crate::relay::ErrorRelay;
use crate::sample::SampleBuffer;

verus! {

/// The lifecycle of one capture session.  `Created` and `Capturing` lead to
/// `Stopped`; `Stopped` is terminal — a new session must be created to
/// capture again.
#[derive(Clone, Copy, PartialEq, Eq, Structural, Debug)]
pub enum StreamState {
    Created,
    Capturing,
    Stopped,
}

/// Why session creation failed: the native layer rejected the target and
/// configuration combination.
#[derive(Clone, Copy, PartialEq, Eq, Structural, Debug)]
pub enum InitializationError {
    TargetUnavailable,
    PermissionDenied,
    ConfigurationRejected,
}

/// One managed capture session: the lifecycle state machine, the exclusively
/// owned native handle, the ordered registry of consumers, and the
/// at-most-once fatal-error relay.
///
/// The native pipeline's callbacks (sample delivery, fatal error) are fed in
/// through `deliver_sample` and `report_error` by the embedding layer, which
/// also serialises those calls against `add_output`, `start_capture` and
/// `stop_capture`: every contract here is over that mutually-excluded state.
pub struct SCStream {
    state: StreamState,
    filter: SCContentFilter,
    captures_audio: bool,
    handle: CaptureHandle,
    registry: OutputRegistry,
    relay: ErrorRelay,
}

impl SCStream {
    /// The session's current lifecycle state.
    pub closed spec fn lifecycle(self) -> StreamState {
        self.state
    }

    /// The capture target the session was created for.
    pub closed spec fn target(self) -> InitParams {
        self.filter.target()
    }

    /// Whether the session's configuration enables audio capture.
    pub closed spec fn audio_enabled(self) -> bool {
        self.captures_audio
    }

    /// The opaque identifier of the native resource the session owns.
    pub closed spec fn handle_id(self) -> u64 {
        self.handle.id()
    }

    /// Whether the native resource has been released.
    pub closed spec fn handle_released(self) -> bool {
        self.handle.is_released()
    }

    /// Every buffer dispatched to consumers so far, in delivery order.
    pub closed spec fn dispatch_log(self) -> Seq<SampleBuffer> {
        self.registry.log()
    }

    /// How many consumers are registered.
    pub closed spec fn output_count(self) -> nat {
        self.registry.slot_count()
    }

    /// The deliveries consumer `i` has received, oldest first.
    pub closed spec fn received_of(self, i: int) -> Seq<Delivery> {
        self.registry.received_of(i)
    }

    /// The dispatch position at which consumer `i` registered: the number of
    /// buffers the session had already dispatched at that moment.
    pub closed spec fn registered_of(self, i: int) -> nat {
        self.registry.registered_at(i)
    }

    /// Whether the fatal-error relay has fired.
    pub closed spec fn error_fired(self) -> bool {
        self.relay.has_fired()
    }

    /// The session invariant, established at creation and preserved by every
    /// operation:
    /// - each consumer's log is exactly the suffix of the dispatch log from
    ///   its registration position on, in dispatch order;
    /// - the native handle is released exactly when the session is stopped;
    /// - before `start_capture` nothing has been dispatched and no error has
    ///   been relayed;
    /// - with audio capture disabled, no audio-tagged buffer is ever in the
    ///   dispatch log.
    pub closed spec fn well_formed(self) -> bool {
        &&& self.registry.well_formed()
        &&& self.handle.is_released() <==> self.state is Stopped
        &&& self.state is Created ==> self.dispatch_log().len() == 0
        &&& self.state is Created ==> !self.relay.has_fired()
        &&& !self.captures_audio ==> forall|j: int|
            0 <= j < self.dispatch_log().len() ==> !(#[trigger] self.dispatch_log()[j].kind is Audio)
    }

    /// Creates a session bound to one capture target and configuration.
    ///
    /// Acquiring the native pipeline resource is the native layer's decision,
    /// made outside this crate; `acquired` is its outcome, handed in by the
    /// embedding layer: the identifier of the freshly acquired resource, or
    /// the reason the target and configuration combination was rejected.
    /// Creation succeeds if and only if the acquisition did, and a fresh
    /// session starts in `Created` with no consumers, an empty dispatch log,
    /// a live handle, and an unfired error relay.
    pub fn new(
        filter: SCContentFilter,
        config: SCStreamConfiguration,
        acquired: Result<u64, InitializationError>,
    ) -> (r: Result<SCStream, InitializationError>)
        ensures
            r is Ok <==> acquired is Ok,
            acquired is Err ==> r == Err::<SCStream, _>(acquired->Err_0),
            acquired is Ok ==> {
                let s = r->Ok_0;
                &&& s.well_formed()
                &&& s.lifecycle() is Created
                &&& s.target() == filter.target()
                &&& s.audio_enabled() == config.captures_audio
                &&& s.handle_id() == acquired->Ok_0
                &&& !s.handle_released()
                &&& s.output_count() == 0
                &&& s.dispatch_log().len() == 0
                &&& !s.error_fired()
            },
    {
        match acquired {
            Ok(handle_id) => Ok(
                SCStream {
                    state: StreamState::Created,
                    filter,
                    captures_audio: config.captures_audio,
                    handle: CaptureHandle::acquire(handle_id),
                    registry: OutputRegistry::new(),
                    relay: ErrorRelay::new(),
                },
            ),
            Err(e) => Err(e),
        }
    }

    /// Registers one consumer, after every consumer already registered.
    ///
    /// Valid while the session is created or capturing.  Returns the new
    /// consumer's position.  The newcomer starts with an empty log and will
    /// observe exactly the buffers dispatched from now on; consumers already
    /// registered, the dispatch log and the rest of the session are
    /// untouched, so no in-flight buffer is dropped or duplicated.
    pub fn add_output(&mut self) -> (idx: usize)
        requires
            old(self).well_formed(),
            !(old(self).lifecycle() is Stopped),
        ensures
            final(self).well_formed(),
            idx == old(self).output_count(),
            final(self).output_count() == old(self).output_count() + 1,
            final(self).received_of(idx as int) == Seq::<Delivery>::empty(),
            final(self).registered_of(idx as int) == old(self).dispatch_log().len(),
            forall|i: int|
                0 <= i < old(self).output_count() ==> #[trigger] final(self).received_of(i) == old(
                    self,
                ).received_of(i),
            forall|i: int|
                0 <= i < old(self).output_count() ==> #[trigger] final(self).registered_of(i)
                    == old(self).registered_of(i),
            final(self).lifecycle() == old(self).lifecycle(),
            final(self).dispatch_log() == old(self).dispatch_log(),
            final(self).audio_enabled() == old(self).audio_enabled(),
            final(self).error_fired() == old(self).error_fired(),
            final(self).handle_released() == old(self).handle_released(),
            final(self).handle_id() == old(self).handle_id(),
            final(self).target() == old(self).target(),
    {
        self.registry.add_slot()
    }

    /// Begins capturing: `Created` moves to `Capturing`, and a repeated call
    /// while already capturing is a no-op, mirroring the native layer, which
    /// reports no failure for a double start.  Everything else — consumers,
    /// dispatch log, handle, relay — is untouched.
    pub fn start_capture(&mut self)
        requires
            old(self).well_formed(),
            !(old(self).lifecycle() is Stopped),
        ensures
            final(self).well_formed(),
            final(self).lifecycle() is Capturing,
            final(self).output_count() == old(self).output_count(),
            forall|i: int|
                0 <= i < old(self).output_count() ==> #[trigger] final(self).received_of(i) == old(
                    self,
                ).received_of(i),
            forall|i: int|
                0 <= i < old(self).output_count() ==> #[trigger] final(self).registered_of(i)
                    == old(self).registered_of(i),
            final(self).dispatch_log() == old(self).dispatch_log(),
            final(self).audio_enabled() == old(self).audio_enabled(),
            final(self).error_fired() == old(self).error_fired(),
            final(self).handle_released() == old(self).handle_released(),
            final(self).handle_id() == old(self).handle_id(),
            final(self).target() == old(self).target(),
    {
        match self.state {
            StreamState::Created => {
                self.state = StreamState::Capturing;
            },
            _ => {
            },
        }
    }

    /// Stops the session and releases the native handle.
    ///
    /// From `Capturing` — and directly from `Created`, without any dispatch
    /// ever having occurred — the session moves to the terminal `Stopped`
    /// state and the handle is released; the release happens at most once,
    /// so a repeated stop is a no-op.  Consumer logs, the dispatch log and
    /// the relay are untouched: stopping loses nothing already delivered.
    pub fn stop_capture(&mut self)
        requires
            old(self).well_formed(),
        ensures
            final(self).well_formed(),
            final(self).lifecycle() is Stopped,
            final(self).handle_released(),
            final(self).output_count() == old(self).output_count(),
            forall|i: int|
                0 <= i < old(self).output_count() ==> #[trigger] final(self).received_of(i) == old(
                    self,
                ).received_of(i),
            forall|i: int|
                0 <= i < old(self).output_count() ==> #[trigger] final(self).registered_of(i)
                    == old(self).registered_of(i),
            final(self).dispatch_log() == old(self).dispatch_log(),
            final(self).audio_enabled() == old(self).audio_enabled(),
            final(self).error_fired() == old(self).error_fired(),
            final(self).handle_id() == old(self).handle_id(),
            final(self).target() == old(self).target(),
    {
        match self.state {
            StreamState::Stopped => {
            },
            _ => {
                self.handle.release();
                self.state = StreamState::Stopped;
            },
        }
    }

    /// Accepts one sample buffer from the native pipeline and routes it to
    /// every registered consumer, in registration order.
    ///
    /// `outcomes[i]` is whether consumer `i`'s own processing of the buffer
    /// succeeds, a verdict supplied by the embedding layer that runs the
    /// consumer callbacks.  While capturing, every consumer receives the
    /// buffer exactly once, whatever any outcome is — one failing consumer
    /// never suppresses delivery to a peer — and the count of failed
    /// consumers is returned as the out-of-band diagnostic.  In any other
    /// state — in particular once `stop_capture` has returned — the buffer
    /// is discarded and no consumer receives anything.
    ///
    /// The native layer produces audio-tagged buffers only when the
    /// configuration enabled audio capture, which the precondition records.
    pub fn deliver_sample(&mut self, buffer: SampleBuffer, outcomes: &Vec<bool>) -> (failures:
        usize)
        requires
            old(self).well_formed(),
            outcomes@.len() == old(self).output_count(),
            buffer.kind is Audio ==> old(self).audio_enabled(),
        ensures
            final(self).well_formed(),
            final(self).lifecycle() == old(self).lifecycle(),
            final(self).output_count() == old(self).output_count(),
            forall|i: int|
                0 <= i < old(self).output_count() ==> #[trigger] final(self).registered_of(i)
                    == old(self).registered_of(i),
            final(self).audio_enabled() == old(self).audio_enabled(),
            final(self).error_fired() == old(self).error_fired(),
            final(self).handle_released() == old(self).handle_released(),
            final(self).handle_id() == old(self).handle_id(),
            final(self).target() == old(self).target(),
            old(self).lifecycle() is Capturing ==> {
                &&& final(self).dispatch_log() == old(self).dispatch_log().push(buffer)
                &&& forall|i: int|
                    0 <= i < old(self).output_count() ==> #[trigger] final(self).received_of(i)
                        == old(self).received_of(i).push(
                        Delivery { buffer, accepted: outcomes@[i] },
                    )
                &&& failures as int == count_false(outcomes@)
            },
            !(old(self).lifecycle() is Capturing) ==> {
                &&& final(self).dispatch_log() == old(self).dispatch_log()
                &&& forall|i: int|
                    0 <= i < old(self).output_count() ==> #[trigger] final(self).received_of(i)
                        == old(self).received_of(i)
                &&& failures == 0
            },
    {
        match self.state {
            StreamState::Capturing => self.registry.dispatch(buffer, outcomes),
            _ => 0,
        }
    }

    /// Accepts one session-fatal error signal from the native pipeline.
    ///
    /// Returns whether the caller's error observer must be invoked now.
    /// That happens exactly once per session: on the first signal while
    /// capturing.  Repeated signals, signals before `start_capture`, and
    /// signals after `stop_capture` has returned fire nothing.  The session
    /// does not stop itself on a fatal error: the caller decides when to
    /// release resources with `stop_capture`.
    pub fn report_error(&mut self) -> (fire: bool)
        requires
            old(self).well_formed(),
        ensures
            final(self).well_formed(),
            fire == (old(self).lifecycle() is Capturing && !old(self).error_fired()),
            final(self).error_fired() == (old(self).error_fired() || old(
                self,
            ).lifecycle() is Capturing),
            final(self).lifecycle() == old(self).lifecycle(),
            final(self).output_count() == old(self).output_count(),
            forall|i: int|
                0 <= i < old(self).output_count() ==> #[trigger] final(self).received_of(i) == old(
                    self,
                ).received_of(i),
            forall|i: int|
                0 <= i < old(self).output_count() ==> #[trigger] final(self).registered_of(i)
                    == old(self).registered_of(i),
            final(self).dispatch_log() == old(self).dispatch_log(),
            final(self).audio_enabled() == old(self).audio_enabled(),
            final(self).handle_released() == old(self).handle_released(),
            final(self).handle_id() == old(self).handle_id(),
            final(self).target() == old(self).target(),
    {
        match self.state {
            StreamState::Capturing => self.relay.try_fire(),
            _ => false,
        }
    }

    /// The session's current lifecycle state.
    pub fn state(&self) -> (s: StreamState)
        ensures
            s == self.lifecycle(),
    {
        self.state
    }

    /// Whether the session's configuration enables audio capture.
    pub fn audio_capture_enabled(&self) -> (b: bool)
        ensures
            b == self.audio_enabled(),
    {
        self.captures_audio
    }

    /// How many consumers are registered.
    pub fn output_len(&self) -> (n: usize)
        ensures
            n == self.output_count(),
    {
        self.registry.len()
    }

    /// The deliveries consumer `i` has received so far, oldest first.
    pub fn received(&self, i: usize) -> (v: &Vec<Delivery>)
        requires
            i < self.output_count(),
        ensures
            v@ == self.received_of(i as int),
    {
        self.registry.received(i)
    }

    /// Whether the fatal-error relay has fired.
    pub fn has_error_fired(&self) -> (b: bool)
        ensures
            b == self.error_fired(),
    {
        self.relay.has_fired_now()
    }

    /// Whether the native resource has been released.
    pub fn is_handle_released(&self) -> (b: bool)
        ensures
            b == self.handle_released(),
    {
        self.handle.released()
    }
}

/// With audio capture disabled, no consumer ever receives a buffer tagged
/// audio: every delivery in every consumer's log is video-tagged.
pub proof fn lemma_audio_disabled_no_audio_delivery(s: SCStream, i: int, j: int)
    requires
        s.well_formed(),
        !s.audio_enabled(),
        0 <= i < s.output_count(),
        0 <= j < s.received_of(i).len(),
    ensures
        !(s.received_of(i)[j].buffer.kind is Audio),
{
    assert(s.registry.slot_consistent(i));
}

/// A session still in `Created` has never dispatched anything: the dispatch
/// log and every consumer's log are empty.  So `stop_capture` called from
/// `Created` — whose contract moves the session straight to `Stopped` and
/// preserves all logs — reaches `Stopped` without any dispatch invocation
/// ever having occurred.
pub proof fn lemma_created_never_dispatched(s: SCStream, i: int)
    requires
        s.well_formed(),
        s.lifecycle() is Created,
        0 <= i < s.output_count(),
    ensures
        s.dispatch_log().len() == 0,
        s.received_of(i).len() == 0,
{
    assert(s.registry.slot_consistent(i));
}

/// Every consumer's log is exactly the suffix of the dispatch log from its
/// registration position on: it has received, in dispatch order and with no
/// gap, every buffer dispatched since it registered, and nothing else.
pub proof fn lemma_consumer_sees_dispatch_suffix(s: SCStream, i: int)
    requires
        s.well_formed(),
        0 <= i < s.output_count(),
    ensures
        s.registered_of(i) + s.received_of(i).len() == s.dispatch_log().len(),
        forall|j: int|
            0 <= j < s.received_of(i).len() ==> #[trigger] s.received_of(i)[j].buffer
                == s.dispatch_log()[s.registered_of(i) + j],
{
    assert(s.registry.slot_consistent(i));
}

/// A consumer registered before the first dispatch — in particular, one
/// registered before `start_capture`, since nothing is dispatched before
/// capturing begins — receives every dispatched buffer, in exactly the order
/// delivered, with no gaps.
pub proof fn lemma_early_consumer_sees_everything(s: SCStream, i: int)
    requires
        s.well_formed(),
        0 <= i < s.output_count(),
        s.registered_of(i) == 0,
    ensures
        s.received_of(i).len() == s.dispatch_log().len(),
        forall|j: int|
            0 <= j < s.dispatch_log().len() ==> #[trigger] s.received_of(i)[j].buffer
                == s.dispatch_log()[j],
{
    lemma_consumer_sees_dispatch_suffix(s, i);
}

} // verus!
