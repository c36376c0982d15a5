//! The capture-session controller: the caller-facing `Camera` that owns the
//! frame mailbox and runs the session state machine (configure, start, stop,
//! device hot-swap), plus the `Frame` a successful pull hands out and the
//! borrowed `FrameData` view over its bytes.
//!
//! The native side — device discovery, session objects, the delivery
//! callback, blocking — lives outside this crate. It hands the controller a
//! device list at construction, feeds delivered samples in through
//! [`Camera::on_output_sample_buffer`], and loops around
//! [`Camera::wait_for_frame`] under the mailbox's condition variable.

use vstd::prelude::*;

verus! {

use crate::camera_idea::{CameraInfo, CameraInfoView};
use crate::sample_buffer::{le_word_at, words_of, SampleBuffer, SampleView};
use crate::slot::{
    close_trans, push_trans, reopen_trans, reset_trans, slot_init, slot_wf, take_result,
    take_trans, Slot, SlotView,
};

/// The lifecycle of one capture session.
#[derive(Clone, Copy, Debug, PartialEq, Eq, Structural)]
pub enum SessionState {
    Uninitialized,
    Configured,
    Running,
    Stopped,
    Error,
}

/// The device list as the contracts see it.
pub open spec fn infos_view(s: Seq<CameraInfo>) -> Seq<CameraInfoView> {
    s.map_values(|c: CameraInfo| c@)
}

/// The mathematical image of a controller: its state, its mailbox, the
/// devices it knows, and which of them is active.
#[verifier::ext_equal]
pub struct CameraView {
    pub state: SessionState,
    pub slot: SlotView,
    pub devices: Seq<CameraInfoView>,
    pub device_index: int,
}

/// Well-formedness of a controller: at least one device, the active index in
/// range, and a well-formed mailbox.
pub open spec fn camera_wf(c: CameraView) -> bool {
    &&& c.devices.len() > 0
    &&& 0 <= c.device_index < c.devices.len()
    &&& slot_wf(c.slot)
    &&& (c.state is Running ==> c.slot.open)
}

/// What `start` does: nothing on a failed session, otherwise the session
/// runs and the mailbox accepts pushes again. Starting twice is starting
/// once.
pub open spec fn start_trans(c: CameraView) -> CameraView {
    if c.state is Error {
        c
    } else {
        CameraView { state: SessionState::Running, slot: reopen_trans(c.slot), ..c }
    }
}

/// What `stop` does: nothing on a failed session, otherwise the session
/// stops and the mailbox closes, releasing its held sample — which is what
/// lets every blocked waiter return empty. Stopping without a start, or
/// twice, is harmless.
pub open spec fn stop_trans(c: CameraView) -> CameraView {
    if c.state is Error {
        c
    } else {
        CameraView { state: SessionState::Stopped, slot: close_trans(c.slot), ..c }
    }
}

/// What a native delivery does: a push into the mailbox.
pub open spec fn deliver_trans(c: CameraView, v: SampleView) -> CameraView {
    CameraView { slot: push_trans(c.slot, v), ..c }
}

/// What a pull does to the controller: the mailbox hands out its held
/// sample.
pub open spec fn wait_trans(c: CameraView) -> CameraView {
    CameraView { slot: take_trans(c.slot), ..c }
}

/// What a surfaced native error does: the session fails and the mailbox
/// closes; only a fresh construction recovers from here.
pub open spec fn error_trans(c: CameraView) -> CameraView {
    CameraView { state: SessionState::Error, slot: close_trans(c.slot), ..c }
}

/// What a device hot-swap does: nothing on a failed session or when there is
/// no other device to rotate to; otherwise the next device (in enumeration
/// order, wrapping around) becomes active and the mailbox is rebuilt fresh
/// at generation zero — open exactly when the session was running, so the
/// running/stopped state survives the swap.
pub open spec fn change_trans(c: CameraView) -> CameraView {
    if c.state is Error || c.devices.len() <= 1 {
        c
    } else {
        CameraView {
            device_index: (c.device_index + 1) % (c.devices.len() as int),
            slot: reset_trans(c.slot, c.state is Running),
            ..c
        }
    }
}

/// The capture-session controller for one open camera. See the module
/// documentation.
pub struct Camera {
    state: SessionState,
    slot: Slot,
    devices: Vec<CameraInfo>,
    device_index: usize,
}

impl View for Camera {
    type V = CameraView;

    closed spec fn view(&self) -> CameraView {
        CameraView {
            state: self.state,
            slot: self.slot@,
            devices: infos_view(self.devices@),
            device_index: self.device_index as int,
        }
    }
}

impl Camera {
    /// Opens a camera on the first of the enumerated devices: device chosen,
    /// mailbox created, session configured but not yet running. A camera
    /// cannot exist without a device, so the list must not be empty; the
    /// embedding fails fatally before this point when enumeration comes back
    /// empty.
    pub fn new_default_device(devices: Vec<CameraInfo>) -> (c: Camera)
        requires
            devices@.len() > 0,
        ensures
            c@ == (CameraView {
                state: SessionState::Configured,
                slot: slot_init(),
                devices: infos_view(devices@),
                device_index: 0,
            }),
            camera_wf(c@),
    {
        proof {
            crate::slot::lemma_init_wf();
        }
        Camera { state: SessionState::Configured, slot: Slot::new(), devices, device_index: 0 }
    }

    /// Idempotent transition to `Running`; a no-op on a failed session and
    /// on one already running.
    pub fn start(&mut self)
        requires
            camera_wf(old(self)@),
        ensures
            final(self)@ == start_trans(old(self)@),
            camera_wf(final(self)@),
    {
        proof {
            crate::slot::lemma_event_preserves_wf(
                old(self)@.slot,
                crate::slot::SlotEvent::Reopen,
            );
        }
        match self.state {
            SessionState::Error => {},
            _ => {
                self.state = SessionState::Running;
                self.slot.reopen();
            },
        }
    }

    /// Idempotent transition to `Stopped`; safe without a prior start. The
    /// mailbox closes and releases its held sample, so a thread blocked in
    /// `wait_for_frame` wakes and returns `None`.
    pub fn stop(&mut self)
        requires
            camera_wf(old(self)@),
        ensures
            final(self)@ == stop_trans(old(self)@),
            camera_wf(final(self)@),
    {
        proof {
            crate::slot::lemma_event_preserves_wf(old(self)@.slot, crate::slot::SlotEvent::Close);
        }
        match self.state {
            SessionState::Error => {},
            _ => {
                self.state = SessionState::Stopped;
                self.slot.close();
            },
        }
    }

    /// Rotates to the next enumerable device, keeping the running/stopped
    /// state of the session unchanged across the swap. The mailbox is
    /// rebuilt fresh (it is bound to the old delivery identity), so the
    /// generation counter starts over at zero. With a single device there is
    /// nothing to rotate to and nothing happens.
    pub fn change_device(&mut self)
        requires
            camera_wf(old(self)@),
        ensures
            final(self)@ == change_trans(old(self)@),
            camera_wf(final(self)@),
    {
        match self.state {
            SessionState::Error => {},
            _ => {
                if self.devices.len() > 1 {
                    proof {
                        crate::slot::lemma_event_preserves_wf(
                            old(self)@.slot,
                            crate::slot::SlotEvent::Reset(old(self)@.state is Running),
                        );
                    }
                    self.device_index = (self.device_index + 1) % self.devices.len();
                    let running = match self.state {
                        SessionState::Running => true,
                        _ => false,
                    };
                    self.slot.reset(running);
                }
            },
        }
    }

    /// Records an error surfaced by the native layer (device lost,
    /// permission denied): the session enters `Error`, from which only a
    /// fresh construction recovers, and the mailbox closes so that waiters
    /// wake and return `None`.
    pub fn on_backend_error(&mut self)
        requires
            camera_wf(old(self)@),
        ensures
            final(self)@ == error_trans(old(self)@),
            camera_wf(final(self)@),
    {
        proof {
            crate::slot::lemma_event_preserves_wf(old(self)@.slot, crate::slot::SlotEvent::Close);
        }
        self.state = SessionState::Error;
        self.slot.close();
    }

    /// The pull half of the frame bridge: returns the newest delivered frame
    /// if one is pending, `None` otherwise. The embedding loops around this
    /// under the mailbox's condition variable, so its callers block until a
    /// frame arrives, the session is stopped, or a bounded wait elapses —
    /// the latter two both surface as `None`.
    pub fn wait_for_frame(&mut self) -> (r: Option<Frame>)
        requires
            camera_wf(old(self)@),
        ensures
            final(self)@ == wait_trans(old(self)@),
            camera_wf(final(self)@),
            r is Some <==> take_result(old(self)@.slot) is Some,
            r is Some ==> r.unwrap()@ == (FrameView {
                sample: take_result(old(self)@.slot).unwrap(),
                generation: old(self)@.slot.generation,
            }),
    {
        proof {
            crate::slot::lemma_event_preserves_wf(old(self)@.slot, crate::slot::SlotEvent::Take);
        }
        let generation = self.slot.generation();
        match self.slot.take_sample() {
            Some(sample) => Some(Frame { sample, generation }),
            None => None,
        }
    }

    /// The push half of the frame bridge, called from the native delivery
    /// context with the newest sample: most-recent-wins, releasing the
    /// displaced sample, never blocking the pushing side.
    pub fn on_output_sample_buffer(&mut self, sample: SampleBuffer)
        requires
            camera_wf(old(self)@),
            old(self)@.slot.generation < u64::MAX,
        ensures
            final(self)@ == deliver_trans(old(self)@, sample@),
            camera_wf(final(self)@),
    {
        proof {
            crate::slot::lemma_event_preserves_wf(
                old(self)@.slot,
                crate::slot::SlotEvent::Push(sample@),
            );
        }
        self.slot.push(sample);
    }

    /// A pure query: the devices this camera was opened over, exactly as
    /// enumerated, with no effect on the session.
    pub fn enumerate_cameras(&self) -> (r: Vec<CameraInfo>)
        ensures
            infos_view(r@) == self@.devices,
    {
        let mut out: Vec<CameraInfo> = Vec::new();
        let n = self.devices.len();
        for i in 0..n
            invariant
                n == self.devices@.len(),
                out@.len() == i,
                infos_view(out@) =~= infos_view(self.devices@).take(i as int),
        {
            out.push(self.devices[i].clone());
        }
        proof {
            assert(infos_view(out@) =~= infos_view(self.devices@));
        }
        out
    }

    /// The session's current lifecycle state.
    pub fn state(&self) -> (r: SessionState)
        ensures
            r == self@.state,
    {
        self.state
    }

    /// The label of the active device.
    pub fn device_name(&self) -> (r: String)
        requires
            camera_wf(self@),
        ensures
            r@ == self@.devices[self@.device_index].label,
    {
        self.devices[self.device_index].label.clone()
    }

    /// Read access to the mailbox, for embeddings that drive the push side
    /// and for inspecting the release ledgers.
    pub fn mailbox(&self) -> (r: &Slot)
        ensures
            r@ == self@.slot,
    {
        &self.slot
    }
}

/// The mathematical image of a frame: the sample it owns and the mailbox
/// generation at which it was handed out.
pub struct FrameView {
    pub sample: SampleView,
    pub generation: int,
}

/// One delivered frame: owns exactly one retained sample (and with it the
/// native buffer lock); dropping the frame is what releases that lock, and
/// every borrowed view of the bytes is tied to the frame's lifetime.
pub struct Frame {
    sample: SampleBuffer,
    generation: u64,
}

impl View for Frame {
    type V = FrameView;

    closed spec fn view(&self) -> FrameView {
        FrameView { sample: self.sample@, generation: self.generation as int }
    }
}

impl Frame {
    /// Borrows the frame's bytes; the view cannot outlive the frame, so it
    /// can never be read after the underlying buffer is unlocked.
    pub fn data(&self) -> (r: FrameData<'_>)
        ensures
            r@ == self@.sample,
    {
        FrameData { sample: &self.sample }
    }

    /// The frame's dimensions.
    pub fn size_u32(&self) -> (r: (u32, u32))
        ensures
            r.0 == self@.sample.width,
            r.1 == self@.sample.height,
    {
        (self.sample.width, self.sample.height)
    }

    /// The mailbox generation at which this frame was handed out; two
    /// consumers never observe the same one.
    pub fn generation(&self) -> (r: u64)
        ensures
            r == self@.generation,
    {
        self.generation
    }
}

/// A borrowed view over a frame's pixels, readable as raw bytes or as
/// packed 32-bit words.
pub struct FrameData<'a> {
    sample: &'a SampleBuffer,
}

impl<'a> View for FrameData<'a> {
    type V = SampleView;

    closed spec fn view(&self) -> SampleView {
        self.sample@
    }
}

impl<'a> FrameData<'a> {
    /// The pixel bytes, zero-copy.
    pub fn data_u8(&self) -> (r: &'a [u8])
        ensures
            r@ == self@.data,
    {
        self.sample.data.as_slice()
    }

    /// The pixels as packed little-endian 32-bit words, one per pixel of
    /// the negotiated 32-bit format; bytes past the last whole word are
    /// ignored.
    pub fn data_u32(&self) -> (r: Vec<u32>)
        ensures
            r@ == words_of(self@.data),
    {
        let bytes = &self.sample.data;
        let n = bytes.len() / 4;
        let mut out: Vec<u32> = Vec::new();
        for i in 0..n
            invariant
                n == bytes@.len() / 4,
                bytes@.len() <= usize::MAX,
                out@.len() == i,
                out@ =~= words_of(bytes@).take(i as int),
        {
            let b0 = bytes[4 * i] as u32;
            let b1 = bytes[4 * i + 1] as u32;
            let b2 = bytes[4 * i + 2] as u32;
            let b3 = bytes[4 * i + 3] as u32;
            let word = b0 + b1 * 0x100 + b2 * 0x10000 + b3 * 0x1000000;
            proof {
                assert(word == le_word_at(bytes@, i as int));
            }
            out.push(word);
        }
        proof {
            assert(out@ =~= words_of(self@.data));
        }
        out
    }
}

/// Law (idempotent start): starting twice is starting once; except on a
/// failed session, one start leaves the session `Running`.
pub proof fn lemma_start_idempotent(c: CameraView)
    ensures
        start_trans(start_trans(c)) == start_trans(c),
        !(c.state is Error) ==> start_trans(c).state is Running,
        c.state is Error ==> start_trans(c) == c,
{
}

/// Law (idempotent stop): stopping twice, or without a prior start, is one
/// stop; except on a failed session, one stop leaves the session `Stopped`
/// with a closed, empty mailbox.
pub proof fn lemma_stop_idempotent(c: CameraView)
    ensures
        stop_trans(stop_trans(c)) == stop_trans(c),
        !(c.state is Error) ==> stop_trans(c).state is Stopped,
        !(c.state is Error) ==> !stop_trans(c).slot.open && stop_trans(c).slot.held is None,
        c.state is Error ==> stop_trans(c) == c,
{
    assert(stop_trans(stop_trans(c)).slot =~= stop_trans(c).slot);
    assert(stop_trans(stop_trans(c)) =~= stop_trans(c));
}

/// Law (hot-swap preserves the session state): a device change never moves
/// the state machine; on a running session the rebuilt mailbox accepts
/// pushes, so the next delivered sample is handed out by the next wait.
pub proof fn lemma_change_device_preserves_state(c: CameraView)
    requires
        camera_wf(c),
    ensures
        change_trans(c).state == c.state,
        camera_wf(change_trans(c)),
        c.state is Running ==> change_trans(c).slot.open,
        c.state is Running ==> forall|v: SampleView|
            take_result(#[trigger] push_trans(change_trans(c).slot, v)) == Some(v),
{
    crate::slot::lemma_event_preserves_wf(
        c.slot,
        crate::slot::SlotEvent::Reset(c.state is Running),
    );
    if !(c.state is Error) && c.devices.len() > 1 {
        assert(0 <= (c.device_index + 1) % (c.devices.len() as int) < c.devices.len()) by {
            vstd::arithmetic::div_mod::lemma_mod_bound(
                c.device_index + 1,
                c.devices.len() as int,
            );
        }
    }
}

} // verus!
