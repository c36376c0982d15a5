//! The decision core of the threaded actor wrapper. Some native session
//! objects must only ever be touched from the one thread that created them,
//! so the embedding moves the whole controller onto a dedicated worker
//! thread and carries requests over a bounded command channel, one in
//! flight at a time, with a response channel back. What the worker decides
//! for each request — and what it answers — is the verified step function
//! here; the threads and channels themselves stay in the embedding.

use vstd::prelude::*;

verus! {

use crate::camera::{
    camera_wf, change_trans, infos_view, start_trans, stop_trans, wait_trans, Camera, CameraView,
};
use crate::camera_idea::CameraInfo;
use crate::slot::take_result;

/// A request carried from a caller thread to the worker that owns the
/// camera.
#[derive(Debug)]
pub enum Message {
    NewDefaultDevice,
    EnumerateCameras,
    Start,
    Stop,
    WaitForFrame,
    ChangeDevice,
}

/// A reply carried back to the caller; requests without a payload get no
/// reply.
#[derive(Debug)]
pub enum Response {
    EnumerateCameras(Vec<CameraInfo>),
    WaitForFrame(((u32, u32), Vec<u8>)),
}

/// What one request does to the camera the worker owns. Construction
/// (`NewDefaultDevice`) happens on the worker thread before its loop, so as
/// a step it changes nothing; queries change nothing by definition.
pub open spec fn actor_trans(c: CameraView, m: Message) -> CameraView {
    match m {
        Message::NewDefaultDevice => c,
        Message::EnumerateCameras => c,
        Message::Start => start_trans(c),
        Message::Stop => stop_trans(c),
        Message::WaitForFrame => wait_trans(c),
        Message::ChangeDevice => change_trans(c),
    }
}

/// What reply one request earns, given the camera state it found: device
/// queries answer the device list; a wait answers the pending sample's
/// dimensions and bytes, and stays silent when nothing is pending; control
/// requests are silent.
pub open spec fn response_ok(c: CameraView, m: Message, r: Option<Response>) -> bool {
    match m {
        Message::NewDefaultDevice => r is None,
        Message::Start => r is None,
        Message::Stop => r is None,
        Message::ChangeDevice => r is None,
        Message::EnumerateCameras => r matches Some(Response::EnumerateCameras(list))
            && infos_view(list@) == c.devices,
        Message::WaitForFrame => match take_result(c.slot) {
            Some(v) => r matches Some(Response::WaitForFrame(answer)) && answer.0.0 == v.width
                && answer.0.1 == v.height && answer.1@ == v.data,
            None => r is None,
        },
    }
}

/// One turn of the worker loop: performs the request on the camera it
/// exclusively owns and produces the reply to send back, if any. Because
/// the embedding keeps at most one request in flight, concurrent callers
/// are serialized into a sequence of these steps.
pub fn actor_step(camera: &mut Camera, message: Message) -> (r: Option<Response>)
    requires
        camera_wf(old(camera)@),
    ensures
        final(camera)@ == actor_trans(old(camera)@, message),
        camera_wf(final(camera)@),
        response_ok(old(camera)@, message, r),
{
    match message {
        Message::NewDefaultDevice => None,
        Message::EnumerateCameras => Some(Response::EnumerateCameras(camera.enumerate_cameras())),
        Message::Start => {
            camera.start();
            None
        },
        Message::Stop => {
            camera.stop();
            None
        },
        Message::ChangeDevice => {
            camera.change_device();
            None
        },
        Message::WaitForFrame => match camera.wait_for_frame() {
            Some(frame) => {
                let size = frame.size_u32();
                let data = frame.data();
                let bytes = vstd::slice::slice_to_vec(data.data_u8());
                Some(Response::WaitForFrame((size, bytes)))
            },
            None => None,
        },
    }
}

/// Law (actor serialization): when a wait request finds a pending sample,
/// it consumes it — the mailbox is empty immediately afterwards and the
/// consumed generation rose strictly above every earlier one. So two
/// callers whose wait requests are served back to back can never both
/// receive the same generation of frame.
pub proof fn lemma_actor_wait_serialized(c: CameraView)
    requires
        camera_wf(c),
        take_result(c.slot) is Some,
    ensures
        take_result(actor_trans(c, Message::WaitForFrame).slot) is None,
        actor_trans(c, Message::WaitForFrame).slot.last_taken == c.slot.generation,
        c.slot.generation > c.slot.last_taken,
{
    crate::slot::lemma_takes_strictly_ordered(c.slot);
}

} // verus!
