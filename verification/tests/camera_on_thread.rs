use kamera::camera_on_thread::actor_step;
use kamera::sample_buffer::SampleBuffer;
use kamera::{Camera, CameraInfo, Message, Response, SessionState};

fn camera() -> Camera {
    Camera::new_default_device(vec![
        CameraInfo { id: "dev-0".to_string(), label: "Front".to_string() },
        CameraInfo { id: "dev-1".to_string(), label: "Back".to_string() },
    ])
}

fn sample(id: u64) -> SampleBuffer {
    SampleBuffer::new(id, 4, 2, vec![id as u8; 32])
}

#[test]
fn control_messages_are_silent() {
    let mut cam = camera();
    assert!(actor_step(&mut cam, Message::Start).is_none());
    assert_eq!(cam.state(), SessionState::Running);
    assert!(actor_step(&mut cam, Message::ChangeDevice).is_none());
    assert_eq!(cam.state(), SessionState::Running);
    assert!(actor_step(&mut cam, Message::Stop).is_none());
    assert_eq!(cam.state(), SessionState::Stopped);
    assert!(actor_step(&mut cam, Message::NewDefaultDevice).is_none());
}

#[test]
fn enumerate_cameras_answers_the_list() {
    let mut cam = camera();
    match actor_step(&mut cam, Message::EnumerateCameras) {
        Some(Response::EnumerateCameras(list)) => {
            assert_eq!(list.len(), 2);
            assert_eq!(list[0].label, "Front");
            assert_eq!(list[1].label, "Back");
        },
        _ => panic!("expected the device list"),
    }
}

#[test]
fn wait_for_frame_answers_size_and_bytes() {
    let mut cam = camera();
    let _ = actor_step(&mut cam, Message::Start);
    cam.on_output_sample_buffer(sample(3));
    match actor_step(&mut cam, Message::WaitForFrame) {
        Some(Response::WaitForFrame((size, bytes))) => {
            assert_eq!(size, (4, 2));
            assert_eq!(bytes, vec![3u8; 32]);
        },
        _ => panic!("expected a frame"),
    }
}

#[test]
fn wait_for_frame_is_silent_without_a_frame() {
    let mut cam = camera();
    let _ = actor_step(&mut cam, Message::Start);
    assert!(actor_step(&mut cam, Message::WaitForFrame).is_none());
}

#[test]
fn serialized_waits_never_share_a_frame() {
    let mut cam = camera();
    let _ = actor_step(&mut cam, Message::Start);
    cam.on_output_sample_buffer(sample(1));
    // Two callers' requests are served one after the other; only one of
    // them can receive the pending frame.
    let first = actor_step(&mut cam, Message::WaitForFrame);
    let second = actor_step(&mut cam, Message::WaitForFrame);
    assert!(first.is_some());
    assert!(second.is_none());
    cam.on_output_sample_buffer(sample(2));
    let third = actor_step(&mut cam, Message::WaitForFrame);
    assert!(third.is_some());
    assert_eq!(cam.mailbox().taken_ids(), &vec![1, 2]);
}

#[test]
fn frame_generations_increase_across_waits() {
    let mut cam = camera();
    cam.start();
    cam.on_output_sample_buffer(sample(1));
    let g1 = cam.wait_for_frame().unwrap().generation();
    cam.on_output_sample_buffer(sample(2));
    cam.on_output_sample_buffer(sample(3));
    let g2 = cam.wait_for_frame().unwrap().generation();
    assert!(g2 > g1);
    assert_eq!(g1, 1);
    assert_eq!(g2, 3);
}
