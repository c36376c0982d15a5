use kamera::sample_buffer::SampleBuffer;
use kamera::{Camera, CameraInfo, SessionState};

fn two_devices() -> Vec<CameraInfo> {
    vec![
        CameraInfo { id: "dev-0".to_string(), label: "Front".to_string() },
        CameraInfo { id: "dev-1".to_string(), label: "Back".to_string() },
    ]
}

fn sample(id: u64, width: u32, height: u32) -> SampleBuffer {
    let data = vec![id as u8; (width * height * 4) as usize];
    SampleBuffer::new(id, width, height, data)
}

#[test]
fn new_default_device() {
    let camera = Camera::new_default_device(two_devices());
    assert_eq!(camera.state(), SessionState::Configured);
    assert_eq!(camera.device_name(), "Front");
}

#[test]
fn start() {
    let mut camera = Camera::new_default_device(two_devices());
    camera.start();
    assert_eq!(camera.state(), SessionState::Running);
}

#[test]
fn start_stop() {
    let mut camera = Camera::new_default_device(two_devices());
    camera.start();
    camera.stop();
    assert_eq!(camera.state(), SessionState::Stopped);
}

#[test]
fn stop_without_start() {
    let mut camera = Camera::new_default_device(two_devices());
    camera.stop();
    assert_eq!(camera.state(), SessionState::Stopped);
    // A consumer waking after the stop finds nothing and returns None.
    assert!(camera.wait_for_frame().is_none());
}

#[test]
fn start_and_wait_for_frames() {
    let mut camera = Camera::new_default_device(two_devices());
    camera.start();
    camera.on_output_sample_buffer(sample(1, 4, 2));
    assert!(camera.wait_for_frame().is_some());
    camera.on_output_sample_buffer(sample(2, 4, 2));
    assert!(camera.wait_for_frame().is_some());
    camera.on_output_sample_buffer(sample(3, 4, 2));
    assert!(camera.wait_for_frame().is_some());
    println!("{:?}", camera.wait_for_frame().is_none());
}

#[test]
fn excessive_start_calls() {
    let mut camera = Camera::new_default_device(two_devices());
    camera.start();
    camera.start();
    camera.on_output_sample_buffer(sample(1, 4, 2));
    assert!(camera.wait_for_frame().is_some());
    camera.start();
    camera.on_output_sample_buffer(sample(2, 4, 2));
    assert!(camera.wait_for_frame().is_some());
    camera.on_output_sample_buffer(sample(3, 4, 2));
    assert!(camera.wait_for_frame().is_some());
    camera.start();
    camera.start();
    assert_eq!(camera.state(), SessionState::Running);
}

#[test]
fn frame_size() {
    let mut camera = Camera::new_default_device(two_devices());
    camera.start();
    camera.on_output_sample_buffer(sample(1, 640, 480));
    let frame = camera.wait_for_frame().unwrap();
    assert!(frame.size_u32().0 > 0 && frame.size_u32().1 > 0);
    assert_eq!(frame.size_u32(), (640, 480));
}

#[test]
fn frame_data() {
    let mut camera = Camera::new_default_device(two_devices());
    camera.start();
    camera.on_output_sample_buffer(sample(7, 4, 2));
    let frame = camera.wait_for_frame().unwrap();
    let (w, h) = frame.size_u32();
    let data1 = frame.data();
    let data2 = frame.data();
    println!("data len {}", data1.data_u32().len());
    assert_eq!(data1.data_u32().len(), (w * h) as usize);
    let a = data1.data_u32();
    let b = data2.data_u32();
    assert_eq!(a, b);
}

#[test]
fn two_cameras_start_and_wait_for_frames() {
    let mut camera1 = Camera::new_default_device(two_devices());
    camera1.start();
    camera1.on_output_sample_buffer(sample(1, 4, 2));
    assert!(camera1.wait_for_frame().is_some());
    let mut camera2 = Camera::new_default_device(two_devices());
    camera2.start();
    camera2.on_output_sample_buffer(sample(2, 4, 2));
    assert!(camera2.wait_for_frame().is_some());
    camera1.on_output_sample_buffer(sample(3, 4, 2));
    assert!(camera1.wait_for_frame().is_some());
}

#[test]
fn change_device() {
    let mut camera = Camera::new_default_device(two_devices());
    camera.start();
    for id in 1..=3 {
        camera.on_output_sample_buffer(sample(id, 4, 2));
        assert!(camera.wait_for_frame().is_some());
    }
    camera.change_device();
    // The hot-swap keeps the session running and rotates to the next device.
    assert_eq!(camera.state(), SessionState::Running);
    assert_eq!(camera.device_name(), "Back");
    for id in 4..=6 {
        camera.on_output_sample_buffer(sample(id, 4, 2));
        assert!(camera.wait_for_frame().is_some());
    }
}

#[test]
fn change_device_rebuilds_mailbox() {
    let mut camera = Camera::new_default_device(two_devices());
    camera.start();
    camera.on_output_sample_buffer(sample(1, 4, 2));
    camera.on_output_sample_buffer(sample(2, 4, 2));
    assert_eq!(camera.mailbox().generation(), 2);
    camera.change_device();
    // A fresh mailbox: generation starts over, the undelivered sample was
    // released.
    assert_eq!(camera.mailbox().generation(), 0);
    assert_eq!(camera.mailbox().released_ids(), &vec![1, 2]);
    camera.on_output_sample_buffer(sample(3, 4, 2));
    let frame = camera.wait_for_frame().unwrap();
    assert_eq!(frame.generation(), 1);
}

#[test]
fn change_device_single_device_is_noop() {
    let one = vec![CameraInfo { id: "only".to_string(), label: "Only".to_string() }];
    let mut camera = Camera::new_default_device(one);
    camera.start();
    camera.on_output_sample_buffer(sample(1, 4, 2));
    camera.change_device();
    assert_eq!(camera.device_name(), "Only");
    // Nothing was rebuilt: the pending sample is still there.
    assert!(camera.wait_for_frame().is_some());
}

#[test]
fn change_device_wraps_around() {
    let mut camera = Camera::new_default_device(two_devices());
    camera.change_device();
    assert_eq!(camera.device_name(), "Back");
    camera.change_device();
    assert_eq!(camera.device_name(), "Front");
    assert_eq!(camera.state(), SessionState::Configured);
}

#[test]
fn stop_wakes_waiters() {
    let mut camera = Camera::new_default_device(two_devices());
    camera.start();
    camera.on_output_sample_buffer(sample(1, 4, 2));
    camera.stop();
    // The mailbox is closed and empty: a woken waiter returns None instead
    // of sleeping again, and the undelivered sample was released.
    assert!(!camera.mailbox().is_open());
    assert!(!camera.mailbox().has_sample());
    assert!(camera.wait_for_frame().is_none());
    assert_eq!(camera.mailbox().released_ids(), &vec![1]);
}

#[test]
fn enumerate_cameras_is_pure() {
    let mut camera = Camera::new_default_device(two_devices());
    let before = camera.enumerate_cameras();
    camera.start();
    camera.on_output_sample_buffer(sample(1, 4, 2));
    let _ = camera.wait_for_frame();
    let after = camera.enumerate_cameras();
    assert_eq!(before.len(), after.len());
    assert_eq!(camera.state(), SessionState::Running);
    for (x, y) in before.iter().zip(after.iter()) {
        assert_eq!(x.id, y.id);
        assert_eq!(x.label, y.label);
    }
}

#[test]
fn error_needs_fresh_construction() {
    let mut camera = Camera::new_default_device(two_devices());
    camera.start();
    camera.on_backend_error();
    assert_eq!(camera.state(), SessionState::Error);
    camera.start();
    assert_eq!(camera.state(), SessionState::Error);
    camera.stop();
    assert_eq!(camera.state(), SessionState::Error);
    assert!(camera.wait_for_frame().is_none());
}
