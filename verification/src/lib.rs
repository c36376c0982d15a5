//! A cross-platform camera-capture core: the frame-delivery mailbox that
//! bridges an asynchronous native push callback to a synchronous pull API,
//! the capture-session state machine built on top of it, the buffer-lifetime
//! guard over a locked pixel buffer, and the message protocol of the
//! dedicated-thread actor that serializes access to a backend resource.
//!
//! The platform capture engines themselves (device discovery, native session
//! objects, the delivery callback, blocking) sit outside this crate; they
//! hand plain values in and take plain values out.

pub mod camera;
pub mod camera_idea;
pub mod camera_on_thread;
pub mod media_type;
pub mod sample_buffer;
pub mod slot;

pub use camera::Camera;
pub use camera::Frame;
pub use camera::FrameData;
pub use camera::SessionState;
pub use camera_idea::CameraInfo;
pub use camera_on_thread::Message;
pub use camera_on_thread::Response;
