//! The caller-facing data model of the capture API: device descriptions,
//! session states, events, and the constraint/capability/settings triple a
//! caller negotiates a format with.

use vstd::prelude::*;

verus! {

/// Immutable description of one enumerable capture device.
#[derive(Debug)]
pub struct CameraInfo {
    pub id: String,
    pub label: String,
}

impl Default for CameraInfo {
    /// The description of no device at all: empty id and label.
    fn default() -> (r: Self)
        ensures
            r.id@ == Seq::<char>::empty(),
            r.label@ == Seq::<char>::empty(),
    {
        CameraInfo { id: String::new(), label: String::new() }
    }
}

/// The mathematical image of a [`CameraInfo`].
pub struct CameraInfoView {
    pub id: Seq<char>,
    pub label: Seq<char>,
}

impl View for CameraInfo {
    type V = CameraInfoView;

    open spec fn view(&self) -> CameraInfoView {
        CameraInfoView { id: self.id@, label: self.label@ }
    }
}

impl Clone for CameraInfo {
    fn clone(&self) -> (r: Self)
        ensures
            r@ == self@,
    {
        CameraInfo { id: self.id.clone(), label: self.label.clone() }
    }
}

/// The raw pixel layouts a backend may hand over.
#[derive(Debug)]
pub enum RawFormat {
    ARGB,
    BGRA,
    RGBA,
}

/// The caller-visible lifecycle of a camera.
#[derive(Debug)]
pub enum State {
    NoCamera,
    Playing,
    Paused,
    Stopped,
    Error,
}

/// What a caller polling the camera may be told has happened.
#[derive(Debug)]
pub enum CameraEvent {
    Frame,
    StateChange,
}

/// A requested device change.
#[derive(Debug)]
pub enum CameraChange {
    Next,
}

/// A caller's wish for one format dimension.
#[derive(Debug)]
pub enum Constraint<T> {
    Any,
    Pref(T),
}

impl<T> Default for Constraint<T> {
    /// No preference.
    fn default() -> (r: Self)
        ensures
            r is Any,
    {
        Constraint::Any
    }
}

/// What a device can actually do in one format dimension.
#[derive(Debug)]
pub enum Capability<T> {
    Any,
    Range(T, T),
}

impl<T> Default for Capability<T> {
    /// Unconstrained.
    fn default() -> (r: Self)
        ensures
            r is Any,
    {
        Capability::Any
    }
}

/// The caller's wishes for the negotiated format.
#[derive(Debug)]
pub struct CameraConstraints {
    pub width: Constraint<u32>,
    pub height: Constraint<u32>,
    pub frame_rate: Constraint<u32>,
}

/// The device's abilities for the negotiated format.
#[derive(Debug)]
pub struct CameraCapabilities {
    pub width: Capability<u32>,
    pub height: Capability<u32>,
    pub frame_rate: Capability<u32>,
}

/// The format actually negotiated.
#[derive(Debug)]
pub struct CameraSettings {
    pub width: u32,
    pub height: u32,
    pub frame_rate: u32,
}

/// One delivered frame as the caller sees it: dimensions, layout, raw bytes,
/// and which device produced it.
#[derive(Debug)]
pub struct CameraFrame {
    pub frame_counter: usize,
    pub width: u32,
    pub height: u32,
    pub raw_format: RawFormat,
    pub raw_data: Vec<u8>,
    pub camera_info: CameraInfo,
}

impl CameraFrame {
    /// An empty frame, for a camera that has not delivered yet.
    pub fn new() -> (r: Self)
        ensures
            r.frame_counter == 0,
            r.width == 0,
            r.height == 0,
            r.raw_data@ == Seq::<u8>::empty(),
    {
        CameraFrame {
            frame_counter: 0,
            width: 0,
            height: 0,
            raw_format: RawFormat::ARGB,
            raw_data: Vec::new(),
            camera_info: CameraInfo::default(),
        }
    }

    /// The frame's width in pixels.
    pub fn width(&self) -> (r: u32)
        ensures
            r == self.width,
    {
        self.width
    }

    /// The frame's height in pixels.
    pub fn height(&self) -> (r: u32)
        ensures
            r == self.height,
    {
        self.height
    }

    /// The frame's raw bytes.
    pub fn pixels(&self) -> (r: &[u8])
        ensures
            r@ == self.raw_data@,
    {
        self.raw_data.as_slice()
    }
}

impl Default for CameraConstraints {
    /// No preference in any dimension.
    fn default() -> (r: Self)
        ensures
            r.width is Any,
            r.height is Any,
            r.frame_rate is Any,
    {
        CameraConstraints {
            width: Constraint::Any,
            height: Constraint::Any,
            frame_rate: Constraint::Any,
        }
    }
}

impl Default for CameraCapabilities {
    /// Unconstrained in every dimension.
    fn default() -> (r: Self)
        ensures
            r.width is Any,
            r.height is Any,
            r.frame_rate is Any,
    {
        CameraCapabilities {
            width: Capability::Any,
            height: Capability::Any,
            frame_rate: Capability::Any,
        }
    }
}

impl Default for CameraSettings {
    /// Nothing negotiated yet.
    fn default() -> (r: Self)
        ensures
            r.width == 0,
            r.height == 0,
            r.frame_rate == 0,
    {
        CameraSettings { width: 0, height: 0, frame_rate: 0 }
    }
}

/// Everything a caller can ask about a session in one value.
#[derive(Debug)]
pub struct CameraState {
    pub state: State,
    pub raw_format: RawFormat,
    pub constraints: CameraConstraints,
    pub capabilities: CameraCapabilities,
    pub setting: CameraSettings,
    pub camera_info: CameraInfo,
    pub available_cameras: Vec<CameraInfo>,
}

impl CameraState {
    /// The state before any device was opened.
    pub fn new() -> (r: Self)
        ensures
            r.state is NoCamera,
            r.available_cameras@ == Seq::<CameraInfo>::empty(),
    {
        CameraState {
            state: State::NoCamera,
            raw_format: RawFormat::ARGB,
            constraints: CameraConstraints::default(),
            capabilities: CameraCapabilities::default(),
            setting: CameraSettings::default(),
            camera_info: CameraInfo::default(),
            available_cameras: Vec::new(),
        }
    }
}

} // verus!
