//! Decisions and data of a webcam bridge that serves a camera, or an animated
//! test card when there is none, over HTTP as an MJPEG stream, with a
//! snapshot, a JSON status, a small control API, a dashboard page and a tray
//! menu.
//!
//! - `text`: decimal rendering and parsing, and character helpers.
//! - `test_card`, `icon`: the generated pictures.
//! - `media`: JPEG frames of the test card and of camera frames.
//! - `capture`: the decisions of the capture loop.
//! - `http`, `dashboard`: routing, replies, the resolution API, status, MJPEG framing.
//! - `devices`, `menu`: the camera list and the tray menu.
pub mod capture;
pub mod dashboard;
pub mod devices;
pub mod http;
pub mod icon;
pub mod media;
pub mod menu;
pub mod test_card;
pub mod text;

pub use devices::CameraDeviceInfo;
pub use test_card::generate_test_card;
