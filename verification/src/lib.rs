//! Safe, verified core of an Oculus head-mounted-display wrapper.
//!
//! The device capabilities reported by the headset driver arrive as plain
//! flag words; this crate gives each flag word a typed wrapper whose bit
//! tests and bit updates carry proofs, together with the enumeration codes
//! (device model, eye selection) and the per-eye container that the
//! rendering interface is organised around.

pub mod caps;
pub mod eye;
pub mod geom;
pub mod hmd_type;

pub use caps::{DistortionCapabilities, HmdCapabilities, Status, TrackingCapabilities};
pub use eye::{Eye, PerEye};
pub use geom::{Recti, Sizei, Texture, Vector2i};
pub use hmd_type::HmdType;
