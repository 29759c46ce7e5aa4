//! Capability and status flag words.
//!
//! The headset driver describes what a device can do with bitmask words:
//! one word for head-mounted-display capabilities, one for tracking
//! capabilities, one for distortion-rendering capabilities, and one for the
//! sensor status reported with each tracking sample. Each word gets a typed
//! wrapper here; a flag is read by masking, and written by setting or
//! clearing its mask while leaving every other bit alone.

use vstd::prelude::*;

verus! {

/// Device is plugged in.
pub const HMD_CAP_PRESENT: u32 = 0x0001;
/// Device is available for use.
pub const HMD_CAP_AVAILABLE: u32 = 0x0002;
/// Low-persistence display mode.
pub const HMD_CAP_LOW_PERSISTENCE: u32 = 0x0080;
/// Latency-testing hardware support.
pub const HMD_CAP_LATENCY_TEST: u32 = 0x0100;
/// Adaptive motion-prediction mode.
pub const HMD_CAP_DYNAMIC_PREDICTION: u32 = 0x0200;
/// Vertical synchronisation turned off.
pub const HMD_CAP_NO_VSYNC: u32 = 0x1000;
/// Display settings are not restored on shutdown.
pub const HMD_CAP_NO_RESTORE: u32 = 0x4000;
/// The capability bits a caller may change; the rest are read-only facts
/// about the device.
pub const HMD_CAP_WRITABLE_MASK: u32 = 0x1380;

/// Orientation tracking.
pub const TRACKING_CAP_ORIENTATION: u32 = 0x0010;
/// Yaw correction from the magnetometer.
pub const TRACKING_CAP_MAG_YAW_CORRECTION: u32 = 0x0020;
/// Positional tracking from the external camera.
pub const TRACKING_CAP_POSITION: u32 = 0x0040;
/// Tracking kept alive while the application idles.
pub const TRACKING_CAP_IDLE: u32 = 0x0100;

/// Chromatic-aberration correction.
pub const DISTORTION_CAP_CHROMATIC: u32 = 0x01;
/// Timewarp reprojection.
pub const DISTORTION_CAP_TIME_WARP: u32 = 0x02;
/// Vignette fade at the lens edge.
pub const DISTORTION_CAP_VIGNETTE: u32 = 0x08;

/// Orientation is currently tracked.
pub const STATUS_ORIENTATION_TRACKED: u32 = 0x0001;
/// Position is currently tracked.
pub const STATUS_POSITION_TRACKED: u32 = 0x0002;
/// The positional-tracking camera is connected.
pub const STATUS_POSITION_CONNECTED: u32 = 0x0020;
/// The headset itself is connected.
pub const STATUS_HMD_CONNECTED: u32 = 0x0080;

/// A flag is set in a flag word when every bit of its mask is set.
pub open spec fn has_flag(flags: u32, mask: u32) -> bool {
    flags & mask == mask
}

/// The flag word after one flag has been switched on or off: its mask is
/// set or cleared, nothing else is touched.
pub open spec fn write_flag(flags: u32, mask: u32, value: bool) -> u32 {
    if value {
        flags | mask
    } else {
        flags & !mask
    }
}

/// Law: writing a flag and then testing that same flag reads back exactly
/// the value that was written, for any non-empty mask.
pub proof fn lemma_write_then_read(flags: u32, mask: u32, value: bool)
    by (bit_vector)
    requires
        mask != 0,
    ensures
        has_flag(write_flag(flags, mask, value), mask) == value,
{
}

/// Law: writing a flag leaves every flag whose mask is disjoint from the
/// written one unchanged.
pub proof fn lemma_write_preserves_disjoint(flags: u32, mask: u32, other: u32, value: bool)
    by (bit_vector)
    requires
        mask & other == 0,
    ensures
        has_flag(write_flag(flags, mask, value), other) == has_flag(flags, other),
{
}

/// Law: the writable-capabilities mask covers exactly the low-persistence,
/// latency-test, dynamic-prediction and no-vsync flags.
pub proof fn lemma_writable_mask_composition()
    by (bit_vector)
    ensures
        HMD_CAP_WRITABLE_MASK == HMD_CAP_LOW_PERSISTENCE | HMD_CAP_LATENCY_TEST
            | HMD_CAP_DYNAMIC_PREDICTION | HMD_CAP_NO_VSYNC,
{
}

/// The head-mounted-display capability word of a device.
#[derive(Debug, Copy, Clone)]
pub struct HmdCapabilities {
    flags: u32,
}

impl View for HmdCapabilities {
    type V = u32;

    closed spec fn view(&self) -> u32 {
        self.flags
    }
}

impl HmdCapabilities {
    /// Wraps a raw capability word as reported by the driver.
    pub fn from_bits(flags: u32) -> (r: HmdCapabilities)
        ensures
            r@ == flags,
    {
        HmdCapabilities { flags }
    }

    /// The raw capability word, for handing back to the driver.
    pub fn bits(&self) -> (r: u32)
        ensures
            r == self@,
    {
        self.flags
    }

    pub fn present(&self) -> (r: bool)
        ensures
            r == has_flag(self@, HMD_CAP_PRESENT),
    {
        self.flags & HMD_CAP_PRESENT == HMD_CAP_PRESENT
    }

    pub fn available(&self) -> (r: bool)
        ensures
            r == has_flag(self@, HMD_CAP_AVAILABLE),
    {
        self.flags & HMD_CAP_AVAILABLE == HMD_CAP_AVAILABLE
    }

    pub fn low_persistance(&self) -> (r: bool)
        ensures
            r == has_flag(self@, HMD_CAP_LOW_PERSISTENCE),
    {
        self.flags & HMD_CAP_LOW_PERSISTENCE == HMD_CAP_LOW_PERSISTENCE
    }

    pub fn set_low_persistance(&self, flag: bool) -> (r: HmdCapabilities)
        ensures
            r@ == write_flag(self@, HMD_CAP_LOW_PERSISTENCE, flag),
    {
        HmdCapabilities {
            flags: if flag {
                self.flags | HMD_CAP_LOW_PERSISTENCE
            } else {
                self.flags & !HMD_CAP_LOW_PERSISTENCE
            },
        }
    }

    pub fn latency_test(&self) -> (r: bool)
        ensures
            r == has_flag(self@, HMD_CAP_LATENCY_TEST),
    {
        self.flags & HMD_CAP_LATENCY_TEST == HMD_CAP_LATENCY_TEST
    }

    pub fn set_latency_test(&self, flag: bool) -> (r: HmdCapabilities)
        ensures
            r@ == write_flag(self@, HMD_CAP_LATENCY_TEST, flag),
    {
        HmdCapabilities {
            flags: if flag {
                self.flags | HMD_CAP_LATENCY_TEST
            } else {
                self.flags & !HMD_CAP_LATENCY_TEST
            },
        }
    }

    pub fn dynamic_prediction(&self) -> (r: bool)
        ensures
            r == has_flag(self@, HMD_CAP_DYNAMIC_PREDICTION),
    {
        self.flags & HMD_CAP_DYNAMIC_PREDICTION == HMD_CAP_DYNAMIC_PREDICTION
    }

    pub fn set_dynamic_prediction(&self, flag: bool) -> (r: HmdCapabilities)
        ensures
            r@ == write_flag(self@, HMD_CAP_DYNAMIC_PREDICTION, flag),
    {
        HmdCapabilities {
            flags: if flag {
                self.flags | HMD_CAP_DYNAMIC_PREDICTION
            } else {
                self.flags & !HMD_CAP_DYNAMIC_PREDICTION
            },
        }
    }

    pub fn no_vsync(&self) -> (r: bool)
        ensures
            r == has_flag(self@, HMD_CAP_NO_VSYNC),
    {
        self.flags & HMD_CAP_NO_VSYNC == HMD_CAP_NO_VSYNC
    }

    pub fn set_no_vsync(&self, flag: bool) -> (r: HmdCapabilities)
        ensures
            r@ == write_flag(self@, HMD_CAP_NO_VSYNC, flag),
    {
        HmdCapabilities {
            flags: if flag {
                self.flags | HMD_CAP_NO_VSYNC
            } else {
                self.flags & !HMD_CAP_NO_VSYNC
            },
        }
    }

    pub fn no_restore(&self) -> (r: bool)
        ensures
            r == has_flag(self@, HMD_CAP_NO_RESTORE),
    {
        self.flags & HMD_CAP_NO_RESTORE == HMD_CAP_NO_RESTORE
    }
}

/// The tracking capability word of a device.
#[derive(Debug, Copy, Clone)]
pub struct TrackingCapabilities {
    flags: u32,
}

impl View for TrackingCapabilities {
    type V = u32;

    closed spec fn view(&self) -> u32 {
        self.flags
    }
}

impl TrackingCapabilities {
    /// An empty word: no tracking capability requested.
    pub fn new() -> (r: TrackingCapabilities)
        ensures
            r@ == 0,
    {
        TrackingCapabilities { flags: 0 }
    }

    /// Wraps a raw tracking word as reported by the driver.
    pub fn from_bits(flags: u32) -> (r: TrackingCapabilities)
        ensures
            r@ == flags,
    {
        TrackingCapabilities { flags }
    }

    /// The raw tracking word, for handing back to the driver.
    pub fn bits(&self) -> (r: u32)
        ensures
            r == self@,
    {
        self.flags
    }

    pub fn orientation(&self) -> (r: bool)
        ensures
            r == has_flag(self@, TRACKING_CAP_ORIENTATION),
    {
        self.flags & TRACKING_CAP_ORIENTATION == TRACKING_CAP_ORIENTATION
    }

    pub fn yaw_correction(&self) -> (r: bool)
        ensures
            r == has_flag(self@, TRACKING_CAP_MAG_YAW_CORRECTION),
    {
        self.flags & TRACKING_CAP_MAG_YAW_CORRECTION == TRACKING_CAP_MAG_YAW_CORRECTION
    }

    pub fn position(&self) -> (r: bool)
        ensures
            r == has_flag(self@, TRACKING_CAP_POSITION),
    {
        self.flags & TRACKING_CAP_POSITION == TRACKING_CAP_POSITION
    }

    pub fn idle(&self) -> (r: bool)
        ensures
            r == has_flag(self@, TRACKING_CAP_IDLE),
    {
        self.flags & TRACKING_CAP_IDLE == TRACKING_CAP_IDLE
    }

    pub fn set_orientation(&self, flag: bool) -> (r: TrackingCapabilities)
        ensures
            r@ == write_flag(self@, TRACKING_CAP_ORIENTATION, flag),
    {
        TrackingCapabilities {
            flags: if flag {
                self.flags | TRACKING_CAP_ORIENTATION
            } else {
                self.flags & !TRACKING_CAP_ORIENTATION
            },
        }
    }

    pub fn set_yaw_correction(&self, flag: bool) -> (r: TrackingCapabilities)
        ensures
            r@ == write_flag(self@, TRACKING_CAP_MAG_YAW_CORRECTION, flag),
    {
        TrackingCapabilities {
            flags: if flag {
                self.flags | TRACKING_CAP_MAG_YAW_CORRECTION
            } else {
                self.flags & !TRACKING_CAP_MAG_YAW_CORRECTION
            },
        }
    }

    pub fn set_position(&self, flag: bool) -> (r: TrackingCapabilities)
        ensures
            r@ == write_flag(self@, TRACKING_CAP_POSITION, flag),
    {
        TrackingCapabilities {
            flags: if flag {
                self.flags | TRACKING_CAP_POSITION
            } else {
                self.flags & !TRACKING_CAP_POSITION
            },
        }
    }

    pub fn set_idle(&self, flag: bool) -> (r: TrackingCapabilities)
        ensures
            r@ == write_flag(self@, TRACKING_CAP_IDLE, flag),
    {
        TrackingCapabilities {
            flags: if flag {
                self.flags | TRACKING_CAP_IDLE
            } else {
                self.flags & !TRACKING_CAP_IDLE
            },
        }
    }
}

/// The distortion-rendering capability word of a device.
#[derive(Debug, Copy, Clone)]
pub struct DistortionCapabilities {
    flags: u32,
}

impl View for DistortionCapabilities {
    type V = u32;

    closed spec fn view(&self) -> u32 {
        self.flags
    }
}

impl DistortionCapabilities {
    /// An empty word: no distortion capability requested.
    pub fn new() -> (r: DistortionCapabilities)
        ensures
            r@ == 0,
    {
        DistortionCapabilities { flags: 0 }
    }

    /// Wraps a raw distortion word as reported by the driver.
    pub fn from_bits(flags: u32) -> (r: DistortionCapabilities)
        ensures
            r@ == flags,
    {
        DistortionCapabilities { flags }
    }

    /// The raw distortion word, for handing back to the driver.
    pub fn bits(&self) -> (r: u32)
        ensures
            r == self@,
    {
        self.flags
    }

    pub fn chromatic(&self) -> (r: bool)
        ensures
            r == has_flag(self@, DISTORTION_CAP_CHROMATIC),
    {
        self.flags & DISTORTION_CAP_CHROMATIC == DISTORTION_CAP_CHROMATIC
    }

    pub fn timewarp(&self) -> (r: bool)
        ensures
            r == has_flag(self@, DISTORTION_CAP_TIME_WARP),
    {
        self.flags & DISTORTION_CAP_TIME_WARP == DISTORTION_CAP_TIME_WARP
    }

    pub fn vignette(&self) -> (r: bool)
        ensures
            r == has_flag(self@, DISTORTION_CAP_VIGNETTE),
    {
        self.flags & DISTORTION_CAP_VIGNETTE == DISTORTION_CAP_VIGNETTE
    }

    pub fn set_chromatic(&self, flag: bool) -> (r: DistortionCapabilities)
        ensures
            r@ == write_flag(self@, DISTORTION_CAP_CHROMATIC, flag),
    {
        DistortionCapabilities {
            flags: if flag {
                self.flags | DISTORTION_CAP_CHROMATIC
            } else {
                self.flags & !DISTORTION_CAP_CHROMATIC
            },
        }
    }

    pub fn set_timewarp(&self, flag: bool) -> (r: DistortionCapabilities)
        ensures
            r@ == write_flag(self@, DISTORTION_CAP_TIME_WARP, flag),
    {
        DistortionCapabilities {
            flags: if flag {
                self.flags | DISTORTION_CAP_TIME_WARP
            } else {
                self.flags & !DISTORTION_CAP_TIME_WARP
            },
        }
    }

    pub fn set_vignette(&self, flag: bool) -> (r: DistortionCapabilities)
        ensures
            r@ == write_flag(self@, DISTORTION_CAP_VIGNETTE, flag),
    {
        DistortionCapabilities {
            flags: if flag {
                self.flags | DISTORTION_CAP_VIGNETTE
            } else {
                self.flags & !DISTORTION_CAP_VIGNETTE
            },
        }
    }
}

/// The sensor status word reported with each tracking sample.
#[derive(Debug, Copy, Clone)]
pub struct Status {
    flags: u32,
}

impl View for Status {
    type V = u32;

    closed spec fn view(&self) -> u32 {
        self.flags
    }
}

impl Status {
    /// Wraps a raw status word as reported with a tracking sample.
    pub fn from_bits(flags: u32) -> (r: Status)
        ensures
            r@ == flags,
    {
        Status { flags }
    }

    /// The raw status word.
    pub fn bits(&self) -> (r: u32)
        ensures
            r == self@,
    {
        self.flags
    }

    pub fn orientation_tracked(&self) -> (r: bool)
        ensures
            r == has_flag(self@, STATUS_ORIENTATION_TRACKED),
    {
        self.flags & STATUS_ORIENTATION_TRACKED == STATUS_ORIENTATION_TRACKED
    }

    pub fn position_tracked(&self) -> (r: bool)
        ensures
            r == has_flag(self@, STATUS_POSITION_TRACKED),
    {
        self.flags & STATUS_POSITION_TRACKED == STATUS_POSITION_TRACKED
    }

    pub fn position_connected(&self) -> (r: bool)
        ensures
            r == has_flag(self@, STATUS_POSITION_CONNECTED),
    {
        self.flags & STATUS_POSITION_CONNECTED == STATUS_POSITION_CONNECTED
    }

    pub fn hmd_connected(&self) -> (r: bool)
        ensures
            r == has_flag(self@, STATUS_HMD_CONNECTED),
    {
        self.flags & STATUS_HMD_CONNECTED == STATUS_HMD_CONNECTED
    }
}

} // verus!
