//! The camera driver: its cached state and the decisions it takes around
//! the device calls of each Alpaca operation.

pub mod geometry;
pub mod sensor;
pub mod readout;
pub mod image;
pub mod exposure;
pub mod connect;
pub mod laws;
pub mod setup;

use vstd::prelude::*;
use vstd::string::StrSliceExecFns;
use crate::error::{AscomError, ErrorCode, Reply, require_connected, spec_require_connected};

verus! {

/// A rectangle of the sensor, in binned pixels.
#[derive(Debug, Clone, Copy, PartialEq, Eq, Structural)]
pub struct Roi {
    pub start_x: u32,
    pub start_y: u32,
    pub width: u32,
    pub height: u32,
}

/// The integer part of what the device reports about its chip: the size of
/// a full frame in unbinned pixels and the bits per pixel.
#[derive(Debug, Clone, Copy, PartialEq, Eq, Structural)]
pub struct ChipGeometry {
    pub image_width: u32,
    pub image_height: u32,
    pub bits_per_pixel: u32,
}

/// Whether an exposure is running, and for how long it was asked to run.
#[derive(Debug, Clone, Copy, PartialEq, Eq, Structural)]
pub enum ExposureState {
    Idle,
    Exposing { expected_duration_us: u32 },
}

/// The pixels of a frame, laid out column by column: the value of pixel
/// (x, y) of a `width` by `height` frame is at `x * height + y`.
#[derive(Debug, Clone, PartialEq, Eq)]
pub enum Pixels {
    Eight(Vec<u8>),
    Sixteen(Vec<u16>),
}

/// A frame read from the camera.
#[derive(Debug, Clone, PartialEq, Eq)]
pub struct FrameImage {
    pub width: u32,
    pub height: u32,
    pub pixels: Pixels,
}

/// A camera as the driver knows it: its identity and what it learned from
/// the device while connecting and operating.
#[derive(Debug, Clone)]
pub struct QhyccdCamera {
    pub unique_id: String,
    pub name: String,
    pub description: String,
    /// The symmetric binning in use.
    pub binning: u8,
    /// The binnings the device supports, read when connecting.
    pub valid_bins: Option<Vec<u8>>,
    pub ccd_info: Option<ChipGeometry>,
    /// The region the next exposure reads.
    pub intended_roi: Option<Roi>,
    pub state: ExposureState,
    pub last_exposure_duration_us: Option<u32>,
    pub last_image: Option<FrameImage>,
    /// When the last exposure began, in microseconds since the Unix epoch.
    pub last_exposure_start_us: Option<u64>,
    /// The number of the latest exposure begun (counting on from 0 and
    /// wrapping), by which the frame of that exposure is told from the
    /// frame of an earlier one.
    pub exposures_begun: u64,
}

/// What the camera reports as its state.
#[derive(Debug, Clone, Copy, PartialEq, Eq, Structural)]
pub enum CameraActivity {
    Idle,
    Exposing,
}

pub open spec fn err(code: ErrorCode) -> AscomError {
    AscomError { code, detail: None }
}

pub open spec fn not_connected_error() -> AscomError {
    err(ErrorCode::NotConnected)
}

impl QhyccdCamera {
    /// A camera found on the bus, not yet connected: its id is the device
    /// id, its name `QHYCCD-<id>`, and it starts unbinned and idle.
    pub fn new(id: &str) -> (c: QhyccdCamera)
        ensures
            c.unique_id@ == id@,
            c.name@ == "QHYCCD-"@ + id@,
            c.description@ == "QHYCCD camera"@,
            c.binning == 1,
            c.valid_bins is None,
            c.ccd_info is None,
            c.intended_roi is None,
            c.state == ExposureState::Idle,
            c.last_exposure_duration_us is None,
            c.last_image is None,
            c.last_exposure_start_us is None,
            c.exposures_begun == 0,
    {
        QhyccdCamera {
            unique_id: String::from_str(id),
            name: String::from_str("QHYCCD-").concat(id),
            description: String::from_str("QHYCCD camera"),
            binning: 1,
            valid_bins: None,
            ccd_info: None,
            intended_roi: None,
            state: ExposureState::Idle,
            last_exposure_duration_us: None,
            last_image: None,
            last_exposure_start_us: None,
            exposures_begun: 0,
        }
    }

    /// SensorName: the model part of the device id, the text before its
    /// first `-` (the whole id when it has none).
    pub open spec fn spec_sensor_name(self) -> Seq<char> {
        let id = self.unique_id@;
        if exists|i: int| 0 <= i < id.len() && id[i] == '-' {
            id.subrange(0, choose|i: int| 0 <= i < id.len() && id[i] == '-' && forall|j: int| 0 <= j < i ==> id[j] != '-')
        } else {
            id
        }
    }

    pub fn sensor_name(&self, is_open: Reply<bool>) -> (r: Result<String, AscomError>)
        ensures
            spec_require_connected(is_open) is Err ==> (r matches Err(e) && e == not_connected_error()),
            spec_require_connected(is_open) is Ok ==> (r matches Ok(name) && name@ == self.spec_sensor_name()),
    {
        require_connected(is_open)?;
        let id = self.unique_id.as_str();
        let n = id.unicode_len();
        let mut i: usize = 0;
        while i < n
            invariant
                n == id@.len(),
                id@ == self.unique_id@,
                spec_require_connected(is_open) is Ok,
                i <= n,
                forall|j: int| 0 <= j < i ==> id@[j] != '-',
            decreases n - i,
        {
            if id.get_char(i) == '-' {
                let ghost first = i as int;
                assert(0 <= first < id@.len() && id@[first] == '-' && forall|j: int| 0 <= j < first ==> id@[j] != '-');
                let ghost chosen = choose|k: int| 0 <= k < id@.len() && id@[k] == '-' && forall|j: int| 0 <= j < k ==> id@[j] != '-';
                assert(chosen == first) by {
                    if chosen < first {
                        assert(id@[chosen] != '-');
                    } else if chosen > first {
                        assert(id@[first] != '-');
                    }
                }
                return Ok(String::from_str(id.substring_char(0, i)));
            }
            i = i + 1;
        }
        Ok(String::from_str(id))
    }

    /// CameraState.
    pub open spec fn spec_camera_state(self, is_open: Reply<bool>) -> Result<CameraActivity, AscomError> {
        if spec_require_connected(is_open) is Err {
            Err(not_connected_error())
        } else {
            match self.state {
                ExposureState::Idle => Ok(CameraActivity::Idle),
                ExposureState::Exposing { .. } => Ok(CameraActivity::Exposing),
            }
        }
    }

    pub fn camera_state(&self, is_open: Reply<bool>) -> (r: Result<CameraActivity, AscomError>)
        ensures
            r == self.spec_camera_state(is_open),
    {
        require_connected(is_open)?;
        match self.state {
            ExposureState::Idle => Ok(CameraActivity::Idle),
            ExposureState::Exposing { .. } => Ok(CameraActivity::Exposing),
        }
    }
}

} // verus!
