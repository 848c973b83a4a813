//! Exposures: starting one, following it, and the frame it leaves behind.

use vstd::prelude::*;
use crate::error::{AscomError, ErrorCode, ErrorDetail, Reply, require_connected, spec_require_connected};
use crate::camera::{ExposureState, FrameImage, QhyccdCamera, Roi, err, not_connected_error};

verus! {

/// The number the exposure begun after exposure `n` gets.
pub open spec fn spec_next_exposure(n: u64) -> u64 {
    if n == u64::MAX {
        0
    } else {
        (n + 1) as u64
    }
}

/// What PercentCompleted does after its checks.
#[derive(Debug, Clone, Copy, PartialEq, Eq, Structural)]
pub enum PercentQuery {
    /// The answer is known without asking the device: with no exposure
    /// running it is 100.
    Known(u8),
    /// Ask the device for the remaining exposure time, then call
    /// `percent_from_remaining` with the expected duration.
    AskRemaining { expected_duration_us: u32 },
}

/// The share of the exposure the device reports (as remaining time against
/// the expected duration), as a percentage capped at 100. With no expected
/// duration a zero report counts as 0 % and any other as 100 %.
pub open spec fn spec_percent(remaining_us: u32, expected_duration_us: u32) -> u8 {
    if expected_duration_us == 0 {
        if remaining_us == 0 {
            0
        } else {
            100
        }
    } else if 100 * (remaining_us as int) / (expected_duration_us as int) >= 100 {
        100
    } else {
        (100 * (remaining_us as int) / (expected_duration_us as int)) as u8
    }
}

/// The checks StartExposure makes on the region of interest against the
/// sensor, in the order it makes them.
pub open spec fn spec_check_region(roi: Roi, image_width: u32, image_height: u32, binning: u8) -> Result<
    (),
    AscomError,
> {
    if roi.start_x > roi.width {
        Err(AscomError::invalid_value_spec(ErrorDetail::StartXBeyondNumX))
    } else if roi.start_y > roi.height {
        Err(AscomError::invalid_value_spec(ErrorDetail::StartYBeyondNumY))
    } else if roi.width > (image_width as int) / (binning as int) {
        Err(AscomError::invalid_value_spec(ErrorDetail::NumXBeyondCameraXSize))
    } else if roi.height > (image_height as int) / (binning as int) {
        Err(AscomError::invalid_value_spec(ErrorDetail::NumYBeyondCameraYSize))
    } else {
        Ok(())
    }
}

impl QhyccdCamera {
    /// ImageReady: no exposure runs and a frame is there to be read.
    pub open spec fn spec_image_ready(self, is_open: Reply<bool>) -> Result<bool, AscomError> {
        if spec_require_connected(is_open) is Err {
            Err(not_connected_error())
        } else {
            Ok(self.state == ExposureState::Idle && self.last_image is Some)
        }
    }

    pub fn image_ready(&self, is_open: Reply<bool>) -> (r: Result<bool, AscomError>)
        ensures
            r == self.spec_image_ready(is_open),
    {
        require_connected(is_open)?;
        match self.state {
            ExposureState::Exposing { .. } => Ok(false),
            ExposureState::Idle => Ok(self.last_image.is_some()),
        }
    }

    /// ImageArray: the last frame read.
    pub fn image(&self, is_open: Reply<bool>) -> (r: Result<&FrameImage, AscomError>)
        ensures
            spec_require_connected(is_open) is Err ==> r == Err::<&FrameImage, AscomError>(
                not_connected_error(),
            ),
            spec_require_connected(is_open) is Ok ==> match self.last_image {
                Some(img) => r == Ok::<&FrameImage, AscomError>(&img),
                None => r == Err::<&FrameImage, AscomError>(err(ErrorCode::ValueNotSet)),
            },
    {
        require_connected(is_open)?;
        match &self.last_image {
            Some(img) => Ok(img),
            None => Err(AscomError::from_code(ErrorCode::ValueNotSet)),
        }
    }

    /// LastExposureDuration, in microseconds.
    pub fn last_exposure_duration_us(&self, is_open: Reply<bool>) -> (r: Result<u32, AscomError>)
        ensures
            spec_require_connected(is_open) is Err ==> r == Err::<u32, AscomError>(
                not_connected_error(),
            ),
            spec_require_connected(is_open) is Ok ==> r == (match self.last_exposure_duration_us {
                Some(d) => Ok::<u32, AscomError>(d),
                None => Err(err(ErrorCode::ValueNotSet)),
            }),
    {
        require_connected(is_open)?;
        match self.last_exposure_duration_us {
            Some(d) => Ok(d),
            None => Err(AscomError::from_code(ErrorCode::ValueNotSet)),
        }
    }

    /// LastExposureStartTime, in microseconds since the Unix epoch.
    pub fn last_exposure_start_us(&self, is_open: Reply<bool>) -> (r: Result<u64, AscomError>)
        ensures
            spec_require_connected(is_open) is Err ==> r == Err::<u64, AscomError>(
                not_connected_error(),
            ),
            spec_require_connected(is_open) is Ok ==> r == (match self.last_exposure_start_us {
                Some(t) => Ok::<u64, AscomError>(t),
                None => Err(err(ErrorCode::ValueNotSet)),
            }),
    {
        require_connected(is_open)?;
        match self.last_exposure_start_us {
            Some(t) => Ok(t),
            None => Err(AscomError::from_code(ErrorCode::ValueNotSet)),
        }
    }

    // ---- PercentCompleted ----

    pub fn percent_completed_start(&self, is_open: Reply<bool>) -> (r: Result<PercentQuery, AscomError>)
        ensures
            spec_require_connected(is_open) is Err ==> r == Err::<PercentQuery, AscomError>(
                not_connected_error(),
            ),
            spec_require_connected(is_open) is Ok ==> r == Ok::<PercentQuery, AscomError>(
                match self.state {
                    ExposureState::Idle => PercentQuery::Known(100),
                    ExposureState::Exposing { expected_duration_us } => PercentQuery::AskRemaining {
                        expected_duration_us,
                    },
                },
            ),
    {
        require_connected(is_open)?;
        match self.state {
            ExposureState::Idle => Ok(PercentQuery::Known(100)),
            ExposureState::Exposing { expected_duration_us } => Ok(
                PercentQuery::AskRemaining { expected_duration_us },
            ),
        }
    }

    /// PercentCompleted of a running exposure, from the device's report.
    pub fn percent_from_remaining(expected_duration_us: u32, remaining: Reply<u32>) -> (r: Result<
        u8,
        AscomError,
    >)
        ensures
            r == (match remaining {
                Ok(rem) => Ok::<u8, AscomError>(spec_percent(rem, expected_duration_us)),
                Err(_) => Err(err(ErrorCode::InvalidOperation)),
            }),
            r matches Ok(p) ==> p <= 100,
    {
        match remaining {
            Err(_) => Err(AscomError::from_code(ErrorCode::InvalidOperation)),
            Ok(rem) => {
                if expected_duration_us == 0 {
                    if rem == 0 {
                        Ok(0)
                    } else {
                        Ok(100)
                    }
                } else {
                    let scaled: u64 = 100 * (rem as u64);
                    let percent: u64 = scaled / (expected_duration_us as u64);
                    if percent >= 100 {
                        Ok(100)
                    } else {
                        Ok(percent as u8)
                    }
                }
            },
        }
    }

    // ---- StartExposure ----

    /// The checks StartExposure makes before touching the device: light
    /// frames only, a known region that fits the sensor at the current
    /// binning.
    pub open spec fn spec_start_exposure_check(self, is_light: bool, is_open: Reply<bool>) -> Result<
        Roi,
        AscomError,
    > {
        if !is_light {
            Err(AscomError::invalid_operation_spec(ErrorDetail::DarkFramesNotSupported))
        } else if spec_require_connected(is_open) is Err {
            Err(not_connected_error())
        } else {
            match self.intended_roi {
                None => Err(err(ErrorCode::ValueNotSet)),
                Some(roi) => if roi.start_x > roi.width {
                    Err(AscomError::invalid_value_spec(ErrorDetail::StartXBeyondNumX))
                } else if roi.start_y > roi.height {
                    Err(AscomError::invalid_value_spec(ErrorDetail::StartYBeyondNumY))
                } else {
                    match self.ccd_info {
                        None => Err(err(ErrorCode::ValueNotSet)),
                        Some(info) => match spec_check_region(
                            roi,
                            info.image_width,
                            info.image_height,
                            self.binning,
                        ) {
                            Ok(_) => Ok(roi),
                            Err(e) => Err(e),
                        },
                    }
                },
            }
        }
    }

    /// Whether StartExposure's checks get as far as dividing the sensor size
    /// by the binning: a connected camera asked for a light frame, with a
    /// region whose start lies within its size, and known chip geometry.
    pub open spec fn spec_checks_sensor_size(self, is_light: bool, is_open: Reply<bool>) -> bool {
        &&& is_light
        &&& spec_require_connected(is_open) is Ok
        &&& self.intended_roi matches Some(roi) && roi.start_x <= roi.width && roi.start_y
            <= roi.height
        &&& self.ccd_info is Some
    }

    /// First step of StartExposure. `Ok(roi)` asks the caller to set this
    /// region on the device and hand the reply to `start_exposure_region_set`.
    /// The binning divides the sensor size, so it must not be 0 once the
    /// checks come that far.
    pub fn start_exposure_check(&self, is_light: bool, is_open: Reply<bool>) -> (r: Result<Roi, AscomError>)
        requires
            self.spec_checks_sensor_size(is_light, is_open) ==> self.binning > 0,
        ensures
            r == self.spec_start_exposure_check(is_light, is_open),
            r matches Ok(roi) ==> self.intended_roi == Some(roi),
    {
        if !is_light {
            return Err(AscomError::invalid_operation(ErrorDetail::DarkFramesNotSupported));
        }
        require_connected(is_open)?;
        let roi = match self.intended_roi {
            None => {
                return Err(AscomError::from_code(ErrorCode::ValueNotSet));
            },
            Some(roi) => roi,
        };
        if roi.start_x > roi.width {
            return Err(AscomError::invalid_value(ErrorDetail::StartXBeyondNumX));
        }
        if roi.start_y > roi.height {
            return Err(AscomError::invalid_value(ErrorDetail::StartYBeyondNumY));
        }
        let info = match self.ccd_info {
            None => {
                return Err(AscomError::from_code(ErrorCode::ValueNotSet));
            },
            Some(info) => info,
        };
        let bin = self.binning as u32;
        if roi.width > info.image_width / bin {
            return Err(AscomError::invalid_value(ErrorDetail::NumXBeyondCameraXSize));
        }
        if roi.height > info.image_height / bin {
            return Err(AscomError::invalid_value(ErrorDetail::NumYBeyondCameraYSize));
        }
        Ok(roi)
    }

    /// Second step of StartExposure: a region the device refuses fails the
    /// exposure, and so does an exposure already running. `Ok` asks the
    /// caller to set the exposure time on the device and hand the reply to
    /// `begin_exposure`.
    pub fn start_exposure_region_set(&self, reply: Reply<()>) -> (r: Result<(), AscomError>)
        ensures
            r == (match reply {
                Err(_) => Err::<(), AscomError>(AscomError::invalid_value_spec(ErrorDetail::FailedToSetRoi)),
                Ok(_) => if self.state is Exposing {
                    Err(err(ErrorCode::InvalidOperation))
                } else {
                    Ok(())
                },
            }),
    {
        match reply {
            Err(_) => Err(AscomError::invalid_value(ErrorDetail::FailedToSetRoi)),
            Ok(()) => match self.state {
                ExposureState::Exposing { .. } => Err(AscomError::from_code(ErrorCode::InvalidOperation)),
                ExposureState::Idle => Ok(()),
            },
        }
    }

    /// The camera once the device answered the exposure time of a new
    /// exposure begun at `started_us`: it is exposing, the previous frame is
    /// gone, the duration and start are recorded, and the exposure gets the
    /// next number.
    pub open spec fn spec_after_begin(self, duration_us: u32, started_us: u64, reply: Reply<()>) -> QhyccdCamera {
        match reply {
            Err(_) => self,
            Ok(_) => QhyccdCamera {
                state: ExposureState::Exposing { expected_duration_us: duration_us },
                last_exposure_duration_us: Some(duration_us),
                last_image: None,
                last_exposure_start_us: Some(started_us),
                exposures_begun: spec_next_exposure(self.exposures_begun),
                ..self
            },
        }
    }

    /// Last step of StartExposure. On `Ok(exposure)` the caller runs the
    /// exposure and hands its frame to `finish_exposure` with `exposure`.
    pub fn begin_exposure(&mut self, duration_us: u32, started_us: u64, reply: Reply<()>) -> (r: Result<
        u64,
        AscomError,
    >)
        ensures
            reply is Ok ==> r == Ok::<u64, AscomError>(final(self).exposures_begun),
            reply is Ok ==> final(self).state == (ExposureState::Exposing { expected_duration_us: duration_us }),
            reply is Err ==> r == Err::<u64, AscomError>(err(ErrorCode::InvalidOperation)),
            *final(self) == old(self).spec_after_begin(duration_us, started_us, reply),
    {
        match reply {
            Err(_) => Err(AscomError::from_code(ErrorCode::InvalidOperation)),
            Ok(()) => {
                let exposure = if self.exposures_begun == u64::MAX {
                    0
                } else {
                    self.exposures_begun + 1
                };
                self.state = ExposureState::Exposing { expected_duration_us: duration_us };
                self.last_exposure_duration_us = Some(duration_us);
                self.last_image = None;
                self.last_exposure_start_us = Some(started_us);
                self.exposures_begun = exposure;
                Ok(exposure)
            },
        }
    }

    /// The camera once the frame of exposure number `exposure` arrived: if
    /// that exposure is the one running, the camera is idle again and holds
    /// the frame (none when reading failed); the frame of an exposure that
    /// was aborted or overtaken changes nothing.
    pub open spec fn spec_after_finish(self, exposure: u64, frame: Option<FrameImage>) -> QhyccdCamera {
        if self.state is Exposing && exposure == self.exposures_begun {
            QhyccdCamera { state: ExposureState::Idle, last_image: frame, ..self }
        } else {
            self
        }
    }

    /// The end of an exposure; returns whether its frame was taken.
    pub fn finish_exposure(&mut self, exposure: u64, frame: Option<FrameImage>) -> (taken: bool)
        ensures
            taken == (old(self).state is Exposing && exposure == old(self).exposures_begun),
            *final(self) == old(self).spec_after_finish(exposure, frame),
    {
        let running = match self.state {
            ExposureState::Exposing { .. } => true,
            ExposureState::Idle => false,
        };
        if running && exposure == self.exposures_begun {
            self.state = ExposureState::Idle;
            self.last_image = frame;
            true
        } else {
            false
        }
    }

    // ---- AbortExposure ----

    /// AbortExposure, once the device answered the abort: the camera is idle;
    /// a failed abort is reported as an unspecified error.
    pub fn finish_abort(&mut self, reply: Reply<()>) -> (r: Result<(), AscomError>)
        ensures
            reply is Ok ==> r is Ok && *final(self) == (QhyccdCamera {
                state: ExposureState::Idle,
                ..*old(self)
            }),
            reply is Err ==> r == Err::<(), AscomError>(err(ErrorCode::Unspecified)) && *final(self)
                == *old(self),
    {
        match reply {
            Err(_) => Err(AscomError::from_code(ErrorCode::Unspecified)),
            Ok(()) => {
                self.state = ExposureState::Idle;
                Ok(())
            },
        }
    }
}

} // verus!
