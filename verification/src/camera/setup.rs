//! The cameras tests start from.

use vstd::prelude::*;
use crate::error::IsOpenExpectation;
use crate::camera::{ChipGeometry, ExposureState, FrameImage, QhyccdCamera, Roi};

verus! {

/// The camera a test starts from: which cached values it holds, and how its
/// device answers "is open" (`times`: how often it is to be asked).
#[derive(Debug, Clone)]
pub enum CameraSetup {
    IsOpenTrue { times: usize },
    IsOpenFalse { times: usize },
    WithCcdInfo { times: usize, ccd_info: Option<ChipGeometry> },
    WithRoi { times: usize, roi: Option<Roi> },
    WithState { times: usize, state: ExposureState },
    Untouched,
    WithStateExposing { expected_duration_us: u32 },
    WithImage { image: FrameImage },
    WithLastExposureDuration { duration_us: Option<u32> },
    /// The start of the last exposure, in microseconds since the Unix epoch.
    WithLastExposureStart { start_us: Option<u64> },
    WithBinningAndValidBins { times: usize, valid_bins: Vec<u8>, binning: u8 },
    WithBinningAndRoiAndCcdInfo { times: usize, roi: Roi, ccd_info: ChipGeometry, binning: u8 },
    WithBinningAndValidBinsAndRoiAndCcdInfo {
        times: usize,
        roi: Roi,
        ccd_info: ChipGeometry,
        binning: u8,
        valid_bins: Vec<u8>,
    },
    WithBinningAndRoiAndCcdInfoUnlimited { roi: Roi, ccd_info: ChipGeometry, binning: u8 },
    WithBinningAndRoiAndCcdInfoAndExposing {
        times: usize,
        roi: Roi,
        ccd_info: ChipGeometry,
        binning: u8,
        expected_duration_us: u32,
    },
}

/// The fresh test camera every setup starts from: binning 0 and nothing
/// known.
pub open spec fn spec_blank(c: QhyccdCamera) -> bool {
    &&& c.unique_id@ == "test-camera"@
    &&& c.name@ == "QHYCCD-test_camera"@
    &&& c.description@ == "QHYCCD camera"@
    &&& c.exposures_begun == 0
}

pub open spec fn opened(times: usize) -> IsOpenExpectation {
    IsOpenExpectation { answer: Some(true), times: Some(times) }
}

/// The state and expectation each setup arranges.
pub open spec fn spec_setup(setup: CameraSetup, c: QhyccdCamera, e: IsOpenExpectation) -> bool {
    let bins = match c.valid_bins {
        Some(v) => Some(v@),
        None => None,
    };
    let (binning, valid_bins, ccd_info, roi, state, duration, image, expectation) = match setup {
        CameraSetup::IsOpenTrue { times } => (0u8, None, None, None, ExposureState::Idle, None, None, opened(times)),
        CameraSetup::IsOpenFalse { times } => (
            0u8,
            None,
            None,
            None,
            ExposureState::Idle,
            None,
            None,
            IsOpenExpectation { answer: Some(false), times: Some(times) },
        ),
        CameraSetup::WithCcdInfo { times, ccd_info } => (0u8, None, ccd_info, None, ExposureState::Idle, None, None, opened(times)),
        CameraSetup::WithRoi { times, roi } => (0u8, None, None, roi, ExposureState::Idle, None, None, opened(times)),
        CameraSetup::WithState { times, state } => (0u8, None, None, None, state, None, None, opened(times)),
        CameraSetup::Untouched => (
            0u8,
            None,
            None,
            None,
            ExposureState::Idle,
            None,
            None,
            IsOpenExpectation { answer: None, times: Some(0) },
        ),
        CameraSetup::WithStateExposing { expected_duration_us } => (
            0u8,
            None,
            None,
            None,
            ExposureState::Exposing { expected_duration_us },
            None,
            None,
            opened(1),
        ),
        CameraSetup::WithImage { image } => (0u8, None, None, None, ExposureState::Idle, None, Some(image), opened(1)),
        CameraSetup::WithLastExposureDuration { duration_us } => (
            0u8,
            None,
            None,
            None,
            ExposureState::Idle,
            duration_us,
            None,
            opened(1),
        ),
        CameraSetup::WithLastExposureStart { .. } => (
            0u8,
            None,
            None,
            None,
            ExposureState::Idle,
            None,
            None,
            opened(1),
        ),
        CameraSetup::WithBinningAndValidBins { times, valid_bins, binning } => (
            binning,
            Some(valid_bins@),
            None,
            None,
            ExposureState::Idle,
            None,
            None,
            opened(times),
        ),
        CameraSetup::WithBinningAndRoiAndCcdInfo { times, roi, ccd_info, binning } => (
            binning,
            None,
            Some(ccd_info),
            Some(roi),
            ExposureState::Idle,
            None,
            None,
            opened(times),
        ),
        CameraSetup::WithBinningAndValidBinsAndRoiAndCcdInfo { times, roi, ccd_info, binning, valid_bins } => (
            binning,
            Some(valid_bins@),
            Some(ccd_info),
            Some(roi),
            ExposureState::Idle,
            None,
            None,
            opened(times),
        ),
        CameraSetup::WithBinningAndRoiAndCcdInfoUnlimited { roi, ccd_info, binning } => (
            binning,
            None,
            Some(ccd_info),
            Some(roi),
            ExposureState::Idle,
            None,
            None,
            IsOpenExpectation { answer: Some(true), times: None },
        ),
        CameraSetup::WithBinningAndRoiAndCcdInfoAndExposing { times, roi, ccd_info, binning, expected_duration_us } => (
            binning,
            None,
            Some(ccd_info),
            Some(roi),
            ExposureState::Exposing { expected_duration_us },
            None,
            None,
            opened(times),
        ),
    };
    &&& spec_blank(c)
    &&& c.binning == binning
    &&& bins == valid_bins
    &&& c.ccd_info == ccd_info
    &&& c.intended_roi == roi
    &&& c.state == state
    &&& c.last_exposure_duration_us == duration
    &&& c.last_image == image
    &&& c.last_exposure_start_us == (match setup {
        CameraSetup::WithLastExposureStart { start_us } => start_us,
        _ => None,
    })
    &&& e == expectation
}

/// Builds the test camera ("test-camera") in the state a setup describes,
/// with the "is open" answers its device is to give.
pub fn new_camera(setup: CameraSetup) -> (r: (QhyccdCamera, IsOpenExpectation))
    ensures
        spec_setup(setup, r.0, r.1),
{
    let mut camera = QhyccdCamera {
        unique_id: String::from_str("test-camera"),
        name: String::from_str("QHYCCD-test_camera"),
        description: String::from_str("QHYCCD camera"),
        binning: 0,
        valid_bins: None,
        ccd_info: None,
        intended_roi: None,
        state: ExposureState::Idle,
        last_exposure_duration_us: None,
        last_image: None,
        last_exposure_start_us: None,
        exposures_begun: 0,
    };
    let expectation = match setup {
        CameraSetup::IsOpenTrue { times } => IsOpenExpectation { answer: Some(true), times: Some(times) },
        CameraSetup::IsOpenFalse { times } => IsOpenExpectation {
            answer: Some(false),
            times: Some(times),
        },
        CameraSetup::WithCcdInfo { times, ccd_info } => {
            camera.ccd_info = ccd_info;
            IsOpenExpectation { answer: Some(true), times: Some(times) }
        },
        CameraSetup::WithRoi { times, roi } => {
            camera.intended_roi = roi;
            IsOpenExpectation { answer: Some(true), times: Some(times) }
        },
        CameraSetup::WithState { times, state } => {
            camera.state = state;
            IsOpenExpectation { answer: Some(true), times: Some(times) }
        },
        CameraSetup::Untouched => IsOpenExpectation { answer: None, times: Some(0) },
        CameraSetup::WithStateExposing { expected_duration_us } => {
            camera.state = ExposureState::Exposing { expected_duration_us };
            IsOpenExpectation { answer: Some(true), times: Some(1) }
        },
        CameraSetup::WithImage { image } => {
            camera.last_image = Some(image);
            IsOpenExpectation { answer: Some(true), times: Some(1) }
        },
        CameraSetup::WithLastExposureDuration { duration_us } => {
            camera.last_exposure_duration_us = duration_us;
            IsOpenExpectation { answer: Some(true), times: Some(1) }
        },
        CameraSetup::WithLastExposureStart { start_us } => {
            camera.last_exposure_start_us = start_us;
            IsOpenExpectation { answer: Some(true), times: Some(1) }
        },
        CameraSetup::WithBinningAndValidBins { times, valid_bins, binning } => {
            camera.valid_bins = Some(valid_bins);
            camera.binning = binning;
            IsOpenExpectation { answer: Some(true), times: Some(times) }
        },
        CameraSetup::WithBinningAndRoiAndCcdInfo { times, roi, ccd_info, binning } => {
            camera.ccd_info = Some(ccd_info);
            camera.intended_roi = Some(roi);
            camera.binning = binning;
            IsOpenExpectation { answer: Some(true), times: Some(times) }
        },
        CameraSetup::WithBinningAndValidBinsAndRoiAndCcdInfo { times, roi, ccd_info, binning, valid_bins } => {
            camera.ccd_info = Some(ccd_info);
            camera.intended_roi = Some(roi);
            camera.valid_bins = Some(valid_bins);
            camera.binning = binning;
            IsOpenExpectation { answer: Some(true), times: Some(times) }
        },
        CameraSetup::WithBinningAndRoiAndCcdInfoUnlimited { roi, ccd_info, binning } => {
            camera.ccd_info = Some(ccd_info);
            camera.intended_roi = Some(roi);
            camera.binning = binning;
            IsOpenExpectation { answer: Some(true), times: None }
        },
        CameraSetup::WithBinningAndRoiAndCcdInfoAndExposing { times, roi, ccd_info, binning, expected_duration_us } => {
            camera.ccd_info = Some(ccd_info);
            camera.intended_roi = Some(roi);
            camera.binning = binning;
            camera.state = ExposureState::Exposing { expected_duration_us };
            IsOpenExpectation { answer: Some(true), times: Some(times) }
        },
    };
    (camera, expectation)
}

} // verus!
