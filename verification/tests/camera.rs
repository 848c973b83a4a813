use qhyccd_alpaca_core::camera::connect::{
    CameraCall, CameraConnectStep, CameraControl, CameraReply, RangeControl,
};
use qhyccd_alpaca_core::camera::exposure::PercentQuery;
use qhyccd_alpaca_core::camera::geometry::{
    roi_can_be_rescaled, valid_bins_from, Axis, BinDecision, RoiField,
};
use qhyccd_alpaca_core::camera::image::frame_to_image;
use qhyccd_alpaca_core::camera::readout::{
    readout_mode, readout_modes_count, readout_modes_names,
};
use qhyccd_alpaca_core::camera::sensor::{
    bayer_offset_from_bayer_mode, bayer_offset_start, can_fast_readout, control_available,
    require_control,
    sensor_type_from_bayer_mode, sensor_type_start, ColorQuery, SensorKind,
};
use qhyccd_alpaca_core::camera::setup::{new_camera, CameraSetup};
use qhyccd_alpaca_core::camera::{
    CameraActivity, ChipGeometry, ExposureState, FrameImage, Pixels, QhyccdCamera, Roi,
};
use qhyccd_alpaca_core::error::{
    require_connected, AscomError, DeviceFailure, ErrorCode, ErrorDetail, IsOpenExpectation,
    Reply,
};

fn is_open(e: &IsOpenExpectation) -> Reply<bool> {
    Ok(e.answer.expect("the device was not expected to be asked"))
}

fn code(e: AscomError) -> ErrorCode {
    assert!(e.detail.is_none());
    e.code
}

fn chip(width: u32, height: u32) -> ChipGeometry {
    ChipGeometry { image_width: width, image_height: height, bits_per_pixel: 16 }
}

fn roi(start_x: u32, start_y: u32, width: u32, height: u32) -> Roi {
    Roi { start_x, start_y, width, height }
}

fn ok_or_fail<T>(ok: bool, v: T) -> Reply<T> {
    if ok {
        Ok(v)
    } else {
        Err(DeviceFailure)
    }
}

/// SetBinX / SetBinY as the server computes them; `device` answers the bin
/// mode change and the modes asked for are recorded.
fn set_bin(
    cam: &mut QhyccdCamera,
    is_open: Reply<bool>,
    bin: u8,
    device: Reply<()>,
    calls: &mut Vec<u8>,
) -> Result<(), AscomError> {
    match cam.set_bin_request(is_open, bin)? {
        BinDecision::Unchanged => Ok(()),
        BinDecision::SetMode(b) => {
            calls.push(b);
            cam.finish_set_bin(b, device)
        }
    }
}

/// Runs a change of the Connected property against a scripted device.
fn set_connected(
    cam: &mut QhyccdCamera,
    connect: bool,
    is_open: Reply<bool>,
    mut device: impl FnMut(CameraCall) -> CameraReply,
) -> (Result<(), AscomError>, Vec<CameraCall>) {
    let mut calls = Vec::new();
    let mut step = QhyccdCamera::set_connected_start(connect, is_open);
    loop {
        match step {
            CameraConnectStep::Finished(r) => return (r, calls),
            CameraConnectStep::Call { phase, call } => {
                calls.push(call);
                step = cam.set_connected_step(phase, device(call));
            }
        }
    }
}

// ---- binning ----

#[test]
fn binning_max_bin_xy() {
    for (has_modes, expected) in [
        (true, Ok(8_u8)),
        (false, Err(AscomError::from_code(ErrorCode::InvalidOperation))),
    ] {
        let (_cam, e) = new_camera(CameraSetup::IsOpenTrue { times: 2 });
        let available = [has_modes; 6];
        for _ in 0..2 {
            assert_eq!(require_connected(is_open(&e)), Ok(()));
            assert_eq!(QhyccdCamera::max_bin(&available), expected);
        }
    }
    let partial = [true, true, false, true, false, false];
    assert_eq!(valid_bins_from(&partial), vec![1, 2, 4]);
    assert_eq!(QhyccdCamera::max_bin(&partial), Ok(4));
}

#[test]
fn binning_bin_x_y_success() {
    let (cam, e) = new_camera(CameraSetup::WithBinningAndValidBins {
        times: 2,
        valid_bins: vec![1, 2],
        binning: 1,
    });
    assert_eq!(cam.bin(is_open(&e)), Ok(1));
    assert_eq!(cam.bin(is_open(&e)), Ok(1));
}

#[test]
fn binning_set_bin_x_y() {
    let bin_not_valid = AscomError::invalid_value(ErrorDetail::BinNotValid);
    for (bin, device, calls_expected, expected) in [
        (1_u8, Ok(()), 0_usize, Ok(())),
        (2, Ok(()), 1, Ok(())),
        (2, Err(DeviceFailure), 1, Err(AscomError::from_code(ErrorCode::ValueNotSet))),
        (0, Ok(()), 0, Err(bin_not_valid)),
    ] {
        let (mut cam, e) = new_camera(CameraSetup::WithBinningAndValidBins {
            times: 1,
            valid_bins: vec![1, 2],
            binning: 1,
        });
        let mut calls = Vec::new();
        let res = set_bin(&mut cam, is_open(&e), bin, device, &mut calls);
        assert_eq!(res, expected);
        assert_eq!(calls.len(), calls_expected);
        assert!(calls.iter().all(|b| *b == bin));
    }
    assert_eq!(
        bin_not_valid.message(),
        "bin value must be one of the valid bins"
    );
}

#[test]
fn binning_set_bin_x_with_roi() {
    for (start_x, start_y, expected_start_x, expected_start_y) in
        [(10_u32, 20_u32, 5_u32, 10_u32), (5, 11, 2, 5)]
    {
        let (mut cam, e) = new_camera(CameraSetup::WithBinningAndValidBinsAndRoiAndCcdInfo {
            times: 9,
            roi: roi(start_x, start_y, 1920, 1080),
            ccd_info: chip(1920, 1080),
            binning: 1,
            valid_bins: vec![1, 2],
        });
        let o = is_open(&e);
        let mut calls = Vec::new();
        assert!(set_bin(&mut cam, o, 2, Ok(()), &mut calls).is_ok());
        assert_eq!(calls, vec![2]);
        assert_eq!(cam.camera_size(o, Axis::X), Ok(1920));
        assert_eq!(cam.camera_size(o, Axis::Y), Ok(1080));
        assert_eq!(cam.bin(o), Ok(2));
        assert_eq!(cam.roi_value(o, RoiField::StartX), Ok(expected_start_x));
        assert_eq!(cam.roi_value(o, RoiField::StartY), Ok(expected_start_y));
        assert_eq!(cam.roi_value(o, RoiField::NumX), Ok(960));
        assert_eq!(cam.roi_value(o, RoiField::NumY), Ok(540));
    }
}

#[test]
fn set_bin_back_to_one_scales_up() {
    let (mut cam, _) = new_camera(CameraSetup::WithBinningAndValidBinsAndRoiAndCcdInfo {
        times: 9,
        roi: roi(5, 10, 960, 540),
        ccd_info: chip(1920, 1080),
        binning: 2,
        valid_bins: vec![1, 2, 4],
    });
    let mut calls = Vec::new();
    set_bin(&mut cam, Ok(true), 1, Ok(()), &mut calls).unwrap();
    assert_eq!(cam.intended_roi, Some(roi(10, 20, 1920, 1080)));
    set_bin(&mut cam, Ok(true), 4, Ok(()), &mut calls).unwrap();
    assert_eq!(cam.intended_roi, Some(roi(2, 5, 480, 270)));
    assert_eq!(calls, vec![1, 4]);
}

#[test]
fn binning_set_bin_x_fail_no_valid_bins() {
    let (mut cam, e) = new_camera(CameraSetup::IsOpenTrue { times: 1 });
    let mut calls = Vec::new();
    let res = set_bin(&mut cam, is_open(&e), 2, Ok(()), &mut calls);
    assert_eq!(code(res.unwrap_err()), ErrorCode::NotConnected);
}

// ---- sensor size and region ----

#[test]
fn roi_camera_xsize() {
    for (has_info, expected) in [
        (true, Ok(1920_u32)),
        (false, Err(AscomError::from_code(ErrorCode::ValueNotSet))),
    ] {
        let (cam, e) = new_camera(CameraSetup::WithCcdInfo {
            times: 1,
            ccd_info: if has_info { Some(chip(1920, 1080)) } else { None },
        });
        assert_eq!(cam.camera_size(is_open(&e), Axis::X), expected);
    }
}

#[test]
fn roi_camera_ysize() {
    for (has_info, expected) in [
        (true, Ok(1080_u32)),
        (false, Err(AscomError::from_code(ErrorCode::ValueNotSet))),
    ] {
        let (cam, e) = new_camera(CameraSetup::WithCcdInfo {
            times: 1,
            ccd_info: if has_info { Some(chip(1920, 1080)) } else { None },
        });
        assert_eq!(cam.camera_size(is_open(&e), Axis::Y), expected);
    }
}

fn roi_getter_case(field: RoiField, region: Roi, expected: u32) {
    for (has_roi, want) in [
        (true, Ok(expected)),
        (false, Err(AscomError::from_code(ErrorCode::ValueNotSet))),
    ] {
        let (cam, e) = new_camera(CameraSetup::WithRoi {
            times: 1,
            roi: if has_roi { Some(region) } else { None },
        });
        assert_eq!(cam.roi_value(is_open(&e), field), want);
    }
}

fn roi_setter_case(field: RoiField, region: Roi, value: u32, expected: Roi) {
    for has_roi in [true, false] {
        let (mut cam, e) = new_camera(CameraSetup::WithRoi {
            times: 1,
            roi: if has_roi { Some(region) } else { None },
        });
        let res = cam.set_roi_value(is_open(&e), field, value);
        if has_roi {
            assert!(res.is_ok());
            assert_eq!(cam.intended_roi, Some(expected));
        } else {
            assert_eq!(code(res.unwrap_err()), ErrorCode::InvalidValue);
            assert_eq!(cam.intended_roi, None);
        }
    }
}

#[test]
fn roi_start_x() {
    roi_getter_case(RoiField::StartX, roi(100, 0, 10, 10), 100);
}

#[test]
fn roi_set_start_x() {
    roi_setter_case(RoiField::StartX, roi(0, 0, 100, 100), 100, roi(100, 0, 100, 100));
}

#[test]
fn roi_start_y() {
    roi_getter_case(RoiField::StartY, roi(0, 100, 10, 10), 100);
}

#[test]
fn roi_set_start_y() {
    roi_setter_case(RoiField::StartY, roi(0, 0, 100, 100), 100, roi(0, 100, 100, 100));
}

#[test]
fn roi_num_x() {
    roi_getter_case(RoiField::NumX, roi(100, 0, 1000, 10), 1000);
}

#[test]
fn roi_set_num_x() {
    roi_setter_case(RoiField::NumX, roi(0, 0, 100, 100), 1000, roi(0, 0, 1000, 100));
}

#[test]
fn roi_num_y() {
    roi_getter_case(RoiField::NumY, roi(100, 0, 10, 100), 100);
}

#[test]
fn roi_set_num_y() {
    roi_setter_case(RoiField::NumY, roi(0, 0, 1001, 1000), 100, roi(0, 0, 1001, 100));
}

// ---- sensor ----

fn bayer_offset(is_color: Option<u32>, mode: Option<u32>, axis: Axis) -> Result<u8, AscomError> {
    bayer_offset_start(is_color)?;
    bayer_offset_from_bayer_mode(mode, axis)
}

#[test]
fn sensor_bayer_offset() {
    let invalid = Err(AscomError::from_code(ErrorCode::InvalidValue));
    let not_implemented = Err(AscomError::from_code(ErrorCode::NotImplemented));
    for (is_color, mode, x, y) in [
        (Some(0), Some(1_u32), Ok(0_u8), Ok(1_u8)),
        (Some(0), Some(2), Ok(1), Ok(0)),
        (Some(0), Some(3), Ok(1), Ok(1)),
        (Some(0), Some(4), Ok(0), Ok(0)),
        (None, Some(4), not_implemented, not_implemented),
        (Some(0), Some(0), invalid, invalid),
        (Some(0), None, invalid, invalid),
    ] {
        assert_eq!(bayer_offset(is_color, mode, Axis::X), x);
        assert_eq!(bayer_offset(is_color, mode, Axis::Y), y);
    }
}

#[test]
fn sensor_sensor_type_success_color() {
    for (is_color, mode, expected) in [
        (Some(0), Some(1), Ok(SensorKind::Rggb)),
        (None, Some(1), Ok(SensorKind::Monochrome)),
        (Some(0), None, Err(AscomError::from_code(ErrorCode::InvalidValue))),
    ] {
        let res = match sensor_type_start(is_color) {
            ColorQuery::Monochrome => Ok(SensorKind::Monochrome),
            ColorQuery::AskBayerMode => sensor_type_from_bayer_mode(mode),
        };
        assert_eq!(res, expected);
    }
}

#[test]
fn readout_readout_mode() {
    assert_eq!(readout_mode(Ok(0)), Ok(0));
    assert_eq!(readout_mode(Ok(2)), Ok(2));
    assert_eq!(
        readout_mode(Err(DeviceFailure)),
        Err(AscomError::from_code(ErrorCode::InvalidOperation))
    );
}

/// SetReadoutMode as the server computes it.
fn set_readout_mode(
    cam: &mut QhyccdCamera,
    mode: usize,
    count: Reply<u32>,
    resolution: Reply<(u32, u32)>,
    set: Reply<()>,
) -> Result<(), AscomError> {
    let m = QhyccdCamera::set_readout_mode_check(mode, count)?;
    assert_eq!(m as usize, mode);
    let wh = QhyccdCamera::set_readout_mode_resolution(resolution)?;
    cam.finish_set_readout_mode(wh, set)
}

#[test]
fn sensor_set_readout_mode() {
    for (mode, count, resolution, set, has_info, expected) in [
        (3, Ok(4), Ok((1920, 1080)), Ok(()), true, Ok(())),
        (3, Ok(4), Ok((1920, 1080)), Ok(()), false, Ok(())),
        (5, Ok(4), Ok((1920, 1080)), Ok(()), true, Err(ErrorCode::InvalidValue)),
        (3, Err(DeviceFailure), Ok((1920, 1080)), Ok(()), true, Err(ErrorCode::InvalidValue)),
        (3, Ok(4), Err(DeviceFailure), Ok(()), true, Err(ErrorCode::InvalidValue)),
        (3, Ok(4), Ok((1920, 1080)), Err(DeviceFailure), true, Err(ErrorCode::ValueNotSet)),
    ] {
        let (mut cam, _) = new_camera(CameraSetup::WithCcdInfo {
            times: 1,
            ccd_info: if has_info { Some(chip(1920, 1080)) } else { None },
        });
        let res = set_readout_mode(&mut cam, mode, count, resolution, set);
        assert_eq!(res.map_err(code), expected);
    }
}

#[test]
fn set_readout_mode_takes_the_mode_resolution() {
    let (mut cam, _) = new_camera(CameraSetup::WithCcdInfo {
        times: 1,
        ccd_info: Some(chip(1920, 1080)),
    });
    set_readout_mode(&mut cam, 1, Ok(3), Ok((960, 540)), Ok(())).unwrap();
    assert_eq!(cam.ccd_info, Some(chip(960, 540)));
    let before = cam.ccd_info;
    assert!(set_readout_mode(&mut cam, 1, Ok(3), Ok((100, 100)), Err(DeviceFailure)).is_err());
    assert_eq!(cam.ccd_info, before);
}

#[test]
fn readout_readout_modes() {
    let n = readout_modes_count(Ok(2)).unwrap();
    assert_eq!(n, 2);
    let names = vec![Ok("Mode0".to_owned()), Ok("Mode1".to_owned())];
    assert_eq!(
        readout_modes_names(&names),
        Ok(vec!["Mode0".to_owned(), "Mode1".to_owned()])
    );
    assert_eq!(
        readout_modes_count(Err(DeviceFailure)),
        Err(AscomError::from_code(ErrorCode::InvalidOperation))
    );
    let names = vec![Ok("Mode0".to_owned()), Err(DeviceFailure)];
    assert_eq!(
        readout_modes_names(&names),
        Err(AscomError::from_code(ErrorCode::InvalidOperation))
    );
}

#[test]
fn readout_can_fast_readout() {
    assert!(can_fast_readout(Some(0), true));
    assert!(!can_fast_readout(Some(0), false));
    assert!(!can_fast_readout(None, false));
    assert!(!can_fast_readout(None, true));
}

#[test]
fn properties_has_shutter() {
    assert!(control_available(Some(0)));
    assert!(!control_available(None));
}

#[test]
fn temperature_can_set_ccd_temperature() {
    assert!(control_available(Some(0)));
    assert!(!control_available(None));
}

// ---- image ----

fn zeros(width: u32, height: u32) -> FrameImage {
    FrameImage {
        width,
        height,
        pixels: Pixels::Sixteen(vec![0; (width * height) as usize]),
    }
}

#[test]
fn image_image_array_success() {
    let (cam, e) = new_camera(CameraSetup::WithImage { image: zeros(10, 10) });
    let img = cam.image(is_open(&e)).unwrap();
    assert_eq!((img.width, img.height), (10, 10));
}

#[test]
fn image_image_array_empty() {
    let (cam, e) = new_camera(CameraSetup::IsOpenTrue { times: 1 });
    assert_eq!(code(cam.image(is_open(&e)).unwrap_err()), ErrorCode::ValueNotSet);
}

#[test]
fn image_image_ready_not_ready_success() {
    let (cam, e) = new_camera(CameraSetup::WithStateExposing { expected_duration_us: 1000 });
    assert_eq!(cam.image_ready(is_open(&e)), Ok(false));
}

#[test]
fn image_image_ready_ready_success() {
    let (cam, e) = new_camera(CameraSetup::WithImage { image: zeros(10, 10) });
    assert_eq!(cam.image_ready(is_open(&e)), Ok(true));
}

#[test]
fn image_image_ready_ready_success_no_image_taken_yet() {
    let (cam, e) = new_camera(CameraSetup::WithState { times: 1, state: ExposureState::Idle });
    assert_eq!(cam.image_ready(is_open(&e)), Ok(false));
}

#[test]
fn frame_conversion() {
    // 8 bits per pixel: 3 x 2 frame, read back column by column.
    let img = frame_to_image(&vec![0, 1, 2, 3, 4, 5], 3, 2, 8, 1).unwrap();
    assert_eq!(img.pixels, Pixels::Eight(vec![0, 3, 1, 4, 2, 5]));
    // 16 bits per pixel, little endian.
    let img = frame_to_image(&vec![0, 0, 1, 0, 2, 0, 3, 0, 4, 0, 5, 0], 3, 2, 16, 1).unwrap();
    assert_eq!(img.pixels, Pixels::Sixteen(vec![0, 3, 1, 4, 2, 5]));
    let img = frame_to_image(&vec![0x34, 0x12], 1, 1, 16, 1).unwrap();
    assert_eq!(img.pixels, Pixels::Sixteen(vec![0x1234]));
    let invalid = Err(AscomError::from_code(ErrorCode::InvalidOperation));
    assert_eq!(frame_to_image(&Vec::new(), 3, 2, 8, 1), invalid);
    assert_eq!(frame_to_image(&Vec::new(), 3, 2, 16, 1), invalid);
    assert_eq!(
        frame_to_image(&vec![0, 0, 1, 0, 2, 0, 3, 0, 4, 0, 5, 0], 3, 2, 16, 2),
        invalid
    );
    assert_eq!(
        frame_to_image(&vec![0, 0, 1, 0, 2, 0, 3, 0, 4, 0, 5, 0], 3, 2, 32, 1),
        invalid
    );
}

// ---- exposure ----

#[test]
fn exposure_last_exposure_duration() {
    let (cam, e) = new_camera(CameraSetup::WithLastExposureDuration {
        duration_us: Some(2_000_000),
    });
    assert_eq!(cam.last_exposure_duration_us(is_open(&e)), Ok(2_000_000));
    let (cam, e) = new_camera(CameraSetup::WithLastExposureDuration { duration_us: None });
    assert_eq!(
        code(cam.last_exposure_duration_us(is_open(&e)).unwrap_err()),
        ErrorCode::ValueNotSet
    );
}

fn percent(cam: &QhyccdCamera, remaining: Reply<u32>) -> (Result<u8, AscomError>, usize) {
    match cam.percent_completed_start(Ok(true)).unwrap() {
        PercentQuery::Known(p) => (Ok(p), 0),
        PercentQuery::AskRemaining { expected_duration_us } => (
            QhyccdCamera::percent_from_remaining(expected_duration_us, remaining),
            1,
        ),
    }
}

#[test]
fn exposure_percent_completed() {
    for (remaining, times, state, expected) in [
        (Ok(5_000_u32), 1, ExposureState::Exposing { expected_duration_us: 10_000 }, Ok(50_u8)),
        (Ok(10_000), 1, ExposureState::Exposing { expected_duration_us: 10_000 }, Ok(100)),
        (Ok(10_000), 0, ExposureState::Idle, Ok(100)),
        (Ok(u32::MIN), 1, ExposureState::Exposing { expected_duration_us: 0 }, Ok(0)),
        (Ok(u32::MAX), 1, ExposureState::Exposing { expected_duration_us: 0 }, Ok(100)),
        (
            Err(DeviceFailure),
            1,
            ExposureState::Exposing { expected_duration_us: 10_000 },
            Err(AscomError::from_code(ErrorCode::InvalidOperation)),
        ),
    ] {
        let (cam, _) = new_camera(CameraSetup::WithState { times: 1, state });
        assert_eq!(percent(&cam, remaining), (expected, times));
    }
    assert_eq!(QhyccdCamera::percent_from_remaining(3, Ok(1)), Ok(33));
    assert_eq!(QhyccdCamera::percent_from_remaining(3, Ok(7)), Ok(100));
}

#[test]
fn exposure_start_exposure_fail_dark_neg() {
    let (cam, e) = new_camera(CameraSetup::Untouched);
    assert_eq!(e.answer, None);
    let res = cam.start_exposure_check(false, Err(DeviceFailure));
    assert_eq!(
        res,
        Err(AscomError::invalid_operation(ErrorDetail::DarkFramesNotSupported))
    );
    assert_eq!(res.unwrap_err().message(), "dark frames not supported");
}

#[test]
fn exposure_start_exposure_fail_start_num() {
    for (region, detail, text) in [
        (roi(100, 0, 10, 10), ErrorDetail::StartXBeyondNumX, "StartX > NumX"),
        (roi(0, 100, 10, 10), ErrorDetail::StartYBeyondNumY, "StartY > NumY"),
    ] {
        let (cam, e) = new_camera(CameraSetup::WithRoi { times: 3, roi: Some(region) });
        assert_eq!(cam.binning, 0);
        let res = cam.start_exposure_check(true, is_open(&e));
        assert_eq!(res, Err(AscomError::invalid_value(detail)));
        assert_eq!(res.unwrap_err().message(), text);
    }
}

#[test]
fn exposure_start_exposure_fail_num_size() {
    for (num_x, num_y, width, height, detail) in [
        (50, 100, 20, 1080, ErrorDetail::NumXBeyondCameraXSize),
        (50, 100, 1920, 80, ErrorDetail::NumYBeyondCameraYSize),
    ] {
        let (cam, e) = new_camera(CameraSetup::WithBinningAndRoiAndCcdInfo {
            times: 8,
            roi: roi(0, 0, num_x, num_y),
            ccd_info: chip(width, height),
            binning: 1,
        });
        assert_eq!(
            cam.start_exposure_check(true, is_open(&e)),
            Err(AscomError::invalid_value(detail))
        );
    }
    assert_eq!(
        AscomError::invalid_value(ErrorDetail::NumXBeyondCameraXSize).message(),
        "NumX > CameraXSize"
    );
    assert_eq!(
        AscomError::invalid_value(ErrorDetail::NumYBeyondCameraYSize).message(),
        "NumY > CameraYSize"
    );
}

#[test]
fn start_exposure_region_must_fit_binned_sensor() {
    let (cam, _) = new_camera(CameraSetup::WithBinningAndRoiAndCcdInfo {
        times: 1,
        roi: roi(0, 0, 961, 540),
        ccd_info: chip(1920, 1080),
        binning: 2,
    });
    assert_eq!(
        cam.start_exposure_check(true, Ok(true)),
        Err(AscomError::invalid_value(ErrorDetail::NumXBeyondCameraXSize))
    );
    let (cam, _) = new_camera(CameraSetup::WithBinningAndRoiAndCcdInfo {
        times: 1,
        roi: roi(0, 0, 960, 540),
        ccd_info: chip(1920, 1080),
        binning: 2,
    });
    assert_eq!(cam.start_exposure_check(true, Ok(true)), Ok(roi(0, 0, 960, 540)));
}

#[test]
fn exposure_start_exposure_fail_set_roi() {
    let (cam, e) = new_camera(CameraSetup::WithBinningAndRoiAndCcdInfo {
        times: 11,
        roi: roi(10, 20, 1920, 1080),
        ccd_info: chip(1920, 1080),
        binning: 1,
    });
    let region = cam.start_exposure_check(true, is_open(&e)).unwrap();
    assert_eq!(region, roi(10, 20, 1920, 1080));
    let res = cam.start_exposure_region_set(Err(DeviceFailure));
    assert_eq!(res, Err(AscomError::invalid_value(ErrorDetail::FailedToSetRoi)));
    assert_eq!(res.unwrap_err().message(), "failed to set ROI");
}

#[test]
fn exposure_start_exposure_fail_is_exposing_no_miri() {
    let (cam, e) = new_camera(CameraSetup::WithBinningAndRoiAndCcdInfoAndExposing {
        times: 11,
        roi: roi(10, 20, 1920, 1080),
        ccd_info: chip(1920, 1080),
        binning: 1,
        expected_duration_us: 1000,
    });
    cam.start_exposure_check(true, is_open(&e)).unwrap();
    assert_eq!(
        cam.start_exposure_region_set(Ok(())),
        Err(AscomError::from_code(ErrorCode::InvalidOperation))
    );
}

#[test]
fn exposure_start_exposure_success_no_miri() {
    let (mut cam, e) = new_camera(CameraSetup::WithBinningAndRoiAndCcdInfoUnlimited {
        roi: roi(10, 20, 1920, 1080),
        ccd_info: chip(1920, 1080),
        binning: 1,
    });
    assert_eq!(e.times, None);
    let o = is_open(&e);
    cam.start_exposure_check(true, o).unwrap();
    cam.start_exposure_region_set(Ok(())).unwrap();
    let exposure = cam.begin_exposure(1_000_000, 1_700_000_000_000_000, Ok(())).unwrap();
    assert_eq!(exposure, 1);
    assert_eq!(cam.camera_state(o), Ok(CameraActivity::Exposing));
    assert_eq!(cam.image_ready(o), Ok(false));
    assert_eq!(cam.last_exposure_duration_us(o), Ok(1_000_000));
    assert_eq!(cam.last_exposure_start_us(o), Ok(1_700_000_000_000_000));
    let frame = frame_to_image(&vec![0, 0, 1, 0, 2, 0, 3, 0, 4, 0, 5, 0], 3, 2, 16, 1).ok();
    assert!(cam.finish_exposure(exposure, frame));
    assert_eq!(cam.camera_state(o), Ok(CameraActivity::Idle));
    assert_eq!(cam.image_ready(o), Ok(true));
    assert_eq!(
        cam.image(o).unwrap().pixels,
        Pixels::Sixteen(vec![0, 3, 1, 4, 2, 5])
    );
}

#[test]
fn exposure_start_exposure_fail_no_miri() {
    // The exposure time is refused: nothing starts.
    let (mut cam, _) = new_camera(CameraSetup::WithBinningAndRoiAndCcdInfoUnlimited {
        roi: roi(10, 20, 1920, 1080),
        ccd_info: chip(1920, 1080),
        binning: 1,
    });
    assert_eq!(
        cam.begin_exposure(1_000_000, 1_700_000_000_000_000, Err(DeviceFailure)),
        Err(AscomError::from_code(ErrorCode::InvalidOperation))
    );
    assert_eq!(cam.state, ExposureState::Idle);
    // The frame cannot be read: the exposure ends without an image.
    let exposure = cam.begin_exposure(1_000_000, 1_700_000_000_000_000, Ok(())).unwrap();
    assert!(cam.finish_exposure(exposure, None));
    assert_eq!(cam.camera_state(Ok(true)), Ok(CameraActivity::Idle));
    assert_eq!(code(cam.image(Ok(true)).unwrap_err()), ErrorCode::ValueNotSet);
}

#[test]
fn abort_exposure() {
    let (mut cam, _) = new_camera(CameraSetup::WithStateExposing { expected_duration_us: 10 });
    assert_eq!(
        cam.finish_abort(Err(DeviceFailure)),
        Err(AscomError::from_code(ErrorCode::Unspecified))
    );
    assert!(cam.state != ExposureState::Idle);
    assert!(cam.finish_abort(Ok(())).is_ok());
    assert_eq!(cam.state, ExposureState::Idle);
}

// ---- connection ----

#[test]
fn connection_not_connected_asyncs() {
    let (mut cam, e) = new_camera(CameraSetup::IsOpenFalse { times: 1 });
    let o = is_open(&e);
    let nc = AscomError::from_code(ErrorCode::NotConnected);
    assert_eq!(cam.camera_state(o).unwrap_err(), nc);
    assert_eq!(cam.bin(o).unwrap_err(), nc);
    assert_eq!(cam.set_bin_request(o, 1).unwrap_err(), nc);
    // The properties that ask the device about its controls or modes
    // check the connection first and never reach the device.
    assert_eq!(require_connected(o).unwrap_err(), nc);
    assert_eq!(cam.image(o).map(|_| ()).unwrap_err(), nc);
    assert_eq!(cam.image_ready(o).unwrap_err(), nc);
    assert_eq!(cam.last_exposure_duration_us(o).unwrap_err(), nc);
    assert_eq!(cam.camera_size(o, Axis::X).unwrap_err(), nc);
    assert_eq!(cam.camera_size(o, Axis::Y).unwrap_err(), nc);
    for field in [RoiField::StartX, RoiField::StartY, RoiField::NumX, RoiField::NumY] {
        assert_eq!(cam.roi_value(o, field).unwrap_err(), nc);
        assert_eq!(cam.set_roi_value(o, field, 100).unwrap_err(), nc);
    }
    assert_eq!(cam.percent_completed_start(o).unwrap_err(), nc);
    assert_eq!(cam.start_exposure_check(true, o).unwrap_err(), nc);
}

#[test]
fn connection_qhyccd_camera() {
    let cam = QhyccdCamera::new("test_camera");
    assert_eq!(cam.unique_id, "test_camera");
    assert_eq!(cam.name, "QHYCCD-test_camera");
    assert_eq!(cam.description, "QHYCCD camera");
    assert_eq!(cam.binning, 1);
    assert!(cam.valid_bins.is_none());
    assert!(cam.intended_roi.is_none());
    assert!(cam.last_exposure_duration_us.is_none());
    assert!(cam.last_image.is_none());
    assert_eq!(cam.state, ExposureState::Idle);
}

#[test]
fn connection_camera_state() {
    let (cam, e) = new_camera(CameraSetup::WithState { times: 1, state: ExposureState::Idle });
    assert_eq!(cam.camera_state(is_open(&e)), Ok(CameraActivity::Idle));
    let (cam, e) = new_camera(CameraSetup::WithState {
        times: 1,
        state: ExposureState::Exposing { expected_duration_us: 1_000 },
    });
    assert_eq!(cam.camera_state(is_open(&e)), Ok(CameraActivity::Exposing));
}

#[test]
fn connection_connected_fail() {
    assert_eq!(
        qhyccd_alpaca_core::error::connected(Err(DeviceFailure)),
        Err(AscomError::from_code(ErrorCode::NotConnected))
    );
}

#[test]
fn connection_set_connected_already_connected() {
    let (mut cam, e) = new_camera(CameraSetup::IsOpenTrue { times: 1 });
    let (res, calls) = set_connected(&mut cam, true, is_open(&e), |_| unreachable!());
    assert!(res.is_ok());
    assert!(calls.is_empty());
}

#[test]
fn connection_set_connected_already_disconnected() {
    let (mut cam, e) = new_camera(CameraSetup::IsOpenFalse { times: 1 });
    let (res, calls) = set_connected(&mut cam, false, is_open(&e), |_| unreachable!());
    assert!(res.is_ok());
    assert!(calls.is_empty());
}

#[test]
fn connection_set_connected_true() {
    let table: [([bool; 16], bool); 17] = [
        ([false, false, false, false, false, false, false, false, false, false, false, false, false, false, false, false], false),
        ([true, false, false, false, false, false, false, false, false, false, false, false, false, false, false, false], false),
        ([true, true, false, false, false, false, false, false, false, false, false, false, false, false, false, false], false),
        ([true, true, true, false, false, false, false, false, false, false, false, false, false, false, false, false], false),
        ([true, true, true, true, false, false, false, false, false, false, false, false, false, false, false, false], false),
        ([true, true, true, true, true, false, false, false, false, false, false, false, false, false, false, false], false),
        ([true, true, true, true, true, true, false, false, false, false, false, false, false, false, false, false], false),
        ([true, true, true, true, true, true, true, false, false, false, false, false, false, false, false, false], false),
        ([true, true, true, true, true, true, true, true, false, true, false, false, false, false, false, false], false),
        ([true, true, true, true, true, true, true, true, true, false, true, false, false, false, false, false], false),
        ([true, true, true, true, true, true, true, true, true, true, false, false, false, false, false, false], false),
        ([true, true, true, true, true, true, true, true, true, true, true, false, false, false, false, false], false),
        ([true, true, true, true, true, true, true, true, true, true, true, true, false, true, false, false], true),
        ([true, true, true, true, true, true, true, true, true, true, true, true, true, false, false, false], false),
        ([true, true, true, true, true, true, true, true, true, true, true, true, true, true, false, false], true),
        ([true, true, true, true, true, true, true, true, true, true, true, true, true, true, true, false], false),
        ([true, true, true, true, true, true, true, true, true, true, true, true, true, true, true, true], true),
    ];
    for (flags, expected_ok) in table {
        let [open, single_frame, stream_mode, readout_mode, init, transfer_bit, ccd_info, area, bin_modes, speed, speed_range, exposure_range, gain, gain_range, offset, offset_range] =
            flags;
        let (mut cam, e) = new_camera(CameraSetup::IsOpenFalse { times: 1 });
        let (res, calls) = set_connected(&mut cam, true, is_open(&e), |call| match call {
            CameraCall::Open => CameraReply::Done(ok_or_fail(open, ())),
            CameraCall::IsControlAvailable(CameraControl::SingleFrameMode) => {
                CameraReply::Available(single_frame.then_some(0))
            }
            CameraCall::SetSingleFrameStreamMode => CameraReply::Done(ok_or_fail(stream_mode, ())),
            CameraCall::SetReadoutMode(0) => CameraReply::Done(ok_or_fail(readout_mode, ())),
            CameraCall::Init => CameraReply::Done(ok_or_fail(init, ())),
            CameraCall::SetTransferBit16 => CameraReply::Done(ok_or_fail(transfer_bit, ())),
            CameraCall::GetChipInfo => CameraReply::ChipInfo(ok_or_fail(ccd_info, chip(1920, 1080))),
            CameraCall::GetEffectiveArea => CameraReply::Area(ok_or_fail(area, roi(0, 0, 100, 100))),
            CameraCall::CheckBinModes => CameraReply::BinModes([bin_modes; 6]),
            CameraCall::IsControlAvailable(CameraControl::Speed) => {
                CameraReply::Available(speed.then_some(0))
            }
            CameraCall::GetRange(RangeControl::Speed) => CameraReply::Done(ok_or_fail(speed_range, ())),
            CameraCall::GetRange(RangeControl::Exposure) => {
                CameraReply::Done(ok_or_fail(exposure_range, ()))
            }
            CameraCall::IsControlAvailable(CameraControl::Gain) => {
                CameraReply::Available(gain.then_some(0))
            }
            CameraCall::GetRange(RangeControl::Gain) => CameraReply::Done(ok_or_fail(gain_range, ())),
            CameraCall::IsControlAvailable(CameraControl::Offset) => {
                CameraReply::Available(offset.then_some(0))
            }
            CameraCall::GetRange(RangeControl::Offset) => {
                CameraReply::Done(ok_or_fail(offset_range, ()))
            }
            other => panic!("unexpected call {:?}", other),
        });
        if expected_ok {
            assert!(res.is_ok(), "flags {:?}", flags);
            assert_eq!(cam.ccd_info, Some(chip(1920, 1080)));
            assert_eq!(cam.intended_roi, Some(roi(0, 0, 100, 100)));
            assert_eq!(cam.valid_bins, Some(vec![1, 2, 3, 4, 6, 8]));
        } else {
            assert_eq!(res, Err(AscomError::from_code(ErrorCode::NotConnected)), "flags {:?}", flags);
        }
        assert_eq!(calls[0], CameraCall::Open);
    }
}

#[test]
fn connection_set_connected_false_success() {
    for (close, expected) in [
        (Ok(()), Ok(())),
        (Err(DeviceFailure), Err(AscomError::from_code(ErrorCode::NotConnected))),
    ] {
        let (mut cam, e) = new_camera(CameraSetup::IsOpenTrue { times: 1 });
        let (res, calls) = set_connected(&mut cam, false, is_open(&e), |call| {
            assert_eq!(call, CameraCall::Close);
            CameraReply::Done(close)
        });
        assert_eq!(res, expected);
        assert_eq!(calls, vec![CameraCall::Close]);
    }
}

#[test]
fn error_numbers_and_messages() {
    assert_eq!(ErrorCode::NotImplemented.number(), 0x400);
    assert_eq!(ErrorCode::InvalidValue.number(), 0x401);
    assert_eq!(ErrorCode::ValueNotSet.number(), 0x402);
    assert_eq!(ErrorCode::NotConnected.number(), 0x407);
    assert_eq!(ErrorCode::InvalidOperation.number(), 0x40B);
    assert_eq!(
        AscomError::from_code(ErrorCode::NotConnected).message(),
        "The communications channel is not connected."
    );
    assert_eq!(
        AscomError::invalid_operation(ErrorDetail::GainRangeMissing).message(),
        "camera reports gain control available, but min, max values are not set after initialization"
    );
}

#[test]
fn binning_sensor_name_success() {
    let (cam, e) = new_camera(CameraSetup::IsOpenTrue { times: 1 });
    assert_eq!(cam.sensor_name(is_open(&e)).unwrap(), "test");
    assert_eq!(
        QhyccdCamera::new("QHY600M-abc123").sensor_name(Ok(true)).unwrap(),
        "QHY600M"
    );
    assert_eq!(QhyccdCamera::new("QHY5III").sensor_name(Ok(true)).unwrap(), "QHY5III");
    assert_eq!(
        code(QhyccdCamera::new("QHY5III").sensor_name(Ok(false)).unwrap_err()),
        ErrorCode::NotConnected
    );
}

#[test]
fn rescaling_limits() {
    assert!(roi_can_be_rescaled(None, 8, 1));
    assert!(roi_can_be_rescaled(Some(roi(10, 20, 1920, 1080)), 8, 1));
    assert!(!roi_can_be_rescaled(Some(roi(u32::MAX, 0, 1, 1)), 2, 1));
    assert!(roi_can_be_rescaled(Some(roi(u32::MAX, 0, 1, 1)), 2, 2));
    assert!(roi_can_be_rescaled(Some(roi(u32::MAX, 0, 1, 1)), 8, 8));
    assert!(roi_can_be_rescaled(Some(roi(u32::MAX, 0, 1, 1)), 1, 2));
    // The product exceeds 32 bits but the result does not.
    assert!(roi_can_be_rescaled(Some(roi(0x4000_0000, 0, 1, 1)), 8, 4));
}

#[test]
fn set_bin_refuses_a_region_too_large_for_the_binning() {
    let (mut cam, e) = new_camera(CameraSetup::WithBinningAndValidBinsAndRoiAndCcdInfo {
        times: 9,
        roi: roi(0, 0, 0x7FFF_FFFF, 10),
        ccd_info: chip(1920, 1080),
        binning: 4,
        valid_bins: vec![1, 2, 4],
    });
    let o = is_open(&e);
    let mut calls = Vec::new();
    let res = set_bin(&mut cam, o, 1, Ok(()), &mut calls);
    assert_eq!(
        res,
        Err(AscomError::invalid_value(ErrorDetail::RegionTooLargeForBinning))
    );
    assert_eq!(res.unwrap_err().message(), "region too large for this binning");
    assert!(calls.is_empty());
    assert_eq!(cam.bin(o), Ok(4));
    assert_eq!(cam.roi_value(o, RoiField::NumX), Ok(0x7FFF_FFFF));
    // Binning 2 only doubles the region, which still fits.
    assert!(set_bin(&mut cam, o, 2, Ok(()), &mut calls).is_ok());
    assert_eq!(calls, vec![2]);
    assert_eq!(cam.roi_value(o, RoiField::NumX), Ok(0xFFFF_FFFE));
}

#[test]
fn start_exposure_with_binning_zero_reports_earlier_errors() {
    let (cam, _) = new_camera(CameraSetup::Untouched);
    assert_eq!(cam.binning, 0);
    assert_eq!(
        code(cam.start_exposure_check(true, Ok(false)).unwrap_err()),
        ErrorCode::NotConnected
    );
    assert_eq!(
        code(cam.start_exposure_check(true, Ok(true)).unwrap_err()),
        ErrorCode::ValueNotSet
    );
    let (cam, _) = new_camera(CameraSetup::WithRoi { times: 1, roi: Some(roi(0, 0, 10, 10)) });
    assert_eq!(
        code(cam.start_exposure_check(true, Ok(true)).unwrap_err()),
        ErrorCode::ValueNotSet
    );
}

#[test]
fn stale_frame_is_ignored() {
    let (mut cam, _) = new_camera(CameraSetup::WithBinningAndRoiAndCcdInfoUnlimited {
        roi: roi(0, 0, 2, 1),
        ccd_info: chip(1920, 1080),
        binning: 1,
    });
    let first = cam.begin_exposure(1_000, 10, Ok(())).unwrap();
    assert!(cam.finish_abort(Ok(())).is_ok());
    let late = frame_to_image(&vec![1, 2], 2, 1, 8, 1).ok();
    assert!(!cam.finish_exposure(first, late.clone()));
    assert_eq!(cam.state, ExposureState::Idle);
    assert!(cam.last_image.is_none());
    let second = cam.begin_exposure(2_000, 20, Ok(())).unwrap();
    assert_ne!(first, second);
    assert!(!cam.finish_exposure(first, late));
    assert_eq!(cam.camera_state(Ok(true)), Ok(CameraActivity::Exposing));
    let fresh = frame_to_image(&vec![7, 8], 2, 1, 8, 1).ok();
    assert!(cam.finish_exposure(second, fresh));
    assert_eq!(cam.image(Ok(true)).unwrap().pixels, Pixels::Eight(vec![7, 8]));
    assert_eq!(cam.last_exposure_duration_us(Ok(true)), Ok(2_000));
    assert_eq!(cam.last_exposure_start_us(Ok(true)), Ok(20));
}

#[test]
fn exposure_last_exposure_start_time() {
    for (start_us, expected) in [
        (Some(0_u64), Ok(0_u64)),
        (None, Err(AscomError::from_code(ErrorCode::ValueNotSet))),
    ] {
        let (cam, e) = new_camera(CameraSetup::WithLastExposureStart { start_us });
        assert_eq!(e.times, Some(1));
        assert_eq!(cam.last_exposure_start_us(is_open(&e)), expected);
    }
    let (cam, _) = new_camera(CameraSetup::Untouched);
    assert_eq!(
        cam.last_exposure_start_us(Ok(false)),
        Err(AscomError::from_code(ErrorCode::NotConnected))
    );
}

#[test]
fn exposure_numbers_wrap() {
    let (mut cam, _) = new_camera(CameraSetup::Untouched);
    cam.exposures_begun = u64::MAX;
    assert_eq!(cam.begin_exposure(1, 0, Ok(())), Ok(0));
    assert_eq!(cam.exposures_begun, 0);
}

#[test]
fn require_control_checks_presence() {
    assert_eq!(require_control(Some(0)), Ok(()));
    assert_eq!(
        require_control(None),
        Err(AscomError::from_code(ErrorCode::NotImplemented))
    );
}
