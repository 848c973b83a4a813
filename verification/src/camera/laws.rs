//! Properties of the camera driver that span several operations.

use vstd::prelude::*;
use crate::error::{AscomError, DeviceFailure, ErrorCode, ErrorDetail, Reply};
use crate::camera::{ChipGeometry, ExposureState, FrameImage, QhyccdCamera, Roi, CameraActivity, err};
use crate::camera::geometry::{
    spec_bin_mode, spec_valid_bins_upto, BinDecision, RoiField, roi_field, roi_scalable, spec_rescale, spec_rescale_roi, spec_valid_bins,
};
use crate::camera::exposure::spec_percent;
use crate::camera::connect::{
    CameraCall, CameraConnectPhase, CameraConnectStep, CameraControl, CameraReply, RangeControl,
    spec_bins_after, spec_chip_after, spec_connect_start, spec_connect_step, spec_roi_after,
};
use crate::camera::image::{column_index, image_of_frame, raw_u16, row_index};
use crate::camera::Pixels;
use crate::camera::sensor::spec_bayer_offsets;

verus! {

/// Changing the binning keeps the region on the same part of the sensor: a
/// position `v` at binning `from` becomes the position at binning `to` that
/// holds it, rounded down.
pub proof fn lemma_rescale_keeps_sensor_position(v: u32, from: u8, to: u8)
    requires
        from > 0,
        to > 0,
    ensures
        spec_rescale(v, from, to) * to <= v * from,
        v * from < (spec_rescale(v, from, to) + 1) * to,
        (v * from) % (to as int) == 0 ==> spec_rescale(v, from, to) * to == v * from,
{
    let p = v * from;
    let q = p / (to as int);
    assert(q * to <= p && p < (q + 1) * to) by (nonlinear_arith)
        requires
            to > 0,
            p >= 0,
            q == p / (to as int),
    ;
    assert(p % (to as int) == 0 ==> q * to == p) by (nonlinear_arith)
        requires
            to > 0,
            p >= 0,
            q == p / (to as int),
    ;
}

/// The camera only bins the way its device offers, only calls the device
/// when the binning changes, and does so exactly when every edge of the
/// rescaled region still fits 32 bits (refusing the change otherwise);
/// once the device accepts, BinX/BinY report the new binning.
pub proof fn lemma_bin_changes(cam: QhyccdCamera, bin: u8)
    ensures
        cam.spec_set_bin_decision(Ok(true), bin) matches Ok(BinDecision::SetMode(b)) ==> (b == bin
            && b != cam.binning),
        cam.spec_set_bin_decision(Ok(true), bin) is Ok ==> (cam.valid_bins matches Some(v)
            && v@.contains(bin)),
        cam.spec_set_bin_decision(Ok(true), bin) matches Ok(BinDecision::SetMode(b)) ==> (b > 0
            && roi_scalable(cam.intended_roi, cam.binning, b)),
        (cam.valid_bins matches Some(v) && v@.contains(cam.binning) && cam.binning > 0)
            ==> cam.spec_set_bin_decision(
            Ok(true),
            cam.binning,
        ) == Ok::<BinDecision, AscomError>(BinDecision::Unchanged),
        cam.spec_after_set_bin(bin, Ok(())).binning == bin,
        cam.spec_after_set_bin(bin, Err(DeviceFailure)) == cam,
        (cam.valid_bins matches Some(v) && v@.contains(bin) && bin > 0 && bin != cam.binning && (
        cam.intended_roi matches Some(r) ==> {
            &&& r.start_x * cam.binning / (bin as int) <= u32::MAX
            &&& r.start_y * cam.binning / (bin as int) <= u32::MAX
            &&& r.width * cam.binning / (bin as int) <= u32::MAX
            &&& r.height * cam.binning / (bin as int) <= u32::MAX
        })) ==> cam.spec_set_bin_decision(Ok(true), bin) == Ok::<BinDecision, AscomError>(
            BinDecision::SetMode(bin),
        ),
        cam.spec_set_bin_decision(Ok(true), bin) == Err::<BinDecision, AscomError>(
            AscomError::invalid_value_spec(ErrorDetail::RegionTooLargeForBinning),
        ) ==> (cam.intended_roi matches Some(r) && {
            ||| r.start_x * cam.binning / (bin as int) > u32::MAX
            ||| r.start_y * cam.binning / (bin as int) > u32::MAX
            ||| r.width * cam.binning / (bin as int) > u32::MAX
            ||| r.height * cam.binning / (bin as int) > u32::MAX
        }),
{
}

/// Reading back a region edge: once SetStartX/SetStartY/SetNumX/SetNumY
/// succeeded, the matching property reports the value written and the other
/// edges are unchanged.
pub proof fn lemma_roi_read_after_write(cam: QhyccdCamera, field: RoiField, other: RoiField, value: u32)
    requires
        cam.intended_roi is Some,
    ensures
        ({
            let (r, roi) = cam.spec_set_roi_value(Ok(true), field, value);
            let after = QhyccdCamera { intended_roi: roi, ..cam };
            &&& r is Ok
            &&& after.spec_roi_value(Ok(true), field) == Ok::<u32, AscomError>(value)
            &&& other != field ==> after.spec_roi_value(Ok(true), other) == cam.spec_roi_value(
                Ok(true),
                other,
            )
        }),
{
}

/// An exposure is only started on a region that lies on the sensor at the
/// current binning.
pub proof fn lemma_exposed_region_fits(cam: QhyccdCamera, is_open: Reply<bool>)
    requires
        cam.binning > 0,
        cam.spec_start_exposure_check(true, is_open) is Ok,
    ensures
        ({
            let roi = cam.spec_start_exposure_check(true, is_open).unwrap();
            let info = cam.ccd_info.unwrap();
            &&& cam.ccd_info is Some
            &&& roi.start_x <= roi.width
            &&& roi.start_y <= roi.height
            &&& roi.width * cam.binning <= info.image_width
            &&& roi.height * cam.binning <= info.image_height
        }),
{
    let roi = cam.spec_start_exposure_check(true, is_open).unwrap();
    let info = cam.ccd_info.unwrap();
    let b = cam.binning as int;
    assert(roi.width * b <= info.image_width) by (nonlinear_arith)
        requires
            b > 0,
            roi.width <= (info.image_width as int) / b,
    ;
    assert(roi.height * b <= info.image_height) by (nonlinear_arith)
        requires
            b > 0,
            roi.height <= (info.image_height as int) / b,
    ;
}

/// The life of an exposure: once begun the camera reports that it is
/// exposing, that no image is ready, and refuses a second exposure; once
/// the frame arrives it is idle again, the image is ready and is the frame
/// read, and the last exposure's duration and start are the ones begun.
pub proof fn lemma_exposure_lifecycle(cam: QhyccdCamera, duration_us: u32, started_us: u64, frame: FrameImage)
    ensures
        ({
            let exposing = cam.spec_after_begin(duration_us, started_us, Ok(()));
            let done = exposing.spec_after_finish(exposing.exposures_begun, Some(frame));
            &&& exposing.spec_camera_state(Ok(true)) == Ok::<CameraActivity, AscomError>(
                CameraActivity::Exposing,
            )
            &&& exposing.spec_image_ready(Ok(true)) == Ok::<bool, AscomError>(false)
            &&& exposing.state is Exposing
            &&& done.spec_camera_state(Ok(true)) == Ok::<CameraActivity, AscomError>(CameraActivity::Idle)
            &&& done.spec_image_ready(Ok(true)) == Ok::<bool, AscomError>(true)
            &&& done.last_image == Some(frame)
            &&& done.last_exposure_duration_us == Some(duration_us)
            &&& done.last_exposure_start_us == Some(started_us)
        }),
        cam.spec_after_begin(duration_us, started_us, Err(DeviceFailure)) == cam,
{
}

/// A late frame never overwrites a newer state: the frame of an exposure
/// that was aborted changes nothing, nor does it once another exposure has
/// begun, and only the frame of the running exposure is taken.
pub proof fn lemma_stale_frame_is_ignored(
    cam: QhyccdCamera,
    first_us: u32,
    first_start_us: u64,
    second_us: u32,
    second_start_us: u64,
    frame: Option<FrameImage>,
)
    ensures
        ({
            let first = cam.spec_after_begin(first_us, first_start_us, Ok(()));
            let stale = first.exposures_begun;
            let aborted = QhyccdCamera { state: ExposureState::Idle, ..first };
            let second = aborted.spec_after_begin(second_us, second_start_us, Ok(()));
            &&& aborted.spec_after_finish(stale, frame) == aborted
            &&& second.exposures_begun != stale
            &&& second.spec_after_finish(stale, frame) == second
            &&& second.spec_after_finish(second.exposures_begun, frame) == (QhyccdCamera {
                state: ExposureState::Idle,
                last_image: frame,
                ..second
            })
        }),
{
}

/// PercentCompleted never exceeds 100, reports the device's figure exactly
/// while it is below 100, and is 100 once the device reports the whole
/// expected duration; with no expected duration a zero report is 0 and
/// any other 100.
pub proof fn lemma_percent_bounds(remaining_us: u32, expected_duration_us: u32)
    ensures
        spec_percent(remaining_us, expected_duration_us) <= 100,
        expected_duration_us == 0 ==> spec_percent(remaining_us, expected_duration_us) == (if remaining_us
            == 0 {
            0int
        } else {
            100int
        }),
        expected_duration_us > 0 && remaining_us >= expected_duration_us ==> spec_percent(
            remaining_us,
            expected_duration_us,
        ) == 100,
        expected_duration_us > 0 && remaining_us < expected_duration_us ==> spec_percent(
            remaining_us,
            expected_duration_us,
        ) == 100 * (remaining_us as int) / (expected_duration_us as int),
{
    if expected_duration_us > 0 {
        let r = remaining_us as int;
        let e = expected_duration_us as int;
        assert(r >= e ==> 100 * r / e >= 100) by (nonlinear_arith)
            requires
                e > 0,
        ;
        assert(r < e ==> 100 * r / e < 100) by (nonlinear_arith)
            requires
                e > 0,
                r >= 0,
        ;
    }
}

/// What a connection records, and where a sequence of replies ends (`None`
/// while it still asks for a call).
pub struct ConnectCache {
    pub ccd_info: Option<ChipGeometry>,
    pub roi: Option<Roi>,
    pub bins: Option<Seq<u8>>,
}

pub open spec fn spec_run_connect(cache: ConnectCache, step: CameraConnectStep, replies: Seq<CameraReply>) -> (
    ConnectCache,
    Option<Result<(), AscomError>>,
)
    decreases replies.len(),
{
    match step {
        CameraConnectStep::Finished(r) => (cache, Some(r)),
        CameraConnectStep::Call { phase, .. } => if replies.len() == 0 {
            (cache, None)
        } else {
            let reply = replies[0];
            spec_run_connect(
                ConnectCache {
                    ccd_info: spec_chip_after(cache.ccd_info, phase, reply),
                    roi: spec_roi_after(cache.roi, phase, reply),
                    bins: spec_bins_after(cache.bins, phase, reply),
                },
                spec_connect_step(phase, reply),
                replies.drop_first(),
            )
        },
    }
}

/// The replies of a device that supports every step of the connection,
/// including the readout-speed, gain and offset controls.
pub open spec fn full_connect_replies(info: ChipGeometry, area: Roi, bins: [bool; 6]) -> Seq<CameraReply> {
    seq![
        CameraReply::Done(Ok(())),
        CameraReply::Available(Some(0)),
        CameraReply::Done(Ok(())),
        CameraReply::Done(Ok(())),
        CameraReply::Done(Ok(())),
        CameraReply::Done(Ok(())),
        CameraReply::ChipInfo(Ok(info)),
        CameraReply::Area(Ok(area)),
        CameraReply::BinModes(bins),
        CameraReply::Available(Some(0)),
        CameraReply::Done(Ok(())),
        CameraReply::Done(Ok(())),
        CameraReply::Available(Some(0)),
        CameraReply::Done(Ok(())),
        CameraReply::Available(Some(0)),
        CameraReply::Done(Ok(())),
    ]
}

/// The replies of a device without readout-speed, gain or offset controls.
pub open spec fn minimal_connect_replies(info: ChipGeometry, area: Roi, bins: [bool; 6]) -> Seq<CameraReply> {
    seq![
        CameraReply::Done(Ok(())),
        CameraReply::Available(Some(0)),
        CameraReply::Done(Ok(())),
        CameraReply::Done(Ok(())),
        CameraReply::Done(Ok(())),
        CameraReply::Done(Ok(())),
        CameraReply::ChipInfo(Ok(info)),
        CameraReply::Area(Ok(area)),
        CameraReply::BinModes(bins),
        CameraReply::Available(None),
        CameraReply::Done(Ok(())),
        CameraReply::Available(None),
        CameraReply::Available(None),
    ]
}

/// Dropping the first reply after skipping `n` is skipping `n + 1`.
proof fn lemma_skip_then_drop(s: Seq<CameraReply>)
    requires
        s.len() > 0,
    ensures
        s.drop_first() == s.skip(1),
        forall|n: int| 0 <= n < s.len() ==> #[trigger] s.skip(n).drop_first() == s.skip(n + 1),
        s.skip(s.len() as int) == Seq::<CameraReply>::empty(),
{
    assert(s.drop_first() =~= s.skip(1));
    assert forall|n: int| 0 <= n < s.len() implies #[trigger] s.skip(n).drop_first() == s.skip(n + 1) by {
        assert(s.skip(n).drop_first() =~= s.skip(n + 1));
    }
    assert(s.skip(s.len() as int) =~= Seq::<CameraReply>::empty());
}

/// Connecting a closed camera that supports every step succeeds, and the
/// driver then knows the chip, takes the effective area as the region of
/// interest and caches the binnings the device offers; the optional
/// controls may be missing without harm.
pub proof fn lemma_connect_success(cache: ConnectCache, info: ChipGeometry, area: Roi, bins: [bool; 6])
    ensures
        spec_run_connect(cache, spec_connect_start(true, Ok(false)), full_connect_replies(info, area, bins))
            == (ConnectCache { ccd_info: Some(info), roi: Some(area), bins: Some(spec_valid_bins(bins@)) }, Some(
            Ok::<(), AscomError>(()),
        )),
        spec_run_connect(cache, spec_connect_start(true, Ok(false)), minimal_connect_replies(info, area, bins))
            == (ConnectCache { ccd_info: Some(info), roi: Some(area), bins: Some(spec_valid_bins(bins@)) }, Some(
            Ok::<(), AscomError>(()),
        )),
{
    reveal_with_fuel(spec_run_connect, 18);
    lemma_skip_then_drop(full_connect_replies(info, area, bins));
    lemma_skip_then_drop(minimal_connect_replies(info, area, bins));
}

/// No connection step goes on past a failed device call or a camera
/// without single-frame mode: such a reply ends the change with "not
/// connected" and records nothing.
pub proof fn lemma_failed_call_refuses(phase: CameraConnectPhase, cache: ConnectCache)
    ensures
        spec_connect_step(phase, CameraReply::Done(Err(DeviceFailure))) == CameraConnectStep::Finished(
            Err(err(ErrorCode::NotConnected)),
        ),
        spec_connect_step(phase, CameraReply::ChipInfo(Err(DeviceFailure)))
            == CameraConnectStep::Finished(Err(err(ErrorCode::NotConnected))),
        spec_connect_step(phase, CameraReply::Area(Err(DeviceFailure))) == CameraConnectStep::Finished(
            Err(err(ErrorCode::NotConnected)),
        ),
        spec_connect_step(CameraConnectPhase::CheckingSingleFrameMode, CameraReply::Available(None))
            == CameraConnectStep::Finished(Err(err(ErrorCode::NotConnected))),
        spec_chip_after(cache.ccd_info, phase, CameraReply::ChipInfo(Err(DeviceFailure))) == cache.ccd_info,
        spec_roi_after(cache.roi, phase, CameraReply::Area(Err(DeviceFailure))) == cache.roi,
{
}

/// Connected is left alone when it already has the wanted value, and a
/// device that cannot say whether it is open cannot be connected or
/// disconnected.
pub proof fn lemma_connect_start(connect: bool)
    ensures
        spec_connect_start(connect, Ok(connect)) == CameraConnectStep::Finished(Ok(())),
        spec_connect_start(connect, Err(DeviceFailure)) == CameraConnectStep::Finished(
            Err(err(ErrorCode::NotConnected)),
        ),
{
}

/// A 16-bit frame is read little-endian over the full range: pixel (x, y)
/// of the image is the byte pair of the frame's pixel (x, y), low byte
/// first, as a number from 0 to 65535; an 8-bit pixel is its byte.
pub proof fn lemma_frame_pixels(img: FrameImage, data: Seq<u8>, width: u32, height: u32, x: int, y: int)
    requires
        image_of_frame(img, data, width, height),
        0 <= x < width,
        0 <= y < height,
    ensures
        match img.pixels {
            Pixels::Sixteen(p) => p@[x * height + y] as int == data[2 * (y * width + x)] as int
                + 256 * (data[2 * (y * width + x) + 1] as int),
            Pixels::Eight(p) => p@[x * height + y] == data[y * width + x],
        },
{
    let lo = data[2 * (y * width + x)] as int;
    let hi = data[2 * (y * width + x) + 1] as int;
    assert(0 <= lo + 256 * hi <= 65535) by (nonlinear_arith)
        requires
            0 <= lo <= 255,
            0 <= hi <= 255,
    ;
    match img.pixels {
        Pixels::Sixteen(p) => {
            assert(p@[column_index(x, y, height as int)] == raw_u16(data, row_index(x, y, width as int)));
        },
        Pixels::Eight(p) => {
            assert(p@[column_index(x, y, height as int)] == data[row_index(x, y, width as int)]);
        },
    }
}

/// Every 16-bit value can be read: the two bytes of `v`, low byte first,
/// make a frame pixel of value `v` (so a saturated pixel `[0xFF, 0xFF]` is
/// 65535).
pub proof fn lemma_frame_pixel_range(img: FrameImage, data: Seq<u8>, v: u16)
    requires
        image_of_frame(img, data, 1, 1),
        img.pixels is Sixteen,
        data[0] == (v % 256) as u8,
        data[1] == (v / 256) as u8,
    ensures
        match img.pixels {
            Pixels::Sixteen(p) => p@[0] == v,
            Pixels::Eight(_) => true,
        },
{
    lemma_frame_pixels(img, data, 1, 1, 0, 0);
}

/// StartExposure begins an exposure of the duration asked for, whatever
/// came before: once the device accepts, the camera is exposing for
/// exactly `duration_us` (the duration PercentCompleted measures against)
/// and reports it as the last exposure duration.
pub proof fn lemma_begin_expects_requested_duration(cam: QhyccdCamera, duration_us: u32, started_us: u64)
    ensures
        cam.spec_after_begin(duration_us, started_us, Ok(())).state == (ExposureState::Exposing {
            expected_duration_us: duration_us,
        }),
        cam.spec_after_begin(duration_us, started_us, Ok(())).last_exposure_duration_us == Some(
            duration_us,
        ),
{
}

/// The device calls a connection makes, in order: each call asked for,
/// followed by those its reply leads to.
pub open spec fn spec_connect_calls(step: CameraConnectStep, replies: Seq<CameraReply>) -> Seq<CameraCall>
    decreases replies.len(),
{
    match step {
        CameraConnectStep::Finished(_) => Seq::empty(),
        CameraConnectStep::Call { phase, call } => if replies.len() == 0 {
            seq![call]
        } else {
            seq![call] + spec_connect_calls(spec_connect_step(phase, replies[0]), replies.drop_first())
        },
    }
}

/// Connecting a camera with every optional control reads, in order: open,
/// single-frame mode, readout mode 0, init, 16-bit transfers, chip info,
/// effective area, bin modes, then the speed, exposure, gain and offset
/// ranges, each range after the control is found present; a camera without
/// the speed, gain and offset controls skips those ranges.
pub proof fn lemma_connect_calls(info: ChipGeometry, area: Roi, bins: [bool; 6])
    ensures
        spec_connect_calls(spec_connect_start(true, Ok(false)), full_connect_replies(info, area, bins))
            == seq![
            CameraCall::Open,
            CameraCall::IsControlAvailable(CameraControl::SingleFrameMode),
            CameraCall::SetSingleFrameStreamMode,
            CameraCall::SetReadoutMode(0),
            CameraCall::Init,
            CameraCall::SetTransferBit16,
            CameraCall::GetChipInfo,
            CameraCall::GetEffectiveArea,
            CameraCall::CheckBinModes,
            CameraCall::IsControlAvailable(CameraControl::Speed),
            CameraCall::GetRange(RangeControl::Speed),
            CameraCall::GetRange(RangeControl::Exposure),
            CameraCall::IsControlAvailable(CameraControl::Gain),
            CameraCall::GetRange(RangeControl::Gain),
            CameraCall::IsControlAvailable(CameraControl::Offset),
            CameraCall::GetRange(RangeControl::Offset),
        ],
        spec_connect_calls(spec_connect_start(true, Ok(false)), minimal_connect_replies(info, area, bins))
            == seq![
            CameraCall::Open,
            CameraCall::IsControlAvailable(CameraControl::SingleFrameMode),
            CameraCall::SetSingleFrameStreamMode,
            CameraCall::SetReadoutMode(0),
            CameraCall::Init,
            CameraCall::SetTransferBit16,
            CameraCall::GetChipInfo,
            CameraCall::GetEffectiveArea,
            CameraCall::CheckBinModes,
            CameraCall::IsControlAvailable(CameraControl::Speed),
            CameraCall::GetRange(RangeControl::Exposure),
            CameraCall::IsControlAvailable(CameraControl::Gain),
            CameraCall::IsControlAvailable(CameraControl::Offset),
        ],
{
    reveal_with_fuel(spec_connect_calls, 18);
    lemma_skip_then_drop(full_connect_replies(info, area, bins));
    lemma_skip_then_drop(minimal_connect_replies(info, area, bins));
    assert(spec_connect_calls(spec_connect_start(true, Ok(false)), full_connect_replies(info, area, bins))
        =~= seq![
        CameraCall::Open,
        CameraCall::IsControlAvailable(CameraControl::SingleFrameMode),
        CameraCall::SetSingleFrameStreamMode,
        CameraCall::SetReadoutMode(0),
        CameraCall::Init,
        CameraCall::SetTransferBit16,
        CameraCall::GetChipInfo,
        CameraCall::GetEffectiveArea,
        CameraCall::CheckBinModes,
        CameraCall::IsControlAvailable(CameraControl::Speed),
        CameraCall::GetRange(RangeControl::Speed),
        CameraCall::GetRange(RangeControl::Exposure),
        CameraCall::IsControlAvailable(CameraControl::Gain),
        CameraCall::GetRange(RangeControl::Gain),
        CameraCall::IsControlAvailable(CameraControl::Offset),
        CameraCall::GetRange(RangeControl::Offset),
    ]);
    assert(spec_connect_calls(spec_connect_start(true, Ok(false)), minimal_connect_replies(info, area, bins))
        =~= seq![
        CameraCall::Open,
        CameraCall::IsControlAvailable(CameraControl::SingleFrameMode),
        CameraCall::SetSingleFrameStreamMode,
        CameraCall::SetReadoutMode(0),
        CameraCall::Init,
        CameraCall::SetTransferBit16,
        CameraCall::GetChipInfo,
        CameraCall::GetEffectiveArea,
        CameraCall::CheckBinModes,
        CameraCall::IsControlAvailable(CameraControl::Speed),
        CameraCall::GetRange(RangeControl::Exposure),
        CameraCall::IsControlAvailable(CameraControl::Gain),
        CameraCall::IsControlAvailable(CameraControl::Offset),
    ]);
}

/// The binning of each of the six bin-mode controls (1x1, 2x2, 3x3, 4x4,
/// 6x6, 8x8).
pub open spec fn bin_of_mode(i: int) -> int {
    if i <= 0 {
        1
    } else if i == 1 {
        2
    } else if i == 2 {
        3
    } else if i == 3 {
        4
    } else if i == 4 {
        6
    } else {
        8
    }
}

/// MaxBinX / MaxBinY is the largest binning offered: it exists exactly when
/// some bin-mode control is available, is the binning of an available mode,
/// and no available mode bins more.
pub proof fn lemma_max_bin_is_largest(available: Seq<bool>)
    requires
        available.len() == 6,
    ensures
        QhyccdCamera::spec_max_bin(available) is Ok <==> exists|i: int| 0 <= i < 6 && available[i],
        QhyccdCamera::spec_max_bin(available) matches Ok(m) ==> {
            &&& exists|i: int| 0 <= i < 6 && available[i] && bin_of_mode(i) == m
            &&& forall|i: int| 0 <= i < 6 && available[i] ==> bin_of_mode(i) <= m
        },
{
    lemma_valid_bins_last(available);
}

/// The binnings offered up to mode `k` are in increasing order and none
/// exceeds that of mode `k - 1`.
proof fn lemma_valid_bins_upto_sorted(available: Seq<bool>, k: int)
    requires
        available.len() == 6,
        0 <= k <= 6,
    ensures
        ({
            let s = spec_valid_bins_upto(available, k);
            &&& forall|j1: int, j2: int| 0 <= j1 < j2 < s.len() ==> #[trigger] s[j1] < #[trigger] s[j2]
            &&& forall|j: int| 0 <= j < s.len() ==> #[trigger] s[j] <= bin_of_mode(k - 1)
        }),
    decreases k,
{
    if k > 0 {
        lemma_valid_bins_upto_sorted(available, k - 1);
        let prev = spec_valid_bins_upto(available, k - 1);
        let s = spec_valid_bins_upto(available, k);
        assert(spec_bin_mode(k - 1) == bin_of_mode(k - 1));
        if k >= 2 {
            assert(bin_of_mode(k - 2) < bin_of_mode(k - 1));
        }
        if available[k - 1] {
            assert(s == prev.push(spec_bin_mode(k - 1)));
            assert forall|j: int| 0 <= j < s.len() implies #[trigger] s[j] <= bin_of_mode(k - 1) by {
                if j < prev.len() {
                    assert(s[j] == prev[j]);
                }
            }
            assert forall|j1: int, j2: int| 0 <= j1 < j2 < s.len() implies #[trigger] s[j1] < #[trigger] s[j2] by {
                assert(s[j1] == prev[j1]);
                if j2 < prev.len() {
                    assert(s[j2] == prev[j2]);
                } else {
                    assert(prev[j1] <= bin_of_mode(k - 2));
                }
            }
        } else {
            assert(s == prev);
        }
    }
}

/// Whether `b` is the binning of an available mode below `k`.
pub open spec fn is_mode_binning(available: Seq<bool>, k: int, b: int) -> bool {
    exists|i: int| 0 <= i < k && available[i] && bin_of_mode(i) == b
}

/// Every binning offered up to mode `k` is that of an available mode below
/// `k`, and there are none when no such mode is available.
proof fn lemma_valid_bins_upto_sound(available: Seq<bool>, k: int)
    requires
        available.len() == 6,
        0 <= k <= 6,
    ensures
        ({
            let s = spec_valid_bins_upto(available, k);
            &&& s.len() == 0 <==> forall|i: int| 0 <= i < k ==> !available[i]
            &&& forall|j: int| 0 <= j < s.len() ==> is_mode_binning(available, k, #[trigger] s[j] as int)
        }),
    decreases k,
{
    if k > 0 {
        lemma_valid_bins_upto_sound(available, k - 1);
        let prev = spec_valid_bins_upto(available, k - 1);
        let s = spec_valid_bins_upto(available, k);
        assert(spec_bin_mode(k - 1) == bin_of_mode(k - 1));
        assert forall|b: int| is_mode_binning(available, k - 1, b) implies #[trigger] is_mode_binning(
            available,
            k,
            b,
        ) by {
            let i = choose|i: int| 0 <= i < k - 1 && available[i] && bin_of_mode(i) == b;
            assert(0 <= i < k && available[i] && bin_of_mode(i) == b);
        }
        if available[k - 1] {
            assert(s == prev.push(spec_bin_mode(k - 1)));
            assert forall|j: int| 0 <= j < s.len() implies is_mode_binning(available, k, #[trigger] s[j] as int) by {
                if j < prev.len() {
                    assert(s[j] == prev[j]);
                    assert(is_mode_binning(available, k - 1, prev[j] as int));
                } else {
                    assert(0 <= k - 1 < k && available[k - 1] && bin_of_mode(k - 1) == s[j]);
                }
            }
            assert(!(forall|i: int| 0 <= i < k ==> !available[i])) by {
                assert(0 <= k - 1 < k && available[k - 1]);
            }
        } else {
            assert(s == prev);
            assert forall|j: int| 0 <= j < s.len() implies is_mode_binning(available, k, #[trigger] s[j] as int) by {
                assert(is_mode_binning(available, k - 1, prev[j] as int));
            }
            assert((forall|i: int| 0 <= i < k ==> !available[i]) <==> (forall|i: int|
                0 <= i < k - 1 ==> !available[i])) by {
                if forall|i: int| 0 <= i < k - 1 ==> !available[i] {
                    assert forall|i: int| 0 <= i < k implies !available[i] by {
                        if i < k - 1 {
                        }
                    }
                }
            }
        }
    } else {
        assert(spec_valid_bins_upto(available, k) =~= Seq::<u8>::empty());
    }
}

/// The binning of every available mode below `k` is offered.
proof fn lemma_valid_bins_upto_complete(available: Seq<bool>, k: int, i: int)
    requires
        available.len() == 6,
        0 <= i < k <= 6,
        available[i],
    ensures
        exists|j: int| 0 <= j < spec_valid_bins_upto(available, k).len()
            && spec_valid_bins_upto(available, k)[j] == bin_of_mode(i),
    decreases k,
{
    let prev = spec_valid_bins_upto(available, k - 1);
    let s = spec_valid_bins_upto(available, k);
    assert(spec_bin_mode(k - 1) == bin_of_mode(k - 1));
    if i == k - 1 {
        assert(s == prev.push(spec_bin_mode(k - 1)));
        assert(s[s.len() - 1] == bin_of_mode(i));
    } else {
        lemma_valid_bins_upto_complete(available, k - 1, i);
        let j = choose|j: int| 0 <= j < prev.len() && prev[j] == bin_of_mode(i);
        if available[k - 1] {
            assert(s == prev.push(spec_bin_mode(k - 1)));
        } else {
            assert(s == prev);
        }
        assert(s[j] == prev[j]);
    }
}

/// The largest binning offered is the last one listed, and it exists
/// exactly when some mode is available.
proof fn lemma_valid_bins_last(available: Seq<bool>)
    requires
        available.len() == 6,
    ensures
        ({
            let s = spec_valid_bins(available);
            &&& s.len() == 0 <==> forall|i: int| 0 <= i < 6 ==> !available[i]
            &&& s.len() > 0 ==> exists|i: int| 0 <= i < 6 && available[i] && bin_of_mode(i) == s.last()
            &&& s.len() > 0 ==> forall|i: int| 0 <= i < 6 && available[i] ==> bin_of_mode(i) <= s.last()
        }),
{
    lemma_valid_bins_upto_sound(available, 6);
    lemma_valid_bins_upto_sorted(available, 6);
    let s = spec_valid_bins(available);
    if s.len() > 0 {
        assert(s.last() == s[s.len() - 1]);
        assert(is_mode_binning(available, 6, s[s.len() - 1] as int));
        assert forall|i: int| 0 <= i < 6 && available[i] implies bin_of_mode(i) <= s.last() by {
            lemma_valid_bins_upto_complete(available, 6, i);
            let j = choose|j: int| 0 <= j < s.len() && s[j] == bin_of_mode(i);
            if j < s.len() - 1 {
                assert(s[j] < s[s.len() - 1]);
            }
        }
    }
}

/// The binnings a camera caches on connecting are exactly those of its
/// available bin-mode controls, each once, in increasing order.
pub proof fn lemma_valid_bins_are_offered_modes(available: Seq<bool>)
    requires
        available.len() == 6,
    ensures
        forall|b: u8| #[trigger] spec_valid_bins(available).contains(b) <==> exists|i: int|
            0 <= i < 6 && available[i] && bin_of_mode(i) == b,
        forall|j1: int, j2: int|
            0 <= j1 < j2 < spec_valid_bins(available).len() ==> #[trigger] spec_valid_bins(available)[j1]
                < #[trigger] spec_valid_bins(available)[j2],
{
    lemma_valid_bins_upto_sound(available, 6);
    lemma_valid_bins_upto_sorted(available, 6);
    let s = spec_valid_bins(available);
    assert forall|b: u8| #[trigger] s.contains(b) <==> exists|i: int|
        0 <= i < 6 && available[i] && bin_of_mode(i) == b by {
        if s.contains(b) {
            let j = choose|j: int| 0 <= j < s.len() && s[j] == b;
            assert(is_mode_binning(available, 6, s[j] as int));
        }
        if exists|i: int| 0 <= i < 6 && available[i] && bin_of_mode(i) == b {
            let i = choose|i: int| 0 <= i < 6 && available[i] && bin_of_mode(i) == b;
            lemma_valid_bins_upto_complete(available, 6, i);
            let j = choose|j: int| 0 <= j < s.len() && s[j] == bin_of_mode(i);
            assert(s[j] == b);
        }
    }
}

/// The Bayer patterns the device reports as modes 1 to 4 (GBRG, GRBG,
/// BGGR, RGGB) put the red pixel at offsets (0, 1), (1, 0), (1, 1) and
/// (0, 0); no other mode is a known pattern.
pub proof fn lemma_bayer_offsets(mode: u32)
    ensures
        mode == 1 ==> spec_bayer_offsets(mode) == Some((0u8, 1u8)),
        mode == 2 ==> spec_bayer_offsets(mode) == Some((1u8, 0u8)),
        mode == 3 ==> spec_bayer_offsets(mode) == Some((1u8, 1u8)),
        mode == 4 ==> spec_bayer_offsets(mode) == Some((0u8, 0u8)),
        (mode < 1 || mode > 4) ==> spec_bayer_offsets(mode) is None,
{
}

} // verus!
