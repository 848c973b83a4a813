//! Colour sensor layout and capability queries.

use vstd::prelude::*;
use crate::error::{AscomError, ErrorCode};
use crate::camera::err;
use crate::camera::geometry::Axis;

verus! {

/// The sensor types this driver reports.
#[derive(Debug, Clone, Copy, PartialEq, Eq, Structural)]
pub enum SensorKind {
    Monochrome,
    /// A Bayer-matrix colour sensor; the offsets say where red sits.
    Rggb,
}

/// What SensorType / BayerOffsetX / BayerOffsetY do after asking whether
/// the camera is a colour camera.
#[derive(Debug, Clone, Copy, PartialEq, Eq, Structural)]
pub enum ColorQuery {
    /// The answer is known without asking further.
    Monochrome,
    /// Ask the device for its Bayer mode (the colour control), then call
    /// the matching `..._from_bayer_mode`.
    AskBayerMode,
}

/// The Bayer patterns the device reports, by number: the offsets (x, y) of
/// the red pixel in the 2x2 pattern.
pub open spec fn spec_bayer_offsets(mode: u32) -> Option<(u8, u8)> {
    if mode == 1 {
        Some((0u8, 1u8))
    } else if mode == 2 {
        Some((1u8, 0u8))
    } else if mode == 3 {
        Some((1u8, 1u8))
    } else if mode == 4 {
        Some((0u8, 0u8))
    } else {
        None
    }
}

fn bayer_offsets(mode: u32) -> (r: Option<(u8, u8)>)
    ensures
        r == spec_bayer_offsets(mode),
{
    if mode == 1 {
        Some((0, 1))
    } else if mode == 2 {
        Some((1, 0))
    } else if mode == 3 {
        Some((1, 1))
    } else if mode == 4 {
        Some((0, 0))
    } else {
        None
    }
}

/// SensorType, once `require_connected` passed: a camera without the
/// colour control is monochrome, else its Bayer mode is asked for.
pub fn sensor_type_start(is_color: Option<u32>) -> (q: ColorQuery)
    ensures
        q == (if is_color is None {
            ColorQuery::Monochrome
        } else {
            ColorQuery::AskBayerMode
        }),
{
    match is_color {
        None => ColorQuery::Monochrome,
        Some(_) => ColorQuery::AskBayerMode,
    }
}

/// The last step of SensorType: a colour camera with a known Bayer pattern
/// is reported as a Bayer sensor; an unknown or missing pattern is an
/// invalid value.
pub fn sensor_type_from_bayer_mode(bayer_mode: Option<u32>) -> (r: Result<SensorKind, AscomError>)
    ensures
        r == (match bayer_mode {
            Some(m) if spec_bayer_offsets(m) is Some => Ok::<SensorKind, AscomError>(SensorKind::Rggb),
            _ => Err(err(ErrorCode::InvalidValue)),
        }),
{
    match bayer_mode {
        Some(m) => match bayer_offsets(m) {
            Some(_) => Ok(SensorKind::Rggb),
            None => Err(AscomError::from_code(ErrorCode::InvalidValue)),
        },
        None => Err(AscomError::from_code(ErrorCode::InvalidValue)),
    }
}

/// BayerOffsetX / BayerOffsetY, once `require_connected` passed: a
/// monochrome camera has no Bayer offsets.
pub fn bayer_offset_start(is_color: Option<u32>) -> (r: Result<(), AscomError>)
    ensures
        r == (if is_color is None {
            Err::<(), AscomError>(err(ErrorCode::NotImplemented))
        } else {
            Ok(())
        }),
{
    match is_color {
        None => Err(AscomError::from_code(ErrorCode::NotImplemented)),
        Some(_) => Ok(()),
    }
}

/// The last step of BayerOffsetX / BayerOffsetY: the offset of the red
/// pixel along `axis` in the device's Bayer pattern.
pub fn bayer_offset_from_bayer_mode(bayer_mode: Option<u32>, axis: Axis) -> (r: Result<u8, AscomError>)
    ensures
        r == (match bayer_mode {
            Some(m) if spec_bayer_offsets(m) is Some => Ok::<u8, AscomError>(
                match axis {
                    Axis::X => spec_bayer_offsets(m).unwrap().0,
                    Axis::Y => spec_bayer_offsets(m).unwrap().1,
                },
            ),
            _ => Err(err(ErrorCode::InvalidValue)),
        }),
{
    match bayer_mode {
        Some(m) => match bayer_offsets(m) {
            Some((x, y)) => Ok(
                match axis {
                    Axis::X => x,
                    Axis::Y => y,
                },
            ),
            None => Err(AscomError::from_code(ErrorCode::InvalidValue)),
        },
        None => Err(AscomError::from_code(ErrorCode::InvalidValue)),
    }
}

/// HasShutter, CanSetCCDTemperature, CanGetCoolerPower, once
/// `require_connected` passed: whether the device reports the control
/// behind the capability (mechanical shutter, cooler).
pub fn control_available(control: Option<u32>) -> (b: bool)
    ensures
        b == control is Some,
{
    control.is_some()
}

/// The check every property behind an optional control makes (cooler,
/// gain, offset, readout speed): a device without the control does not
/// implement the property.
pub fn require_control(control: Option<u32>) -> (r: Result<(), AscomError>)
    ensures
        r == (if control is Some {
            Ok::<(), AscomError>(())
        } else {
            Err(err(ErrorCode::NotImplemented))
        }),
{
    match control {
        Some(_) => Ok(()),
        None => Err(AscomError::from_code(ErrorCode::NotImplemented)),
    }
}

/// CanFastReadout, once `require_connected` passed: the device has a
/// readout-speed control and its range was read when connecting.
pub fn can_fast_readout(speed_control: Option<u32>, speed_range_known: bool) -> (b: bool)
    ensures
        b == (speed_control is Some && speed_range_known),
{
    speed_control.is_some() && speed_range_known
}

} // verus!
