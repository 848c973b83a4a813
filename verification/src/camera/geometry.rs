//! Sensor size, region of interest and binning.

use vstd::prelude::*;
use crate::error::{AscomError, ErrorCode, ErrorDetail, Reply, require_connected, spec_require_connected};
use crate::camera::{QhyccdCamera, Roi, err, not_connected_error};

verus! {

/// Which edge of the region a ROI property reads or writes.
#[derive(Debug, Clone, Copy, PartialEq, Eq, Structural)]
pub enum RoiField {
    StartX,
    StartY,
    NumX,
    NumY,
}

/// Which axis of the sensor a property is about.
#[derive(Debug, Clone, Copy, PartialEq, Eq, Structural)]
pub enum Axis {
    X,
    Y,
}

/// What SetBinX / SetBinY does after its checks.
#[derive(Debug, Clone, Copy, PartialEq, Eq, Structural)]
pub enum BinDecision {
    /// The camera already bins this way: nothing to do.
    Unchanged,
    /// Ask the device for this symmetric binning, then call `finish_set_bin`.
    SetMode(u8),
}

pub open spec fn roi_field(roi: Roi, field: RoiField) -> u32 {
    match field {
        RoiField::StartX => roi.start_x,
        RoiField::StartY => roi.start_y,
        RoiField::NumX => roi.width,
        RoiField::NumY => roi.height,
    }
}

pub open spec fn with_roi_field(roi: Roi, field: RoiField, value: u32) -> Roi {
    match field {
        RoiField::StartX => Roi { start_x: value, ..roi },
        RoiField::StartY => Roi { start_y: value, ..roi },
        RoiField::NumX => Roi { width: value, ..roi },
        RoiField::NumY => Roi { height: value, ..roi },
    }
}

/// The binnings the device may offer, in the order the driver asks for them
/// (the 1x1, 2x2, 3x3, 4x4, 6x6 and 8x8 bin-mode controls).
pub open spec fn spec_bin_mode(i: int) -> u8 {
    if i == 0 {
        1
    } else if i == 1 {
        2
    } else if i == 2 {
        3
    } else if i == 3 {
        4
    } else if i == 4 {
        6
    } else {
        8
    }
}

/// The binnings offered, in increasing order, given which of the six
/// bin-mode controls the device reports available.
pub open spec fn spec_valid_bins(available: Seq<bool>) -> Seq<u8> {
    spec_valid_bins_upto(available, 6)
}

pub open spec fn spec_valid_bins_upto(available: Seq<bool>, k: int) -> Seq<u8>
    decreases k,
{
    if k <= 0 {
        Seq::empty()
    } else {
        let prefix = spec_valid_bins_upto(available, k - 1);
        if available[k - 1] {
            prefix.push(spec_bin_mode(k - 1))
        } else {
            prefix
        }
    }
}

/// A position or size scaled from one binning to another.
pub open spec fn spec_rescale(v: u32, from_bin: u8, to_bin: u8) -> int {
    (v as int) * (from_bin as int) / (to_bin as int)
}

pub open spec fn spec_rescale_roi(roi: Roi, from_bin: u8, to_bin: u8) -> Roi {
    Roi {
        start_x: spec_rescale(roi.start_x, from_bin, to_bin) as u32,
        start_y: spec_rescale(roi.start_y, from_bin, to_bin) as u32,
        width: spec_rescale(roi.width, from_bin, to_bin) as u32,
        height: spec_rescale(roi.height, from_bin, to_bin) as u32,
    }
}

/// Whether every edge of the region, rescaled from binning `from_bin` to
/// `to_bin`, still fits a 32-bit value.
pub open spec fn roi_scalable(roi: Option<Roi>, from_bin: u8, to_bin: u8) -> bool {
    roi matches Some(r) ==> {
        &&& spec_rescale(r.start_x, from_bin, to_bin) <= u32::MAX
        &&& spec_rescale(r.start_y, from_bin, to_bin) <= u32::MAX
        &&& spec_rescale(r.width, from_bin, to_bin) <= u32::MAX
        &&& spec_rescale(r.height, from_bin, to_bin) <= u32::MAX
    }
}

proof fn lemma_scaled_fits(v: u32, f: u8)
    ensures
        (v as int) * (f as int) <= u32::MAX as int * 255,
{
    assert((v as int) * (f as int) <= u32::MAX as int * 255) by (nonlinear_arith)
        requires
            v <= u32::MAX,
            f <= 255,
            0 <= v,
            0 <= f,
    ;
}

/// A position or size scaled from one binning to another, computed in 64
/// bits; `None` when the result does not fit 32 bits.
fn rescale_checked(v: u32, from_bin: u8, to_bin: u8) -> (r: Option<u32>)
    requires
        to_bin > 0,
    ensures
        r == (if spec_rescale(v, from_bin, to_bin) <= u32::MAX {
            Some(spec_rescale(v, from_bin, to_bin) as u32)
        } else {
            None
        }),
{
    proof {
        lemma_scaled_fits(v, from_bin);
    }
    let scaled: u64 = (v as u64) * (from_bin as u64) / (to_bin as u64);
    if scaled <= u32::MAX as u64 {
        Some(scaled as u32)
    } else {
        None
    }
}

/// Whether the region can be rescaled from binning `from_bin` to `to_bin`
/// with every edge still fitting 32 bits.
pub fn roi_can_be_rescaled(roi: Option<Roi>, from_bin: u8, to_bin: u8) -> (b: bool)
    requires
        to_bin > 0,
    ensures
        b == roi_scalable(roi, from_bin, to_bin),
{
    match roi {
        None => true,
        Some(r) => rescale_checked(r.start_x, from_bin, to_bin).is_some() && rescale_checked(
            r.start_y,
            from_bin,
            to_bin,
        ).is_some() && rescale_checked(r.width, from_bin, to_bin).is_some() && rescale_checked(
            r.height,
            from_bin,
            to_bin,
        ).is_some(),
    }
}

fn rescale(v: u32, from_bin: u8, to_bin: u8) -> (r: u32)
    requires
        to_bin > 0,
        spec_rescale(v, from_bin, to_bin) <= u32::MAX,
    ensures
        r == spec_rescale(v, from_bin, to_bin),
{
    match rescale_checked(v, from_bin, to_bin) {
        Some(scaled) => scaled,
        None => 0,
    }
}

/// Lists the binnings offered, given which of the six bin-mode controls the
/// device reports available.
pub fn valid_bins_from(available: &[bool; 6]) -> (bins: Vec<u8>)
    ensures
        bins@ == spec_valid_bins(available@),
{
    let modes: [u8; 6] = [1, 2, 3, 4, 6, 8];
    let mut bins: Vec<u8> = Vec::new();
    let mut i: usize = 0;
    while i < 6
        invariant
            i <= 6,
            available@.len() == 6,
            modes@ == seq![1u8, 2u8, 3u8, 4u8, 6u8, 8u8],
            bins@ == spec_valid_bins_upto(available@, i as int),
        decreases 6 - i,
    {
        assert(modes@[i as int] == spec_bin_mode(i as int));
        if available[i] {
            bins.push(modes[i]);
        }
        i = i + 1;
    }
    bins
}

impl QhyccdCamera {
    // ---- sensor size ----

    /// CameraXSize / CameraYSize: the full frame in unbinned pixels.
    pub open spec fn spec_camera_size(self, is_open: Reply<bool>, axis: Axis) -> Result<u32, AscomError> {
        if spec_require_connected(is_open) is Err {
            Err(not_connected_error())
        } else {
            match self.ccd_info {
                None => Err(err(ErrorCode::ValueNotSet)),
                Some(info) => Ok(
                    match axis {
                        Axis::X => info.image_width,
                        Axis::Y => info.image_height,
                    },
                ),
            }
        }
    }

    pub fn camera_size(&self, is_open: Reply<bool>, axis: Axis) -> (r: Result<u32, AscomError>)
        ensures
            r == self.spec_camera_size(is_open, axis),
    {
        require_connected(is_open)?;
        match self.ccd_info {
            None => Err(AscomError::from_code(ErrorCode::ValueNotSet)),
            Some(info) => Ok(
                match axis {
                    Axis::X => info.image_width,
                    Axis::Y => info.image_height,
                },
            ),
        }
    }

    // ---- region of interest ----

    /// StartX, StartY, NumX, NumY.
    pub open spec fn spec_roi_value(self, is_open: Reply<bool>, field: RoiField) -> Result<u32, AscomError> {
        if spec_require_connected(is_open) is Err {
            Err(not_connected_error())
        } else {
            match self.intended_roi {
                None => Err(err(ErrorCode::ValueNotSet)),
                Some(roi) => Ok(roi_field(roi, field)),
            }
        }
    }

    pub fn roi_value(&self, is_open: Reply<bool>, field: RoiField) -> (r: Result<u32, AscomError>)
        ensures
            r == self.spec_roi_value(is_open, field),
    {
        require_connected(is_open)?;
        match self.intended_roi {
            None => Err(AscomError::from_code(ErrorCode::ValueNotSet)),
            Some(roi) => Ok(
                match field {
                    RoiField::StartX => roi.start_x,
                    RoiField::StartY => roi.start_y,
                    RoiField::NumX => roi.width,
                    RoiField::NumY => roi.height,
                },
            ),
        }
    }

    /// SetStartX, SetStartY, SetNumX, SetNumY: change one edge of the region
    /// the next exposure reads; refused while no region is known.
    pub open spec fn spec_set_roi_value(
        self,
        is_open: Reply<bool>,
        field: RoiField,
        value: u32,
    ) -> (Result<(), AscomError>, Option<Roi>) {
        if spec_require_connected(is_open) is Err {
            (Err(not_connected_error()), self.intended_roi)
        } else {
            match self.intended_roi {
                None => (Err(err(ErrorCode::InvalidValue)), None),
                Some(roi) => (Ok(()), Some(with_roi_field(roi, field, value))),
            }
        }
    }

    pub fn set_roi_value(&mut self, is_open: Reply<bool>, field: RoiField, value: u32) -> (r: Result<
        (),
        AscomError,
    >)
        ensures
            (r, final(self).intended_roi) == old(self).spec_set_roi_value(is_open, field, value),
            *final(self) == (QhyccdCamera { intended_roi: final(self).intended_roi, ..*old(self) }),
    {
        require_connected(is_open)?;
        match self.intended_roi {
            None => Err(AscomError::from_code(ErrorCode::InvalidValue)),
            Some(roi) => {
                let updated = match field {
                    RoiField::StartX => Roi { start_x: value, ..roi },
                    RoiField::StartY => Roi { start_y: value, ..roi },
                    RoiField::NumX => Roi { width: value, ..roi },
                    RoiField::NumY => Roi { height: value, ..roi },
                };
                self.intended_roi = Some(updated);
                Ok(())
            },
        }
    }

    // ---- binning ----

    /// BinX / BinY: the symmetric binning in use.
    pub fn bin(&self, is_open: Reply<bool>) -> (r: Result<u8, AscomError>)
        ensures
            spec_require_connected(is_open) is Ok ==> r == Ok::<u8, AscomError>(self.binning),
            spec_require_connected(is_open) is Err ==> r == Err::<u8, AscomError>(
                not_connected_error(),
            ),
    {
        require_connected(is_open)?;
        Ok(self.binning)
    }

    /// MaxBinX / MaxBinY, once `require_connected` passed: the largest
    /// binning the device offers, from the six bin-mode controls it reports
    /// available.
    pub open spec fn spec_max_bin(available: Seq<bool>) -> Result<u8, AscomError> {
        let bins = spec_valid_bins(available);
        if bins.len() == 0 {
            Err(err(ErrorCode::InvalidOperation))
        } else {
            Ok(bins.last())
        }
    }

    pub fn max_bin(available: &[bool; 6]) -> (r: Result<u8, AscomError>)
        ensures
            r == Self::spec_max_bin(available@),
    {
        let bins = valid_bins_from(available);
        if bins.len() == 0 {
            Err(AscomError::from_code(ErrorCode::InvalidOperation))
        } else {
            Ok(bins[bins.len() - 1])
        }
    }

    /// The checks of SetBinX / SetBinY and what they then do.
    pub open spec fn spec_set_bin_decision(self, is_open: Reply<bool>, bin: u8) -> Result<
        BinDecision,
        AscomError,
    > {
        if spec_require_connected(is_open) is Err {
            Err(not_connected_error())
        } else {
            match self.valid_bins {
                None => Err(not_connected_error()),
                Some(bins) => if !bins@.contains(bin) || bin == 0 {
                    Err(AscomError::invalid_value_spec(ErrorDetail::BinNotValid))
                } else if bin == self.binning {
                    Ok(BinDecision::Unchanged)
                } else if !roi_scalable(self.intended_roi, self.binning, bin) {
                    Err(AscomError::invalid_value_spec(ErrorDetail::RegionTooLargeForBinning))
                } else {
                    Ok(BinDecision::SetMode(bin))
                },
            }
        }
    }

    /// First half of SetBinX / SetBinY: only a binning the device offers is
    /// accepted, the device is not asked again for the binning in use, and a
    /// change that would push an edge of the region past 32 bits is refused.
    pub fn set_bin_request(&self, is_open: Reply<bool>, bin: u8) -> (r: Result<BinDecision, AscomError>)
        ensures
            r == self.spec_set_bin_decision(is_open, bin),
    {
        require_connected(is_open)?;
        match &self.valid_bins {
            None => Err(AscomError::not_connected()),
            Some(bins) => {
                let mut found = false;
                let mut i: usize = 0;
                while i < bins.len()
                    invariant
                        i <= bins@.len(),
                        found <==> exists|k: int| 0 <= k < i && bins@[k] == bin,
                    decreases bins@.len() - i,
                {
                    if bins[i] == bin {
                        found = true;
                    }
                    i = i + 1;
                }
                if !found || bin == 0 {
                    Err(AscomError::invalid_value(ErrorDetail::BinNotValid))
                } else if bin == self.binning {
                    Ok(BinDecision::Unchanged)
                } else if !roi_can_be_rescaled(self.intended_roi, self.binning, bin) {
                    Err(AscomError::invalid_value(ErrorDetail::RegionTooLargeForBinning))
                } else {
                    Ok(BinDecision::SetMode(bin))
                }
            },
        }
    }

    /// The camera once the device answered a change of binning.
    pub open spec fn spec_after_set_bin(self, bin: u8, reply: Reply<()>) -> QhyccdCamera {
        match reply {
            Err(_) => self,
            Ok(_) => QhyccdCamera {
                binning: bin,
                intended_roi: match self.intended_roi {
                    None => None,
                    Some(roi) => Some(spec_rescale_roi(roi, self.binning, bin)),
                },
                ..self
            },
        }
    }

    /// Second half of SetBinX / SetBinY: once the device accepted the
    /// binning, the region is scaled to it, so that it still covers the same
    /// part of the sensor.
    pub fn finish_set_bin(&mut self, bin: u8, reply: Reply<()>) -> (r: Result<(), AscomError>)
        requires
            bin > 0,
            roi_scalable(old(self).intended_roi, old(self).binning, bin),
        ensures
            reply is Ok ==> r is Ok,
            reply is Err ==> r == Err::<(), AscomError>(err(ErrorCode::ValueNotSet)),
            *final(self) == old(self).spec_after_set_bin(bin, reply),
    {
        match reply {
            Err(_) => Err(AscomError::from_code(ErrorCode::ValueNotSet)),
            Ok(()) => {
                let from = self.binning;
                self.intended_roi = match self.intended_roi {
                    None => None,
                    Some(roi) => Some(
                        Roi {
                            start_x: rescale(roi.start_x, from, bin),
                            start_y: rescale(roi.start_y, from, bin),
                            width: rescale(roi.width, from, bin),
                            height: rescale(roi.height, from, bin),
                        },
                    ),
                };
                self.binning = bin;
                Ok(())
            },
        }
    }
}

} // verus!
