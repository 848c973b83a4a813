//! Connecting and disconnecting the camera: the sequence of device calls
//! that brings a camera into single-frame operation and reads what the
//! driver needs to know about it.

use vstd::prelude::*;
use crate::error::{AscomError, Reply};
use crate::camera::{ChipGeometry, QhyccdCamera, Roi, not_connected_error};
use crate::camera::geometry::{spec_valid_bins, valid_bins_from};

verus! {

/// A control whose availability the driver asks about while connecting.
#[derive(Debug, Clone, Copy, PartialEq, Eq, Structural)]
pub enum CameraControl {
    SingleFrameMode,
    Speed,
    Gain,
    Offset,
}

/// A control whose range (minimum, maximum, step) the driver reads while
/// connecting.
#[derive(Debug, Clone, Copy, PartialEq, Eq, Structural)]
pub enum RangeControl {
    Speed,
    Exposure,
    Gain,
    Offset,
}

/// A device call the driver asks its caller to make.
#[derive(Debug, Clone, Copy, PartialEq, Eq, Structural)]
pub enum CameraCall {
    Open,
    Close,
    IsControlAvailable(CameraControl),
    /// Switch the device to single-frame streaming.
    SetSingleFrameStreamMode,
    SetReadoutMode(u32),
    Init,
    /// Ask for 16-bit transfers, if the device has the control.
    SetTransferBit16,
    GetChipInfo,
    GetEffectiveArea,
    /// Ask about the six bin-mode controls (1x1, 2x2, 3x3, 4x4, 6x6, 8x8).
    CheckBinModes,
    /// Read the range of a control; the caller keeps the range it gets.
    GetRange(RangeControl),
}

/// The reply to a `CameraCall`.
#[derive(Debug, Clone, Copy, PartialEq, Eq)]
pub enum CameraReply {
    /// For open, close, mode changes, init, the transfer bits and ranges.
    Done(Reply<()>),
    /// For availability questions.
    Available(Option<u32>),
    ChipInfo(Reply<ChipGeometry>),
    Area(Reply<Roi>),
    /// Which of the six bin-mode controls are available.
    BinModes([bool; 6]),
}

/// How far a change of the Connected property has come: the call whose
/// reply is awaited.
#[derive(Debug, Clone, Copy, PartialEq, Eq, Structural)]
pub enum CameraConnectPhase {
    Opening,
    CheckingSingleFrameMode,
    SettingStreamMode,
    SettingReadoutMode,
    Initializing,
    SettingTransferBit,
    ReadingChipInfo,
    ReadingEffectiveArea,
    CheckingBinModes,
    CheckingSpeed,
    ReadingSpeedRange,
    ReadingExposureRange,
    CheckingGain,
    ReadingGainRange,
    CheckingOffset,
    ReadingOffsetRange,
    Closing,
}

/// What the driver does next while changing the Connected property.
#[derive(Debug, Clone, Copy, PartialEq, Eq)]
pub enum CameraConnectStep {
    /// Make `call`, then hand its reply to `set_connected_step` with `phase`.
    Call { phase: CameraConnectPhase, call: CameraCall },
    /// The change is over, with this result.
    Finished(Result<(), AscomError>),
}

pub open spec fn call(phase: CameraConnectPhase, call: CameraCall) -> CameraConnectStep {
    CameraConnectStep::Call { phase, call }
}

pub open spec fn refused() -> CameraConnectStep {
    CameraConnectStep::Finished(Err(not_connected_error()))
}

/// The connection sequence: open; require single-frame mode and switch to
/// it; readout mode 0; init; 16-bit transfers; chip info; effective area;
/// bin modes; the readout-speed range if the device has that control; the
/// exposure range; the gain and offset ranges if it has those controls. A
/// failed call, a missing single-frame mode or a reply of the wrong kind
/// ends the change with "not connected".
pub open spec fn spec_connect_step(phase: CameraConnectPhase, reply: CameraReply) -> CameraConnectStep {
    match phase {
        CameraConnectPhase::Opening => match reply {
            CameraReply::Done(Ok(_)) => call(
                CameraConnectPhase::CheckingSingleFrameMode,
                CameraCall::IsControlAvailable(CameraControl::SingleFrameMode),
            ),
            _ => refused(),
        },
        CameraConnectPhase::CheckingSingleFrameMode => match reply {
            CameraReply::Available(Some(_)) => call(
                CameraConnectPhase::SettingStreamMode,
                CameraCall::SetSingleFrameStreamMode,
            ),
            _ => refused(),
        },
        CameraConnectPhase::SettingStreamMode => match reply {
            CameraReply::Done(Ok(_)) => call(
                CameraConnectPhase::SettingReadoutMode,
                CameraCall::SetReadoutMode(0),
            ),
            _ => refused(),
        },
        CameraConnectPhase::SettingReadoutMode => match reply {
            CameraReply::Done(Ok(_)) => call(CameraConnectPhase::Initializing, CameraCall::Init),
            _ => refused(),
        },
        CameraConnectPhase::Initializing => match reply {
            CameraReply::Done(Ok(_)) => call(
                CameraConnectPhase::SettingTransferBit,
                CameraCall::SetTransferBit16,
            ),
            _ => refused(),
        },
        CameraConnectPhase::SettingTransferBit => match reply {
            CameraReply::Done(Ok(_)) => call(CameraConnectPhase::ReadingChipInfo, CameraCall::GetChipInfo),
            _ => refused(),
        },
        CameraConnectPhase::ReadingChipInfo => match reply {
            CameraReply::ChipInfo(Ok(_)) => call(
                CameraConnectPhase::ReadingEffectiveArea,
                CameraCall::GetEffectiveArea,
            ),
            _ => refused(),
        },
        CameraConnectPhase::ReadingEffectiveArea => match reply {
            CameraReply::Area(Ok(_)) => call(CameraConnectPhase::CheckingBinModes, CameraCall::CheckBinModes),
            _ => refused(),
        },
        CameraConnectPhase::CheckingBinModes => match reply {
            CameraReply::BinModes(_) => call(
                CameraConnectPhase::CheckingSpeed,
                CameraCall::IsControlAvailable(CameraControl::Speed),
            ),
            _ => refused(),
        },
        CameraConnectPhase::CheckingSpeed => match reply {
            CameraReply::Available(Some(_)) => call(
                CameraConnectPhase::ReadingSpeedRange,
                CameraCall::GetRange(RangeControl::Speed),
            ),
            CameraReply::Available(None) => call(
                CameraConnectPhase::ReadingExposureRange,
                CameraCall::GetRange(RangeControl::Exposure),
            ),
            _ => refused(),
        },
        CameraConnectPhase::ReadingSpeedRange => match reply {
            CameraReply::Done(Ok(_)) => call(
                CameraConnectPhase::ReadingExposureRange,
                CameraCall::GetRange(RangeControl::Exposure),
            ),
            _ => refused(),
        },
        CameraConnectPhase::ReadingExposureRange => match reply {
            CameraReply::Done(Ok(_)) => call(
                CameraConnectPhase::CheckingGain,
                CameraCall::IsControlAvailable(CameraControl::Gain),
            ),
            _ => refused(),
        },
        CameraConnectPhase::CheckingGain => match reply {
            CameraReply::Available(Some(_)) => call(
                CameraConnectPhase::ReadingGainRange,
                CameraCall::GetRange(RangeControl::Gain),
            ),
            CameraReply::Available(None) => call(
                CameraConnectPhase::CheckingOffset,
                CameraCall::IsControlAvailable(CameraControl::Offset),
            ),
            _ => refused(),
        },
        CameraConnectPhase::ReadingGainRange => match reply {
            CameraReply::Done(Ok(_)) => call(
                CameraConnectPhase::CheckingOffset,
                CameraCall::IsControlAvailable(CameraControl::Offset),
            ),
            _ => refused(),
        },
        CameraConnectPhase::CheckingOffset => match reply {
            CameraReply::Available(Some(_)) => call(
                CameraConnectPhase::ReadingOffsetRange,
                CameraCall::GetRange(RangeControl::Offset),
            ),
            CameraReply::Available(None) => CameraConnectStep::Finished(Ok(())),
            _ => refused(),
        },
        CameraConnectPhase::ReadingOffsetRange => match reply {
            CameraReply::Done(Ok(_)) => CameraConnectStep::Finished(Ok(())),
            _ => refused(),
        },
        CameraConnectPhase::Closing => match reply {
            CameraReply::Done(Ok(_)) => CameraConnectStep::Finished(Ok(())),
            _ => refused(),
        },
    }
}

/// How a change of the Connected property starts: nothing to do when the
/// device already is in the wanted state, else open or close it.
pub open spec fn spec_connect_start(connect: bool, is_open: Reply<bool>) -> CameraConnectStep {
    match is_open {
        Err(_) => refused(),
        Ok(open) => if open == connect {
            CameraConnectStep::Finished(Ok(()))
        } else if connect {
            call(CameraConnectPhase::Opening, CameraCall::Open)
        } else {
            call(CameraConnectPhase::Closing, CameraCall::Close)
        },
    }
}

/// The binnings the camera caches, seen as a sequence.
pub open spec fn bins_view(bins: Option<Vec<u8>>) -> Option<Seq<u8>> {
    match bins {
        Some(v) => Some(v@),
        None => None,
    }
}

/// What a step records in the camera: the chip info, the effective area
/// (which becomes the region of interest) and the binnings offered.
pub open spec fn spec_chip_after(old_info: Option<ChipGeometry>, phase: CameraConnectPhase, reply: CameraReply) -> Option<ChipGeometry> {
    match (phase, reply) {
        (CameraConnectPhase::ReadingChipInfo, CameraReply::ChipInfo(Ok(info))) => Some(info),
        _ => old_info,
    }
}

pub open spec fn spec_roi_after(old_roi: Option<Roi>, phase: CameraConnectPhase, reply: CameraReply) -> Option<Roi> {
    match (phase, reply) {
        (CameraConnectPhase::ReadingEffectiveArea, CameraReply::Area(Ok(area))) => Some(area),
        _ => old_roi,
    }
}

pub open spec fn spec_bins_after(old_bins: Option<Seq<u8>>, phase: CameraConnectPhase, reply: CameraReply) -> Option<Seq<u8>> {
    match (phase, reply) {
        (CameraConnectPhase::CheckingBinModes, CameraReply::BinModes(available)) => Some(
            spec_valid_bins(available@),
        ),
        _ => old_bins,
    }
}

impl QhyccdCamera {
    pub fn set_connected_start(connect: bool, is_open: Reply<bool>) -> (s: CameraConnectStep)
        ensures
            s == spec_connect_start(connect, is_open),
    {
        match is_open {
            Err(_) => CameraConnectStep::Finished(Err(AscomError::not_connected())),
            Ok(open) => if open == connect {
                CameraConnectStep::Finished(Ok(()))
            } else if connect {
                CameraConnectStep::Call { phase: CameraConnectPhase::Opening, call: CameraCall::Open }
            } else {
                CameraConnectStep::Call { phase: CameraConnectPhase::Closing, call: CameraCall::Close }
            },
        }
    }

    /// One step of a change of the Connected property.
    pub fn set_connected_step(&mut self, phase: CameraConnectPhase, reply: CameraReply) -> (s:
        CameraConnectStep)
        ensures
            s == spec_connect_step(phase, reply),
            final(self).ccd_info == spec_chip_after(old(self).ccd_info, phase, reply),
            final(self).intended_roi == spec_roi_after(old(self).intended_roi, phase, reply),
            bins_view(final(self).valid_bins) == spec_bins_after(
                bins_view(old(self).valid_bins),
                phase,
                reply,
            ),
            final(self).binning == old(self).binning,
            final(self).state == old(self).state,
            final(self).last_exposure_duration_us == old(self).last_exposure_duration_us,
            final(self).last_image == old(self).last_image,
            final(self).last_exposure_start_us == old(self).last_exposure_start_us,
            final(self).exposures_begun == old(self).exposures_begun,
            final(self).unique_id == old(self).unique_id,
            final(self).name == old(self).name,
            final(self).description == old(self).description,
    {
        let fail = CameraConnectStep::Finished(Err(AscomError::not_connected()));
        match phase {
            CameraConnectPhase::Opening => match reply {
                CameraReply::Done(Ok(())) => CameraConnectStep::Call {
                    phase: CameraConnectPhase::CheckingSingleFrameMode,
                    call: CameraCall::IsControlAvailable(CameraControl::SingleFrameMode),
                },
                _ => fail,
            },
            CameraConnectPhase::CheckingSingleFrameMode => match reply {
                CameraReply::Available(Some(_)) => CameraConnectStep::Call {
                    phase: CameraConnectPhase::SettingStreamMode,
                    call: CameraCall::SetSingleFrameStreamMode,
                },
                _ => fail,
            },
            CameraConnectPhase::SettingStreamMode => match reply {
                CameraReply::Done(Ok(())) => CameraConnectStep::Call {
                    phase: CameraConnectPhase::SettingReadoutMode,
                    call: CameraCall::SetReadoutMode(0),
                },
                _ => fail,
            },
            CameraConnectPhase::SettingReadoutMode => match reply {
                CameraReply::Done(Ok(())) => CameraConnectStep::Call {
                    phase: CameraConnectPhase::Initializing,
                    call: CameraCall::Init,
                },
                _ => fail,
            },
            CameraConnectPhase::Initializing => match reply {
                CameraReply::Done(Ok(())) => CameraConnectStep::Call {
                    phase: CameraConnectPhase::SettingTransferBit,
                    call: CameraCall::SetTransferBit16,
                },
                _ => fail,
            },
            CameraConnectPhase::SettingTransferBit => match reply {
                CameraReply::Done(Ok(())) => CameraConnectStep::Call {
                    phase: CameraConnectPhase::ReadingChipInfo,
                    call: CameraCall::GetChipInfo,
                },
                _ => fail,
            },
            CameraConnectPhase::ReadingChipInfo => match reply {
                CameraReply::ChipInfo(Ok(info)) => {
                    self.ccd_info = Some(info);
                    CameraConnectStep::Call {
                        phase: CameraConnectPhase::ReadingEffectiveArea,
                        call: CameraCall::GetEffectiveArea,
                    }
                },
                _ => fail,
            },
            CameraConnectPhase::ReadingEffectiveArea => match reply {
                CameraReply::Area(Ok(area)) => {
                    self.intended_roi = Some(area);
                    CameraConnectStep::Call {
                        phase: CameraConnectPhase::CheckingBinModes,
                        call: CameraCall::CheckBinModes,
                    }
                },
                _ => fail,
            },
            CameraConnectPhase::CheckingBinModes => match reply {
                CameraReply::BinModes(available) => {
                    self.valid_bins = Some(valid_bins_from(&available));
                    CameraConnectStep::Call {
                        phase: CameraConnectPhase::CheckingSpeed,
                        call: CameraCall::IsControlAvailable(CameraControl::Speed),
                    }
                },
                _ => fail,
            },
            CameraConnectPhase::CheckingSpeed => match reply {
                CameraReply::Available(Some(_)) => CameraConnectStep::Call {
                    phase: CameraConnectPhase::ReadingSpeedRange,
                    call: CameraCall::GetRange(RangeControl::Speed),
                },
                CameraReply::Available(None) => CameraConnectStep::Call {
                    phase: CameraConnectPhase::ReadingExposureRange,
                    call: CameraCall::GetRange(RangeControl::Exposure),
                },
                _ => fail,
            },
            CameraConnectPhase::ReadingSpeedRange => match reply {
                CameraReply::Done(Ok(())) => CameraConnectStep::Call {
                    phase: CameraConnectPhase::ReadingExposureRange,
                    call: CameraCall::GetRange(RangeControl::Exposure),
                },
                _ => fail,
            },
            CameraConnectPhase::ReadingExposureRange => match reply {
                CameraReply::Done(Ok(())) => CameraConnectStep::Call {
                    phase: CameraConnectPhase::CheckingGain,
                    call: CameraCall::IsControlAvailable(CameraControl::Gain),
                },
                _ => fail,
            },
            CameraConnectPhase::CheckingGain => match reply {
                CameraReply::Available(Some(_)) => CameraConnectStep::Call {
                    phase: CameraConnectPhase::ReadingGainRange,
                    call: CameraCall::GetRange(RangeControl::Gain),
                },
                CameraReply::Available(None) => CameraConnectStep::Call {
                    phase: CameraConnectPhase::CheckingOffset,
                    call: CameraCall::IsControlAvailable(CameraControl::Offset),
                },
                _ => fail,
            },
            CameraConnectPhase::ReadingGainRange => match reply {
                CameraReply::Done(Ok(())) => CameraConnectStep::Call {
                    phase: CameraConnectPhase::CheckingOffset,
                    call: CameraCall::IsControlAvailable(CameraControl::Offset),
                },
                _ => fail,
            },
            CameraConnectPhase::CheckingOffset => match reply {
                CameraReply::Available(Some(_)) => CameraConnectStep::Call {
                    phase: CameraConnectPhase::ReadingOffsetRange,
                    call: CameraCall::GetRange(RangeControl::Offset),
                },
                CameraReply::Available(None) => CameraConnectStep::Finished(Ok(())),
                _ => fail,
            },
            CameraConnectPhase::ReadingOffsetRange => match reply {
                CameraReply::Done(Ok(())) => CameraConnectStep::Finished(Ok(())),
                _ => fail,
            },
            CameraConnectPhase::Closing => match reply {
                CameraReply::Done(Ok(())) => CameraConnectStep::Finished(Ok(())),
                _ => fail,
            },
        }
    }
}

} // verus!
