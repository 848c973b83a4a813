//! Readout modes.

use vstd::prelude::*;
use crate::error::{AscomError, ErrorCode, Reply};
use crate::camera::{ChipGeometry, QhyccdCamera, err};

verus! {

/// ReadoutMode, once `require_connected` passed: the mode the device
/// reports.
pub fn readout_mode(mode: Reply<u32>) -> (r: Result<usize, AscomError>)
    ensures
        r == (match mode {
            Ok(m) => Ok::<usize, AscomError>(m as usize),
            Err(_) => Err(err(ErrorCode::InvalidOperation)),
        }),
{
    match mode {
        Ok(m) => Ok(m as usize),
        Err(_) => Err(AscomError::from_code(ErrorCode::InvalidOperation)),
    }
}

/// ReadoutModes, first step once `require_connected` passed: how many names
/// to ask the device for.
pub fn readout_modes_count(count: Reply<u32>) -> (r: Result<u32, AscomError>)
    ensures
        r == (match count {
            Ok(n) => Ok::<u32, AscomError>(n),
            Err(_) => Err(err(ErrorCode::InvalidOperation)),
        }),
{
    match count {
        Ok(n) => Ok(n),
        Err(_) => Err(AscomError::from_code(ErrorCode::InvalidOperation)),
    }
}

/// ReadoutModes, second step: the names of modes 0 to n - 1 in order; any
/// name the device fails to give makes the whole list fail.
pub fn readout_modes_names(names: &Vec<Reply<String>>) -> (r: Result<Vec<String>, AscomError>)
    ensures
        r matches Ok(v) ==> v@.len() == names@.len() && forall|i: int|
            0 <= i < names@.len() ==> (#[trigger] names@[i] matches Ok(s) && s@ == v@[i]@),
        r is Err <==> exists|i: int| 0 <= i < names@.len() && #[trigger] names@[i] is Err,
        r matches Err(e) ==> e == err(ErrorCode::InvalidOperation),
{
    let mut out: Vec<String> = Vec::new();
    let mut i: usize = 0;
    while i < names.len()
        invariant
            i <= names@.len(),
            out@.len() == i,
            forall|k: int| 0 <= k < i ==> (#[trigger] names@[k] matches Ok(s) && s@ == out@[k]@),
        decreases names@.len() - i,
    {
        match &names[i] {
            Ok(name) => {
                out.push(name.clone());
            },
            Err(_) => {
                return Err(AscomError::from_code(ErrorCode::InvalidOperation));
            },
        }
        i = i + 1;
    }
    Ok(out)
}

impl QhyccdCamera {
    /// SetReadoutMode, first step once `require_connected` passed: the mode
    /// must be one of the modes the device counts; a failed count is an
    /// invalid value too. `Ok` asks the caller to read the mode's resolution.
    pub fn set_readout_mode_check(mode: usize, count: Reply<u32>) -> (r: Result<u32, AscomError>)
        ensures
            r == (match count {
                Ok(n) if mode < n => Ok::<u32, AscomError>(mode as u32),
                _ => Err(err(ErrorCode::InvalidValue)),
            }),
    {
        match count {
            Ok(n) => if mode < n as usize {
                Ok(mode as u32)
            } else {
                Err(AscomError::from_code(ErrorCode::InvalidValue))
            },
            Err(_) => Err(AscomError::from_code(ErrorCode::InvalidValue)),
        }
    }

    /// SetReadoutMode, second step: a mode whose resolution the device does
    /// not give is an invalid value. `Ok` asks the caller to set the mode.
    pub fn set_readout_mode_resolution(resolution: Reply<(u32, u32)>) -> (r: Result<(u32, u32), AscomError>)
        ensures
            r == (match resolution {
                Ok(wh) => Ok::<(u32, u32), AscomError>(wh),
                Err(_) => Err(err(ErrorCode::InvalidValue)),
            }),
    {
        match resolution {
            Ok(wh) => Ok(wh),
            Err(_) => Err(AscomError::from_code(ErrorCode::InvalidValue)),
        }
    }

    /// The camera once the device answered the change of readout mode: the
    /// full frame takes the mode's resolution.
    pub open spec fn spec_after_readout_mode(self, resolution: (u32, u32), reply: Reply<()>) -> QhyccdCamera {
        match reply {
            Err(_) => self,
            Ok(_) => QhyccdCamera {
                ccd_info: match self.ccd_info {
                    None => None,
                    Some(info) => Some(
                        ChipGeometry {
                            image_width: resolution.0,
                            image_height: resolution.1,
                            ..info
                        },
                    ),
                },
                ..self
            },
        }
    }

    /// SetReadoutMode, last step: a mode the device refuses is "value not
    /// set".
    pub fn finish_set_readout_mode(&mut self, resolution: (u32, u32), reply: Reply<()>) -> (r: Result<
        (),
        AscomError,
    >)
        ensures
            reply is Ok ==> r is Ok,
            reply is Err ==> r == Err::<(), AscomError>(err(ErrorCode::ValueNotSet)),
            *final(self) == old(self).spec_after_readout_mode(resolution, reply),
    {
        match reply {
            Err(_) => Err(AscomError::from_code(ErrorCode::ValueNotSet)),
            Ok(()) => {
                self.ccd_info = match self.ccd_info {
                    None => None,
                    Some(info) => Some(
                        ChipGeometry {
                            image_width: resolution.0,
                            image_height: resolution.1,
                            ..info
                        },
                    ),
                };
                Ok(())
            },
        }
    }
}

} // verus!
