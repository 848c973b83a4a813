//! The filter wheel driver: its cached state and the decisions it takes
//! around the device calls of each Alpaca operation.

use vstd::prelude::*;
use crate::error::{AscomError, DeviceFailure, IsOpenExpectation, ErrorCode, Reply, require_connected, spec_require_connected};
use crate::text::{decimal, decimal_string};

verus! {

/// A filter wheel as the driver knows it: its identity, and what it learned
/// from the device when it connected and when it last moved the wheel.
#[derive(Debug, Clone)]
pub struct QhyccdFilterWheel {
    pub unique_id: String,
    pub name: String,
    pub description: String,
    /// Number of filter slots, read when connecting.
    pub number_of_filters: Option<u32>,
    /// The slot the wheel was last told to move to (or found at on connect).
    pub target_position: Option<u32>,
}

/// A device call the driver asks its caller to make.
#[derive(Debug, Clone, Copy, PartialEq, Eq, Structural)]
pub enum FilterWheelCall {
    Open,
    Close,
    GetNumberOfFilters,
    GetPosition,
}

/// The reply to a `FilterWheelCall`: `Done` for open and close, `Number` for
/// the two queries.
#[derive(Debug, Clone, Copy, PartialEq, Eq)]
pub enum FilterWheelReply {
    Done(Reply<()>),
    Number(Reply<u32>),
}

/// How far a change of the Connected property has come.
#[derive(Debug, Clone, Copy, PartialEq, Eq, Structural)]
pub enum ConnectPhase {
    Opening,
    CountingFilters,
    ReadingPosition { filters: u32 },
    Closing,
}

/// What the driver does next while changing the Connected property.
#[derive(Debug, Clone, Copy, PartialEq, Eq)]
pub enum ConnectStep {
    /// Make `call`, then hand its reply to `set_connected_step` with `phase`.
    Call { phase: ConnectPhase, call: FilterWheelCall },
    /// The change is over, with this result.
    Finished(Result<(), AscomError>),
}

/// What `set_position` does after its checks.
#[derive(Debug, Clone, Copy, PartialEq, Eq, Structural)]
pub enum MoveDecision {
    /// The wheel was already told to go there: nothing to do.
    AlreadyTargeted,
    /// Tell the device to move to this slot, then call `finish_move`.
    Move(u32),
}

/// The filter wheel a test starts from: which cached values it holds, and
/// what its device reports when asked whether it is open.
#[derive(Debug, Clone, Copy, PartialEq, Eq, Structural)]
pub enum FilterWheelSetup {
    Untouched,
    IsOpenTrue { times: usize },
    IsOpenFalse { times: usize },
    WithTargetPosition { target: u32 },
    WithFilters { times: usize, filters: u32 },
    WithFiltersAndTargetPosition { times: usize, filters: u32, target: u32 },
}

/// The name the driver gives to slot `i`.
pub open spec fn spec_filter_name(i: nat) -> Seq<char> {
    "Filter"@ + decimal(i)
}

pub open spec fn not_connected_error() -> AscomError {
    AscomError { code: ErrorCode::NotConnected, detail: None }
}

pub open spec fn error_of(code: ErrorCode) -> AscomError {
    AscomError { code, detail: None }
}

/// Driver information reported by every device of this server.
pub open spec fn spec_driver_info() -> Seq<char> {
    "qhyccd-alpaca See: https://crates.io/crates/qhyccd-alpaca"@
}

/// The driver information text.
pub fn driver_info() -> (s: String)
    ensures
        s@ == spec_driver_info(),
{
    String::from_str("qhyccd-alpaca See: https://crates.io/crates/qhyccd-alpaca")
}

/// The cached state a setup starts from.
pub open spec fn spec_setup_state(setup: FilterWheelSetup) -> (Option<u32>, Option<u32>) {
    match setup {
        FilterWheelSetup::Untouched => (None, None),
        FilterWheelSetup::IsOpenTrue { .. } => (None, None),
        FilterWheelSetup::IsOpenFalse { .. } => (None, None),
        FilterWheelSetup::WithTargetPosition { target } => (None, Some(target)),
        FilterWheelSetup::WithFilters { filters, .. } => (Some(filters), None),
        FilterWheelSetup::WithFiltersAndTargetPosition { filters, target, .. } => (
            Some(filters),
            Some(target),
        ),
    }
}

/// The "is open" answers a setup arranges.
pub open spec fn spec_setup_expectation(setup: FilterWheelSetup) -> IsOpenExpectation {
    match setup {
        FilterWheelSetup::Untouched => IsOpenExpectation { answer: None, times: Some(0) },
        FilterWheelSetup::IsOpenTrue { times } => IsOpenExpectation { answer: Some(true), times: Some(times) },
        FilterWheelSetup::IsOpenFalse { times } => IsOpenExpectation { answer: Some(false), times: Some(times) },
        FilterWheelSetup::WithTargetPosition { .. } => IsOpenExpectation {
            answer: Some(true),
            times: Some(1),
        },
        FilterWheelSetup::WithFilters { times, .. } => IsOpenExpectation {
            answer: Some(true),
            times: Some(times),
        },
        FilterWheelSetup::WithFiltersAndTargetPosition { times, .. } => IsOpenExpectation {
            answer: Some(true),
            times: Some(times),
        },
    }
}

/// Builds the test filter wheel ("test-filter_wheel") in the state a setup
/// describes, with the "is open" answers its device is to give.
pub fn new_filter_wheel(setup: FilterWheelSetup) -> (r: (QhyccdFilterWheel, IsOpenExpectation))
    ensures
        r.0.unique_id@ == "test-filter_wheel"@,
        r.0.name@ == "QHYCCD-test_filter_wheel"@,
        r.0.description@ == "QHYCCD filter wheel"@,
        (r.0.number_of_filters, r.0.target_position) == spec_setup_state(setup),
        r.1 == spec_setup_expectation(setup),
{
    let (number_of_filters, target_position, expectation) = match setup {
        FilterWheelSetup::Untouched => (None, None, IsOpenExpectation { answer: None, times: Some(0) }),
        FilterWheelSetup::IsOpenTrue { times } => (
            None,
            None,
            IsOpenExpectation { answer: Some(true), times: Some(times) },
        ),
        FilterWheelSetup::IsOpenFalse { times } => (
            None,
            None,
            IsOpenExpectation { answer: Some(false), times: Some(times) },
        ),
        FilterWheelSetup::WithTargetPosition { target } => (
            None,
            Some(target),
            IsOpenExpectation { answer: Some(true), times: Some(1) },
        ),
        FilterWheelSetup::WithFilters { times, filters } => (
            Some(filters),
            None,
            IsOpenExpectation { answer: Some(true), times: Some(times) },
        ),
        FilterWheelSetup::WithFiltersAndTargetPosition { times, filters, target } => (
            Some(filters),
            Some(target),
            IsOpenExpectation { answer: Some(true), times: Some(times) },
        ),
    };
    let fw = QhyccdFilterWheel {
        unique_id: String::from_str("test-filter_wheel"),
        name: String::from_str("QHYCCD-test_filter_wheel"),
        description: String::from_str("QHYCCD filter wheel"),
        number_of_filters,
        target_position,
    };
    (fw, expectation)
}

impl QhyccdFilterWheel {
    /// A filter wheel found on the bus, not yet connected: its id is the
    /// device id and its name `QHYCCD-<id>`.
    pub fn new(id: &str) -> (fw: QhyccdFilterWheel)
        ensures
            fw.unique_id@ == id@,
            fw.name@ == "QHYCCD-"@ + id@,
            fw.description@ == "QHYCCD filter wheel"@,
            fw.number_of_filters is None,
            fw.target_position is None,
    {
        QhyccdFilterWheel {
            unique_id: String::from_str(id),
            name: String::from_str("QHYCCD-").concat(id),
            description: String::from_str("QHYCCD filter wheel"),
            number_of_filters: None,
            target_position: None,
        }
    }

    // ---- FocusOffsets and Names ----

    pub open spec fn spec_focus_offsets(self, is_open: Reply<bool>) -> Result<Seq<i32>, AscomError> {
        if spec_require_connected(is_open) is Err {
            Err(not_connected_error())
        } else {
            match self.number_of_filters {
                None => Err(not_connected_error()),
                Some(n) => Ok(Seq::new(n as nat, |i: int| 0i32)),
            }
        }
    }

    /// FocusOffsets: a zero offset for every slot.
    pub fn focus_offsets(&self, is_open: Reply<bool>) -> (r: Result<Vec<i32>, AscomError>)
        ensures
            r matches Ok(v) ==> self.spec_focus_offsets(is_open) == Ok::<Seq<i32>, AscomError>(v@),
            r matches Err(e) ==> self.spec_focus_offsets(is_open) == Err::<Seq<i32>, AscomError>(e),
    {
        require_connected(is_open)?;
        match self.number_of_filters {
            None => Err(AscomError::not_connected()),
            Some(n) => {
                let mut offsets: Vec<i32> = Vec::new();
                let mut i: u32 = 0;
                while i < n
                    invariant
                        i <= n,
                        offsets@ =~= Seq::new(i as nat, |k: int| 0i32),
                    decreases n - i,
                {
                    offsets.push(0);
                    i = i + 1;
                }
                Ok(offsets)
            },
        }
    }

    pub open spec fn spec_names(self, is_open: Reply<bool>) -> Result<Seq<Seq<char>>, AscomError> {
        if spec_require_connected(is_open) is Err {
            Err(not_connected_error())
        } else {
            match self.number_of_filters {
                None => Err(not_connected_error()),
                Some(n) => Ok(Seq::new(n as nat, |i: int| spec_filter_name(i as nat))),
            }
        }
    }

    /// Names: `Filter0`, `Filter1`, ... one per slot.
    pub fn names(&self, is_open: Reply<bool>) -> (r: Result<Vec<String>, AscomError>)
        ensures
            r matches Ok(v) ==> self.spec_names(is_open) == Ok::<Seq<Seq<char>>, AscomError>(
                v@.map_values(|s: String| s@),
            ),
            r matches Err(e) ==> self.spec_names(is_open) == Err::<Seq<Seq<char>>, AscomError>(e),
    {
        require_connected(is_open)?;
        match self.number_of_filters {
            None => Err(AscomError::not_connected()),
            Some(n) => {
                let mut names: Vec<String> = Vec::new();
                let mut i: u32 = 0;
                while i < n
                    invariant
                        i <= n,
                        names@.map_values(|s: String| s@) =~= Seq::new(
                            i as nat,
                            |k: int| spec_filter_name(k as nat),
                        ),
                    decreases n - i,
                {
                    let name = String::from_str("Filter").concat(decimal_string(i).as_str());
                    let ghost before = names@;
                    names.push(name);
                    assert(names@.map_values(|s: String| s@) =~= before.map_values(
                        |s: String| s@,
                    ).push(spec_filter_name(i as nat)));
                    i = i + 1;
                }
                Ok(names)
            },
        }
    }

    // ---- Position ----

    /// Position: the slot the wheel is at once it has reached its target,
    /// `None` while it is still moving.
    pub open spec fn spec_position(self, is_open: Reply<bool>, device_position: Reply<u32>) -> Result<
        Option<u32>,
        AscomError,
    > {
        if spec_require_connected(is_open) is Err {
            Err(not_connected_error())
        } else {
            match self.target_position {
                None => Err(not_connected_error()),
                Some(target) => match device_position {
                    Err(_) => Err(error_of(ErrorCode::InvalidOperation)),
                    Ok(p) => if p == target {
                        Ok(Some(p))
                    } else {
                        Ok(None)
                    },
                },
            }
        }
    }

    /// First half of Position: the checks before the device is asked where
    /// the wheel is. `Ok(target)` asks the caller to read the position and
    /// hand it to `position_from_device` with `target`.
    pub fn position_request(&self, is_open: Reply<bool>) -> (r: Result<u32, AscomError>)
        ensures
            r matches Ok(t) ==> spec_require_connected(is_open) is Ok && self.target_position
                == Some(t),
            r matches Err(e) ==> forall|p: Reply<u32>|
                #[trigger] self.spec_position(is_open, p) == Err::<Option<u32>, AscomError>(e),
    {
        require_connected(is_open)?;
        match self.target_position {
            None => Err(AscomError::not_connected()),
            Some(target) => Ok(target),
        }
    }

    /// Second half of Position: compares the device's position with the
    /// target.
    pub fn position_from_device(target: u32, device_position: Reply<u32>) -> (r: Result<
        Option<u32>,
        AscomError,
    >)
        ensures
            r == (match device_position {
                Err(_) => Err::<Option<u32>, AscomError>(error_of(ErrorCode::InvalidOperation)),
                Ok(p) => Ok(if p == target { Some(p) } else { None }),
            }),
            forall|fw: QhyccdFilterWheel, is_open: Reply<bool>|
                spec_require_connected(is_open) is Ok && fw.target_position == Some(target)
                    ==> #[trigger] fw.spec_position(is_open, device_position) == r,
    {
        match device_position {
            Err(_) => Err(AscomError::from_code(ErrorCode::InvalidOperation)),
            Ok(p) => if p == target {
                Ok(Some(p))
            } else {
                Ok(None)
            },
        }
    }

    // ---- SetPosition ----

    /// The checks of SetPosition and what it then does.
    pub open spec fn spec_set_position_decision(self, is_open: Reply<bool>, position: usize) -> Result<
        MoveDecision,
        AscomError,
    > {
        if spec_require_connected(is_open) is Err {
            Err(not_connected_error())
        } else {
            match self.number_of_filters {
                None => Err(not_connected_error()),
                Some(n) => if position >= n {
                    Err(error_of(ErrorCode::InvalidValue))
                } else if self.target_position == Some(position as u32) {
                    Ok(MoveDecision::AlreadyTargeted)
                } else {
                    Ok(MoveDecision::Move(position as u32))
                },
            }
        }
    }

    /// First half of SetPosition: refuses a slot the wheel does not have,
    /// and skips the move when the wheel was already told to go there.
    pub fn set_position_request(&self, is_open: Reply<bool>, position: usize) -> (r: Result<
        MoveDecision,
        AscomError,
    >)
        ensures
            r == self.spec_set_position_decision(is_open, position),
            r matches Ok(MoveDecision::Move(p)) ==> p as usize == position,
    {
        require_connected(is_open)?;
        match self.number_of_filters {
            None => Err(AscomError::not_connected()),
            Some(n) => {
                if position >= n as usize {
                    Err(AscomError::from_code(ErrorCode::InvalidValue))
                } else {
                    let p = position as u32;
                    match self.target_position {
                        Some(t) => if t == p {
                            Ok(MoveDecision::AlreadyTargeted)
                        } else {
                            Ok(MoveDecision::Move(p))
                        },
                        None => Ok(MoveDecision::Move(p)),
                    }
                }
            },
        }
    }

    /// The cached state once the device answered a move to `position`.
    pub open spec fn spec_after_move(self, position: u32, reply: Reply<()>) -> QhyccdFilterWheel {
        match reply {
            Ok(_) => QhyccdFilterWheel { target_position: Some(position), ..self },
            Err(_) => self,
        }
    }

    /// Second half of SetPosition: once the device accepted the move, the
    /// new slot becomes the target.
    pub fn finish_move(&mut self, position: u32, reply: Reply<()>) -> (r: Result<(), AscomError>)
        ensures
            reply is Ok ==> r is Ok,
            reply is Err ==> r == Err::<(), AscomError>(error_of(ErrorCode::InvalidOperation)),
            *final(self) == old(self).spec_after_move(position, reply),
    {
        match reply {
            Ok(()) => {
                self.target_position = Some(position);
                Ok(())
            },
            Err(_) => Err(AscomError::from_code(ErrorCode::InvalidOperation)),
        }
    }

    // ---- Connected ----

    /// How a change of the Connected property starts: nothing to do when the
    /// device already is in the wanted state, else open or close it.
    pub open spec fn spec_set_connected_start(connect: bool, is_open: Reply<bool>) -> ConnectStep {
        match is_open {
            Err(_) => ConnectStep::Finished(Err(not_connected_error())),
            Ok(open) => if open == connect {
                ConnectStep::Finished(Ok(()))
            } else if connect {
                ConnectStep::Call { phase: ConnectPhase::Opening, call: FilterWheelCall::Open }
            } else {
                ConnectStep::Call { phase: ConnectPhase::Closing, call: FilterWheelCall::Close }
            },
        }
    }

    pub fn set_connected_start(connect: bool, is_open: Reply<bool>) -> (s: ConnectStep)
        ensures
            s == Self::spec_set_connected_start(connect, is_open),
    {
        match is_open {
            Err(_) => ConnectStep::Finished(Err(AscomError::not_connected())),
            Ok(open) => if open == connect {
                ConnectStep::Finished(Ok(()))
            } else if connect {
                ConnectStep::Call { phase: ConnectPhase::Opening, call: FilterWheelCall::Open }
            } else {
                ConnectStep::Call { phase: ConnectPhase::Closing, call: FilterWheelCall::Close }
            },
        }
    }

    /// One step of a change of the Connected property: open, count the
    /// slots, read the position; or close. Any failure ends the change with
    /// "not connected".
    pub open spec fn spec_set_connected_step(phase: ConnectPhase, reply: FilterWheelReply) -> ConnectStep {
        match (phase, reply) {
            (ConnectPhase::Opening, FilterWheelReply::Done(Ok(()))) => ConnectStep::Call {
                phase: ConnectPhase::CountingFilters,
                call: FilterWheelCall::GetNumberOfFilters,
            },
            (ConnectPhase::CountingFilters, FilterWheelReply::Number(Ok(n))) => ConnectStep::Call {
                phase: ConnectPhase::ReadingPosition { filters: n },
                call: FilterWheelCall::GetPosition,
            },
            (ConnectPhase::ReadingPosition { .. }, FilterWheelReply::Number(Ok(_))) =>
                ConnectStep::Finished(Ok(())),
            (ConnectPhase::Closing, FilterWheelReply::Done(Ok(()))) => ConnectStep::Finished(Ok(())),
            _ => ConnectStep::Finished(Err(not_connected_error())),
        }
    }

    /// The cached state after a step: a completed connection records the
    /// number of slots and takes the current slot as the target.
    pub open spec fn spec_after_step(
        self,
        phase: ConnectPhase,
        reply: FilterWheelReply,
    ) -> QhyccdFilterWheel {
        match (phase, reply) {
            (ConnectPhase::ReadingPosition { filters }, FilterWheelReply::Number(Ok(p))) =>
                QhyccdFilterWheel {
                number_of_filters: Some(filters),
                target_position: Some(p),
                ..self
            },
            _ => self,
        }
    }

    pub fn set_connected_step(&mut self, phase: ConnectPhase, reply: FilterWheelReply) -> (s:
        ConnectStep)
        ensures
            s == Self::spec_set_connected_step(phase, reply),
            *final(self) == old(self).spec_after_step(phase, reply),
    {
        match phase {
            ConnectPhase::Opening => match reply {
                FilterWheelReply::Done(Ok(())) => ConnectStep::Call {
                    phase: ConnectPhase::CountingFilters,
                    call: FilterWheelCall::GetNumberOfFilters,
                },
                _ => ConnectStep::Finished(Err(AscomError::not_connected())),
            },
            ConnectPhase::CountingFilters => match reply {
                FilterWheelReply::Number(Ok(n)) => ConnectStep::Call {
                    phase: ConnectPhase::ReadingPosition { filters: n },
                    call: FilterWheelCall::GetPosition,
                },
                _ => ConnectStep::Finished(Err(AscomError::not_connected())),
            },
            ConnectPhase::ReadingPosition { filters } => match reply {
                FilterWheelReply::Number(Ok(p)) => {
                    self.number_of_filters = Some(filters);
                    self.target_position = Some(p);
                    ConnectStep::Finished(Ok(()))
                },
                _ => ConnectStep::Finished(Err(AscomError::not_connected())),
            },
            ConnectPhase::Closing => match reply {
                FilterWheelReply::Done(Ok(())) => ConnectStep::Finished(Ok(())),
                _ => ConnectStep::Finished(Err(AscomError::not_connected())),
            },
        }
    }
}


// ---- Laws ----

/// Reading back a move: once the device accepted a move to slot `p`, the
/// Position property reports `p` when the device is there, and "moving"
/// (`None`) while it is at any other slot.
pub proof fn lemma_position_after_move(fw: QhyccdFilterWheel, p: u32, at: u32)
    ensures
        fw.spec_after_move(p, Ok(())).spec_position(Ok(true), Ok(p)) == Ok::<
            Option<u32>,
            AscomError,
        >(Some(p)),
        at != p ==> fw.spec_after_move(p, Ok(())).spec_position(Ok(true), Ok(at)) == Ok::<
            Option<u32>,
            AscomError,
        >(None),
{
}

/// Moving twice to the same slot makes a single device call: after an
/// accepted move to slot `p`, SetPosition(`p`) has nothing left to do.
pub proof fn lemma_second_move_is_skipped(fw: QhyccdFilterWheel, p: u32)
    requires
        fw.number_of_filters matches Some(n) && p < n,
    ensures
        fw.spec_after_move(p, Ok(())).spec_set_position_decision(Ok(true), p as usize) == Ok::<
            MoveDecision,
            AscomError,
        >(MoveDecision::AlreadyTargeted),
{
}

/// SetPosition to a slot the wheel has moves the wheel there unless it was
/// already told to go to that very slot: the move is skipped exactly when
/// the target is `position`, and otherwise the device is told to move to
/// `position` itself.
pub proof fn lemma_move_decision(fw: QhyccdFilterWheel, position: usize)
    requires
        fw.number_of_filters matches Some(n) && position < n,
    ensures
        fw.target_position == Some(position as u32) ==> fw.spec_set_position_decision(Ok(true), position)
            == Ok::<MoveDecision, AscomError>(MoveDecision::AlreadyTargeted),
        fw.target_position != Some(position as u32) ==> fw.spec_set_position_decision(Ok(true), position)
            == Ok::<MoveDecision, AscomError>(MoveDecision::Move(position as u32)),
{
}

/// A refused move changes nothing: a slot the wheel does not have is
/// answered "invalid value", and a move the device rejects leaves the
/// target where it was.
pub proof fn lemma_refused_moves(fw: QhyccdFilterWheel, position: usize, p: u32)
    ensures
        fw.number_of_filters matches Some(n) && position >= n ==> fw.spec_set_position_decision(
            Ok(true),
            position,
        ) == Err::<MoveDecision, AscomError>(error_of(ErrorCode::InvalidValue)),
        fw.spec_after_move(p, Err(DeviceFailure)) == fw,
{
}

/// Every operation that needs the device answers "not connected" when the
/// device is not open or cannot be asked.
pub proof fn lemma_closed_device_refuses(
    fw: QhyccdFilterWheel,
    is_open: Reply<bool>,
    device_position: Reply<u32>,
    position: usize,
)
    requires
        is_open != Ok::<bool, DeviceFailure>(true),
    ensures
        fw.spec_focus_offsets(is_open) == Err::<Seq<i32>, AscomError>(not_connected_error()),
        fw.spec_names(is_open) == Err::<Seq<Seq<char>>, AscomError>(not_connected_error()),
        fw.spec_position(is_open, device_position) == Err::<Option<u32>, AscomError>(
            not_connected_error(),
        ),
        fw.spec_set_position_decision(is_open, position) == Err::<MoveDecision, AscomError>(
            not_connected_error(),
        ),
{
}

/// The cached state after a sequence of connection steps, and where the
/// sequence ends: `None` while it still asks for a call.
pub open spec fn spec_run_connect(
    fw: QhyccdFilterWheel,
    step: ConnectStep,
    replies: Seq<FilterWheelReply>,
) -> (QhyccdFilterWheel, Option<Result<(), AscomError>>)
    decreases replies.len(),
{
    match step {
        ConnectStep::Finished(r) => (fw, Some(r)),
        ConnectStep::Call { phase, .. } => if replies.len() == 0 {
            (fw, None)
        } else {
            spec_run_connect(
                fw.spec_after_step(phase, replies[0]),
                QhyccdFilterWheel::spec_set_connected_step(phase, replies[0]),
                replies.drop_first(),
            )
        },
    }
}

/// Connecting a closed wheel: the device is opened, counted and asked where
/// it is, in that order; when all three succeed the driver is connected and
/// caches the count and the current slot as the target, and when any of
/// them fails the connection is refused with "not connected" and the cache
/// is left as it was.
pub proof fn lemma_connect_sequence(fw: QhyccdFilterWheel, n: u32, p: u32, failing: int)
    requires
        0 <= failing < 3,
    ensures
        spec_run_connect(
            fw,
            QhyccdFilterWheel::spec_set_connected_start(true, Ok(false)),
            seq![
                FilterWheelReply::Done(Ok(())),
                FilterWheelReply::Number(Ok(n)),
                FilterWheelReply::Number(Ok(p)),
            ],
        ) == (QhyccdFilterWheel { number_of_filters: Some(n), target_position: Some(p), ..fw }, Some(
            Ok::<(), AscomError>(()),
        )),
        ({
            let replies = seq![
                FilterWheelReply::Done(Ok(())),
                FilterWheelReply::Number(Ok(n)),
                FilterWheelReply::Number(Ok(p)),
            ].update(
                failing,
                if failing == 0 {
                    FilterWheelReply::Done(Err(DeviceFailure))
                } else {
                    FilterWheelReply::Number(Err(DeviceFailure))
                },
            );
            spec_run_connect(fw, QhyccdFilterWheel::spec_set_connected_start(true, Ok(false)), replies)
                == (fw, Some(Err::<(), AscomError>(not_connected_error())))
        }),
{
    let s0 = QhyccdFilterWheel::spec_set_connected_start(true, Ok(false));
    let good = seq![
        FilterWheelReply::Done(Ok(())),
        FilterWheelReply::Number(Ok(n)),
        FilterWheelReply::Number(Ok(p)),
    ];
    reveal_with_fuel(spec_run_connect, 4);
    assert(good.drop_first().drop_first().drop_first() =~= Seq::<FilterWheelReply>::empty());
    let bad = good.update(
        failing,
        if failing == 0 {
            FilterWheelReply::Done(Err(DeviceFailure))
        } else {
            FilterWheelReply::Number(Err(DeviceFailure))
        },
    );
    assert(bad[0] == (if failing == 0 { FilterWheelReply::Done(Err(DeviceFailure)) } else { good[0] }));
    assert(bad.drop_first()[0] == bad[1]);
    assert(bad.drop_first().drop_first()[0] == bad[2]);
}

/// The device calls a change of the Connected property makes, in order:
/// each call asked for, followed by those its reply leads to.
pub open spec fn spec_connect_calls(step: ConnectStep, replies: Seq<FilterWheelReply>) -> Seq<FilterWheelCall>
    decreases replies.len(),
{
    match step {
        ConnectStep::Finished(_) => Seq::empty(),
        ConnectStep::Call { phase, call } => if replies.len() == 0 {
            seq![call]
        } else {
            seq![call] + spec_connect_calls(
                QhyccdFilterWheel::spec_set_connected_step(phase, replies[0]),
                replies.drop_first(),
            )
        },
    }
}

/// Connecting a closed wheel opens it, then asks for the number of slots,
/// then for the current slot, and nothing else; disconnecting an open one
/// only closes it.
pub proof fn lemma_connect_calls(n: u32, p: u32)
    ensures
        spec_connect_calls(
            QhyccdFilterWheel::spec_set_connected_start(true, Ok(false)),
            seq![
                FilterWheelReply::Done(Ok(())),
                FilterWheelReply::Number(Ok(n)),
                FilterWheelReply::Number(Ok(p)),
            ],
        ) == seq![FilterWheelCall::Open, FilterWheelCall::GetNumberOfFilters, FilterWheelCall::GetPosition],
        spec_connect_calls(
            QhyccdFilterWheel::spec_set_connected_start(false, Ok(true)),
            seq![FilterWheelReply::Done(Ok(()))],
        ) == seq![FilterWheelCall::Close],
{
    let good = seq![
        FilterWheelReply::Done(Ok(())),
        FilterWheelReply::Number(Ok(n)),
        FilterWheelReply::Number(Ok(p)),
    ];
    reveal_with_fuel(spec_connect_calls, 4);
    assert(good.drop_first()[0] == good[1]);
    assert(good.drop_first().drop_first()[0] == good[2]);
    assert(good.drop_first().drop_first().drop_first() =~= Seq::<FilterWheelReply>::empty());
    assert(seq![FilterWheelReply::Done(Ok(()))].drop_first() =~= Seq::<FilterWheelReply>::empty());
    assert(spec_connect_calls(QhyccdFilterWheel::spec_set_connected_start(true, Ok(false)), good) =~= seq![
        FilterWheelCall::Open,
        FilterWheelCall::GetNumberOfFilters,
        FilterWheelCall::GetPosition,
    ]);
    assert(spec_connect_calls(
        QhyccdFilterWheel::spec_set_connected_start(false, Ok(true)),
        seq![FilterWheelReply::Done(Ok(()))],
    ) =~= seq![FilterWheelCall::Close]);
}

/// Disconnecting closes the device and nothing else: the cached count and
/// target stay, and a failed close is reported as "not connected".
pub proof fn lemma_disconnect(fw: QhyccdFilterWheel)
    ensures
        QhyccdFilterWheel::spec_set_connected_start(false, Ok(true)) == (ConnectStep::Call {
            phase: ConnectPhase::Closing,
            call: FilterWheelCall::Close,
        }),
        QhyccdFilterWheel::spec_set_connected_step(
            ConnectPhase::Closing,
            FilterWheelReply::Done(Ok(())),
        ) == ConnectStep::Finished(Ok(())),
        QhyccdFilterWheel::spec_set_connected_step(
            ConnectPhase::Closing,
            FilterWheelReply::Done(Err(DeviceFailure)),
        ) == ConnectStep::Finished(Err(not_connected_error())),
        fw.spec_after_step(ConnectPhase::Closing, FilterWheelReply::Done(Ok(()))) == fw,
{
}

} // verus!
