use crate::stellarium::{StellariumError, StellariumObject};
use crate::text::{decimal, decimal_string};
use vstd::prelude::*;
use vstd::string::*;

verus! {

/// The seconds to wait after a cycle in which coordinates were sent.
pub const POLL_DELAY_SECS: u64 = 2;

/// The seconds to wait after a cycle in which there was nothing to track.
pub const RETRY_DELAY_SECS: u64 = 10;

/// The status with which the process leaves after an interrupt.
pub const EXIT_STATUS: i32 = 0;

/// The status with which the process leaves when it gives up: after a poll
/// that cannot be retried, or when the serial port fails.
pub const FAILURE_STATUS: i32 = 1;

/// What the loop remembers from one cycle to the next: the stable name of the
/// object that the last cycle tracked, empty where it tracked none.
#[derive(Debug, Clone, PartialEq, Eq)]
pub struct Tracker {
    pub last_object: String,
}

/// What is to be done in a cycle, once its poll has come back.
#[derive(Debug, Clone, PartialEq, Eq)]
pub enum Step {
    /// Show `announcement`, if there is one, send `payload` to the device,
    /// look for its acknowledgement, then wait `delay` seconds.
    Transmit { announcement: Option<String>, payload: String, delay: u64 },
    /// Show `report` and `notice`, then wait `delay` seconds.
    Retry { report: String, notice: String, delay: u64 },
    /// Show `report` and leave.
    Stop { report: String },
}

/// A [`Step`] with its texts as sequences of characters.
pub enum StepText {
    Transmit { announcement: Option<Seq<char>>, payload: Seq<char>, delay: u64 },
    Retry { report: Seq<char>, notice: Seq<char>, delay: u64 },
    Stop { report: Seq<char> },
}

impl View for Step {
    type V = StepText;

    open spec fn view(&self) -> StepText {
        match *self {
            Step::Transmit { announcement, payload, delay } => StepText::Transmit {
                announcement: match announcement {
                    Some(line) => Some(line@),
                    None => None,
                },
                payload: payload@,
                delay,
            },
            Step::Retry { report, notice, delay } => StepText::Retry {
                report: report@,
                notice: notice@,
                delay,
            },
            Step::Stop { report } => StepText::Stop { report: report@ },
        }
    }
}

/// The status to leave with after a step: the failure status where the step
/// ends the loop, none where the loop goes on.
pub open spec fn exit_status_of(step: StepText) -> Option<i32> {
    if step is Stop {
        Some(FAILURE_STATUS)
    } else {
        None
    }
}

impl Step {
    /// Tells whether the process is to leave after this step, and with which
    /// status: a stop is a failure, and never leaves as an interrupt does.
    pub fn exit_status(&self) -> (status: Option<i32>)
        ensures
            status == exit_status_of(self@),
            self@ is Stop ==> status == Some(FAILURE_STATUS),
            !(self@ is Stop) ==> status is None,
            status != Some(EXIT_STATUS),
            status != Some(0i32),
    {
        match self {
            Step::Stop { .. } => Some(FAILURE_STATUS),
            _ => None,
        }
    }
}

/// The line that tells which object is tracked from now on.
pub open spec fn announcement_text(object: StellariumObject) -> Seq<char> {
    "Tracking "@ + object.localized_name@ + " ("@ + object.name@ + ", "@ + object.object_type@
        + "): "@ + object.azimuth@ + ", "@ + object.altitude@
}

/// What is sent to the device for an object: azimuth, a comma, altitude, and
/// nothing after it.
pub open spec fn payload_text(object: StellariumObject) -> Seq<char> {
    object.azimuth@ + ","@ + object.altitude@
}

/// The line that tells of a failed poll.
pub open spec fn report_text(error: StellariumError) -> Seq<char> {
    "Error: "@ + error.message_text()
}

/// The line that tells when the next poll will be made.
pub open spec fn notice_text(seconds: u64) -> Seq<char> {
    "Will try again in "@ + decimal(seconds as nat) + " seconds."@
}

/// The name that the loop remembers after a poll with this result.
pub open spec fn identifier_after(
    result: Result<StellariumObject, StellariumError>,
) -> Seq<char> {
    match result {
        Ok(object) => object.name@,
        Err(_) => Seq::empty(),
    }
}

/// What is to be done for a poll with this result, where `last` is the name
/// that the loop remembered before it.
pub open spec fn step_for(
    last: Seq<char>,
    result: Result<StellariumObject, StellariumError>,
) -> StepText {
    match result {
        Ok(object) => StepText::Transmit {
            announcement: if object.name@ == last {
                None
            } else {
                Some(announcement_text(object))
            },
            payload: payload_text(object),
            delay: POLL_DELAY_SECS,
        },
        Err(error) => if error.is_recoverable() {
            StepText::Retry {
                report: report_text(error),
                notice: notice_text(RETRY_DELAY_SECS),
                delay: RETRY_DELAY_SECS,
            }
        } else {
            StepText::Stop { report: report_text(error) }
        },
    }
}

fn announcement(object: &StellariumObject) -> (line: String)
    ensures
        line@ == announcement_text(*object),
{
    let mut line = String::from_str("Tracking ");
    line.append(object.localized_name.as_str());
    line.append(" (");
    line.append(object.name.as_str());
    line.append(", ");
    line.append(object.object_type.as_str());
    line.append("): ");
    line.append(object.azimuth.as_str());
    line.append(", ");
    line.append(object.altitude.as_str());
    line
}

fn payload(object: &StellariumObject) -> (line: String)
    ensures
        line@ == payload_text(*object),
{
    let mut line = object.azimuth.clone();
    line.append(",");
    line.append(object.altitude.as_str());
    line
}

fn report(error: &StellariumError) -> (line: String)
    ensures
        line@ == report_text(*error),
{
    let mut line = String::from_str("Error: ");
    let message = error.message();
    line.append(message.as_str());
    line
}

fn notice(seconds: u64) -> (line: String)
    ensures
        line@ == notice_text(seconds),
{
    let mut line = String::from_str("Will try again in ");
    let number = decimal_string(seconds);
    line.append(number.as_str());
    line.append(" seconds.");
    line
}

impl Tracker {
    /// The state before the first poll: nothing is remembered.
    pub fn new() -> (tracker: Tracker)
        ensures
            tracker.last_object@ == Seq::<char>::empty(),
    {
        Tracker { last_object: String::new() }
    }

    /// Takes in the result of a poll and says what to do in this cycle.
    ///
    /// After a failed poll nothing is remembered; after a successful one the
    /// object's stable name is. An object is announced where its stable name
    /// is not the remembered one. A failure stops the loop unless it is
    /// recoverable, in which case the next poll comes after the longer delay.
    pub fn on_poll(&mut self, result: Result<StellariumObject, StellariumError>) -> (step: Step)
        ensures
            final(self).last_object@ == identifier_after(result),
            result is Err ==> final(self).last_object@ == Seq::<char>::empty(),
            result matches Ok(object) ==> final(self).last_object@ == object.name@,
            step@ == step_for(old(self).last_object@, result),
    {
        match result {
            Ok(object) => {
                let line = if object.name == self.last_object {
                    None
                } else {
                    self.last_object = object.name.clone();
                    Some(announcement(&object))
                };
                Step::Transmit {
                    announcement: line,
                    payload: payload(&object),
                    delay: POLL_DELAY_SECS,
                }
            },
            Err(error) => {
                self.last_object = String::new();
                if error.recoverable() {
                    Step::Retry {
                        report: report(&error),
                        notice: notice(RETRY_DELAY_SECS),
                        delay: RETRY_DELAY_SECS,
                    }
                } else {
                    Step::Stop { report: report(&error) }
                }
            },
        }
    }
}

/// Of two polls in a row that give objects with the same stable name, the
/// first announces its object, where that name was not remembered before, and
/// the second announces nothing.
pub proof fn lemma_same_object_is_announced_once(
    last: Seq<char>,
    first: StellariumObject,
    second: StellariumObject,
)
    requires
        first.name@ == second.name@,
        first.name@ != last,
    ensures
        step_for(last, Ok(first)) is Transmit,
        step_for(last, Ok(first))->Transmit_announcement == Some(announcement_text(first)),
        step_for(identifier_after(Ok(first)), Ok(second)) is Transmit,
        step_for(identifier_after(Ok(first)), Ok(second))->Transmit_announcement is None,
{
}

/// A poll that gives an object with another stable name than the poll before
/// it announces that object.
pub proof fn lemma_changed_object_is_announced(
    before: StellariumObject,
    object: StellariumObject,
)
    requires
        before.name@ != object.name@,
    ensures
        step_for(identifier_after(Ok(before)), Ok(object)) is Transmit,
        step_for(identifier_after(Ok(before)), Ok(object))->Transmit_announcement == Some(
            announcement_text(object),
        ),
{
}

/// After a failed poll every object with a stable name is announced, also the
/// one that was tracked before the failure.
pub proof fn lemma_object_is_announced_after_failure(
    error: StellariumError,
    object: StellariumObject,
)
    requires
        object.name@.len() > 0,
    ensures
        step_for(identifier_after(Err(error)), Ok(object)) is Transmit,
        step_for(identifier_after(Err(error)), Ok(object))->Transmit_announcement == Some(
            announcement_text(object),
        ),
{
}

/// Whatever was remembered and whatever the object, the coordinates are sent
/// and the next poll comes after the short delay; whatever the failure, the
/// loop either stops or polls again after the long delay, and it goes on
/// exactly where nothing is selected or the selection is below the horizon.
pub proof fn lemma_every_poll_is_answered(
    last: Seq<char>,
    result: Result<StellariumObject, StellariumError>,
)
    ensures
        result matches Ok(object) ==> step_for(last, result) is Transmit && step_for(
            last,
            result,
        )->Transmit_payload == payload_text(object) && step_for(last, result)->Transmit_delay
            == POLL_DELAY_SECS,
        result matches Err(error) ==> (step_for(last, result) is Retry <==> (error
            == StellariumError::ObjectNotFoundError || error
            == StellariumError::ObjectNotAboveHorizon)),
        result matches Err(error) ==> (step_for(last, result) is Stop <==> (error
            is RequestError || error == StellariumError::UnexpectedError || error
            == StellariumError::UnableToParseError)),
        step_for(last, result) is Retry ==> step_for(last, result)->Retry_delay
            == RETRY_DELAY_SECS,
{
}

/// A poll that fails for good makes the process leave with the failure
/// status, which is not zero and so not the status of an interrupt; after
/// every other poll the loop goes on.
pub proof fn lemma_fatal_poll_leaves_with_failure(
    last: Seq<char>,
    result: Result<StellariumObject, StellariumError>,
)
    ensures
        result matches Err(error) ==> (!error.is_recoverable() ==> exit_status_of(
            step_for(last, result),
        ) == Some(FAILURE_STATUS)),
        result matches Err(error) ==> (error.is_recoverable() ==> exit_status_of(
            step_for(last, result),
        ) is None),
        result is Ok ==> exit_status_of(step_for(last, result)) is None,
        exit_status_of(step_for(last, result)) != Some(EXIT_STATUS),
        FAILURE_STATUS != 0,
{
}

} // verus!
