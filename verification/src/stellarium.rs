use crate::text::{decimal, decimal_string};
use vstd::prelude::*;
use vstd::string::*;

verus! {

/// The status with which the API answers when an object is selected.
pub const STATUS_OK: u16 = 200;

/// The status with which the API answers when nothing is selected.
pub const STATUS_NOT_FOUND: u16 = 404;

/// Why a poll gave no object to track.
#[derive(Debug, Clone, Copy, PartialEq, Eq, Structural)]
pub enum StellariumError {
    /// The API could not be reached on the given port.
    RequestError { port: u16 },
    /// The API answered with a status that is neither success nor "not found".
    UnexpectedError,
    /// The API was reached, but no object is selected.
    ObjectNotFoundError,
    /// The API answered with success, but its body is no object description.
    UnableToParseError,
    /// The selected object is below the horizon.
    ObjectNotAboveHorizon,
}

impl StellariumError {
    /// The one-line explanation of the error.
    pub open spec fn message_text(self) -> Seq<char> {
        match self {
            StellariumError::RequestError { port } =>
                "Could not get information about the selected object. Check if Stellarium's Remote Control is running on port "@
                    + decimal(port as nat),
            StellariumError::UnexpectedError => "Uh oh! Something unexpected happened."@,
            StellariumError::ObjectNotFoundError => "Select an object on Stellarium!"@,
            StellariumError::UnableToParseError =>
                "Could not parse response from Stellarium's Remote Control API"@,
            StellariumError::ObjectNotAboveHorizon =>
                "The selected object cannot be tracked because it is not above the horizon. Please, select another object"@,
        }
    }

    /// Whether polling can go on after the error: only where the API was
    /// reached and merely has nothing to track at the moment.
    pub open spec fn is_recoverable(self) -> bool {
        self == StellariumError::ObjectNotFoundError || self
            == StellariumError::ObjectNotAboveHorizon
    }

    /// Writes the one-line explanation of the error.
    pub fn message(&self) -> (s: String)
        ensures
            s@ == self.message_text(),
    {
        match self {
            StellariumError::RequestError { port } => {
                let mut s = String::from_str(
                    "Could not get information about the selected object. Check if Stellarium's Remote Control is running on port ",
                );
                let number = decimal_string(*port as u64);
                s.append(number.as_str());
                s
            },
            StellariumError::UnexpectedError => String::from_str(
                "Uh oh! Something unexpected happened.",
            ),
            StellariumError::ObjectNotFoundError => String::from_str(
                "Select an object on Stellarium!",
            ),
            StellariumError::UnableToParseError => String::from_str(
                "Could not parse response from Stellarium's Remote Control API",
            ),
            StellariumError::ObjectNotAboveHorizon => String::from_str(
                "The selected object cannot be tracked because it is not above the horizon. Please, select another object",
            ),
        }
    }

    /// Tells whether polling can go on after the error.
    pub fn recoverable(&self) -> (b: bool)
        ensures
            b == self.is_recoverable(),
    {
        match self {
            StellariumError::ObjectNotFoundError => true,
            StellariumError::ObjectNotAboveHorizon => true,
            _ => false,
        }
    }
}

/// The description of the object that is selected in the planetarium.
///
/// The two angles are in degrees and are held as decimal text with three
/// decimals, which is all that is ever shown or sent of them.
#[derive(Debug, Clone, PartialEq, Eq)]
pub struct StellariumObject {
    /// Whether the object can be observed at the moment.
    pub above_horizon: bool,
    /// The name to show.
    pub localized_name: String,
    /// The stable name, by which a change of selection is noticed.
    pub name: String,
    /// The category of the object.
    pub object_type: String,
    /// The altitude.
    pub altitude: String,
    /// The azimuth.
    pub azimuth: String,
}

/// What came of one request to the API.
#[derive(Debug, Clone, PartialEq, Eq)]
pub enum Reply {
    /// The host could not be reached at all.
    Unreachable,
    /// The API answered. `body` is the object that the body describes, or
    /// `None` where the body describes none; it is looked at only under
    /// [`STATUS_OK`].
    Status { code: u16, body: Option<StellariumObject> },
}

/// The address at which the API on `port` tells about the selected object.
pub open spec fn url_text(port: u16) -> Seq<char> {
    "http://localhost:"@ + decimal(port as nat) + "/api/objects/info?format=json"@
}

/// Writes the address to send the request to.
pub fn request_url(port: u16) -> (url: String)
    ensures
        url@ == url_text(port),
{
    let mut url = String::from_str("http://localhost:");
    let number = decimal_string(port as u64);
    url.append(number.as_str());
    url.append("/api/objects/info?format=json");
    url
}

/// Tells whether the body of an answer with this status is to be decoded.
pub fn reads_body(code: u16) -> (b: bool)
    ensures
        b == (code == STATUS_OK),
{
    code == STATUS_OK
}

/// The outcome of a poll on `port` to which `reply` came back.
pub open spec fn classify(port: u16, reply: Reply) -> Result<StellariumObject, StellariumError> {
    match reply {
        Reply::Unreachable => Err(StellariumError::RequestError { port }),
        Reply::Status { code, body } => if code == STATUS_OK {
            match body {
                Some(object) => if object.above_horizon {
                    Ok(object)
                } else {
                    Err(StellariumError::ObjectNotAboveHorizon)
                },
                None => Err(StellariumError::UnableToParseError),
            }
        } else if code == STATUS_NOT_FOUND {
            Err(StellariumError::ObjectNotFoundError)
        } else {
            Err(StellariumError::UnexpectedError)
        },
    }
}

/// Decides what one poll on `port` gave, from the reply to its request: the
/// selected object where it is above the horizon, and else the reason why
/// there is none to track.
pub fn get_object(port: u16, reply: Reply) -> (r: Result<StellariumObject, StellariumError>)
    ensures
        r == classify(port, reply),
        r matches Ok(object) ==> object.above_horizon,
        reply is Unreachable ==> r == Err::<StellariumObject, StellariumError>(
            StellariumError::RequestError { port },
        ),
        reply matches Reply::Status { code, body: Some(object) } ==> (code == STATUS_OK
            && object.above_horizon ==> r == Ok::<StellariumObject, StellariumError>(object)),
        reply matches Reply::Status { code, body: Some(object) } ==> (code == STATUS_OK
            && !object.above_horizon ==> r == Err::<StellariumObject, StellariumError>(
            StellariumError::ObjectNotAboveHorizon,
        )),
        reply matches Reply::Status { code, body: None } ==> (code == STATUS_OK ==> r == Err::<
            StellariumObject,
            StellariumError,
        >(StellariumError::UnableToParseError)),
        reply matches Reply::Status { code, .. } ==> (code == STATUS_NOT_FOUND ==> r == Err::<
            StellariumObject,
            StellariumError,
        >(StellariumError::ObjectNotFoundError)),
        reply matches Reply::Status { code, .. } ==> (code != STATUS_OK && code
            != STATUS_NOT_FOUND ==> r == Err::<StellariumObject, StellariumError>(
            StellariumError::UnexpectedError,
        )),
{
    match reply {
        Reply::Unreachable => Err(StellariumError::RequestError { port }),
        Reply::Status { code, body } => {
            if code == STATUS_OK {
                match body {
                    Some(object) => {
                        if object.above_horizon {
                            Ok(object)
                        } else {
                            Err(StellariumError::ObjectNotAboveHorizon)
                        }
                    },
                    None => Err(StellariumError::UnableToParseError),
                }
            } else if code == STATUS_NOT_FOUND {
                Err(StellariumError::ObjectNotFoundError)
            } else {
                Err(StellariumError::UnexpectedError)
            }
        },
    }
}

} // verus!
