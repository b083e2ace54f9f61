//! The responses the service sends.  Every handler outcome maps to a status
//! code and a body; no structured error bodies exist, so a failure carries
//! an empty body.

use vstd::prelude::*;

verus! {

/// Status for a successful request.
pub const STATUS_OK: u16 = 200;
/// Status for a registration body missing its required field.
pub const STATUS_BAD_REQUEST: u16 = 400;
/// Status for a relay request whose identifier is unknown.
pub const STATUS_NOT_FOUND: u16 = 404;
/// Status for a storage or outbound-fetch failure.
pub const STATUS_SERVER_ERROR: u16 = 500;

/// What the response carries: nothing, the identifier of a fresh
/// registration, or the raw body fetched from the remote.
pub enum ResponseBody {
    Empty,
    Identifier(String),
    Relayed(String),
}

/// A response: status code plus body.
pub struct ApiResponse {
    pub status: u16,
    pub body: ResponseBody,
}

/// Model of a response body over character sequences.
pub enum BodyModel {
    Empty,
    Identifier(Seq<char>),
    Relayed(Seq<char>),
}

/// Model of a response.
pub struct ResponseModel {
    pub status: u16,
    pub body: BodyModel,
}

impl View for ResponseBody {
    type V = BodyModel;

    open spec fn view(&self) -> BodyModel {
        match self {
            ResponseBody::Empty => BodyModel::Empty,
            ResponseBody::Identifier(s) => BodyModel::Identifier(s@),
            ResponseBody::Relayed(s) => BodyModel::Relayed(s@),
        }
    }
}

impl View for ApiResponse {
    type V = ResponseModel;

    open spec fn view(&self) -> ResponseModel {
        ResponseModel { status: self.status, body: self.body@ }
    }
}

} // verus!
