//! The registration handler's logic.  A registration request must carry a
//! remote URL; one without it is rejected before anything touches storage.
//! An accepted request is paired with a fresh identifier, and the caller
//! stores the resulting descriptor as a new row.  The stored row is then
//! acknowledged with the identifier, and a storage failure with a
//! server-error status.

use vstd::prelude::*;

use crate::calendar::Calendar;
use crate::calendar::CalendarModel;
use crate::identifier::is_canonical_identifier;
use crate::identifier::random_token_string;
use crate::response::ApiResponse;
use crate::response::BodyModel;
use crate::response::ResponseBody;
use crate::response::ResponseModel;
use crate::response::STATUS_BAD_REQUEST;
use crate::response::STATUS_OK;
use crate::response::STATUS_SERVER_ERROR;

verus! {

/// A registration request as it arrives: every field optional, so that the
/// absence of the required `remote_url` is the crate's own decision to
/// reject, not the parser's.
pub struct RegistrationRequest {
    pub remote_url: Option<String>,
    pub username: Option<String>,
    pub password: Option<String>,
}

/// Model of a registration request.
pub struct RequestModel {
    pub remote_url: Option<Seq<char>>,
    pub username: Option<Seq<char>>,
    pub password: Option<Seq<char>>,
}

impl View for RegistrationRequest {
    type V = RequestModel;

    open spec fn view(&self) -> RequestModel {
        RequestModel {
            remote_url: match self.remote_url {
                Option::Some(u) => Option::Some(u@),
                Option::None => Option::None,
            },
            username: match self.username {
                Option::Some(u) => Option::Some(u@),
                Option::None => Option::None,
            },
            password: match self.password {
                Option::Some(p) => Option::Some(p@),
                Option::None => Option::None,
            },
        }
    }
}

/// Why a registration request was rejected.
#[derive(Debug)]
pub enum RegistrationError {
    MissingRemoteUrl,
}

/// An accepted registration: the fresh identifier and the descriptor to
/// store under it.
pub struct PreparedRegistration {
    pub identifier: String,
    pub descriptor: Calendar,
}

/// The descriptor that an accepted request registers: its remote URL and
/// whichever credentials the request carried, unchanged.
pub open spec fn descriptor_of(req: RequestModel) -> CalendarModel
    recommends
        req.remote_url is Some,
{
    CalendarModel {
        remote_url: req.remote_url->0,
        username: req.username,
        password: req.password,
    }
}

/// Validates a registration request and, when it is acceptable, pairs it
/// with a fresh identifier.  A request without `remote_url` is rejected and
/// nothing else happens; an accepted request yields the descriptor to store,
/// carrying the request's fields verbatim.
pub fn prepare_registration(req: RegistrationRequest) -> (r: Result<
    PreparedRegistration,
    RegistrationError,
>)
    ensures
        r is Ok <==> req@.remote_url is Some,
        r matches Ok(p) ==> (p.descriptor@ == descriptor_of(req@) && is_canonical_identifier(
            p.identifier@,
        )),
        r matches Err(e) ==> e is MissingRemoteUrl,
{
    match req.remote_url {
        Option::None => Err(RegistrationError::MissingRemoteUrl),
        Option::Some(url) => {
            let identifier = random_token_string();
            Ok(
                PreparedRegistration {
                    identifier,
                    descriptor: Calendar {
                        remote_url: url,
                        username: req.username,
                        password: req.password,
                    },
                },
            )
        },
    }
}

/// A storage write that failed; the cause stays with the caller, which
/// logs it and never shows it to the client.
pub struct StorageError;

/// The response to a rejected registration: a client-error status with an
/// empty body, sent before anything touches storage.
pub fn rejection_response(e: &RegistrationError) -> (r: ApiResponse)
    ensures
        r@ == (ResponseModel { status: STATUS_BAD_REQUEST, body: BodyModel::Empty }),
{
    match e {
        RegistrationError::MissingRemoteUrl => ApiResponse {
            status: STATUS_BAD_REQUEST,
            body: ResponseBody::Empty,
        },
    }
}

/// The response a storage answer decides: a stored row acknowledged with
/// its identifier, a failed write with a server-error status and an empty
/// body.
pub open spec fn stored_response_of(stored: Option<Seq<char>>) -> ResponseModel {
    match stored {
        Option::Some(u) => ResponseModel { status: STATUS_OK, body: BodyModel::Identifier(u) },
        Option::None => ResponseModel { status: STATUS_SERVER_ERROR, body: BodyModel::Empty },
    }
}

/// The response once storage has answered, exactly as `stored_response_of`
/// says.
pub fn registration_response(stored: Result<String, StorageError>) -> (r: ApiResponse)
    ensures
        stored matches Ok(u) ==> r@ == stored_response_of(Some(u@)),
        stored is Err ==> r@ == stored_response_of(None),
{
    match stored {
        Ok(u) => ApiResponse { status: STATUS_OK, body: ResponseBody::Identifier(u) },
        Err(_) => ApiResponse { status: STATUS_SERVER_ERROR, body: ResponseBody::Empty },
    }
}

} // verus!
