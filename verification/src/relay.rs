//! The relay handler's logic.  A relay request carries an identifier; the
//! caller looks the descriptor up and hands the result here.  An unknown
//! identifier answers not-found and plans no outbound fetch.  A known one
//! yields an outbound plan: a GET of the stored URL, with basic
//! authentication exactly when the descriptor has a username.  Once the
//! fetch has run, its body is relayed verbatim on success, and a failure
//! answers a server-error status with no body at all.

use vstd::prelude::*;

use crate::calendar::Calendar;
use crate::calendar::CalendarModel;
use crate::response::ApiResponse;
use crate::response::BodyModel;
use crate::response::ResponseBody;
use crate::response::ResponseModel;
use crate::response::STATUS_NOT_FOUND;
use crate::response::STATUS_OK;
use crate::response::STATUS_SERVER_ERROR;

verus! {

/// Basic-auth credentials for the outbound request.  The password may be
/// absent: a username alone still attempts authentication.
pub struct BasicAuth {
    pub username: String,
    pub password: Option<String>,
}

/// The single outbound request a relay performs: a GET of `url`, with
/// `auth` attached when present.
pub struct OutboundRequest {
    pub url: String,
    pub auth: Option<BasicAuth>,
}

/// Model of the credentials.
pub struct AuthModel {
    pub username: Seq<char>,
    pub password: Option<Seq<char>>,
}

/// Model of the outbound request.
pub struct OutboundModel {
    pub url: Seq<char>,
    pub auth: Option<AuthModel>,
}

impl View for BasicAuth {
    type V = AuthModel;

    open spec fn view(&self) -> AuthModel {
        AuthModel {
            username: self.username@,
            password: match self.password {
                Option::Some(p) => Option::Some(p@),
                Option::None => Option::None,
            },
        }
    }
}

impl View for OutboundRequest {
    type V = OutboundModel;

    open spec fn view(&self) -> OutboundModel {
        OutboundModel {
            url: self.url@,
            auth: match self.auth {
                Option::Some(a) => Option::Some(a@),
                Option::None => Option::None,
            },
        }
    }
}

/// The outbound plan a descriptor gives rise to: its URL, and its
/// credentials exactly when a username is present.  The plan is a function
/// of the descriptor alone, and a descriptor never changes, so relaying
/// the same identifier twice against an unchanged store targets the same
/// URL with the same credentials.
pub open spec fn plan_of(c: CalendarModel) -> OutboundModel {
    OutboundModel {
        url: c.remote_url,
        auth: match c.username {
            Option::Some(u) => Option::Some(AuthModel { username: u, password: c.password }),
            Option::None => Option::None,
        },
    }
}

/// Builds the outbound request for a descriptor.
pub fn plan_fetch(cal: Calendar) -> (r: OutboundRequest)
    ensures
        r@ == plan_of(cal@),
{
    let auth = match cal.username {
        Option::Some(u) => Option::Some(BasicAuth { username: u, password: cal.password }),
        Option::None => Option::None,
    };
    OutboundRequest { url: cal.remote_url, auth }
}

/// What a relay does after the lookup: either answer at once, or perform
/// the planned fetch.
pub enum RelayStep {
    Respond(ApiResponse),
    Fetch(OutboundRequest),
}

/// Decides the relay's next step from the lookup's result.  An unknown
/// identifier answers not-found with an empty body and plans no fetch; a
/// known one plans exactly the fetch of `plan_of` its descriptor.
pub fn relay_lookup_step(found: Option<Calendar>) -> (r: RelayStep)
    ensures
        found is None ==> (r matches RelayStep::Respond(resp) && resp@ == (ResponseModel {
            status: STATUS_NOT_FOUND,
            body: BodyModel::Empty,
        })),
        found matches Some(c) ==> (r matches RelayStep::Fetch(p) && p@ == plan_of(c@)),
{
    match found {
        Option::None => RelayStep::Respond(
            ApiResponse { status: STATUS_NOT_FOUND, body: ResponseBody::Empty },
        ),
        Option::Some(c) => RelayStep::Fetch(plan_fetch(c)),
    }
}

/// The outbound fetch failed: the remote was unreachable, the connection
/// broke, or the body could not be read in full.  The cause stays with the
/// caller and is never relayed to the client.
pub struct FetchError;

/// The response a fetch outcome decides: the body relayed verbatim with a
/// success status when one was received in full, a server-error status
/// with no body at all when the fetch failed.
pub open spec fn relay_response_of(fetched: Option<Seq<char>>) -> ResponseModel {
    match fetched {
        Option::Some(b) => ResponseModel { status: STATUS_OK, body: BodyModel::Relayed(b) },
        Option::None => ResponseModel { status: STATUS_SERVER_ERROR, body: BodyModel::Empty },
    }
}

/// Decides the relay's response from the fetch's outcome, exactly as
/// `relay_response_of` says.
pub fn relay_fetch_step(outcome: Result<String, FetchError>) -> (r: ApiResponse)
    ensures
        outcome matches Ok(b) ==> r@ == relay_response_of(Some(b@)),
        outcome is Err ==> r@ == relay_response_of(None),
{
    match outcome {
        Ok(b) => ApiResponse { status: STATUS_OK, body: ResponseBody::Relayed(b) },
        Err(_) => ApiResponse { status: STATUS_SERVER_ERROR, body: ResponseBody::Empty },
    }
}

} // verus!
