//! The laws the service obeys, stated over the models and proved once and
//! for all.  Each one relates functions whose own contracts pin their
//! results down; the lemma writes out what holds across a whole request,
//! or across two of them.

use vstd::prelude::*;

use crate::calendar::CalendarModel;
use crate::registration::descriptor_of;
use crate::registration::RequestModel;
use crate::relay::plan_of;
use crate::relay::relay_response_of;
use crate::relay::AuthModel;
use crate::response::BodyModel;
use crate::response::STATUS_OK;

verus! {

/// Round-trip: a registration whose request carries `remote_url = url`
/// stores a descriptor for exactly `url`; a later relay through that
/// descriptor plans a fetch aimed at exactly `url`; and when that fetch
/// returns `body`, the relay answers with a success status and `body`
/// verbatim.
pub proof fn lemma_round_trip(req: RequestModel, url: Seq<char>, body: Seq<char>)
    requires
        req.remote_url == Some(url),
    ensures
        descriptor_of(req).remote_url == url,
        plan_of(descriptor_of(req)).url == url,
        relay_response_of(Some(body)).status == STATUS_OK,
        relay_response_of(Some(body)).body == BodyModel::Relayed(body),
{
}

/// Immutability of relaying: the outbound plan is a function of the stored
/// descriptor alone, and its target is always the stored URL.  No function
/// of this crate mutates a descriptor, so relaying the same identifier
/// twice against an unchanged store plans the same fetch both times.
pub proof fn lemma_relay_target_stable(c: CalendarModel)
    ensures
        plan_of(c).url == c.remote_url,
        forall|d: CalendarModel| d == c ==> plan_of(d) == plan_of(c),
{
}

/// Auth propagation: the outbound plan carries basic authentication
/// exactly when the descriptor has a username, and then with that exact
/// username and the descriptor's password, present or absent, unchanged.
pub proof fn lemma_auth_propagation(c: CalendarModel)
    ensures
        c.username matches Some(u) ==> plan_of(c).auth == Some(
            AuthModel { username: u, password: c.password },
        ),
        c.username is None ==> plan_of(c).auth is None,
{
}

} // verus!
