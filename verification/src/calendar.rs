//! The persisted descriptor: a remote URL plus optional basic-auth
//! credentials.  A descriptor is created once at registration and never
//! mutated afterwards; no function of this crate changes one in place.

use vstd::prelude::*;

verus! {

/// A registered remote resource.  `remote_url` is required; `username` and
/// `password` are each optional, and the service does not enforce that the
/// two come paired.
pub struct Calendar {
    pub remote_url: String,
    pub username: Option<String>,
    pub password: Option<String>,
}

/// Mathematical model of a descriptor: the same three fields over
/// character sequences.
pub struct CalendarModel {
    pub remote_url: Seq<char>,
    pub username: Option<Seq<char>>,
    pub password: Option<Seq<char>>,
}

impl View for Calendar {
    type V = CalendarModel;

    open spec fn view(&self) -> CalendarModel {
        CalendarModel {
            remote_url: self.remote_url@,
            username: match self.username {
                Option::Some(u) => Option::Some(u@),
                Option::None => Option::None,
            },
            password: match self.password {
                Option::Some(p) => Option::Some(p@),
                Option::None => Option::None,
            },
        }
    }
}

} // verus!
