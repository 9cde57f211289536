//! The saved login session.
use vstd::prelude::*;

verus! {

/// A login session kept between runs.
#[derive(Clone, Debug)]
pub struct StoredSession {
    pub token: String,
    pub email: String,
    pub display_name: Option<String>,
    pub server_url: String,
}

} // verus!
