use vstd::prelude::*;

use crate::model::server_status::ServerStatus;

verus! {

/// What the controller reports of the server at one moment.
#[derive(Debug)]
pub struct ServerSnapshot {
    pub status: ServerStatus,
    pub process_id: Option<u32>,
    pub last_error: Option<String>,
}

} // verus!
