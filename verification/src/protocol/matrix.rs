//! The Matrix client: its credential, rooms and events.
use vstd::prelude::*;

use crate::text::{is_uuid_text, uuid_v4_string};

verus! {

/// Why a Matrix operation failed.
#[derive(Debug)]
pub enum MatrixError {
    AuthFailed(String),
    Unreachable(String),
    RoomNotFound(String),
    Encryption(String),
}

/// The credential of a Matrix account.
pub struct MatrixCredential {
    pub homeserver: String,
    pub user_id: String,
    pub access_token: String,
    pub device_id: String,
}

/// A Matrix room.
pub struct MatrixRoom {
    pub id: String,
    pub display_name: String,
    pub canonical_alias: Option<String>,
    pub encrypted: bool,
}

/// A Matrix text event.
pub struct MatrixEvent {
    pub event_id: String,
    pub room_id: String,
    pub sender: String,
    pub body: String,
    pub origin_server_ts: u64,
}

/// The placeholder for the HTTP client.
pub struct StubClient;

/// A client of one Matrix account.
pub struct MatrixClient {
    credential: MatrixCredential,
    http_client: StubClient,
}

impl MatrixClient {
    /// The account's credential.
    pub closed spec fn credential(&self) -> MatrixCredential {
        self.credential
    }

    /// A client for `credential`.
    pub fn new(credential: MatrixCredential) -> (res: Self)
        ensures
            res.credential() == credential,
    {
        MatrixClient { credential, http_client: StubClient }
    }

    /// Logs in: this always succeeds.
    pub fn login(&self) -> (res: Result<(), MatrixError>)
        ensures
            res is Ok,
    {
        Ok(())
    }

    /// Syncs: no events are received yet.
    pub fn sync(&self) -> (res: Result<Vec<MatrixEvent>, MatrixError>)
        ensures
            res matches Ok(v) && v@.len() == 0,
    {
        Ok(Vec::new())
    }

    /// The joined rooms: none are fetched yet.
    pub fn joined_rooms(&self) -> (res: Result<Vec<MatrixRoom>, MatrixError>)
        ensures
            res matches Ok(v) && v@.len() == 0,
    {
        Ok(Vec::new())
    }

    /// Sends a text event: returns a new random event id.
    pub fn send_text_event(&self, room_id: &str, body: &str) -> (res: Result<String, MatrixError>)
        ensures
            res matches Ok(id) && is_uuid_text(id@),
    {
        Ok(uuid_v4_string())
    }
}

} // verus!
