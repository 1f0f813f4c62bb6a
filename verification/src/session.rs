//! Looking up a game session in the document store: the request to send, and
//! what to make of the answer. Sending the request and decoding the answer
//! are left to the caller.

use vstd::prelude::*;
use vstd::string::*;
use crate::board::GameState;
use crate::contract::{Error, OhMyChess};

verus! {

/// What the document store answers to a lookup: the session, if it holds one
/// under the given identifier.
#[derive(Clone, Copy, Debug)]
pub struct MongoDBDocument {
    pub document: Option<GameState>,
}

/// A request to the document store.
#[derive(Debug)]
pub struct SessionRequest {
    pub method: String,
    pub url: String,
    pub data: Vec<u8>,
    pub headers: Vec<(String, String)>,
}

/// The method of a lookup.
pub const LOOKUP_METHOD: &'static str = "POST";

/// The path of a lookup, up to the session identifier.
pub const LOOKUP_PATH: &'static str = "/action/findOne?_id=";

/// The body of a lookup: where the sessions are kept, and which of their
/// fields to return.
pub const LOOKUP_QUERY: &'static str =
    "{\n                \"collection\":\"game_sessions\",\n                \"database\":\"hackathon\",\n                \"dataSource\":\"Cluster0\",\n                \"projection\":{\"_id\":0,\"turn\":1,\"status\":1,\"players\":1,\"board\":1}\n            }";

/// Whether a header has the given name and value.
pub open spec fn header_is(header: (String, String), name: Seq<char>, value: Seq<char>) -> bool {
    header.0@ == name && header.1@ == value
}

/// The outcome of a lookup, given the decoded answer of the store: an answer
/// that could not be decoded is `ErrorFetchingFromDB`, one without a session
/// is `NoElementFoundInDB`, and any other gives its session.
pub open spec fn lookup_outcome(parsed: Option<MongoDBDocument>) -> Result<GameState, Error> {
    match parsed {
        None => Err(Error::ErrorFetchingFromDB),
        Some(found) => match found.document {
            None => Err(Error::NoElementFoundInDB),
            Some(state) => Ok(state),
        },
    }
}

impl OhMyChess {
    /// The request that looks up the session `session_id`: a `POST` to the
    /// store's address followed by the lookup path and the identifier, with
    /// the lookup query as its body, announced as JSON and signed with the
    /// store's key.
    pub fn find_game_session_request(&self, session_id: &str) -> (request: SessionRequest)
        ensures
            request.method@ == LOOKUP_METHOD@,
            request.url@ == self.spec_url() + LOOKUP_PATH@ + session_id@,
            request.data@ == LOOKUP_QUERY.spec_bytes(),
            request.headers@.len() == 3,
            header_is(request.headers@[0], "Content-Type"@, "application/json"@),
            header_is(request.headers@[1], "Access-Control-Request-Headers"@, "*"@),
            header_is(request.headers@[2], "api-key"@, self.spec_api_key()),
    {
        let method = String::from_str(LOOKUP_METHOD);
        let url = self.store_url().concat(LOOKUP_PATH).concat(session_id);
        let data = LOOKUP_QUERY.as_bytes_vec();
        let mut headers: Vec<(String, String)> = Vec::new();
        headers.push((String::from_str("Content-Type"), String::from_str("application/json")));
        headers.push((String::from_str("Access-Control-Request-Headers"), String::from_str("*")));
        headers.push((String::from_str("api-key"), self.store_key()));
        SessionRequest { method, url, data, headers }
    }

    /// What a lookup has found. `parsed` is the decoded answer of the store,
    /// `None` where the answer could not be decoded.
    pub fn game_session_from_document(parsed: Option<MongoDBDocument>) -> (session: Result<
        GameState,
        Error,
    >)
        ensures
            session == lookup_outcome(parsed),
    {
        match parsed {
            None => Err(Error::ErrorFetchingFromDB),
            Some(found) => match found.document {
                None => Err(Error::NoElementFoundInDB),
                Some(state) => Ok(state),
            },
        }
    }
}

} // verus!
