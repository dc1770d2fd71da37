//! Client of the TURN credentials server: where the credentials are asked
//! for, and what a reply of the server gives. The HTTP exchange itself is
//! the caller's part.

use vstd::prelude::*;
use crate::error::VoipError;
use crate::text::string_of;
use crate::video::TurnCredentials;

verus! {

/// Credentials as the server returns them.
#[derive(Debug)]
pub struct CredentialResponse {
    pub username: String,
    pub password: String,
    pub uris: Vec<String>,
    /// Time to live in seconds.
    pub ttl: i64,
}

/// Client of the TURN credentials server.
#[derive(Debug, Clone)]
pub struct TurnCredentialsClient {
    /// Base URL of the server.
    pub server_url: String,
}

impl TurnCredentialsClient {
    /// A client of the server at `server_url`.
    pub fn new(server_url: String) -> (res: Self)
        ensures
            res.server_url == server_url,
    {
        Self { server_url }
    }

    /// URL of the credentials endpoint: `/api/turn/credentials` under the base URL.
    pub fn credentials_url(&self) -> (res: String)
        ensures
            res@ == self.server_url@ + "/api/turn/credentials"@,
    {
        let mut u = string_of(self.server_url.as_str());
        u.append("/api/turn/credentials");
        u
    }

    /// The error of a request that could not be sent.
    pub fn request_failed(cause: &str) -> (res: VoipError)
        ensures
            res matches VoipError::NetworkError(m) && m@ == "Failed to fetch TURN credentials: "@
                + cause@,
    {
        let mut m = string_of("Failed to fetch TURN credentials: ");
        m.append(cause);
        VoipError::NetworkError(m)
    }

    /// The credentials a reply gives: a refusal when its HTTP status is not
    /// a success, a parse error when its body is not credentials, and
    /// otherwise the username, password and URIs of the body.
    pub fn credentials_from_reply(
        status_is_success: bool,
        status: &str,
        body: Result<CredentialResponse, String>,
    ) -> (res: Result<TurnCredentials, VoipError>)
        ensures
            !status_is_success ==> (res matches Err(VoipError::NetworkError(m)) && m@
                == "TURN credentials request failed: "@ + status@),
            status_is_success ==> match body {
                Err(e) => res matches Err(VoipError::NetworkError(m)) && m@
                    == "Failed to parse credentials: "@ + e@,
                Ok(c) => res matches Ok(t) && t.username == c.username && t.password == c.password
                    && t.uris == c.uris,
            },
    {
        if !status_is_success {
            let mut m = string_of("TURN credentials request failed: ");
            m.append(status);
            return Err(VoipError::NetworkError(m));
        }
        match body {
            Err(e) => {
                let mut m = string_of("Failed to parse credentials: ");
                m.append(e.as_str());
                Err(VoipError::NetworkError(m))
            },
            Ok(c) => Ok(TurnCredentials { username: c.username, password: c.password, uris: c.uris }),
        }
    }
}

} // verus!
