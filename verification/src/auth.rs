//! Credentials for the endpoints that change state.

use vstd::prelude::*;
use vstd::string::*;
use crate::client::{Client, Method, Request};

verus! {

/// A bearer credential that can be attached to an outgoing request.
#[derive(Debug, Clone)]
pub struct Auth {
    pub token: String,
}

impl Auth {
    /// The value of the authorization header that carries this credential.
    pub open spec fn header(&self) -> Seq<char> {
        "Bearer "@ + self.token@
    }

    /// A credential made of a bearer token.
    pub fn bearer(token: &str) -> (auth: Auth)
        ensures
            auth.token@ == token@,
    {
        Auth { token: String::from_str(token) }
    }

    /// The value of the authorization header that carries this credential.
    pub fn header_value(&self) -> (value: String)
        ensures
            value@ == self.header(),
    {
        String::from_str("Bearer ").concat(self.token.as_str())
    }

    /// Attaches the credential to a request and changes nothing else of it.
    pub fn apply_to_request(&self, request: Request) -> (decorated: Request)
        ensures
            decorated.method == request.method,
            decorated.url == request.url,
            decorated.body == request.body,
            decorated.authorization matches Some(value) && value@ == self.header(),
    {
        Request {
            method: request.method,
            url: request.url,
            body: request.body,
            authorization: Some(self.header_value()),
        }
    }
}

/// A client together with the credential, if any, that its state-changing
/// requests carry.
#[derive(Debug, Clone)]
pub struct AuthenticatedClient {
    pub client: Client,
    pub auth: Option<Auth>,
}

impl AuthenticatedClient {
    /// Wraps a client; no credential is set yet.
    pub fn new(client: Client) -> (made: AuthenticatedClient)
        ensures
            made.client == client,
            made.auth is None,
    {
        AuthenticatedClient { client, auth: None }
    }

    /// Sets the credential that later requests carry.
    pub fn with_auth(self, auth: Auth) -> (made: AuthenticatedClient)
        ensures
            made.client == self.client,
            made.auth == Some(auth),
    {
        AuthenticatedClient { client: self.client, auth: Some(auth) }
    }

    /// The POST request for `path`, with the credential if one is set.
    pub fn post(&self, path: &str, body: Option<String>) -> (request: Request)
        ensures
            request.method == Method::Post,
            request.url@ == self.client.base_url@ + path@,
            request.body == body,
            self.auth is None ==> request.authorization is None,
            self.auth matches Some(auth) ==> (request.authorization matches Some(value) && value@
                == auth.header()),
    {
        self.client.post_json(path, body, self.auth.as_ref())
    }

    /// The DELETE request for `path`, with the credential if one is set.
    pub fn delete(&self, path: &str) -> (request: Request)
        ensures
            request.method == Method::Delete,
            request.url@ == self.client.base_url@ + path@,
            request.body is None,
            self.auth is None ==> request.authorization is None,
            self.auth matches Some(auth) ==> (request.authorization matches Some(value) && value@
                == auth.header()),
    {
        self.client.delete_json(path, self.auth.as_ref())
    }
}

} // verus!
