use vstd::prelude::*;
use crate::auth::{login_request, token_from_reply, token_outcome};
use crate::config::{Config, FormPost, HttpGet};
use crate::entity::{
    body_from_reply, decoded_outcome, entity_from_decoded, entity_request, entity_view, Entity,
    EntityView, RemoteEntityRecord,
};
use crate::error::{ErrorKind, ServiceError};
use crate::secret::{credentials_from_reply, reply_view, secret_outcome, secret_request};

verus! {

/// Where the resolution of one `entity(reference)` field stands.
#[derive(Clone, Copy, Debug)]
pub enum Resolution {
    AwaitingSecret { reference: u128 },
    AwaitingToken { reference: u128 },
    AwaitingEntity,
    AwaitingRecord,
    Finished,
}

/// What the host is to do next.
#[derive(Debug)]
pub enum Action {
    /// Perform the GET and report its reply.
    Get(HttpGet),
    /// Perform the form POST and report its reply.
    Post(FormPost),
    /// Decode the XML envelope and report the record or the complaint.
    Decode(String),
    /// The field's result.
    Finish(Result<Entity, ServiceError>),
}

/// The result of a `Finish`, with the entity seen through its view.
pub open spec fn finish_outcome(a: Action) -> Option<Result<EntityView, ErrorKind>> {
    match a {
        Action::Finish(Ok(e)) => Some(Ok(entity_view(e))),
        Action::Finish(Err(e)) => Some(Err(e.kind)),
        _ => None,
    }
}

impl Resolution {
    pub open spec fn awaits_reply(self) -> bool {
        match self {
            Resolution::AwaitingSecret { .. } => true,
            Resolution::AwaitingToken { .. } => true,
            Resolution::AwaitingEntity => true,
            _ => false,
        }
    }

    /// Begins resolving `reference`: the secret store comes first, and it
    /// needs the session token.
    pub fn start(reference: u128, session_token: Option<String>) -> (r: (Resolution, Action))
        ensures
            session_token.is_none() ==> r.0 == Resolution::Finished && finish_outcome(r.1) == Some(
                Err::<EntityView, _>(ErrorKind::MissingEnvironment),
            ),
            session_token.is_some() ==> r.0 == (Resolution::AwaitingSecret { reference })
                && (r.1 matches Action::Get(g) && g.header_value == session_token.unwrap()),
    {
        match secret_request(session_token) {
            Err(e) => (Resolution::Finished, Action::Finish(Err(e))),
            Ok(get) => (Resolution::AwaitingSecret { reference }, Action::Get(get)),
        }
    }

    /// Takes the reply to the request made last and decides the next step.
    /// Any failure ends the resolution at once.
    pub fn on_reply(self, config: &Config, reply: Result<String, String>) -> (r: (
        Resolution,
        Action,
    ))
        requires
            self.awaits_reply(),
        ensures
            self matches Resolution::AwaitingSecret { reference } ==> match secret_outcome(
                reply_view(reply),
            ) {
                Ok((user, password)) => r.0 == (Resolution::AwaitingToken { reference })
                    && (r.1 matches Action::Post(p) && p.fields.deep_view() == seq![
                    ("username"@, user),
                    ("password"@, password),
                ]),
                Err(k) => r.0 == Resolution::Finished && finish_outcome(r.1) == Some(
                    Err::<EntityView, _>(k),
                ),
            },
            self matches Resolution::AwaitingToken { reference } ==> match token_outcome(
                reply_view(reply),
            ) {
                Ok(token) => r.0 == Resolution::AwaitingEntity && (r.1 matches Action::Get(g)
                    && g.header_value@ == token && g.url@ == config.base_url@
                    + "/api/entity/information-objects/"@ + crate::ident::hyphenated(reference)),
                Err(k) => r.0 == Resolution::Finished && finish_outcome(r.1) == Some(
                    Err::<EntityView, _>(k),
                ),
            },
            self == Resolution::AwaitingEntity ==> match reply {
                Ok(body) => r.0 == Resolution::AwaitingRecord && r.1 == Action::Decode(body),
                Err(_) => r.0 == Resolution::Finished && finish_outcome(r.1) == Some(
                    Err::<EntityView, _>(ErrorKind::FetchTransportError),
                ),
            },
    {
        match self {
            Resolution::AwaitingSecret { reference } => match credentials_from_reply(reply) {
                Err(e) => (Resolution::Finished, Action::Finish(Err(e))),
                Ok(c) => (
                    Resolution::AwaitingToken { reference },
                    Action::Post(login_request(config, c)),
                ),
            },
            Resolution::AwaitingToken { reference } => match token_from_reply(reply) {
                Err(e) => (Resolution::Finished, Action::Finish(Err(e))),
                Ok(token) => (
                    Resolution::AwaitingEntity,
                    Action::Get(entity_request(config, reference, token)),
                ),
            },
            _ => match body_from_reply(reply) {
                Err(e) => (Resolution::Finished, Action::Finish(Err(e))),
                Ok(body) => (Resolution::AwaitingRecord, Action::Decode(body)),
            },
        }
    }

    /// Takes the decoded envelope and finishes with the entity or the
    /// decode failure.
    pub fn on_decoded(self, decoded: Result<RemoteEntityRecord, String>) -> (r: (
        Resolution,
        Action,
    ))
        requires
            self == Resolution::AwaitingRecord,
        ensures
            r.0 == Resolution::Finished,
            finish_outcome(r.1) == Some(decoded_outcome(decoded)),
    {
        (Resolution::Finished, Action::Finish(entity_from_decoded(decoded)))
    }
}

} // verus!
