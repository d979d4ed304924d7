use vstd::prelude::*;
use vstd::string::StringExecFns;
use crate::config::{Config, HttpGet, ACCESS_TOKEN_HEADER};
use crate::error::{ErrorKind, ServiceError};
use crate::ident::{hyphenated, identifier_text, parse_identifier, uuid_value_of};

verus! {

/// The entity as the repository's XML envelope writes it: the texts of its
/// `Ref`, `Title`, `SecurityTag` and `Parent` elements.
#[derive(Clone, Debug)]
pub struct RemoteEntityRecord {
    pub reference: String,
    pub title: String,
    pub security_tag: String,
    pub parent: String,
}

/// The entity that the GraphQL field hands out.
#[derive(Clone, Debug)]
pub struct Entity {
    pub reference: u128,
    pub title: String,
    pub security_tag: String,
    pub parent: u128,
}

/// An entity's content: reference, title, security tag, parent.
pub type EntityView = (u128, Seq<char>, Seq<char>, u128);

pub open spec fn entity_view(e: Entity) -> EntityView {
    (e.reference, e.title@, e.security_tag@, e.parent@)
}

impl Entity {
    pub fn reference_text(&self) -> (r: String)
        ensures
            r@ == hyphenated(self.reference),
    {
        identifier_text(self.reference)
    }

    pub fn parent_text(&self) -> (r: String)
        ensures
            r@ == hyphenated(self.parent),
    {
        identifier_text(self.parent)
    }

    pub fn title(&self) -> (r: String)
        ensures
            r@ == self.title@,
    {
        self.title.clone()
    }

    pub fn security_tag(&self) -> (r: String)
        ensures
            r@ == self.security_tag@,
    {
        self.security_tag.clone()
    }
}

/// The GET for one entity, carrying the bearer token.
pub fn entity_request(config: &Config, reference: u128, token: String) -> (r: HttpGet)
    ensures
        r.url@ == config.base_url@ + "/api/entity/information-objects/"@ + hyphenated(reference),
        r.header_name@ == ACCESS_TOKEN_HEADER@,
        r.header_value == token,
{
    HttpGet {
        url: config.entity_url(reference),
        header_name: String::from_str(ACCESS_TOKEN_HEADER),
        header_value: token,
    }
}

/// The body of the entity endpoint's reply, or a fetch failure with the
/// transport's message.
pub fn body_from_reply(reply: Result<String, String>) -> (r: Result<String, ServiceError>)
    ensures
        reply.is_ok() <==> r.is_ok(),
        r.is_ok() ==> r.unwrap() == reply.unwrap(),
        r.is_err() ==> r.unwrap_err().kind == ErrorKind::FetchTransportError
            && r.unwrap_err().message == reply.unwrap_err(),
{
    match reply {
        Ok(body) => Ok(body),
        Err(message) => Err(ServiceError::with_message(ErrorKind::FetchTransportError, message)),
    }
}

/// What a decoded record yields: both identifiers must parse; the other
/// fields are carried over as they are.
pub open spec fn record_outcome(
    reference: Seq<char>,
    title: Seq<char>,
    security_tag: Seq<char>,
    parent: Seq<char>,
) -> Result<EntityView, ErrorKind> {
    match (uuid_value_of(reference), uuid_value_of(parent)) {
        (Some(r), Some(p)) => Ok((r, title, security_tag, p)),
        _ => Err(ErrorKind::DecodeError),
    }
}

/// What the outcome of decoding the envelope yields.
pub open spec fn decoded_outcome(decoded: Result<RemoteEntityRecord, String>) -> Result<
    EntityView,
    ErrorKind,
> {
    match decoded {
        Err(_) => Err(ErrorKind::DecodeError),
        Ok(rec) => record_outcome(rec.reference@, rec.title@, rec.security_tag@, rec.parent@),
    }
}

/// Turns a record into an entity, or fails as a whole.
pub fn entity_from_record(record: RemoteEntityRecord) -> (r: Result<Entity, ServiceError>)
    ensures
        r.is_ok() ==> record_outcome(
            record.reference@,
            record.title@,
            record.security_tag@,
            record.parent@,
        ) == Ok::<_, ErrorKind>(entity_view(r.unwrap())),
        r.is_err() ==> record_outcome(
            record.reference@,
            record.title@,
            record.security_tag@,
            record.parent@,
        ) == Err::<EntityView, _>(r.unwrap_err().kind),
{
    let reference = match parse_identifier(record.reference.as_str()) {
        None => {
            return Err(ServiceError::new(ErrorKind::DecodeError, "malformed Ref identifier"));
        },
        Some(v) => v,
    };
    let parent = match parse_identifier(record.parent.as_str()) {
        None => {
            return Err(ServiceError::new(ErrorKind::DecodeError, "malformed Parent identifier"));
        },
        Some(v) => v,
    };
    Ok(Entity { reference, title: record.title, security_tag: record.security_tag, parent })
}

/// Turns the outcome of decoding the envelope into the field's result; a
/// decoder's complaint becomes a decode failure with its message.
pub fn entity_from_decoded(decoded: Result<RemoteEntityRecord, String>) -> (r: Result<
    Entity,
    ServiceError,
>)
    ensures
        r.is_ok() ==> decoded_outcome(decoded) == Ok::<_, ErrorKind>(entity_view(r.unwrap())),
        r.is_err() ==> decoded_outcome(decoded) == Err::<EntityView, _>(r.unwrap_err().kind),
        decoded.is_err() ==> r.is_err() && r.unwrap_err().message == decoded.unwrap_err(),
{
    match decoded {
        Err(message) => Err(ServiceError::with_message(ErrorKind::DecodeError, message)),
        Ok(record) => entity_from_record(record),
    }
}

} // verus!
