use vstd::prelude::*;
use vstd::utf8::{decode_utf8, valid_utf8};
use crate::auth::token_outcome;
use crate::entity::{decoded_outcome, record_outcome, RemoteEntityRecord};
use crate::error::ErrorKind;
use crate::ident::uuid_value_of;
use crate::json::{member_text, object_members_of, Members};
use crate::request::query_outcome;
use crate::secret::secret_outcome;

verus! {

/// A record whose `Ref` and `Parent` are identifiers becomes an entity that
/// carries exactly those two identifiers, the title and the security tag.
pub proof fn lemma_record_carried_exactly(
    reference: Seq<char>,
    title: Seq<char>,
    security_tag: Seq<char>,
    parent: Seq<char>,
)
    requires
        uuid_value_of(reference).is_some(),
        uuid_value_of(parent).is_some(),
    ensures
        record_outcome(reference, title, security_tag, parent) == Ok::<_, ErrorKind>(
            (uuid_value_of(reference).unwrap(), title, security_tag, uuid_value_of(parent).unwrap()),
        ),
{
}

/// A secret whose nested object has no key is malformed.
pub proof fn lemma_keyless_secret_is_malformed(body: Seq<char>, outer: Members, nested: Seq<char>)
    requires
        object_members_of(body) == Some(outer),
        member_text(outer, "SecretString"@) == Some(nested),
        object_members_of(nested) == Some(Seq::<(Seq<char>, Option<Seq<char>>)>::empty()),
    ensures
        secret_outcome(Ok(body)) == Err::<(Seq<char>, Seq<char>), _>(ErrorKind::MalformedSecret),
{
}

/// A login reply without a string `token` member fails to decode.
pub proof fn lemma_tokenless_login_fails(body: Seq<char>)
    requires
        object_members_of(body).is_none() || member_text(object_members_of(body).unwrap(), "token"@).is_none(),
    ensures
        token_outcome(Ok(body)) == Err::<Seq<char>, _>(ErrorKind::AuthDecodeError),
{
}

/// An envelope that the decoder refuses, or whose `Ref` or `Parent` is no
/// identifier, fails to decode.
pub proof fn lemma_undecodable_envelope_fails(decoded: Result<RemoteEntityRecord, String>)
    requires
        decoded matches Ok(rec) ==> uuid_value_of(rec.reference@).is_none()
            || uuid_value_of(rec.parent@).is_none(),
    ensures
        decoded_outcome(decoded) == Err::<(u128, Seq<char>, Seq<char>, u128), _>(
            ErrorKind::DecodeError,
        ),
{
}

/// A body that is not UTF-8 JSON text is an invalid request.
pub proof fn lemma_non_json_request_is_invalid(body: Seq<u8>)
    requires
        valid_utf8(body) ==> object_members_of(decode_utf8(body)).is_none(),
    ensures
        query_outcome(body) == Err::<Seq<char>, _>(ErrorKind::InvalidRequest),
{
}

} // verus!
