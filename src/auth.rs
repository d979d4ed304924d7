use vstd::prelude::*;
use vstd::string::StringExecFns;
use crate::config::{Config, FormPost};
use crate::error::{ErrorKind, ServiceError};
use crate::json::{find_text, member_text, object_members_of, parse_object};
use crate::secret::{reply_view, Credentials};

verus! {

/// The login POST: the credentials as the `username` and `password` fields.
pub fn login_request(config: &Config, credentials: Credentials) -> (r: FormPost)
    ensures
        r.url@ == config.base_url@ + "/api/accesstoken/login"@,
        r.fields.deep_view() == seq![
            ("username"@, credentials.username@),
            ("password"@, credentials.password@),
        ],
{
    let mut fields: Vec<(String, String)> = Vec::new();
    fields.push((String::from_str("username"), credentials.username));
    fields.push((String::from_str("password"), credentials.password));
    proof {
        assert(fields.deep_view() =~= seq![
            ("username"@, credentials.username@),
            ("password"@, credentials.password@),
        ]);
    }
    FormPost { url: config.login_url(), fields }
}

/// What a reply of the login endpoint yields: the string `token` member of
/// its JSON object.
pub open spec fn token_outcome(reply: Result<Seq<char>, Seq<char>>) -> Result<Seq<char>, ErrorKind> {
    match reply {
        Err(_) => Err(ErrorKind::AuthTransportError),
        Ok(body) => match object_members_of(body) {
            None => Err(ErrorKind::AuthDecodeError),
            Some(m) => match member_text(m, "token"@) {
                None => Err(ErrorKind::AuthDecodeError),
                Some(t) => Ok(t),
            },
        },
    }
}

/// Reads the bearer token out of the login endpoint's reply.
pub fn token_from_reply(reply: Result<String, String>) -> (r: Result<String, ServiceError>)
    ensures
        r.is_ok() ==> token_outcome(reply_view(reply)) == Ok::<_, ErrorKind>(r.unwrap()@),
        r.is_err() ==> token_outcome(reply_view(reply)) == Err::<Seq<char>, _>(r.unwrap_err().kind),
        reply.is_err() ==> r.is_err() && r.unwrap_err().message == reply.unwrap_err(),
{
    let body = match reply {
        Err(message) => {
            return Err(ServiceError::with_message(ErrorKind::AuthTransportError, message));
        },
        Ok(body) => body,
    };
    match parse_object(body.as_str()) {
        None => Err(ServiceError::new(ErrorKind::AuthDecodeError, "login reply is no JSON object")),
        Some(m) => match find_text(&m, &String::from_str("token")) {
            None => Err(ServiceError::new(ErrorKind::AuthDecodeError, "missing token")),
            Some(token) => Ok(token),
        },
    }
}

} // verus!
