use vstd::prelude::*;
use vstd::string::StringExecFns;
use crate::config::{HttpGet, SECRET_STORE_URL, SECRET_TOKEN_HEADER};
use crate::error::{ErrorKind, ServiceError};
use crate::json::{find_text, member_text, object_members_of, parse_object};

verus! {

/// A username and password, good for one request.
#[derive(Clone, Debug)]
pub struct Credentials {
    pub username: String,
    pub password: String,
}

/// A reply of the host: the response body, or the transport's complaint.
pub open spec fn reply_view(reply: Result<String, String>) -> Result<Seq<char>, Seq<char>> {
    match reply {
        Ok(b) => Ok(b@),
        Err(m) => Err(m@),
    }
}

/// The request for the login secret; it needs the session token.
pub fn secret_request(session_token: Option<String>) -> (r: Result<HttpGet, ServiceError>)
    ensures
        session_token.is_none() <==> r.is_err(),
        r.is_err() ==> r.unwrap_err().kind == ErrorKind::MissingEnvironment,
        r.is_ok() ==> r.unwrap().url@ == SECRET_STORE_URL@
            && r.unwrap().header_name@ == SECRET_TOKEN_HEADER@
            && r.unwrap().header_value == session_token.unwrap(),
{
    match session_token {
        None => Err(ServiceError::new(ErrorKind::MissingEnvironment, "missing session token")),
        Some(token) => Ok(
            HttpGet {
                url: String::from_str(SECRET_STORE_URL),
                header_name: String::from_str(SECRET_TOKEN_HEADER),
                header_value: token,
            },
        ),
    }
}

/// What a reply of the secret store yields: the store's body must be an
/// object whose `SecretString` member is a string holding a JSON object;
/// its last key is the username and that key's string value the password.
/// A body that is no JSON object at all counts as a failed fetch; anything
/// wrong from the `SecretString` member on is a malformed secret.
pub open spec fn secret_outcome(reply: Result<Seq<char>, Seq<char>>) -> Result<
    (Seq<char>, Seq<char>),
    ErrorKind,
> {
    match reply {
        Err(_) => Err(ErrorKind::SecretFetchFailed),
        Ok(body) => match object_members_of(body) {
            None => Err(ErrorKind::SecretFetchFailed),
            Some(outer) => match member_text(outer, "SecretString"@) {
                None => Err(ErrorKind::MalformedSecret),
                Some(nested) => match object_members_of(nested) {
                    None => Err(ErrorKind::MalformedSecret),
                    Some(inner) => if inner.len() == 0 {
                        Err(ErrorKind::MalformedSecret)
                    } else {
                        match inner.last().1 {
                            None => Err(ErrorKind::MalformedSecret),
                            Some(password) => Ok((inner.last().0, password)),
                        }
                    },
                },
            },
        },
    }
}

/// Reads the credentials out of the secret store's reply.
pub fn credentials_from_reply(reply: Result<String, String>) -> (r: Result<Credentials, ServiceError>)
    ensures
        r.is_ok() ==> secret_outcome(reply_view(reply)) == Ok::<_, ErrorKind>(
            (r.unwrap().username@, r.unwrap().password@),
        ),
        r.is_err() ==> secret_outcome(reply_view(reply)) == Err::<(Seq<char>, Seq<char>), _>(
            r.unwrap_err().kind,
        ),
        reply.is_err() ==> r.is_err() && r.unwrap_err().message == reply.unwrap_err(),
{
    let body = match reply {
        Err(message) => {
            return Err(ServiceError::with_message(ErrorKind::SecretFetchFailed, message));
        },
        Ok(body) => body,
    };
    let outer = match parse_object(body.as_str()) {
        None => {
            return Err(
                ServiceError::new(ErrorKind::SecretFetchFailed, "secret store reply is no JSON object"),
            );
        },
        Some(outer) => outer,
    };
    let nested = match find_text(&outer, &String::from_str("SecretString")) {
        None => {
            return Err(ServiceError::new(ErrorKind::MalformedSecret, "missing SecretString"));
        },
        Some(nested) => nested,
    };
    let inner = match parse_object(nested.as_str()) {
        None => {
            return Err(
                ServiceError::new(ErrorKind::MalformedSecret, "secret is no JSON object"),
            );
        },
        Some(inner) => inner,
    };
    let n = inner.len();
    if n == 0 {
        return Err(ServiceError::new(ErrorKind::MalformedSecret, "empty keys list"));
    }
    let last = &inner[n - 1];
    match &last.1 {
        None => Err(ServiceError::new(ErrorKind::MalformedSecret, "cannot retrieve password")),
        Some(password) => Ok(
            Credentials { username: last.0.clone(), password: password.clone() },
        ),
    }
}

} // verus!
