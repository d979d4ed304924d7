use vstd::prelude::*;
use vstd::string::StringExecFns;
use crate::ident::{hyphenated, identifier_text};

verus! {

/// Where the secret side-car serves the repository's login secret.
pub const SECRET_STORE_URL: &'static str =
    "http://localhost:2773/secretsmanager/get?secretId=sandbox-preservica-6-preservicav6login";

/// The header that carries the session token to the secret side-car.
pub const SECRET_TOKEN_HEADER: &'static str = "X-Aws-Parameters-Secrets-Token";

/// The header that carries the bearer token to the repository.
pub const ACCESS_TOKEN_HEADER: &'static str = "Preservica-Access-Token";

/// Settings read once at start-up and handed to every stage.
#[derive(Clone, Debug)]
pub struct Config {
    pub base_url: String,
}

/// An authenticated GET that a stage asks the host to perform.
#[derive(Clone, Debug)]
pub struct HttpGet {
    pub url: String,
    pub header_name: String,
    pub header_value: String,
}

/// A form-encoded POST that a stage asks the host to perform.
#[derive(Clone, Debug)]
pub struct FormPost {
    pub url: String,
    pub fields: Vec<(String, String)>,
}

impl Config {
    pub fn new(base_url: String) -> (r: Config)
        ensures
            r.base_url == base_url,
    {
        Config { base_url }
    }

    /// `{base}/api/accesstoken/login`
    pub fn login_url(&self) -> (r: String)
        ensures
            r@ == self.base_url@ + "/api/accesstoken/login"@,
    {
        let mut url = self.base_url.clone();
        url.append("/api/accesstoken/login");
        url
    }

    /// `{base}/api/entity/information-objects/{reference}`
    pub fn entity_url(&self, reference: u128) -> (r: String)
        ensures
            r@ == self.base_url@ + "/api/entity/information-objects/"@ + hyphenated(reference),
    {
        let mut url = self.base_url.clone();
        url.append("/api/entity/information-objects/");
        let id = identifier_text(reference);
        url.append(id.as_str());
        url
    }
}

} // verus!
