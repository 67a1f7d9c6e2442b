//! The client of the Modern Beta server API: where each request goes, what
//! it carries, and how a reply is judged. Sending the request and decoding
//! its JSON body are left to the caller, which hands the reply back here.
use vstd::prelude::*;
use vstd::string::*;

verus! {

/// `reqwest::Client`, carried through opaquely.
#[verifier::external_type_specification]
#[verifier::external_body]
pub struct ExReqwestClient(reqwest::Client);

/// `reqwest::ClientBuilder`, carried through opaquely.
#[verifier::external_type_specification]
#[verifier::external_body]
pub struct ExReqwestClientBuilder(reqwest::ClientBuilder);

/// `reqwest::Error`, carried through opaquely.
#[verifier::external_type_specification]
#[verifier::external_body]
pub struct ExReqwestError(reqwest::Error);

/// `serde_json::Error`, carried through opaquely.
#[verifier::external_type_specification]
#[verifier::external_body]
pub struct ExSerdeJsonError(serde_json::Error);

/// `Clone` of `reqwest::Client`: another handle on the same connection pool.
/// Nothing is claimed of it.
pub assume_specification[ <reqwest::Client as std::clone::Clone>::clone ](c: &reqwest::Client) -> reqwest::Client;

/// Calls `reqwest::Client::builder`, which starts a builder with the
/// default settings. Nothing is claimed of the builder.
#[verifier::external_body]
pub(crate) fn client_builder() -> (b: reqwest::ClientBuilder) {
    reqwest::Client::builder()
}

/// Calls `reqwest::ClientBuilder::build`. Whether it succeeds depends on the
/// TLS backend and the system's resolver configuration, so nothing is
/// claimed of the outcome.
#[verifier::external_body]
pub(crate) fn build_client(b: reqwest::ClientBuilder) -> (r: Result<reqwest::Client, reqwest::Error>) {
    b.build()
}

/// The root of every API address.
pub const API_BASE_URL: &'static str = "https://api.modernbeta.org/api/v1";

/// The HTTP status codes that count as success: 200 to 299, which is what
/// `reqwest::StatusCode::is_success` accepts.
pub open spec fn is_success_status(status: u16) -> bool {
    200 <= status < 300
}

/// Why a request to the API failed.
#[derive(Debug)]
pub enum ApiError {
    /// The request could not be sent or its body not read.
    Request { url: String, source: reqwest::Error },
    /// The server answered with a status outside 200..=299.
    HttpStatus { url: String, status: u16, body: String },
    /// The body is not the JSON that was expected.
    DecodeError { url: String, body: String, source: serde_json::Error },
    /// The HTTP client could not be built.
    ClientBuild(reqwest::Error),
}

/// What the client needs to know to reach the API.
#[derive(Clone, Debug)]
pub struct ClientConfig {
    pub api_key: String,
    pub world_name: String,
}

/// A client of the Modern Beta API.
#[derive(Clone)]
pub struct ApiClient {
    client: reqwest::Client,
    config: ClientConfig,
}

/// `API_BASE_URL` followed by `path`.
pub open spec fn api_url(path: Seq<char>) -> Seq<char> {
    API_BASE_URL@ + path
}

fn url_of(parts: &[&str]) -> (r: String)
    ensures
        r@ == API_BASE_URL@ + concat_all(parts@.map_values(|p: &str| p@)),
{
    let mut r = String::from_str(API_BASE_URL);
    let mut i: usize = 0;
    while i < parts.len()
        invariant
            i <= parts@.len(),
            r@ == API_BASE_URL@ + concat_all(parts@.take(i as int).map_values(|p: &str| p@)),
        decreases parts@.len() - i,
    {
        let ghost before = parts@.take(i as int).map_values(|p: &str| p@);
        r.append(parts[i]);
        proof {
            assert(parts@.take(i + 1).map_values(|p: &str| p@) =~= before.push(parts@[i as int]@));
            lemma_concat_all_push(before, parts@[i as int]@);
        }
        i = i + 1;
    }
    assert(parts@.take(parts@.len() as int) =~= parts@);
    r
}

/// The pieces of `parts`, one after the other.
pub open spec fn concat_all(parts: Seq<Seq<char>>) -> Seq<char>
    decreases parts.len(),
{
    if parts.len() == 0 {
        Seq::empty()
    } else {
        concat_all(parts.drop_last()) + parts.last()
    }
}

proof fn lemma_concat_all_push(parts: Seq<Seq<char>>, p: Seq<char>)
    ensures
        concat_all(parts.push(p)) == concat_all(parts) + p,
{
    assert(parts.push(p).drop_last() =~= parts);
}

impl ApiClient {
    /// The HTTP client this client sends its requests through: the one
    /// built when it was made.
    pub closed spec fn spec_http(&self) -> reqwest::Client {
        self.client
    }

    /// The settings this client was made with.
    pub closed spec fn spec_config(&self) -> ClientConfig {
        self.config
    }

    /// Builds a client for `config`. Fails with `ClientBuild` when the HTTP
    /// client cannot be built; otherwise the client keeps `config`.
    pub fn new(config: ClientConfig) -> (r: Result<ApiClient, ApiError>)
        ensures
            r matches Ok(c) ==> c.spec_config() == config,
            r matches Err(e) ==> e is ClientBuild,
    {
        match build_client(client_builder()) {
            Ok(client) => Ok(ApiClient { client, config }),
            Err(source) => Err(ApiError::ClientBuild(source)),
        }
    }

    /// The settings this client was made with.
    pub fn config(&self) -> (c: &ClientConfig)
        ensures
            *c == self.spec_config(),
    {
        &self.config
    }

    /// The HTTP client through which requests are sent: the one this client
    /// holds, so every request shares its connection pool and settings.
    pub fn http(&self) -> (h: &reqwest::Client)
        ensures
            *h == self.spec_http(),
    {
        &self.client
    }

    /// The address of a player's profile: `/players/{username}/profile`.
    pub fn player_profile_url(&self, username: &str) -> (r: String)
        ensures
            r@ == api_url("/players/"@ + username@ + "/profile"@),
    {
        let r = url_of(&["/players/", username, "/profile"]);
        proof {
            reveal_with_fuel(concat_all, 4);
        }
        r
    }

    /// The address of the online player count: `/server/online`.
    pub fn online_player_count_url(&self) -> (r: String)
        ensures
            r@ == api_url("/server/online"@),
    {
        let r = url_of(&["/server/online"]);
        proof {
            reveal_with_fuel(concat_all, 2);
        }
        r
    }

    /// The address of the online player list: `/server/online/all`.
    pub fn online_players_url(&self) -> (r: String)
        ensures
            r@ == api_url("/server/online/all"@),
    {
        let r = url_of(&["/server/online/all"]);
        proof {
            reveal_with_fuel(concat_all, 2);
        }
        r
    }

    /// The address of the server statistics: `/server/stats`.
    pub fn server_stats_url(&self) -> (r: String)
        ensures
            r@ == api_url("/server/stats"@),
    {
        let r = url_of(&["/server/stats"]);
        proof {
            reveal_with_fuel(concat_all, 2);
        }
        r
    }

    /// The address of the configured world: `/worlds/{world_name}`.
    pub fn world_url(&self) -> (r: String)
        ensures
            r@ == api_url("/worlds/"@ + self.spec_config().world_name@),
    {
        let r = url_of(&["/worlds/", self.config.world_name.as_str()]);
        proof {
            reveal_with_fuel(concat_all, 3);
        }
        r
    }

    /// The address of the player positions in the configured world:
    /// `/worlds/{world_name}/positions`.
    pub fn world_positions_url(&self) -> (r: String)
        ensures
            r@ == api_url("/worlds/"@ + self.spec_config().world_name@ + "/positions"@),
    {
        let r = url_of(&["/worlds/", self.config.world_name.as_str(), "/positions"]);
        proof {
            reveal_with_fuel(concat_all, 4);
        }
        r
    }

    /// The headers sent with every request, in order: the API key as
    /// `X-API-Key`, and `Accept: application/json`.
    pub fn request_headers(&self) -> (r: Vec<(String, String)>)
        ensures
            r@.len() == 2,
            r@[0].0@ == "X-API-Key"@,
            r@[0].1@ == self.spec_config().api_key@,
            r@[1].0@ == "Accept"@,
            r@[1].1@ == "application/json"@,
    {
        let mut r: Vec<(String, String)> = Vec::new();
        r.push((String::from_str("X-API-Key"), self.config.api_key.clone()));
        r.push((String::from_str("Accept"), String::from_str("application/json")));
        r
    }

    /// Judges a reply to a request for `url`: a status from 200 to 299 gives
    /// the body back for decoding, any other status is `HttpStatus` with the
    /// address, the status and the body.
    pub fn check_response(url: String, status: u16, body: String) -> (r: Result<String, ApiError>)
        ensures
            is_success_status(status) ==> r == Ok::<String, ApiError>(body),
            !is_success_status(status) ==> (r matches Err(ApiError::HttpStatus { url: u, status: s, body: b })
                && u == url && s == status && b == body),
    {
        if 200 <= status && status < 300 {
            Ok(body)
        } else {
            Err(ApiError::HttpStatus { url, status, body })
        }
    }
}

} // verus!
