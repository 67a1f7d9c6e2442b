//! The compact API client and its response shapes.
use crate::client::{build_client, client_builder, is_success_status, API_BASE_URL};
use crate::error::AppError;
use crate::model::{weather_label, weather_of};
use reqwest::header::HeaderValue;
use vstd::prelude::*;
use vstd::string::*;

verus! {

/// `reqwest::header::HeaderValue`, carried through opaquely.
#[verifier::external_type_specification]
#[verifier::external_body]
pub struct ExHeaderValue(reqwest::header::HeaderValue);

/// `reqwest::header::InvalidHeaderValue`, carried through opaquely.
#[verifier::external_type_specification]
#[verifier::external_body]
pub struct ExInvalidHeaderValue(reqwest::header::InvalidHeaderValue);

/// A character that `HeaderValue::from_str` accepts. It checks each UTF-8
/// byte `b` for `b >= 32 && b != 127 || b == b'\t'`; the bytes of a
/// character beyond ASCII are all 128 or more, so per character this is:
pub open spec fn header_value_char(c: char) -> bool {
    ((c as u32) >= 32 && (c as u32) != 127) || (c as u32) == 9
}

/// A string that `HeaderValue::from_str` accepts.
pub open spec fn header_value_ok(s: Seq<char>) -> bool {
    forall|i: int| 0 <= i < s.len() ==> header_value_char(#[trigger] s[i])
}

/// Calls `HeaderValue::from_str`: it succeeds exactly when every character
/// is acceptable in a header value. Nothing more is claimed of the value.
#[verifier::external_body]
fn header_value_from_str(s: &str) -> (r: Result<HeaderValue, reqwest::header::InvalidHeaderValue>)
    ensures
        r is Ok <==> header_value_ok(s@),
{
    HeaderValue::from_str(s)
}

/// How many players are online, with their names when the server lists them.
#[derive(Clone, Debug, PartialEq, Eq)]
pub struct OnlinePlayersResponse {
    pub count: u32,
    pub names: Option<Vec<String>>,
}

/// The weather flags of a world.
#[derive(Clone, Debug, PartialEq, Eq)]
pub struct WorldResponse {
    pub storming: bool,
    pub thundering: bool,
}

/// A client that sends the API key with every request.
#[derive(Clone)]
pub struct ApiClient {
    client: reqwest::Client,
    api_key: String,
    world_name: String,
}

/// The name of the world's weather: `Thunderstorm`, `Rain` or `Clear`.
pub fn weather_text(world: &WorldResponse) -> (r: String)
    ensures
        r@ == weather_label(weather_of(world.storming, world.thundering)),
{
    if world.thundering {
        String::from_str("Thunderstorm")
    } else if world.storming {
        String::from_str("Rain")
    } else {
        String::from_str("Clear")
    }
}

impl ApiClient {
    /// The HTTP client this client sends its requests through: the one
    /// built when it was made.
    pub closed spec fn spec_http(&self) -> reqwest::Client {
        self.client
    }

    /// The API key every request carries.
    pub closed spec fn spec_api_key(&self) -> Seq<char> {
        self.api_key@
    }

    /// The world this client asks about.
    pub closed spec fn spec_world_name(&self) -> Seq<char> {
        self.world_name@
    }

    /// Builds a client whose every request carries `X-API-Key: {api_key}`
    /// and `Accept: application/json` (see `request_headers`). An API key
    /// that cannot stand in a header is `InvalidConfig`, and nothing is
    /// built; a client that cannot be built is `ClientBuild`; otherwise the
    /// client keeps the key and the world.
    pub fn new(api_key: String, world_name: String) -> (r: Result<ApiClient, AppError>)
        ensures
            !header_value_ok(api_key@) ==> (r matches Err(AppError::InvalidConfig(m)) && m@
                == "`api_key` contains invalid header characters"@),
            header_value_ok(api_key@) ==> match r {
                Ok(c) => c.spec_world_name() == world_name@ && c.spec_api_key() == api_key@,
                Err(e) => e is ClientBuild,
            },
    {
        if header_value_from_str(api_key.as_str()).is_err() {
            return Err(
                AppError::InvalidConfig(
                    String::from_str("`api_key` contains invalid header characters"),
                ),
            );
        }
        match build_client(client_builder()) {
            Ok(client) => Ok(ApiClient { client, api_key, world_name }),
            Err(source) => Err(AppError::ClientBuild(source)),
        }
    }

    /// The headers sent with every request, in order: the API key as
    /// `X-API-Key`, and `Accept: application/json`.
    pub fn request_headers(&self) -> (r: Vec<(String, String)>)
        ensures
            r@.len() == 2,
            r@[0].0@ == "X-API-Key"@,
            r@[0].1@ == self.spec_api_key(),
            r@[1].0@ == "Accept"@,
            r@[1].1@ == "application/json"@,
    {
        let mut r: Vec<(String, String)> = Vec::new();
        r.push((String::from_str("X-API-Key"), self.api_key.clone()));
        r.push((String::from_str("Accept"), String::from_str("application/json")));
        r
    }

    /// The HTTP client through which requests are sent: the one this client
    /// holds, so every request shares its connection pool and settings.
    pub fn http(&self) -> (h: &reqwest::Client)
        ensures
            *h == self.spec_http(),
    {
        &self.client
    }

    /// The address of the online player list: `/server/online/all`.
    pub fn online_players_url(&self) -> (r: String)
        ensures
            r@ == API_BASE_URL@ + "/server/online/all"@,
    {
        let mut r = String::from_str(API_BASE_URL);
        r.append("/server/online/all");
        r
    }

    /// The address of the world: `/worlds/{world_name}`.
    pub fn world_url(&self) -> (r: String)
        ensures
            r@ == API_BASE_URL@ + "/worlds/"@ + self.spec_world_name(),
    {
        let mut r = String::from_str(API_BASE_URL);
        r.append("/worlds/");
        r.append(self.world_name.as_str());
        r
    }

    /// Judges a reply to a request for `url`: a status from 200 to 299 gives
    /// the body back for decoding, any other status is `HttpStatus`.
    pub fn check_response(url: String, status: u16, body: String) -> (r: Result<String, AppError>)
        ensures
            is_success_status(status) ==> r == Ok::<String, AppError>(body),
            !is_success_status(status) ==> (r matches Err(AppError::HttpStatus { url: u, status: s, body: b })
                && u == url && s == status && b == body),
    {
        if 200 <= status && status < 300 {
            Ok(body)
        } else {
            Err(AppError::HttpStatus { url, status, body })
        }
    }
}

} // verus!
