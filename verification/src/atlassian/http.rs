//! Requests to an Atlassian REST API and the reading of its replies.

use vstd::prelude::*;

use crate::atlassian::auth::{AtlassianAuth, AuthView};
use crate::atlassian::error::{AtlassianError, ErrorView};
use crate::atlassian::url;
use crate::atlassian::url::{fits_in_url, parse_url, path_of, with_path};
use crate::json::{Json, JsonView};
use crate::json_codec::decode_json;
use crate::{json_codec, outcome, text};
use crate::text::{concat, concat3, trim_end_char, trim_start_char};

verus! {

/// The HTTP methods in use.
#[derive(Debug, Clone, Copy, PartialEq, Eq, Structural)]
pub enum Method {
    Get,
    Post,
    Put,
}

/// A request, ready to be sent.
#[derive(Debug)]
pub struct ApiRequest {
    pub method: Method,
    pub url: String,
    pub query: Vec<(String, String)>,
    pub body: Option<Json>,
    pub auth: AtlassianAuth,
}

/// What a request stands for.
#[verifier::ext_equal]
pub struct RequestView {
    pub method: Method,
    pub url: Seq<char>,
    pub query: Seq<(Seq<char>, Seq<char>)>,
    pub body: Option<JsonView>,
    pub auth: AuthView,
}

impl View for ApiRequest {
    type V = RequestView;

    open spec fn view(&self) -> RequestView {
        RequestView {
            method: self.method,
            url: self.url@,
            query: self.query.deep_view(),
            body: self.body.deep_view(),
            auth: self.auth@,
        }
    }
}

impl DeepView for ApiRequest {
    type V = RequestView;

    open spec fn deep_view(&self) -> RequestView {
        self@
    }
}

/// What came of a request.
#[derive(Debug)]
pub enum HttpReply {
    /// The request did not go through.
    Unsent { message: String },
    /// The service answered. `text` is the body of a refusal, where it could be read;
    /// `body` holds the bytes of a success, or says why they could not be read.
    Answered { status: u16, text: Option<String>, body: Result<Vec<u8>, String> },
}

/// The base URL of a service with the credentials and the settings of its requests.
#[derive(Debug)]
pub struct AtlassianHttpClient {
    base_url: String,
    auth: AtlassianAuth,
    timeout_seconds: u64,
    ssl_verify: bool,
}

/// `base` without the slashes at its end and `path` without those at its start, with one
/// slash between them.
pub open spec fn joined_path(base: Seq<char>, path: Seq<char>) -> Seq<char> {
    text::trim_end(base, |c: char| c == '/') + "/"@ + text::trim_start(
        path,
        |c: char| c == '/',
    )
}

/// The path under a base URL of an API path.
pub open spec fn api_path(base: Seq<char>, path: Seq<char>) -> Seq<char> {
    joined_path(url::url_path(base)->0, path)
}

/// Whether the URL of an API path under a base URL is short enough to be made.
pub open spec fn api_url_fits(base: Seq<char>, path: Seq<char>) -> bool {
    url::url_fits(url::parsed_url(base)->Ok_0, api_path(base, path))
}

/// The URL of an API path under a base URL.
pub open spec fn api_url(base: Seq<char>, path: Seq<char>) -> Seq<char> {
    url::url_with_path(base, api_path(base, path))->0
}

/// The path under a base URL's own path.
pub fn join_paths(base_path: &str, path: &str) -> (joined: String)
    ensures
        joined@ == joined_path(base_path@, path@),
{
    let base = trim_end_char(base_path, '/');
    let rest = trim_start_char(path, '/');
    if base.as_str().is_empty() {
        proof {
            reveal_strlit("/");
            assert(base@ + "/"@ + rest@ =~= "/"@ + rest@);
        }
        concat("/", rest.as_str())
    } else {
        concat3(base.as_str(), "/", rest.as_str())
    }
}

/// Tells whether a status means success.
pub fn is_success(status: u16) -> (yes: bool)
    ensures
        yes == (200 <= status < 300),
{
    200 <= status && status < 300
}

/// The error of a refused request.
pub open spec fn refusal(
    status: u16,
    text: Option<Seq<char>>,
) -> ErrorView {
    ErrorView::HttpStatus {
        status,
        message: match text {
            Some(text) => text,
            None => "failed to read error response"@,
        },
    }
}

/// The JSON that was decoded, or the error of what could not be.
pub open spec fn decoding_outcome(decoded: Result<JsonView, Seq<char>>) -> Result<
    JsonView,
    ErrorView,
> {
    match decoded {
        Ok(json) => Ok(json),
        Err(message) => Err(ErrorView::JsonDecode { message }),
    }
}

/// The JSON of bytes, or the error of bytes that are none.
pub open spec fn decoded(bytes: Seq<u8>) -> Result<JsonView, ErrorView> {
    decoding_outcome(json_codec::decoded_json(bytes))
}

/// What a reply amounts to when JSON is expected.
pub open spec fn reply_json(reply: HttpReply) -> Result<
    JsonView,
    ErrorView,
> {
    match reply {
        HttpReply::Unsent { message } => Err(
            ErrorView::Transport { message: message@ },
        ),
        HttpReply::Answered { status, text, body } => if !(200 <= status < 300) {
            Err(refusal(status, text.deep_view()))
        } else {
            match body {
                Ok(bytes) => decoded(bytes@),
                Err(message) => Err(
                    ErrorView::JsonDecode { message: message@ },
                ),
            }
        },
    }
}

/// What a reply amounts to when JSON or nothing at all is expected.
pub open spec fn reply_json_or_null(reply: HttpReply) -> Result<
    JsonView,
    ErrorView,
> {
    match reply {
        HttpReply::Unsent { message } => Err(
            ErrorView::Transport { message: message@ },
        ),
        HttpReply::Answered { status, text, body } => if !(200 <= status < 300) {
            Err(refusal(status, text.deep_view()))
        } else {
            match body {
                Ok(bytes) => if bytes@.len() == 0 {
                    Ok(JsonView::Null)
                } else {
                    decoded(bytes@)
                },
                Err(message) => Err(
                    ErrorView::Transport { message: message@ },
                ),
            }
        },
    }
}

fn refused(status: u16, text: Option<String>) -> (error: AtlassianError)
    ensures
        error@ == refusal(status, text.deep_view()),
{
    let message = match text {
        Some(text) => text,
        None => "failed to read error response".to_owned(),
    };
    AtlassianError::HttpStatus { status, message }
}

/// The JSON that was decoded, or the error of what could not be.
pub fn read_decoded(decoded: Result<Json, String>) -> (json: Result<Json, AtlassianError>)
    ensures
        outcome::of(json) == decoding_outcome(outcome::of(decoded)),
{
    match decoded {
        Ok(json) => Ok(json),
        Err(message) => Err(AtlassianError::JsonDecode { message }),
    }
}

fn decode_body(bytes: &Vec<u8>) -> (json: Result<Json, AtlassianError>)
    ensures
        outcome::of(json) == decoded(bytes@),
{
    read_decoded(decode_json(bytes))
}

/// What a client stands for.
#[verifier::ext_equal]
pub struct HttpView {
    /// The base URL as it was given.
    pub base_url: Seq<char>,
    pub auth: AuthView,
    pub timeout_seconds: u64,
    pub ssl_verify: bool,
}

impl View for AtlassianHttpClient {
    type V = HttpView;

    closed spec fn view(&self) -> HttpView {
        HttpView {
            base_url: self.base_url@,
            auth: self.auth@,
            timeout_seconds: self.timeout_seconds,
            ssl_verify: self.ssl_verify,
        }
    }
}

impl Clone for AtlassianHttpClient {
    fn clone(&self) -> (copy: Self)
        ensures
            copy@ == self@,
    {
        proof {
            use_type_invariant(self);
        }
        AtlassianHttpClient {
            base_url: self.base_url.clone(),
            auth: self.auth.clone(),
            timeout_seconds: self.timeout_seconds,
            ssl_verify: self.ssl_verify,
        }
    }
}

impl DeepView for AtlassianHttpClient {
    type V = HttpView;

    open spec fn deep_view(&self) -> HttpView {
        self@
    }
}

impl HttpView {
    /// The request for an API path under this client's base URL. One whose URL is too long
    /// to be made does not go through.
    pub open spec fn request_to(
        self,
        method: Method,
        path: Seq<char>,
        body: Option<JsonView>,
    ) -> Result<RequestView, ErrorView> {
        if api_url_fits(self.base_url, path) {
            Ok(
                RequestView {
                    method,
                    url: api_url(self.base_url, path),
                    query: Seq::empty(),
                    body,
                    auth: self.auth,
                },
            )
        } else {
            Err(ErrorView::Transport { message: "request path is too long for a URL"@ })
        }
    }
}

/// The client for the service at a base URL.
pub open spec fn client_at(
    base_url: Seq<char>,
    auth: AuthView,
    timeout_seconds: u64,
    ssl_verify: bool,
) -> Result<HttpView, ErrorView> {
    match url::parsed_url(base_url) {
        Ok(_) => Ok(HttpView { base_url, auth, timeout_seconds, ssl_verify }),
        Err(message) => Err(ErrorView::InvalidBaseUrl { message }),
    }
}

impl AtlassianHttpClient {
    #[verifier::type_invariant]
    spec fn has_base_url(self) -> bool {
        url::parsed_url(self.base_url@) is Ok
    }

    /// A client for the service at `base_url`.
    pub fn new(
        base_url: &str,
        auth: AtlassianAuth,
        timeout_seconds: u64,
        ssl_verify: bool,
    ) -> (client: Result<AtlassianHttpClient, AtlassianError>)
        ensures
            outcome::of(client) == client_at(base_url@, auth@, timeout_seconds, ssl_verify),
    {
        match parse_url(base_url) {
            Ok(_) => Ok(
                AtlassianHttpClient {
                    base_url: base_url.to_owned(),
                    auth,
                    timeout_seconds,
                    ssl_verify,
                },
            ),
            Err(message) => Err(AtlassianError::InvalidBaseUrl { message }),
        }
    }

    /// The request that reads `path`.
    pub fn get(&self, path: &str) -> (request: Result<ApiRequest, AtlassianError>)
        ensures
            outcome::of(request) == self@.request_to(Method::Get, path@, None),
    {
        self.request(Method::Get, path, None)
    }

    /// The request that posts `body` to `path`.
    pub fn post_json(&self, path: &str, body: Json) -> (request: Result<
        ApiRequest,
        AtlassianError,
    >)
        ensures
            outcome::of(request) == self@.request_to(Method::Post, path@, Some(body@)),
    {
        self.request(Method::Post, path, Some(body))
    }

    /// The request that puts `body` at `path`.
    pub fn put_json(&self, path: &str, body: Json) -> (request: Result<ApiRequest, AtlassianError>)
        ensures
            outcome::of(request) == self@.request_to(Method::Put, path@, Some(body@)),
    {
        self.request(Method::Put, path, Some(body))
    }

    /// Reads a reply that is to hold JSON.
    pub fn send_json(&self, reply: HttpReply) -> (json: Result<Json, AtlassianError>)
        ensures
            outcome::of(json) == reply_json(reply),
    {
        match reply {
            HttpReply::Unsent { message } => Err(AtlassianError::Transport { message }),
            HttpReply::Answered { status, text, body } => {
                if !is_success(status) {
                    return Err(refused(status, text));
                }
                match body {
                    Ok(bytes) => decode_body(&bytes),
                    Err(message) => Err(AtlassianError::JsonDecode { message }),
                }
            },
        }
    }

    /// Reads a reply that is to hold JSON or nothing at all.
    pub fn send_json_value_or_null(&self, reply: HttpReply) -> (json: Result<
        Json,
        AtlassianError,
    >)
        ensures
            outcome::of(json) == reply_json_or_null(reply),
    {
        match reply {
            HttpReply::Unsent { message } => Err(AtlassianError::Transport { message }),
            HttpReply::Answered { status, text, body } => {
                if !is_success(status) {
                    return Err(refused(status, text));
                }
                match body {
                    Ok(bytes) => {
                        if bytes.is_empty() {
                            return Ok(Json::Null);
                        }
                        decode_body(&bytes)
                    },
                    Err(message) => Err(AtlassianError::Transport { message }),
                }
            },
        }
    }

    /// The URL of an API path under the base URL.
    pub fn join_api_path(&self, path: &str) -> (url: String)
        requires
            api_url_fits(self@.base_url, path@),
        ensures
            url@ == api_url(self@.base_url, path@),
    {
        proof {
            use_type_invariant(self);
        }
        let base = self.base_url.as_str();
        let base_path = path_of(base).unwrap();
        let joined = join_paths(base_path.as_str(), path);
        with_path(base, joined.as_str()).unwrap()
    }

    /// The URL of an API path under the base URL; none exactly where it is too long to be
    /// made.
    pub fn join_fitting_api_path(&self, path: &str) -> (url: Option<String>)
        ensures
            url.deep_view() == if api_url_fits(self@.base_url, path@) {
                Some(api_url(self@.base_url, path@))
            } else {
                None
            },
    {
        proof {
            use_type_invariant(self);
        }
        let base = self.base_url.as_str();
        match (parse_url(base), path_of(base)) {
            (Ok(serialised), Some(base_path)) => {
                let joined = join_paths(base_path.as_str(), path);
                if fits_in_url(serialised.as_str(), joined.as_str()) {
                    Some(self.join_api_path(path))
                } else {
                    None
                }
            },
            _ => None,
        }
    }

    /// How long a request may take.
    pub fn timeout_seconds(&self) -> (seconds: u64)
        ensures
            seconds == self@.timeout_seconds,
    {
        self.timeout_seconds
    }

    /// Whether the service's certificate is checked.
    pub fn ssl_verify(&self) -> (verify: bool)
        ensures
            verify == self@.ssl_verify,
    {
        self.ssl_verify
    }

    fn request(&self, method: Method, path: &str, body: Option<Json>) -> (request: Result<
        ApiRequest,
        AtlassianError,
    >)
        ensures
            outcome::of(request) == self@.request_to(method, path@, body.deep_view()),
    {
        match self.join_fitting_api_path(path) {
            Some(url) => {
                let query: Vec<(String, String)> = Vec::new();
                proof {
                    assert(query.deep_view() =~= Seq::empty());
                }
                Ok(ApiRequest { method, url, query, body, auth: self.auth.clone() })
            },
            None => Err(
                AtlassianError::Transport {
                    message: "request path is too long for a URL".to_owned(),
                },
            ),
        }
    }
}

/// A slash at the end of the base or at the start of the path makes no difference.
pub proof fn law_joining_slashes_make_no_difference(base: Seq<char>, path: Seq<char>)
    ensures
        joined_path(base.push('/'), path) == joined_path(base, path),
        joined_path(base, seq!['/'] + path) == joined_path(base, path),
{
    assert(base.push('/').drop_last() =~= base);
    assert((seq!['/'] + path).drop_first() =~= path);
}

/// An API path goes behind the path of the base URL with one slash between them, and the
/// rest of the base URL stays.
pub proof fn law_api_paths_go_behind_the_base(base: Seq<char>, own: Seq<char>, path: Seq<char>)
    requires
        url::url_path(base) == Some(own),
        own.len() > 0 ==> own.last() != '/',
        path.len() > 0 ==> path.first() != '/',
    ensures
        url::url_with_path(base, own + seq!['/'] + path) matches Some(url) ==> api_url(base, path)
            == url,
        joined_path(own, path) == own + seq!['/'] + path,
{
    reveal_strlit("/");
    assert("/"@ =~= seq!['/']);
}

/// A client asks for what it is told to, under its own base URL and with its own
/// credentials: it gets without a body, and posts and puts the body that it is given.
pub proof fn law_clients_ask_for_what_they_are_told_to(
    client: AtlassianHttpClient,
    path: &str,
    body: Json,
    got: Result<ApiRequest, AtlassianError>,
    posted: Result<ApiRequest, AtlassianError>,
    put: Result<ApiRequest, AtlassianError>,
)
    requires
        call_ensures(AtlassianHttpClient::get, (&client, path), got),
        call_ensures(AtlassianHttpClient::post_json, (&client, path, body), posted),
        call_ensures(AtlassianHttpClient::put_json, (&client, path, body), put),
    ensures
        got is Ok == posted is Ok,
        got is Ok == put is Ok,
        got is Ok == api_url_fits(client@.base_url, path@),
        got matches Ok(made) ==> made@ == (RequestView {
            method: Method::Get,
            url: api_url(client@.base_url, path@),
            query: Seq::empty(),
            body: None,
            auth: client@.auth,
        }),
        posted matches Ok(made) ==> made@ == (RequestView {
            method: Method::Post,
            url: api_url(client@.base_url, path@),
            query: Seq::empty(),
            body: Some(body@),
            auth: client@.auth,
        }),
        put matches Ok(made) ==> made@ == (RequestView {
            method: Method::Put,
            url: api_url(client@.base_url, path@),
            query: Seq::empty(),
            body: Some(body@),
            auth: client@.auth,
        }),
{
}

/// A client is made for any base URL that is one, and keeps what it is given.
pub proof fn law_clients_keep_what_they_are_given(
    base_url: &str,
    auth: AtlassianAuth,
    timeout_seconds: u64,
    ssl_verify: bool,
    client: Result<AtlassianHttpClient, AtlassianError>,
)
    requires
        call_ensures(AtlassianHttpClient::new, (base_url, auth, timeout_seconds, ssl_verify),
            client),
    ensures
        client is Ok == url::parsed_url(base_url@) is Ok,
        client matches Ok(client) ==> client@.base_url == base_url@ && client@.auth == auth@
            && client@.timeout_seconds == timeout_seconds && client@.ssl_verify == ssl_verify,
        client matches Err(error) ==> error@ == (ErrorView::InvalidBaseUrl {
            message: url::parsed_url(base_url@)->Err_0,
        }),
{
}

/// What is read of a reply is what its laws say.
pub proof fn law_clients_read_replies(
    client: AtlassianHttpClient,
    reply: HttpReply,
    json: Result<Json, AtlassianError>,
    json_or_null: Result<Json, AtlassianError>,
)
    requires
        call_ensures(AtlassianHttpClient::send_json, (&client, reply), json),
        call_ensures(AtlassianHttpClient::send_json_value_or_null, (&client, reply), json_or_null),
    ensures
        outcome::of(json) == reply_json(reply),
        outcome::of(json_or_null) == reply_json_or_null(reply),
{
}

/// A request that did not go through is an error of the transport with its own message, and
/// a refusal one of its status with what the service said, where that could be read.
pub proof fn law_failures_carry_what_was_said(reply: HttpReply)
    ensures
        reply matches HttpReply::Unsent { message } ==> reply_json(reply) == Err::<
            JsonView,
            ErrorView,
        >(ErrorView::Transport { message: message@ }) && reply_json_or_null(reply) == Err::<
            JsonView,
            ErrorView,
        >(ErrorView::Transport { message: message@ }),
        reply matches HttpReply::Answered { status, text, .. } ==> !(200 <= status < 300) ==> (
        reply_json(reply) matches Err(ErrorView::HttpStatus { status: told, message }) && told
            == status && message == (match text {
            Some(text) => text@,
            None => "failed to read error response"@,
        })),
{
}

/// The body of a success is decoded as it came; where it is empty it is null to a reader
/// that takes nothing for an answer.
pub proof fn law_successes_are_decoded(reply: HttpReply)
    ensures
        reply matches HttpReply::Answered { status, body, .. } ==> 200 <= status < 300 ==> (body
            matches Ok(bytes) ==> {
            &&& json_codec::decoded_json(bytes@) matches Ok(json) ==> reply_json(reply) == Ok::<
                JsonView,
                ErrorView,
            >(json) && (bytes@.len() > 0 ==> reply_json_or_null(reply) == Ok::<
                JsonView,
                ErrorView,
            >(json))
            &&& json_codec::decoded_json(bytes@) matches Err(message) ==> reply_json(reply)
                == Err::<JsonView, ErrorView>(ErrorView::JsonDecode { message })
            &&& bytes@.len() == 0 ==> reply_json_or_null(reply) == Ok::<JsonView, ErrorView>(
                JsonView::Null,
            )
        }),
{
}

/// A reply is an error of its status exactly where the service answered with a status
/// other than success, whichever way it is read.
pub proof fn law_status_errors_are_refusals(reply: HttpReply)
    ensures
        (reply_json(reply) matches Err(ErrorView::HttpStatus { .. })) == (reply matches
            HttpReply::Answered { status, .. } && !(200 <= status < 300)),
        (reply_json_or_null(reply) matches Err(ErrorView::HttpStatus { .. })) == (reply matches
            HttpReply::Answered { status, .. } && !(200 <= status < 300)),
{
}

/// The two ways to read a reply differ only where a success has no body or its body could
/// not be read.
pub proof fn law_replies_read_alike(reply: HttpReply)
    requires
        match reply {
            HttpReply::Answered { status, body, .. } => !(200 <= status < 300) || (body matches Ok(
                bytes,
            ) && bytes@.len() > 0),
            HttpReply::Unsent { .. } => true,
        },
    ensures
        reply_json(reply) == reply_json_or_null(reply),
{
}

} // verus!
