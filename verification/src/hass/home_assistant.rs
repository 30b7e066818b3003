//! The remote-state service: where it is, and the requests it takes.

use super::attributes::{Attributes, ValueView};
use super::state::{State, StateView};
use super::Hass;
use reqwest::{Error as ReqwestError, Url, UrlError};
use vstd::prelude::*;
use vstd::std_specs::convert::FromSpecImpl;
use vstd::string::StrSliceExecFns;

verus! {

/// `reqwest::UrlError`, the error with which the URL parser refuses an
/// input, carried without looking inside.
#[verifier::external_type_specification]
#[verifier::external_body]
pub struct ExUrlError(UrlError);

/// `reqwest::Error`, the error of the HTTP client, carried without looking
/// inside.
#[verifier::external_type_specification]
#[verifier::external_body]
pub struct ExReqwestError(ReqwestError);

/// What is read off a URL before it is taken as a base.
#[derive(Debug, Clone, Copy, PartialEq, Eq, Structural)]
pub struct ParsedBase {
    /// Whether the URL names a host.
    pub has_host: bool,
    /// Whether the URL cannot be a base, that is, has no path to which
    /// segments could be appended.
    pub cannot_be_a_base: bool,
}

/// What `reqwest::Url::parse` makes of an input: `None` where it refuses it,
/// else what `has_host` and `cannot_be_a_base` say of the URL it yields.
pub uninterp spec fn parsed_base(input: Seq<char>) -> Option<ParsedBase>;

/// Whether the input parses to a URL, with or without a host, to whose path
/// segments can be appended.
pub open spec fn has_path(input: Seq<char>) -> bool {
    parsed_base(input) matches Some(parsed) && !parsed.cannot_be_a_base
}

/// Whether the input parses to a URL that can be the base of a service: it
/// names a host, and segments can be appended to its path.
pub open spec fn is_base(input: Seq<char>) -> bool {
    parsed_base(input) matches Some(parsed) && parsed.has_host && !parsed.cannot_be_a_base
}

/// The text of the URL that `base` parses to, after the `extend` of its
/// path segments has appended the given segments to its path.
pub uninterp spec fn extended_url(base: Seq<char>, segments: Seq<Seq<char>>) -> Seq<char>;

/// The longest base, and the longest path segment, for which a URL is built,
/// in characters. The URL parser keeps offsets into a URL in 32 bits; texts
/// within this bound make URLs far shorter than that.
pub const MAX_URL_TEXT: usize = 1_048_576;

/// The most segments that are appended to a base at once.
pub const MAX_SEGMENTS: usize = 16;

/// Calls `reqwest::Url::parse` and, on what it yields, `reqwest::Url::has_host`
/// and `reqwest::Url::cannot_be_a_base`. The answer is the parser's error
/// where it refuses the input, and else what the two say of the parsed URL.
#[verifier::external_body]
fn parse_base(input: &str) -> (parsed: Result<ParsedBase, UrlError>)
    ensures
        match parsed {
            Ok(read) => parsed_base(input@) == Some(read),
            Err(_) => parsed_base(input@) is None,
        },
{
    match Url::parse(input) {
        Ok(url) => Ok(
            ParsedBase { has_host: url.has_host(), cannot_be_a_base: url.cannot_be_a_base() },
        ),
        Err(e) => Err(e),
    }
}

/// Parses `base` with `reqwest::Url::parse`, appends the segments with the
/// `extend` of `reqwest::Url::path_segments_mut` and returns the text of the
/// result. The base has to be one that parses to a URL to whose path
/// segments can be appended.
/// The parser keeps offsets into the text in 32 bits and panics beyond; the
/// bounds on the lengths keep the text far below.
#[verifier::external_body]
fn extend_url(base: &str, segments: &Vec<String>) -> (url: String)
    requires
        has_path(base@),
        base@.len() <= MAX_URL_TEXT,
        segments@.len() <= MAX_SEGMENTS,
        forall|i: int| 0 <= i < segments@.len() ==> (#[trigger] segments@[i])@.len() <= MAX_URL_TEXT,
    ensures
        url@ == extended_url(base@, segments.deep_view()),
{
    let mut url = Url::parse(base).unwrap();
    url.path_segments_mut().unwrap().extend(segments);
    url.into_string()
}

/// Why the service could not be set up, or a request to it failed.
#[derive(Debug)]
pub enum Error {
    /// The base URL has no path to which segments could be appended.
    UrlCanNotBeABase,
    /// The base URL names no host.
    UrlWithoutHost,
    /// The URL parser refused the base URL.
    UrlParse(UrlError),
    /// The HTTP client failed.
    Reqwest(ReqwestError),
}

impl From<UrlError> for Error {
    fn from(e: UrlError) -> (error: Error) {
        Error::UrlParse(e)
    }
}

impl FromSpecImpl<UrlError> for Error {
    open spec fn obeys_from_spec() -> bool {
        true
    }

    open spec fn from_spec(e: UrlError) -> Error {
        Error::UrlParse(e)
    }
}

impl From<ReqwestError> for Error {
    fn from(e: ReqwestError) -> (error: Error) {
        Error::Reqwest(e)
    }
}

impl FromSpecImpl<ReqwestError> for Error {
    open spec fn obeys_from_spec() -> bool {
        true
    }

    open spec fn from_spec(e: ReqwestError) -> Error {
        Error::Reqwest(e)
    }
}

/// How the service is to be reached.
#[derive(Debug, Clone, Copy, PartialEq, Eq, Structural)]
pub struct HomeAssistantConfiguration {
    verify_certs: bool,
}

impl Default for HomeAssistantConfiguration {
    /// The configuration with every switch off.
    fn default() -> (conf: Self)
        ensures
            !conf.verifies_certs(),
    {
        HomeAssistantConfiguration { verify_certs: false }
    }
}

impl HomeAssistantConfiguration {
    /// Whether the service's certificate is checked.
    pub closed spec fn verifies_certs(&self) -> bool {
        self.verify_certs
    }

    /// The configuration to start from: certificates are checked.
    pub fn new() -> (conf: Self)
        ensures
            conf.verifies_certs(),
    {
        HomeAssistantConfiguration { verify_certs: true }
    }

    /// Switches the check of the service's certificate on or off.
    pub fn set_verify_certs(self, value: bool) -> (conf: Self)
        ensures
            conf.verifies_certs() == value,
    {
        let mut conf = self;
        conf.verify_certs = value;
        conf
    }

    /// Whether the service's certificate is checked.
    pub fn verify_certs(&self) -> (value: bool)
        ensures
            value == self.verifies_certs(),
    {
        self.verify_certs
    }
}

/// Whether certificates are checked under an optional configuration: as it
/// says, and where there is none, they are.
pub open spec fn checks_certs(conf: Option<HomeAssistantConfiguration>) -> bool {
    match conf {
        Some(c) => c.verifies_certs(),
        None => true,
    }
}

/// How a request is sent.
#[derive(Debug, Clone, Copy, PartialEq, Eq, Structural)]
pub enum Method {
    Get,
    Post,
}

/// What a request carries.
#[derive(Debug)]
pub enum Body {
    Empty,
    State(State),
    Attributes(Attributes),
}

/// What a [`Body`] says.
pub enum BodyView {
    Empty,
    State(StateView),
    Attributes(Map<Seq<char>, ValueView>),
}

impl View for Body {
    type V = BodyView;

    open spec fn view(&self) -> BodyView {
        match *self {
            Body::Empty => BodyView::Empty,
            Body::State(state) => BodyView::State(state@),
            Body::Attributes(attributes) => BodyView::Attributes(attributes@),
        }
    }
}

/// One request to the service, ready to be sent.
#[derive(Debug)]
pub struct Request {
    pub method: Method,
    pub url: String,
    pub body: Body,
}

/// What a [`Request`] says.
pub struct RequestView {
    pub method: Method,
    pub url: Seq<char>,
    pub body: BodyView,
}

impl View for Request {
    type V = RequestView;

    open spec fn view(&self) -> RequestView {
        RequestView { method: self.method, url: self.url@, body: self.body@ }
    }
}

impl DeepView for Request {
    type V = RequestView;

    open spec fn deep_view(&self) -> RequestView {
        self@
    }
}

/// The path under which the state `name` is read and set.
pub open spec fn state_path(name: Seq<char>) -> Seq<Seq<char>> {
    seq!["api"@, "states"@, name]
}

/// The path under which the service `name` of `domain` is called.
pub open spec fn service_path(domain: Seq<char>, name: Seq<char>) -> Seq<Seq<char>> {
    seq!["api"@, "services"@, domain, name]
}

/// The remote-state service at a base URL.
#[derive(Debug)]
pub struct HomeAssistant {
    base_url: String,
    verify_certs: bool,
}

impl HomeAssistant {
    #[verifier::type_invariant]
    spec fn well_formed(self) -> bool {
        is_base(self.base_url@)
    }

    /// The base URL as it was given.
    pub closed spec fn base(&self) -> Seq<char> {
        self.base_url@
    }

    /// Whether the service's certificate is to be checked.
    pub closed spec fn verifies_certs(&self) -> bool {
        self.verify_certs
    }

    /// The service at `base_url`. Without a configuration, the one that
    /// [`HomeAssistantConfiguration::new`] gives is taken.
    ///
    /// The base is refused where the URL parser refuses it, where it parses
    /// to a URL without a host, and where it parses to a URL that cannot be
    /// a base.
    pub fn new(base_url: &str, conf: Option<HomeAssistantConfiguration>) -> (made: Result<
        Self,
        Error,
    >)
        ensures
            match parsed_base(base_url@) {
                None => made matches Err(Error::UrlParse(_)),
                Some(parsed) => if !parsed.has_host {
                    made matches Err(Error::UrlWithoutHost)
                } else if parsed.cannot_be_a_base {
                    made matches Err(Error::UrlCanNotBeABase)
                } else {
                    made matches Ok(hass) && hass.base() == base_url@ && hass.verifies_certs()
                        == checks_certs(conf)
                },
            },
    {
        let parsed = parse_base(base_url);
        Self::with_parsed_base(base_url, parsed, conf)
    }

    /// The service at `base_url`, given what the URL parser made of that
    /// text: its error, or what it read off the URL. A URL without a host is
    /// refused before one that cannot be a base.
    pub fn with_parsed_base(
        base_url: &str,
        parsed: Result<ParsedBase, UrlError>,
        conf: Option<HomeAssistantConfiguration>,
    ) -> (made: Result<Self, Error>)
        requires
            parsed matches Ok(read) && read.has_host && !read.cannot_be_a_base ==> is_base(
                base_url@,
            ),
        ensures
            match parsed {
                Err(e) => made matches Err(Error::UrlParse(cause)) && cause == e,
                Ok(read) => if !read.has_host {
                    made matches Err(Error::UrlWithoutHost)
                } else if read.cannot_be_a_base {
                    made matches Err(Error::UrlCanNotBeABase)
                } else {
                    made matches Ok(hass) && hass.base() == base_url@ && hass.verifies_certs()
                        == checks_certs(conf)
                },
            },
    {
        let conf = match conf {
            Some(c) => c,
            None => HomeAssistantConfiguration::new(),
        };
        match parsed {
            Err(e) => Err(Error::UrlParse(e)),
            Ok(read) => {
                if !read.has_host {
                    Err(Error::UrlWithoutHost)
                } else if read.cannot_be_a_base {
                    Err(Error::UrlCanNotBeABase)
                } else {
                    Ok(
                        HomeAssistant {
                            base_url: base_url.to_owned(),
                            verify_certs: conf.verify_certs(),
                        },
                    )
                }
            },
        }
    }

    /// The base URL as it was given.
    pub fn base_url(&self) -> (url: &str)
        ensures
            url@ == self.base(),
    {
        self.base_url.as_str()
    }

    /// Whether the service's certificate is to be checked.
    pub fn verify_certs(&self) -> (value: bool)
        ensures
            value == self.verifies_certs(),
    {
        self.verify_certs
    }

    /// Whether the base is short enough to build URLs on.
    pub fn is_ready(&self) -> (yes: bool)
        ensures
            yes == self.ready(),
    {
        self.base_url.as_str().unicode_len() <= MAX_URL_TEXT
    }

    /// The URL of the state `name`.
    pub fn new_state_url(&self, name: &str) -> (url: String)
        requires
            self.base().len() <= MAX_URL_TEXT,
            name@.len() <= MAX_URL_TEXT,
        ensures
            url@ == extended_url(self.base(), state_path(name@)),
    {
        proof {
            use_type_invariant(self);
        }
        let mut segments: Vec<String> = Vec::new();
        segments.push("api".to_owned());
        segments.push("states".to_owned());
        segments.push(name.to_owned());
        proof {
            reveal_strlit("api");
            reveal_strlit("states");
            assert(segments.deep_view() =~= state_path(name@));
        }
        extend_url(self.base_url.as_str(), &segments)
    }

    /// The URL of the service `name` of `domain`.
    pub fn new_service_url(&self, domain: &str, name: &str) -> (url: String)
        requires
            self.base().len() <= MAX_URL_TEXT,
            domain@.len() <= MAX_URL_TEXT,
            name@.len() <= MAX_URL_TEXT,
        ensures
            url@ == extended_url(self.base(), service_path(domain@, name@)),
    {
        proof {
            use_type_invariant(self);
        }
        let mut segments: Vec<String> = Vec::new();
        segments.push("api".to_owned());
        segments.push("services".to_owned());
        segments.push(domain.to_owned());
        segments.push(name.to_owned());
        proof {
            reveal_strlit("api");
            reveal_strlit("services");
            assert(segments.deep_view() =~= service_path(domain@, name@));
        }
        extend_url(self.base_url.as_str(), &segments)
    }
}

impl Clone for HomeAssistant {
    fn clone(&self) -> (copy: Self)
        ensures
            copy == *self,
    {
        proof {
            use_type_invariant(self);
        }
        HomeAssistant { base_url: self.base_url.clone(), verify_certs: self.verify_certs }
    }
}

impl Hass for HomeAssistant {
    open spec fn ready(&self) -> bool {
        self.base().len() <= MAX_URL_TEXT
    }

    open spec fn endpoint(&self, path: Seq<Seq<char>>) -> Seq<char> {
        extended_url(self.base(), path)
    }

    fn get_state(&self, name: &str) -> (request: Request) {
        let url = self.new_state_url(name);
        Request { method: Method::Get, url, body: Body::Empty }
    }

    fn set_state(&self, name: &str, attributes: Attributes) -> (request: Request) {
        let url = self.new_state_url(name);
        let new_state = State::new(name, Some(attributes));
        Request { method: Method::Post, url, body: Body::State(new_state) }
    }

    fn call_service(&self, domain: &str, name: &str, attributes: Option<Attributes>) -> (request:
        Request) {
        let url = self.new_service_url(domain, name);
        let body = match attributes {
            None => Body::Empty,
            Some(x) => Body::Attributes(x),
        };
        Request { method: Method::Post, url, body }
    }
}

} // verus!
