//! The request and response messages of the protocol, and the check of
//! a message's protocol version before anything else of it is read.
use vstd::prelude::*;

verus! {

#[verifier::external_type_specification]
#[verifier::external_body]
pub struct ExSemverError(semver::Error);

#[verifier::external_type_specification]
#[verifier::external_body]
pub struct ExJsonValue(serde_json::Value);

/// The caller's identifier of a request, echoed on every response to it.
#[derive(Clone, Debug, PartialEq, Eq)]
pub struct CorrelationId(String);

impl View for CorrelationId {
    type V = Seq<char>;

    closed spec fn view(&self) -> Seq<char> {
        self.0@
    }
}

impl CorrelationId {
    pub fn new(value: String) -> (r: Self)
        ensures
            r@ == value@,
    {
        CorrelationId(value)
    }

    pub fn into_inner(self) -> (r: String)
        ensures
            r@ == self@,
    {
        self.0
    }

    pub fn as_str(&self) -> (r: &str)
        ensures
            r@ == self@,
    {
        self.0.as_str()
    }

    /// A second value with the same text.
    pub fn duplicate(&self) -> (r: Self)
        ensures
            r@ == self@,
    {
        CorrelationId(self.0.clone())
    }
}

/// The address of a saved page; the natural key of the store.
#[derive(Clone, Debug, PartialEq, Eq)]
pub struct Url(String);

impl View for Url {
    type V = Seq<char>;

    closed spec fn view(&self) -> Seq<char> {
        self.0@
    }
}

impl Url {
    pub fn new(value: String) -> (r: Self)
        ensures
            r@ == value@,
    {
        Url(value)
    }

    pub fn into_inner(self) -> (r: String)
        ensures
            r@ == self@,
    {
        self.0
    }

    pub fn as_str(&self) -> (r: &str)
        ensures
            r@ == self@,
    {
        self.0.as_str()
    }

    /// A second value with the same text.
    pub fn duplicate(&self) -> (r: Self)
        ensures
            r@ == self@,
    {
        Url(self.0.clone())
    }
}

/// The title of a saved page.
#[derive(Clone, Debug, PartialEq, Eq)]
pub struct Title(String);

impl View for Title {
    type V = Seq<char>;

    closed spec fn view(&self) -> Seq<char> {
        self.0@
    }
}

impl Title {
    pub fn new(value: String) -> (r: Self)
        ensures
            r@ == value@,
    {
        Title(value)
    }

    pub fn into_inner(self) -> (r: String)
        ensures
            r@ == self@,
    {
        self.0
    }

    pub fn as_str(&self) -> (r: &str)
        ensures
            r@ == self@,
    {
        self.0.as_str()
    }

    /// A second value with the same text.
    pub fn duplicate(&self) -> (r: Self)
        ensures
            r@ == self@,
    {
        Title(self.0.clone())
    }
}

/// The text taken from a page, which its search matches against.
#[derive(Clone, Debug, PartialEq, Eq)]
pub struct InnerText(String);

impl View for InnerText {
    type V = Seq<char>;

    closed spec fn view(&self) -> Seq<char> {
        self.0@
    }
}

impl InnerText {
    pub fn new(value: String) -> (r: Self)
        ensures
            r@ == value@,
    {
        InnerText(value)
    }

    pub fn into_inner(self) -> (r: String)
        ensures
            r@ == self@,
    {
        self.0
    }

    pub fn as_str(&self) -> (r: &str)
        ensures
            r@ == self@,
    {
        self.0.as_str()
    }

    /// A second value with the same text.
    pub fn duplicate(&self) -> (r: Self)
        ensures
            r@ == self@,
    {
        InnerText(self.0.clone())
    }
}

/// A piece of a page's text around a match, with the match marked.
#[derive(Clone, Debug, PartialEq, Eq)]
pub struct Snippet(String);

impl View for Snippet {
    type V = Seq<char>;

    closed spec fn view(&self) -> Seq<char> {
        self.0@
    }
}

impl Snippet {
    pub fn new(value: String) -> (r: Self)
        ensures
            r@ == value@,
    {
        Snippet(value)
    }

    pub fn into_inner(self) -> (r: String)
        ensures
            r@ == self@,
    {
        self.0
    }

    pub fn as_str(&self) -> (r: &str)
        ensures
            r@ == self@,
    {
        self.0.as_str()
    }

    /// A second value with the same text.
    pub fn duplicate(&self) -> (r: Self)
        ensures
            r@ == self@,
    {
        Snippet(self.0.clone())
    }
}

/// Free text that a user searches for.
#[derive(Clone, Debug, PartialEq, Eq)]
pub struct Query(String);

impl View for Query {
    type V = Seq<char>;

    closed spec fn view(&self) -> Seq<char> {
        self.0@
    }
}

impl Query {
    pub fn new(value: String) -> (r: Self)
        ensures
            r@ == value@,
    {
        Query(value)
    }

    pub fn into_inner(self) -> (r: String)
        ensures
            r@ == self@,
    {
        self.0
    }

    pub fn as_str(&self) -> (r: &str)
        ensures
            r@ == self@,
    {
        self.0.as_str()
    }

    /// A second value with the same text.
    pub fn duplicate(&self) -> (r: Self)
        ensures
            r@ == self@,
    {
        Query(self.0.clone())
    }
}

/// The parts of a semantic version: major, minor, patch, pre-release and build
/// metadata.
pub type VersionParts = (u64, u64, u64, Seq<char>, Seq<char>);

/// The version that `semver` reads from `s`, if `s` is one.
pub uninterp spec fn semver_parse(s: Seq<char>) -> Option<VersionParts>;

/// Relies on `semver::Version::parse`: `Ok` with the version's parts where `s`
/// is a semantic version, `Err` where it is not.
#[verifier::external_body]
fn parse_semver(s: &str) -> (r: Result<(u64, u64, u64, String, String), semver::Error>)
    ensures
        r is Err <==> semver_parse(s@) is None,
        r matches Ok(v) ==> semver_parse(s@) == Some((v.0, v.1, v.2, v.3@, v.4@)),
{
    semver::Version::parse(s).map(
        |v| (v.major, v.minor, v.patch, v.pre.as_str().to_string(), v.build.as_str().to_string()),
    )
}

/// The protocol version that a message carries.
#[derive(Clone, Debug, PartialEq, Eq)]
pub struct MessageVersion {
    major: u64,
    minor: u64,
    patch: u64,
    pre: String,
    build: String,
}

impl View for MessageVersion {
    type V = VersionParts;

    closed spec fn view(&self) -> VersionParts {
        (self.major, self.minor, self.patch, self.pre@, self.build@)
    }
}

/// The one protocol version that this host speaks: 0.1.0.
pub open spec fn expected_version() -> VersionParts {
    (0, 1, 0, Seq::empty(), Seq::empty())
}

impl MessageVersion {
    pub fn new(major: u64, minor: u64, patch: u64) -> (r: MessageVersion)
        ensures
            r@ == (major, minor, patch, Seq::<char>::empty(), Seq::<char>::empty()),
    {
        MessageVersion { major, minor, patch, pre: String::new(), build: String::new() }
    }

    /// The version this host speaks.
    pub fn expected() -> (r: MessageVersion)
        ensures
            r@ == expected_version(),
    {
        MessageVersion::new(0, 1, 0)
    }

    /// Reads a semantic version.
    pub fn parse(version: &str) -> (r: Result<MessageVersion, semver::Error>)
        ensures
            r is Err <==> semver_parse(version@) is None,
            r matches Ok(v) ==> semver_parse(version@) == Some(v@),
    {
        match parse_semver(version) {
            Ok((major, minor, patch, pre, build)) => Ok(MessageVersion { major, minor, patch, pre, build }),
            Err(e) => Err(e),
        }
    }

    pub fn major(&self) -> (r: u64)
        ensures
            r == self@.0,
    {
        self.major
    }

    pub fn minor(&self) -> (r: u64)
        ensures
            r == self@.1,
    {
        self.minor
    }

    pub fn patch(&self) -> (r: u64)
        ensures
            r == self@.2,
    {
        self.patch
    }

    pub fn pre(&self) -> (r: &str)
        ensures
            r@ == self@.3,
    {
        self.pre.as_str()
    }

    pub fn build(&self) -> (r: &str)
        ensures
            r@ == self@.4,
    {
        self.build.as_str()
    }

    /// Whether this is exactly the version the host speaks.
    pub fn is_expected(&self) -> (r: bool)
        ensures
            r <==> self@ == expected_version(),
    {
        let plain = self.pre.as_str().unicode_len() == 0 && self.build.as_str().unicode_len() == 0;
        proof {
            if plain {
                assert(self.pre@ =~= Seq::<char>::empty());
                assert(self.build@ =~= Seq::<char>::empty());
            }
        }
        self.major == 0 && self.minor == 1 && self.patch == 0 && plain
    }

    /// A second value with the same parts.
    pub fn duplicate(&self) -> (r: MessageVersion)
        ensures
            r@ == self@,
    {
        MessageVersion {
            major: self.major,
            minor: self.minor,
            patch: self.patch,
            pre: self.pre.clone(),
            build: self.build.clone(),
        }
    }
}

/// Why a message was turned away before its payload was read.
#[derive(Debug)]
pub enum DecodeError {
    /// The message has no `version` string.
    MissingVersion,
    /// The `version` string is not a semantic version.
    InvalidVersion(semver::Error),
    /// The version is not the one this host speaks.
    UnsupportedVersion,
}

/// Checks the `version` field of a message, given as the string it holds
/// (`None` where it is absent or not a string). Only the version is looked at:
/// nothing else of the message decides whether it passes.
pub fn check_version(field: Option<&str>) -> (r: Result<MessageVersion, DecodeError>)
    ensures
        field is None <==> r matches Err(DecodeError::MissingVersion),
        (field matches Some(s) && semver_parse(s@) is None) <==> r matches Err(
            DecodeError::InvalidVersion(_),
        ),
        (field matches Some(s) && semver_parse(s@) matches Some(v) && v != expected_version())
            <==> r matches Err(DecodeError::UnsupportedVersion),
        r is Ok <==> (field matches Some(s) && semver_parse(s@) == Some(expected_version())),
        r matches Ok(v) ==> v@ == expected_version(),
{
    match field {
        None => Err(DecodeError::MissingVersion),
        Some(s) => match MessageVersion::parse(s) {
            Err(e) => Err(DecodeError::InvalidVersion(e)),
            Ok(v) => {
                if v.is_expected() {
                    Ok(v)
                } else {
                    Err(DecodeError::UnsupportedVersion)
                }
            },
        },
    }
}

/// The key of a message's protocol version.
pub const FIELD_VERSION: &'static str = "version";

/// The string under `key` of a JSON object; `None` where `v` is not an
/// object, has no such key, or holds something other than a string there.
pub uninterp spec fn json_string_at(v: serde_json::Value, key: Seq<char>) -> Option<Seq<char>>;

/// Relies on `serde_json::Value::get` and `serde_json::Value::as_str`: the
/// string under `key` of a JSON object, if there is one. The lookup depends on
/// the value and the key alone.
#[verifier::external_body]
fn string_field(value: &serde_json::Value, key: &str) -> (r: Option<String>)
    ensures
        r is Some <==> json_string_at(*value, key@) is Some,
        r matches Some(s) ==> json_string_at(*value, key@) == Some(s@),
{
    value.get(key).and_then(serde_json::Value::as_str).map(String::from)
}

/// Reads the protocol version of a message that has been parsed as JSON,
/// before the rest of it is looked at: only the string under `version`
/// decides the outcome. Whether it is the version this host speaks is left to
/// the caller (`MessageVersion::is_expected`).
pub fn extract_version(value: &serde_json::Value) -> (r: Result<MessageVersion, DecodeError>)
    ensures
        json_string_at(*value, FIELD_VERSION@) is None <==> r matches Err(DecodeError::MissingVersion),
        (json_string_at(*value, FIELD_VERSION@) matches Some(s) && semver_parse(s) is None) <==> r matches Err(
            DecodeError::InvalidVersion(_),
        ),
        r matches Ok(v) ==> json_string_at(*value, FIELD_VERSION@) matches Some(s) && semver_parse(s)
            == Some(v@),
        r is Ok <==> (json_string_at(*value, FIELD_VERSION@) matches Some(s) && semver_parse(s) is Some),
{
    match string_field(value, FIELD_VERSION) {
        None => Err(DecodeError::MissingVersion),
        Some(s) => match MessageVersion::parse(s.as_str()) {
            Ok(v) => Ok(v),
            Err(e) => Err(DecodeError::InvalidVersion(e)),
        },
    }
}

/// The payload of a request to save a page.
#[derive(Debug)]
pub struct SaveRequestPayload {
    pub url: Url,
    pub title: Title,
    pub inner_text: InnerText,
}

/// The payload of a request to forget a page.
#[derive(Debug)]
pub struct RemoveRequestPayload {
    pub url: Url,
}

/// The payload of a request to search the saved pages.
#[derive(Debug)]
pub struct SearchRequestPayload {
    pub query: Query,
    pub page_num: usize,
    pub page_length: usize,
}

/// What a request asks for.
#[allow(inconsistent_fields)]
#[derive(Debug)]
pub enum RequestAction {
    SaveRequest { payload: SaveRequestPayload },
    RemoveRequest { payload: RemoveRequestPayload },
    SearchRequest { payload: SearchRequestPayload },
}

/// A request from the browser.
#[derive(Debug)]
pub struct Request {
    pub version: MessageVersion,
    pub action: RequestAction,
    pub correlation_id: CorrelationId,
}

/// The payload of the answer to a save.
#[derive(Debug)]
pub struct SaveResponsePayload {}

/// The payload of the answer to a remove.
#[derive(Debug)]
pub struct RemoveResponsePayload {}

/// The first answer to a search: what was asked and how many results follow.
#[derive(Debug)]
pub struct SearchResponseHeaderPayload {
    pub query: Query,
    pub page_num: usize,
    pub page_length: usize,
    pub has_more: bool,
}

/// One search result.
#[derive(Debug)]
pub struct SearchResponseSitePayload {
    pub url: Url,
    pub title: Title,
    pub snippet: Snippet,
}

/// What a response says.
#[allow(inconsistent_fields)]
#[derive(Debug)]
pub enum ResponseAction {
    SaveResponse { payload: SaveResponsePayload },
    RemoveResponse { payload: RemoveResponsePayload },
    SearchResponseHeader { payload: SearchResponseHeaderPayload },
    SearchResponseSite { payload: SearchResponseSitePayload },
}

/// A response to the browser.
#[derive(Debug)]
pub struct Response {
    pub version: MessageVersion,
    pub action: ResponseAction,
    pub correlation_id: CorrelationId,
}

impl Response {
    /// Whether this response carries the version and the correlation id of `request`.
    pub open spec fn answers(&self, request: Request) -> bool {
        &&& self.version@ == request.version@
        &&& self.correlation_id@ == request.correlation_id@
    }
}

} // verus!
