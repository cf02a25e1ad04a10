//! The route compiler: wire-format match descriptors for hosts, paths,
//! headers and query parameters, and their fail-fast conversion into
//! validated, regex-backed matchers. All validation and regex compilation
//! happens here, once per policy update, never per request.

use vstd::prelude::*;
use vstd::string::StringExecFns;

verus! {

// --- outside types carried inside compiled matchers -------------------------

#[verifier::external_type_specification]
#[verifier::external_body]
pub struct ExRegex(regex::Regex);

#[verifier::external_type_specification]
#[verifier::external_body]
pub struct ExRegexError(regex::Error);

#[verifier::external_type_specification]
#[verifier::external_body]
pub struct ExHeaderName(http::header::HeaderName);

#[verifier::external_type_specification]
#[verifier::external_body]
pub struct ExInvalidHeaderName(http::header::InvalidHeaderName);

#[verifier::external_type_specification]
#[verifier::external_body]
pub struct ExHeaderValue(http::HeaderValue);

#[verifier::external_type_specification]
#[verifier::external_body]
pub struct ExInvalidHeaderValue(http::header::InvalidHeaderValue);

/// Relies on regex::Regex's Clone impl: a compiled expression can be
/// duplicated. Nothing is claimed of the copy, which stays opaque.
pub assume_specification[ <regex::Regex as Clone>::clone ](re: &regex::Regex) -> regex::Regex;

/// Relies on regex::Error's Clone impl. Nothing is claimed of the copy.
pub assume_specification[ <regex::Error as Clone>::clone ](e: &regex::Error) -> regex::Error;

/// Relies on http::header::HeaderName's Clone impl. Nothing is claimed of
/// the copy.
pub assume_specification[ <http::header::HeaderName as Clone>::clone ](
    n: &http::header::HeaderName,
) -> http::header::HeaderName;

/// Relies on http::HeaderValue's Clone impl. Nothing is claimed of the
/// copy.
pub assume_specification[ <http::HeaderValue as Clone>::clone ](
    v: &http::HeaderValue,
) -> http::HeaderValue;

/// Whether `pattern` is a valid regular expression, i.e. whether
/// `regex::Regex::new` accepts it. A function of the pattern alone.
pub uninterp spec fn regex_compiles(pattern: Seq<char>) -> bool;

/// Whether `name` is a legal HTTP header name, i.e. whether
/// `http::header::HeaderName::from_bytes` accepts it. A function of the
/// characters alone.
pub uninterp spec fn header_name_valid(name: Seq<char>) -> bool;

/// Whether `value` is a legal HTTP header value, i.e. whether
/// `http::HeaderValue::from_str` accepts it. A function of the characters
/// alone.
pub uninterp spec fn header_value_valid(value: Seq<char>) -> bool;

/// Relies on regex::Regex::new: it compiles the pattern or reports an error,
/// and whether it accepts is a function of the pattern alone.
#[verifier::external_body]
fn compile_regex(pattern: &str) -> (r: Result<regex::Regex, regex::Error>)
    ensures
        r is Ok <==> regex_compiles(pattern@),
{
    regex::Regex::new(pattern)
}

/// Relies on http::header::HeaderName::from_bytes: it parses a legal header
/// token or reports an error, as a function of the bytes alone.
#[verifier::external_body]
fn parse_header_name(name: &str) -> (r: Result<
    http::header::HeaderName,
    http::header::InvalidHeaderName,
>)
    ensures
        r is Ok <==> header_name_valid(name@),
{
    http::header::HeaderName::from_bytes(name.as_bytes())
}

/// Relies on http::HeaderValue::from_str: it parses a legal header value or
/// reports an error, as a function of the characters alone.
#[verifier::external_body]
fn parse_header_value(value: &str) -> (r: Result<
    http::HeaderValue,
    http::header::InvalidHeaderValue,
>)
    ensures
        r is Ok <==> header_value_valid(value@),
{
    http::HeaderValue::from_str(value)
}

// --- route filters carried by route policies ---------------------------------

/// A request-header modification filter: headers to add, to set, and to
/// remove, applied to matched requests downstream.
#[derive(Clone, Debug)]
pub struct ModifyRequestHeader {
    pub add: Vec<(String, String)>,
    pub set: Vec<(String, String)>,
    pub remove: Vec<String>,
}

/// A redirect filter: the parts of the request target to rewrite and the
/// response status to use.
#[derive(Clone, Debug)]
pub struct RedirectRequest {
    pub scheme: Option<String>,
    pub host: Option<String>,
    pub path: Option<String>,
    pub port: Option<u16>,
    pub status: Option<u16>,
}

// --- wire-format descriptors --------------------------------------------------

/// A host-match descriptor as received from the control plane.
#[derive(Clone, Debug)]
pub struct HostMatch {
    pub host: Option<HostMatchKind>,
}

/// The variants of a host-match descriptor: an exact host name, or a suffix
/// given as reversed DNS labels.
#[derive(Clone, Debug)]
pub enum HostMatchKind {
    Exact(String),
    Suffix(HostSuffix),
}

/// A host suffix on the wire: its DNS labels in reverse order.
#[derive(Clone, Debug)]
pub struct HostSuffix {
    pub reverse_labels: Vec<String>,
}

/// A route-match descriptor: today it yields only a path predicate.
#[derive(Clone, Debug)]
pub struct RouteMatch {
    pub path: Option<PathMatch>,
}

/// A path-match descriptor as received from the control plane.
#[derive(Clone, Debug)]
pub struct PathMatch {
    pub kind: Option<PathMatchKind>,
}

/// The variants of a path-match descriptor.
#[derive(Clone, Debug)]
pub enum PathMatchKind {
    Exact(String),
    Prefix(String),
    Regex(String),
}

/// A header-match descriptor as received from the control plane.
#[derive(Clone, Debug)]
pub struct HeaderMatch {
    pub name: String,
    pub value: Option<HeaderMatchValue>,
}

/// The variants of a header-match descriptor's value predicate.
#[derive(Clone, Debug)]
pub enum HeaderMatchValue {
    Exact(String),
    Regex(String),
}

/// A query-parameter-match descriptor as received from the control plane.
#[derive(Clone, Debug)]
pub struct QueryParamMatch {
    pub name: String,
    pub value: Option<QueryParamMatchValue>,
}

/// The variants of a query-parameter-match descriptor's value predicate.
#[derive(Clone, Debug)]
pub enum QueryParamMatchValue {
    Exact(String),
    Regex(String),
}

// --- conversion errors --------------------------------------------------------

/// A host-match descriptor carried no match at all.
#[derive(Clone, Debug)]
pub struct HostMatchError;

impl HostMatchError {
    /// The error's description.
    pub fn message(&self) -> (r: String)
        ensures
            r@ == "host match must contain a match"@,
    {
        String::from_str("host match must contain a match")
    }
}

/// A route-match descriptor held a malformed predicate.
#[derive(Debug)]
pub enum RouteMatchError {
    Path(PathMatchError),
    Header(HeaderMatchError),
    QueryParam(QueryParamMatchError),
}

/// A path-match descriptor was malformed.
#[derive(Clone, Debug)]
pub enum PathMatchError {
    /// No match kind was set.
    MissingMatch,
    /// The regular expression did not compile.
    InvalidRegex(regex::Error),
}

impl PathMatchError {
    /// The error's description.
    pub fn message(&self) -> (r: String)
        ensures
            self is MissingMatch ==> r@ == "missing match"@,
            self is InvalidRegex ==> r@ == "invalid regular expression"@,
    {
        match self {
            PathMatchError::MissingMatch => String::from_str("missing match"),
            PathMatchError::InvalidRegex(_) => String::from_str("invalid regular expression"),
        }
    }
}

/// A header-match descriptor was malformed.
#[derive(Debug)]
pub enum HeaderMatchError {
    /// The name is not a legal header token.
    InvalidName(http::header::InvalidHeaderName),
    /// No value predicate was set.
    MissingValueMatch,
    /// The exact value holds illegal bytes.
    InvalidValue(http::header::InvalidHeaderValue),
    /// The regular expression did not compile.
    InvalidRegex(regex::Error),
}

impl HeaderMatchError {
    /// The error's description.
    pub fn message(&self) -> (r: String)
        ensures
            self is InvalidName ==> r@ == "invalid header name"@,
            self is MissingValueMatch ==> r@ == "missing a header value match"@,
            self is InvalidValue ==> r@ == "invalid header value"@,
            self is InvalidRegex ==> r@ == "invalid regular expression"@,
    {
        match self {
            HeaderMatchError::InvalidName(_) => String::from_str("invalid header name"),
            HeaderMatchError::MissingValueMatch => String::from_str("missing a header value match"),
            HeaderMatchError::InvalidValue(_) => String::from_str("invalid header value"),
            HeaderMatchError::InvalidRegex(_) => String::from_str("invalid regular expression"),
        }
    }
}

/// A query-parameter-match descriptor was malformed.
#[derive(Clone, Debug)]
pub enum QueryParamMatchError {
    /// The parameter name is empty.
    MissingName,
    /// No value predicate was set.
    MissingValue,
    /// The regular expression did not compile.
    InvalidRegex(regex::Error),
}

impl QueryParamMatchError {
    /// The error's description.
    pub fn message(&self) -> (r: String)
        ensures
            self is MissingName ==> r@ == "missing a query param name"@,
            self is MissingValue ==> r@ == "missing a query param value"@,
            self is InvalidRegex ==> r@ == "invalid regular expression"@,
    {
        match self {
            QueryParamMatchError::MissingName => String::from_str("missing a query param name"),
            QueryParamMatchError::MissingValue => String::from_str("missing a query param value"),
            QueryParamMatchError::InvalidRegex(_) => String::from_str("invalid regular expression"),
        }
    }
}

// --- compiled matchers --------------------------------------------------------

/// A compiled host matcher: an exact host name, or a suffix held as reversed
/// DNS labels.
#[derive(Clone, Debug)]
pub enum MatchHost {
    Exact(String),
    Suffix(Vec<String>),
}

/// A compiled path matcher. The regex variant holds an already-compiled
/// expression, so matching a request never compiles or fails.
#[derive(Clone, Debug)]
pub enum MatchPath {
    Exact(String),
    Prefix(String),
    Regex(regex::Regex),
}

/// A compiled header matcher: a validated header name with either an exact
/// validated value or a compiled regular expression.
#[derive(Clone, Debug)]
pub enum MatchHeader {
    Exact(http::header::HeaderName, http::HeaderValue),
    Regex(http::header::HeaderName, regex::Regex),
}

/// A compiled query-parameter matcher.
#[derive(Clone, Debug)]
pub enum MatchQueryParam {
    Exact(String, String),
    Regex(String, regex::Regex),
}

/// A compiled request matcher. A route-match descriptor today yields only a
/// path predicate; the header and query predicates stay empty there and are
/// filled by per-rule conversions elsewhere.
#[derive(Clone, Debug)]
pub struct MatchRequest {
    pub path: Option<MatchPath>,
    pub headers: Vec<MatchHeader>,
    pub query_params: Vec<MatchQueryParam>,
}

// --- conversions ---------------------------------------------------------------

impl MatchHost {
    /// Compiles a host-match descriptor; a descriptor with no match set is
    /// rejected.
    pub fn try_from(hm: HostMatch) -> (r: Result<MatchHost, HostMatchError>)
        ensures
            match hm.host {
                Option::None => r is Err,
                Option::Some(HostMatchKind::Exact(h)) => r == Ok::<MatchHost, HostMatchError>(
                    MatchHost::Exact(h),
                ),
                Option::Some(HostMatchKind::Suffix(s)) => r == Ok::<MatchHost, HostMatchError>(
                    MatchHost::Suffix(s.reverse_labels),
                ),
            },
    {
        match hm.host {
            None => Err(HostMatchError),
            Some(HostMatchKind::Exact(h)) => Ok(MatchHost::Exact(h)),
            Some(HostMatchKind::Suffix(sfx)) => Ok(MatchHost::Suffix(sfx.reverse_labels)),
        }
    }
}

impl MatchPath {
    /// Compiles a path-match descriptor: a missing kind or an invalid
    /// regular expression is rejected; exact and prefix literals are kept
    /// as they are.
    pub fn try_from(pm: PathMatch) -> (r: Result<MatchPath, PathMatchError>)
        ensures
            match pm.kind {
                Option::None => r matches Err(e) && e is MissingMatch,
                Option::Some(PathMatchKind::Exact(p)) => r == Ok::<MatchPath, PathMatchError>(
                    MatchPath::Exact(p),
                ),
                Option::Some(PathMatchKind::Prefix(p)) => r == Ok::<MatchPath, PathMatchError>(
                    MatchPath::Prefix(p),
                ),
                Option::Some(PathMatchKind::Regex(p)) => {
                    &&& regex_compiles(p@) ==> (r matches Ok(m) && m is Regex)
                    &&& !regex_compiles(p@) ==> (r matches Err(e) && e is InvalidRegex)
                },
            },
    {
        match pm.kind {
            None => Err(PathMatchError::MissingMatch),
            Some(PathMatchKind::Exact(p)) => Ok(MatchPath::Exact(p)),
            Some(PathMatchKind::Prefix(p)) => Ok(MatchPath::Prefix(p)),
            Some(PathMatchKind::Regex(p)) => match compile_regex(p.as_str()) {
                Ok(re) => Ok(MatchPath::Regex(re)),
                Err(e) => Err(PathMatchError::InvalidRegex(e)),
            },
        }
    }
}

impl MatchRequest {
    /// Compiles a route-match descriptor. A descriptor without a path
    /// predicate yields the empty matcher; a malformed path predicate is
    /// rejected in full.
    pub fn try_from(rm: RouteMatch) -> (r: Result<MatchRequest, RouteMatchError>)
        ensures
            match rm.path {
                Option::None => r matches Ok(m) && m.path is None && m.headers@.len() == 0
                    && m.query_params@.len() == 0,
                Option::Some(pm) => match pm.kind {
                    Option::None => r matches Err(e) && (e matches RouteMatchError::Path(pe)
                        && pe is MissingMatch),
                    Option::Some(PathMatchKind::Exact(p)) => r matches Ok(m) && (m.path
                        == Some(MatchPath::Exact(p)) && m.headers@.len() == 0
                        && m.query_params@.len() == 0),
                    Option::Some(PathMatchKind::Prefix(p)) => r matches Ok(m) && (m.path
                        == Some(MatchPath::Prefix(p)) && m.headers@.len() == 0
                        && m.query_params@.len() == 0),
                    Option::Some(PathMatchKind::Regex(p)) => {
                        &&& regex_compiles(p@) ==> (r matches Ok(m) && (m.path matches Some(mp)
                            && mp is Regex && m.headers@.len() == 0 && m.query_params@.len() == 0))
                        &&& !regex_compiles(p@) ==> (r matches Err(e) && (e matches
                            RouteMatchError::Path(pe) && pe is InvalidRegex))
                    },
                },
            },
    {
        let path = match rm.path {
            None => None,
            Some(pm) => match MatchPath::try_from(pm) {
                Ok(p) => Some(p),
                Err(e) => {
                    return Err(RouteMatchError::Path(e));
                },
            },
        };
        Ok(MatchRequest { path, headers: Vec::new(), query_params: Vec::new() })
    }
}

impl MatchHeader {
    /// Compiles a header-match descriptor: the name must be a legal header
    /// token, and the value must be either a legal header value or a valid
    /// regular expression; a descriptor with no value predicate is rejected.
    pub fn try_from(hm: HeaderMatch) -> (r: Result<MatchHeader, HeaderMatchError>)
        ensures
            !header_name_valid(hm.name@) ==> (r matches Err(e) && e is InvalidName),
            header_name_valid(hm.name@) ==> match hm.value {
                Option::None => r matches Err(e) && e is MissingValueMatch,
                Option::Some(HeaderMatchValue::Exact(v)) => {
                    &&& header_value_valid(v@) ==> (r matches Ok(m) && m is Exact)
                    &&& !header_value_valid(v@) ==> (r matches Err(e) && e is InvalidValue)
                },
                Option::Some(HeaderMatchValue::Regex(p)) => {
                    &&& regex_compiles(p@) ==> (r matches Ok(m) && m is Regex)
                    &&& !regex_compiles(p@) ==> (r matches Err(e) && e is InvalidRegex)
                },
            },
    {
        let name = match parse_header_name(hm.name.as_str()) {
            Ok(n) => n,
            Err(e) => {
                return Err(HeaderMatchError::InvalidName(e));
            },
        };
        match hm.value {
            None => Err(HeaderMatchError::MissingValueMatch),
            Some(HeaderMatchValue::Exact(v)) => match parse_header_value(v.as_str()) {
                Ok(val) => Ok(MatchHeader::Exact(name, val)),
                Err(e) => Err(HeaderMatchError::InvalidValue(e)),
            },
            Some(HeaderMatchValue::Regex(p)) => match compile_regex(p.as_str()) {
                Ok(re) => Ok(MatchHeader::Regex(name, re)),
                Err(e) => Err(HeaderMatchError::InvalidRegex(e)),
            },
        }
    }
}

impl MatchQueryParam {
    /// Compiles a query-parameter-match descriptor: the name must be
    /// non-empty and a regex value must compile; a descriptor with no value
    /// predicate is rejected.
    pub fn try_from(qm: QueryParamMatch) -> (r: Result<MatchQueryParam, QueryParamMatchError>)
        ensures
            qm.name@.len() == 0 ==> (r matches Err(e) && e is MissingName),
            qm.name@.len() > 0 ==> match qm.value {
                Option::None => r matches Err(e) && e is MissingValue,
                Option::Some(QueryParamMatchValue::Exact(v)) => r == Ok::<
                    MatchQueryParam,
                    QueryParamMatchError,
                >(MatchQueryParam::Exact(qm.name, v)),
                Option::Some(QueryParamMatchValue::Regex(p)) => {
                    &&& regex_compiles(p@) ==> (r matches Ok(m) && (m matches
                        MatchQueryParam::Regex(n, _) && n@ == qm.name@))
                    &&& !regex_compiles(p@) ==> (r matches Err(e) && e is InvalidRegex)
                },
            },
    {
        if qm.name.as_str().is_empty() {
            return Err(QueryParamMatchError::MissingName);
        }
        match qm.value {
            None => Err(QueryParamMatchError::MissingValue),
            Some(QueryParamMatchValue::Exact(v)) => Ok(MatchQueryParam::Exact(qm.name, v)),
            Some(QueryParamMatchValue::Regex(p)) => match compile_regex(p.as_str()) {
                Ok(re) => Ok(MatchQueryParam::Regex(qm.name, re)),
                Err(e) => Err(QueryParamMatchError::InvalidRegex(e)),
            },
        }
    }
}

} // verus!
