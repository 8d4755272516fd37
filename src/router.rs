use vstd::prelude::*;

use crate::error::{Error, UrlParseError};

verus! {

/// The storage backends that a path can belong to.
#[derive(Debug, Clone, Copy, Hash, PartialEq, Eq, Structural)]
pub enum SourceType {
    File,
    Http,
    S3,
    AzureBlob,
    GCS,
    HF,
}

/// The name of each backend in messages.
pub open spec fn source_name(kind: SourceType) -> Seq<char> {
    match kind {
        SourceType::File => "file"@,
        SourceType::Http => "http"@,
        SourceType::S3 => "s3"@,
        SourceType::AzureBlob => "AzureBlob"@,
        SourceType::GCS => "gcs"@,
        SourceType::HF => "hf"@,
    }
}

impl SourceType {
    /// The backend's name as it appears in messages.
    pub fn name(&self) -> (r: String)
        ensures
            r@ == source_name(*self),
    {
        match self {
            SourceType::File => String::from_str("file"),
            SourceType::Http => String::from_str("http"),
            SourceType::S3 => String::from_str("s3"),
            SourceType::AzureBlob => String::from_str("AzureBlob"),
            SourceType::GCS => String::from_str("gcs"),
            SourceType::HF => String::from_str("hf"),
        }
    }
}

/// What the URL parser makes of a text: the scheme it found, or why it found none.
pub enum ParsedScheme {
    Scheme(Seq<char>),
    NoScheme,
    Malformed(Seq<char>),
}

/// The scheme that the URL parser finds in `input`.
pub uninterp spec fn url_scheme_of(input: Seq<char>) -> ParsedScheme;

/// The lower-case form of a text.
pub uninterp spec fn lower_of(s: Seq<char>) -> Seq<char>;

pub open spec fn parsed_view(r: Result<String, UrlParseError>) -> ParsedScheme {
    match r {
        Ok(s) => ParsedScheme::Scheme(s@),
        Err(UrlParseError::RelativeUrlWithoutBase) => ParsedScheme::NoScheme,
        Err(UrlParseError::Malformed { detail }) => ParsedScheme::Malformed(detail@),
    }
}

pub open spec fn starts_with(s: Seq<char>, prefix: Seq<char>) -> bool {
    prefix.len() <= s.len() && s.subrange(0, prefix.len() as int) == prefix
}

/// Whether every character of `s` is ASCII and none is an upper-case letter.
pub open spec fn is_lower_ascii(s: Seq<char>) -> bool {
    forall|i: int|
        0 <= i < s.len() ==> (#[trigger] s[i] as u32) < 128 && !('A' <= s[i] && s[i] <= 'Z')
}

/// Relies on `url::Url::parse` and `url::Url::scheme`: the scheme depends on
/// the text alone, is returned as lower-cased ASCII without its ':', and so is
/// `file` for any text that parses and begins with `file://`.
#[verifier::external_body]
fn parse_scheme(input: &str) -> (r: Result<String, UrlParseError>)
    ensures
        parsed_view(r) == url_scheme_of(input@),
        starts_with(input@, "file://"@) && r is Ok ==> r->Ok_0@ == "file"@,
        r is Ok ==> is_lower_ascii(r->Ok_0@),
{
    match url::Url::parse(input) {
        Ok(url) => Ok(url.scheme().to_string()),
        Err(url::ParseError::RelativeUrlWithoutBase) => Err(UrlParseError::RelativeUrlWithoutBase),
        Err(err) => Err(UrlParseError::Malformed { detail: err.to_string() }),
    }
}

/// Relies on `str::to_lowercase`: the result depends on the text alone, and
/// ASCII characters other than upper-case letters map to themselves.
#[verifier::external_body]
fn lowercase(s: &str) -> (r: String)
    ensures
        r@ == lower_of(s@),
        is_lower_ascii(s@) ==> r@ == s@,
{
    s.to_lowercase()
}

/// Relies on `home::home_dir`: the current user's home directory, if it can be
/// found and is valid text. It depends on the environment.
#[verifier::external_body]
fn home_dir() -> (r: Option<String>) {
    home::home_dir().and_then(|p| p.to_str().map(|s| s.to_string()))
}

/// Relies on `std::path::Path::join`: `rest` appended to `base` by the
/// platform's path rules.
#[verifier::external_body]
fn join_path(base: &str, rest: &str) -> (r: String) {
    std::path::Path::new(base).join(rest).to_string_lossy().into_owned()
}

/// The backend that serves a lower-case scheme.
pub open spec fn kind_of_scheme(s: Seq<char>) -> Option<SourceType> {
    if s == "file"@ {
        Some(SourceType::File)
    } else if s == "http"@ || s == "https"@ {
        Some(SourceType::Http)
    } else if s == "s3"@ || s == "s3a"@ {
        Some(SourceType::S3)
    } else if s == "az"@ || s == "abfs"@ || s == "abfss"@ {
        Some(SourceType::AzureBlob)
    } else if s == "gcs"@ || s == "gs"@ {
        Some(SourceType::GCS)
    } else if s == "hf"@ {
        Some(SourceType::HF)
    } else {
        None
    }
}

/// The outcome of routing a path, as far as callers can tell.
pub enum RouteOutcome {
    Routed(SourceType, Seq<char>),
    BadUrl(Seq<char>, ParsedScheme),
    Unsupported(Seq<char>),
    BadArgument,
    Other,
}

pub open spec fn outcome_of(r: Result<(SourceType, String), Error>) -> RouteOutcome {
    match r {
        Ok((kind, path)) => RouteOutcome::Routed(kind, path@),
        Err(Error::InvalidUrl { path, source }) => RouteOutcome::BadUrl(
            path@,
            parsed_view(Err(source)),
        ),
        Err(Error::NotImplementedSource { store }) => RouteOutcome::Unsupported(store@),
        Err(Error::InvalidArgument { .. }) => RouteOutcome::BadArgument,
        Err(_) => RouteOutcome::Other,
    }
}

/// Routing once the scheme of `url` is known.
pub open spec fn scheme_outcome(scheme: Seq<char>, url: Seq<char>) -> RouteOutcome {
    match kind_of_scheme(lower_of(scheme)) {
        Some(kind) => RouteOutcome::Routed(kind, url),
        None => RouteOutcome::Unsupported(lower_of(scheme)),
    }
}

/// Routing of a text that does not begin with `~/`: parse it as a URL and, if
/// it has no scheme, parse it again as a `file://` URL.
pub open spec fn route_spec(input: Seq<char>) -> RouteOutcome {
    match url_scheme_of(input) {
        ParsedScheme::Scheme(scheme) => scheme_outcome(scheme, input),
        ParsedScheme::NoScheme => {
            let fixed = "file://"@ + input;
            match url_scheme_of(fixed) {
                ParsedScheme::Scheme(scheme) => scheme_outcome(scheme, fixed),
                failure => RouteOutcome::BadUrl(input, failure),
            }
        },
        failure => RouteOutcome::BadUrl(input, failure),
    }
}

/// Whether two texts hold the same characters.
pub fn str_equals(a: &str, b: &str) -> (r: bool)
    ensures
        r == (a@ == b@),
{
    let n = a.unicode_len();
    if n != b.unicode_len() {
        return false;
    }
    let mut i: usize = 0;
    while i < n
        invariant
            n == a@.len(),
            n == b@.len(),
            i <= n,
            a@.subrange(0, i as int) == b@.subrange(0, i as int),
        decreases n - i,
    {
        if a.get_char(i) != b.get_char(i) {
            return false;
        }
        assert(a@.subrange(0, i + 1) == a@.subrange(0, i as int).push(a@[i as int]));
        assert(b@.subrange(0, i + 1) == b@.subrange(0, i as int).push(b@[i as int]));
        i = i + 1;
    }
    assert(a@ == a@.subrange(0, n as int));
    assert(b@ == b@.subrange(0, n as int));
    true
}

/// Whether `s` begins with `prefix`.
pub fn str_starts_with(s: &str, prefix: &str) -> (r: bool)
    ensures
        r == starts_with(s@, prefix@),
{
    let n = s.unicode_len();
    let m = prefix.unicode_len();
    if m > n {
        return false;
    }
    let head = s.substring_char(0, m);
    str_equals(head, prefix)
}

/// The backend that serves a lower-case scheme, if any does.
pub fn kind_for_scheme(s: &str) -> (r: Option<SourceType>)
    ensures
        r == kind_of_scheme(s@),
{
    if str_equals(s, "file") {
        Some(SourceType::File)
    } else if str_equals(s, "http") || str_equals(s, "https") {
        Some(SourceType::Http)
    } else if str_equals(s, "s3") || str_equals(s, "s3a") {
        Some(SourceType::S3)
    } else if str_equals(s, "az") || str_equals(s, "abfs") || str_equals(s, "abfss") {
        Some(SourceType::AzureBlob)
    } else if str_equals(s, "gcs") || str_equals(s, "gs") {
        Some(SourceType::GCS)
    } else if str_equals(s, "hf") {
        Some(SourceType::HF)
    } else {
        None
    }
}

fn route_scheme(scheme: &str, url: String) -> (r: Result<(SourceType, String), Error>)
    ensures
        outcome_of(r) == scheme_outcome(scheme@, url@),
        is_lower_ascii(scheme@) ==> lower_of(scheme@) == scheme@,
{
    let lowered = lowercase(scheme);
    match kind_for_scheme(lowered.as_str()) {
        Some(kind) => Ok((kind, url)),
        None => Err(Error::NotImplementedSource { store: lowered }),
    }
}

/// Routing of a `~/` path once the home directory has been joined with the
/// rest of it: a `file://` URL, or an error when no home directory was found.
pub fn route_home_expansion(expanded: Option<String>) -> (r: Result<(SourceType, String), Error>)
    ensures
        expanded is Some ==> r is Ok && r->Ok_0.0 == SourceType::File
            && r->Ok_0.1@ == "file://"@ + expanded->Some_0@,
        expanded is None ==> r matches Err(Error::InvalidArgument { .. }),
{
    match expanded {
        Some(path) => {
            let url = String::from_str("file://").concat(path.as_str());
            Ok((SourceType::File, url))
        },
        None => Err(
            Error::InvalidArgument { msg: String::from_str("Could not convert expanded path to string") },
        ),
    }
}

/// Routes a text that does not begin with `~/`.
pub fn route_url(input: &str) -> (r: Result<(SourceType, String), Error>)
    ensures
        outcome_of(r) == route_spec(input@),
        url_scheme_of(input@) is NoScheme && r is Ok ==> r->Ok_0.0 == SourceType::File
            && r->Ok_0.1@ == "file://"@ + input@,
        url_scheme_of(input@) is NoScheme && url_scheme_of("file://"@ + input@) is Scheme ==> r is Ok,
{
    match parse_scheme(input) {
        Ok(scheme) => route_scheme(scheme.as_str(), input.to_owned()),
        Err(UrlParseError::RelativeUrlWithoutBase) => {
            let fixed = String::from_str("file://").concat(input);
            proof {
                reveal_strlit("file://");
                reveal_strlit("file");
                assert(fixed@.subrange(0, 7) == "file://"@);
            }
            match parse_scheme(fixed.as_str()) {
                Ok(scheme) => route_scheme(scheme.as_str(), fixed),
                Err(source) => Err(Error::InvalidUrl { path: input.to_owned(), source }),
            }
        },
        Err(source) => Err(Error::InvalidUrl { path: input.to_owned(), source }),
    }
}

/// Finds the backend that owns `input` and the path to hand it.
///
/// A `~/` path is expanded against the home directory into a `file://` URL;
/// any other text is routed by its URL scheme, a bare relative path being
/// taken as a `file://` URL.
pub fn parse_url(input: &str) -> (r: Result<(SourceType, String), Error>)
    ensures
        starts_with(input@, "~/"@) ==> (r is Ok ==> r->Ok_0.0 == SourceType::File
            && starts_with(r->Ok_0.1@, "file://"@))
            && (r is Err ==> r matches Err(Error::InvalidArgument { .. })),
        !starts_with(input@, "~/"@) ==> outcome_of(r) == route_spec(input@),
        !starts_with(input@, "~/"@) && url_scheme_of(input@) is NoScheme && r is Ok ==> r->Ok_0.0
            == SourceType::File && r->Ok_0.1@ == "file://"@ + input@,
        !starts_with(input@, "~/"@) && url_scheme_of(input@) is NoScheme && url_scheme_of(
            "file://"@ + input@,
        ) is Scheme ==> r is Ok,
{
    if str_starts_with(input, "~/") {
        proof {
            reveal_strlit("~/");
        }
        let rest = input.substring_char(2, input.unicode_len());
        let expanded = match home_dir() {
            Some(home) => Some(join_path(home.as_str(), rest)),
            None => None,
        };
        let r = route_home_expansion(expanded);
        proof {
            reveal_strlit("file://");
            if r is Ok {
                let url = r->Ok_0.1@;
                assert(url.subrange(0, 7) == "file://"@);
            }
        }
        r
    } else {
        route_url(input)
    }
}

/// A URL that parses with a recognised scheme is routed to that scheme's
/// backend, and its text is handed on unchanged.
pub proof fn lemma_recognized_scheme_keeps_path(input: Seq<char>, scheme: Seq<char>)
    requires
        !starts_with(input, "~/"@),
        url_scheme_of(input) == ParsedScheme::Scheme(scheme),
        kind_of_scheme(lower_of(scheme)) is Some,
    ensures
        route_spec(input) == RouteOutcome::Routed(kind_of_scheme(lower_of(scheme))->Some_0, input),
{
}

/// A URL that parses with a scheme no backend serves is refused as an
/// unimplemented source, named by its lower-case scheme.
pub proof fn lemma_unknown_scheme_unsupported(input: Seq<char>, scheme: Seq<char>)
    requires
        !starts_with(input, "~/"@),
        url_scheme_of(input) == ParsedScheme::Scheme(scheme),
        kind_of_scheme(lower_of(scheme)) is None,
    ensures
        route_spec(input) == RouteOutcome::Unsupported(lower_of(scheme)),
{
}

} // verus!
