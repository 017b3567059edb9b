//! The runtime-install step: which Ruby version a build installs, how
//! the previously cached installation is judged, and where the runtime
//! archive is downloaded from.
//!
//! The download itself and the unpacking into the layer directory are
//! process-boundary work performed by the caller; this module owns the
//! version and URL logic.

use vstd::prelude::*;
use vstd::string::StringExecFns;
use crate::strategy::CacheDecision;

verus! {

/// The Ruby version a build asks for: one named by the application, or
/// the configured fallback.
pub enum RubyVersion {
    Explicit(String),
    Default,
}

/// The runtime-install step: downloads and unpacks the requested Ruby
/// version into its layer directory, and invalidates the cached layer
/// when the version changes. The fallback version used for
/// `RubyVersion::Default` is injected at construction, not compiled in,
/// so callers and tests can override it.
pub struct InstallRubyVersionLayer {
    pub version: RubyVersion,
    pub default_version: String,
}

/// Metadata persisted for the installed runtime: the version it holds.
pub struct RubyMetadata {
    pub version: String,
}

/// Whether a layer is used at build time, kept in the launch image, and
/// cached across builds.
#[derive(Clone, Copy, Debug, PartialEq, Eq, Structural)]
pub struct LayerTypes {
    pub build: bool,
    pub launch: bool,
    pub cache: bool,
}

/// The version string a layer resolves to: the explicit version, or the
/// injected fallback.
pub open spec fn version_string_of(v: RubyVersion, fallback: Seq<char>) -> Seq<char> {
    match v {
        RubyVersion::Explicit(s) => s@,
        RubyVersion::Default => fallback,
    }
}

/// Failure to assemble the download URL.
#[derive(Debug)]
pub enum UrlError {
    /// The base URL did not parse; carries the parser's diagnostic.
    UrlParseError(String),
    /// The base URL cannot take path segments; carries the base.
    InvalidBaseUrl(String),
}

/// The URL text that parsing a base URL and appending two path segments
/// yields. A function of the base and the segments alone.
pub uninterp spec fn url_join_of(base: Seq<char>, seg1: Seq<char>, seg2: Seq<char>) -> Seq<char>;

/// Relies on url::Url::parse and url::PathSegmentsMut::push: the URL
/// built from a base and appended path segments depends on the base and
/// the segments alone. The archive host below is an absolute https URL
/// with a host, so it parses and can take path segments: for that base
/// the call always succeeds. A segment that is exactly `.` or `..` is
/// skipped by the url crate rather than appended. The length bound keeps
/// the URL's serialization far below the url crate's internal `u32`
/// limit even at the worst-case threefold percent-encoding expansion,
/// where pushing would abort instead of returning.
#[verifier::external_body]
fn join_url(base: &str, seg1: &str, seg2: &str) -> (r: Result<String, UrlError>)
    requires
        base@.len() + seg1@.len() + seg2@.len() < 0x40000000,
    ensures
        r matches Ok(u) ==> u@ == url_join_of(base@, seg1@, seg2@),
        base@ == "https://heroku-buildpack-ruby.s3.us-east-1.amazonaws.com"@ ==> r is Ok,
{
    let mut url = match url::Url::parse(base) {
        Ok(u) => u,
        Err(e) => {
            return Err(UrlError::UrlParseError(format!("{e}")));
        },
    };
    match url.path_segments_mut() {
        Ok(mut segments) => {
            segments.push(seg1).push(seg2);
        },
        Err(()) => {
            return Err(UrlError::InvalidBaseUrl(base.to_owned()));
        },
    }
    Ok(String::from(url))
}

impl InstallRubyVersionLayer {
    /// The version this layer installs: the explicitly requested one, or
    /// the injected fallback version.
    pub fn version_string(&self) -> (r: String)
        ensures
            r@ == version_string_of(self.version, self.default_version@),
    {
        match &self.version {
            RubyVersion::Explicit(v) => v.clone(),
            RubyVersion::Default => self.default_version.clone(),
        }
    }

    /// The layer is used at build time, kept for launch, and cached.
    pub fn types(&self) -> (t: LayerTypes)
        ensures
            t == (LayerTypes { build: true, launch: true, cache: true }),
    {
        LayerTypes { build: true, launch: true, cache: true }
    }

    /// Judges a previously cached installation: kept exactly when its
    /// recorded version matches the version this build resolves to, and
    /// otherwise discarded and re-created.
    pub fn existing_layer_strategy(&self, stored: &RubyMetadata) -> (d: CacheDecision)
        ensures
            d == CacheDecision::Keep <==> stored.version@ == version_string_of(
                self.version,
                self.default_version@,
            ),
            d == CacheDecision::Keep || d == CacheDecision::Recreate,
    {
        if self.version_string() == stored.version {
            CacheDecision::Keep
        } else {
            CacheDecision::Recreate
        }
    }

    /// The URL the runtime archive for `version` is downloaded from on
    /// the given stack: the fixed base, the stack identifier, and the
    /// archive file name as path segments. The base is a valid absolute
    /// URL, so construction always succeeds. The length bound is a
    /// machine limit: it keeps the built URL below the url crate's
    /// internal size cap.
    pub fn download_url(stack: &str, version: &str) -> (r: Result<String, UrlError>)
        requires
            stack@.len() + version@.len() < 0x30000000,
        ensures
            r is Ok,
            r matches Ok(u) ==> u@ == url_join_of(
                "https://heroku-buildpack-ruby.s3.us-east-1.amazonaws.com"@,
                stack@,
                "ruby-"@ + version@ + ".tgz"@,
            ),
    {
        let filename = String::from_str("ruby-").concat(version).concat(".tgz");
        proof {
            reveal_strlit("https://heroku-buildpack-ruby.s3.us-east-1.amazonaws.com");
            reveal_strlit("ruby-");
            reveal_strlit(".tgz");
        }
        join_url(
            "https://heroku-buildpack-ruby.s3.us-east-1.amazonaws.com",
            stack,
            filename.as_str(),
        )
    }
}

} // verus!
