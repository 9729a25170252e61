//! The site manifest, and the addresses of assets under its base address.
use vstd::prelude::*;
use vstd::string::*;

verus! {

#[verifier::external_type_specification]
#[verifier::external_body]
pub struct ExParseError(url::ParseError);

/// The address that `partial` names relative to `base`, as the url crate
/// resolves it; `None` where either does not parse.
pub uninterp spec fn url_resolved(base: Seq<char>, partial: Seq<char>) -> Option<Seq<char>>;

/// Relies on url::Url::parse to parse `base`, on url::Url::join to resolve
/// `partial` against it, and on `String::from` for the serialization of the
/// result; all depend on their arguments alone.
#[verifier::external_body]
fn resolve_url(base: &str, partial: &str) -> (r: Result<String, url::ParseError>)
    ensures
        r is Ok <==> url_resolved(base@, partial@) is Some,
        r matches Ok(s) ==> s@ == url_resolved(base@, partial@).unwrap(),
{
    match url::Url::parse(base) {
        Ok(u) => match u.join(partial) {
            Ok(joined) => Ok(String::from(joined)),
            Err(e) => Err(e),
        },
        Err(e) => Err(e),
    }
}

/// What can go wrong while the application starts.
#[derive(Debug)]
pub enum Error {
    /// A browser call failed, with what it reported.
    UnknownJs(String),
    /// The manifest could not be fetched, with the reason.
    Networking(String),
    /// An address did not parse.
    Url(url::ParseError),
    /// The manifest text is not a valid manifest, with the reason.
    InvalidManifest(String),
}

impl Error {
    /// A sentence that describes the error.
    pub fn message(&self) -> (r: &'static str)
        ensures
            r@ == match self {
                Error::UnknownJs(_) => "Unknown JavaScript Error"@,
                Error::Networking(_) => "Failed to communicate with remote."@,
                Error::Url(_) => "Failed to parse Url."@,
                Error::InvalidManifest(_) => "The manifest is not valid."@,
            },
    {
        match self {
            Error::UnknownJs(_) => "Unknown JavaScript Error",
            Error::Networking(_) => "Failed to communicate with remote.",
            Error::Url(_) => "Failed to parse Url.",
            Error::InvalidManifest(_) => "The manifest is not valid.",
        }
    }
}

/// `s` with a slash at its end: unchanged where it already ends in one.
pub open spec fn with_trailing_slash(s: Seq<char>) -> Seq<char> {
    if s.len() > 0 && s.last() == '/' {
        s
    } else {
        s.push('/')
    }
}

/// The site's manifest.
#[derive(Clone, Debug, PartialEq)]
pub struct Manifest {
    pub site_title: String,
    pub endpoint: String,
    pub asset_base_url: String,
}

impl Manifest {
    fn base_with_slash(&self) -> (r: String)
        ensures
            r@ == with_trailing_slash(self.asset_base_url@),
    {
        let base = self.asset_base_url.as_str();
        let n = base.unicode_len();
        if n > 0 && base.get_char(n - 1) == '/' {
            String::from_str(base)
        } else {
            let mut s = String::from_str(base);
            s.append("/");
            proof {
                reveal_strlit("/");
            }
            assert(s@ =~= self.asset_base_url@.push('/'));
            s
        }
    }

    /// The address of the asset at `partial`, relative to the asset base
    /// address taken as a directory.
    pub fn get_asset_url(&self, partial: &str) -> (r: Result<String, Error>)
        ensures
            r is Ok <==> url_resolved(with_trailing_slash(self.asset_base_url@), partial@) is Some,
            r matches Ok(s) ==> s@ == url_resolved(
                with_trailing_slash(self.asset_base_url@),
                partial@,
            ).unwrap(),
            r matches Err(e) ==> (e is Url),
    {
        let base = self.base_with_slash();
        match resolve_url(base.as_str(), partial) {
            Ok(s) => Ok(s),
            Err(e) => Err(Error::Url(e)),
        }
    }
}

} // verus!
