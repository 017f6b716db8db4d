use vstd::prelude::*;

verus! {

/// The components of a parsed URL that the library reads: scheme, host,
/// resolved port and path segments, all as plain values.
pub struct UrlParts {
    pub scheme: String,
    pub host: Option<String>,
    pub port: Option<u16>,
    pub segments: Option<Vec<String>>,
}

/// The mathematical shadow of `UrlParts`.
pub ghost struct UrlPartsModel {
    pub scheme: Seq<char>,
    pub host: Option<Seq<char>>,
    pub port: Option<u16>,
    pub segments: Option<Seq<Seq<char>>>,
}

impl View for UrlParts {
    type V = UrlPartsModel;

    open spec fn view(&self) -> UrlPartsModel {
        UrlPartsModel {
            scheme: self.scheme@,
            host: match self.host {
                Some(h) => Some(h@),
                None => None,
            },
            port: self.port,
            segments: match self.segments {
                Some(ss) => Some(ss@.map_values(|s: String| s@)),
                None => None,
            },
        }
    }
}

/// What the url crate's parser yields on a given string: its read of the
/// scheme, host, port and path pieces, or `None` where it rejects the
/// string.  The outcome depends on the string alone.
pub uninterp spec fn url_parts_of(s: Seq<char>) -> Option<UrlPartsModel>;

/// Parses an absolute URL and hands out the components the library reads.
///
/// Relies on url::Url::parse for acceptance, and on the accessors scheme
/// (always present on a parsed URL), host_str (`None` for host-less URLs),
/// port_or_known_default (the explicit port, else the scheme's registered
/// default, else `None`) and path_segments (`None` for cannot-be-a-base
/// URLs, else the `/`-separated path pieces).  The whole outcome is a
/// function of the string alone and is named by `url_parts_of`; the `Err`
/// value carries the parser's own message.
#[verifier::external_body]
pub fn parse_url(s: &str) -> (r: Result<UrlParts, String>)
    ensures
        r is Ok <==> url_parts_of(s@) is Some,
        r matches Ok(p) ==> Some(p@) == url_parts_of(s@),
{
    match url::Url::parse(s) {
        Ok(u) => Ok(UrlParts {
            scheme: u.scheme().to_owned(),
            host: u.host_str().map(|h| h.to_owned()),
            port: u.port_or_known_default(),
            segments: u.path_segments().map(|ss| ss.map(|x| x.to_owned()).collect()),
        }),
        Err(e) => Err(format!("{}", e)),
    }
}

} // verus!
