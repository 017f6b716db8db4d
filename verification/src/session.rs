use vstd::prelude::*;
use vstd::string::*;
use crate::error::Error;
use crate::strutil::{str_eq, spec_decimal, push_decimal};
use crate::urlwrap::{UrlParts, UrlPartsModel, url_parts_of, parse_url};

verus! {

/// Where a repository remote lives: the homeserver endpoint and the room
/// alias, both derived once from the remote URL at bootstrap and immutable
/// for the rest of the invocation.
#[derive(Debug)]
pub struct RoomAddress {
    pub homeserver_url: String,
    pub room_alias: String,
}

/// The homeserver a URL's components denote: `https://<host>` for the
/// `matrix` scheme, else `<scheme>://<host>:<port>` with the explicit or
/// scheme-default port; `None` where the host or a needed port is missing.
pub open spec fn spec_homeserver(p: UrlPartsModel) -> Option<Seq<char>> {
    match p.host {
        None => None,
        Some(h) => if p.scheme == "matrix"@ {
            Some("https://"@ + h)
        } else {
            match p.port {
                None => None,
                Some(pt) => Some(p.scheme + "://"@ + h + ":"@ + spec_decimal(pt as int)),
            }
        },
    }
}

/// The room alias a URL's components denote: `#<segment>:<host>`, owed only
/// when the path holds exactly one segment and the host is present.
pub open spec fn spec_room_alias(p: UrlPartsModel) -> Option<Seq<char>> {
    match p.host {
        None => None,
        Some(h) => match p.segments {
            None => None,
            Some(segs) => if segs.len() == 1 {
                Some("#"@ + segs[0] + ":"@ + h)
            } else {
                None
            },
        },
    }
}

/// Derives the room address from parsed URL components.  Succeeds exactly
/// when both the homeserver and the alias are denoted, and each error names
/// what was missing.
pub fn bootstrap_from_parts(p: &UrlParts) -> (r: Result<RoomAddress, Error>)
    ensures
        r is Ok <==> (spec_homeserver(p@) is Some && spec_room_alias(p@) is Some),
        r matches Ok(a) ==> Some(a.homeserver_url@) == spec_homeserver(p@)
            && Some(a.room_alias@) == spec_room_alias(p@),
        p@.host is None ==> (r matches Err(e) && e.message@ == "Invalid host in URL"@),
        p@.host is Some && p@.scheme != "matrix"@ && p@.port is None
            ==> (r matches Err(e) && e.message@ == "Could not detect port in URL"@),
        spec_homeserver(p@) is Some && p@.segments is None
            ==> (r matches Err(e) && e.message@ == "Invalid path in URL"@),
        spec_homeserver(p@) is Some && (p@.segments matches Some(segs) && segs.len() != 1)
            ==> (r matches Err(e) && e.message@ == "Invalid path length in URL"@),
{
    let host = match &p.host {
        Some(h) => h,
        None => {
            return Err(Error::new("Invalid host in URL".to_owned()));
        },
    };
    let homeserver_url = if str_eq(p.scheme.as_str(), "matrix") {
        let mut hs = String::new();
        hs.append("https://");
        hs.append(host.as_str());
        proof {
            assert(hs@ =~= "https://"@ + host@);
        }
        hs
    } else {
        match p.port {
            Some(pt) => {
                let mut hs = String::new();
                hs.append(p.scheme.as_str());
                hs.append("://");
                hs.append(host.as_str());
                hs.append(":");
                push_decimal(pt, &mut hs);
                proof {
                    assert(hs@ =~= p@.scheme + "://"@ + host@ + ":"@ + spec_decimal(pt as int));
                }
                hs
            },
            None => {
                return Err(Error::new("Could not detect port in URL".to_owned()));
            },
        }
    };
    let room_alias = match &p.segments {
        Some(segs) => {
            if segs.len() != 1 {
                return Err(Error::new("Invalid path length in URL".to_owned()));
            }
            let mut a = String::new();
            a.append("#");
            a.append(segs[0].as_str());
            a.append(":");
            a.append(host.as_str());
            proof {
                assert(segs@.map_values(|s: String| s@)[0] == segs@[0]@);
                assert(a@ =~= "#"@ + segs@[0]@ + ":"@ + host@);
            }
            a
        },
        None => {
            return Err(Error::new("Invalid path in URL".to_owned()));
        },
    };
    Ok(RoomAddress { homeserver_url, room_alias })
}

/// Builds the pieces of one helper invocation from the remote's URL.
pub struct GitMatrixBuilder {
    pub remote_name: String,
    pub remote_url: String,
}

impl GitMatrixBuilder {
    pub fn new(remote_url: String) -> (r: Self)
        ensures
            r.remote_name@ == "origin"@,
            r.remote_url@ == remote_url@,
    {
        GitMatrixBuilder { remote_name: "origin".to_owned(), remote_url }
    }

    /// Sets the remote name to be used.
    pub fn remote_name(&mut self, name: String)
        ensures
            final(self).remote_name@ == name@,
            final(self).remote_url == old(self).remote_url,
    {
        self.remote_name = name;
    }

    /// Parses the remote URL into the homeserver and room alias it denotes.
    ///
    /// Scheme `matrix` maps to `https://<host>`; any other scheme keeps
    /// itself with an explicit or scheme-default port; the single path
    /// segment and the host form the alias `#<segment>:<host>`.
    pub fn parse_remote_url(&self) -> (r: Result<RoomAddress, Error>)
        ensures
            url_parts_of(self.remote_url@) is None ==> r is Err,
            url_parts_of(self.remote_url@) matches Some(p) ==> {
                &&& r is Ok <==> (spec_homeserver(p) is Some && spec_room_alias(p) is Some)
                &&& r matches Ok(a) ==> Some(a.homeserver_url@) == spec_homeserver(p)
                    && Some(a.room_alias@) == spec_room_alias(p)
                &&& p.host is None ==> (r matches Err(e)
                    && e.message@ == "Invalid host in URL"@)
                &&& p.host is Some && p.scheme != "matrix"@ && p.port is None ==> (r matches Err(
                    e,
                ) && e.message@ == "Could not detect port in URL"@)
                &&& spec_homeserver(p) is Some && p.segments is None ==> (r matches Err(e)
                    && e.message@ == "Invalid path in URL"@)
                &&& spec_homeserver(p) is Some && (p.segments matches Some(segs) && segs.len()
                    != 1) ==> (r matches Err(e) && e.message@ == "Invalid path length in URL"@)
            },
    {
        match parse_url(self.remote_url.as_str()) {
            Ok(parts) => bootstrap_from_parts(&parts),
            Err(m) => Err(Error::new(m)),
        }
    }
}

/// Builds a messaging session against one homeserver and room.
pub struct Builder {
    pub url: String,
    pub room: String,
}

impl Builder {
    pub fn new(url: String, room: String) -> (r: Self)
        ensures
            r.url@ == url@,
            r.room@ == room@,
    {
        Builder { url, room }
    }
}

/// The four stored configuration values a login flow may have persisted;
/// any of them can be missing.
pub struct StoredCredentials {
    pub url: Option<String>,
    pub username: Option<String>,
    pub access_token: Option<String>,
    pub device_id: Option<String>,
}

/// How the session is to be established: authenticated from complete stored
/// credentials, or as an anonymous guest against the resolved homeserver.
pub enum SessionPlan {
    Authenticated {
        homeserver_url: String,
        username: String,
        access_token: String,
        device_id: String,
    },
    Guest {
        homeserver_url: String,
    },
}

/// Chooses the session kind: all four stored values present means an
/// authenticated session against the stored server URL; anything missing
/// falls back to a guest session against the homeserver derived from the
/// remote URL, never an error.
pub fn plan_session(creds: StoredCredentials, fallback_homeserver: String) -> (r: SessionPlan)
    ensures
        creds.url is Some && creds.username is Some && creds.access_token is Some
            && creds.device_id is Some
            ==> (r matches SessionPlan::Authenticated {
                    homeserver_url, username, access_token, device_id,
                }
                && Some(homeserver_url) == creds.url
                && Some(username) == creds.username
                && Some(access_token) == creds.access_token
                && Some(device_id) == creds.device_id),
        !(creds.url is Some && creds.username is Some && creds.access_token is Some
            && creds.device_id is Some)
            ==> (r matches SessionPlan::Guest { homeserver_url }
                && homeserver_url@ == fallback_homeserver@),
{
    match (creds.url, creds.username, creds.access_token, creds.device_id) {
        (Some(url), Some(username), Some(access_token), Some(device_id)) => {
            SessionPlan::Authenticated { homeserver_url: url, username, access_token, device_id }
        },
        _ => SessionPlan::Guest { homeserver_url: fallback_homeserver },
    }
}

} // verus!
