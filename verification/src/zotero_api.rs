//! The client configuration, its validating builder, and request
//! composition: library-scope addressing, URL composition and the
//! authentication headers carried by every request.

use vstd::prelude::*;

use crate::error::ZoteroError;
use crate::json::{json_member, json_member_text};
use crate::request::{Method, Request, RequestV};
use crate::text::{
    check_header_value, decimal_digits, string_pairs_view, u8_decimal, valid_header_value,
};
use crate::urls::{
    join_url, joined, norm_url, parse_url, url_with_params, url_with_path, url_with_query,
    with_params, with_path, with_query,
};

verus! {

/// The library scope every resource path is resolved under: a personal user
/// library or a shared group library.
#[derive(Debug, Clone, PartialEq)]
pub enum InteractionMode {
    User(String),
    Group(String),
}

/// The mathematical shape of a scope.
pub enum ModeV {
    User(Seq<char>),
    Group(Seq<char>),
}

impl View for InteractionMode {
    type V = ModeV;

    open spec fn view(&self) -> ModeV {
        match self {
            InteractionMode::User(id) => ModeV::User(id@),
            InteractionMode::Group(id) => ModeV::Group(id@),
        }
    }
}

/// The path prefix a scope addresses: `users/{id}/` or `groups/{id}/`, with
/// the trailing separator that relative-URL resolution needs to extend the
/// path rather than replace its last segment.
pub open spec fn prefix_of(m: ModeV) -> Seq<char> {
    match m {
        ModeV::User(id) => "users/"@ + id + "/"@,
        ModeV::Group(id) => "groups/"@ + id + "/"@,
    }
}

impl InteractionMode {
    /// The scope's path prefix.
    pub fn prefix(&self) -> (r: String)
        ensures
            r@ == prefix_of(self@),
    {
        match self {
            InteractionMode::User(id) => {
                let mut s = String::from_str("users/");
                s.append(id.as_str());
                s.append("/");
                s
            },
            InteractionMode::Group(id) => {
                let mut s = String::from_str("groups/");
                s.append(id.as_str());
                s.append("/");
                s
            },
        }
    }
}

/// The serialization of the canonical Zotero API host, the default endpoint.
pub open spec fn default_endpoint_text() -> Seq<char> {
    "https://api.zotero.org/"@
}

/// The mathematical shape of a built client.
#[verifier::ext_equal]
pub struct ClientV {
    pub endpoint: Seq<char>,
    pub version: u8,
    pub api_key: Seq<char>,
    pub mode: Option<ModeV>,
}

/// The built, immutable client configuration: endpoint serialization,
/// protocol version, API key and optional library scope. Produced by
/// `ZoteroAPIBuilder::build`; it owns no network resources.
#[derive(Debug, Clone)]
pub struct ZoteroAPI {
    pub endpoint: String,
    pub version: u8,
    pub api_key: String,
    pub mode: Option<InteractionMode>,
}

impl View for ZoteroAPI {
    type V = ClientV;

    open spec fn view(&self) -> ClientV {
        ClientV {
            endpoint: self.endpoint@,
            version: self.version,
            api_key: self.api_key@,
            mode: match self.mode {
                Some(m) => Some(m@),
                None => None,
            },
        }
    }
}

/// The mathematical shape of a builder: each field as far as it was set.
#[verifier::ext_equal]
pub struct BuilderV {
    pub endpoint: Option<Seq<char>>,
    pub version: Option<u8>,
    pub api_key: Option<Seq<char>>,
    pub mode: Option<ModeV>,
}

/// Validates and assembles a client configuration. Only the API key is
/// required; the endpoint defaults to the canonical Zotero host and the
/// protocol version to 3.
#[derive(Debug, Clone)]
pub struct ZoteroAPIBuilder {
    pub endpoint: Option<String>,
    pub version: Option<u8>,
    pub api_key: Option<String>,
    pub mode: Option<InteractionMode>,
}

impl View for ZoteroAPIBuilder {
    type V = BuilderV;

    open spec fn view(&self) -> BuilderV {
        BuilderV {
            endpoint: match self.endpoint {
                Some(e) => Some(e@),
                None => None,
            },
            version: self.version,
            api_key: match self.api_key {
                Some(k) => Some(k@),
                None => None,
            },
            mode: match self.mode {
                Some(m) => Some(m@),
                None => None,
            },
        }
    }
}

impl Default for ZoteroAPIBuilder {
    /// A builder with nothing set.
    fn default() -> (r: Self)
        ensures
            r@ == (BuilderV { endpoint: None, version: None, api_key: None, mode: None }),
    {
        ZoteroAPIBuilder { endpoint: None, version: None, api_key: None, mode: None }
    }
}

fn copy_mode(m: &Option<InteractionMode>) -> (r: Option<InteractionMode>)
    ensures
        r == *m,
{
    match m {
        None => None,
        Some(InteractionMode::User(id)) => Some(InteractionMode::User(id.clone())),
        Some(InteractionMode::Group(id)) => Some(InteractionMode::Group(id.clone())),
    }
}

impl ZoteroAPIBuilder {
    /// Set the API key. Required; the key's format is not validated here,
    /// since the API itself is the authority on it.
    pub fn api_key(&mut self, key: &str) -> (r: &mut Self)
        ensures
            *final(self) == *final(r),
            (*r)@ == (BuilderV { api_key: Some(key@), ..old(self)@ }),
    {
        self.api_key = Some(key.to_owned());
        self
    }

    /// Set the protocol version sent on every request. Defaults to 3.
    pub fn version(&mut self, v: u8) -> (r: &mut Self)
        ensures
            *final(self) == *final(r),
            (*r)@ == (BuilderV { version: Some(v), ..old(self)@ }),
    {
        self.version = Some(v);
        self
    }

    /// Set the library scope. Optional: an unscoped client can only compose
    /// the key-info request until a scope is set or resolved.
    pub fn mode(&mut self, mode: InteractionMode) -> (r: &mut Self)
        ensures
            *final(self) == *final(r),
            (*r)@ == (BuilderV { mode: Some(mode@), ..old(self)@ }),
    {
        self.mode = Some(mode);
        self
    }

    /// Parse `raw` as an absolute URL and set it as the endpoint, storing
    /// its normalized serialization. Fails with `InvalidEndpoint`, leaving
    /// the builder unchanged, exactly when `raw` does not parse.
    pub fn try_endpoint(&mut self, raw: &str) -> (r: Result<(), ZoteroError>)
        ensures
            r is Ok <==> norm_url(raw@) is Some,
            r matches Err(e) ==> e is InvalidEndpoint && *final(self) == *old(self),
            r is Ok ==> final(self)@ == (BuilderV {
                endpoint: Some(norm_url(raw@)->0),
                ..old(self)@
            }),
    {
        match parse_url(raw) {
            Some(u) => {
                self.endpoint = Some(u);
                Ok(())
            },
            None => Err(ZoteroError::InvalidEndpoint),
        }
    }

    /// Build the client. Fails with `MissingCredentials` exactly when no
    /// API key was set; every other field falls back to its default. Pure:
    /// no I/O happens here.
    pub fn build(&self) -> (r: Result<ZoteroAPI, ZoteroError>)
        ensures
            r is Ok <==> self@.api_key is Some,
            r matches Err(e) ==> e is MissingCredentials,
            r matches Ok(c) ==> c@ == (ClientV {
                endpoint: match self@.endpoint {
                    Some(e) => e,
                    None => default_endpoint_text(),
                },
                version: match self@.version {
                    Some(v) => v,
                    None => 3,
                },
                api_key: self@.api_key->0,
                mode: self@.mode,
            }),
    {
        match &self.api_key {
            None => Err(ZoteroError::MissingCredentials),
            Some(k) => {
                let endpoint = match &self.endpoint {
                    Some(e) => e.clone(),
                    None => String::from_str("https://api.zotero.org/"),
                };
                let version = match self.version {
                    Some(v) => v,
                    None => 3,
                };
                Ok(ZoteroAPI {
                    endpoint,
                    version,
                    api_key: k.clone(),
                    mode: copy_mode(&self.mode),
                })
            },
        }
    }
}

/// The view of the optional positional query pairs.
pub open spec fn opt_pairs_view(args: Option<&Vec<(String, String)>>) -> Option<
    Seq<(Seq<char>, Seq<char>)>,
> {
    match args {
        Some(v) => Some(string_pairs_view(v@)),
        None => None,
    }
}

/// The view of an optional raw string.
pub open spec fn opt_str_view(q: Option<&str>) -> Option<Seq<char>> {
    match q {
        Some(s) => Some(s@),
        None => None,
    }
}

/// The URL a scoped request addresses: the endpoint with its path replaced
/// by the scope prefix, the resource path joined on by relative-URL
/// resolution, then the positional pairs appended as query parameters, and
/// finally any raw query string set wholesale, overwriting them. `None`
/// when any step fails.
pub open spec fn composed_url(
    endpoint: Seq<char>,
    mode: ModeV,
    path: Seq<char>,
    args: Option<Seq<(Seq<char>, Seq<char>)>>,
    query: Option<Seq<char>>,
) -> Option<Seq<char>> {
    match with_path(endpoint, prefix_of(mode)) {
        None => None,
        Some(scoped) => match joined(scoped, path) {
            None => None,
            Some(j) => {
                let with_args = match args {
                    None => Some(j),
                    Some(a) => with_params(j, a),
                };
                match with_args {
                    None => None,
                    Some(u) => match query {
                        None => Some(u),
                        Some(q) => with_query(u, q),
                    },
                }
            },
        },
    }
}

/// The two headers every composed request carries: the protocol version and
/// the bearer authorization.
pub open spec fn auth_headers(version: u8, api_key: Seq<char>) -> Seq<(Seq<char>, Seq<char>)> {
    seq![
        ("Zotero-API-Version"@, decimal_digits(version as nat)),
        ("Authorization"@, "Bearer "@ + api_key),
    ]
}

/// Whether `name` is one of the two header names the client itself manages.
pub open spec fn is_auth_header_name(name: Seq<char>) -> bool {
    name == "Zotero-API-Version"@ || name == "Authorization"@
}

/// `headers` with every entry the client manages removed, the rest kept in
/// order: attaching the mandatory headers replaces stale entries, as a
/// keyed header map would, rather than appending duplicates.
pub open spec fn strip_auth_headers(headers: Seq<(Seq<char>, Seq<char>)>) -> Seq<
    (Seq<char>, Seq<char>),
>
    decreases headers.len(),
{
    if headers.len() == 0 {
        Seq::empty()
    } else {
        let rest = strip_auth_headers(headers.drop_last());
        if is_auth_header_name(headers.last().0) {
            rest
        } else {
            rest.push(headers.last())
        }
    }
}

proof fn lemma_strip_auth_concat(a: Seq<(Seq<char>, Seq<char>)>, b: Seq<(Seq<char>, Seq<char>)>)
    ensures
        strip_auth_headers(a + b) == strip_auth_headers(a) + strip_auth_headers(b),
    decreases b.len(),
{
    if b.len() == 0 {
        assert(a + b =~= a);
        assert(strip_auth_headers(a) + strip_auth_headers(b) =~= strip_auth_headers(a));
    } else {
        lemma_strip_auth_concat(a, b.drop_last());
        assert((a + b).drop_last() =~= a + b.drop_last());
        if !is_auth_header_name(b.last().0) {
            assert(strip_auth_headers(a) + strip_auth_headers(b) =~= (strip_auth_headers(a)
                + strip_auth_headers(b.drop_last())).push(b.last()));
        }
    }
}

proof fn lemma_strip_auth_idempotent(headers: Seq<(Seq<char>, Seq<char>)>)
    ensures
        strip_auth_headers(strip_auth_headers(headers)) == strip_auth_headers(headers),
    decreases headers.len(),
{
    if headers.len() == 0 {
    } else {
        lemma_strip_auth_idempotent(headers.drop_last());
        if !is_auth_header_name(headers.last().0) {
            let rest = strip_auth_headers(headers.drop_last());
            assert(rest.push(headers.last()).drop_last() =~= rest);
        }
    }
}

proof fn lemma_strip_auth_headers_of_auth(version: u8, api_key: Seq<char>)
    ensures
        strip_auth_headers(auth_headers(version, api_key)) == Seq::<(Seq<char>, Seq<char>)>::empty(),
{
    reveal_with_fuel(strip_auth_headers, 4);
    let ah = auth_headers(version, api_key);
    let d = ah.drop_last();
    assert(ah.last() == ("Authorization"@, "Bearer "@ + api_key));
    assert(d.len() == 1);
    assert(d.last() == ("Zotero-API-Version"@, decimal_digits(version as nat)));
    assert(d.drop_last() =~= Seq::<(Seq<char>, Seq<char>)>::empty());
    assert(strip_auth_headers(d) == Seq::<(Seq<char>, Seq<char>)>::empty());
    assert(strip_auth_headers(ah) == Seq::<(Seq<char>, Seq<char>)>::empty());
}

/// Header attachment is idempotent: attaching the mandatory headers to a
/// request that already carries them leaves exactly the header list of a
/// single attachment, for any prior headers, version and key.
pub proof fn lemma_header_attachment_idempotent(
    headers: Seq<(Seq<char>, Seq<char>)>,
    version: u8,
    api_key: Seq<char>,
)
    ensures
        strip_auth_headers(strip_auth_headers(headers) + auth_headers(version, api_key))
            + auth_headers(version, api_key) == strip_auth_headers(headers) + auth_headers(
            version,
            api_key,
        ),
{
    lemma_strip_auth_concat(strip_auth_headers(headers), auth_headers(version, api_key));
    lemma_strip_auth_idempotent(headers);
    lemma_strip_auth_headers_of_auth(version, api_key);
    assert(strip_auth_headers(strip_auth_headers(headers) + auth_headers(version, api_key))
        =~= strip_auth_headers(headers));
}

impl ZoteroAPI {
    /// Rewrite `req`'s URL to address `path` under this client's scope,
    /// with `args` appended as query parameters and `query`, when given,
    /// set as the raw query string, overwriting them.
    ///
    /// Fails fast with `NotBlankURLError` when `req` does not still sit at
    /// the bare endpoint (composing twice is a usage error, never a silent
    /// double append), with `ScopeRequired` when no scope is set, and with
    /// `InvalidAPICall` when URL resolution itself fails. On failure `req`
    /// is left untouched.
    pub fn set_url(
        &self,
        req: &mut Request,
        path: &str,
        args: Option<&Vec<(String, String)>>,
        query: Option<&str>,
    ) -> (r: Result<(), ZoteroError>)
        ensures
            old(req)@.url != self@.endpoint ==> (r matches Err(e) && e is NotBlankURLError),
            old(req)@.url == self@.endpoint && self.mode is None ==> (r matches Err(e)
                && e is ScopeRequired),
            old(req)@.url == self@.endpoint ==> (self.mode matches Some(m) ==> match composed_url(
                self@.endpoint,
                m@,
                path@,
                opt_pairs_view(args),
                opt_str_view(query),
            ) {
                Some(u) => r is Ok && final(req)@ == (RequestV { url: u, ..old(req)@ }),
                None => r matches Err(e) && e matches ZoteroError::InvalidAPICall { call }
                    && call@ == path@,
            }),
            r is Err ==> *final(req) == *old(req),
    {
        if !(req.url == self.endpoint) {
            return Err(ZoteroError::NotBlankURLError);
        }
        let mode = match &self.mode {
            None => {
                return Err(ZoteroError::ScopeRequired);
            },
            Some(m) => m,
        };
        let prefix = mode.prefix();
        let scoped = match url_with_path(self.endpoint.as_str(), prefix.as_str()) {
            Some(s) => s,
            None => {
                return Err(ZoteroError::InvalidAPICall { call: path.to_owned() });
            },
        };
        let joined_url = match join_url(scoped.as_str(), path) {
            Some(j) => j,
            None => {
                return Err(ZoteroError::InvalidAPICall { call: path.to_owned() });
            },
        };
        let with_args = match args {
            None => joined_url,
            Some(a) => match url_with_params(joined_url.as_str(), a) {
                Some(u) => u,
                None => {
                    return Err(ZoteroError::InvalidAPICall { call: path.to_owned() });
                },
            },
        };
        let full = match query {
            None => with_args,
            Some(q) => match url_with_query(with_args.as_str(), q) {
                Some(u) => u,
                None => {
                    return Err(ZoteroError::InvalidAPICall { call: path.to_owned() });
                },
            },
        };
        req.url = full;
        Ok(())
    }

    /// Attach the two mandatory headers, `Zotero-API-Version` and the
    /// bearer `Authorization`, to `req`, replacing any entries under those
    /// names (as a keyed header map would) so that repeated attachment
    /// never duplicates them. Fails with `InvalidCredentials`, leaving
    /// `req` untouched, exactly when the API key holds a character that no
    /// HTTP header value may carry.
    pub fn insert_headers(&self, req: &mut Request) -> (r: Result<(), ZoteroError>)
        ensures
            r is Ok <==> valid_header_value(self@.api_key),
            r matches Err(e) ==> e is InvalidCredentials && *final(req) == *old(req),
            r is Ok ==> final(req)@ == (RequestV {
                headers: strip_auth_headers(old(req)@.headers) + auth_headers(
                    self.version,
                    self@.api_key,
                ),
                ..old(req)@
            }),
    {
        if !check_header_value(self.api_key.as_str()) {
            return Err(ZoteroError::InvalidCredentials);
        }
        let mut bearer = String::from_str("Bearer ");
        bearer.append(self.api_key.as_str());
        let version_name = String::from_str("Zotero-API-Version");
        let auth_name = String::from_str("Authorization");
        let mut kept: Vec<(String, String)> = Vec::new();
        let mut i: usize = 0;
        while i < req.headers.len()
            invariant
                *req == *old(req),
                i <= req.headers@.len(),
                version_name@ == "Zotero-API-Version"@,
                auth_name@ == "Authorization"@,
                string_pairs_view(kept@) == strip_auth_headers(
                    string_pairs_view(req.headers@).take(i as int),
                ),
            decreases req.headers@.len() - i,
        {
            let ghost views = string_pairs_view(req.headers@);
            let ghost kept0 = kept@;
            let entry = &req.headers[i];
            if !(entry.0 == version_name) && !(entry.0 == auth_name) {
                kept.push((entry.0.clone(), entry.1.clone()));
            }
            proof {
                assert(views.take(i as int + 1).drop_last() =~= views.take(i as int));
                assert(views.take(i as int + 1).last() == views[i as int]);
                assert(views[i as int] == (req.headers@[i as int].0@, req.headers@[i as int].1@));
                assert(string_pairs_view(kept@) =~= strip_auth_headers(
                    views.take(i as int + 1),
                ));
            }
            i += 1;
        }
        proof {
            assert(string_pairs_view(req.headers@).take(req.headers@.len() as int)
                =~= string_pairs_view(req.headers@));
        }
        req.headers = kept;
        req.headers.push((version_name, u8_decimal(self.version)));
        req.headers.push((auth_name, bearer));
        proof {
            assert(string_pairs_view(req.headers@) =~= strip_auth_headers(old(req)@.headers)
                + auth_headers(self.version, self@.api_key));
            assert(final(req)@ =~= (RequestV {
                headers: strip_auth_headers(old(req)@.headers) + auth_headers(
                    self.version,
                    self@.api_key,
                ),
                ..old(req)@
            }));
        }
        Ok(())
    }

    /// Compose a ready-to-send request: the scoped URL for `path`, `args`
    /// and `query`, carrying the two mandatory headers and no body. No
    /// network I/O happens here.
    ///
    /// Fails with `ScopeRequired` when no scope is set, `InvalidAPICall`
    /// when URL resolution fails, and `InvalidCredentials` when the API key
    /// cannot be carried in a header.
    pub fn compose_request(
        &self,
        method: Method,
        path: &str,
        args: Option<&Vec<(String, String)>>,
        query: Option<&str>,
    ) -> (r: Result<Request, ZoteroError>)
        ensures
            self.mode is None ==> (r matches Err(e) && e is ScopeRequired),
            (self.mode matches Some(m) ==> match composed_url(
                self@.endpoint,
                m@,
                path@,
                opt_pairs_view(args),
                opt_str_view(query),
            ) {
                None => r matches Err(e) && e matches ZoteroError::InvalidAPICall { call }
                    && call@ == path@,
                Some(u) => if valid_header_value(self@.api_key) {
                    r matches Ok(req) && req@ == (RequestV {
                        method,
                        url: u,
                        headers: auth_headers(self.version, self@.api_key),
                        body: None,
                    })
                } else {
                    r matches Err(e) && e is InvalidCredentials
                },
            }),
    {
        let mut req = Request::new(method, self.endpoint.clone());
        match self.set_url(&mut req, path, args, query) {
            Err(e) => {
                return Err(e);
            },
            Ok(()) => {},
        }
        match self.insert_headers(&mut req) {
            Err(e) => {
                return Err(e);
            },
            Ok(()) => {},
        }
        proof {
            assert(strip_auth_headers(Seq::<(Seq<char>, Seq<char>)>::empty()) =~= Seq::<
                (Seq<char>, Seq<char>),
            >::empty());
            assert(req@.headers =~= auth_headers(self.version, self@.api_key));
        }
        Ok(req)
    }
}

/// The scope-independent relative path of the key-info resource.
pub open spec fn keys_path(api_key: Seq<char>) -> Seq<char> {
    "keys/"@ + api_key
}

impl ZoteroAPI {
    /// The key-info request: `GET {endpoint}/keys/{apiKey}`, resolved
    /// directly against the endpoint with no scope prefix and no headers.
    /// The response carries the `userID` field bound by
    /// [`Self::resolve_user_scope`].
    ///
    /// **Warning** (carried from the wire contract): the API key stands in
    /// the URL path, so it shows up in logs and proxies; prefer an
    /// OAuth-based flow where one is available.
    pub fn get_key_info(&self) -> (r: Result<Request, ZoteroError>)
        ensures
            r is Ok <==> joined(self@.endpoint, keys_path(self@.api_key)) is Some,
            r matches Ok(req) ==> req@ == (RequestV {
                method: Method::Get,
                url: joined(self@.endpoint, keys_path(self@.api_key))->0,
                headers: Seq::<(Seq<char>, Seq<char>)>::empty(),
                body: None,
            }),
            r matches Err(e) ==> e matches ZoteroError::InvalidAPICall { call } && call@
                == keys_path(self@.api_key),
    {
        let mut rel = String::from_str("keys/");
        rel.append(self.api_key.as_str());
        match join_url(self.endpoint.as_str(), rel.as_str()) {
            Some(u) => Ok(Request::new(Method::Get, u)),
            None => Err(ZoteroError::InvalidAPICall { call: rel }),
        }
    }

    /// Bind the library scope from a key-info response body: extract the
    /// `userID` member and return a client identical to this one except
    /// that its scope is `User` of that member. Fails with
    /// `DiscoveryFailed` exactly when the body is not JSON or has no
    /// `userID` member. Pure: the network round trip is the caller's.
    pub fn resolve_user_scope(&self, body: &str) -> (r: Result<ZoteroAPI, ZoteroError>)
        ensures
            r is Ok <==> json_member(body@, "userID"@) is Some,
            r matches Err(e) ==> e is DiscoveryFailed,
            r matches Ok(c) ==> c@ == (ClientV {
                mode: Some(ModeV::User(json_member(body@, "userID"@)->0)),
                ..self@
            }),
    {
        match json_member_text(body, "userID") {
            None => Err(ZoteroError::DiscoveryFailed),
            Some(id) => Ok(
                ZoteroAPI {
                    endpoint: self.endpoint.clone(),
                    version: self.version,
                    api_key: self.api_key.clone(),
                    mode: Some(InteractionMode::User(id)),
                },
            ),
        }
    }
}

/// The powers of two: the exponentially growing backoff intervals.
pub open spec fn pow2(e: nat) -> nat
    decreases e,
{
    if e == 0 {
        1
    } else {
        2 * pow2((e - 1) as nat)
    }
}

/// The backoff contract after a rate-limit or conflict response: the wait
/// before retry number `attempt` (counting from zero) in seconds, doubling
/// each time. Once the required wait would exceed 32 seconds the call must
/// fail permanently with `TooManyRetries` rather than wait further.
pub fn backoff_delay(attempt: u32) -> (r: Result<u32, ZoteroError>)
    ensures
        attempt <= 5 ==> (r matches Ok(d) && d == pow2(attempt as nat)),
        attempt > 5 ==> (r matches Err(e) && e is TooManyRetries),
{
    proof {
        reveal_with_fuel(pow2, 7);
    }
    match attempt {
        0 => Ok(1),
        1 => Ok(2),
        2 => Ok(4),
        3 => Ok(8),
        4 => Ok(16),
        5 => Ok(32),
        _ => Err(ZoteroError::TooManyRetries),
    }
}

/// Discovery idempotence: resolving the scope from the same key-info body
/// binds the same `User` scope, whichever clients it is applied to and
/// however often it is repeated.
pub proof fn lemma_discovery_idempotent(
    c1: &ZoteroAPI,
    c2: &ZoteroAPI,
    body: &str,
    r1: Result<ZoteroAPI, ZoteroError>,
    r2: Result<ZoteroAPI, ZoteroError>,
)
    requires
        call_ensures(ZoteroAPI::resolve_user_scope, (c1, body), r1),
        call_ensures(ZoteroAPI::resolve_user_scope, (c2, body), r2),
    ensures
        r1 is Ok <==> r2 is Ok,
        r1 matches Ok(a) ==> (r2 matches Ok(b) && a@.mode == b@.mode),
{
}

/// Header presence: every request `compose_request` returns carries exactly
/// the `Zotero-API-Version` header and a non-empty bearer `Authorization`
/// header, in that order.
pub proof fn lemma_composed_headers(
    c: &ZoteroAPI,
    method: Method,
    path: &str,
    args: Option<&Vec<(String, String)>>,
    query: Option<&str>,
    r: Result<Request, ZoteroError>,
)
    requires
        call_ensures(ZoteroAPI::compose_request, (c, method, path, args, query), r),
        r is Ok,
    ensures
        r->Ok_0@.headers.len() == 2,
        r->Ok_0@.headers[0].0 == "Zotero-API-Version"@,
        r->Ok_0@.headers[1].0 == "Authorization"@,
        r->Ok_0@.headers[1].1.len() > 0,
{
    reveal_strlit("Bearer ");
    assert(r->Ok_0@.headers =~= auth_headers(c.version, c@.api_key));
}

} // verus!\n