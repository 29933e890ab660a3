//! Builds a URL string for connecting to a Qlik Sense engine over
//! WebSockets.
//!
//! A [`UrlBuilder`] starts from an all-default configuration; each setter
//! validates, trims or encodes its own input at set time; [`UrlBuilder::build`]
//! composes the candidate string in a fixed order and validates it against
//! the URI grammar, returning either its canonical form or an
//! [`InvalidUrlError`].

use vstd::prelude::*;

use crate::encoding::decimal_of;
use crate::encoding::encoding_of;
use crate::encoding::percent_encode;
use crate::encoding::u32_decimal;
use crate::trim::trim_slashes;
use crate::trim::trimmed;
use crate::url_check::canonical_url;
use crate::url_check::check_url;

verus! {

/// The mutually exclusive path target: an explicit route, a named
/// application to open, or neither. Each of the two setters overwrites the
/// whole choice, so at most one of the two is ever active.
#[derive(Debug, Clone)]
pub enum PathTarget {
    Unset,
    Route(String),
    App(String),
}

/// The abstract value of a [`PathTarget`].
#[verifier::ext_equal]
pub enum PathTargetView {
    Unset,
    Route(Seq<char>),
    App(Seq<char>),
}

impl View for PathTarget {
    type V = PathTargetView;

    closed spec fn view(&self) -> PathTargetView {
        match self {
            PathTarget::Unset => PathTargetView::Unset,
            PathTarget::Route(r) => PathTargetView::Route(r@),
            PathTarget::App(a) => PathTargetView::App(a@),
        }
    }
}

/// The abstract value of a [`UrlBuilder`]: every stored attribute, with
/// strings already trimmed or percent-encoded as their setters leave them.
#[verifier::ext_equal]
pub struct UrlBuilderView {
    pub secure: bool,
    pub host: Seq<char>,
    pub port: Option<u32>,
    pub prefix: Option<Seq<char>>,
    pub subpath: Option<Seq<char>>,
    pub target: PathTargetView,
    pub identity: Option<Seq<char>>,
    pub ttl: Option<u32>,
    pub params: Seq<(Seq<char>, Seq<char>)>,
}

/// Builds a URL string for connecting to a Qlik Sense engine over
/// WebSockets. Internally uses the URI grammar to validate that the URL is
/// well formed.
#[derive(Debug, Clone)]
pub struct UrlBuilder {
    secure: bool,
    host: String,
    port: Option<u32>,
    prefix: Option<String>,
    subpath: Option<String>,
    target: PathTarget,
    identity: Option<String>,
    ttl: Option<u32>,
    params: Vec<(String, String)>,
}

/// The single error of this library: the composed string failed
/// well-formed-URI parsing. It carries the parser's diagnostic.
#[derive(Debug, Clone)]
pub struct InvalidUrlError {
    pub message: String,
}

spec fn view_opt(o: &Option<String>) -> Option<Seq<char>> {
    match o {
        Some(s) => Some(s@),
        None => None,
    }
}

impl View for UrlBuilder {
    type V = UrlBuilderView;

    closed spec fn view(&self) -> UrlBuilderView {
        UrlBuilderView {
            secure: self.secure,
            host: self.host@,
            port: self.port,
            prefix: view_opt(&self.prefix),
            subpath: view_opt(&self.subpath),
            target: self.target@,
            identity: view_opt(&self.identity),
            ttl: self.ttl,
            params: pairs_view(self.params@),
        }
    }
}

/// The all-default configuration a fresh builder holds.
pub open spec fn spec_new() -> UrlBuilderView {
    UrlBuilderView {
        secure: false,
        host: Seq::empty(),
        port: None,
        prefix: None,
        subpath: None,
        target: PathTargetView::Unset,
        identity: None,
        ttl: None,
        params: Seq::empty(),
    }
}

/// What setting the hostname does: the stored host becomes the
/// boundary-trimmed input.
pub open spec fn spec_with_hostname(v: UrlBuilderView, hostname: Seq<char>) -> UrlBuilderView {
    UrlBuilderView { host: trimmed(hostname), ..v }
}

/// What selecting the scheme does.
pub open spec fn spec_with_secure(v: UrlBuilderView, secure: bool) -> UrlBuilderView {
    UrlBuilderView { secure, ..v }
}

/// What setting the port does: stored as given; an out-of-range value
/// surfaces only as a validation failure at build time.
pub open spec fn spec_with_port(v: UrlBuilderView, port: u32) -> UrlBuilderView {
    UrlBuilderView { port: Some(port), ..v }
}

/// What setting the application id does: the id is percent-encoded and
/// becomes the whole path target, discarding any earlier route.
pub open spec fn spec_with_app_id(v: UrlBuilderView, app_id: Seq<char>) -> UrlBuilderView {
    UrlBuilderView { target: PathTargetView::App(encoding_of(app_id)), ..v }
}

/// What setting the proxy prefix does: boundary trimming only.
pub open spec fn spec_with_prefix(v: UrlBuilderView, prefix: Seq<char>) -> UrlBuilderView {
    UrlBuilderView { prefix: Some(trimmed(prefix)), ..v }
}

/// What setting the identity does: percent-encoded like the application id.
pub open spec fn spec_with_identity(v: UrlBuilderView, identity: Seq<char>) -> UrlBuilderView {
    UrlBuilderView { identity: Some(encoding_of(identity)), ..v }
}

/// What setting the sub-path does: boundary trimming only.
pub open spec fn spec_with_subpath(v: UrlBuilderView, subpath: Seq<char>) -> UrlBuilderView {
    UrlBuilderView { subpath: Some(trimmed(subpath)), ..v }
}

/// What setting the route does: the route is boundary-trimmed and becomes
/// the whole path target, discarding any earlier application id.
pub open spec fn spec_with_route(v: UrlBuilderView, route: Seq<char>) -> UrlBuilderView {
    UrlBuilderView { target: PathTargetView::Route(trimmed(route)), ..v }
}

/// What setting the keep-alive TTL does.
pub open spec fn spec_with_ttl(v: UrlBuilderView, ttl: u32) -> UrlBuilderView {
    UrlBuilderView { ttl: Some(ttl), ..v }
}

/// The given pairs with key and value percent-encoded, in order.
pub open spec fn encoded_pairs(pairs: Seq<(Seq<char>, Seq<char>)>) -> Seq<(Seq<char>, Seq<char>)>
    decreases pairs.len(),
{
    if pairs.len() == 0 {
        Seq::empty()
    } else {
        encoded_pairs(pairs.drop_last()).push(
            (encoding_of(pairs.last().0), encoding_of(pairs.last().1)),
        )
    }
}

/// What appending extra query parameters does: each pair is encoded and
/// appended after the ones already stored; order is kept and duplicate
/// keys are permitted.
pub open spec fn spec_with_params(
    v: UrlBuilderView,
    pairs: Seq<(Seq<char>, Seq<char>)>,
) -> UrlBuilderView {
    UrlBuilderView { params: v.params + encoded_pairs(pairs), ..v }
}

/// The abstract value of a list of string pairs.
pub open spec fn pairs_view(pairs: Seq<(String, String)>) -> Seq<(Seq<char>, Seq<char>)> {
    pairs.map_values(|p: (String, String)| (p.0@, p.1@))
}

/// The scheme the composed URL starts with.
pub open spec fn scheme_part(secure: bool) -> Seq<char> {
    if secure {
        "wss://"@
    } else {
        "ws://"@
    }
}

/// The host written into the URL: the stored host, or `localhost` where it
/// was never set or was set to an empty string.
pub open spec fn host_part(host: Seq<char>) -> Seq<char> {
    if host.len() == 0 {
        "localhost"@
    } else {
        host
    }
}

/// `:port`, where a port is set.
pub open spec fn port_part(port: Option<u32>) -> Seq<char> {
    match port {
        Some(p) => ":"@ + decimal_of(p as nat),
        None => Seq::empty(),
    }
}

/// `/segment`, where the optional piece is set.
pub open spec fn segment_part(segment: Option<Seq<char>>) -> Seq<char> {
    match segment {
        Some(s) => "/"@ + s,
        None => Seq::empty(),
    }
}

/// The path target's contribution: `/route`, `/app/{id}`, or nothing.
pub open spec fn target_part(target: PathTargetView) -> Seq<char> {
    match target {
        PathTargetView::Unset => Seq::empty(),
        PathTargetView::Route(r) => "/"@ + r,
        PathTargetView::App(a) => "/app/"@ + a,
    }
}

/// `/identity/{identity}`, where an identity is set.
pub open spec fn identity_part(identity: Option<Seq<char>>) -> Seq<char> {
    match identity {
        Some(s) => "/identity/"@ + s,
        None => Seq::empty(),
    }
}

/// `/ttl/{ttl}`, where a TTL is set.
pub open spec fn ttl_part(ttl: Option<u32>) -> Seq<char> {
    match ttl {
        Some(n) => "/ttl/"@ + decimal_of(n as nat),
        None => Seq::empty(),
    }
}

/// The query pairs joined with `=` and `&`, in insertion order.
pub open spec fn query_items(pairs: Seq<(Seq<char>, Seq<char>)>) -> Seq<char>
    decreases pairs.len(),
{
    if pairs.len() == 0 {
        Seq::empty()
    } else if pairs.len() == 1 {
        pairs[0].0 + "="@ + pairs[0].1
    } else {
        query_items(pairs.drop_last()) + "&"@ + pairs.last().0 + "="@ + pairs.last().1
    }
}

/// The query string, present only where at least one pair was added.
pub open spec fn query_part(pairs: Seq<(Seq<char>, Seq<char>)>) -> Seq<char> {
    if pairs.len() == 0 {
        Seq::empty()
    } else {
        "?"@ + query_items(pairs)
    }
}

/// The candidate string `build` composes, part by part in its fixed order.
pub open spec fn compose(v: UrlBuilderView) -> Seq<char> {
    scheme_part(v.secure) + host_part(v.host) + port_part(v.port) + segment_part(v.prefix)
        + segment_part(v.subpath) + target_part(v.target) + identity_part(v.identity) + ttl_part(
        v.ttl,
    ) + query_part(v.params)
}

/// What `build` returns for a configuration: the canonical form of the
/// composed candidate, or nothing where the URI grammar rejects it.
pub open spec fn build_spec(v: UrlBuilderView) -> Option<Seq<char>> {
    canonical_url(compose(v))
}

impl UrlBuilder {
    /// Create a new `UrlBuilder` holding the all-default configuration.
    pub fn new() -> (r: UrlBuilder)
        ensures
            r@ == spec_new(),
    {
        let r = UrlBuilder {
            secure: false,
            host: String::new(),
            port: None,
            prefix: None,
            subpath: None,
            target: PathTarget::Unset,
            identity: None,
            ttl: None,
            params: Vec::new(),
        };
        proof {
            assert(r@ =~~= spec_new());
        }
        r
    }

    /// Sets the hostname, boundary-trimmed of `/`. Whether the host is
    /// acceptable to the URI grammar is checked only at build time.
    pub fn with_hostname(self, hostname: &str) -> (r: UrlBuilder)
        ensures
            r@ == spec_with_hostname(self@, hostname@),
    {
        let r = UrlBuilder { host: trim_slashes(hostname), ..self };
        proof {
            assert(r@ =~~= spec_with_hostname(self@, hostname@));
        }
        r
    }

    /// Sets whether to use secure WebSockets (`wss`). Default false (`ws`).
    pub fn with_secure(self, secure: bool) -> (r: UrlBuilder)
        ensures
            r@ == spec_with_secure(self@, secure),
    {
        let r = UrlBuilder { secure, ..self };
        proof {
            assert(r@ =~~= spec_with_secure(self@, secure));
        }
        r
    }

    /// Sets the port. No range check happens here: a value the URI grammar
    /// rejects surfaces as an error at build time.
    pub fn with_port(self, port: u32) -> (r: UrlBuilder)
        ensures
            r@ == spec_with_port(self@, port),
    {
        let r = UrlBuilder { port: Some(port), ..self };
        proof {
            assert(r@ =~~= spec_with_port(self@, port));
        }
        r
    }

    /// Sets the id of the app to be opened in the session, percent-encoded.
    /// Overwrites any route chosen earlier.
    pub fn with_app_id(self, app_id: &str) -> (r: UrlBuilder)
        ensures
            r@ == spec_with_app_id(self@, app_id@),
    {
        let r = UrlBuilder { target: PathTarget::App(percent_encode(app_id)), ..self };
        proof {
            assert(r@ =~~= spec_with_app_id(self@, app_id@));
        }
        r
    }

    /// Sets a base absolute path to be used with a proxy prefix,
    /// boundary-trimmed of `/`.
    pub fn with_prefix(self, prefix: &str) -> (r: UrlBuilder)
        ensures
            r@ == spec_with_prefix(self@, prefix@),
    {
        let r = UrlBuilder { prefix: Some(trim_slashes(prefix)), ..self };
        proof {
            assert(r@ =~~= spec_with_prefix(self@, prefix@));
        }
        r
    }

    /// Sets an identity (session id) to use, percent-encoded.
    pub fn with_identity(self, identity: &str) -> (r: UrlBuilder)
        ensures
            r@ == spec_with_identity(self@, identity@),
    {
        let r = UrlBuilder { identity: Some(percent_encode(identity)), ..self };
        proof {
            assert(r@ =~~= spec_with_identity(self@, identity@));
        }
        r
    }

    /// Sets the sub-path used to reach a specific backend service,
    /// boundary-trimmed of `/`.
    pub fn with_subpath(self, subpath: &str) -> (r: UrlBuilder)
        ensures
            r@ == spec_with_subpath(self@, subpath@),
    {
        let r = UrlBuilder { subpath: Some(trim_slashes(subpath)), ..self };
        proof {
            assert(r@ =~~= spec_with_subpath(self@, subpath@));
        }
        r
    }

    /// Sets the initial route to open the WebSocket against,
    /// boundary-trimmed of `/`. Overwrites any application id chosen
    /// earlier.
    pub fn with_route(self, route: &str) -> (r: UrlBuilder)
        ensures
            r@ == spec_with_route(self@, route@),
    {
        let r = UrlBuilder { target: PathTarget::Route(trim_slashes(route)), ..self };
        proof {
            assert(r@ =~~= spec_with_route(self@, route@));
        }
        r
    }

    /// Sets how many seconds the engine should keep the session alive
    /// after a socket disconnect. No upper bound is enforced here.
    pub fn with_ttl(self, ttl: u32) -> (r: UrlBuilder)
        ensures
            r@ == spec_with_ttl(self@, ttl),
    {
        let r = UrlBuilder { ttl: Some(ttl), ..self };
        proof {
            assert(r@ =~~= spec_with_ttl(self@, ttl));
        }
        r
    }

    /// Appends extra query parameters, each key and value percent-encoded,
    /// preserving call order; keys are not deduplicated or sorted.
    pub fn with_params(self, params: &Vec<(String, String)>) -> (r: UrlBuilder)
        ensures
            r@ == spec_with_params(self@, pairs_view(params@)),
    {
        let ghost orig = self@;
        let ghost pv = pairs_view(params@);
        let mut b = self;
        proof {
            assert(encoded_pairs(pv.take(0)) =~= Seq::<(Seq<char>, Seq<char>)>::empty());
            assert(b@.params + encoded_pairs(pv.take(0)) =~= b@.params);
        }
        let mut k: usize = 0;
        while k < params.len()
            invariant
                k <= params@.len(),
                pv == pairs_view(params@),
                b@.secure == orig.secure,
                b@.host == orig.host,
                b@.port == orig.port,
                b@.prefix == orig.prefix,
                b@.subpath == orig.subpath,
                b@.target == orig.target,
                b@.identity == orig.identity,
                b@.ttl == orig.ttl,
                b@.params == orig.params + encoded_pairs(pv.take(k as int)),
            decreases params@.len() - k,
        {
            let key = percent_encode(params[k].0.as_str());
            let value = percent_encode(params[k].1.as_str());
            let ghost before = b@;
            b.params.push((key, value));
            proof {
                assert(b@.params =~= before.params.push((key@, value@)));
                assert(pv.take(k + 1 as int).drop_last() =~= pv.take(k as int));
                assert(pv.take(k + 1 as int).last() == pv[k as int]);
                assert(pv[k as int] == (params@[k as int].0@, params@[k as int].1@));
                assert(b@.params =~= orig.params + encoded_pairs(pv.take(k + 1 as int)));
            }
            k = k + 1;
        }
        proof {
            assert(pv.take(params@.len() as int) =~= pv);
            assert(b@ =~~= spec_with_params(orig, pv));
        }
        b
    }

    /// Creates the URL string from the configuration. The composed
    /// candidate is validated against the URI grammar: the canonical form
    /// is returned, or an [`InvalidUrlError`] where the grammar rejects it.
    pub fn build(&self) -> (r: Result<String, InvalidUrlError>)
        ensures
            r is Ok <==> build_spec(self@) is Some,
            r matches Ok(u) ==> Some(u@) == build_spec(self@),
    {
        let candidate = self.compose_string();
        match check_url(candidate.as_str()) {
            Ok(u) => Ok(u),
            Err(message) => Err(InvalidUrlError { message }),
        }
    }

    /// Writes out the candidate string, part by part in the fixed order.
    #[verifier::rlimit(100)]
    fn compose_string(&self) -> (r: String)
        ensures
            r@ == compose(self@),
    {
        let ghost v = self@;
        let mut url = String::new();
        if self.secure {
            url.append("wss://");
        } else {
            url.append("ws://");
        }
        let ghost s1 = scheme_part(v.secure);
        proof {
            assert(url@ =~= s1);
        }
        if self.host.as_str().is_empty() {
            url.append("localhost");
        } else {
            url.append(self.host.as_str());
        }
        let ghost s2 = s1 + host_part(v.host);
        proof {
            assert(url@ =~= s2);
        }
        match self.port {
            Some(p) => {
                url.append(":");
                let d = u32_decimal(p);
                url.append(d.as_str());
            },
            None => {},
        }
        let ghost s3 = s2 + port_part(v.port);
        proof {
            assert(url@ =~= s3);
        }
        match &self.prefix {
            Some(p) => {
                url.append("/");
                url.append(p.as_str());
            },
            None => {},
        }
        let ghost s4 = s3 + segment_part(v.prefix);
        proof {
            assert(url@ =~= s4);
        }
        match &self.subpath {
            Some(p) => {
                url.append("/");
                url.append(p.as_str());
            },
            None => {},
        }
        let ghost s5 = s4 + segment_part(v.subpath);
        proof {
            assert(url@ =~= s5);
        }
        match &self.target {
            PathTarget::Unset => {},
            PathTarget::Route(route) => {
                url.append("/");
                url.append(route.as_str());
            },
            PathTarget::App(app_id) => {
                url.append("/app/");
                url.append(app_id.as_str());
            },
        }
        let ghost s6 = s5 + target_part(v.target);
        proof {
            assert(url@ =~= s6);
        }
        match &self.identity {
            Some(identity) => {
                url.append("/identity/");
                url.append(identity.as_str());
            },
            None => {},
        }
        let ghost s7 = s6 + identity_part(v.identity);
        proof {
            assert(url@ =~= s7);
        }
        match self.ttl {
            Some(t) => {
                url.append("/ttl/");
                let d = u32_decimal(t);
                url.append(d.as_str());
            },
            None => {},
        }
        let ghost s8 = s7 + ttl_part(v.ttl);
        proof {
            assert(url@ =~= s8);
        }
        if self.params.len() > 0 {
            url.append("?");
            let mut k: usize = 0;
            while k < self.params.len()
                invariant
                    v == self@,
                    k <= self.params@.len(),
                    k == 0 ==> url@ == s8 + "?"@,
                    k > 0 ==> url@ == s8 + "?"@ + query_items(v.params.take(k as int)),
                decreases self.params@.len() - k,
            {
                if k > 0 {
                    url.append("&");
                }
                url.append(self.params[k].0.as_str());
                url.append("=");
                url.append(self.params[k].1.as_str());
                proof {
                    assert(v.params.take(k + 1 as int).drop_last() =~= v.params.take(k as int));
                    assert(v.params.take(k + 1 as int).last() == v.params[k as int]);
                    assert(url@ =~= s8 + "?"@ + query_items(v.params.take(k + 1 as int)));
                }
                k = k + 1;
            }
            proof {
                assert(v.params.take(self.params@.len() as int) =~= v.params);
            }
        }
        proof {
            assert(url@ =~= s8 + query_part(v.params));
            assert(url@ =~= compose(v));
        }
        url
    }
}

impl Default for UrlBuilder {
    /// The all-default configuration, the same one `new` returns.
    fn default() -> (r: UrlBuilder)
        ensures
            r@ == spec_new(),
    {
        UrlBuilder::new()
    }
}

/// Law: an all-slash or empty hostname input configures the builder
/// exactly as if the hostname had never been set, so the composed URL
/// falls back to `localhost`.
pub proof fn lemma_empty_hostname_falls_back(v: UrlBuilderView, hostname: Seq<char>)
    requires
        trimmed(hostname).len() == 0,
    ensures
        spec_with_hostname(v, hostname) == spec_with_hostname(v, spec_new().host),
        compose(spec_with_hostname(v, hostname)) == compose(spec_with_hostname(v, spec_new().host)),
        host_part(spec_with_hostname(v, hostname).host) == "localhost"@,
{
    assert(trimmed(hostname) =~= Seq::<char>::empty());
    assert(trimmed(spec_new().host) =~= Seq::<char>::empty());
    assert(spec_with_hostname(v, hostname) =~~= spec_with_hostname(v, spec_new().host));
}

/// Law: choosing a route discards a previously chosen application id
/// completely — the configuration is the same as if the application id
/// had never been set.
pub proof fn lemma_route_overwrites_app_id(v: UrlBuilderView, app_id: Seq<char>, route: Seq<char>)
    ensures
        spec_with_route(spec_with_app_id(v, app_id), route) == spec_with_route(v, route),
        build_spec(spec_with_route(spec_with_app_id(v, app_id), route)) == build_spec(
            spec_with_route(v, route),
        ),
{
    assert(spec_with_route(spec_with_app_id(v, app_id), route) =~~= spec_with_route(v, route));
}

/// Law: choosing an application id discards a previously chosen route
/// completely — the configuration is the same as if the route had never
/// been set.
pub proof fn lemma_app_id_overwrites_route(v: UrlBuilderView, route: Seq<char>, app_id: Seq<char>)
    ensures
        spec_with_app_id(spec_with_route(v, route), app_id) == spec_with_app_id(v, app_id),
        build_spec(spec_with_app_id(spec_with_route(v, route), app_id)) == build_spec(
            spec_with_app_id(v, app_id),
        ),
{
    assert(spec_with_app_id(spec_with_route(v, route), app_id) =~~= spec_with_app_id(v, app_id));
}

/// Law: finalization is a function of the configuration alone, so two
/// builds with no mutation in between return identical strings.
pub proof fn lemma_build_idempotent(v: UrlBuilderView, u1: Seq<char>, u2: Seq<char>)
    requires
        build_spec(v) == Some(u1),
        build_spec(v) == Some(u2),
    ensures
        u1 == u2,
{
}

/// Law: the candidate composed from the default configuration is exactly
/// `ws://localhost`; the canonical URL the default build returns is its
/// validated form.
pub proof fn lemma_default_compose()
    ensures
        compose(spec_new()) == "ws://localhost"@,
{
    reveal_strlit("ws://");
    reveal_strlit("localhost");
    reveal_strlit("ws://localhost");
    assert(compose(spec_new()) =~= "ws://localhost"@);
}

} // verus!
