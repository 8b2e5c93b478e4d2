//! Translation of the built request into a transport-ready form: header
//! filtering, authorization resolution, and query-string assembly. The wire
//! call itself lives outside the crate; everything it is handed is computed
//! and specified here.

use vstd::prelude::*;

use crate::app::HttpMethod;
use crate::key_value::enabled_pairs;
use crate::key_value::KeyValueEntries;
use crate::key_value::KvEntryModel;
use crate::text::ascii_case_eq;
use crate::text::is_blank;
use crate::text::is_blank_str;
use crate::text::push_char;
use crate::text::str_eq_ignore_ascii_case;
use crate::text::trim_spec;
use crate::text::trimmed_string;
use base64::Engine as _;
use vstd::string::StringExecFns;

verus! {

/// A transport outcome: status code, response headers rendered as text, and
/// the (pretty-printed) response body.
#[derive(Debug)]
pub struct ApiResponse {
    pub status: u16,
    pub headers: String,
    pub body: String,
}

/// Whether a text is a legal HTTP header name.
pub uninterp spec fn header_name_ok(s: Seq<char>) -> bool;

/// Whether a text is a legal HTTP header value.
pub uninterp spec fn header_value_ok(s: Seq<char>) -> bool;

/// The percent-encoded form of a text; a function of the text alone.
pub uninterp spec fn url_encoded(s: Seq<char>) -> Seq<char>;

/// The standard (RFC 4648, padded) base64 encoding of a text's UTF-8 bytes;
/// a function of the text alone.
pub uninterp spec fn base64_std(s: Seq<char>) -> Seq<char>;

/// Relies on `reqwest::header::HeaderName::from_bytes` (the `http` crate's
/// validity check, the same bytes `from_str` checks): `Ok` exactly on legal
/// header names.
#[verifier::external_body]
pub(crate) fn is_valid_header_name(s: &str) -> (r: bool)
    ensures
        r == header_name_ok(s@),
{
    reqwest::header::HeaderName::from_bytes(s.as_bytes()).is_ok()
}

/// Relies on `reqwest::header::HeaderValue::from_str` (the `http` crate's
/// validity check): `Ok` exactly on legal header values.
#[verifier::external_body]
pub(crate) fn is_valid_header_value(s: &str) -> (r: bool)
    ensures
        r == header_value_ok(s@),
{
    reqwest::header::HeaderValue::from_str(s).is_ok()
}

/// Relies on `urlencoding::encode`: percent-encodes every byte except ASCII
/// alphanumerics and `-`, `_`, `.`, `~`; a function of the text alone.
#[verifier::external_body]
pub(crate) fn url_encode(s: &str) -> (r: String)
    ensures
        r@ == url_encoded(s@),
{
    urlencoding::encode(s).into_owned()
}

/// Relies on base64's `general_purpose::STANDARD` engine: the standard
/// alphabet with padding, over the text's UTF-8 bytes; a function of the
/// text alone.
#[verifier::external_body]
pub(crate) fn base64_encode(s: &str) -> (r: String)
    ensures
        r@ == base64_std(s@),
{
    base64::engine::general_purpose::STANDARD.encode(s.as_bytes())
}

/// The (key, value) pairs of the enabled rows whose key and value are legal
/// as an HTTP header, in order; other rows are silently skipped so that one
/// bad row does not block the whole request.
pub open spec fn valid_header_pairs(s: Seq<KvEntryModel>) -> Seq<(Seq<char>, Seq<char>)>
    decreases s.len(),
{
    if s.len() == 0 {
        Seq::empty()
    } else {
        let rest = valid_header_pairs(s.drop_first());
        if s[0].enabled && header_name_ok(s[0].key) && header_value_ok(s[0].value) {
            seq![(s[0].key, s[0].value)] + rest
        } else {
            rest
        }
    }
}

/// As [`valid_header_pairs`], but with key and value whitespace-trimmed
/// before the validity check — the form used at dispatch time.
pub open spec fn sendable_header_pairs(s: Seq<KvEntryModel>) -> Seq<(Seq<char>, Seq<char>)>
    decreases s.len(),
{
    if s.len() == 0 {
        Seq::empty()
    } else {
        let rest = sendable_header_pairs(s.drop_first());
        let k = trim_spec(s[0].key);
        let v = trim_spec(s[0].value);
        if s[0].enabled && header_name_ok(k) && header_value_ok(v) {
            seq![(k, v)] + rest
        } else {
            rest
        }
    }
}

pub proof fn lemma_valid_header_pairs_push(s: Seq<KvEntryModel>, e: KvEntryModel)
    ensures
        valid_header_pairs(s.push(e)) == valid_header_pairs(s) + (if e.enabled && header_name_ok(
            e.key,
        ) && header_value_ok(e.value) {
            seq![(e.key, e.value)]
        } else {
            Seq::<(Seq<char>, Seq<char>)>::empty()
        }),
    decreases s.len(),
{
    let tail: Seq<(Seq<char>, Seq<char>)> = if e.enabled && header_name_ok(e.key)
        && header_value_ok(e.value) {
        seq![(e.key, e.value)]
    } else {
        Seq::empty()
    };
    if s.len() == 0 {
        assert(s.push(e)[0] == e);
        assert(s.push(e).drop_first() =~= Seq::<KvEntryModel>::empty());
        assert(valid_header_pairs(Seq::<KvEntryModel>::empty())
            == Seq::<(Seq<char>, Seq<char>)>::empty());
        assert(s =~= Seq::<KvEntryModel>::empty());
        assert(valid_header_pairs(s.push(e)) =~= valid_header_pairs(s) + tail);
    } else {
        assert(s.push(e)[0] == s[0]);
        assert(s.push(e).drop_first() =~= s.drop_first().push(e));
        lemma_valid_header_pairs_push(s.drop_first(), e);
        assert(valid_header_pairs(s.push(e)) =~= valid_header_pairs(s) + tail);
    }
}

pub proof fn lemma_sendable_header_pairs_push(s: Seq<KvEntryModel>, e: KvEntryModel)
    ensures
        sendable_header_pairs(s.push(e)) == sendable_header_pairs(s) + (if e.enabled
            && header_name_ok(trim_spec(e.key)) && header_value_ok(trim_spec(e.value)) {
            seq![(trim_spec(e.key), trim_spec(e.value))]
        } else {
            Seq::<(Seq<char>, Seq<char>)>::empty()
        }),
    decreases s.len(),
{
    let tail: Seq<(Seq<char>, Seq<char>)> = if e.enabled && header_name_ok(trim_spec(e.key))
        && header_value_ok(trim_spec(e.value)) {
        seq![(trim_spec(e.key), trim_spec(e.value))]
    } else {
        Seq::empty()
    };
    if s.len() == 0 {
        assert(s.push(e)[0] == e);
        assert(s.push(e).drop_first() =~= Seq::<KvEntryModel>::empty());
        assert(sendable_header_pairs(Seq::<KvEntryModel>::empty())
            == Seq::<(Seq<char>, Seq<char>)>::empty());
        assert(s =~= Seq::<KvEntryModel>::empty());
        assert(sendable_header_pairs(s.push(e)) =~= sendable_header_pairs(s) + tail);
    } else {
        assert(s.push(e)[0] == s[0]);
        assert(s.push(e).drop_first() =~= s.drop_first().push(e));
        lemma_sendable_header_pairs_push(s.drop_first(), e);
        assert(sendable_header_pairs(s.push(e)) =~= sendable_header_pairs(s) + tail);
    }
}

/// One `key=value` fragment of a query string, both sides percent-encoded.
pub open spec fn query_fragment(p: (Seq<char>, Seq<char>)) -> Seq<char> {
    url_encoded(p.0) + seq!['='] + url_encoded(p.1)
}

/// The query string for the given pairs: fragments joined by `&`.
pub open spec fn query_string(pairs: Seq<(Seq<char>, Seq<char>)>) -> Seq<char>
    decreases pairs.len(),
{
    if pairs.len() == 0 {
        Seq::empty()
    } else if pairs.len() == 1 {
        query_fragment(pairs[0])
    } else {
        query_fragment(pairs[0]) + seq!['&'] + query_string(pairs.drop_first())
    }
}

pub proof fn lemma_query_string_push(pairs: Seq<(Seq<char>, Seq<char>)>, p: (Seq<char>, Seq<char>))
    ensures
        query_string(pairs.push(p)) == if pairs.len() == 0 {
            query_fragment(p)
        } else {
            query_string(pairs) + seq!['&'] + query_fragment(p)
        },
    decreases pairs.len(),
{
    if pairs.len() == 0 {
        assert(pairs.push(p).len() == 1);
        assert(pairs.push(p)[0] == p);
    } else if pairs.len() == 1 {
        assert(pairs.push(p)[0] == pairs[0]);
        assert(pairs.push(p).drop_first() =~= seq![p]);
        assert(query_string(seq![p]) == query_fragment(p));
    } else {
        assert(pairs.push(p)[0] == pairs[0]);
        assert(pairs.push(p).drop_first() =~= pairs.drop_first().push(p));
        lemma_query_string_push(pairs.drop_first(), p);
        assert(query_string(pairs.push(p)) =~= query_string(pairs) + seq!['&'] + query_fragment(
            p,
        ));
    }
}

/// The URL the request is sent to: the entered URL, with `?` and the query
/// string of the enabled parameter rows appended when there are any.
pub open spec fn request_url(url: Seq<char>, params: Seq<KvEntryModel>) -> Seq<char> {
    if enabled_pairs(params).len() == 0 {
        url
    } else {
        url + seq!['?'] + query_string(enabled_pairs(params))
    }
}

/// Whether a row key names the verbatim-authorization form.
pub open spec fn is_auth_key(k: Seq<char>) -> bool {
    ascii_case_eq(k, "Authorization"@) || ascii_case_eq(k, "Bearer"@)
}

/// Whether a row key names the API-key form.
pub open spec fn is_api_key(k: Seq<char>) -> bool {
    ascii_case_eq(k, "API-Key"@) || ascii_case_eq(k, "X-API-Key"@)
}

/// The four kinds of authorization rows the resolver recognizes.
#[derive(Debug, Clone, Copy, PartialEq, Eq, Structural)]
pub enum AuthRowKind {
    Bearer,
    ApiKey,
    Username,
    Password,
}

/// Whether a row is usable as the given kind: enabled, named for the kind,
/// and (where it is installed directly) legal as a header.
pub open spec fn auth_row_matches(e: KvEntryModel, kind: AuthRowKind) -> bool {
    e.enabled && match kind {
        AuthRowKind::Bearer => is_auth_key(e.key) && header_value_ok(e.value),
        AuthRowKind::ApiKey => is_api_key(e.key) && header_name_ok(e.key) && header_value_ok(
            e.value,
        ),
        AuthRowKind::Username => ascii_case_eq(e.key, "username"@),
        AuthRowKind::Password => ascii_case_eq(e.key, "password"@),
    }
}

/// The first row usable as the given kind — authorization resolution is
/// first-match-wins.
pub open spec fn first_auth_row(s: Seq<KvEntryModel>, kind: AuthRowKind) -> Option<KvEntryModel>
    decreases s.len(),
{
    if s.len() == 0 {
        None
    } else if auth_row_matches(s[0], kind) {
        Some(s[0])
    } else {
        first_auth_row(s.drop_first(), kind)
    }
}

/// The HTTP Basic credential for a username and password.
pub open spec fn basic_credential(u: Seq<char>, p: Seq<char>) -> Seq<char> {
    "Basic "@ + base64_std(u + seq![':'] + p)
}

/// The one concrete header the authorization tab resolves to, if any:
/// a verbatim `Authorization` row first, else an API-key row under its own
/// name, else a username/password pair as an HTTP Basic credential.
pub open spec fn auth_header(s: Seq<KvEntryModel>) -> Option<(Seq<char>, Seq<char>)> {
    match first_auth_row(s, AuthRowKind::Bearer) {
        Some(e) => Some(("Authorization"@, e.value)),
        None => match first_auth_row(s, AuthRowKind::ApiKey) {
            Some(e) => Some((e.key, e.value)),
            None => match (
                first_auth_row(s, AuthRowKind::Username),
                first_auth_row(s, AuthRowKind::Password),
            ) {
                (Some(u), Some(p)) => if header_value_ok(basic_credential(u.value, p.value)) {
                    Some(("Authorization"@, basic_credential(u.value, p.value)))
                } else {
                    None
                },
                _ => None,
            },
        },
    }
}

/// A request in the exact form handed to the transport: final URL, ordered
/// header pairs (authorization resolved), and the body when it is not blank.
#[derive(Debug)]
pub struct PreparedRequest {
    pub method: HttpMethod,
    pub url: String,
    pub headers: Vec<(String, String)>,
    pub body: Option<String>,
}

/// Mathematical model of a prepared request.
pub ghost struct PreparedModel {
    pub method: HttpMethod,
    pub url: Seq<char>,
    pub headers: Seq<(Seq<char>, Seq<char>)>,
    pub body: Option<Seq<char>>,
}

impl View for PreparedRequest {
    type V = PreparedModel;

    open spec fn view(&self) -> PreparedModel {
        PreparedModel {
            method: self.method,
            url: self.url@,
            headers: self.headers@.map_values(|p: (String, String)| (p.0@, p.1@)),
            body: match self.body {
                Some(b) => Some(b@),
                None => None,
            },
        }
    }
}

/// What dispatch hands to the transport, as a function of the current
/// request fields: trimmed-and-filtered header rows followed by the resolved
/// authorization header; the URL with the enabled parameters as a query
/// string; and the body exactly when it is not blank.
pub open spec fn prepared_model(
    method: HttpMethod,
    url: Seq<char>,
    headers: Seq<KvEntryModel>,
    params: Seq<KvEntryModel>,
    auth: Seq<KvEntryModel>,
    body: Seq<char>,
) -> PreparedModel {
    PreparedModel {
        method,
        url: request_url(url, params),
        headers: sendable_header_pairs(headers) + (match auth_header(auth) {
            Some(p) => seq![p],
            None => Seq::<(Seq<char>, Seq<char>)>::empty(),
        }),
        body: if is_blank(body) {
            None
        } else {
            Some(body)
        },
    }
}

/// The first authorization row of the given kind, as owned strings.
fn find_auth_row(t: &KeyValueEntries, kind: AuthRowKind) -> (r: Option<(String, String)>)
    ensures
        match first_auth_row(t@.entries, kind) {
            Some(e) => r matches Some(p) && p.0@ == e.key && p.1@ == e.value,
            None => r is None,
        },
{
    let mut i: usize = 0;
    proof {
        assert(t@.entries.skip(0) =~= t@.entries);
    }
    while i < t.entries.len()
        invariant
            0 <= i <= t.entries.len(),
            first_auth_row(t@.entries, kind) == first_auth_row(t@.entries.skip(i as int), kind),
        decreases t.entries.len() - i,
    {
        let ghost suffix = t@.entries.skip(i as int);
        proof {
            assert(suffix[0] == t@.entries[i as int]);
            assert(suffix.drop_first() =~= t@.entries.skip(i + 1));
        }
        let e = &t.entries[i];
        let hit = if !e.enabled {
            false
        } else {
            match kind {
                AuthRowKind::Bearer => (str_eq_ignore_ascii_case(e.key.as_str(), "Authorization")
                    || str_eq_ignore_ascii_case(e.key.as_str(), "Bearer"))
                    && is_valid_header_value(e.value.as_str()),
                AuthRowKind::ApiKey => (str_eq_ignore_ascii_case(e.key.as_str(), "API-Key")
                    || str_eq_ignore_ascii_case(e.key.as_str(), "X-API-Key"))
                    && is_valid_header_name(e.key.as_str()) && is_valid_header_value(
                    e.value.as_str(),
                ),
                AuthRowKind::Username => str_eq_ignore_ascii_case(e.key.as_str(), "username"),
                AuthRowKind::Password => str_eq_ignore_ascii_case(e.key.as_str(), "password"),
            }
        };
        if hit {
            assert(auth_row_matches(suffix[0], kind));
            return Some((e.key.clone(), e.value.clone()));
        }
        assert(!auth_row_matches(suffix[0], kind));
        i += 1;
    }
    proof {
        assert(t@.entries.skip(t.entries@.len() as int) =~= Seq::<KvEntryModel>::empty());
    }
    None
}

/// The resolved authorization header for the authorization tab, if any.
fn resolve_auth_header(auth: &KeyValueEntries) -> (r: Option<(String, String)>)
    ensures
        match auth_header(auth@.entries) {
            Some(h) => r matches Some(p) && p.0@ == h.0 && p.1@ == h.1,
            None => r is None,
        },
{
    match find_auth_row(auth, AuthRowKind::Bearer) {
        Some((_k, v)) => {
            let name = String::from_str("Authorization");
            Some((name, v))
        },
        None => match find_auth_row(auth, AuthRowKind::ApiKey) {
            Some((k, v)) => Some((k, v)),
            None => match (
                find_auth_row(auth, AuthRowKind::Username),
                find_auth_row(auth, AuthRowKind::Password),
            ) {
                (Some((_uk, uv)), Some((_pk, pv))) => {
                    let ghost uval = uv@;
                    let ghost pval = pv@;
                    let mut cred = uv;
                    push_char(&mut cred, ':');
                    cred.append(pv.as_str());
                    proof {
                        assert(cred@ =~= uval + seq![':'] + pval);
                    }
                    let encoded = base64_encode(cred.as_str());
                    let mut hv = String::from_str("Basic ");
                    hv.append(encoded.as_str());
                    if is_valid_header_value(hv.as_str()) {
                        let name = String::from_str("Authorization");
                        Some((name, hv))
                    } else {
                        None
                    }
                },
                _ => None,
            },
        },
    }
}

/// The header pairs sent at dispatch: enabled rows, trimmed, skipping any
/// row whose trimmed key or value is not legal as a header, followed by the
/// resolved authorization header.
fn build_header_pairs(headers: &KeyValueEntries, auth: &KeyValueEntries) -> (r: Vec<
    (String, String),
>)
    ensures
        r@.map_values(|p: (String, String)| (p.0@, p.1@)) == sendable_header_pairs(
            headers@.entries,
        ) + (match auth_header(auth@.entries) {
            Some(p) => seq![p],
            None => Seq::<(Seq<char>, Seq<char>)>::empty(),
        }),
{
    let mut out: Vec<(String, String)> = Vec::new();
    let mut i: usize = 0;
    while i < headers.entries.len()
        invariant
            0 <= i <= headers.entries.len(),
            out@.map_values(|p: (String, String)| (p.0@, p.1@)) =~= sendable_header_pairs(
                headers@.entries.take(i as int),
            ),
        decreases headers.entries.len() - i,
    {
        let ghost prefix = headers@.entries.take(i as int);
        let e = &headers.entries[i];
        if e.enabled {
            let k = trimmed_string(e.key.as_str());
            let v = trimmed_string(e.value.as_str());
            if is_valid_header_name(k.as_str()) && is_valid_header_value(v.as_str()) {
                out.push((k, v));
            }
        }
        proof {
            lemma_sendable_header_pairs_push(prefix, headers@.entries[i as int]);
            assert(headers@.entries.take(i + 1) =~= prefix.push(headers@.entries[i as int]));
            assert(out@.map_values(|p: (String, String)| (p.0@, p.1@)) =~= sendable_header_pairs(
                headers@.entries.take(i + 1),
            ));
        }
        i += 1;
    }
    proof {
        assert(headers@.entries.take(headers.entries@.len() as int) =~= headers@.entries);
    }
    match resolve_auth_header(auth) {
        Some((k, v)) => {
            out.push((k, v));
        },
        None => {},
    }
    out
}

/// The final URL: the entered URL, with the enabled parameter rows appended
/// as a percent-encoded query string when there are any.
fn build_url(url: &String, params: &KeyValueEntries) -> (r: String)
    ensures
        r@ == request_url(url@, params@.entries),
{
    let pairs = params.to_pairs();
    let ghost pair_models = enabled_pairs(params@.entries);
    if pairs.len() == 0 {
        proof {
            assert(pairs@.map_values(|p: (String, String)| (p.0@, p.1@)).len() == 0);
        }
        return url.clone();
    }
    let mut qs = String::new();
    let mut i: usize = 0;
    while i < pairs.len()
        invariant
            0 <= i <= pairs.len(),
            pairs@.map_values(|p: (String, String)| (p.0@, p.1@)) == pair_models,
            qs@ =~= query_string(pair_models.take(i as int)),
        decreases pairs.len() - i,
    {
        let ghost prefix = pair_models.take(i as int);
        if i > 0 {
            push_char(&mut qs, '&');
        }
        let ek = url_encode(pairs[i].0.as_str());
        qs.append(ek.as_str());
        push_char(&mut qs, '=');
        let ev = url_encode(pairs[i].1.as_str());
        qs.append(ev.as_str());
        proof {
            assert(pair_models[i as int] == (pairs@[i as int].0@, pairs@[i as int].1@));
            lemma_query_string_push(prefix, pair_models[i as int]);
            assert(pair_models.take(i + 1) =~= prefix.push(pair_models[i as int]));
            assert(qs@ =~= query_string(pair_models.take(i + 1)));
        }
        i += 1;
    }
    proof {
        assert(pair_models.take(pairs@.len() as int) =~= pair_models);
        assert(pair_models.len() > 0);
    }
    let mut full = url.clone();
    push_char(&mut full, '?');
    full.append(qs.as_str());
    full
}

/// Builds the exact request the transport is handed, from the current
/// request fields. Everything the wire call depends on — URL, query string,
/// headers, authorization, body presence — is fixed by this function's
/// contract.
pub fn build_request(
    method: HttpMethod,
    url: &String,
    headers: &KeyValueEntries,
    params: &KeyValueEntries,
    auth: &KeyValueEntries,
    body: String,
) -> (r: PreparedRequest)
    ensures
        r@ == prepared_model(method, url@, headers@.entries, params@.entries, auth@.entries, body@),
{
    let final_url = build_url(url, params);
    let header_pairs = build_header_pairs(headers, auth);
    let body_opt = if is_blank_str(body.as_str()) {
        None
    } else {
        Some(body)
    };
    let r = PreparedRequest { method, url: final_url, headers: header_pairs, body: body_opt };
    proof {
        assert(r@.headers =~= prepared_model(
            method,
            url@,
            headers@.entries,
            params@.entries,
            auth@.entries,
            body@,
        ).headers);
    }
    r
}

impl KeyValueEntries {
    /// The enabled rows legal as HTTP headers, untrimmed, in order — the
    /// lenient header view of a table: a malformed row is skipped, never an
    /// error.
    pub fn to_header_map(&self) -> (r: Vec<(String, String)>)
        ensures
            r@.map_values(|p: (String, String)| (p.0@, p.1@)) == valid_header_pairs(self@.entries),
    {
        let mut out: Vec<(String, String)> = Vec::new();
        let mut i: usize = 0;
        while i < self.entries.len()
            invariant
                0 <= i <= self.entries.len(),
                out@.map_values(|p: (String, String)| (p.0@, p.1@)) =~= valid_header_pairs(
                    self@.entries.take(i as int),
                ),
            decreases self.entries.len() - i,
        {
            let ghost prefix = self@.entries.take(i as int);
            let e = &self.entries[i];
            if e.enabled && is_valid_header_name(e.key.as_str()) && is_valid_header_value(
                e.value.as_str(),
            ) {
                out.push((e.key.clone(), e.value.clone()));
            }
            proof {
                lemma_valid_header_pairs_push(prefix, self@.entries[i as int]);
                assert(self@.entries.take(i + 1) =~= prefix.push(self@.entries[i as int]));
                assert(out@.map_values(|p: (String, String)| (p.0@, p.1@)) =~= valid_header_pairs(
                    self@.entries.take(i + 1),
                ));
            }
            i += 1;
        }
        proof {
            assert(self@.entries.take(self.entries@.len() as int) =~= self@.entries);
        }
        out
    }
}

} // verus!
