//! The typed settings the gateway's CORS layer is built from: each planned
//! list's entries parsed into HTTP origins, methods or header names, with the
//! entries that do not parse set aside for a warning, and a list none of whose
//! entries parse left unset.
use vstd::prelude::*;

use axum::http::{HeaderName, HeaderValue, Method};

use crate::gateway::cors::{present_values, texts, CorsList, CorsPlan};
use crate::text::owned;

verus! {

#[verifier::external_type_specification]
#[verifier::external_body]
pub struct ExHeaderValue(HeaderValue);

#[verifier::external_type_specification]
#[verifier::external_body]
pub struct ExMethod(Method);

#[verifier::external_type_specification]
#[verifier::external_body]
pub struct ExHeaderName(HeaderName);

/// Whether `c` is an HTTP token character (`tchar`): a letter, a digit, or
/// one of ``!#$%&'*+-.^_`|~``.
pub open spec fn is_tchar(c: char) -> bool {
    ||| ('a' <= c && c <= 'z')
    ||| ('A' <= c && c <= 'Z')
    ||| ('0' <= c && c <= '9')
    ||| c == '!' || c == '#' || c == '$' || c == '%' || c == '&' || c == '\'' || c == '*'
    ||| c == '+' || c == '-' || c == '.' || c == '^' || c == '_' || c == '`' || c == '|' || c == '~'
}

/// Whether `HeaderValue::from_str` accepts `s`: every character is a tab, or
/// neither an ASCII control character nor DEL.
pub open spec fn valid_header_value(s: Seq<char>) -> bool {
    forall|i: int| 0 <= i < s.len() ==> (s[i] == '\t' || (' ' <= #[trigger] s[i] && s[i] != '\u{7f}'))
}

/// Whether `Method::from_str` accepts `s`: non-empty, all token characters.
pub open spec fn valid_method(s: Seq<char>) -> bool {
    s.len() > 0 && forall|i: int| 0 <= i < s.len() ==> is_tchar(#[trigger] s[i])
}

/// Whether `HeaderName::from_str` accepts `s`: 1 to 65535 characters, all
/// token characters.
pub open spec fn valid_header_name(s: Seq<char>) -> bool {
    0 < s.len() <= 65535 && forall|i: int| 0 <= i < s.len() ==> is_tchar(#[trigger] s[i])
}

/// The header value `HeaderValue::from_str` makes of `s`.
pub uninterp spec fn header_value_of(s: Seq<char>) -> HeaderValue;

/// The method `Method::from_str` makes of `s`.
pub uninterp spec fn method_of(s: Seq<char>) -> Method;

/// The header name `HeaderName::from_str` makes of `s`.
pub uninterp spec fn header_name_of(s: Seq<char>) -> HeaderName;

/// What parsing `s` as an origin gives.
pub open spec fn origin_parse(s: Seq<char>) -> Option<HeaderValue> {
    if valid_header_value(s) {
        Some(header_value_of(s))
    } else {
        None
    }
}

/// What parsing `s` as a method gives.
pub open spec fn method_parse(s: Seq<char>) -> Option<Method> {
    if valid_method(s) {
        Some(method_of(s))
    } else {
        None
    }
}

/// What parsing `s` as a header name gives.
pub open spec fn header_parse(s: Seq<char>) -> Option<HeaderName> {
    if valid_header_name(s) {
        Some(header_name_of(s))
    } else {
        None
    }
}

/// `HeaderValue::from_str`: the parsed value, or `None` when `s` holds a
/// control character other than tab, or DEL.
#[verifier::external_body]
fn parse_header_value(s: &str) -> (r: Option<HeaderValue>)
    ensures
        r is Some <==> valid_header_value(s@),
        r matches Some(v) ==> v == header_value_of(s@),
{
    s.parse::<HeaderValue>().ok()
}

/// `Method::from_str`: the parsed method, or `None` when `s` is empty or holds
/// a character that is not a token character.
#[verifier::external_body]
fn parse_method(s: &str) -> (r: Option<Method>)
    ensures
        r is Some <==> valid_method(s@),
        r matches Some(v) ==> v == method_of(s@),
{
    s.parse::<Method>().ok()
}

/// `HeaderName::from_str`: the parsed name, or `None` when `s` is empty,
/// longer than 65535 characters, or holds a character that is not a token
/// character.
#[verifier::external_body]
fn parse_header_name(s: &str) -> (r: Option<HeaderName>)
    ensures
        r is Some <==> valid_header_name(s@),
        r matches Some(v) ==> v == header_name_of(s@),
{
    s.parse::<HeaderName>().ok()
}

/// How one CORS list is set on the layer.
#[derive(Debug)]
pub enum ListSetting<T> {
    /// Any value.
    Any,
    /// Exactly these values.
    Only(Vec<T>),
    /// Not set: no entry parsed.
    Unset,
}

/// One list's setting and the configured entries that did not parse.
#[derive(Debug)]
pub struct ParsedList<T> {
    pub setting: ListSetting<T>,
    pub skipped: Vec<String>,
}

/// The entries of `entries` that `parse` rejects.
pub open spec fn rejected<T>(entries: Seq<Seq<char>>, parse: spec_fn(Seq<char>) -> Option<T>) -> Seq<Seq<char>>
    decreases entries.len(),
{
    if entries.len() == 0 {
        Seq::empty()
    } else {
        let rest = rejected(entries.drop_last(), parse);
        if parse(entries.last()) is None {
            rest.push(entries.last())
        } else {
            rest
        }
    }
}

/// Whether `p` sets the planned list `list`, parsing entries with `parse`:
/// any value for a wildcard list; otherwise the values of the entries that
/// parse, in order, or nothing when none does. The entries that do not parse
/// are the skipped ones.
pub open spec fn settles<T>(list: CorsList, parse: spec_fn(Seq<char>) -> Option<T>, p: ParsedList<T>) -> bool {
    match list {
        CorsList::Any => p.setting is Any && p.skipped@.len() == 0,
        CorsList::Entries(v) => {
            let kept = present_values(texts(v@).map_values(parse));
            &&& texts(p.skipped@) == rejected(texts(v@), parse)
            &&& if kept.len() == 0 {
                p.setting is Unset
            } else {
                p.setting matches ListSetting::Only(w) && w@ == kept
            }
        },
    }
}

/// Parses one planned list with `parse` (whose results are `spec_parse`).
fn settle<T, F: Fn(&str) -> Option<T>>(list: &CorsList, parse: F, Ghost(spec_parse): Ghost<spec_fn(Seq<char>) -> Option<T>>) -> (p: ParsedList<T>)
    requires
        forall|s: &str| #[trigger] parse.requires((s,)),
        forall|s: &str, r: Option<T>| #[trigger] parse.ensures((s,), r) ==> r == spec_parse(s@),
    ensures
        settles(*list, spec_parse, p),
{
    match list {
        CorsList::Any => ParsedList { setting: ListSetting::Any, skipped: Vec::new() },
        CorsList::Entries(v) => {
            let ghost all = texts(v@);
            let mut kept: Vec<T> = Vec::new();
            let mut skipped: Vec<String> = Vec::new();
            let mut i: usize = 0;
            while i < v.len()
                invariant
                    i <= v@.len(),
                    all == texts(v@),
                    forall|s: &str| #[trigger] parse.requires((s,)),
                    forall|s: &str, r: Option<T>| #[trigger] parse.ensures((s,), r) ==> r == spec_parse(s@),
                    kept@ == present_values(all.take(i as int).map_values(spec_parse)),
                    texts(skipped@) == rejected(all.take(i as int), spec_parse),
                decreases v@.len() - i,
            {
                let ghost before_kept = kept@;
                let ghost before_skipped = texts(skipped@);
                let entry = v[i].as_str();
                let r = parse(entry);
                proof {
                    let step = all.take(i + 1);
                    assert(step.drop_last() =~= all.take(i as int));
                    assert(step.last() == v@[i as int]@);
                    assert(step.map_values(spec_parse).drop_last() =~= all.take(i as int).map_values(spec_parse));
                    assert(step.map_values(spec_parse).last() == spec_parse(v@[i as int]@));
                }
                match r {
                    Some(value) => kept.push(value),
                    None => {
                        skipped.push(owned(entry));
                        assert(texts(skipped@) =~= before_skipped.push(v@[i as int]@));
                    },
                }
                i = i + 1;
            }
            proof {
                assert(all.take(v@.len() as int) =~= all);
            }
            if kept.len() == 0 {
                ParsedList { setting: ListSetting::Unset, skipped }
            } else {
                ParsedList { setting: ListSetting::Only(kept), skipped }
            }
        },
    }
}

/// The typed settings of the CORS layer.
#[derive(Debug)]
pub struct CorsLayerSettings {
    pub origins: ParsedList<HeaderValue>,
    pub methods: ParsedList<Method>,
    pub headers: ParsedList<HeaderName>,
    pub exposed: ParsedList<HeaderName>,
    pub allow_credentials: bool,
    pub max_age_seconds: Option<u64>,
}

/// Parses the layer plan's lists into typed settings: origins as header
/// values, methods as methods, request and exposed headers as header names;
/// credentials and the preflight lifetime as planned.
pub fn layer_settings(plan: &CorsPlan) -> (s: CorsLayerSettings)
    ensures
        settles(plan.origins, |t: Seq<char>| origin_parse(t), s.origins),
        settles(plan.methods, |t: Seq<char>| method_parse(t), s.methods),
        settles(plan.headers, |t: Seq<char>| header_parse(t), s.headers),
        settles(plan.exposed, |t: Seq<char>| header_parse(t), s.exposed),
        s.allow_credentials == plan.allow_credentials,
        s.max_age_seconds == plan.max_age_seconds,
{
    let origin = |t: &str| -> (r: Option<HeaderValue>)
        ensures
            r == origin_parse(t@),
        { parse_header_value(t) };
    let method = |t: &str| -> (r: Option<Method>)
        ensures
            r == method_parse(t@),
        { parse_method(t) };
    let header = |t: &str| -> (r: Option<HeaderName>)
        ensures
            r == header_parse(t@),
        { parse_header_name(t) };
    let exposed = |t: &str| -> (r: Option<HeaderName>)
        ensures
            r == header_parse(t@),
        { parse_header_name(t) };
    CorsLayerSettings {
        origins: settle(&plan.origins, origin, Ghost(|t: Seq<char>| origin_parse(t))),
        methods: settle(&plan.methods, method, Ghost(|t: Seq<char>| method_parse(t))),
        headers: settle(&plan.headers, header, Ghost(|t: Seq<char>| header_parse(t))),
        exposed: settle(&plan.exposed, exposed, Ghost(|t: Seq<char>| header_parse(t))),
        allow_credentials: plan.allow_credentials,
        max_age_seconds: plan.max_age_seconds,
    }
}

} // verus!
