//! Cookie parsing and cookie jar management.
//!
//! A [`CookieJar`] is built from the inbound cookie header lines, hands
//! out cookies by name, and records every addition and removal as a
//! delta, so that exactly the changed cookies are serialized back as
//! `Set-Cookie` response headers.

use vstd::prelude::*;

use crate::text::{
    dec_spec, find_char, find_in_str, lemma_find_char, str_eq, trim_spec, trim_str, u64_to_dec,
};

verus! {

/// The `SameSite` cookie attribute: `CrossSite` serializes as the
/// provider-required literal `None`, making the cookie cross-site-sendable.
#[derive(Debug, Clone, Copy, PartialEq, Eq, Structural)]
pub enum SameSitePolicy {
    Strict,
    Lax,
    CrossSite,
}

/// One cookie: a name/value pair with the response attributes this
/// library emits. Parsed inbound cookies carry only name and value.
#[derive(Debug, Clone)]
pub struct Cookie {
    pub name: String,
    pub value: String,
    pub path: Option<String>,
    pub http_only: bool,
    pub secure: bool,
    pub same_site: Option<SameSitePolicy>,
    pub max_age: Option<u64>,
}

/// The mathematical image of a [`Cookie`].
pub ghost struct CookieModel {
    pub name: Seq<char>,
    pub value: Seq<char>,
    pub path: Option<Seq<char>>,
    pub http_only: bool,
    pub secure: bool,
    pub same_site: Option<SameSitePolicy>,
    pub max_age: Option<u64>,
}

impl View for Cookie {
    type V = CookieModel;

    open spec fn view(&self) -> CookieModel {
        CookieModel {
            name: self.name@,
            value: self.value@,
            path: (match self.path {
                Some(p) => Some(p@),
                None => None,
            }),
            http_only: self.http_only,
            secure: self.secure,
            same_site: self.same_site,
            max_age: self.max_age,
        }
    }
}

impl Cookie {
    /// A bare name/value cookie, as the parser produces.
    pub open spec fn plain_spec(name: Seq<char>, value: Seq<char>) -> CookieModel {
        CookieModel {
            name,
            value,
            path: None,
            http_only: false,
            secure: false,
            same_site: None,
            max_age: None,
        }
    }

    /// Copies the cookie, field by field.
    pub fn duplicate(&self) -> (r: Cookie)
        ensures
            r@ == self@,
    {
        Cookie {
            name: self.name.clone(),
            value: self.value.clone(),
            path: (match &self.path {
                Some(p) => Some(p.clone()),
                None => None,
            }),
            http_only: self.http_only,
            secure: self.secure,
            same_site: self.same_site,
            max_age: self.max_age,
        }
    }

    /// Builds a bare name/value cookie with no attributes.
    pub fn plain(name: String, value: String) -> (r: Cookie)
        ensures
            r@ == Self::plain_spec(name@, value@),
    {
        Cookie {
            name,
            value,
            path: None,
            http_only: false,
            secure: false,
            same_site: None,
            max_age: None,
        }
    }
}

// ---------------------------------------------------------------------------
// The cookie header grammar: segments split on ';', each trimmed; a segment
// is a cookie when it has an '=' with a nonempty name before it; anything
// else is silently dropped.
// ---------------------------------------------------------------------------

/// The segments of a header line, split on `;`.
pub open spec fn split_semis(s: Seq<char>) -> Seq<Seq<char>>
    decreases s.len(),
    via split_semis_dec
{
    let i = find_char(s, ';');
    if i < 0 {
        seq![s]
    } else {
        seq![s.take(i)] + split_semis(s.skip(i + 1))
    }
}

#[via_fn]
proof fn split_semis_dec(s: Seq<char>) {
    lemma_find_char(s, ';');
}

/// The cookie a single segment parses to, or `None` when malformed.
pub open spec fn parse_segment_spec(seg: Seq<char>) -> Option<CookieModel> {
    let t = trim_spec(seg);
    let i = find_char(t, '=');
    if i < 0 {
        None
    } else {
        let name = trim_spec(t.take(i));
        let value = trim_spec(t.skip(i + 1));
        if name.len() == 0 {
            None
        } else {
            Some(Cookie::plain_spec(name, value))
        }
    }
}

/// The cookies of a segment list, in order, malformed segments dropped.
pub open spec fn parse_segments(segs: Seq<Seq<char>>) -> Seq<CookieModel>
    decreases segs.len(),
{
    if segs.len() == 0 {
        Seq::empty()
    } else {
        (match parse_segment_spec(segs[0]) {
            Some(c) => seq![c],
            None => Seq::empty(),
        }) + parse_segments(segs.drop_first())
    }
}

/// The cookies of one header line.
pub open spec fn parse_header_spec(s: Seq<char>) -> Seq<CookieModel> {
    parse_segments(split_semis(s))
}

/// The cookies of a list of header lines, concatenated in order.
pub open spec fn parse_headers_spec(lines: Seq<Seq<char>>) -> Seq<CookieModel>
    decreases lines.len(),
{
    if lines.len() == 0 {
        Seq::empty()
    } else {
        parse_header_spec(lines[0]) + parse_headers_spec(lines.drop_first())
    }
}

/// The models of a cookie sequence.
pub open spec fn cookies_view(v: Seq<Cookie>) -> Seq<CookieModel> {
    v.map_values(|c: Cookie| c@)
}

/// Parses one segment; `None` when it is not a name/value pair.
fn parse_segment(seg: &str) -> (r: Option<Cookie>)
    ensures
        (match r {
            Some(c) => parse_segment_spec(seg@) == Some(c@),
            None => parse_segment_spec(seg@) is None,
        }),
{
    let t = trim_str(seg);
    let tn = t.unicode_len();
    match find_in_str(t, '=') {
        None => None,
        Some(i) => {
            proof {
                lemma_find_char(t@, '=');
            }
            let name_part = t.substring_char(0, i);
            proof {
                assert(name_part@ =~= t@.take(i as int));
            }
            let name = trim_str(name_part);
            if name.unicode_len() == 0 {
                None
            } else {
                let value_part = t.substring_char(i + 1, tn);
                proof {
                    assert(value_part@ =~= t@.skip(i as int + 1));
                }
                let value = trim_str(value_part);
                Some(Cookie::plain(name.to_owned(), value.to_owned()))
            }
        },
    }
}

/// Parses one cookie header line into its well-formed cookies.
fn parse_cookie_header(s: &str) -> (r: Vec<Cookie>)
    ensures
        cookies_view(r@) == parse_header_spec(s@),
    decreases s@.len(),
{
    proof {
        lemma_find_char(s@, ';');
    }
    let n = s.unicode_len();
    match find_in_str(s, ';') {
        None => {
            let mut v: Vec<Cookie> = Vec::new();
            match parse_segment(s) {
                Some(c) => {
                    v.push(c);
                },
                None => {},
            }
            proof {
                assert(split_semis(s@) =~= seq![s@]);
                assert(split_semis(s@).drop_first() =~= Seq::<Seq<char>>::empty());
                assert(parse_segments(Seq::<Seq<char>>::empty()) =~= Seq::<CookieModel>::empty());
                assert(cookies_view(v@) =~= parse_header_spec(s@));
            }
            v
        },
        Some(i) => {
            let head = s.substring_char(0, i);
            let tail = s.substring_char(i + 1, n);
            proof {
                assert(head@ =~= s@.take(i as int));
                assert(tail@ =~= s@.skip(i as int + 1));
            }
            let mut v: Vec<Cookie> = Vec::new();
            match parse_segment(head) {
                Some(c) => {
                    v.push(c);
                },
                None => {},
            }
            let mut rest = parse_cookie_header(tail);
            let ghost head_part = cookies_view(v@);
            let ghost rest_part = cookies_view(rest@);
            v.append(&mut rest);
            proof {
                let segs = split_semis(s@);
                assert(segs == seq![s@.take(i as int)] + split_semis(s@.skip(i as int + 1)));
                assert(segs[0] == s@.take(i as int));
                assert(segs.drop_first() =~= split_semis(s@.skip(i as int + 1)));
                assert(cookies_view(v@) =~= head_part + rest_part);
                assert(cookies_view(v@) =~= parse_header_spec(s@));
            }
            v
        },
    }
}

// ---------------------------------------------------------------------------
// Serialization of one cookie as a Set-Cookie header value.
// ---------------------------------------------------------------------------

/// The serialized attribute suffix of a cookie.
pub open spec fn serialize_attrs_spec(c: CookieModel) -> Seq<char> {
    (match c.path {
        Some(p) => "; Path="@ + p,
        None => Seq::empty(),
    }) + (if c.http_only {
        "; HttpOnly"@
    } else {
        Seq::empty()
    }) + (if c.secure {
        "; Secure"@
    } else {
        Seq::empty()
    }) + (match c.same_site {
        Some(SameSitePolicy::Strict) => "; SameSite=Strict"@,
        Some(SameSitePolicy::Lax) => "; SameSite=Lax"@,
        Some(SameSitePolicy::CrossSite) => "; SameSite=None"@,
        None => Seq::empty(),
    }) + (match c.max_age {
        Some(n) => "; Max-Age="@ + dec_spec(n as nat),
        None => Seq::empty(),
    })
}

/// The full `Set-Cookie` header value of a cookie.
pub open spec fn serialize_cookie_spec(c: CookieModel) -> Seq<char> {
    c.name + "="@ + c.value + serialize_attrs_spec(c)
}

/// Serializes the attribute suffix of a cookie.
#[verifier::rlimit(50)]
fn serialize_attrs(c: &Cookie) -> (r: String)
    ensures
        r@ == serialize_attrs_spec(c@),
{
    let mut s: String = String::new();
    match &c.path {
        Some(p) => {
            s.append("; Path=");
            s.append(p.as_str());
        },
        None => {},
    }
    if c.http_only {
        s.append("; HttpOnly");
    }
    if c.secure {
        s.append("; Secure");
    }
    match c.same_site {
        Some(SameSitePolicy::Strict) => {
            s.append("; SameSite=Strict");
        },
        Some(SameSitePolicy::Lax) => {
            s.append("; SameSite=Lax");
        },
        Some(SameSitePolicy::CrossSite) => {
            s.append("; SameSite=None");
        },
        None => {},
    }
    match c.max_age {
        Some(n) => {
            s.append("; Max-Age=");
            let d = u64_to_dec(n);
            s.append(d.as_str());
        },
        None => {},
    }
    proof {
        assert(s@ =~= serialize_attrs_spec(c@));
    }
    s
}

/// Serializes a cookie with its full attribute set.
pub fn serialize_cookie(c: &Cookie) -> (r: String)
    ensures
        r@ == serialize_cookie_spec(c@),
{
    let mut s: String = c.name.clone();
    s.append("=");
    s.append(c.value.as_str());
    let attrs = serialize_attrs(c);
    s.append(attrs.as_str());
    proof {
        assert(s@ =~= serialize_cookie_spec(c@));
    }
    s
}

// ---------------------------------------------------------------------------
// The jar: inbound cookies plus a delta of changes, serialized back as
// Set-Cookie headers.
// ---------------------------------------------------------------------------

/// One recorded change: a cookie added, or a removal expressed as the
/// clearing cookie the response will carry.
#[derive(Debug, Clone)]
pub enum DeltaEntry {
    Added(Cookie),
    Removed(Cookie),
}

/// The mathematical image of a [`DeltaEntry`].
pub ghost struct DeltaModel {
    pub removed: bool,
    pub cookie: CookieModel,
}

impl View for DeltaEntry {
    type V = DeltaModel;

    open spec fn view(&self) -> DeltaModel {
        match self {
            DeltaEntry::Added(c) => DeltaModel { removed: false, cookie: c@ },
            DeltaEntry::Removed(c) => DeltaModel { removed: true, cookie: c@ },
        }
    }
}

/// The mathematical image of a [`CookieJar`]: the cookies the request
/// carried and the changes recorded since.
pub ghost struct JarModel {
    pub original: Seq<CookieModel>,
    pub delta: Seq<DeltaModel>,
}

/// The models of a delta entry sequence.
pub open spec fn deltas_view(v: Seq<DeltaEntry>) -> Seq<DeltaModel> {
    v.map_values(|d: DeltaEntry| d@)
}

/// The models of a string sequence.
pub open spec fn strings_view(v: Seq<String>) -> Seq<Seq<char>> {
    v.map_values(|s: String| s@)
}

/// A jar with no inbound cookies and no changes.
pub open spec fn empty_jar() -> JarModel {
    JarModel { original: Seq::empty(), delta: Seq::empty() }
}

/// The inbound cookie named `name`; on duplicates the later one wins.
pub open spec fn orig_find(orig: Seq<CookieModel>, name: Seq<char>) -> Option<CookieModel>
    decreases orig.len(),
{
    if orig.len() == 0 {
        None
    } else if orig.last().name == name {
        Some(orig.last())
    } else {
        orig_find(orig.drop_last(), name)
    }
}

/// The latest recorded change for `name`, if any.
pub open spec fn delta_find(delta: Seq<DeltaModel>, name: Seq<char>) -> Option<DeltaModel>
    decreases delta.len(),
{
    if delta.len() == 0 {
        None
    } else if delta.last().cookie.name == name {
        Some(delta.last())
    } else {
        delta_find(delta.drop_last(), name)
    }
}

/// The cookie the jar currently holds under `name`: the latest change
/// wins over the inbound cookie, and a removal hides it.
pub open spec fn jar_get(j: JarModel, name: Seq<char>) -> Option<CookieModel> {
    match delta_find(j.delta, name) {
        Some(d) => if d.removed {
            None
        } else {
            Some(d.cookie)
        },
        None => orig_find(j.original, name),
    }
}

/// The delta without any change recorded for `name`.
pub open spec fn delta_remove_name(delta: Seq<DeltaModel>, name: Seq<char>) -> Seq<DeltaModel>
    decreases delta.len(),
{
    if delta.len() == 0 {
        Seq::empty()
    } else {
        let rest = delta_remove_name(delta.drop_last(), name);
        if delta.last().cookie.name == name {
            rest
        } else {
            rest.push(delta.last())
        }
    }
}

/// The jar after adding `c`: any earlier change for the same name is
/// superseded.
pub open spec fn jar_add(j: JarModel, c: CookieModel) -> JarModel {
    JarModel {
        original: j.original,
        delta: delta_remove_name(j.delta, c.name).push(DeltaModel { removed: false, cookie: c }),
    }
}

/// The clearing cookie a removal emits: same name and path, empty
/// value, immediate expiry.
pub open spec fn clearing_of(c: CookieModel) -> CookieModel {
    CookieModel {
        name: c.name,
        value: Seq::empty(),
        path: c.path,
        http_only: false,
        secure: false,
        same_site: None,
        max_age: Some(0),
    }
}

/// The jar after removing `c` by name: an inbound cookie needs a
/// clearing header, a cookie only added since is simply dropped.
pub open spec fn jar_remove(j: JarModel, c: CookieModel) -> JarModel {
    if orig_find(j.original, c.name) is Some {
        JarModel {
            original: j.original,
            delta: delta_remove_name(j.delta, c.name).push(
                DeltaModel { removed: true, cookie: clearing_of(c) },
            ),
        }
    } else {
        JarModel { original: j.original, delta: delta_remove_name(j.delta, c.name) }
    }
}

/// The `Set-Cookie` header values a jar emits: one per recorded change,
/// never an unchanged inbound cookie.
pub open spec fn jar_headers(j: JarModel) -> Seq<Seq<char>> {
    j.delta.map_values(|d: DeltaModel| serialize_cookie_spec(d.cookie))
}

/// A cookie jar: the inbound cookies of one request plus the changes
/// recorded since. Consumed at response time, every change becomes one
/// `Set-Cookie` header.
#[derive(Debug, Clone)]
pub struct CookieJar {
    original: Vec<Cookie>,
    delta: Vec<DeltaEntry>,
}

impl View for CookieJar {
    type V = JarModel;

    closed spec fn view(&self) -> JarModel {
        JarModel { original: cookies_view(self.original@), delta: deltas_view(self.delta@) }
    }
}

impl CookieJar {
    /// Creates a new empty jar.
    pub fn new() -> (r: Self)
        ensures
            r@ == empty_jar(),
    {
        let r = CookieJar { original: Vec::new(), delta: Vec::new() };
        proof {
            assert(r@.original =~= empty_jar().original);
            assert(r@.delta =~= empty_jar().delta);
        }
        r
    }

    /// Parses zero or more cookie header lines into a jar with no
    /// recorded changes; malformed segments are silently dropped.
    pub fn from_headers(headers: &Vec<String>) -> (r: Self)
        ensures
            r@.original == parse_headers_spec(strings_view(headers@)),
            r@.delta == Seq::<DeltaModel>::empty(),
    {
        let mut original: Vec<Cookie> = Vec::new();
        let n = headers.len();
        let mut i: usize = 0;
        while i < n
            invariant
                0 <= i <= n,
                n == headers@.len(),
                cookies_view(original@) == parse_headers_spec(strings_view(headers@.take(i as int))),
            decreases n - i,
        {
            let mut parsed = parse_cookie_header(headers[i].as_str());
            let ghost before = cookies_view(original@);
            let ghost line = headers@[i as int]@;
            original.append(&mut parsed);
            proof {
                let lines1 = strings_view(headers@.take(i as int + 1));
                assert(lines1.drop_last() =~= strings_view(headers@.take(i as int)));
                assert(lines1.last() == line);
                lemma_parse_headers_snoc(lines1);
                assert(cookies_view(original@) =~= before + parse_header_spec(line));
            }
            i = i + 1;
        }
        let r = CookieJar { original, delta: Vec::new() };
        proof {
            assert(headers@.take(n as int) =~= headers@);
            assert(r@.delta =~= Seq::<DeltaModel>::empty());
        }
        r
    }

    /// Gets the cookie currently held under `name`, if any.
    pub fn get(&self, name: &str) -> (r: Option<&Cookie>)
        ensures
            (match r {
                Some(c) => jar_get(self@, name@) == Some(c@),
                None => jar_get(self@, name@) is None,
            }),
    {
        let dn = self.delta.len();
        proof {
            assert(self.delta@.take(dn as int) =~= self.delta@);
        }
        let mut i: usize = dn;
        while i > 0
            invariant
                0 <= i <= dn,
                dn == self.delta@.len(),
                delta_find(self@.delta, name@) == delta_find(
                    deltas_view(self.delta@.take(i as int)),
                    name@,
                ),
            decreases i,
        {
            let entry_name: &String = match &self.delta[i - 1] {
                DeltaEntry::Added(c) => &c.name,
                DeltaEntry::Removed(c) => &c.name,
            };
            let ghost prefix = deltas_view(self.delta@.take(i as int));
            proof {
                assert(prefix.last() == self.delta@[i as int - 1]@);
                assert(prefix.drop_last() =~= deltas_view(self.delta@.take(i as int - 1)));
            }
            if str_eq(entry_name.as_str(), name) {
                match &self.delta[i - 1] {
                    DeltaEntry::Added(c) => {
                        return Some(c);
                    },
                    DeltaEntry::Removed(_) => {
                        return None;
                    },
                }
            }
            i = i - 1;
        }
        proof {
            assert(self.delta@.take(0) =~= Seq::<DeltaEntry>::empty());
            assert(deltas_view(self.delta@.take(0)) =~= Seq::<DeltaModel>::empty());
        }
        // no recorded change for this name: fall back to the inbound cookies
        let on = self.original.len();
        proof {
            assert(self.original@.take(on as int) =~= self.original@);
        }
        let mut k: usize = on;
        while k > 0
            invariant
                0 <= k <= on,
                on == self.original@.len(),
                delta_find(self@.delta, name@) is None,
                orig_find(self@.original, name@) == orig_find(
                    cookies_view(self.original@.take(k as int)),
                    name@,
                ),
            decreases k,
        {
            let ghost prefix = cookies_view(self.original@.take(k as int));
            proof {
                assert(prefix.last() == self.original@[k as int - 1]@);
                assert(prefix.drop_last() =~= cookies_view(self.original@.take(k as int - 1)));
            }
            let c = &self.original[k - 1];
            if str_eq(c.name.as_str(), name) {
                return Some(c);
            }
            k = k - 1;
        }
        proof {
            assert(cookies_view(self.original@.take(0)) =~= Seq::<CookieModel>::empty());
        }
        None
    }

    /// Adds a cookie, superseding any earlier change for the same name;
    /// the change will be emitted as one `Set-Cookie` header.
    pub fn add(self, cookie: Cookie) -> (r: Self)
        ensures
            r@ == jar_add(self@, cookie@),
    {
        let filtered = filter_delta(&self.delta, cookie.name.as_str());
        let mut delta = filtered;
        delta.push(DeltaEntry::Added(cookie));
        let r = CookieJar { original: self.original, delta };
        proof {
            assert(r@.delta =~= jar_add(self@, cookie@).delta);
        }
        r
    }

    /// Removes the cookie named as `cookie`: an inbound cookie gets a
    /// clearing `Set-Cookie` header, one only added since is dropped.
    pub fn remove(self, cookie: Cookie) -> (r: Self)
        ensures
            r@ == jar_remove(self@, cookie@),
    {
        let filtered = filter_delta(&self.delta, cookie.name.as_str());
        let in_original = orig_contains(&self.original, cookie.name.as_str());
        if in_original {
            let clearing = Cookie {
                name: cookie.name,
                value: String::new(),
                path: cookie.path,
                http_only: false,
                secure: false,
                same_site: None,
                max_age: Some(0),
            };
            let mut delta = filtered;
            delta.push(DeltaEntry::Removed(clearing));
            let r = CookieJar { original: self.original, delta };
            proof {
                assert(r@.delta =~= jar_remove(self@, cookie@).delta);
            }
            r
        } else {
            let r = CookieJar { original: self.original, delta: filtered };
            proof {
                assert(r@.delta =~= jar_remove(self@, cookie@).delta);
            }
            r
        }
    }

    /// What holds of the partially collected current cookies: sound
    /// (each collected cookie is what the jar answers for its name),
    /// names pairwise distinct, every collected cookie's name among the
    /// visited names, and every visited name that the jar answers
    /// already collected.
    spec fn iter_inv(j: JarModel, out: Seq<Cookie>, names: Seq<String>) -> bool {
        &&& (forall|i: int|
            0 <= i < out.len() ==> jar_get(j, (#[trigger] out[i])@.name) == Some(out[i]@))
        &&& (forall|i: int, k: int|
            0 <= i < k < out.len() ==> (#[trigger] out[i])@.name != (#[trigger] out[k])@.name)
        &&& (forall|i: int|
            0 <= i < out.len() ==> (exists|m: int|
                0 <= m < names.len() && (#[trigger] names[m])@ == (#[trigger] out[i])@.name))
        &&& (forall|m: int|
            0 <= m < names.len() && jar_get(j, (#[trigger] names[m])@) is Some ==> (exists|i: int|
                0 <= i < out.len() && (#[trigger] out[i])@.name == names[m]@))
    }

    /// Visits one name: collects the jar's answer for it, if any.
    #[verifier::spinoff_prover]
    #[verifier::rlimit(60)]
    fn collect_name(&self, out: &mut Vec<Cookie>, names: &mut Vec<String>, nm: &String)
        requires
            Self::iter_inv(self@, old(out)@, old(names)@),
            !(exists|m: int|
                0 <= m < old(names)@.len() && (#[trigger] old(names)@[m])@ == nm@),
        ensures
            Self::iter_inv(self@, final(out)@, final(names)@),
            final(names)@.len() == old(names)@.len() + 1,
            forall|m: int|
                0 <= m < old(names)@.len() ==> (#[trigger] final(names)@[m]) == old(names)@[m],
            final(names)@[old(names)@.len() as int]@ == nm@,
    {
        let ghost out0 = out@;
        let ghost names0 = names@;
        match self.get(nm.as_str()) {
            Some(c) => {
                proof {
                    lemma_jar_get_name(self@, nm@);
                }
                let copy = c.duplicate();
                out.push(copy);
            },
            None => {},
        }
        names.push(nm.clone());
        proof {
            let outn = out@;
            let namesn = names@;
            if jar_get(self@, nm@) is Some {
                assert(outn.len() == out0.len() + 1);
                assert(outn[outn.len() - 1]@.name == nm@);
                assert(forall|i: int| 0 <= i < out0.len() ==> (#[trigger] outn[i]) == out0[i]);
                assert forall|i: int, k: int|
                    0 <= i < k < outn.len() implies (#[trigger] outn[i])@.name != (
                #[trigger] outn[k])@.name by {
                    if k == outn.len() - 1 {
                        let m = choose|m: int|
                            0 <= m < names0.len() && (#[trigger] names0[m])@ == out0[i]@.name;
                        assert(names0[m]@ != nm@);
                    }
                }
            } else {
                assert(outn == out0);
            }
            assert forall|i: int| 0 <= i < outn.len() implies (exists|m: int|
                0 <= m < namesn.len() && (#[trigger] namesn[m])@ == (#[trigger] outn[i])@.name) by {
                if i < out0.len() {
                    let m = choose|m: int|
                        0 <= m < names0.len() && (#[trigger] names0[m])@ == out0[i]@.name;
                    assert((#[trigger] namesn[m])@ == outn[i]@.name);
                } else {
                    assert((#[trigger] namesn[namesn.len() - 1])@ == outn[i]@.name);
                }
            }
            assert forall|m: int|
                0 <= m < namesn.len() && jar_get(self@, (#[trigger] namesn[m])@)
                    is Some implies (exists|i: int|
                0 <= i < outn.len() && (#[trigger] outn[i])@.name == namesn[m]@) by {
                if m < names0.len() {
                    let i = choose|i: int|
                        0 <= i < out0.len() && (#[trigger] out0[i])@.name == names0[m]@;
                    assert((#[trigger] outn[i])@.name == namesn[m]@);
                } else {
                    assert(namesn[m]@ == nm@);
                    assert((#[trigger] outn[outn.len() - 1])@.name == namesn[m]@);
                }
            }
        }
    }

    /// The cookies the jar currently holds: each name once, with the
    /// value and attributes the jar would answer for it — changes win
    /// over inbound cookies, removed cookies are absent.
    #[verifier::spinoff_prover]
    #[verifier::rlimit(60)]
    pub fn iter(&self) -> (r: Vec<Cookie>)
        ensures
            forall|i: int|
                0 <= i < r@.len() ==> jar_get(self@, (#[trigger] r@[i])@.name) == Some(r@[i]@),
            forall|i: int, j: int|
                0 <= i < j < r@.len() ==> (#[trigger] r@[i])@.name != (#[trigger] r@[j])@.name,
            forall|n: Seq<char>|
                (#[trigger] jar_get(self@, n)) is Some ==> (exists|i: int|
                    0 <= i < r@.len() && (#[trigger] r@[i])@.name == n),
    {
        let mut out: Vec<Cookie> = Vec::new();
        let mut names: Vec<String> = Vec::new();
        let dn = self.delta.len();
        let mut p: usize = 0;
        while p < dn
            invariant
                0 <= p <= dn,
                dn == self.delta@.len(),
                Self::iter_inv(self@, out@, names@),
                forall|k: int|
                    0 <= k < p ==> (exists|m: int|
                        0 <= m < names@.len() && (#[trigger] names@[m])@ == (
                        #[trigger] self.delta@[k])@.cookie.name),
            decreases dn - p,
        {
            let nm: &String = match &self.delta[p] {
                DeltaEntry::Added(c) => &c.name,
                DeltaEntry::Removed(c) => &c.name,
            };
            proof {
                assert(nm@ == self.delta@[p as int]@.cookie.name);
            }
            let ghost names0 = names@;
            let had = contains_name(&names, nm.as_str());
            if !had {
                self.collect_name(&mut out, &mut names, nm);
            }
            proof {
                assert forall|k: int| 0 <= k < p as int + 1 implies (exists|m: int|
                    0 <= m < names@.len() && (#[trigger] names@[m])@ == (
                    #[trigger] self.delta@[k])@.cookie.name) by {
                    if k < p as int {
                        let m = choose|m: int|
                            0 <= m < names0.len() && (#[trigger] names0[m])@
                                == self.delta@[k]@.cookie.name;
                        assert((#[trigger] names@[m])@ == self.delta@[k]@.cookie.name);
                    } else if had {
                        let m = choose|m: int|
                            0 <= m < names0.len() && (#[trigger] names0[m])@ == nm@;
                        assert((#[trigger] names@[m])@ == self.delta@[k]@.cookie.name);
                    } else {
                        assert((#[trigger] names@[names0.len() as int])@
                            == self.delta@[k]@.cookie.name);
                    }
                }
            }
            p = p + 1;
        }
        let on = self.original.len();
        let mut q: usize = 0;
        while q < on
            invariant
                0 <= q <= on,
                on == self.original@.len(),
                Self::iter_inv(self@, out@, names@),
                forall|k: int|
                    0 <= k < self.delta@.len() ==> (exists|m: int|
                        0 <= m < names@.len() && (#[trigger] names@[m])@ == (
                        #[trigger] self.delta@[k])@.cookie.name),
                forall|k: int|
                    0 <= k < q ==> (exists|m: int|
                        0 <= m < names@.len() && (#[trigger] names@[m])@ == (
                        #[trigger] self.original@[k])@.name),
            decreases on - q,
        {
            let nm: &String = &self.original[q].name;
            proof {
                assert(nm@ == self.original@[q as int]@.name);
            }
            let ghost names0 = names@;
            let had = contains_name(&names, nm.as_str());
            if !had {
                self.collect_name(&mut out, &mut names, nm);
            }
            proof {
                assert forall|k: int| 0 <= k < self.delta@.len() implies (exists|m: int|
                    0 <= m < names@.len() && (#[trigger] names@[m])@ == (
                    #[trigger] self.delta@[k])@.cookie.name) by {
                    let m = choose|m: int|
                        0 <= m < names0.len() && (#[trigger] names0[m])@
                            == self.delta@[k]@.cookie.name;
                    assert((#[trigger] names@[m])@ == self.delta@[k]@.cookie.name);
                }
                assert forall|k: int| 0 <= k < q as int + 1 implies (exists|m: int|
                    0 <= m < names@.len() && (#[trigger] names@[m])@ == (
                    #[trigger] self.original@[k])@.name) by {
                    if k < q as int {
                        let m = choose|m: int|
                            0 <= m < names0.len() && (#[trigger] names0[m])@
                                == self.original@[k]@.name;
                        assert((#[trigger] names@[m])@ == self.original@[k]@.name);
                    } else if had {
                        let m = choose|m: int|
                            0 <= m < names0.len() && (#[trigger] names0[m])@ == nm@;
                        assert((#[trigger] names@[m])@ == self.original@[k]@.name);
                    } else {
                        assert((#[trigger] names@[names0.len() as int])@
                            == self.original@[k]@.name);
                    }
                }
            }
            q = q + 1;
        }
        proof {
            assert forall|n: Seq<char>| (#[trigger] jar_get(self@, n)) is Some implies (exists|
                i: int,
            |
                0 <= i < out@.len() && (#[trigger] out@[i])@.name == n) by {
                lemma_delta_find_name(self@.delta, n);
                lemma_orig_find_name(self@.original, n);
                if delta_find(self@.delta, n) is Some {
                    let k = choose|k: int|
                        0 <= k < self@.delta.len() && (#[trigger] self@.delta[k].cookie.name) == n;
                    assert(self.delta@[k]@.cookie.name == n);
                    let m = choose|m: int|
                        0 <= m < names@.len() && (#[trigger] names@[m])@ == (
                        #[trigger] self.delta@[k])@.cookie.name;
                    assert(jar_get(self@, names@[m]@) is Some);
                } else {
                    let k = choose|k: int|
                        0 <= k < self@.original.len() && (#[trigger] self@.original[k].name) == n;
                    assert(self.original@[k]@.name == n);
                    let m = choose|m: int|
                        0 <= m < names@.len() && (#[trigger] names@[m])@ == (
                        #[trigger] self.original@[k])@.name;
                    assert(jar_get(self@, names@[m]@) is Some);
                }
            }
        }
        out
    }

    /// Copies the jar, inbound cookies and recorded changes alike.
    pub fn duplicate(&self) -> (r: Self)
        ensures
            r@ == self@,
    {
        let n = self.original.len();
        let mut original: Vec<Cookie> = Vec::new();
        let mut i: usize = 0;
        while i < n
            invariant
                0 <= i <= n,
                n == self.original@.len(),
                original@.len() == i,
                forall|j: int| 0 <= j < i ==> (#[trigger] original@[j])@ == self.original@[j]@,
            decreases n - i,
        {
            original.push(self.original[i].duplicate());
            i = i + 1;
        }
        let dn = self.delta.len();
        let mut delta: Vec<DeltaEntry> = Vec::new();
        let mut k: usize = 0;
        while k < dn
            invariant
                0 <= k <= dn,
                dn == self.delta@.len(),
                delta@.len() == k,
                forall|j: int| 0 <= j < k ==> (#[trigger] delta@[j])@ == self.delta@[j]@,
            decreases dn - k,
        {
            let e = match &self.delta[k] {
                DeltaEntry::Added(c) => DeltaEntry::Added(c.duplicate()),
                DeltaEntry::Removed(c) => DeltaEntry::Removed(c.duplicate()),
            };
            delta.push(e);
            k = k + 1;
        }
        let r = CookieJar { original, delta };
        proof {
            assert(r@.original =~= self@.original);
            assert(r@.delta =~= self@.delta);
        }
        r
    }

    /// Serializes the recorded changes, one `Set-Cookie` header value
    /// per change, in the order they were made.
    pub fn set_cookie_headers(&self) -> (r: Vec<String>)
        ensures
            strings_view(r@) == jar_headers(self@),
    {
        let n = self.delta.len();
        let mut out: Vec<String> = Vec::new();
        let mut i: usize = 0;
        while i < n
            invariant
                0 <= i <= n,
                n == self.delta@.len(),
                out@.len() == i,
                forall|j: int|
                    0 <= j < i ==> out@[j]@ == serialize_cookie_spec(self.delta@[j]@.cookie),
            decreases n - i,
        {
            let c = match &self.delta[i] {
                DeltaEntry::Added(c) => c,
                DeltaEntry::Removed(c) => c,
            };
            out.push(serialize_cookie(c));
            i = i + 1;
        }
        proof {
            assert(strings_view(out@) =~= jar_headers(self@));
        }
        out
    }
}

/// A found result of `delta_find` carries the searched name, at some
/// position of the delta.
proof fn lemma_delta_find_name(d: Seq<DeltaModel>, n: Seq<char>)
    ensures
        (match delta_find(d, n) {
            Some(e) => e.cookie.name == n && (exists|p: int|
                0 <= p < d.len() && (#[trigger] d[p].cookie.name) == n),
            None => true,
        }),
    decreases d.len(),
{
    if d.len() > 0 {
        if d.last().cookie.name == n {
            assert(d[d.len() - 1].cookie.name == n);
        } else {
            lemma_delta_find_name(d.drop_last(), n);
            if delta_find(d.drop_last(), n) is Some {
                let p = choose|p: int|
                    0 <= p < d.drop_last().len() && (#[trigger] d.drop_last()[p].cookie.name) == n;
                assert(d[p].cookie.name == n);
            }
        }
    }
}

/// A found result of `orig_find` carries the searched name, at some
/// position of the inbound cookies.
proof fn lemma_orig_find_name(o: Seq<CookieModel>, n: Seq<char>)
    ensures
        (match orig_find(o, n) {
            Some(c) => c.name == n && (exists|p: int|
                0 <= p < o.len() && (#[trigger] o[p].name) == n),
            None => true,
        }),
    decreases o.len(),
{
    if o.len() > 0 {
        if o.last().name == n {
            assert(o[o.len() - 1].name == n);
        } else {
            lemma_orig_find_name(o.drop_last(), n);
            if orig_find(o.drop_last(), n) is Some {
                let p = choose|p: int|
                    0 <= p < o.drop_last().len() && (#[trigger] o.drop_last()[p].name) == n;
                assert(o[p].name == n);
            }
        }
    }
}

/// What the jar answers for `n` carries the name `n`.
proof fn lemma_jar_get_name(j: JarModel, n: Seq<char>)
    ensures
        (match jar_get(j, n) {
            Some(c) => c.name == n,
            None => true,
        }),
{
    lemma_delta_find_name(j.delta, n);
    lemma_orig_find_name(j.original, n);
}

/// Whether one of the collected names is `n`.
fn contains_name(names: &Vec<String>, n: &str) -> (r: bool)
    ensures
        r == (exists|m: int| 0 <= m < names@.len() && (#[trigger] names@[m])@ == n@),
{
    let len = names.len();
    let mut m: usize = 0;
    while m < len
        invariant
            0 <= m <= len,
            len == names@.len(),
            forall|k: int| 0 <= k < m ==> (#[trigger] names@[k])@ != n@,
        decreases len - m,
    {
        if str_eq(names[m].as_str(), n) {
            return true;
        }
        m = m + 1;
    }
    false
}

/// The delta entries whose name differs from `name`, in order.
fn filter_delta(delta: &Vec<DeltaEntry>, name: &str) -> (r: Vec<DeltaEntry>)
    ensures
        deltas_view(r@) == delta_remove_name(deltas_view(delta@), name@),
{
    let n = delta.len();
    let mut out: Vec<DeltaEntry> = Vec::new();
    let mut i: usize = 0;
    while i < n
        invariant
            0 <= i <= n,
            n == delta@.len(),
            deltas_view(out@) == delta_remove_name(deltas_view(delta@.take(i as int)), name@),
        decreases n - i,
    {
        let entry_name: &String = match &delta[i] {
            DeltaEntry::Added(c) => &c.name,
            DeltaEntry::Removed(c) => &c.name,
        };
        let ghost before = deltas_view(out@);
        let ghost prefix1 = deltas_view(delta@.take(i as int + 1));
        proof {
            assert(prefix1.last() == delta@[i as int]@);
            assert(prefix1.drop_last() =~= deltas_view(delta@.take(i as int)));
        }
        if !str_eq(entry_name.as_str(), name) {
            let e = match &delta[i] {
                DeltaEntry::Added(c) => DeltaEntry::Added(c.duplicate()),
                DeltaEntry::Removed(c) => DeltaEntry::Removed(c.duplicate()),
            };
            proof {
                assert(e@ == delta@[i as int]@);
            }
            out.push(e);
            proof {
                assert(deltas_view(out@) =~= before.push(delta@[i as int]@));
            }
        }
        i = i + 1;
    }
    proof {
        assert(delta@.take(n as int) =~= delta@);
    }
    out
}

/// Whether an inbound cookie with this name exists.
fn orig_contains(orig: &Vec<Cookie>, name: &str) -> (r: bool)
    ensures
        r == (orig_find(cookies_view(orig@), name@) is Some),
{
    let n = orig.len();
    proof {
        assert(orig@.take(n as int) =~= orig@);
    }
    let mut k: usize = n;
    while k > 0
        invariant
            0 <= k <= n,
            n == orig@.len(),
            orig_find(cookies_view(orig@), name@) == orig_find(
                cookies_view(orig@.take(k as int)),
                name@,
            ),
        decreases k,
    {
        let ghost prefix = cookies_view(orig@.take(k as int));
        proof {
            assert(prefix.last() == orig@[k as int - 1]@);
            assert(prefix.drop_last() =~= cookies_view(orig@.take(k as int - 1)));
        }
        if str_eq(orig[k - 1].name.as_str(), name) {
            return true;
        }
        k = k - 1;
    }
    proof {
        assert(cookies_view(orig@.take(0)) =~= Seq::<CookieModel>::empty());
    }
    false
}

// ---------------------------------------------------------------------------
// Laws of parsing and of delta serialization.
// ---------------------------------------------------------------------------

/// How many segments of a list are well-formed cookies.
pub open spec fn count_valid(segs: Seq<Seq<char>>) -> nat
    decreases segs.len(),
{
    if segs.len() == 0 {
        0
    } else {
        (if parse_segment_spec(segs[0]) is Some {
            1nat
        } else {
            0nat
        }) + count_valid(segs.drop_first())
    }
}

proof fn lemma_parse_segments_counts(segs: Seq<Seq<char>>)
    ensures
        parse_segments(segs).len() == count_valid(segs),
        forall|i: int|
            0 <= i < parse_segments(segs).len() ==> (exists|j: int|
                0 <= j < segs.len() && parse_segment_spec(segs[j]) == Some(
                    #[trigger] parse_segments(segs)[i],
                )),
    decreases segs.len(),
{
    if segs.len() > 0 {
        let rest = segs.drop_first();
        lemma_parse_segments_counts(rest);
        let head = (match parse_segment_spec(segs[0]) {
            Some(c) => seq![c],
            None => Seq::<CookieModel>::empty(),
        });
        assert(parse_segments(segs) == head + parse_segments(rest));
        assert forall|i: int| 0 <= i < parse_segments(segs).len() implies (exists|j: int|
            0 <= j < segs.len() && parse_segment_spec(segs[j]) == Some(
                #[trigger] parse_segments(segs)[i],
            )) by {
            if i < head.len() {
                assert(parse_segments(segs)[i] == head[0]);
                assert(parse_segment_spec(segs[0]) == Some(parse_segments(segs)[i]));
            } else {
                let k = i - head.len();
                assert(parse_segments(segs)[i] == parse_segments(rest)[k]);
                let j = choose|j: int|
                    0 <= j < rest.len() && parse_segment_spec(rest[j]) == Some(
                        parse_segments(rest)[k],
                    );
                assert(segs[j + 1] == rest[j]);
            }
        }
    }
}

/// Law of parsing: a header line with some well-formed and some
/// malformed segments parses to exactly one cookie per well-formed
/// segment; a malformed segment never fails the parse and never
/// contributes an entry — every parsed cookie comes from a
/// well-formed segment.
pub proof fn lemma_parse_counts_valid_segments(s: Seq<char>)
    ensures
        parse_header_spec(s).len() == count_valid(split_semis(s)),
        forall|i: int|
            0 <= i < parse_header_spec(s).len() ==> (exists|j: int|
                0 <= j < split_semis(s).len() && parse_segment_spec(split_semis(s)[j]) == Some(
                    #[trigger] parse_header_spec(s)[i],
                )),
{
    lemma_parse_segments_counts(split_semis(s));
}

/// A delta with no entry under `name` is unchanged by dropping `name`.
proof fn lemma_delta_remove_name_absent(delta: Seq<DeltaModel>, name: Seq<char>)
    requires
        forall|i: int| 0 <= i < delta.len() ==> (#[trigger] delta[i].cookie.name) != name,
    ensures
        delta_remove_name(delta, name) == delta,
    decreases delta.len(),
{
    if delta.len() > 0 {
        assert(delta.last() == delta[delta.len() - 1]);
        lemma_delta_remove_name_absent(delta.drop_last(), name);
        assert(delta_remove_name(delta, name) =~= delta);
    }
}

/// The jar after adding each cookie of `cs` in order.
pub open spec fn jar_add_all(j: JarModel, cs: Seq<CookieModel>) -> JarModel
    decreases cs.len(),
{
    if cs.len() == 0 {
        j
    } else {
        jar_add(jar_add_all(j, cs.drop_last()), cs.last())
    }
}

proof fn lemma_jar_add_all_delta(cs: Seq<CookieModel>)
    requires
        forall|i: int, j: int| 0 <= i < j < cs.len() ==> cs[i].name != cs[j].name,
    ensures
        jar_add_all(empty_jar(), cs).original == Seq::<CookieModel>::empty(),
        jar_add_all(empty_jar(), cs).delta == cs.map_values(
            (|c: CookieModel| DeltaModel { removed: false, cookie: c }),
        ),
    decreases cs.len(),
{
    let f = (|c: CookieModel| DeltaModel { removed: false, cookie: c });
    if cs.len() == 0 {
        assert(jar_add_all(empty_jar(), cs).delta =~= cs.map_values(f));
    } else {
        let front = cs.drop_last();
        lemma_jar_add_all_delta(front);
        let jf = jar_add_all(empty_jar(), front);
        assert(forall|i: int|
            0 <= i < jf.delta.len() ==> (#[trigger] jf.delta[i]) == f(front[i]));
        assert(forall|i: int| 0 <= i < front.len() ==> front[i] == cs[i]);
        assert(forall|i: int|
            0 <= i < jf.delta.len() ==> (#[trigger] jf.delta[i].cookie.name) != cs.last().name);
        lemma_delta_remove_name_absent(jf.delta, cs.last().name);
        assert(jar_add_all(empty_jar(), cs).delta =~= cs.map_values(f));
    }
}

/// Law of delta serialization: a jar built from an empty header (no
/// inbound cookies, no recorded changes) to which cookies with pairwise
/// distinct names are added emits exactly one `Set-Cookie` header per
/// added cookie, in order, each serialized with the attributes the
/// cookie carried when it was added.
pub proof fn lemma_delta_serialization_from_empty(cs: Seq<CookieModel>)
    requires
        forall|i: int, j: int| 0 <= i < j < cs.len() ==> cs[i].name != cs[j].name,
    ensures
        jar_headers(jar_add_all(empty_jar(), cs)) == cs.map_values(
            (|c: CookieModel| serialize_cookie_spec(c)),
        ),
{
    lemma_jar_add_all_delta(cs);
    assert(jar_headers(jar_add_all(empty_jar(), cs)) =~= cs.map_values(
        (|c: CookieModel| serialize_cookie_spec(c)),
    ));
}

/// Adding two fresh, distinctly named cookies to a jar whose delta has
/// no entry for either name appends exactly their two headers, and both
/// cookies are then held by the jar.
pub proof fn lemma_add_two_fresh(j: JarModel, c1: CookieModel, c2: CookieModel)
    requires
        c1.name != c2.name,
        forall|i: int| 0 <= i < j.delta.len() ==> (#[trigger] j.delta[i].cookie.name) != c1.name,
        forall|i: int| 0 <= i < j.delta.len() ==> (#[trigger] j.delta[i].cookie.name) != c2.name,
    ensures
        jar_headers(jar_add(jar_add(j, c1), c2)) == jar_headers(j) + seq![
            serialize_cookie_spec(c1),
            serialize_cookie_spec(c2),
        ],
        jar_get(jar_add(jar_add(j, c1), c2), c1.name) == Some(c1),
        jar_get(jar_add(jar_add(j, c1), c2), c2.name) == Some(c2),
{
    lemma_delta_remove_name_absent(j.delta, c1.name);
    let j1 = jar_add(j, c1);
    assert(j1.delta == j.delta.push(DeltaModel { removed: false, cookie: c1 }));
    assert(forall|i: int|
        0 <= i < j1.delta.len() ==> (#[trigger] j1.delta[i].cookie.name) != c2.name);
    lemma_delta_remove_name_absent(j1.delta, c2.name);
    let j2 = jar_add(j1, c2);
    assert(j2.delta == j1.delta.push(DeltaModel { removed: false, cookie: c2 }));
    assert(jar_headers(j2) =~= jar_headers(j) + seq![
        serialize_cookie_spec(c1),
        serialize_cookie_spec(c2),
    ]);
    assert(j2.delta.last().cookie.name == c2.name);
    assert(j2.delta.drop_last() =~= j1.delta);
    assert(j1.delta.last() == DeltaModel { removed: false, cookie: c1 });
    assert(delta_find(j1.delta, c1.name) == Some(DeltaModel { removed: false, cookie: c1 }));
    assert(delta_find(j2.delta, c1.name) == delta_find(j1.delta, c1.name));
    assert(delta_find(j2.delta, c2.name) == Some(DeltaModel { removed: false, cookie: c2 }));
}

/// Parsing header lines proceeds line by line, later lines appended.
proof fn lemma_parse_headers_snoc(lines: Seq<Seq<char>>)
    requires
        lines.len() > 0,
    ensures
        parse_headers_spec(lines) == parse_headers_spec(lines.drop_last()) + parse_header_spec(
            lines.last(),
        ),
    decreases lines.len(),
{
    if lines.len() == 1 {
        assert(lines.drop_last() =~= Seq::<Seq<char>>::empty());
        assert(lines.drop_first() =~= Seq::<Seq<char>>::empty());
        assert(lines[0] == lines.last());
        assert(parse_headers_spec(lines.drop_last()) + parse_header_spec(lines.last()) =~= parse_header_spec(lines.last()));
        assert(parse_headers_spec(lines) =~= parse_header_spec(lines[0]));
    } else {
        let rest = lines.drop_first();
        lemma_parse_headers_snoc(rest);
        assert(rest.last() == lines.last());
        assert(rest.drop_last() =~= lines.drop_last().drop_first());
        assert(lines.drop_last()[0] == lines[0]);
        assert(lines.drop_last().len() > 0);
        assert(parse_headers_spec(lines.drop_last()) == parse_header_spec(lines[0])
            + parse_headers_spec(lines.drop_last().drop_first()));
        assert(parse_headers_spec(lines) =~= parse_headers_spec(lines.drop_last())
            + parse_header_spec(lines.last()));
    }
}

} // verus!
