//! `Set-Cookie` values for the session cookies and the parsing of the
//! `Cookie` and `Authorization` request headers.

use vstd::prelude::*;
use vstd::string::*;
use crate::jwt::{ACCESS_TOKEN_TTL_SECS, REFRESH_TOKEN_TTL_SECS};
use crate::text::{
    chars_of, is_ws, trim_end, trim_start, contains_seq, contains_str, decimal, find_char_from, find_char_in, find_from,
    has_prefix, lemma_find_from, prefix_at, range_eq, strip_prefix_str, trim, trim_range,
    u64_to_decimal, view_opt_str,
};

verus! {

/// Name of the cookie that carries the access token.
pub open spec fn access_cookie_name() -> Seq<char> {
    "tc_token"@
}

/// Whether the configured frontend origin is a local development origin.
pub open spec fn is_local_origin(origin: Seq<char>) -> bool {
    contains_seq(origin, "localhost"@)
}

/// `SameSite` attribute: `Lax` on localhost, `None` (cross-site) elsewhere.
pub open spec fn samesite_spec(origin: Seq<char>) -> Seq<char> {
    if is_local_origin(origin) {
        "Lax"@
    } else {
        "None"@
    }
}

/// `; Secure` is added exactly when `SameSite=None`.
pub open spec fn secure_spec(origin: Seq<char>) -> Seq<char> {
    if is_local_origin(origin) {
        ""@
    } else {
        "; Secure"@
    }
}

pub open spec fn access_cookie_spec(token: Seq<char>, origin: Seq<char>) -> Seq<char> {
    "tc_token="@ + token + "; Path=/; SameSite="@ + samesite_spec(origin) + "; Max-Age="@
        + decimal(ACCESS_TOKEN_TTL_SECS as nat) + secure_spec(origin)
}

pub open spec fn refresh_cookie_spec(token: Seq<char>, origin: Seq<char>) -> Seq<char> {
    "tc_refresh="@ + token + "; Path=/; HttpOnly; SameSite="@ + samesite_spec(origin)
        + "; Max-Age="@ + decimal(REFRESH_TOKEN_TTL_SECS as nat) + secure_spec(origin)
}

pub open spec fn clear_cookie_spec(name: Seq<char>, origin: Seq<char>) -> Seq<char> {
    name + "=; Path=/; HttpOnly; SameSite="@ + samesite_spec(origin) + "; Max-Age=0"@
        + secure_spec(origin)
}

/// `SameSite` value for the given `FRONTEND_ORIGIN` (empty when unset).
pub fn cookie_samesite(frontend_origin: &str) -> (r: &'static str)
    ensures
        r@ == samesite_spec(frontend_origin@),
{
    if contains_str(frontend_origin, "localhost") {
        "Lax"
    } else {
        "None"
    }
}

fn secure_suffix(frontend_origin: &str) -> (r: &'static str)
    ensures
        r@ == secure_spec(frontend_origin@),
{
    if contains_str(frontend_origin, "localhost") {
        ""
    } else {
        "; Secure"
    }
}

/// `Set-Cookie` value for the access token (readable from scripts).
pub fn build_access_cookie(token: &str, frontend_origin: &str) -> (r: String)
    ensures
        r@ == access_cookie_spec(token@, frontend_origin@),
{
    let mut r = String::from_str("tc_token=");
    r.append(token);
    r.append("; Path=/; SameSite=");
    r.append(cookie_samesite(frontend_origin));
    r.append("; Max-Age=");
    let ttl = u64_to_decimal(ACCESS_TOKEN_TTL_SECS);
    r.append(ttl.as_str());
    r.append(secure_suffix(frontend_origin));
    r
}

/// `Set-Cookie` value for the refresh token (`HttpOnly`).
pub fn build_refresh_cookie(token: &str, frontend_origin: &str) -> (r: String)
    ensures
        r@ == refresh_cookie_spec(token@, frontend_origin@),
{
    let mut r = String::from_str("tc_refresh=");
    r.append(token);
    r.append("; Path=/; HttpOnly; SameSite=");
    r.append(cookie_samesite(frontend_origin));
    r.append("; Max-Age=");
    let ttl = u64_to_decimal(REFRESH_TOKEN_TTL_SECS);
    r.append(ttl.as_str());
    r.append(secure_suffix(frontend_origin));
    r
}

/// `Set-Cookie` value that expires the cookie `name` at once.
pub fn build_clear_cookie(name: &str, frontend_origin: &str) -> (r: String)
    ensures
        r@ == clear_cookie_spec(name@, frontend_origin@),
{
    let mut r = String::from_str(name);
    r.append("=; Path=/; HttpOnly; SameSite=");
    r.append(cookie_samesite(frontend_origin));
    r.append("; Max-Age=0");
    r.append(secure_suffix(frontend_origin));
    r
}


/// Value of the cookie `name` in a raw `Cookie` header, looking at the
/// `;`-separated parts from position `a` on: the first trimmed part that
/// starts with `name=` gives the rest of that part.
pub open spec fn cookie_value_from(h: Seq<char>, name: Seq<char>, a: int) -> Option<Seq<char>>
    decreases h.len() - a,
{
    if a < 0 || a > h.len() {
        None
    } else {
        let b = find_from(h, ';', a);
        let part = trim(h.subrange(a, b));
        let key = name + seq!['='];
        if has_prefix(part, key) {
            Some(part.skip(key.len() as int))
        } else if b >= h.len() {
            None
        } else {
            proof {
                lemma_find_from(h, ';', a);
            }
            cookie_value_from(h, name, b + 1)
        }
    }
}

/// Value of the cookie `name` in the header `h`.
pub open spec fn cookie_value(h: Seq<char>, name: Seq<char>) -> Option<Seq<char>> {
    cookie_value_from(h, name, 0)
}

/// Value of the cookie `name` in a raw `Cookie` header string.
pub fn parse_cookie_value<'a>(cookie_header: &'a str, name: &str) -> (r: Option<&'a str>)
    ensures
        r is Some <==> cookie_value(cookie_header@, name@) is Some,
        r is Some ==> r->0@ == cookie_value(cookie_header@, name@)->0,
        r is Some ==> exists|i: int, j: int|
            0 <= i <= j <= cookie_header@.len() && r->0@ == #[trigger] cookie_header@.subrange(i, j),
{
    let cs = chars_of(cookie_header);
    let mut key = chars_of(name);
    key.push('=');
    assert(key@ =~= name@ + seq!['=']);
    let n = cs.len();
    let mut a: usize = 0;
    loop
        invariant
            cs@ == cookie_header@,
            n == cs@.len(),
            key@ == name@ + seq!['='],
            a <= n,
            cookie_value(cookie_header@, name@) == cookie_value_from(cookie_header@, name@, a as int),
        decreases n - a,
    {
        let b = find_char_from(&cs, ';', a);
        proof {
            lemma_find_from(cs@, ';', a as int);
        }
        let (ta, tb) = trim_range(&cs, a, b);
        if prefix_at(&cs, ta, tb, &key) {
            assert(cs@.subrange(ta as int, tb as int).skip(key@.len() as int) =~= cs@.subrange(
                ta + key@.len(),
                tb as int,
            ));
            let v = cookie_header.substring_char(ta + key.len(), tb);
            assert(v@ == cookie_header@.subrange(ta + key.len(), tb as int));
            return Some(v);
        }
        if b >= n {
            return None;
        }
        a = b + 1;
    }
}

/// The access token in a `Cookie` header, read from the `;`-separated parts
/// from position `a` on. Each trimmed part is split at its first `=` into a
/// trimmed name and a trimmed value; the first part named `tc_token` gives
/// its value, and a part without `=` is passed over like any other cookie.
pub open spec fn token_cookie_from(h: Seq<char>, a: int) -> Option<Seq<char>>
    decreases h.len() - a,
{
    if a < 0 || a > h.len() {
        None
    } else {
        let b = find_from(h, ';', a);
        let part = trim(h.subrange(a, b));
        let e = find_from(part, '=', 0);
        if e < part.len() && trim(part.subrange(0, e)) == access_cookie_name() {
            Some(trim(part.subrange(e + 1, part.len() as int)))
        } else if b >= h.len() {
            None
        } else {
            proof {
                lemma_find_from(h, ';', a);
            }
            token_cookie_from(h, b + 1)
        }
    }
}

/// The access token carried by the `tc_token` cookie, if any.
pub open spec fn token_from_cookie_header(h: Option<Seq<char>>) -> Option<Seq<char>> {
    match h {
        Some(h) => token_cookie_from(h, 0),
        None => None,
    }
}

/// Access token from the `tc_token` cookie of a `Cookie` header value.
pub fn extract_token_from_cookie(cookie_header: Option<&str>) -> (r: Option<String>)
    ensures
        r is Some <==> token_from_cookie_header(view_opt_str(cookie_header)) is Some,
        r is Some ==> r->0@ == token_from_cookie_header(view_opt_str(cookie_header))->0,
{
    let h = match cookie_header {
        Some(h) => h,
        None => return None,
    };
    assert(token_from_cookie_header(view_opt_str(cookie_header)) == token_cookie_from(h@, 0));
    let cs = chars_of(h);
    let name = chars_of("tc_token");
    let n = cs.len();
    let mut a: usize = 0;
    loop
        invariant
            cs@ == h@,
            name@ == access_cookie_name(),
            n == cs@.len(),
            a <= n,
            token_from_cookie_header(view_opt_str(cookie_header)) == token_cookie_from(h@, a as int),
        decreases n - a,
    {
        let b = find_char_from(&cs, ';', a);
        proof {
            lemma_find_from(cs@, ';', a as int);
        }
        let (ta, tb) = trim_range(&cs, a, b);
        let ghost part = cs@.subrange(ta as int, tb as int);
        let e = find_char_in(&cs, '=', ta, tb);
        assert(part == trim(h@.subrange(a as int, b as int)));
        if e < tb {
            let (na, nb) = trim_range(&cs, ta, e);
            assert(part.subrange(0, e - ta) =~= cs@.subrange(ta as int, e as int));
            if range_eq(&cs, na, nb, &name) {
                let (va, vb) = trim_range(&cs, e + 1, tb);
                assert(part.subrange(e - ta + 1, part.len() as int) =~= cs@.subrange(
                    e + 1,
                    tb as int,
                ));
                return Some(String::from_str(h.substring_char(va, vb)));
            }
        }
        if b >= n {
            return None;
        }
        a = b + 1;
    }
}

/// Access token from an `Authorization: Bearer <token>` header value.
pub fn extract_token_from_header(authorization: Option<&str>) -> (r: Option<String>)
    ensures
        r is Some <==> (authorization is Some && has_prefix(authorization->0@, "Bearer "@)),
        r is Some ==> r->0@ == authorization->0@.skip(7),
{
    match authorization {
        Some(v) => {
            proof {
                reveal_strlit("Bearer ");
            }
            match strip_prefix_str(v, "Bearer ") {
                Some(t) => Some(String::from_str(t)),
                None => None,
            }
        },
        None => None,
    }
}

/// The token of a request: the `tc_token` cookie first, then the bearer header.
pub open spec fn request_token(cookie: Option<Seq<char>>, authorization: Option<Seq<char>>) -> Option<Seq<char>> {
    match token_from_cookie_header(cookie) {
        Some(t) => Some(t),
        None => match authorization {
            Some(a) => if has_prefix(a, "Bearer "@) {
                Some(a.skip(7))
            } else {
                None
            },
            None => None,
        },
    }
}

/// Token of a request: the `tc_token` cookie when present, else the bearer token.
pub fn select_request_token(cookie_header: Option<&str>, authorization: Option<&str>) -> (r: Option<String>)
    ensures
        r is Some <==> request_token(view_opt_str(cookie_header), view_opt_str(authorization)) is Some,
        r is Some ==> r->0@ == request_token(view_opt_str(cookie_header), view_opt_str(authorization))->0,
{
    match extract_token_from_cookie(cookie_header) {
        Some(t) => Some(t),
        None => extract_token_from_header(authorization),
    }
}


/// Whether `c` does not occur in `s`.
pub open spec fn lacks(s: Seq<char>, c: char) -> bool {
    forall|i: int| 0 <= i < s.len() ==> s[i] != c
}

proof fn lemma_find_absent(s: Seq<char>, c: char, i: int)
    requires
        0 <= i <= s.len(),
        forall|k: int| i <= k < s.len() ==> s[k] != c,
    ensures
        find_from(s, c, i) == s.len(),
    decreases s.len() - i,
{
    if i < s.len() {
        lemma_find_absent(s, c, i + 1);
    }
}

proof fn lemma_find_first(s: Seq<char>, c: char, i: int, j: int)
    requires
        0 <= i <= j < s.len(),
        s[j] == c,
        forall|k: int| i <= k < j ==> s[k] != c,
    ensures
        find_from(s, c, i) == j,
    decreases j - i,
{
    if i < j {
        lemma_find_first(s, c, i + 1, j);
    }
}

proof fn lemma_trim_fixed(s: Seq<char>)
    requires
        s.len() > 0,
        !is_ws(s[0]),
        !is_ws(s.last()),
    ensures
        trim(s) == s,
{
    assert(trim_start(s) == s);
    assert(trim_end(s) == s);
}

/// A cookie set as `name=value` is read back by its name: the value the
/// server sets (without `;`, and not ending in whitespace) is the value a
/// `Cookie` header carrying it yields.
pub proof fn lemma_cookie_value_roundtrip(name: Seq<char>, value: Seq<char>)
    requires
        name.len() > 0,
        !is_ws(name[0]),
        lacks(name, ';'),
        lacks(value, ';'),
        value.len() > 0 ==> !is_ws(value.last()),
    ensures
        cookie_value(name + seq!['='] + value, name) == Some(value),
{
    let key = name + seq!['='];
    let h = key + value;
    assert forall|k: int| 0 <= k < h.len() implies h[k] != ';' by {
        if k < name.len() {
            assert(h[k] == name[k]);
        } else if k > name.len() {
            assert(h[k] == value[k - key.len()]);
        }
    }
    lemma_find_absent(h, ';', 0);
    assert(h.subrange(0, h.len() as int) =~= h);
    assert(h[0] == name[0]);
    if value.len() > 0 {
        assert(h.last() == value.last());
    } else {
        assert(h.last() == '=');
        assert(!is_ws('='));
    }
    lemma_trim_fixed(h);
    assert(h.subrange(0, key.len() as int) =~= key);
    assert(h.skip(key.len() as int) =~= value);
}

/// The value of the first cookie of a header that starts with
/// `name=value`, followed by nothing or by `;` and further text.
proof fn lemma_cookie_value_first(name: Seq<char>, value: Seq<char>, rest: Seq<char>)
    requires
        name.len() > 0,
        !is_ws(name[0]),
        lacks(name, ';'),
        lacks(value, ';'),
        value.len() > 0 ==> !is_ws(value.last()),
        rest.len() > 0 ==> rest[0] == ';',
    ensures
        cookie_value(name + seq!['='] + value + rest, name) == Some(value),
{
    let key = name + seq!['='];
    let p = key + value;
    let h = p + rest;
    assert forall|k: int| 0 <= k < p.len() implies h[k] != ';' by {
        if k < name.len() {
            assert(h[k] == name[k]);
        } else if k > name.len() {
            assert(h[k] == value[k - key.len()]);
        } else {
            assert(h[k] == '=');
        }
    }
    if rest.len() == 0 {
        assert(h =~= p);
        lemma_find_absent(h, ';', 0);
    } else {
        assert(h[p.len() as int] == ';');
        lemma_find_first(h, ';', 0, p.len() as int);
    }
    assert(h.subrange(0, p.len() as int) =~= p);
    assert(p[0] == name[0]);
    if value.len() > 0 {
        assert(p.last() == value.last());
    } else {
        assert(p.last() == '=');
        assert(!is_ws('='));
    }
    lemma_trim_fixed(p);
    assert(p.subrange(0, key.len() as int) =~= key);
    assert(p.skip(key.len() as int) =~= value);
}

proof fn lemma_plain_name(name: Seq<char>)
    requires
        name == "tc_token"@ || name == "tc_refresh"@,
    ensures
        name.len() > 0,
        !is_ws(name[0]),
        lacks(name, ';'),
{
    reveal_strlit("tc_token");
    reveal_strlit("tc_refresh");
    assert(name[0] == 't');
}

/// The session cookies the server sets are read back by their names: the
/// access and refresh tokens from their `Set-Cookie` texts (for a token
/// without `;` and without surrounding whitespace, as issued tokens are),
/// and an empty value from the texts that clear them, whatever the
/// configured origin.
pub proof fn lemma_built_cookies_read_back(token: Seq<char>, origin: Seq<char>)
    requires
        lacks(token, ';'),
        is_trimmed(token),
    ensures
        cookie_value(access_cookie_spec(token, origin), "tc_token"@) == Some(token),
        cookie_value(refresh_cookie_spec(token, origin), "tc_refresh"@) == Some(token),
        cookie_value(clear_cookie_spec("tc_token"@, origin), "tc_token"@) == Some(Seq::<char>::empty()),
        cookie_value(clear_cookie_spec("tc_refresh"@, origin), "tc_refresh"@) == Some(
            Seq::<char>::empty(),
        ),
{
    reveal_strlit("tc_token=");
    reveal_strlit("tc_token");
    reveal_strlit("tc_refresh=");
    reveal_strlit("tc_refresh");
    reveal_strlit("; Path=/; SameSite=");
    reveal_strlit("; Path=/; HttpOnly; SameSite=");
    reveal_strlit("=; Path=/; HttpOnly; SameSite=");
    let access = "tc_token"@;
    let refresh = "tc_refresh"@;
    lemma_plain_name(access);
    lemma_plain_name(refresh);
    let tail = samesite_spec(origin);
    let a_rest = "; Path=/; SameSite="@ + tail + "; Max-Age="@ + decimal(ACCESS_TOKEN_TTL_SECS as nat)
        + secure_spec(origin);
    assert(access_cookie_spec(token, origin) =~= access + seq!['='] + token + a_rest);
    lemma_cookie_value_first(access, token, a_rest);
    let r_rest = "; Path=/; HttpOnly; SameSite="@ + tail + "; Max-Age="@ + decimal(
        REFRESH_TOKEN_TTL_SECS as nat,
    ) + secure_spec(origin);
    assert(refresh_cookie_spec(token, origin) =~= refresh + seq!['='] + token + r_rest);
    lemma_cookie_value_first(refresh, token, r_rest);
    let c_lit = "=; Path=/; HttpOnly; SameSite="@;
    let c_rest = c_lit.skip(1) + tail + "; Max-Age=0"@ + secure_spec(origin);
    let empty = Seq::<char>::empty();
    assert(clear_cookie_spec(access, origin) =~= access + seq!['='] + empty + c_rest);
    lemma_cookie_value_first(access, empty, c_rest);
    assert(clear_cookie_spec(refresh, origin) =~= refresh + seq!['='] + empty + c_rest);
    lemma_cookie_value_first(refresh, empty, c_rest);
}

/// The `Cookie` header a client sends for the cookies `parts` followed by
/// `last`, joined by `; `.
pub open spec fn cookie_header_of(parts: Seq<Seq<char>>, last: Seq<char>) -> Seq<char>
    decreases parts.len(),
{
    if parts.len() == 0 {
        last
    } else {
        parts[0] + "; "@ + cookie_header_of(parts.drop_first(), last)
    }
}

/// A cookie part other than the access-token cookie: no `;`, no whitespace,
/// and not starting with `tc_token=`.
pub open spec fn other_cookie(p: Seq<char>) -> bool {
    &&& lacks(p, ';')
    &&& forall|k: int| 0 <= k < p.len() ==> !is_ws(#[trigger] p[k])
    &&& !has_prefix(p, "tc_token="@)
}

proof fn lemma_find_shift(z: Seq<char>, y: Seq<char>, c: char, a: int)
    requires
        0 <= a <= y.len(),
    ensures
        find_from(z + y, c, z.len() + a) == z.len() + find_from(y, c, a),
    decreases y.len() - a,
{
    if a < y.len() {
        assert((z + y)[z.len() + a] == y[a]);
        if y[a] != c {
            lemma_find_shift(z, y, c, a + 1);
        }
    }
}

proof fn lemma_token_shift(z: Seq<char>, y: Seq<char>, a: int)
    requires
        0 <= a <= y.len(),
    ensures
        token_cookie_from(z + y, z.len() + a) == token_cookie_from(y, a),
    decreases y.len() - a,
{
    let h = z + y;
    lemma_find_shift(z, y, ';', a);
    lemma_find_from(y, ';', a);
    let by = find_from(y, ';', a);
    assert(h.subrange(z.len() + a, z.len() + by) =~= y.subrange(a, by));
    if by < y.len() {
        lemma_token_shift(z, y, by + 1);
    }
}

proof fn lemma_trim_after_space(s: Seq<char>)
    ensures
        trim(seq![' '] + s) == trim(s),
{
    let h = seq![' '] + s;
    assert(is_ws(' '));
    assert(h.drop_first() =~= s);
    assert(trim_start(h) == trim_start(s));
}

proof fn lemma_token_space(r: Seq<char>)
    ensures
        token_cookie_from(seq![' '] + r, 0) == token_cookie_from(r, 0),
{
    let sp = seq![' '];
    let h = sp + r;
    lemma_find_shift(sp, r, ';', 0);
    lemma_find_from(r, ';', 0);
    let br = find_from(r, ';', 0);
    assert(find_from(h, ';', 0) == 1 + br);
    assert(h.subrange(0, 1 + br) =~= sp + r.subrange(0, br));
    lemma_trim_after_space(r.subrange(0, br));
    if br < r.len() {
        lemma_token_shift(sp, r, br + 1);
    }
}

proof fn lemma_token_first(token: Seq<char>, rest: Seq<char>)
    requires
        lacks(token, ';'),
        is_trimmed(token),
        rest.len() > 0 ==> rest[0] == ';',
    ensures
        token_cookie_from("tc_token="@ + token + rest, 0) == Some(token),
{
    reveal_strlit("tc_token=");
    reveal_strlit("tc_token");
    let pre = "tc_token="@;
    let p = pre + token;
    let h = p + rest;
    assert(pre.len() == 9);
    assert forall|k: int| 0 <= k < p.len() implies h[k] != ';' by {
        if k < 9 {
            assert(h[k] == pre[k]);
        } else {
            assert(h[k] == token[k - 9]);
        }
    }
    if rest.len() == 0 {
        assert(h =~= p);
        lemma_find_absent(h, ';', 0);
    } else {
        assert(h[p.len() as int] == ';');
        lemma_find_first(h, ';', 0, p.len() as int);
    }
    assert(h.subrange(0, p.len() as int) =~= p);
    assert(p[0] == 't');
    if token.len() > 0 {
        assert(p.last() == token.last());
    } else {
        assert(p.last() == '=');
    }
    lemma_trim_fixed(p);
    assert forall|k: int| 0 <= k < 8 implies p[k] != '=' by {
        assert(p[k] == pre[k]);
    }
    assert(p[8] == '=');
    lemma_find_first(p, '=', 0, 8);
    let name_part = p.subrange(0, 8);
    assert(name_part =~= "tc_token"@);
    assert(name_part[0] == 't' && name_part.last() == 'n');
    lemma_trim_fixed(name_part);
    assert(p.subrange(9, p.len() as int) =~= token);
    if token.len() > 0 {
        lemma_trim_fixed(token);
    } else {
        assert(trim(token) == token);
    }
}

proof fn lemma_other_cookie_passed(p: Seq<char>, r: Seq<char>)
    requires
        other_cookie(p),
    ensures
        token_cookie_from(p + "; "@ + r, 0) == token_cookie_from(r, 0),
{
    reveal_strlit("; ");
    reveal_strlit("tc_token=");
    reveal_strlit("tc_token");
    let h = p + "; "@ + r;
    let z = p + seq![';'];
    assert(h =~= z + (seq![' '] + r));
    assert(h[p.len() as int] == ';');
    assert forall|k: int| 0 <= k < p.len() implies h[k] != ';' by {
        assert(h[k] == p[k]);
    }
    lemma_find_first(h, ';', 0, p.len() as int);
    assert(h.subrange(0, p.len() as int) =~= p);
    if p.len() > 0 {
        lemma_trim_fixed(p);
    }
    assert(trim(p) == p);
    lemma_find_from(p, '=', 0);
    let e = find_from(p, '=', 0);
    if e < p.len() {
        let nm = p.subrange(0, e);
        if nm.len() > 0 {
            lemma_trim_fixed(nm);
        }
        if trim(nm) == "tc_token"@ {
            assert(nm == "tc_token"@);
            assert(e == 8);
            assert(p.subrange(0, 9) =~= "tc_token="@);
            assert(has_prefix(p, "tc_token="@));
        }
    }
    lemma_token_shift(z, seq![' '] + r, 0);
    lemma_token_space(r);
}

proof fn lemma_token_after(parts: Seq<Seq<char>>, token: Seq<char>, rest: Seq<char>)
    requires
        forall|i: int| 0 <= i < parts.len() ==> other_cookie(#[trigger] parts[i]),
        lacks(token, ';'),
        is_trimmed(token),
        rest.len() > 0 ==> rest[0] == ';',
    ensures
        token_cookie_from(cookie_header_of(parts, "tc_token="@ + token + rest), 0) == Some(token),
    decreases parts.len(),
{
    if parts.len() == 0 {
        lemma_token_first(token, rest);
    } else {
        let tail = parts.drop_first();
        assert forall|i: int| 0 <= i < tail.len() implies other_cookie(#[trigger] tail[i]) by {
            assert(tail[i] == parts[i + 1]);
        }
        lemma_token_after(tail, token, rest);
        assert(other_cookie(parts[0]));
        lemma_other_cookie_passed(parts[0], cookie_header_of(tail, "tc_token="@ + token + rest));
    }
}

/// The access token is found wherever its cookie stands in the `Cookie`
/// header: after any number of other cookies (each without `;` or
/// whitespace and not named `tc_token`) and before any further ones, the
/// `tc_token` cookie gives its token, and the request is authenticated with
/// that token whatever its `Authorization` header says.
pub proof fn lemma_token_cookie_anywhere(
    parts: Seq<Seq<char>>,
    token: Seq<char>,
    rest: Seq<char>,
    authorization: Option<Seq<char>>,
)
    requires
        forall|i: int| 0 <= i < parts.len() ==> other_cookie(#[trigger] parts[i]),
        lacks(token, ';'),
        is_trimmed(token),
        rest.len() > 0 ==> rest[0] == ';',
    ensures
        token_from_cookie_header(Some(cookie_header_of(parts, "tc_token="@ + token + rest))) == Some(
            token,
        ),
        request_token(Some(cookie_header_of(parts, "tc_token="@ + token + rest)), authorization)
            == Some(token),
{
    lemma_token_after(parts, token, rest);
}

/// Whether `s` has no whitespace at either end.
pub open spec fn is_trimmed(s: Seq<char>) -> bool {
    s.len() > 0 ==> !is_ws(s[0]) && !is_ws(s.last())
}

/// The access token a response sets in the `tc_token` cookie is the token
/// the request extractor reads back from a `Cookie` header holding it (for a
/// token without `;` and without surrounding whitespace, as signed tokens are).
pub proof fn lemma_access_cookie_roundtrip(token: Seq<char>)
    requires
        lacks(token, ';'),
        is_trimmed(token),
    ensures
        token_from_cookie_header(Some("tc_token="@ + token)) == Some(token),
        request_token(Some("tc_token="@ + token), None) == Some(token),
{
    reveal_strlit("tc_token=");
    reveal_strlit("tc_token");
    let pre = "tc_token="@;
    let h = pre + token;
    assert(pre.len() == 9);
    assert forall|k: int| 0 <= k < h.len() implies h[k] != ';' by {
        if k < 9 {
            assert(h[k] == pre[k]);
        } else {
            assert(h[k] == token[k - 9]);
        }
    }
    lemma_find_absent(h, ';', 0);
    assert(h.subrange(0, h.len() as int) =~= h);
    assert(h[0] == 't');
    if token.len() > 0 {
        assert(h.last() == token.last());
    } else {
        assert(h.last() == '=');
    }
    lemma_trim_fixed(h);
    assert(trim(h.subrange(0, h.len() as int)) == h);
    // The first '=' of the part is the one after the cookie name.
    assert forall|k: int| 0 <= k < 8 implies h[k] != '=' by {
        assert(h[k] == pre[k]);
    }
    assert(h[8] == '=');
    lemma_find_first(h, '=', 0, 8);
    let name_part = h.subrange(0, 8);
    assert(name_part =~= "tc_token"@);
    assert(name_part[0] == 't' && name_part.last() == 'n');
    lemma_trim_fixed(name_part);
    assert(h.subrange(9, h.len() as int) =~= token);
    if token.len() > 0 {
        lemma_trim_fixed(token);
    } else {
        assert(trim(token) == token);
    }
}

} // verus!
