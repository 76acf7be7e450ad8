//! The signing gateway's request handling: routing, bearer-token
//! authentication, and the JSON request body grammar.
//!
//! The body of a `POST /sign` request is an object with a required `"cn"`
//! string and an optional `"days"` non-negative integer, in either order,
//! with arbitrary whitespace between tokens and any other members
//! ignored, so long as their values are strings, numbers or the literals
//! `true`, `false` and `null`. Strings hold any bytes above the control
//! range except the quote and the backslash — UTF-8 passes through, but
//! escape sequences are not interpreted; the common name must decode as
//! UTF-8. The `days` value must fit an unsigned 32-bit integer. Anything
//! else is malformed and answered with status 400.

use vstd::prelude::*;

use crate::ca::CaCore;

verus! {

/// JSON insignificant whitespace: space, tab, line feed, carriage return.
pub open spec fn is_ws(b: u8) -> bool {
    b == 32 || b == 9 || b == 10 || b == 13
}

/// A byte allowed inside a string value: anything above the control
/// range other than the quote and the backslash.
pub open spec fn is_str_char(b: u8) -> bool {
    32 <= b && b != 34 && b != 92
}

/// An ASCII digit.
pub open spec fn is_digit(b: u8) -> bool {
    48 <= b <= 57
}

/// The first position at or after `i` that holds no whitespace.
pub open spec fn spec_ws(s: Seq<u8>, i: int) -> int
    decreases s.len() - i,
{
    if 0 <= i < s.len() && is_ws(s[i]) {
        spec_ws(s, i + 1)
    } else {
        i
    }
}

/// The position of the closing quote of a string body starting at `i`, if
/// every byte before it is a plain string byte.
pub open spec fn spec_str_end(s: Seq<u8>, i: int) -> Option<int>
    decreases s.len() - i,
{
    if 0 <= i < s.len() {
        if s[i] == 34 {
            Some(i)
        } else if is_str_char(s[i]) {
            spec_str_end(s, i + 1)
        } else {
            None
        }
    } else {
        None
    }
}

/// A quoted string at `i`: its bytes and the position after the closing
/// quote.
pub open spec fn spec_string(s: Seq<u8>, i: int) -> Option<(Seq<u8>, int)> {
    if 0 <= i < s.len() && s[i] == 34 {
        match spec_str_end(s, i + 1) {
            Some(e) => Some((s.subrange(i + 1, e), e + 1)),
            None => None,
        }
    } else {
        None
    }
}

/// Digits from `i` accumulated onto `acc`; rejects values over the
/// unsigned 32-bit maximum.
pub open spec fn spec_num_tail(s: Seq<u8>, i: int, acc: u32) -> Option<(u32, int)>
    decreases s.len() - i,
{
    if 0 <= i < s.len() && is_digit(s[i]) {
        let d = (s[i] - 48) as u32;
        if acc > 429496729 || (acc == 429496729 && d > 5) {
            None
        } else {
            spec_num_tail(s, i + 1, (acc * 10 + d) as u32)
        }
    } else {
        Some((acc, i))
    }
}

/// A non-negative integer at `i`: its value and the position after its
/// last digit.
pub open spec fn spec_number(s: Seq<u8>, i: int) -> Option<(u32, int)> {
    if 0 <= i < s.len() && is_digit(s[i]) {
        spec_num_tail(s, i, 0)
    } else {
        None
    }
}

/// The first position at or after `i` that holds no digit.
pub open spec fn spec_digits_end(s: Seq<u8>, i: int) -> int
    decreases s.len() - i,
{
    if 0 <= i < s.len() && is_digit(s[i]) {
        spec_digits_end(s, i + 1)
    } else {
        i
    }
}

/// One of the literals `true`, `false` or `null` at `i`: the position
/// after it.
pub open spec fn spec_literal(s: Seq<u8>, i: int) -> Option<int> {
    if 0 <= i && i + 4 <= s.len() && s[i] == 116 && s[i + 1] == 114 && s[i + 2] == 117 && s[i + 3]
        == 101 {
        Some(i + 4)
    } else if 0 <= i && i + 4 <= s.len() && s[i] == 110 && s[i + 1] == 117 && s[i + 2] == 108 && s[i
        + 3] == 108 {
        Some(i + 4)
    } else if 0 <= i && i + 5 <= s.len() && s[i] == 102 && s[i + 1] == 97 && s[i + 2] == 108 && s[i
        + 3] == 115 && s[i + 4] == 101 {
        Some(i + 5)
    } else {
        None
    }
}

/// An exponent part starting at the `e`/`E` at `i`: the position after
/// its digits.
pub open spec fn spec_skip_exponent(s: Seq<u8>, i: int) -> Option<int> {
    let j = if 0 <= i + 1 < s.len() && (s[i + 1] == 43 || s[i + 1] == 45) {
        i + 2
    } else {
        i + 1
    };
    if 0 <= j < s.len() && is_digit(s[j]) {
        Some(spec_digits_end(s, j))
    } else {
        None
    }
}

/// A JSON number of any shape at `i` (sign, fraction, exponent), skipped
/// without interpreting its value: the position after it.
pub open spec fn spec_skip_number(s: Seq<u8>, i: int) -> Option<int> {
    let i1 = if 0 <= i < s.len() && s[i] == 45 {
        i + 1
    } else {
        i
    };
    if 0 <= i1 < s.len() && is_digit(s[i1]) {
        let i2 = spec_digits_end(s, i1);
        let i3 = if 0 <= i2 < s.len() && s[i2] == 46 {
            if 0 <= i2 + 1 < s.len() && is_digit(s[i2 + 1]) {
                Some(spec_digits_end(s, i2 + 1))
            } else {
                None
            }
        } else {
            Some(i2)
        };
        match i3 {
            None => None,
            Some(p) => if 0 <= p < s.len() && (s[p] == 101 || s[p] == 69) {
                spec_skip_exponent(s, p)
            } else {
                Some(p)
            },
        }
    } else {
        None
    }
}

/// An ignored member's value at `i`: a string, a number or a literal,
/// skipped without interpretation. Nested objects and arrays are not
/// accepted.
pub open spec fn spec_skip_value(s: Seq<u8>, i: int) -> Option<int> {
    match spec_string(s, i) {
        Some((v, j)) => Some(j),
        None => match spec_literal(s, i) {
            Some(j) => Some(j),
            None => spec_skip_number(s, i),
        },
    }
}

/// The bytes of the `"cn"` key.
pub open spec fn cn_key() -> Seq<u8> {
    seq![99u8, 110u8]
}

/// The bytes of the `"days"` key.
pub open spec fn days_key() -> Seq<u8> {
    seq![100u8, 97u8, 121u8, 115u8]
}

/// One `key: value` member at `i`, folded into the fields parsed so far.
/// `"cn"` takes a string, `"days"` an unsigned integer, each at most
/// once; any other key is accepted and its value skipped.
pub open spec fn spec_member(
    s: Seq<u8>,
    i: int,
    cn0: Option<Seq<u8>>,
    days0: Option<u32>,
) -> Option<((Option<Seq<u8>>, Option<u32>), int)> {
    match spec_string(s, i) {
        None => None,
        Some((key, j)) => {
            let j2 = spec_ws(s, j);
            if 0 <= j2 < s.len() && s[j2] == 58 {
                let j3 = spec_ws(s, j2 + 1);
                if key == cn_key() {
                    if cn0 is Some {
                        None
                    } else {
                        match spec_string(s, j3) {
                            Some((v, j4)) => Some(((Some(v), days0), j4)),
                            None => None,
                        }
                    }
                } else if key == days_key() {
                    if days0 is Some {
                        None
                    } else {
                        match spec_number(s, j3) {
                            Some((n, j4)) => Some(((cn0, Some(n)), j4)),
                            None => None,
                        }
                    }
                } else {
                    match spec_skip_value(s, j3) {
                        Some(j4) => Some(((cn0, days0), j4)),
                        None => None,
                    }
                }
            } else {
                None
            }
        },
    }
}

/// A comma-separated member list from `i`, folded into the fields parsed
/// so far: the collected fields and the whitespace-skipped position after
/// the last member. The position guard makes the recursion visibly
/// bounded; a member always moves the position forward.
pub open spec fn spec_members(
    s: Seq<u8>,
    i: int,
    cn0: Option<Seq<u8>>,
    days0: Option<u32>,
) -> Option<((Option<Seq<u8>>, Option<u32>), int)>
    decreases s.len() - i,
{
    match spec_member(s, i, cn0, days0) {
        None => None,
        Some(((cn, days), j)) => {
            let j1 = spec_ws(s, j);
            if 0 <= j1 < s.len() && s[j1] == 44 {
                let j2 = spec_ws(s, j1 + 1);
                if i < j2 <= s.len() {
                    spec_members(s, j2, cn, days)
                } else {
                    None
                }
            } else {
                Some(((cn, days), j1))
            }
        },
    }
}

/// The closing brace at `i`, trailing whitespace to the end of the input,
/// and the required `"cn"` field.
pub open spec fn spec_finish(
    s: Seq<u8>,
    i: int,
    cn: Option<Seq<u8>>,
    days: Option<u32>,
) -> Option<(Seq<u8>, Option<u32>)> {
    if 0 <= i < s.len() && s[i] == 125 && spec_ws(s, i + 1) == s.len() {
        match cn {
            Some(c) => Some((c, days)),
            None => None,
        }
    } else {
        None
    }
}

/// The certificate request grammar over a whole body: an object holding a
/// required `"cn"` string and an optional `"days"` integer, in any order
/// among any number of ignored members.
pub open spec fn spec_request(s: Seq<u8>) -> Option<(Seq<u8>, Option<u32>)> {
    let i0 = spec_ws(s, 0);
    if 0 <= i0 < s.len() && s[i0] == 123 {
        let i1 = spec_ws(s, i0 + 1);
        match spec_members(s, i1, None, None) {
            None => None,
            Some(((cn, days), j)) => spec_finish(s, j, cn, days),
        }
    } else {
        None
    }
}

/// A parsed certificate request: the requested common name as bytes and
/// the optional validity window in days.
pub struct CertRequest {
    pub cn: Vec<u8>,
    pub days: Option<u32>,
}

/// Skips whitespace from `i` and returns the first position that holds
/// none.
fn ws_end(s: &Vec<u8>, i: usize) -> (r: usize)
    requires
        i <= s@.len(),
    ensures
        r == spec_ws(s@, i as int),
        i <= r <= s@.len(),
        r < s@.len() ==> !is_ws(s@[r as int]),
    decreases s@.len() - i,
{
    if i < s.len() {
        let b = s[i];
        if b == 32 || b == 9 || b == 10 || b == 13 {
            return ws_end(s, i + 1);
        }
    }
    i
}

/// Parses a quoted string at `i`: its bytes and the position after the
/// closing quote.
fn parse_string(s: &Vec<u8>, i: usize) -> (r: Option<(Vec<u8>, usize)>)
    requires
        i <= s@.len(),
    ensures
        match r {
            Some(p) => spec_string(s@, i as int) == Some((p.0@, p.1 as int)) && p.1 <= s@.len()
                && i < p.1,
            None => spec_string(s@, i as int) is None,
        },
{
    if i >= s.len() || s[i] != 34 {
        return None;
    }
    let mut j = i + 1;
    let mut out: Vec<u8> = Vec::new();
    loop
        invariant
            i < s@.len(),
            s@[i as int] == 34,
            i + 1 <= j <= s@.len(),
            spec_str_end(s@, i as int + 1) == spec_str_end(s@, j as int),
            out@ == s@.subrange(i as int + 1, j as int),
        decreases s@.len() - j,
    {
        if j >= s.len() {
            return None;
        }
        let b = s[j];
        if b == 34 {
            proof {
                assert(s@[j as int] == 34);
                assert(spec_str_end(s@, j as int) == Some(j as int));
                assert(spec_str_end(s@, i as int + 1) == Some(j as int));
                assert(s@[i as int] == 34);
                assert(spec_string(s@, i as int) matches Some(q) && q.0 == s@.subrange(
                    i as int + 1,
                    j as int,
                ) && q.1 == j as int + 1);
            }
            return Some((out, j + 1));
        }
        if b < 32 || b == 92 {
            proof {
                assert(spec_str_end(s@, j as int) is None);
            }
            return None;
        }
        out.push(b);
        proof {
            assert(out@ =~= s@.subrange(i as int + 1, j as int + 1));
        }
        j = j + 1;
    }
}

/// Parses a non-negative integer at `i` that fits an unsigned 32-bit
/// value, returning it and the position after its last digit.
fn parse_number(s: &Vec<u8>, i: usize) -> (r: Option<(u32, usize)>)
    requires
        i <= s@.len(),
    ensures
        match r {
            Some(p) => spec_number(s@, i as int) == Some((p.0, p.1 as int)) && i < p.1 <= s@.len(),
            None => spec_number(s@, i as int) is None,
        },
{
    if i >= s.len() || !(48 <= s[i] && s[i] <= 57) {
        return None;
    }
    let mut j = i;
    let mut acc: u32 = 0;
    loop
        invariant
            i < s@.len(),
            is_digit(s@[i as int]),
            i <= j <= s@.len(),
            spec_num_tail(s@, i as int, 0) == spec_num_tail(s@, j as int, acc),
        decreases s@.len() - j,
    {
        if j >= s.len() || !(48 <= s[j] && s[j] <= 57) {
            proof {
                assert(spec_num_tail(s@, j as int, acc) == Some((acc, j as int)));
                if j == i {
                    assert(is_digit(s@[i as int]));
                    assert(false);
                }
            }
            return Some((acc, j));
        }
        let d = (s[j] - 48) as u32;
        if acc > 429496729 || (acc == 429496729 && d > 5) {
            proof {
                assert(spec_num_tail(s@, j as int, acc) is None);
            }
            return None;
        }
        acc = acc * 10 + d;
        j = j + 1;
    }
}

/// Skips digits from `i` and returns the first position that holds none.
fn digits_end(s: &Vec<u8>, i: usize) -> (r: usize)
    requires
        i <= s@.len(),
    ensures
        r == spec_digits_end(s@, i as int),
        i <= r <= s@.len(),
    decreases s@.len() - i,
{
    if i < s.len() {
        let b = s[i];
        if 48 <= b && b <= 57 {
            return digits_end(s, i + 1);
        }
    }
    i
}

/// Skips an ignored member's value at `i`: a string, a number or one of
/// the three literals.
fn skip_value(s: &Vec<u8>, i: usize) -> (r: Option<usize>)
    requires
        i <= s@.len(),
    ensures
        match r {
            Some(p) => spec_skip_value(s@, i as int) == Some(p as int) && p <= s@.len(),
            None => spec_skip_value(s@, i as int) is None,
        },
{
    match parse_string(s, i) {
        Some((_, j)) => {
            return Some(j);
        },
        None => {},
    }
    if s.len() - i >= 4 && s[i] == 116 && s[i + 1] == 114 && s[i + 2] == 117 && s[i + 3] == 101 {
        return Some(i + 4);
    }
    if s.len() - i >= 4 && s[i] == 110 && s[i + 1] == 117 && s[i + 2] == 108 && s[i + 3] == 108 {
        return Some(i + 4);
    }
    if s.len() - i >= 5 && s[i] == 102 && s[i + 1] == 97 && s[i + 2] == 108 && s[i + 3] == 115 && s[i
        + 4] == 101 {
        return Some(i + 5);
    }
    let i1 = if i < s.len() && s[i] == 45 {
        i + 1
    } else {
        i
    };
    if !(i1 < s.len() && 48 <= s[i1] && s[i1] <= 57) {
        return None;
    }
    let i2 = digits_end(s, i1);
    let i3 = if i2 < s.len() && s[i2] == 46 {
        if i2 + 1 < s.len() && 48 <= s[i2 + 1] && s[i2 + 1] <= 57 {
            digits_end(s, i2 + 1)
        } else {
            return None;
        }
    } else {
        i2
    };
    if i3 < s.len() && (s[i3] == 101 || s[i3] == 69) {
        let j = if i3 + 1 < s.len() && (s[i3 + 1] == 43 || s[i3 + 1] == 45) {
            i3 + 2
        } else {
            i3 + 1
        };
        if j < s.len() && 48 <= s[j] && s[j] <= 57 {
            Some(digits_end(s, j))
        } else {
            None
        }
    } else {
        Some(i3)
    }
}

/// Whether the bytes are exactly the `"cn"` key.
fn is_cn_key(key: &Vec<u8>) -> (r: bool)
    ensures
        r == (key@ == cn_key()),
{
    let r = key.len() == 2 && key[0] == 99 && key[1] == 110;
    proof {
        if r {
            assert(key@ =~= cn_key());
        }
        if key@ == cn_key() {
            assert(key@.len() == 2 && key@[0] == 99 && key@[1] == 110);
        }
    }
    r
}

/// Whether the bytes are exactly the `"days"` key.
fn is_days_key(key: &Vec<u8>) -> (r: bool)
    ensures
        r == (key@ == days_key()),
{
    let r = key.len() == 4 && key[0] == 100 && key[1] == 97 && key[2] == 121 && key[3] == 115;
    proof {
        if r {
            assert(key@ =~= days_key());
        }
        if key@ == days_key() {
            assert(key@.len() == 4 && key@[0] == 100);
        }
    }
    r
}

/// The byte view of an optional byte vector.
pub open spec fn view_opt_bytes(v: Option<Vec<u8>>) -> Option<Seq<u8>> {
    match v {
        Some(b) => Some(b@),
        None => None,
    }
}

/// Parses one `key: value` member at `i` into the fields collected so far.
fn parse_member(s: &Vec<u8>, i: usize, cn0: Option<Vec<u8>>, days0: Option<u32>) -> (r: Option<
    ((Option<Vec<u8>>, Option<u32>), usize),
>)
    requires
        i <= s@.len(),
    ensures
        match r {
            Some(p) => {
                &&& spec_member(s@, i as int, view_opt_bytes(cn0), days0) matches Some(q)
                    && q.0.0 == view_opt_bytes(p.0.0) && q.0.1 == p.0.1 && q.1 == p.1 as int
                &&& p.1 <= s@.len()
            },
            None => spec_member(s@, i as int, view_opt_bytes(cn0), days0) is None,
        },
{
    let (key, j) = match parse_string(s, i) {
        None => {
            return None;
        },
        Some(p) => p,
    };
    let j2 = ws_end(s, j);
    if !(j2 < s.len() && s[j2] == 58) {
        return None;
    }
    let j3 = ws_end(s, j2 + 1);
    if is_cn_key(&key) {
        if cn0.is_some() {
            return None;
        }
        match parse_string(s, j3) {
            Some((v, j4)) => Some(((Some(v), days0), j4)),
            None => None,
        }
    } else if is_days_key(&key) {
        if days0.is_some() {
            return None;
        }
        match parse_number(s, j3) {
            Some((n, j4)) => Some(((cn0, Some(n)), j4)),
            None => None,
        }
    } else {
        match skip_value(s, j3) {
            Some(j4) => Some(((cn0, days0), j4)),
            None => None,
        }
    }
}

/// Parses the comma-separated member list from `i`, returning the
/// collected fields and the whitespace-skipped position after the last
/// member.
fn parse_members(s: &Vec<u8>, i: usize, cn0: Option<Vec<u8>>, days0: Option<u32>) -> (r: Option<
    ((Option<Vec<u8>>, Option<u32>), usize),
>)
    requires
        i <= s@.len(),
    ensures
        match r {
            Some(p) => {
                &&& spec_members(s@, i as int, view_opt_bytes(cn0), days0) matches Some(q)
                    && q.0.0 == view_opt_bytes(p.0.0) && q.0.1 == p.0.1 && q.1 == p.1 as int
                &&& p.1 <= s@.len()
            },
            None => spec_members(s@, i as int, view_opt_bytes(cn0), days0) is None,
        },
    decreases s@.len() - i,
{
    let ((cn, days), j) = match parse_member(s, i, cn0, days0) {
        None => {
            return None;
        },
        Some(p) => p,
    };
    let j1 = ws_end(s, j);
    if j1 < s.len() && s[j1] == 44 {
        let j2 = ws_end(s, j1 + 1);
        if i < j2 {
            parse_members(s, j2, cn, days)
        } else {
            None
        }
    } else {
        Some(((cn, days), j1))
    }
}

/// Parses a whole certificate-request body. Returns the request exactly
/// when the body matches the grammar [`spec_request`].
pub fn parse_request(body: &Vec<u8>) -> (r: Option<CertRequest>)
    ensures
        match r {
            Some(cr) => spec_request(body@) == Some((cr.cn@, cr.days)),
            None => spec_request(body@) is None,
        },
{
    let s = body;
    let i0 = ws_end(s, 0);
    if !(i0 < s.len() && s[i0] == 123) {
        return None;
    }
    let i1 = ws_end(s, i0 + 1);
    let ((cn, days), j) = match parse_members(s, i1, None, None) {
        None => {
            return None;
        },
        Some(p) => p,
    };
    finish_request(s, j, cn, days)
}

/// Checks the closing brace and the end of input, and assembles the
/// request from the collected fields.
fn finish_request(s: &Vec<u8>, i: usize, cn: Option<Vec<u8>>, days: Option<u32>) -> (r: Option<
    CertRequest,
>)
    requires
        i <= s@.len(),
    ensures
        match r {
            Some(cr) => spec_finish(s@, i as int, view_opt_bytes(cn), days) == Some(
                (cr.cn@, cr.days),
            ),
            None => spec_finish(s@, i as int, view_opt_bytes(cn), days) is None,
        },
{
    if !(i < s.len() && s[i] == 125) {
        return None;
    }
    let e = ws_end(s, i + 1);
    if e != s.len() {
        return None;
    }
    match cn {
        Some(c) => Some(CertRequest { cn: c, days }),
        None => None,
    }
}

/// The character view of an optional authorization header.
pub open spec fn spec_auth_view(a: Option<&String>) -> Option<Seq<char>> {
    match a {
        Some(h) => Some(h@),
        None => None,
    }
}

/// Whether the authorization header is exactly `Bearer` followed by the
/// configured token.
pub open spec fn spec_auth_ok(auth: Option<Seq<char>>, token: Seq<char>) -> bool {
    auth matches Some(h) && h == "Bearer "@ + token
}

/// Whether a byte sequence is the UTF-8 encoding of some character
/// sequence, i.e. decodes as UTF-8.
pub open spec fn decodes_utf8(b: Seq<u8>) -> bool {
    exists|cs: Seq<char>| #[trigger] vstd::utf8::encode_utf8(cs) == b
}

/// Relies on `String::from_utf8`: succeeds exactly on valid UTF-8, and
/// the returned string's UTF-8 encoding is the input bytes.
#[verifier::external_body]
fn bytes_to_string(v: Vec<u8>) -> (r: Result<String, crate::Error>)
    ensures
        r matches Ok(s) ==> vstd::utf8::encode_utf8(s@) == v@,
        r is Ok <==> decodes_utf8(v@),
        r matches Err(e) ==> e == crate::Error::MalformedInput,
{
    match String::from_utf8(v) {
        Ok(s) => Ok(s),
        Err(_) => Err(crate::Error::MalformedInput),
    }
}

/// What the gateway answers: an HTTP status code and a plain body.
pub struct GatewayResponse {
    pub status: u16,
    pub body: String,
}

/// The validity window, in days, of a request that names none.
pub const DEFAULT_VALIDITY_DAYS: u32 = 365;

/// The requested validity window: the request's own `days` field, or the
/// default where the optional field is absent.
pub open spec fn requested_days(d: Option<u32>) -> u32 {
    match d {
        Some(x) => x,
        None => DEFAULT_VALIDITY_DAYS,
    }
}

/// Handles one gateway request against the certificate authority core.
///
/// Routing and policy, in order: anything but `POST /sign` is 404; a
/// missing or wrong bearer token is 401; a body outside the request
/// grammar, or a common name that does not decode as UTF-8, is 400; an
/// issuance failure (no root anchor, a window out of range, or a
/// primitive failure) is 500; otherwise the leaf certificate is issued —
/// with the default validity where the optional `days` field is absent —
/// and the answer is 200. Every non-200 answer leaves the store
/// untouched.
pub fn handle_sign_request(
    core: &mut CaCore,
    method: &String,
    path: &String,
    auth: Option<&String>,
    token: &String,
    body: &Vec<u8>,
    now: u64,
) -> (r: GatewayResponse)
    requires
        old(core).inv(),
    ensures
        final(core).inv(),
        !(method@ == "POST"@ && path@ == "/sign"@) ==> r.status == 404 && *final(core) == *old(
            core,
        ),
        method@ == "POST"@ && path@ == "/sign"@ && !spec_auth_ok(spec_auth_view(auth), token@)
            ==> r.status == 401 && *final(core) == *old(core),
        method@ == "POST"@ && path@ == "/sign"@ && spec_auth_ok(spec_auth_view(auth), token@)
            && spec_request(body@) is None ==> r.status == 400 && *final(core) == *old(core),
        spec_request(body@) matches Some(q) ==> (method@ == "POST"@ && path@ == "/sign"@
            && spec_auth_ok(spec_auth_view(auth), token@) && !decodes_utf8(q.0)) ==> (r.status
            == 400 && *final(core) == *old(core)),
        spec_request(body@) matches Some(q) ==> (method@ == "POST"@ && path@ == "/sign"@
            && spec_auth_ok(spec_auth_view(auth), token@) && decodes_utf8(q.0)) ==> {
            &&& r.status == 200 || r.status == 500
            &&& old(core).spec_root() is None ==> r.status == 500
            &&& r.status == 500 ==> *final(core) == *old(core)
            &&& r.status == 200 ==> {
                &&& final(core).spec_certs().len() == old(core).spec_certs().len() + 1
                &&& final(core).spec_certs().take(old(core).spec_certs().len() as int) == old(
                    core,
                ).spec_certs()
                &&& vstd::utf8::encode_utf8(final(core).spec_certs().last().cn@) == q.0
                &&& final(core).spec_certs().last().not_after == now + requested_days(q.1) * 86400
                &&& final(core).spec_certs().last().sans@.len() == 0
                &&& final(core).spec_root() == old(core).spec_root()
                &&& final(core).spec_revoked() == old(core).spec_revoked()
                &&& crate::ca::audit_appended(
                    old(core).spec_audit(),
                    final(core).spec_audit(),
                    now,
                    "sign-cert"@,
                    final(core).spec_certs().last().cn@,
                )
            }
        },
        r.status == 200 ==> r.body@ == "ok"@,
        r.status == 404 ==> r.body@ == "not found"@,
        r.status == 401 ==> r.body@ == "unauthorized"@,
        r.status == 400 ==> r.body@ == "bad request"@,
        r.status == 500 ==> r.body@ == "error"@,
{
    let post = String::from_str("POST");
    let sign_path = String::from_str("/sign");
    if !(*method == post && *path == sign_path) {
        return GatewayResponse { status: 404, body: String::from_str("not found") };
    }
    let expected = String::from_str("Bearer ").concat(token.as_str());
    let authorized = match auth {
        Some(h) => *h == expected,
        None => false,
    };
    if !authorized {
        return GatewayResponse { status: 401, body: String::from_str("unauthorized") };
    }
    let req = match parse_request(body) {
        None => {
            return GatewayResponse { status: 400, body: String::from_str("bad request") };
        },
        Some(q) => q,
    };
    let days = match req.days {
        None => DEFAULT_VALIDITY_DAYS,
        Some(d) => d,
    };
    let cn = match bytes_to_string(req.cn) {
        Ok(s) => s,
        Err(_) => {
            return GatewayResponse { status: 400, body: String::from_str("bad request") };
        },
    };
    match core.issue(cn, Vec::new(), days, now) {
        Ok(_) => GatewayResponse { status: 200, body: String::from_str("ok") },
        Err(_) => GatewayResponse { status: 500, body: String::from_str("error") },
    }
}

} // verus!
