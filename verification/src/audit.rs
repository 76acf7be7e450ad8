//! Rendering of audit records: a plain human-readable line, or a JSON
//! object line with the timestamp, action and details fields. Both carry
//! the same structural content; the caller picks the mode. Appending the
//! rendered line to durable storage is the caller's concern.

use vstd::prelude::*;
use vstd::string::StringSliceAdditionalSpecFns;

use crate::ca::AuditEntry;

verus! {

/// The JSON escape of one byte: quote, backslash and the common control
/// characters get two-character escapes; other control bytes get the
/// six-character unicode escape; everything else stands for itself.
pub open spec fn json_escape_byte(b: u8) -> Seq<u8> {
    if b == 34 {
        seq![92u8, 34u8]
    } else if b == 92 {
        seq![92u8, 92u8]
    } else if b == 10 {
        seq![92u8, 110u8]
    } else if b == 13 {
        seq![92u8, 114u8]
    } else if b == 9 {
        seq![92u8, 116u8]
    } else if b < 32 {
        seq![92u8, 117u8, 48u8, 48u8, hex_digit(b / 16), hex_digit(b % 16)]
    } else {
        seq![b]
    }
}

/// The lower-case hexadecimal digit for a value below sixteen.
pub open spec fn hex_digit(v: u8) -> u8 {
    if v < 10 {
        (48 + v) as u8
    } else {
        (87 + v) as u8
    }
}

/// The JSON escape of a byte sequence, byte for byte.
pub open spec fn spec_json_escape(s: Seq<u8>) -> Seq<u8>
    decreases s.len(),
{
    if s.len() == 0 {
        Seq::empty()
    } else {
        json_escape_byte(s[0]) + spec_json_escape(s.skip(1))
    }
}

/// Escaping distributes over appending one byte at the end.
proof fn lemma_json_escape_snoc(s: Seq<u8>, b: u8)
    ensures
        spec_json_escape(s.push(b)) == spec_json_escape(s) + json_escape_byte(b),
    decreases s.len(),
{
    if s.len() == 0 {
        assert(s.push(b)[0] == b);
        assert(s.push(b).skip(1) =~= Seq::<u8>::empty());
        assert(spec_json_escape(Seq::<u8>::empty()) == Seq::<u8>::empty());
        assert(spec_json_escape(s.push(b)) == json_escape_byte(b) + Seq::<u8>::empty());
        assert(json_escape_byte(b) + Seq::<u8>::empty() =~= json_escape_byte(b));
        assert(spec_json_escape(s) + json_escape_byte(b) =~= json_escape_byte(b));
    } else {
        assert(s.push(b)[0] == s[0]);
        assert(s.push(b).skip(1) =~= s.skip(1).push(b));
        lemma_json_escape_snoc(s.skip(1), b);
        assert(spec_json_escape(s.push(b)) == json_escape_byte(s[0]) + spec_json_escape(
            s.skip(1).push(b),
        ));
        assert(json_escape_byte(s[0]) + (spec_json_escape(s.skip(1)) + json_escape_byte(b))
            =~= (json_escape_byte(s[0]) + spec_json_escape(s.skip(1))) + json_escape_byte(b));
    }
}

/// Appends the JSON escape of `s` to `out`.
fn push_escaped(out: &mut Vec<u8>, s: &[u8])
    ensures
        final(out)@ == old(out)@ + spec_json_escape(s@),
{
    let ghost base = out@;
    let mut i: usize = 0;
    proof {
        assert(s@.take(0) =~= Seq::<u8>::empty());
        assert(out@ =~= base + spec_json_escape(s@.take(0)));
    }
    while i < s.len()
        invariant
            i <= s@.len(),
            out@ == base + spec_json_escape(s@.take(i as int)),
        decreases s@.len() - i,
    {
        let b = s[i];
        let ghost pre = out@;
        if b == 34 {
            out.push(92);
            out.push(34);
        } else if b == 92 {
            out.push(92);
            out.push(92);
        } else if b == 10 {
            out.push(92);
            out.push(110);
        } else if b == 13 {
            out.push(92);
            out.push(114);
        } else if b == 9 {
            out.push(92);
            out.push(116);
        } else if b < 32 {
            out.push(92);
            out.push(117);
            out.push(48);
            out.push(48);
            let hi = b / 16;
            let lo = b % 16;
            out.push(if hi < 10 { 48 + hi } else { 87 + hi });
            out.push(if lo < 10 { 48 + lo } else { 87 + lo });
        } else {
            out.push(b);
        }
        proof {
            assert(out@ =~= pre + json_escape_byte(s@[i as int]));
            assert(s@.take(i as int + 1) =~= s@.take(i as int).push(s@[i as int]));
            lemma_json_escape_snoc(s@.take(i as int), s@[i as int]);
            assert(out@ =~= base + spec_json_escape(s@.take(i as int + 1)));
        }
        i = i + 1;
    }
    proof {
        assert(s@.take(s@.len() as int) =~= s@);
    }
}

/// The rendered audit line over byte views: either the JSON object line
/// `{"ts":"..","action":"..","details":".."}` or the plain line
/// `action: details`, each ending in a line feed.
pub open spec fn spec_audit_line(ts: Seq<u8>, action: Seq<u8>, details: Seq<u8>, json: bool) -> Seq<
    u8,
> {
    if json {
        seq![123u8, 34u8, 116u8, 115u8, 34u8, 58u8, 34u8] + spec_json_escape(ts) + seq![
            34u8,
            44u8,
            34u8,
            97u8,
            99u8,
            116u8,
            105u8,
            111u8,
            110u8,
            34u8,
            58u8,
            34u8,
        ] + spec_json_escape(action) + seq![
            34u8,
            44u8,
            34u8,
            100u8,
            101u8,
            116u8,
            97u8,
            105u8,
            108u8,
            115u8,
            34u8,
            58u8,
            34u8,
        ] + spec_json_escape(details) + seq![34u8, 125u8, 10u8]
    } else {
        action + seq![58u8, 32u8] + details + seq![10u8]
    }
}

/// Appends each byte of `s` to `out`.
fn push_bytes(out: &mut Vec<u8>, s: &[u8])
    ensures
        final(out)@ == old(out)@ + s@,
{
    let ghost base = out@;
    let mut i: usize = 0;
    proof {
        assert(out@ =~= base + s@.take(0));
    }
    while i < s.len()
        invariant
            i <= s@.len(),
            out@ == base + s@.take(i as int),
        decreases s@.len() - i,
    {
        let ghost pre = out@;
        out.push(s[i]);
        proof {
            assert(s@.take(i as int + 1) =~= s@.take(i as int).push(s@[i as int]));
            assert(out@ =~= base + s@.take(i as int + 1));
        }
        i = i + 1;
    }
    proof {
        assert(s@.take(s@.len() as int) =~= s@);
    }
}

/// Renders one audit record as a line of bytes, in the structured JSON
/// mode or the plain mode.
pub fn render_audit_line(ts: &str, action: &str, details: &str, json: bool) -> (r: Vec<u8>)
    ensures
        r@ == spec_audit_line(ts.spec_bytes(), action.spec_bytes(), details.spec_bytes(), json),
{
    let mut out: Vec<u8> = Vec::new();
    if json {
        let ghost p0 = out@;
        out.push(123);
        out.push(34);
        out.push(116);
        out.push(115);
        out.push(34);
        out.push(58);
        out.push(34);
        proof {
            assert(out@ =~= p0 + seq![123u8, 34u8, 116u8, 115u8, 34u8, 58u8, 34u8]);
        }
        push_escaped(&mut out, ts.as_bytes());
        let ghost p1 = out@;
        out.push(34);
        out.push(44);
        out.push(34);
        out.push(97);
        out.push(99);
        out.push(116);
        out.push(105);
        out.push(111);
        out.push(110);
        out.push(34);
        out.push(58);
        out.push(34);
        proof {
            assert(out@ =~= p1 + seq![
                34u8,
                44u8,
                34u8,
                97u8,
                99u8,
                116u8,
                105u8,
                111u8,
                110u8,
                34u8,
                58u8,
                34u8,
            ]);
        }
        push_escaped(&mut out, action.as_bytes());
        let ghost p2 = out@;
        out.push(34);
        out.push(44);
        out.push(34);
        out.push(100);
        out.push(101);
        out.push(116);
        out.push(97);
        out.push(105);
        out.push(108);
        out.push(115);
        out.push(34);
        out.push(58);
        out.push(34);
        proof {
            assert(out@ =~= p2 + seq![
                34u8,
                44u8,
                34u8,
                100u8,
                101u8,
                116u8,
                97u8,
                105u8,
                108u8,
                115u8,
                34u8,
                58u8,
                34u8,
            ]);
        }
        push_escaped(&mut out, details.as_bytes());
        let ghost p3 = out@;
        out.push(34);
        out.push(125);
        out.push(10);
        proof {
            assert(out@ =~= p3 + seq![34u8, 125u8, 10u8]);
            assert(out@ =~= spec_audit_line(
                ts.spec_bytes(),
                action.spec_bytes(),
                details.spec_bytes(),
                true,
            ));
        }
    } else {
        push_bytes(&mut out, action.as_bytes());
        let ghost p4 = out@;
        out.push(58);
        out.push(32);
        proof {
            assert(out@ =~= p4 + seq![58u8, 32u8]);
        }
        push_bytes(&mut out, details.as_bytes());
        let ghost p5 = out@;
        out.push(10);
        proof {
            assert(out@ =~= p5 + seq![10u8]);
            assert(out@ =~= spec_audit_line(
                ts.spec_bytes(),
                action.spec_bytes(),
                details.spec_bytes(),
                false,
            ));
        }
    }
    out
}

/// Relies on chrono (`Utc::now`, `DateTime::to_rfc3339`) for the current
/// wall-clock timestamp. The clock decides the value; only its shape is
/// stated.
#[verifier::external_body]
pub fn rfc3339_now() -> (r: String)
    ensures
        r@.len() > 0,
{
    chrono::Utc::now().to_rfc3339()
}

/// Renders one stored audit record, with its numeric timestamp rendered
/// by the caller, as a line of bytes.
pub fn emit(entry: &AuditEntry, ts: &str, json: bool) -> (r: Vec<u8>)
    ensures
        r@ == spec_audit_line(
            ts.spec_bytes(),
            spec_bytes_of(entry.action@),
            spec_bytes_of(entry.details@),
            json,
        ),
{
    render_audit_line(ts, entry.action.as_str(), entry.details.as_str(), json)
}

/// The UTF-8 bytes of a character sequence; the byte view of the string
/// fields of an audit record.
pub open spec fn spec_bytes_of(s: Seq<char>) -> Seq<u8> {
    vstd::utf8::encode_utf8(s)
}

} // verus!
