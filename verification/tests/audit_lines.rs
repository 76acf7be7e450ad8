use hypatia_ca::audit::{emit, render_audit_line, rfc3339_now};
use hypatia_ca::ca::{AuditEntry, CaCore};

#[test]
fn plain_line_has_exact_shape() {
    let line = render_audit_line("2024-01-01T00:00:00+00:00", "revoke", "serial-1", false);
    assert_eq!(line, b"revoke: serial-1\n".to_vec());
}

#[test]
fn json_line_has_exact_shape() {
    let line = render_audit_line("t0", "init-root", "detail", true);
    assert_eq!(
        line,
        br#"{"ts":"t0","action":"init-root","details":"detail"}"#
            .iter()
            .copied()
            .chain(std::iter::once(b'\n'))
            .collect::<Vec<u8>>()
    );
}

#[test]
fn json_line_escapes_pem_content() {
    let line = render_audit_line("t", "init-root", "line1\nline2\"q\\b", true);
    let expected =
        br#"{"ts":"t","action":"init-root","details":"line1\nline2\"q\\b"}"#.to_vec();
    let mut expected = expected;
    expected.push(b'\n');
    assert_eq!(line, expected);
}

#[test]
fn json_line_escapes_control_bytes() {
    let line = render_audit_line("t", "a", "\u{1}", true);
    let mut expected = br#"{"ts":"t","action":"a","details":"\u0001"}"#.to_vec();
    expected.push(b'\n');
    assert_eq!(line, expected);
}

#[test]
fn emit_renders_stored_entries() {
    let mut core = CaCore::new();
    core.revoke(String::from("s-1"), 7);
    let entry: &AuditEntry = &core.audit_entries()[0];
    assert_eq!(entry.ts, 7);
    let line = emit(entry, "1970-01-01T00:00:07+00:00", false);
    assert_eq!(line, b"revoke: s-1\n".to_vec());
}

#[test]
fn clock_renders_a_timestamp() {
    let ts = rfc3339_now();
    assert!(!ts.is_empty());
    assert!(ts.contains('T'));
}
