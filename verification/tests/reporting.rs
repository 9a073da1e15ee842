use rust_spell_check::fragment::{MisspellingHit, TextFragment};
use rust_spell_check::report::{compose_finding, finding_for_hit, findings_for_fragment,
    format_finding_line, render_context};

#[test]
fn coordinates_compose() {
    let fragment = TextFragment { line: 7, column_offset: 3, text: b"see the wrold".to_vec() };
    let hit = MisspellingHit { offset: 8, length: 5 };
    let finding = compose_finding(&fragment, &hit);
    assert_eq!(finding.line, 7);
    assert_eq!(finding.column, 3 + 8);
    assert_eq!(finding.token, b"wrold".to_vec());
}

#[test]
fn out_of_range_hit_yields_nothing() {
    let fragment = TextFragment { line: 1, column_offset: 0, text: b"short".to_vec() };
    assert!(finding_for_hit(&fragment, &MisspellingHit { offset: 3, length: 4 }).is_none());
    assert!(finding_for_hit(&fragment, &MisspellingHit { offset: 6, length: 0 }).is_none());
    assert!(finding_for_hit(&fragment, &MisspellingHit { offset: 0, length: 5 }).is_some());
}

#[test]
fn one_finding_per_hit() {
    let fragment = TextFragment { line: 2, column_offset: 1, text: b"aa bb cc".to_vec() };
    let hits = vec![
        MisspellingHit { offset: 0, length: 2 },
        MisspellingHit { offset: 6, length: 2 },
    ];
    let findings = findings_for_fragment(&fragment, &hits).unwrap();
    assert_eq!(findings.len(), 2);
    assert_eq!(findings[0].column, 1);
    assert_eq!(findings[0].token, b"aa".to_vec());
    assert_eq!(findings[1].column, 7);
    assert_eq!(findings[1].token, b"cc".to_vec());
}

#[test]
fn bad_hit_fails_the_whole_fragment() {
    let fragment = TextFragment { line: 2, column_offset: 0, text: b"aa".to_vec() };
    let hits = vec![
        MisspellingHit { offset: 0, length: 2 },
        MisspellingHit { offset: 2, length: 1 },
    ];
    assert!(findings_for_fragment(&fragment, &hits).is_none());
}

#[test]
fn context_wraps_the_span() {
    let fragment = TextFragment { line: 1, column_offset: 0, text: b"a tpyo here".to_vec() };
    let hit = MisspellingHit { offset: 2, length: 4 };
    let rendered = render_context(&fragment, &hit, b"<<", b">>");
    assert_eq!(rendered, b"a <<tpyo>> here".to_vec());
}

#[test]
fn context_markers_may_be_escape_codes() {
    let fragment = TextFragment { line: 1, column_offset: 0, text: b"a tpyo".to_vec() };
    let hit = MisspellingHit { offset: 2, length: 4 };
    let rendered = render_context(&fragment, &hit, b"\x1b[0;31m", b"\x1b[0m");
    assert_eq!(rendered, b"a \x1b[0;31mtpyo\x1b[0m".to_vec());
}

#[test]
fn output_line_format() {
    let line = format_finding_line(b"src/demo.c", 5, 13, b"tpyo");
    assert_eq!(line, b"src/demo.c (5,13): tpyo".to_vec());
}

#[test]
fn output_line_format_large_numbers() {
    let line = format_finding_line(b"f", 1230, 907, b"x");
    assert_eq!(line, b"f (1230,907): x".to_vec());
}

#[test]
fn output_line_format_zero() {
    let line = format_finding_line(b"f", 1, 0, b"y");
    assert_eq!(line, b"f (1,0): y".to_vec());
}
