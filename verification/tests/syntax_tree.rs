//! End-to-end extraction through the real grammars, and the full pipeline
//! scenarios from extraction to formatted findings.

use rust_spell_check::extract::extract_regions_text;
use rust_spell_check::fragment::{MisspellingHit, TextFragment};
use rust_spell_check::report::{compose_finding, format_finding_line};
use rust_spell_check::syntax::{extract_regions_treesitter, Grammar};

#[test]
fn c_comment_region_is_extracted() {
    let source = b"int a;\nint b;\nint c;\nint d;\n// this is a tpyo\n";
    let fragments = extract_regions_treesitter(source, Grammar::C).unwrap();
    assert_eq!(fragments.len(), 1);
    assert_eq!(fragments[0].line, 5);
    assert_eq!(fragments[0].column_offset, 0);
    assert_eq!(fragments[0].text, b"// this is a tpyo".to_vec());
}

#[test]
fn comment_flagged_as_region_yields_a_finding() {
    let source = b"int a;\nint b;\nint c;\nint d;\n// this is a tpyo\n";
    let fragments = extract_regions_treesitter(source, Grammar::C).unwrap();
    let fragment = &fragments[0];
    let offset = fragment.text.windows(4).position(|w| w == b"tpyo").unwrap();
    assert_eq!(offset, 13);
    let hit = MisspellingHit { offset, length: 4 };
    let finding = compose_finding(fragment, &hit);
    assert_eq!((finding.line, finding.column), (5, 13));
    assert_eq!(finding.token, b"tpyo".to_vec());
    let line = format_finding_line(b"demo.c", finding.line, finding.column, &finding.token);
    assert_eq!(line, b"demo.c (5,13): tpyo".to_vec());
}

#[test]
fn trailing_c_comment_keeps_its_column() {
    let source = b"int x; // trailing note\n";
    let fragments = extract_regions_treesitter(source, Grammar::C).unwrap();
    assert_eq!(fragments.len(), 1);
    assert_eq!(fragments[0].line, 1);
    assert_eq!(fragments[0].column_offset, 7);
    assert_eq!(fragments[0].text, b"// trailing note".to_vec());
}

#[test]
fn multi_line_c_comment_spans_fragments() {
    let source = b"/* first wrds\n   second wrds */\nint x;\n";
    let fragments = extract_regions_treesitter(source, Grammar::C).unwrap();
    assert_eq!(fragments.len(), 2);
    assert_eq!(fragments[0].line, 1);
    assert_eq!(fragments[0].column_offset, 0);
    assert_eq!(fragments[0].text, b"/* first wrds".to_vec());
    assert_eq!(fragments[1].line, 2);
    assert_eq!(fragments[1].column_offset, 0);
    assert_eq!(fragments[1].text, b"   second wrds */".to_vec());
}

#[test]
fn c_string_literals_are_regions_too() {
    let source = b"const char *s = \"some wrds\";\n";
    let fragments = extract_regions_treesitter(source, Grammar::C).unwrap();
    assert_eq!(fragments.len(), 1);
    assert_eq!(fragments[0].line, 1);
    assert_eq!(fragments[0].column_offset, 16);
    assert_eq!(fragments[0].text, b"\"some wrds\"".to_vec());
}

#[test]
fn cpp_comments_are_extracted() {
    let source = b"// a hdr note\nclass X {};\n";
    let fragments = extract_regions_treesitter(source, Grammar::Cpp).unwrap();
    assert!(!fragments.is_empty());
    assert_eq!(fragments[0].line, 1);
    assert_eq!(fragments[0].column_offset, 0);
    assert_eq!(fragments[0].text, b"// a hdr note".to_vec());
}

#[test]
fn python_comments_and_strings_in_source_order() {
    let source = b"x = 1  # note here\ns = \"word\"\n";
    let fragments = extract_regions_treesitter(source, Grammar::Python).unwrap();
    assert_eq!(fragments.len(), 2);
    assert_eq!(fragments[0].line, 1);
    assert_eq!(fragments[0].column_offset, 7);
    assert_eq!(fragments[0].text, b"# note here".to_vec());
    assert_eq!(fragments[1].line, 2);
    assert_eq!(fragments[1].column_offset, 4);
    assert_eq!(fragments[1].text, b"\"word\"".to_vec());
}

#[test]
fn empty_source_has_no_regions() {
    let fragments = extract_regions_treesitter(b"", Grammar::C).unwrap();
    assert_eq!(fragments.len(), 0);
}

#[test]
fn unrecognized_extension_falls_back_to_whole_lines() {
    let dictionary: &[&[u8]] = &[b"word", b"second"];
    let text = b"mispeled word\nsecond lien";
    let fragments = extract_regions_text(text);
    let mut findings = Vec::new();
    for fragment in &fragments {
        for (offset, length) in flag_unknown_words(&fragment.text, dictionary) {
            let hit = MisspellingHit { offset, length };
            findings.push(compose_finding(fragment, &hit));
        }
    }
    assert_eq!(findings.len(), 2);
    assert_eq!((findings[0].line, findings[0].column), (1, 0));
    assert_eq!(findings[0].token, b"mispeled".to_vec());
    assert_eq!((findings[1].line, findings[1].column), (2, 7));
    assert_eq!(findings[1].token, b"lien".to_vec());
}

/// A stand-in check: every maximal alphabetic token not in the dictionary.
fn flag_unknown_words(line: &[u8], dictionary: &[&[u8]]) -> Vec<(usize, usize)> {
    let mut hits = Vec::new();
    let mut i = 0;
    while i < line.len() {
        if !line[i].is_ascii_alphabetic() {
            i += 1;
            continue;
        }
        let start = i;
        while i < line.len() && line[i].is_ascii_alphabetic() {
            i += 1;
        }
        if !dictionary.iter().any(|d| *d == &line[start..i]) {
            hits.push((start, i - start));
        }
    }
    hits
}

/// The plain-text fragment stream feeds the session interface unchanged: a
/// fragment produced by extraction satisfies submission's line discipline.
fn fragment_is_single_line(fragment: &TextFragment) -> bool {
    !fragment.text.contains(&b'\n')
}

#[test]
fn extracted_fragments_are_single_lines() {
    let fragments = extract_regions_text(b"a\nb\r\nc");
    assert!(fragments.iter().all(fragment_is_single_line));
    let source = b"/* one\n two */\n";
    let fragments = extract_regions_treesitter(source, Grammar::C).unwrap();
    assert!(fragments.iter().all(fragment_is_single_line));
}
