use rust_spell_check::extract::{extract_regions_text, fragments_from_spans, node_fragments,
    NodeSpan};
use rust_spell_check::syntax::{select_strategy, Grammar, RegionStrategy};

#[test]
fn plain_text_one_fragment_per_line() {
    let text = b"mispeled word\nsecond lien";
    let fragments = extract_regions_text(text);
    assert_eq!(fragments.len(), 2);
    assert_eq!(fragments[0].line, 1);
    assert_eq!(fragments[0].column_offset, 0);
    assert_eq!(fragments[0].text, b"mispeled word".to_vec());
    assert_eq!(fragments[1].line, 2);
    assert_eq!(fragments[1].column_offset, 0);
    assert_eq!(fragments[1].text, b"second lien".to_vec());
}

#[test]
fn plain_text_empty_input_has_no_fragments() {
    let fragments = extract_regions_text(b"");
    assert_eq!(fragments.len(), 0);
}

#[test]
fn plain_text_trailing_newline_adds_no_line() {
    let fragments = extract_regions_text(b"one\ntwo\n");
    assert_eq!(fragments.len(), 2);
    assert_eq!(fragments[0].text, b"one".to_vec());
    assert_eq!(fragments[1].text, b"two".to_vec());
}

#[test]
fn plain_text_strips_carriage_return_before_line_feed() {
    let fragments = extract_regions_text(b"one\r\ntwo\r\n");
    assert_eq!(fragments.len(), 2);
    assert_eq!(fragments[0].text, b"one".to_vec());
    assert_eq!(fragments[1].text, b"two".to_vec());
}

#[test]
fn plain_text_keeps_lone_carriage_return() {
    let fragments = extract_regions_text(b"one\rtwo");
    assert_eq!(fragments.len(), 1);
    assert_eq!(fragments[0].text, b"one\rtwo".to_vec());
}

#[test]
fn plain_text_keeps_empty_lines() {
    let fragments = extract_regions_text(b"a\n\nb");
    assert_eq!(fragments.len(), 3);
    assert_eq!(fragments[1].text, b"".to_vec());
    assert_eq!(fragments[1].line, 2);
}

#[test]
fn node_spanning_three_lines_gives_three_fragments() {
    let span = NodeSpan { row: 9, column: 4, text: b"/* one\n   two\n   three */".to_vec() };
    let fragments = node_fragments(&span);
    assert_eq!(fragments.len(), 3);
    assert_eq!(fragments[0].line, 10);
    assert_eq!(fragments[0].column_offset, 4);
    assert_eq!(fragments[0].text, b"/* one".to_vec());
    assert_eq!(fragments[1].line, 11);
    assert_eq!(fragments[1].column_offset, 0);
    assert_eq!(fragments[1].text, b"   two".to_vec());
    assert_eq!(fragments[2].line, 12);
    assert_eq!(fragments[2].column_offset, 0);
    assert_eq!(fragments[2].text, b"   three */".to_vec());
}

#[test]
fn spans_decompose_in_order() {
    let spans = vec![
        NodeSpan { row: 0, column: 2, text: b"// a".to_vec() },
        NodeSpan { row: 3, column: 0, text: b"/* b\nc */".to_vec() },
    ];
    let fragments = fragments_from_spans(&spans);
    assert_eq!(fragments.len(), 3);
    assert_eq!(fragments[0].line, 1);
    assert_eq!(fragments[0].column_offset, 2);
    assert_eq!(fragments[1].line, 4);
    assert_eq!(fragments[1].column_offset, 0);
    assert_eq!(fragments[2].line, 5);
    assert_eq!(fragments[2].column_offset, 0);
    let mut last = (0usize, 0usize);
    for f in &fragments {
        assert!((f.line, f.column_offset) >= last);
        last = (f.line, f.column_offset);
    }
}

#[test]
fn selector_maps_registered_extensions() {
    assert_eq!(select_strategy(Some(b"c".as_slice())), RegionStrategy::Syntax(Grammar::C));
    assert_eq!(select_strategy(Some(b"h".as_slice())), RegionStrategy::Syntax(Grammar::C));
    assert_eq!(select_strategy(Some(b"cc".as_slice())), RegionStrategy::Syntax(Grammar::Cpp));
    assert_eq!(select_strategy(Some(b"cpp".as_slice())), RegionStrategy::Syntax(Grammar::Cpp));
    assert_eq!(select_strategy(Some(b"cxx".as_slice())), RegionStrategy::Syntax(Grammar::Cpp));
    assert_eq!(select_strategy(Some(b"hh".as_slice())), RegionStrategy::Syntax(Grammar::Cpp));
    assert_eq!(select_strategy(Some(b"hpp".as_slice())), RegionStrategy::Syntax(Grammar::Cpp));
    assert_eq!(select_strategy(Some(b"hxx".as_slice())), RegionStrategy::Syntax(Grammar::Cpp));
    assert_eq!(select_strategy(Some(b"py".as_slice())), RegionStrategy::Syntax(Grammar::Python));
}

#[test]
fn selector_falls_back_for_unknown_extensions() {
    assert_eq!(select_strategy(None), RegionStrategy::PlainLines);
    assert_eq!(select_strategy(Some(b"txt".as_slice())), RegionStrategy::PlainLines);
    assert_eq!(select_strategy(Some(b"rs".as_slice())), RegionStrategy::PlainLines);
    assert_eq!(select_strategy(Some(b"".as_slice())), RegionStrategy::PlainLines);
    assert_eq!(select_strategy(Some(b"cpps".as_slice())), RegionStrategy::PlainLines);
}
