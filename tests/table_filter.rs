use celltable::{
    add_to_table, build_rows, filter, get_regex, row_has_match, style_spec_is_valid, to_decimal,
    Align, CellSpec, Pattern,
};
use prettytable::format::Alignment;
use prettytable::{Cell, Table};

fn compile(p: &str) -> Pattern {
    get_regex(Some(p)).unwrap().unwrap()
}

fn fruit_rows() -> Vec<(&'static str, Vec<CellSpec<'static>>)> {
    vec![
        ("a", vec![CellSpec::new("apple"), CellSpec::new("red")]),
        ("b", vec![CellSpec::new("banana"), CellSpec::new("yellow")]),
        ("c", vec![CellSpec::new("cherry"), CellSpec::new("red")]),
    ]
}

fn payloads<T: Copy>(rows: &[(T, Vec<CellSpec>)]) -> Vec<T> {
    rows.iter().map(|r| r.0).collect()
}

#[test]
fn valid_pattern_compiles() {
    let p = get_regex(Some("a+b")).unwrap().unwrap();
    assert_eq!(p.as_str(), "a+b");
    assert!(p.is_match("xxaab"));
    assert!(!p.is_match("b"));
}

#[test]
fn absent_pattern_is_no_filter() {
    assert!(get_regex(None).unwrap().is_none());
}

#[test]
fn unbalanced_paren_is_rejected() {
    match get_regex(Some("(")) {
        Err(e) => {
            assert_eq!(e, "Invalid regex: (");
            assert!(e.contains("("));
        }
        Ok(_) => panic!("pattern should not compile"),
    }
}

#[test]
fn unbalanced_bracket_stops_before_filtering() {
    let r = get_regex(Some("["));
    assert!(matches!(r, Err(ref e) if e == "Invalid regex: ["));
}

#[test]
fn no_pattern_keeps_all_rows() {
    let out = filter(fruit_rows(), None);
    assert_eq!(payloads(&out), vec!["a", "b", "c"]);
    let empty: Vec<(u8, Vec<CellSpec>)> = Vec::new();
    assert!(filter(empty, None).is_empty());
}

#[test]
fn empty_rows_with_pattern() {
    let p = compile("x");
    let empty: Vec<(u8, Vec<CellSpec>)> = Vec::new();
    assert!(filter(empty, Some(&p)).is_empty());
}

#[test]
fn filter_keeps_order() {
    let p = compile("red");
    let out = filter(fruit_rows(), Some(&p));
    assert_eq!(payloads(&out), vec!["a", "c"]);
}

#[test]
fn index_only_row_is_dropped() {
    let p = compile("");
    let rows = vec![(1u8, vec![CellSpec::new_index()]), (2u8, vec![CellSpec::new("")])];
    let out = filter(rows, Some(&p));
    assert_eq!(payloads(&out), vec![2u8]);
}

#[test]
fn row_without_cells_is_dropped() {
    let p = compile("");
    let rows: Vec<(u8, Vec<CellSpec>)> = vec![(1u8, Vec::new())];
    assert!(filter(rows, Some(&p)).is_empty());
}

#[test]
fn match_is_unanchored_and_any_cell() {
    let p = compile("an");
    let cells = vec![CellSpec::new_index(), CellSpec::new("x"), CellSpec::new_owned("banana".to_string())];
    assert!(row_has_match(&cells, &p));
    assert!(!CellSpec::new_index().matches(&p));
    assert!(CellSpec::with_style_owned("cyan".to_string(), "b").matches(&p));
    assert!(!CellSpec::with_style("red", "b").matches(&p));
}

#[test]
fn positions_are_dense_after_filter() {
    let rows: Vec<(usize, Vec<CellSpec>)> = vec![
        (0, vec![CellSpec::new_index(), CellSpec::new("drop")]),
        (1, vec![CellSpec::new_index(), CellSpec::new("keep")]),
        (2, vec![CellSpec::new_index(), CellSpec::new("drop")]),
        (3, vec![CellSpec::new_index(), CellSpec::new("keep")]),
        (4, vec![CellSpec::new_index(), CellSpec::new("drop")]),
    ];
    let p = compile("keep");
    let kept = filter(rows, Some(&p));
    assert_eq!(payloads(&kept), vec![1, 3]);
    let built = build_rows(&kept);
    assert_eq!(built.len(), 2);
    assert_eq!(built[0][0].text, "0");
    assert_eq!(built[1][0].text, "1");
    assert_eq!(built[1][1].text, "keep");
}

#[test]
fn render_twice_is_identical() {
    let mut c = CellSpec::with_style("text", "Fr");
    c.align = Some(Align::Right);
    let r1 = c.render(3);
    let r2 = c.render(3);
    assert_eq!(r1.text, r2.text);
    assert_eq!(r1.style, r2.style);
    assert_eq!(r1.align, r2.align);
    assert_eq!(r1.text, "text");
    assert_eq!(r1.style, Some("Fr"));
    let i = CellSpec::new_index();
    assert_eq!(i.render(42).text, i.render(42).text);
    assert_eq!(i.render(42).text, "42");
}

#[test]
fn fruit_table_end_to_end() {
    let p = get_regex(Some("red")).unwrap();
    let rows: Vec<(&str, Vec<CellSpec>)> = fruit_rows()
        .into_iter()
        .map(|(t, mut cells)| {
            cells.insert(0, CellSpec::new_index());
            (t, cells)
        })
        .collect();
    let kept = filter(rows, p.as_ref());
    assert_eq!(payloads(&kept), vec!["a", "c"]);
    let built = build_rows(&kept);
    assert_eq!(built[0][0].text, "0");
    assert_eq!(built[1][0].text, "1");
    assert_eq!(built[1][1].text, "cherry");
    let mut table = Table::new();
    add_to_table(&mut table, &kept);
    assert_eq!(table.len(), 2);
    assert_eq!(table.get_row(1).unwrap().get_cell(0).unwrap().get_content(), "1");
    assert_eq!(table.get_row(1).unwrap().get_cell(1).unwrap().get_content(), "cherry");
    assert_eq!(table.get_row(0).unwrap().len(), 3);
}

#[test]
fn to_cell_renders_text_and_index() {
    let c = CellSpec::new_owned("owned".to_string());
    assert_eq!(c.to_cell(5).get_content(), "owned");
    assert_eq!(CellSpec::new_index().to_cell(17).get_content(), "17");
    let styled = CellSpec::with_style("wide", "bH2");
    assert_eq!(styled.to_cell(0).get_hspan(), 2);
}

#[test]
fn decimal_text_values() {
    assert_eq!(to_decimal(0), "0");
    assert_eq!(to_decimal(7), "7");
    assert_eq!(to_decimal(10), "10");
    assert_eq!(to_decimal(12345), "12345");
    assert_eq!(to_decimal(usize::MAX), usize::MAX.to_string());
}

#[test]
fn style_spec_validity() {
    assert!(style_spec_is_valid(""));
    assert!(style_spec_is_valid("bFrBg"));
    assert!(style_spec_is_valid("bH2c"));
    assert!(style_spec_is_valid("F"));
    assert!(style_spec_is_valid("FH"));
    assert!(style_spec_is_valid("H18446744073709551615"));
    assert!(!style_spec_is_valid("H"));
    assert!(!style_spec_is_valid("bHx"));
    assert!(!style_spec_is_valid("H18446744073709551616"));
    assert!(!style_spec_is_valid("H99999999999999999999999"));
}

#[test]
fn add_to_table_appends_after_existing_rows() {
    let mut table = Table::new();
    let first = vec![("x", vec![CellSpec::new_index(), CellSpec::new("first")])];
    add_to_table(&mut table, &first);
    let second = vec![
        ("y", vec![CellSpec::new_index(), CellSpec::with_style("second", "Fgc")]),
        ("z", vec![CellSpec::new_index()]),
    ];
    add_to_table(&mut table, &second);
    assert_eq!(table.len(), 3);
    assert_eq!(table.get_row(0).unwrap().get_cell(1).unwrap().get_content(), "first");
    assert_eq!(table.get_row(1).unwrap().get_cell(0).unwrap().get_content(), "0");
    assert_eq!(table.get_row(1).unwrap().get_cell(1).unwrap().get_content(), "second");
    assert_eq!(table.get_row(2).unwrap().get_cell(0).unwrap().get_content(), "1");
    assert_eq!(table.get_row(2).unwrap().len(), 1);
}

#[test]
fn multi_line_cell_keeps_its_lines() {
    let c = CellSpec::new_owned("one\ntwo".to_string());
    assert_eq!(c.render(0).text, "one\ntwo");
    assert_eq!(c.to_cell(0).get_content(), "one\ntwo");
}

#[test]
fn to_cell_applies_style_and_alignment() {
    let styled = CellSpec::with_style("txt", "Fgb");
    assert_eq!(styled.to_cell(4), Cell::new("txt").style_spec("Fgb"));
    let owned = CellSpec::with_style_owned("txt".to_string(), "Fgb");
    assert_eq!(owned.to_cell(9), styled.to_cell(4));
    let mut aligned = CellSpec::with_style("txt", "bl");
    aligned.align = Some(Align::Right);
    let mut expected = Cell::new("txt").style_spec("bl");
    expected.align(Alignment::RIGHT);
    assert_eq!(aligned.to_cell(0), expected);
    assert_ne!(aligned.to_cell(0), Cell::new("txt").style_spec("bl"));
    assert_eq!(aligned.to_cell(0), aligned.to_cell(0));
    let mut centred = CellSpec::new_index();
    centred.align = Some(Align::Center);
    assert_eq!(centred.to_cell(12), Cell::new_align("12", Alignment::CENTER));
}

#[test]
fn to_cell_is_total_on_invalid_style() {
    let bad = CellSpec::with_style("txt", "bH");
    assert_eq!(bad.to_cell(0), Cell::new("txt"));
    let too_wide = CellSpec::with_style_owned("t".to_string(), "H99999999999999999999999");
    assert_eq!(too_wide.to_cell(1).get_content(), "t");
    let mut table = Table::new();
    add_to_table(&mut table, &vec![((), vec![bad, too_wide])]);
    assert_eq!(table.len(), 1);
}

#[test]
fn add_nothing_leaves_table_alone() {
    let mut table = Table::new();
    table.set_titles(prettytable::Row::new(vec![Cell::new("title")]));
    add_to_table(&mut table, &vec![("a", vec![CellSpec::new("x")])]);
    let before = table.clone();
    let none: Vec<(u8, Vec<CellSpec>)> = Vec::new();
    add_to_table(&mut table, &none);
    assert_eq!(table, before);
    assert_eq!(table.get_row(0).unwrap().get_cell(0).unwrap().get_content(), "x");
}
