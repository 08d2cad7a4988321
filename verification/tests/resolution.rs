use binread_attrs::attrs::{AnnotationValue, AttrBlock, AttrKind, Field, Payload};
use binread_attrs::descriptor::{FieldLevelAttrs, PassedArgs};
use binread_attrs::error::{CompileError, SpanError};
use binread_attrs::resolve::{extract, first_span_true, get_only_first};
use binread_attrs::span::Span;

fn sp(start: usize, end: usize) -> Span {
    Span { start, end }
}

fn flag(kind: AttrKind, start: usize, end: usize) -> AnnotationValue {
    AnnotationValue { kind, payload: Payload::Absent, span: sp(start, end) }
}

fn expr(kind: AttrKind, text: &str, start: usize, end: usize) -> AnnotationValue {
    AnnotationValue { kind, payload: Payload::Expr(text.to_string()), span: sp(start, end) }
}

fn block(vals: Vec<AnnotationValue>) -> AttrBlock {
    AttrBlock { path: "br".to_string(), parsed: Ok(vals) }
}

fn field(blocks: Vec<AttrBlock>) -> Field {
    Field { attrs: blocks }
}

#[test]
fn empty_field_resolves_to_default() {
    let f = field(vec![]);
    let d = FieldLevelAttrs::from_field(&f).unwrap();
    assert_eq!(d, FieldLevelAttrs::default());
    assert_eq!(d.args, PassedArgs::List(vec![]));
    assert!(!d.little.value);
    assert!(!d.big.value);
    assert_eq!(d.count, None);
    assert!(d.asserts.is_empty());
}

#[test]
fn unrecognized_blocks_are_ignored() {
    let f = field(vec![AttrBlock {
        path: "serde".to_string(),
        parsed: Ok(vec![flag(AttrKind::Little, 1, 2)]),
    }]);
    let d = FieldLevelAttrs::from_field(&f).unwrap();
    assert_eq!(d, FieldLevelAttrs::default());
}

#[test]
fn unrecognized_malformed_block_is_ignored() {
    let f = field(vec![AttrBlock {
        path: "doc".to_string(),
        parsed: Err(SpanError::new(sp(4, 9), "unexpected token")),
    }]);
    assert!(FieldLevelAttrs::from_field(&f).is_ok());
}

#[test]
fn long_namespace_alias_is_recognized() {
    let f = field(vec![AttrBlock {
        path: "binread".to_string(),
        parsed: Ok(vec![flag(AttrKind::Ignore, 1, 2)]),
    }]);
    let d = FieldLevelAttrs::from_field(&f).unwrap();
    assert!(d.ignore);
}

#[test]
fn single_occurrence_passes_through() {
    let f = field(vec![block(vec![expr(AttrKind::Count, "5", 10, 21)])]);
    let d = FieldLevelAttrs::from_field(&f).unwrap();
    assert_eq!(d.count, Some("5".to_string()));
    assert_eq!(d.calc, None);
}

#[test]
fn magic_literal_passes_through() {
    let m = AnnotationValue {
        kind: AttrKind::Magic,
        payload: Payload::Lit("0x42".to_string()),
        span: sp(3, 8),
    };
    let f = field(vec![block(vec![m])]);
    let d = FieldLevelAttrs::from_field(&f).unwrap();
    assert_eq!(d.magic, Some("0x42".to_string()));
}

#[test]
fn duplicate_single_valued_kind_conflicts() {
    let f = field(vec![block(vec![
        expr(AttrKind::Count, "1", 5, 9),
        expr(AttrKind::Count, "2", 30, 44),
    ])]);
    match FieldLevelAttrs::from_field(&f) {
        Err(CompileError::SpanError(e)) => {
            assert_eq!(e.span, sp(5, 44));
            assert_eq!(e.message, "Conflicting instances of count");
        },
        other => panic!("expected a conflict, got {:?}", other),
    }
}

#[test]
fn duplicates_reported_in_fixed_order() {
    // both pad_before and count are duplicated; pad_before is checked first
    let f = field(vec![block(vec![
        expr(AttrKind::Count, "1", 1, 2),
        expr(AttrKind::PadBefore, "4", 3, 6),
        expr(AttrKind::Count, "2", 7, 8),
        expr(AttrKind::PadBefore, "8", 9, 12),
    ])]);
    match FieldLevelAttrs::from_field(&f) {
        Err(CompileError::SpanError(e)) => {
            assert_eq!(e.message, "Conflicting instances of pad_before");
            assert_eq!(e.span, sp(3, 12));
        },
        other => panic!("expected a conflict, got {:?}", other),
    }
}

#[test]
fn presence_flag_once_is_true() {
    let f = field(vec![block(vec![flag(AttrKind::Ignore, 2, 7)])]);
    let d = FieldLevelAttrs::from_field(&f).unwrap();
    assert!(d.ignore);
}

#[test]
fn presence_flag_twice_is_true() {
    let f = field(vec![block(vec![
        flag(AttrKind::Ignore, 2, 7),
        flag(AttrKind::Ignore, 9, 14),
    ])]);
    let d = FieldLevelAttrs::from_field(&f).unwrap();
    assert!(d.ignore);
}

#[test]
fn presence_flag_five_times_is_true() {
    let occurrences = vec![
        flag(AttrKind::Temp, 1, 2),
        flag(AttrKind::Temp, 3, 4),
        flag(AttrKind::Temp, 5, 6),
        flag(AttrKind::Temp, 7, 8),
        flag(AttrKind::Temp, 9, 10),
    ];
    let f = field(vec![block(occurrences)]);
    let d = FieldLevelAttrs::from_field(&f).unwrap();
    assert!(d.temp);
}

#[test]
fn endian_flag_keeps_first_span_only() {
    let f = field(vec![block(vec![
        flag(AttrKind::Little, 11, 17),
        flag(AttrKind::Little, 40, 46),
    ])]);
    let d = FieldLevelAttrs::from_field(&f).unwrap();
    assert!(d.little.value);
    assert_eq!(d.little.span, sp(11, 17));
}

#[test]
fn args_and_args_tuple_are_exclusive() {
    let list = AnnotationValue {
        kind: AttrKind::Args,
        payload: Payload::List(vec!["a".to_string()]),
        span: sp(5, 12),
    };
    let tuple = AnnotationValue {
        kind: AttrKind::ArgsTuple,
        payload: Payload::Expr("t".to_string()),
        span: sp(20, 33),
    };
    let f = field(vec![block(vec![list, tuple])]);
    match FieldLevelAttrs::from_field(&f) {
        Err(CompileError::SpanError(e)) => {
            assert_eq!(e.span, sp(5, 33));
            assert_eq!(e.message, "Conflicting instances of args and args_tuple");
        },
        other => panic!("expected the cross-group conflict, got {:?}", other),
    }
}

#[test]
fn cross_group_conflict_precedes_uniqueness() {
    // args occurs twice and args_tuple once: the cross-group error wins and
    // spans every occurrence of both groups
    let a1 = AnnotationValue {
        kind: AttrKind::Args,
        payload: Payload::List(vec![]),
        span: sp(1, 4),
    };
    let a2 = AnnotationValue {
        kind: AttrKind::Args,
        payload: Payload::List(vec![]),
        span: sp(6, 9),
    };
    let t = AnnotationValue {
        kind: AttrKind::ArgsTuple,
        payload: Payload::Expr("t".to_string()),
        span: sp(11, 19),
    };
    let f = field(vec![block(vec![a1, a2, t])]);
    match FieldLevelAttrs::from_field(&f) {
        Err(CompileError::SpanError(e)) => {
            assert_eq!(e.span, sp(1, 19));
            assert_eq!(e.message, "Conflicting instances of args and args_tuple");
        },
        other => panic!("expected the cross-group conflict, got {:?}", other),
    }
}

#[test]
fn args_list_passes_through() {
    let list = AnnotationValue {
        kind: AttrKind::Args,
        payload: Payload::List(vec!["a".to_string(), "b".to_string()]),
        span: sp(5, 12),
    };
    let f = field(vec![block(vec![list])]);
    let d = FieldLevelAttrs::from_field(&f).unwrap();
    assert_eq!(d.args, PassedArgs::List(vec!["a".to_string(), "b".to_string()]));
}

#[test]
fn args_tuple_passes_through() {
    let tuple = AnnotationValue {
        kind: AttrKind::ArgsTuple,
        payload: Payload::Expr("(1, 2)".to_string()),
        span: sp(5, 12),
    };
    let f = field(vec![block(vec![tuple])]);
    let d = FieldLevelAttrs::from_field(&f).unwrap();
    assert_eq!(d.args, PassedArgs::Tuple("(1, 2)".to_string()));
}

#[test]
fn order_preserved_across_blocks() {
    // the same flag in two separate blocks: the first block's occurrence
    // provides the span, as if the blocks were concatenated in order
    let f = field(vec![
        block(vec![flag(AttrKind::Big, 3, 9)]),
        block(vec![flag(AttrKind::Big, 21, 27), expr(AttrKind::Count, "n", 30, 31)]),
    ]);
    let d = FieldLevelAttrs::from_field(&f).unwrap();
    assert!(d.big.value);
    assert_eq!(d.big.span, sp(3, 9));
    assert_eq!(d.count, Some("n".to_string()));
}

#[test]
fn little_and_count_end_to_end() {
    let f = field(vec![
        block(vec![flag(AttrKind::Little, 1, 7)]),
        block(vec![expr(AttrKind::Count, "5", 10, 21)]),
    ]);
    let d = FieldLevelAttrs::from_field(&f).unwrap();
    assert!(d.little.value);
    assert_eq!(d.count, Some("5".to_string()));
    // all else default
    assert!(!d.big.value);
    assert!(!d.ignore && !d.default && !d.deref_now && !d.postprocess_now);
    assert!(!d.restore_position && !d.do_try && !d.temp);
    assert_eq!(d.args, PassedArgs::List(vec![]));
    assert_eq!(d.map, None);
    assert_eq!(d.calc, None);
    assert_eq!(d.magic, None);
    assert_eq!(d.pad_before, None);
    assert_eq!(d.parse_with, None);
}

#[test]
fn big_and_little_are_independent_flags() {
    // both endianness flags on one field pass through unrejected
    let f = field(vec![
        block(vec![flag(AttrKind::Big, 1, 4)]),
        block(vec![flag(AttrKind::Little, 6, 12)]),
    ]);
    let d = FieldLevelAttrs::from_field(&f).unwrap();
    assert!(d.big.value);
    assert!(d.little.value);
    assert_eq!(d.big.span, sp(1, 4));
    assert_eq!(d.little.span, sp(6, 12));
}

#[test]
fn parse_error_propagates_with_its_span() {
    let f = field(vec![AttrBlock {
        path: "br".to_string(),
        parsed: Err(SpanError::new(sp(14, 25), "expected identifier")),
    }]);
    match FieldLevelAttrs::from_field(&f) {
        Err(CompileError::ParseError(e)) => {
            assert_eq!(e.span, sp(14, 25));
            assert_eq!(e.message, "expected identifier");
        },
        other => panic!("expected a parse error, got {:?}", other),
    }
}

#[test]
fn first_parse_error_wins_over_later_conflicts() {
    // a malformed recognized block aborts collection before any conflict
    // checking, even when an earlier block holds duplicates
    let f = field(vec![
        block(vec![expr(AttrKind::Count, "1", 1, 2), expr(AttrKind::Count, "2", 3, 4)]),
        AttrBlock {
            path: "br".to_string(),
            parsed: Err(SpanError::new(sp(9, 13), "bad syntax")),
        },
    ]);
    match FieldLevelAttrs::from_field(&f) {
        Err(CompileError::ParseError(e)) => assert_eq!(e.span, sp(9, 13)),
        other => panic!("expected the parse error, got {:?}", other),
    }
}

#[test]
fn get_only_first_on_empty_group() {
    let g: Vec<AnnotationValue> = vec![];
    assert_eq!(get_only_first(&g, "msg").unwrap(), None);
}

#[test]
fn get_only_first_on_singleton() {
    let g = vec![expr(AttrKind::Calc, "x + 1", 4, 11)];
    let got = get_only_first(&g, "msg").unwrap().unwrap();
    assert_eq!(got, expr(AttrKind::Calc, "x + 1", 4, 11));
}

#[test]
fn get_only_first_joins_all_spans() {
    let g = vec![
        expr(AttrKind::Calc, "a", 10, 12),
        expr(AttrKind::Calc, "b", 2, 5),
        expr(AttrKind::Calc, "c", 40, 44),
    ];
    match get_only_first(&g, "too many") {
        Err(CompileError::SpanError(e)) => {
            assert_eq!(e.span, sp(2, 44));
            assert_eq!(e.message, "too many");
        },
        other => panic!("expected a conflict, got {:?}", other),
    }
}

#[test]
fn first_span_true_takes_first_occurrence() {
    let r = first_span_true(vec![flag(AttrKind::Big, 8, 15), flag(AttrKind::Big, 20, 26)]);
    assert!(r.value);
    assert_eq!(r.span, sp(8, 15));
}

#[test]
fn first_span_true_on_empty_group_is_unset() {
    let r = first_span_true(vec![]);
    assert!(!r.value);
    assert_eq!(r.span, sp(0, 0));
}

#[test]
fn extract_filters_by_kind_in_order() {
    let all = vec![
        flag(AttrKind::Big, 1, 2),
        expr(AttrKind::Count, "1", 3, 4),
        flag(AttrKind::Big, 5, 6),
    ];
    let big = extract(&all, AttrKind::Big);
    assert_eq!(big, vec![flag(AttrKind::Big, 1, 2), flag(AttrKind::Big, 5, 6)]);
    assert!(extract(&all, AttrKind::Magic).is_empty());
}

#[test]
fn span_join_covers_both() {
    assert_eq!(sp(5, 10).join(sp(1, 3)), sp(1, 10));
    assert_eq!(sp(1, 3).join(sp(5, 10)), sp(1, 10));
    assert_eq!(sp(2, 9).join(sp(4, 6)), sp(2, 9));
}
