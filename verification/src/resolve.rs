//! The resolution pass: collect the recognized blocks' occurrences in order,
//! classify them by kind, enforce the cross-group exclusion of the two
//! argument forms and the per-kind uniqueness policy, and assemble the field
//! descriptor.

use vstd::prelude::*;
use crate::span::{
    Span, SpannedValue, spec_join_all, spec_join_from, lemma_join_all_from_first,
    lemma_join_all_concat,
};
use crate::descriptor::{
    FieldLevelAttrs, FieldLevelAttrsV, PassedArgs, PassedArgsV, Assert, AssertV,
};
use crate::attrs::{
    AttrKind, AnnotationValue, AttrV, AttrBlock, BlockV, Field, Payload, PayloadV, views_of,
    clone_strings,
};
use crate::error::{CompileError, CompileErrorV, SpanError, SpanErrorV};

verus! {

/// The two namespace identifiers recognized as aliases of the annotation
/// namespace.
pub open spec fn spec_recognized(path: Seq<char>) -> bool {
    path == "br"@ || path == "binread"@
}

/// The group of a kind: the subsequence of occurrences of that kind, in
/// encounter order.
pub open spec fn group_of(attrs: Seq<AttrV>, kind: AttrKind) -> Seq<AttrV> {
    attrs.filter(|a: AttrV| a.kind == kind)
}

/// The spans of a group of occurrences, in encounter order.
pub open spec fn spans_of(g: Seq<AttrV>) -> Seq<Span> {
    g.map_values(|a: AttrV| a.span)
}

/// What the collector yields: the recognized blocks' occurrences flattened
/// in block order, block-internal order preserved, or the first recognized
/// block's parse diagnostic.
pub open spec fn spec_collected(blocks: Seq<BlockV>) -> Result<Seq<AttrV>, SpanErrorV>
    decreases blocks.len(),
{
    if blocks.len() == 0 {
        Ok(Seq::empty())
    } else {
        match spec_collected(blocks.drop_last()) {
            Err(e) => Err(e),
            Ok(vals) => {
                let b = blocks.last();
                if !spec_recognized(b.path) {
                    Ok(vals)
                } else {
                    match b.parsed {
                        Ok(vs) => Ok(vals + vs),
                        Err(e) => Err(e),
                    }
                }
            },
        }
    }
}

/// The opaque fragment a payload carries; empty when it carries none.
pub open spec fn payload_text(p: PayloadV) -> Seq<char> {
    match p {
        PayloadV::Lit(s) => s,
        PayloadV::Expr(s) => s,
        _ => Seq::empty(),
    }
}

/// The argument list a payload carries; empty when it carries none.
pub open spec fn payload_list(p: PayloadV) -> Seq<Seq<char>> {
    match p {
        PayloadV::List(v) => v,
        _ => Seq::empty(),
    }
}

/// The resolved value of a single-valued kind, disregarding conflicts:
/// absent when the group is empty, else the first occurrence's payload.
pub open spec fn spec_single(attrs: Seq<AttrV>, kind: AttrKind) -> Option<Seq<char>> {
    let g = group_of(attrs, kind);
    if g.len() == 0 {
        None
    } else {
        Some(payload_text(g[0].payload))
    }
}

/// The resolved presence flag of a group: `true` iff the group is non-empty,
/// carrying the first occurrence's span.
pub open spec fn spec_first_true(g: Seq<AttrV>) -> SpannedValue<bool> {
    if g.len() == 0 {
        SpannedValue { value: false, span: Span { start: 0, end: 0 } }
    } else {
        SpannedValue { value: true, span: g[0].span }
    }
}

/// The resolved presence flag of a kind.
pub open spec fn spec_flag(attrs: Seq<AttrV>, kind: AttrKind) -> SpannedValue<bool> {
    spec_first_true(group_of(attrs, kind))
}

/// Whether a kind occurs at all.
pub open spec fn spec_has(attrs: Seq<AttrV>, kind: AttrKind) -> bool {
    group_of(attrs, kind).len() > 0
}

/// Whether a kind occurs more than once, violating uniqueness.
pub open spec fn spec_dup(attrs: Seq<AttrV>, kind: AttrKind) -> bool {
    group_of(attrs, kind).len() >= 2
}

/// The conflict diagnostic of one single-valued kind, naming the kind and
/// underlining every occurrence in the group.
pub open spec fn spec_conflict_msg(kind: AttrKind) -> Seq<char> {
    match kind {
        AttrKind::PadBefore => "Conflicting instances of pad_before"@,
        AttrKind::PadAfter => "Conflicting instances of pad_after"@,
        AttrKind::AlignBefore => "Conflicting instances of align_before"@,
        AttrKind::AlignAfter => "Conflicting instances of align_after"@,
        AttrKind::SeekBefore => "Conflicting instances of seek_before"@,
        AttrKind::PadSizeTo => "Conflicting instances of pad_size_to"@,
        AttrKind::Calc => "Conflicting instances of calc"@,
        AttrKind::Count => "Conflicting instances of count"@,
        AttrKind::IsLittle => "Conflicting instances of is_little"@,
        AttrKind::IsBig => "Conflicting instances of is_big"@,
        AttrKind::Offset => "Conflicting instances of offset"@,
        AttrKind::OffsetAfter => "Conflicting instances of offset_after"@,
        AttrKind::If => "Conflicting instances of if_cond"@,
        AttrKind::MapFn => "Conflicting instances of map"@,
        AttrKind::Magic => "Conflicting instances of magic"@,
        AttrKind::ParseWith => "Conflicting instances of parse_with"@,
        AttrKind::Args => "Conflicting instances of args"@,
        AttrKind::ArgsTuple => "Conflicting instances of args_tuple"@,
        _ => ""@,
    }
}

/// The uniqueness-conflict error of a kind: the join of every occurrence's
/// span, in encounter order.
pub open spec fn spec_dup_error(attrs: Seq<AttrV>, kind: AttrKind) -> SpanErrorV {
    SpanErrorV {
        span: spec_join_all(spans_of(group_of(attrs, kind))),
        message: spec_conflict_msg(kind),
    }
}

/// The cross-group exclusion: an argument-list occurrence and a
/// tuple-argument occurrence may not both be present.
pub open spec fn spec_cross_conflict(attrs: Seq<AttrV>) -> bool {
    spec_has(attrs, AttrKind::Args) && spec_has(attrs, AttrKind::ArgsTuple)
}

/// The cross-group conflict error: the join of every occurrence's span
/// across both argument groups, list occurrences first.
pub open spec fn spec_cross_error(attrs: Seq<AttrV>) -> SpanErrorV {
    SpanErrorV {
        span: spec_join_all(
            spans_of(group_of(attrs, AttrKind::Args) + group_of(attrs, AttrKind::ArgsTuple)),
        ),
        message: "Conflicting instances of args and args_tuple"@,
    }
}

/// The first single-valued kind, in the fixed checking order, whose group
/// violates uniqueness.
pub open spec fn spec_first_dup(attrs: Seq<AttrV>) -> Option<AttrKind> {
    if spec_dup(attrs, AttrKind::PadBefore) {
        Some(AttrKind::PadBefore)
    } else if spec_dup(attrs, AttrKind::PadAfter) {
        Some(AttrKind::PadAfter)
    } else if spec_dup(attrs, AttrKind::AlignBefore) {
        Some(AttrKind::AlignBefore)
    } else if spec_dup(attrs, AttrKind::AlignAfter) {
        Some(AttrKind::AlignAfter)
    } else if spec_dup(attrs, AttrKind::SeekBefore) {
        Some(AttrKind::SeekBefore)
    } else if spec_dup(attrs, AttrKind::PadSizeTo) {
        Some(AttrKind::PadSizeTo)
    } else if spec_dup(attrs, AttrKind::Calc) {
        Some(AttrKind::Calc)
    } else if spec_dup(attrs, AttrKind::Count) {
        Some(AttrKind::Count)
    } else if spec_dup(attrs, AttrKind::IsLittle) {
        Some(AttrKind::IsLittle)
    } else if spec_dup(attrs, AttrKind::IsBig) {
        Some(AttrKind::IsBig)
    } else if spec_dup(attrs, AttrKind::Offset) {
        Some(AttrKind::Offset)
    } else if spec_dup(attrs, AttrKind::OffsetAfter) {
        Some(AttrKind::OffsetAfter)
    } else if spec_dup(attrs, AttrKind::If) {
        Some(AttrKind::If)
    } else if spec_dup(attrs, AttrKind::MapFn) {
        Some(AttrKind::MapFn)
    } else if spec_dup(attrs, AttrKind::Magic) {
        Some(AttrKind::Magic)
    } else if spec_dup(attrs, AttrKind::ParseWith) {
        Some(AttrKind::ParseWith)
    } else if spec_dup(attrs, AttrKind::Args) {
        Some(AttrKind::Args)
    } else if spec_dup(attrs, AttrKind::ArgsTuple) {
        Some(AttrKind::ArgsTuple)
    } else {
        None
    }
}

/// Extraction, the group classifier: all occurrences of one kind, in
/// encounter order. One generic filter in place of per-kind bespoke logic.
pub fn extract(attrs: &Vec<AnnotationValue>, kind: AttrKind) -> (r: Vec<AnnotationValue>)
    ensures
        views_of(r@) == group_of(views_of(attrs@), kind),
{
    let ghost vs = views_of(attrs@);
    let mut r: Vec<AnnotationValue> = Vec::new();
    let mut i: usize = 0;
    proof {
        reveal(Seq::filter);
        assert(vs.take(0) =~= Seq::<AttrV>::empty());
        assert(views_of(r@) =~= group_of(vs.take(0), kind));
    }
    while i < attrs.len()
        invariant
            i <= attrs@.len(),
            vs == views_of(attrs@),
            views_of(r@) == group_of(vs.take(i as int), kind),
        decreases attrs@.len() - i,
    {
        if attrs[i].kind == kind {
            r.push(attrs[i].clone());
        }
        i = i + 1;
        proof {
            reveal(Seq::filter);
            assert(vs.take(i as int).drop_last() =~= vs.take(i as int - 1));
            assert(vs.take(i as int).last() == vs[i as int - 1]);
            assert(vs[i as int - 1] == attrs@[i as int - 1]@);
            assert(views_of(r@) =~= group_of(vs.take(i as int), kind));
        }
    }
    proof {
        assert(vs.take(attrs@.len() as int) =~= vs);
    }
    r
}

/// The running join of every occurrence's span in `list` from index `start`
/// on, starting from `acc`, in encounter order.
fn join_spans_from(acc: Span, list: &Vec<AnnotationValue>, start: usize) -> (r: Span)
    requires
        start <= list@.len(),
    ensures
        r == spec_join_from(acc, spans_of(views_of(list@)).skip(start as int)),
{
    let ghost sp = spans_of(views_of(list@)).skip(start as int);
    let mut span = acc;
    let mut i: usize = start;
    proof {
        assert(sp.take(0) =~= Seq::<Span>::empty());
    }
    while i < list.len()
        invariant
            start <= i <= list@.len(),
            sp == spans_of(views_of(list@)).skip(start as int),
            span == spec_join_from(acc, sp.take(i - start as int)),
        decreases list@.len() - i,
    {
        span = span.join(list[i].span);
        i = i + 1;
        proof {
            let k = i - start as int;
            assert(sp.take(k).drop_last() =~= sp.take(k - 1));
            assert(sp.take(k).last() == sp[k - 1]);
            assert(sp[k - 1] == list@[i as int - 1]@.span);
        }
    }
    proof {
        assert(sp.take(list@.len() - start as int) =~= sp);
    }
    span
}

/// The uniqueness policy of one group: nothing from an empty group, the one
/// occurrence of a singleton, and a conflict error over the join of every
/// occurrence's span otherwise.
pub fn get_only_first(list: &Vec<AnnotationValue>, msg: &str) -> (r: Result<
    Option<AnnotationValue>,
    CompileError,
>)
    ensures
        list@.len() >= 2 ==> (r matches Err(e) && e@ == CompileErrorV::SpanError(
            (SpanErrorV { span: spec_join_all(spans_of(views_of(list@))), message: msg@ }),
        )),
        list@.len() == 1 ==> (r matches Ok(v) && v matches Some(a) && a@ == list@[0]@),
        list@.len() == 0 ==> r == Ok::<Option<AnnotationValue>, CompileError>(None),
{
    if list.len() > 1 {
        let first = list[0].span;
        let span = join_spans_from(first, list, 1);
        proof {
            let sp = spans_of(views_of(list@));
            assert(sp[0] == list@[0]@.span);
            lemma_join_all_from_first(sp);
        }
        Err(CompileError::SpanError(SpanError::new(span, msg)))
    } else if list.len() == 1 {
        Ok(Some(list[0].clone()))
    } else {
        Ok(None)
    }
}

/// The presence-flag policy of one group: `true` with the first occurrence's
/// span when the group is non-empty, duplicate-tolerant; the unset flag
/// otherwise.
pub fn first_span_true(vals: Vec<AnnotationValue>) -> (r: SpannedValue<bool>)
    ensures
        r == spec_first_true(views_of(vals@)),
{
    if vals.len() > 0 {
        proof {
            assert(views_of(vals@)[0] == vals@[0]@);
        }
        SpannedValue { value: true, span: vals[0].span }
    } else {
        SpannedValue::default()
    }
}

fn payload_text_of(a: &AnnotationValue) -> (r: String)
    ensures
        r@ == payload_text(a@.payload),
{
    match &a.payload {
        Payload::Lit(s) => s.clone(),
        Payload::Expr(s) => s.clone(),
        Payload::Absent => String::new(),
        Payload::List(_) => String::new(),
    }
}

fn payload_list_of(a: &AnnotationValue) -> (r: Vec<String>)
    ensures
        r.deep_view() == payload_list(a@.payload),
{
    match &a.payload {
        Payload::List(v) => clone_strings(v),
        _ => {
            let e: Vec<String> = Vec::new();
            proof {
                assert(e.deep_view() =~= Seq::<Seq<char>>::empty());
            }
            e
        },
    }
}

/// The conflict message of one single-valued kind.
fn conflict_msg_of(kind: AttrKind) -> (r: &'static str)
    ensures
        r@ == spec_conflict_msg(kind),
{
    match kind {
        AttrKind::PadBefore => "Conflicting instances of pad_before",
        AttrKind::PadAfter => "Conflicting instances of pad_after",
        AttrKind::AlignBefore => "Conflicting instances of align_before",
        AttrKind::AlignAfter => "Conflicting instances of align_after",
        AttrKind::SeekBefore => "Conflicting instances of seek_before",
        AttrKind::PadSizeTo => "Conflicting instances of pad_size_to",
        AttrKind::Calc => "Conflicting instances of calc",
        AttrKind::Count => "Conflicting instances of count",
        AttrKind::IsLittle => "Conflicting instances of is_little",
        AttrKind::IsBig => "Conflicting instances of is_big",
        AttrKind::Offset => "Conflicting instances of offset",
        AttrKind::OffsetAfter => "Conflicting instances of offset_after",
        AttrKind::If => "Conflicting instances of if_cond",
        AttrKind::MapFn => "Conflicting instances of map",
        AttrKind::Magic => "Conflicting instances of magic",
        AttrKind::ParseWith => "Conflicting instances of parse_with",
        AttrKind::Args => "Conflicting instances of args",
        AttrKind::ArgsTuple => "Conflicting instances of args_tuple",
        _ => "",
    }
}

/// The resolved value of one single-valued kind, or its uniqueness-conflict
/// error.
fn single_value(attrs: &Vec<AnnotationValue>, kind: AttrKind) -> (r: Result<
    Option<String>,
    CompileError,
>)
    ensures
        spec_dup(views_of(attrs@), kind) ==> (r matches Err(e) && e@ == CompileErrorV::SpanError(
            spec_dup_error(views_of(attrs@), kind),
        )),
        !spec_dup(views_of(attrs@), kind) ==> (r matches Ok(v) && v.deep_view() == spec_single(
            views_of(attrs@),
            kind,
        )),
{
    let g = extract(attrs, kind);
    match get_only_first(&g, conflict_msg_of(kind)) {
        Err(e) => Err(e),
        Ok(Some(a)) => Ok(Some(payload_text_of(&a))),
        Ok(None) => Ok(None),
    }
}

/// The resolved explicit argument list, or its uniqueness-conflict error.
fn single_args(attrs: &Vec<AnnotationValue>) -> (r: Result<Option<Vec<String>>, CompileError>)
    ensures
        spec_dup(views_of(attrs@), AttrKind::Args) ==> (r matches Err(e) && e@
            == CompileErrorV::SpanError(spec_dup_error(views_of(attrs@), AttrKind::Args))),
        !spec_dup(views_of(attrs@), AttrKind::Args) ==> (r matches Ok(v) && ({
            let g = group_of(views_of(attrs@), AttrKind::Args);
            match v {
                Some(l) => g.len() == 1 && l.deep_view() == payload_list(g[0].payload),
                None => g.len() == 0,
            }
        })),
{
    let g = extract(attrs, AttrKind::Args);
    match get_only_first(&g, conflict_msg_of(AttrKind::Args)) {
        Err(e) => Err(e),
        Ok(Some(a)) => Ok(Some(payload_list_of(&a))),
        Ok(None) => Ok(None),
    }
}

fn clone_values(v: &Vec<AnnotationValue>) -> (r: Vec<AnnotationValue>)
    ensures
        views_of(r@) == views_of(v@),
{
    let mut r: Vec<AnnotationValue> = Vec::new();
    let mut i: usize = 0;
    while i < v.len()
        invariant
            i <= v@.len(),
            r@.len() == i as int,
            forall|j: int| 0 <= j < i as int ==> #[trigger] r@[j]@ == v@[j]@,
        decreases v@.len() - i,
    {
        let a = v[i].clone();
        r.push(a);
        i = i + 1;
    }
    proof {
        assert(views_of(r@) =~= views_of(v@));
    }
    r
}

/// One block's contribution: its parsed occurrences, or its parse diagnostic
/// wrapped as the field's error.
fn flas_from_attribute(block: &AttrBlock) -> (r: Result<Vec<AnnotationValue>, CompileError>)
    ensures
        match block@.parsed {
            Ok(vals) => r matches Ok(v) && views_of(v@) == vals,
            Err(e) => r matches Err(ce) && ce@ == CompileErrorV::ParseError(e),
        },
{
    match &block.parsed {
        Ok(vals) => Ok(clone_values(vals)),
        Err(e) => Err(CompileError::ParseError(e.clone())),
    }
}

/// A field whose blocks up to `i` collect cleanly and whose block `i` is
/// recognized but malformed fails as a whole with that block's diagnostic.
proof fn lemma_collected_error(blocks: Seq<BlockV>, i: int)
    requires
        0 <= i < blocks.len(),
        spec_collected(blocks.take(i)) is Ok,
        spec_recognized(blocks[i].path),
        blocks[i].parsed is Err,
    ensures
        spec_collected(blocks) == Err::<Seq<AttrV>, SpanErrorV>(blocks[i].parsed->Err_0),
    decreases blocks.len(),
{
    if blocks.len() == i + 1 {
        assert(blocks.take(i) =~= blocks.drop_last());
    } else {
        assert(blocks.drop_last().take(i) =~= blocks.take(i));
        lemma_collected_error(blocks.drop_last(), i);
    }
}

fn is_recognized(path: &String) -> (r: bool)
    ensures
        r == spec_recognized(path@),
{
    let br: String = "br".to_owned();
    let binread: String = "binread".to_owned();
    path.eq(&br) || path.eq(&binread)
}

/// The annotation collector: every recognized block's occurrences, flattened
/// in block order, or the first recognized block's parse diagnostic.
fn collect_values(field: &Field) -> (r: Result<Vec<AnnotationValue>, CompileError>)
    ensures
        match spec_collected(field@) {
            Ok(vals) => r matches Ok(v) && views_of(v@) == vals,
            Err(e) => r matches Err(ce) && ce@ == CompileErrorV::ParseError(e),
        },
{
    let mut out: Vec<AnnotationValue> = Vec::new();
    let mut i: usize = 0;
    proof {
        assert(field@.take(0) =~= Seq::<BlockV>::empty());
        assert(views_of(out@) =~= Seq::<AttrV>::empty());
    }
    while i < field.attrs.len()
        invariant
            i <= field.attrs@.len(),
            field@.len() == field.attrs@.len(),
            spec_collected(field@.take(i as int)) == Ok::<Seq<AttrV>, SpanErrorV>(views_of(out@)),
        decreases field.attrs@.len() - i,
    {
        let block = &field.attrs[i];
        proof {
            assert(field@[i as int] == field.attrs@[i as int]@);
        }
        if is_recognized(&block.path) {
            match flas_from_attribute(block) {
                Ok(mut vals) => {
                    let ghost out_old = out@;
                    let ghost vv = views_of(vals@);
                    out.append(&mut vals);
                    proof {
                        assert(views_of(out@) =~= views_of(out_old) + vv);
                    }
                },
                Err(ce) => {
                    proof {
                        lemma_collected_error(field@, i as int);
                    }
                    return Err(ce);
                },
            }
        }
        i = i + 1;
        proof {
            assert(field@.take(i as int).drop_last() =~= field@.take(i as int - 1));
            assert(field@.take(i as int).last() == field@[i as int - 1]);
        }
    }
    proof {
        assert(field@.take(field@.len() as int) =~= field@);
    }
    Ok(out)
}

/// The resolved argument passing: the tuple form when present, else the
/// explicit list, else the empty list.
pub open spec fn spec_args(attrs: Seq<AttrV>) -> PassedArgsV {
    let gt = group_of(attrs, AttrKind::ArgsTuple);
    let gl = group_of(attrs, AttrKind::Args);
    if gt.len() > 0 {
        PassedArgsV::Tuple(payload_text(gt[0].payload))
    } else if gl.len() > 0 {
        PassedArgsV::List(payload_list(gl[0].payload))
    } else {
        PassedArgsV::List(Seq::<Seq<char>>::empty())
    }
}

/// The conflict-free descriptor of a flattened occurrence sequence: every
/// presence flag from its group's emptiness, every single value from its
/// group's sole occurrence, the argument passing from whichever argument
/// form is present, and no resolved assertions (their resolution is deferred
/// to the downstream generator).
pub open spec fn spec_descriptor(attrs: Seq<AttrV>) -> FieldLevelAttrsV {
    FieldLevelAttrsV {
        args: spec_args(attrs),
        map: spec_single(attrs, AttrKind::MapFn),
        ignore: spec_has(attrs, AttrKind::Ignore),
        default: spec_has(attrs, AttrKind::Default),
        calc: spec_single(attrs, AttrKind::Calc),
        count: spec_single(attrs, AttrKind::Count),
        offset: spec_single(attrs, AttrKind::Offset),
        offset_after: spec_single(attrs, AttrKind::OffsetAfter),
        if_cond: spec_single(attrs, AttrKind::If),
        deref_now: spec_has(attrs, AttrKind::DerefNow),
        postprocess_now: spec_has(attrs, AttrKind::PostProcessNow),
        restore_position: spec_has(attrs, AttrKind::RestorePosition),
        do_try: spec_has(attrs, AttrKind::Try),
        temp: spec_has(attrs, AttrKind::Temp),
        little: spec_flag(attrs, AttrKind::Little),
        big: spec_flag(attrs, AttrKind::Big),
        is_big: spec_single(attrs, AttrKind::IsBig),
        is_little: spec_single(attrs, AttrKind::IsLittle),
        asserts: Seq::<AssertV>::empty(),
        magic: spec_single(attrs, AttrKind::Magic),
        pad_before: spec_single(attrs, AttrKind::PadBefore),
        pad_after: spec_single(attrs, AttrKind::PadAfter),
        align_before: spec_single(attrs, AttrKind::AlignBefore),
        align_after: spec_single(attrs, AttrKind::AlignAfter),
        seek_before: spec_single(attrs, AttrKind::SeekBefore),
        pad_size_to: spec_single(attrs, AttrKind::PadSizeTo),
        parse_with: spec_single(attrs, AttrKind::ParseWith),
    }
}

/// The full resolution of one field's annotation blocks, in the fixed order:
/// block collection, then the cross-group exclusion, then per-kind
/// uniqueness, then descriptor assembly.
pub open spec fn spec_resolve(blocks: Seq<BlockV>) -> Result<FieldLevelAttrsV, CompileErrorV> {
    match spec_collected(blocks) {
        Err(e) => Err(CompileErrorV::ParseError(e)),
        Ok(attrs) => if spec_cross_conflict(attrs) {
            Err(CompileErrorV::SpanError(spec_cross_error(attrs)))
        } else {
            match spec_first_dup(attrs) {
                Some(kind) => Err(CompileErrorV::SpanError(spec_dup_error(attrs, kind))),
                None => Ok(spec_descriptor(attrs)),
            }
        },
    }
}

/// The model of a resolution result.
pub open spec fn result_view(r: Result<FieldLevelAttrs, CompileError>) -> Result<
    FieldLevelAttrsV,
    CompileErrorV,
> {
    match r {
        Ok(d) => Ok(d@),
        Err(e) => Err(e@),
    }
}

impl FieldLevelAttrs {
    /// Resolve one field's annotation blocks into its descriptor, or report
    /// the first conflict: a parse diagnostic of the first malformed
    /// recognized block, the cross-group argument conflict, or the first
    /// single-valued kind with more than one occurrence.
    pub fn from_field(field: &Field) -> (r: Result<FieldLevelAttrs, CompileError>)
        ensures
            result_view(r) == spec_resolve(field@),
    {
        let attrs = match collect_values(field) {
            Ok(v) => v,
            Err(e) => {
                return Err(e);
            },
        };
        let ghost a = views_of(attrs@);

        // presence flags: duplicate-tolerant
        let big = first_span_true(extract(&attrs, AttrKind::Big));
        let little = first_span_true(extract(&attrs, AttrKind::Little));
        let default = !extract(&attrs, AttrKind::Default).is_empty();
        let ignore = !extract(&attrs, AttrKind::Ignore).is_empty();
        let deref_now = !extract(&attrs, AttrKind::DerefNow).is_empty();
        let restore_position = !extract(&attrs, AttrKind::RestorePosition).is_empty();
        let postprocess_now = !extract(&attrs, AttrKind::PostProcessNow).is_empty();
        let do_try = !extract(&attrs, AttrKind::Try).is_empty();
        let temp = !extract(&attrs, AttrKind::Temp).is_empty();

        // cross-group exclusion of the two argument forms, checked before
        // either group's own uniqueness
        let args_g = extract(&attrs, AttrKind::Args);
        let args_tuple_g = extract(&attrs, AttrKind::ArgsTuple);
        if args_g.len() > 0 && args_tuple_g.len() > 0 {
            let s0 = join_spans_from(args_g[0].span, &args_g, 1);
            let span = join_spans_from(s0, &args_tuple_g, 0);
            proof {
                let gl = group_of(a, AttrKind::Args);
                let gt = group_of(a, AttrKind::ArgsTuple);
                assert(spans_of(views_of(args_g@)).skip(1) =~= spans_of(gl).skip(1));
                assert(spans_of(views_of(args_tuple_g@)).skip(0) =~= spans_of(gt));
                assert(spans_of(gl)[0] == gl[0].span);
                lemma_join_all_from_first(spans_of(gl));
                lemma_join_all_concat(spans_of(gl), spans_of(gt));
                assert(spans_of(gl + gt) =~= spans_of(gl) + spans_of(gt));
            }
            return Err(
                CompileError::SpanError(
                    SpanError::new(span, "Conflicting instances of args and args_tuple"),
                ),
            );
        }

        // per-kind uniqueness, in the fixed checking order
        let pad_before = match single_value(&attrs, AttrKind::PadBefore) {
            Ok(v) => v,
            Err(e) => return Err(e),
        };
        let pad_after = match single_value(&attrs, AttrKind::PadAfter) {
            Ok(v) => v,
            Err(e) => return Err(e),
        };
        let align_before = match single_value(&attrs, AttrKind::AlignBefore) {
            Ok(v) => v,
            Err(e) => return Err(e),
        };
        let align_after = match single_value(&attrs, AttrKind::AlignAfter) {
            Ok(v) => v,
            Err(e) => return Err(e),
        };
        let seek_before = match single_value(&attrs, AttrKind::SeekBefore) {
            Ok(v) => v,
            Err(e) => return Err(e),
        };
        let pad_size_to = match single_value(&attrs, AttrKind::PadSizeTo) {
            Ok(v) => v,
            Err(e) => return Err(e),
        };
        let calc = match single_value(&attrs, AttrKind::Calc) {
            Ok(v) => v,
            Err(e) => return Err(e),
        };
        let count = match single_value(&attrs, AttrKind::Count) {
            Ok(v) => v,
            Err(e) => return Err(e),
        };
        let is_little = match single_value(&attrs, AttrKind::IsLittle) {
            Ok(v) => v,
            Err(e) => return Err(e),
        };
        let is_big = match single_value(&attrs, AttrKind::IsBig) {
            Ok(v) => v,
            Err(e) => return Err(e),
        };
        let offset = match single_value(&attrs, AttrKind::Offset) {
            Ok(v) => v,
            Err(e) => return Err(e),
        };
        let offset_after = match single_value(&attrs, AttrKind::OffsetAfter) {
            Ok(v) => v,
            Err(e) => return Err(e),
        };
        let if_cond = match single_value(&attrs, AttrKind::If) {
            Ok(v) => v,
            Err(e) => return Err(e),
        };
        let map = match single_value(&attrs, AttrKind::MapFn) {
            Ok(v) => v,
            Err(e) => return Err(e),
        };
        let magic = match single_value(&attrs, AttrKind::Magic) {
            Ok(v) => v,
            Err(e) => return Err(e),
        };
        let parse_with = match single_value(&attrs, AttrKind::ParseWith) {
            Ok(v) => v,
            Err(e) => return Err(e),
        };
        let args_list = match single_args(&attrs) {
            Ok(v) => v,
            Err(e) => return Err(e),
        };
        let args_tuple = match single_value(&attrs, AttrKind::ArgsTuple) {
            Ok(v) => v,
            Err(e) => return Err(e),
        };

        // descriptor assembly: the tuple argument form wins when present
        let args = match args_tuple {
            Some(t) => PassedArgs::Tuple(t),
            None => match args_list {
                Some(l) => PassedArgs::List(l),
                None => PassedArgs::default(),
            },
        };
        let asserts: Vec<Assert> = Vec::new();
        let d = FieldLevelAttrs {
            little,
            big,
            ignore,
            default,
            deref_now,
            postprocess_now,
            restore_position,
            do_try,
            temp,
            calc,
            count,
            offset,
            offset_after,
            if_cond,
            is_big,
            is_little,
            pad_before,
            pad_after,
            align_before,
            align_after,
            seek_before,
            pad_size_to,
            parse_with,
            map,
            args,
            asserts,
            magic,
        };
        proof {
            assert(d.asserts.deep_view() =~= Seq::<AssertV>::empty());
            assert(d@ =~= spec_descriptor(a));
        }
        Ok(d)
    }
}

} // verus!
