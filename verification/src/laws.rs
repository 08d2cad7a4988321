//! General laws of the resolution pass, stated over the spec-level model
//! that `FieldLevelAttrs::from_field` is proved against.

use vstd::prelude::*;
use crate::span::{spec_join, spec_join_all};
use crate::attrs::{AttrKind, AttrV, BlockV};
use crate::error::{CompileErrorV, SpanErrorV};
use crate::descriptor::{FieldLevelAttrsV, PassedArgsV, spec_default_descriptor};
use crate::resolve::{
    group_of, spans_of, spec_collected, spec_recognized, spec_single, spec_flag, spec_dup,
    spec_dup_error, spec_conflict_msg, spec_cross_conflict, spec_cross_error, spec_first_dup,
    spec_descriptor, spec_resolve, payload_text, payload_list,
};

verus! {

/// The sixteen single-valued kinds resolved to one optional scalar payload.
pub open spec fn is_scalar_kind(kind: AttrKind) -> bool {
    match kind {
        AttrKind::MapFn => true,
        AttrKind::Magic => true,
        AttrKind::Calc => true,
        AttrKind::Count => true,
        AttrKind::IsLittle => true,
        AttrKind::IsBig => true,
        AttrKind::Offset => true,
        AttrKind::OffsetAfter => true,
        AttrKind::If => true,
        AttrKind::PadBefore => true,
        AttrKind::PadAfter => true,
        AttrKind::AlignBefore => true,
        AttrKind::AlignAfter => true,
        AttrKind::SeekBefore => true,
        AttrKind::PadSizeTo => true,
        AttrKind::ParseWith => true,
        _ => false,
    }
}

/// The single-valued kinds: the scalar ones and the two argument forms.
pub open spec fn is_single_kind(kind: AttrKind) -> bool {
    is_scalar_kind(kind) || kind == AttrKind::Args || kind == AttrKind::ArgsTuple
}

/// The presence-flag kinds, duplicate-tolerant by design.
pub open spec fn is_presence_kind(kind: AttrKind) -> bool {
    match kind {
        AttrKind::Big => true,
        AttrKind::Little => true,
        AttrKind::Default => true,
        AttrKind::Ignore => true,
        AttrKind::DerefNow => true,
        AttrKind::RestorePosition => true,
        AttrKind::PostProcessNow => true,
        AttrKind::Try => true,
        AttrKind::Temp => true,
        _ => false,
    }
}

/// The descriptor field a scalar single-valued kind resolves into.
pub open spec fn descriptor_single(d: FieldLevelAttrsV, kind: AttrKind) -> Option<Seq<char>> {
    match kind {
        AttrKind::MapFn => d.map,
        AttrKind::Magic => d.magic,
        AttrKind::Calc => d.calc,
        AttrKind::Count => d.count,
        AttrKind::IsLittle => d.is_little,
        AttrKind::IsBig => d.is_big,
        AttrKind::Offset => d.offset,
        AttrKind::OffsetAfter => d.offset_after,
        AttrKind::If => d.if_cond,
        AttrKind::PadBefore => d.pad_before,
        AttrKind::PadAfter => d.pad_after,
        AttrKind::AlignBefore => d.align_before,
        AttrKind::AlignAfter => d.align_after,
        AttrKind::SeekBefore => d.seek_before,
        AttrKind::PadSizeTo => d.pad_size_to,
        AttrKind::ParseWith => d.parse_with,
        _ => None,
    }
}

/// The descriptor flag a presence kind resolves into.
pub open spec fn descriptor_flag(d: FieldLevelAttrsV, kind: AttrKind) -> bool {
    match kind {
        AttrKind::Big => d.big.value,
        AttrKind::Little => d.little.value,
        AttrKind::Default => d.default,
        AttrKind::Ignore => d.ignore,
        AttrKind::DerefNow => d.deref_now,
        AttrKind::RestorePosition => d.restore_position,
        AttrKind::PostProcessNow => d.postprocess_now,
        AttrKind::Try => d.do_try,
        AttrKind::Temp => d.temp,
        _ => false,
    }
}

/// A field without recognized blocks collects to no occurrences at all.
proof fn lemma_collected_unrecognized(blocks: Seq<BlockV>)
    requires
        forall|i: int| 0 <= i < blocks.len() ==> !spec_recognized(#[trigger] blocks[i].path),
    ensures
        spec_collected(blocks) == Ok::<Seq<AttrV>, SpanErrorV>(Seq::<AttrV>::empty()),
    decreases blocks.len(),
{
    if blocks.len() > 0 {
        lemma_collected_unrecognized(blocks.drop_last());
    }
}

/// An absent kind has an empty group.
proof fn lemma_group_of_empty(kind: AttrKind)
    ensures
        group_of(Seq::<AttrV>::empty(), kind) == Seq::<AttrV>::empty(),
{
    reveal(Seq::filter);
}

/// Classification is a partition: every occurrence belongs to the group of
/// its own kind and to no other kind's group.
pub proof fn lemma_groups_partition(attrs: Seq<AttrV>, i: int)
    requires
        0 <= i < attrs.len(),
    ensures
        group_of(attrs, attrs[i].kind).contains(attrs[i]),
        forall|kind: AttrKind| #![trigger group_of(attrs, kind)]
            kind != attrs[i].kind ==> !group_of(attrs, kind).contains(attrs[i]),
{
    broadcast use vstd::seq_lib::group_filter_ensures;

    assert(group_of(attrs, attrs[i].kind).contains(attrs[i]));
    assert forall|kind: AttrKind|
        kind != attrs[i].kind implies !group_of(attrs, kind).contains(attrs[i]) by {
        let g = group_of(attrs, kind);
        if g.contains(attrs[i]) {
            let j = choose|j: int| 0 <= j < g.len() && g[j] == attrs[i];
            assert(g[j].kind == kind);
        }
    }
}

/// Idempotence of empty input: a field with no recognized annotation blocks
/// resolves, without error, to the descriptor with every boolean `false`,
/// every optional value absent, and the empty argument list.
pub proof fn lemma_empty_input_resolves_to_default(blocks: Seq<BlockV>)
    requires
        forall|i: int| 0 <= i < blocks.len() ==> !spec_recognized(#[trigger] blocks[i].path),
    ensures
        spec_resolve(blocks) == Ok::<FieldLevelAttrsV, CompileErrorV>(spec_default_descriptor()),
{
    lemma_collected_unrecognized(blocks);
    let e = Seq::<AttrV>::empty();
    assert forall|kind: AttrKind| group_of(e, kind) == Seq::<AttrV>::empty() by {
        lemma_group_of_empty(kind);
    }
    assert(spec_descriptor(e) =~= spec_default_descriptor());
}

/// Single-occurrence pass-through: a scalar single-valued kind with exactly
/// one occurrence raises no uniqueness conflict and resolves, in the
/// descriptor, to exactly that occurrence's payload.
pub proof fn lemma_single_occurrence_pass_through(attrs: Seq<AttrV>, kind: AttrKind)
    requires
        is_scalar_kind(kind),
        group_of(attrs, kind).len() == 1,
    ensures
        !spec_dup(attrs, kind),
        spec_single(attrs, kind) == Some(payload_text(group_of(attrs, kind)[0].payload)),
        descriptor_single(spec_descriptor(attrs), kind) == Some(
            payload_text(group_of(attrs, kind)[0].payload),
        ),
{
}

/// Single-occurrence pass-through for the explicit argument list: one
/// argument-list occurrence, with no tuple-argument occurrence beside it,
/// raises no conflict and resolves to exactly that occurrence's list.
pub proof fn lemma_args_list_pass_through(attrs: Seq<AttrV>)
    requires
        group_of(attrs, AttrKind::Args).len() == 1,
        group_of(attrs, AttrKind::ArgsTuple).len() == 0,
    ensures
        !spec_dup(attrs, AttrKind::Args),
        !spec_cross_conflict(attrs),
        spec_descriptor(attrs).args == PassedArgsV::List(
            payload_list(group_of(attrs, AttrKind::Args)[0].payload),
        ),
{
}

/// Single-occurrence pass-through for the tuple argument form: one
/// tuple-argument occurrence, with no argument-list occurrence beside it,
/// raises no conflict and resolves to exactly that occurrence's expression.
pub proof fn lemma_args_tuple_pass_through(attrs: Seq<AttrV>)
    requires
        group_of(attrs, AttrKind::ArgsTuple).len() == 1,
        group_of(attrs, AttrKind::Args).len() == 0,
    ensures
        !spec_dup(attrs, AttrKind::ArgsTuple),
        !spec_cross_conflict(attrs),
        spec_descriptor(attrs).args == PassedArgsV::Tuple(
            payload_text(group_of(attrs, AttrKind::ArgsTuple)[0].payload),
        ),
{
}

/// Duplicate detection: a single-valued kind with exactly two occurrences is
/// a uniqueness conflict, whose diagnostic names that kind and spans the
/// join of the two occurrences' spans, and the whole field fails.
pub proof fn lemma_duplicate_conflict(attrs: Seq<AttrV>, kind: AttrKind)
    requires
        is_single_kind(kind),
        group_of(attrs, kind).len() == 2,
    ensures
        spec_dup(attrs, kind),
        spec_first_dup(attrs) is Some,
        spec_dup_error(attrs, kind).span == spec_join(
            group_of(attrs, kind)[0].span,
            group_of(attrs, kind)[1].span,
        ),
        spec_dup_error(attrs, kind).message == spec_conflict_msg(kind),
{
    let g = group_of(attrs, kind);
    let sp = spans_of(g);
    assert(sp.len() == 2);
    assert(sp.drop_last() =~= seq![g[0].span]);
    assert(spec_join_all(sp.drop_last()) == g[0].span);
    assert(spec_join_all(sp) == spec_join(g[0].span, g[1].span));
}

/// Presence-flag idempotence: any positive number of occurrences of a
/// presence kind resolves the flag to `true`, never to an error, and the
/// flag carries the span of the first occurrence.
pub proof fn lemma_presence_flag_idempotent(attrs: Seq<AttrV>, kind: AttrKind)
    requires
        is_presence_kind(kind),
        group_of(attrs, kind).len() >= 1,
    ensures
        descriptor_flag(spec_descriptor(attrs), kind) == true,
        spec_flag(attrs, kind).value == true,
        spec_flag(attrs, kind).span == group_of(attrs, kind)[0].span,
{
}

/// Cross-group exclusivity: one argument-list occurrence plus one
/// tuple-argument occurrence - each satisfying its own uniqueness - still
/// fail the field with the cross-group conflict, whose span joins both
/// occurrences' spans.
pub proof fn lemma_cross_group_exclusive(blocks: Seq<BlockV>, attrs: Seq<AttrV>)
    requires
        spec_collected(blocks) == Ok::<Seq<AttrV>, SpanErrorV>(attrs),
        group_of(attrs, AttrKind::Args).len() == 1,
        group_of(attrs, AttrKind::ArgsTuple).len() == 1,
    ensures
        !spec_dup(attrs, AttrKind::Args),
        !spec_dup(attrs, AttrKind::ArgsTuple),
        spec_cross_conflict(attrs),
        spec_resolve(blocks) == Err::<FieldLevelAttrsV, _>(
            CompileErrorV::SpanError(spec_cross_error(attrs)),
        ),
        spec_cross_error(attrs).span == spec_join(
            group_of(attrs, AttrKind::Args)[0].span,
            group_of(attrs, AttrKind::ArgsTuple)[0].span,
        ),
{
    let gl = group_of(attrs, AttrKind::Args);
    let gt = group_of(attrs, AttrKind::ArgsTuple);
    let sp = spans_of(gl + gt);
    assert(sp.len() == 2);
    assert(sp[0] == gl[0].span);
    assert(sp[1] == gt[0].span);
    assert(sp.drop_last() =~= seq![gl[0].span]);
    assert(spec_join_all(sp.drop_last()) == gl[0].span);
    assert(spec_join_all(sp) == spec_join(gl[0].span, gt[0].span));
}

/// Order preservation: blocks collected from two stretches concatenate, in
/// block order with block-internal order preserved, to the concatenation of
/// what each stretch collects on its own.
pub proof fn lemma_collected_concat(b1: Seq<BlockV>, b2: Seq<BlockV>, t1: Seq<AttrV>, t2: Seq<AttrV>)
    requires
        spec_collected(b1) == Ok::<Seq<AttrV>, SpanErrorV>(t1),
        spec_collected(b2) == Ok::<Seq<AttrV>, SpanErrorV>(t2),
    ensures
        spec_collected(b1 + b2) == Ok::<Seq<AttrV>, SpanErrorV>(t1 + t2),
    decreases b2.len(),
{
    if b2.len() == 0 {
        assert(b1 + b2 =~= b1);
        assert(t2 =~= Seq::<AttrV>::empty());
        assert(t1 + t2 =~= t1);
    } else {
        let prefix = b2.drop_last();
        let last = b2.last();
        match spec_collected(prefix) {
            Ok(tp) => {
                lemma_collected_concat(b1, prefix, t1, tp);
                assert((b1 + b2).drop_last() =~= b1 + prefix);
                assert((b1 + b2).last() == last);
                if spec_recognized(last.path) {
                    match last.parsed {
                        Ok(vs) => {
                            assert(t2 == tp + vs);
                            assert((t1 + tp) + vs =~= t1 + (tp + vs));
                        },
                        Err(_) => {},
                    }
                }
            },
            Err(_) => {},
        }
    }
}

} // verus!
