//! What a synthesised shape exposes: exactly what the schema declares.

use vstd::prelude::*;

use crate::schema::{ModelInfoFieldView, SchemaErrorView};
use crate::builder::{set_from, set_of, slot_of, BuilderView, CallError};
use crate::laws::{law_last_write_wins, lemma_slot_from};
use crate::mode::Mode;
use crate::ops::OpKind;
use crate::record::{WhereParamView, WhereValueView};
use crate::synth::{
    set_method, shape_of, shape_sets, shape_slots, slots_with_fields, slots_with_words,
    where_pieces, BuilderShapeView, SetMethodView, WherePiecesView,
};
use crate::value::{FieldValueView, SlotValueView};

verus! {

/// How many operation words the fields list for a kind.
pub open spec fn word_count(mode: Mode, fields: Seq<ModelInfoFieldView>) -> nat
    decreases fields.len(),
{
    if fields.len() == 0 {
        0
    } else {
        fields[0].perms.ops(mode).len() + word_count(mode, fields.drop_first())
    }
}

/// Whether the schema allows an operation on a field for a kind: a field of
/// that name lists a word that names the operation.
pub open spec fn declares(
    mode: Mode,
    fields: Seq<ModelInfoFieldView>,
    field: Seq<char>,
    op: OpKind,
) -> bool {
    exists|i: int, j: int|
        0 <= i < fields.len() && 0 <= j < fields[i].perms.ops(mode).len() && fields[i].ident
            == field && OpKind::from_token(#[trigger] fields[i].perms.ops(mode)[j]) == Some(op)
}

/// Whether every operation word that the fields list for a kind names an
/// operation.
pub open spec fn all_words_known(mode: Mode, fields: Seq<ModelInfoFieldView>) -> bool {
    forall|i: int, j: int|
        0 <= i < fields.len() && 0 <= j < fields[i].perms.ops(mode).len() ==> OpKind::from_token(
            #[trigger] fields[i].perms.ops(mode)[j],
        ) is Some
}

/// Whether the schema allows an update to assign a field: a field of that
/// name carries the flag.
pub open spec fn may_set(fields: Seq<ModelInfoFieldView>, field: Seq<char>) -> bool {
    exists|i: int|
        0 <= i < fields.len() && (#[trigger] fields[i]).ident == field
            && fields[i].perms.update_set
}

/// The words of one field: each gives one slot after the slots laid out
/// before, in order, or the first word that names no operation gives the
/// error.
pub proof fn lemma_slots_with_words(
    slots: Seq<WherePiecesView>,
    field: Seq<char>,
    ty: Seq<char>,
    words: Seq<Seq<char>>,
)
    ensures
        match slots_with_words(slots, field, ty, words) {
            Ok(out) => {
                &&& out.len() == slots.len() + words.len()
                &&& forall|k: int| 0 <= k < slots.len() ==> out[k] == slots[k]
                &&& forall|j: int|
                    0 <= j < words.len() ==> where_pieces(field, ty, #[trigger] words[j]) == Ok::<
                        WherePiecesView,
                        SchemaErrorView,
                    >(out[slots.len() + j])
            },
            Err(e) => exists|j: int|
                0 <= j < words.len() && where_pieces(field, ty, #[trigger] words[j]) == Err::<
                    WherePiecesView,
                    SchemaErrorView,
                >(e),
        },
    decreases words.len(),
{
    if words.len() > 0 {
        match where_pieces(field, ty, words[0]) {
            Err(e) => {},
            Ok(pieces) => {
                let rest = words.drop_first();
                lemma_slots_with_words(slots.push(pieces), field, ty, rest);
                match slots_with_words(slots.push(pieces), field, ty, rest) {
                    Ok(out) => {
                        assert forall|k: int| 0 <= k < slots.len() implies out[k] == slots[k] by {
                            assert(slots.push(pieces)[k] == slots[k]);
                        }
                        assert forall|j: int| 0 <= j < words.len() implies where_pieces(
                            field,
                            ty,
                            #[trigger] words[j],
                        ) == Ok::<WherePiecesView, SchemaErrorView>(out[slots.len() + j]) by {
                            if j == 0 {
                                let at = slots.len() as int;
                                assert(out[at] == slots.push(pieces)[at]);
                            } else {
                                assert(rest[j - 1] == words[j]);
                            }
                        }
                    },
                    Err(e) => {
                        let j = choose|j: int|
                            0 <= j < rest.len() && where_pieces(field, ty, #[trigger] rest[j])
                                == Err::<WherePiecesView, SchemaErrorView>(e);
                        assert(words[j + 1] == rest[j]);
                    },
                }
            },
        }
    }
}

/// The fields of a schema: the slots come field by field and word by word
/// after the slots laid out before, or a word that names no operation gives
/// the error.
pub proof fn lemma_slots_with_fields(
    slots: Seq<WherePiecesView>,
    mode: Mode,
    fields: Seq<ModelInfoFieldView>,
)
    ensures
        match slots_with_fields(slots, mode, fields) {
            Ok(out) => {
                &&& out.len() == slots.len() + word_count(mode, fields)
                &&& forall|k: int| 0 <= k < slots.len() ==> out[k] == slots[k]
                &&& forall|i: int, j: int|
                    0 <= i < fields.len() && 0 <= j < fields[i].perms.ops(mode).len()
                        ==> where_pieces(
                        fields[i].ident,
                        fields[i].ty,
                        #[trigger] fields[i].perms.ops(mode)[j],
                    ) == Ok::<WherePiecesView, SchemaErrorView>(
                        out[slots.len() + word_count(mode, fields.take(i)) + j],
                    )
            },
            Err(e) => exists|i: int, j: int|
                0 <= i < fields.len() && 0 <= j < fields[i].perms.ops(mode).len() && where_pieces(
                    fields[i].ident,
                    fields[i].ty,
                    #[trigger] fields[i].perms.ops(mode)[j],
                ) == Err::<WherePiecesView, SchemaErrorView>(e),
        },
    decreases fields.len(),
{
    if fields.len() > 0 {
        let first = fields[0];
        let words = first.perms.ops(mode);
        let rest = fields.drop_first();
        lemma_slots_with_words(slots, first.ident, first.ty, words);
        match slots_with_words(slots, first.ident, first.ty, words) {
            Err(e) => {
                let j = choose|j: int|
                    0 <= j < words.len() && where_pieces(first.ident, first.ty, #[trigger] words[j])
                        == Err::<WherePiecesView, SchemaErrorView>(e);
                assert(where_pieces(fields[0].ident, fields[0].ty, fields[0].perms.ops(mode)[j])
                    == Err::<WherePiecesView, SchemaErrorView>(e));
            },
            Ok(mid) => {
                lemma_slots_with_fields(mid, mode, rest);
                match slots_with_fields(mid, mode, rest) {
                    Err(e) => {
                        let (i, j) = choose|i: int, j: int|
                            0 <= i < rest.len() && 0 <= j < rest[i].perms.ops(mode).len()
                                && where_pieces(
                                rest[i].ident,
                                rest[i].ty,
                                #[trigger] rest[i].perms.ops(mode)[j],
                            ) == Err::<WherePiecesView, SchemaErrorView>(e);
                        assert(fields[i + 1] == rest[i]);
                        assert(where_pieces(
                            fields[i + 1].ident,
                            fields[i + 1].ty,
                            fields[i + 1].perms.ops(mode)[j],
                        ) == Err::<WherePiecesView, SchemaErrorView>(e));
                    },
                    Ok(out) => {
                        assert forall|k: int| 0 <= k < slots.len() implies out[k] == slots[k] by {
                            assert(out[k] == mid[k]);
                        }
                        assert forall|i: int, j: int|
                            0 <= i < fields.len() && 0 <= j < fields[i].perms.ops(
                                mode,
                            ).len() implies where_pieces(
                            fields[i].ident,
                            fields[i].ty,
                            #[trigger] fields[i].perms.ops(mode)[j],
                        ) == Ok::<WherePiecesView, SchemaErrorView>(
                            out[slots.len() + word_count(mode, fields.take(i)) + j],
                        ) by {
                            if i == 0 {
                                assert(fields.take(0) =~= Seq::empty());
                                assert(out[slots.len() + j] == mid[slots.len() + j]);
                            } else {
                                assert(rest[i - 1] == fields[i]);
                                assert(fields.take(i).drop_first() =~= rest.take(i - 1));
                                assert(fields.take(i)[0] == first);
                                assert(where_pieces(
                                    rest[i - 1].ident,
                                    rest[i - 1].ty,
                                    rest[i - 1].perms.ops(mode)[j],
                                ) == Ok::<WherePiecesView, SchemaErrorView>(
                                    out[mid.len() + word_count(mode, rest.take(i - 1)) + j],
                                ));
                            }
                        }
                    },
                }
            },
        }
    }
}

/// The field and the word that the `k`-th operation word of a schema belongs
/// to, counting field by field.
pub open spec fn locate(mode: Mode, fields: Seq<ModelInfoFieldView>, k: int) -> (int, int)
    decreases fields.len(),
{
    if fields.len() == 0 {
        (0, 0)
    } else if k < fields[0].perms.ops(mode).len() {
        (0, k)
    } else {
        let (i, j) = locate(mode, fields.drop_first(), k - fields[0].perms.ops(mode).len());
        (i + 1, j)
    }
}

/// Every position below the word count is the place of one word of one
/// field.
pub proof fn lemma_locate(mode: Mode, fields: Seq<ModelInfoFieldView>, k: int)
    requires
        0 <= k < word_count(mode, fields),
    ensures
        ({
            let (i, j) = locate(mode, fields, k);
            &&& 0 <= i < fields.len()
            &&& 0 <= j < fields[i].perms.ops(mode).len()
            &&& word_count(mode, fields.take(i)) + j == k
        }),
    decreases fields.len(),
{
    if fields.len() > 0 {
        let n = fields[0].perms.ops(mode).len();
        if k < n {
            assert(fields.take(0) =~= Seq::empty());
        } else {
            let rest = fields.drop_first();
            lemma_locate(mode, rest, k - n);
            let (i, j) = locate(mode, rest, k - n);
            assert(rest[i] == fields[i + 1]);
            assert(fields.take(i + 1).drop_first() =~= rest.take(i));
            assert(fields.take(i + 1)[0] == fields[0]);
        }
    }
}

/// A shape is synthesised exactly where every operation word that the fields
/// list for the kind names an operation; where one does not, the error names
/// such a field and such a word.
pub proof fn law_shape_iff_words_known(mode: Mode, name: Seq<char>, fields: Seq<ModelInfoFieldView>)
    ensures
        shape_of(mode, name, fields) is Ok <==> all_words_known(mode, fields),
        shape_of(mode, name, fields) matches Err(e) ==> exists|i: int, j: int|
            0 <= i < fields.len() && 0 <= j < fields[i].perms.ops(mode).len() && OpKind::from_token(
                #[trigger] fields[i].perms.ops(mode)[j],
            ) is None && e == (SchemaErrorView::UnsupportedOp {
                field: fields[i].ident,
                op: fields[i].perms.ops(mode)[j],
            }),
{
    lemma_slots_with_fields(Seq::empty(), mode, fields);
    match shape_slots(mode, fields) {
        Ok(out) => {
            assert forall|i: int, j: int|
                0 <= i < fields.len() && 0 <= j < fields[i].perms.ops(
                    mode,
                ).len() implies OpKind::from_token(
                #[trigger] fields[i].perms.ops(mode)[j],
            ) is Some by {
                assert(where_pieces(fields[i].ident, fields[i].ty, fields[i].perms.ops(mode)[j])
                    is Ok);
            }
        },
        Err(e) => {
            let (i, j) = choose|i: int, j: int|
                0 <= i < fields.len() && 0 <= j < fields[i].perms.ops(mode).len() && where_pieces(
                    fields[i].ident,
                    fields[i].ty,
                    #[trigger] fields[i].perms.ops(mode)[j],
                ) == Err::<WherePiecesView, SchemaErrorView>(e);
            assert(OpKind::from_token(fields[i].perms.ops(mode)[j]) is None);
        },
    }
}

/// A shape has one slot per operation word that the fields list for the
/// kind, field by field and word by word.
pub proof fn law_one_slot_per_word(mode: Mode, name: Seq<char>, fields: Seq<ModelInfoFieldView>)
    requires
        shape_of(mode, name, fields) is Ok,
    ensures
        ({
            let slots = shape_of(mode, name, fields)->Ok_0.slots;
            &&& slots.len() == word_count(mode, fields)
            &&& forall|i: int, j: int|
                0 <= i < fields.len() && 0 <= j < fields[i].perms.ops(mode).len()
                    ==> where_pieces(
                    fields[i].ident,
                    fields[i].ty,
                    #[trigger] fields[i].perms.ops(mode)[j],
                ) == Ok::<WherePiecesView, SchemaErrorView>(
                    slots[word_count(mode, fields.take(i)) + j],
                )
        }),
{
    lemma_slots_with_fields(Seq::empty(), mode, fields);
}

/// Permissions are honoured exactly: a shape has a slot for a field and an
/// operation if and only if the schema allows that operation on that field
/// for the kind.
pub proof fn law_slot_iff_declared(
    mode: Mode,
    name: Seq<char>,
    fields: Seq<ModelInfoFieldView>,
    field: Seq<char>,
    op: OpKind,
)
    requires
        shape_of(mode, name, fields) is Ok,
    ensures
        slot_of(shape_of(mode, name, fields)->Ok_0.slots, field, op) is Some <==> declares(
            mode,
            fields,
            field,
            op,
        ),
{
    let slots = shape_of(mode, name, fields)->Ok_0.slots;
    law_one_slot_per_word(mode, name, fields);
    lemma_slot_from(slots, field, op, 0);
    if declares(mode, fields, field, op) {
        let (i, j) = choose|i: int, j: int|
            0 <= i < fields.len() && 0 <= j < fields[i].perms.ops(mode).len() && fields[i].ident
                == field && OpKind::from_token(#[trigger] fields[i].perms.ops(mode)[j]) == Some(op);
        let k = word_count(mode, fields.take(i)) + j;
        lemma_word_count_take(mode, fields, i);
        assert(where_pieces(fields[i].ident, fields[i].ty, fields[i].perms.ops(mode)[j]) == Ok::<
            WherePiecesView,
            SchemaErrorView,
        >(slots[k]));
        assert(slots[k].field == field && slots[k].op == op);
    }
    if slot_of(slots, field, op) is Some {
        let k = slot_of(slots, field, op)->0;
        lemma_locate(mode, fields, k);
        let (i, j) = locate(mode, fields, k);
        assert(where_pieces(fields[i].ident, fields[i].ty, fields[i].perms.ops(mode)[j]) == Ok::<
            WherePiecesView,
            SchemaErrorView,
        >(slots[k]));
        assert(OpKind::from_token(fields[i].perms.ops(mode)[j]) == Some(op));
    }
}

/// The words of the fields before a field, and its own, are among the words
/// of all fields.
pub proof fn lemma_word_count_take(mode: Mode, fields: Seq<ModelInfoFieldView>, i: int)
    requires
        0 <= i < fields.len(),
    ensures
        word_count(mode, fields.take(i)) + fields[i].perms.ops(mode).len() <= word_count(
            mode,
            fields,
        ),
    decreases fields.len(),
{
    if i == 0 {
        assert(fields.take(0) =~= Seq::empty());
    } else {
        let rest = fields.drop_first();
        lemma_word_count_take(mode, rest, i - 1);
        assert(fields.take(i).drop_first() =~= rest.take(i - 1));
        assert(fields.take(i)[0] == fields[0]);
        assert(rest[i - 1] == fields[i]);
    }
}

/// The assignment methods are those of the fields that carry the flag.
pub proof fn lemma_shape_sets(fields: Seq<ModelInfoFieldView>)
    ensures
        forall|k: int|
            0 <= k < shape_sets(fields).len() ==> may_set(
                fields,
                (#[trigger] shape_sets(fields)[k]).field,
            ),
        forall|i: int|
            0 <= i < fields.len() && (#[trigger] fields[i]).perms.update_set ==> exists|k: int|
                0 <= k < shape_sets(fields).len() && (#[trigger] shape_sets(fields)[k]).field
                    == fields[i].ident,
    decreases fields.len(),
{
    if fields.len() > 0 {
        let before = fields.drop_last();
        let last = fields.last();
        lemma_shape_sets(before);
        assert forall|k: int| 0 <= k < shape_sets(fields).len() implies may_set(
            fields,
            (#[trigger] shape_sets(fields)[k]).field,
        ) by {
            if k < shape_sets(before).len() {
                assert(shape_sets(fields)[k] == shape_sets(before)[k]);
                let i = choose|i: int|
                    0 <= i < before.len() && (#[trigger] before[i]).ident == shape_sets(
                        before,
                    )[k].field && before[i].perms.update_set;
                assert(fields[i] == before[i]);
            } else {
                assert(fields[fields.len() - 1] == last);
            }
        }
        assert forall|i: int|
            0 <= i < fields.len() && (#[trigger] fields[i]).perms.update_set implies exists|k: int|
            0 <= k < shape_sets(fields).len() && (#[trigger] shape_sets(fields)[k]).field
                == fields[i].ident by {
            if i < before.len() {
                assert(before[i] == fields[i]);
                let k = choose|k: int|
                    0 <= k < shape_sets(before).len() && (#[trigger] shape_sets(before)[k]).field
                        == before[i].ident;
                assert(shape_sets(fields)[k] == shape_sets(before)[k]);
            } else {
                let k = shape_sets(fields).len() - 1;
                assert(shape_sets(fields)[k] == set_method(last.ident, last.ty));
            }
        }
    }
}

/// An assignment method that is found belongs to the field asked for; where
/// none is found, no method does.
pub proof fn lemma_set_from(sets: Seq<SetMethodView>, field: Seq<char>, from: int)
    requires
        0 <= from,
    ensures
        match set_from(sets, field, from) {
            Some(i) => from <= i < sets.len() && sets[i].field == field,
            None => forall|k: int| from <= k < sets.len() ==> (#[trigger] sets[k]).field != field,
        },
    decreases sets.len() - from,
{
    if from < sets.len() && sets[from].field != field {
        lemma_set_from(sets, field, from + 1);
    }
}

/// Assignment is honoured exactly: a shape has an assignment method for a
/// field if and only if it is the shape of an update and the schema allows
/// assignment to the field.
pub proof fn law_set_iff_declared(
    mode: Mode,
    name: Seq<char>,
    fields: Seq<ModelInfoFieldView>,
    field: Seq<char>,
)
    requires
        shape_of(mode, name, fields) is Ok,
    ensures
        set_of(shape_of(mode, name, fields)->Ok_0.set_methods, field) is Some <==> (mode
            == Mode::Update && may_set(fields, field)),
{
    let sets = shape_of(mode, name, fields)->Ok_0.set_methods;
    lemma_set_from(sets, field, 0);
    if mode == Mode::Update {
        lemma_shape_sets(fields);
        if may_set(fields, field) {
            let i = choose|i: int|
                0 <= i < fields.len() && (#[trigger] fields[i]).ident == field
                    && fields[i].perms.update_set;
            let k = choose|k: int|
                0 <= k < shape_sets(fields).len() && (#[trigger] shape_sets(fields)[k]).field
                    == fields[i].ident;
            assert(sets[k].field == field);
        }
        if set_of(sets, field) is Some {
            let k = set_of(sets, field)->0;
            assert(may_set(fields, shape_sets(fields)[k].field));
        }
    }
}

/// A filter that the schema allows is stored: on a builder of a synthesised
/// shape, a filter call on a declared field and operation, with a value of the
/// operation's shape and of the field's type, is accepted; afterwards the
/// slot is set and holds that value, and one record is appended.
pub proof fn law_declared_filter_is_stored(
    mode: Mode,
    name: Seq<char>,
    fields: Seq<ModelInfoFieldView>,
    b: BuilderView,
    field: Seq<char>,
    op: OpKind,
    value: SlotValueView,
)
    requires
        shape_of(mode, name, fields) == Ok::<BuilderShapeView, SchemaErrorView>(b.shape),
        b.wf(),
        declares(mode, fields, field, op),
        value.shape() == op.shape(),
        value.fits(b.shape.slots[slot_of(b.shape.slots, field, op)->0].ty),
    ensures
        b.filtered(field, op, value, value.rendering()) matches Ok(next) && next.is_set(field, op)
            && next.get(field, op) == Some(value) && next.where_params == b.where_params.push(
            WhereParamView { field, op, value: value.rendering() },
        ),
{
    law_slot_iff_declared(mode, name, fields, field, op);
    law_last_write_wins(b, field, op, value, value.rendering());
}

/// A filter that the schema does not allow is refused: on a builder of a
/// synthesised shape, a filter call on a field and an operation that the
/// schema does not declare for the kind is not permitted, whatever the value.
pub proof fn law_undeclared_filter_is_refused(
    mode: Mode,
    name: Seq<char>,
    fields: Seq<ModelInfoFieldView>,
    b: BuilderView,
    field: Seq<char>,
    op: OpKind,
    value: SlotValueView,
    text: WhereValueView,
)
    requires
        shape_of(mode, name, fields) == Ok::<BuilderShapeView, SchemaErrorView>(b.shape),
        !declares(mode, fields, field, op),
    ensures
        b.filtered(field, op, value, text) == Err::<BuilderView, CallError>(
            CallError::NotPermitted,
        ),
{
    law_slot_iff_declared(mode, name, fields, field, op);
}

/// An assignment that the schema does not allow is refused: only an update
/// builder assigns, and only fields that carry the flag.
pub proof fn law_undeclared_set_is_refused(
    mode: Mode,
    name: Seq<char>,
    fields: Seq<ModelInfoFieldView>,
    b: BuilderView,
    field: Seq<char>,
    value: FieldValueView,
)
    requires
        shape_of(mode, name, fields) == Ok::<BuilderShapeView, SchemaErrorView>(b.shape),
        !(mode == Mode::Update && may_set(fields, field)),
    ensures
        b.assigned(field, value) == Err::<BuilderView, CallError>(CallError::NotPermitted),
{
    law_set_iff_declared(mode, name, fields, field);
}

} // verus!
