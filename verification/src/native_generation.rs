//! Shared wire semantics of native generation responses.
//!
//! The HTTP surface places these values in a JSON `meta_info` object, the gRPC
//! surface encodes each of them on its own. The logical shape is decided here,
//! so that the two cannot drift apart.

use vstd::prelude::*;

use crate::json::{
    entries_model, integer, integer_model, items_model, lemma_array_model,
    lemma_lookup_absent, lemma_lookup_push, lemma_object_model, lookup, push_entry, push_item, Json, JsonModel,
};
use crate::output::{
    ExtrasModel, FlatColumns, FrontendOutput, OutputModel, RaggedColumns,
};
use crate::text::texts;

verus! {

broadcast use {lemma_array_model, lemma_object_model};

/// The exponent of a 64-bit float is all ones exactly for infinities and NaN.
pub open spec fn finite_bits(bits: u64) -> bool {
    (bits / 0x10_0000_0000_0000) % 0x800 != 0x7ff
}

/// A number, or `null` where JSON has no number for the value.
pub open spec fn float_model(bits: u64) -> JsonModel {
    if finite_bits(bits) {
        JsonModel::Float(bits)
    } else {
        JsonModel::Null
    }
}

/// What an optional text column holds.
pub open spec fn opt_texts_model(column: Option<&[String]>) -> Option<Seq<Seq<char>>> {
    match column {
        Some(column) => Some(texts(column@)),
        None => None,
    }
}

/// A text column counts only when it is populated.
pub open spec fn populated(column: Seq<Seq<char>>) -> Option<Seq<Seq<char>>> {
    if column.len() > 0 {
        Some(column)
    } else {
        None
    }
}

/// The text slot of a tuple: the text at the position, if there is one.
pub open spec fn text_slot_model(column: Option<Seq<Seq<char>>>, position: int) -> JsonModel {
    match column {
        Some(column) => if 0 <= position < column.len() {
            JsonModel::Text(column[position])
        } else {
            JsonModel::Null
        },
        None => JsonModel::Null,
    }
}

/// The `[logprob, token_id, text]` tuple at a position.
pub open spec fn tuple_model(
    values: Seq<u64>,
    token_ids: Seq<i32>,
    column: Option<Seq<Seq<char>>>,
    position: int,
) -> JsonModel {
    JsonModel::Array(
        seq![
            float_model(values[position]),
            integer_model(token_ids[position] as int),
            text_slot_model(column, position),
        ],
    )
}

/// The number of positions that both columns have.
pub open spec fn common_length(values: Seq<u64>, token_ids: Seq<i32>) -> nat {
    if values.len() <= token_ids.len() {
        values.len()
    } else {
        token_ids.len()
    }
}

/// The tuples at the positions from `start` up to `end`, without those that
/// one of the columns lacks.
pub open spec fn tuples_model(
    values: Seq<u64>,
    token_ids: Seq<i32>,
    column: Option<Seq<Seq<char>>>,
    start: int,
    end: int,
) -> Seq<JsonModel> {
    let last = if end <= common_length(values, token_ids) {
        end
    } else {
        common_length(values, token_ids) as int
    };
    Seq::new(
        if start <= last {
            (last - start) as nat
        } else {
            0
        },
        |i: int| tuple_model(values, token_ids, column, start + i),
    )
}

/// The sum of the lengths.
pub open spec fn total(lengths: Seq<u32>) -> nat
    decreases lengths.len(),
{
    if lengths.len() == 0 {
        0
    } else {
        total(lengths.drop_last()) + lengths.last() as nat
    }
}

/// The row at a position: `null` where its length is zero, else the next
/// `length` tuples.
pub open spec fn ragged_row_model(
    values: Seq<u64>,
    token_ids: Seq<i32>,
    lengths: Seq<u32>,
    column: Option<Seq<Seq<char>>>,
    position: int,
) -> JsonModel {
    let offset = total(lengths.take(position)) as int;
    if lengths[position] == 0 {
        JsonModel::Null
    } else {
        JsonModel::Array(
            tuples_model(values, token_ids, column, offset, offset + lengths[position]),
        )
    }
}

/// One row for each length.
pub open spec fn ragged_rows_model(
    values: Seq<u64>,
    token_ids: Seq<i32>,
    lengths: Seq<u32>,
    column: Option<Seq<Seq<char>>>,
) -> Seq<JsonModel> {
    Seq::new(
        lengths.len(),
        |p: int| ragged_row_model(values, token_ids, lengths, column, p),
    )
}

/// The hidden-state row at a position: all its values, or none where the
/// values end too early.
pub open spec fn hidden_row_model(values: Seq<u64>, lengths: Seq<u32>, position: int) -> JsonModel {
    let offset = total(lengths.take(position)) as int;
    if offset + lengths[position] <= values.len() {
        JsonModel::Array(
            Seq::new(lengths[position] as nat, |i: int| float_model(values[offset + i])),
        )
    } else {
        JsonModel::Array(seq![])
    }
}

/// One hidden-state row for each length.
pub open spec fn hidden_rows_model(values: Seq<u64>, lengths: Seq<u32>) -> Seq<JsonModel> {
    Seq::new(lengths.len(), |p: int| hidden_row_model(values, lengths, p))
}

/// The text slot of a `[logprob, token_id, text]` tuple: the decoded token where
/// the column supplies one, else `null`.
pub fn text_slot(column: Option<&[String]>, position: usize) -> (slot: Json)
    ensures
        slot@ == text_slot_model(opt_texts_model(column), position as int),
{
    match column {
        Some(column) => if position < column.len() {
            Json::Text(column[position].clone())
        } else {
            Json::Null
        },
        None => Json::Null,
    }
}

/// A decoded-text column becomes the source of text slots only when populated.
pub fn opt_texts(column: &[String]) -> (source: Option<&[String]>)
    ensures
        opt_texts_model(source) == populated(texts(column@)),
{
    if column.len() == 0 {
        None
    } else {
        Some(column)
    }
}

/// The logprob slot of a tuple: a finite value, or `null`.
pub fn lp_value(bits: u64) -> (value: Json)
    ensures
        value@ == float_model(bits),
{
    if (bits / 0x10_0000_0000_0000) % 0x800 == 0x7ff {
        Json::Null
    } else {
        Json::Float(bits)
    }
}

/// One `[logprob, token_id, text]` tuple.
fn logprob_tuple(
    values: &[u64],
    token_ids: &[i32],
    column: Option<&[String]>,
    position: usize,
) -> (tuple: Json)
    requires
        position < values@.len(),
        position < token_ids@.len(),
    ensures
        tuple@ == tuple_model(values@, token_ids@, opt_texts_model(column), position as int),
{
    let mut slots: Vec<Json> = Vec::new();
    push_item(&mut slots, lp_value(values[position]));
    push_item(&mut slots, integer(token_ids[position] as i64));
    push_item(&mut slots, text_slot(column, position));
    assert(items_model(slots@) =~= tuple_model(
        values@,
        token_ids@,
        opt_texts_model(column),
        position as int,
    )->Array_0);
    Json::Array(slots)
}

/// The tuples at the positions from `start` up to `end`, without those that
/// one of the columns lacks.
fn tuples_between(
    values: &[u64],
    token_ids: &[i32],
    column: Option<&[String]>,
    start: usize,
    end: usize,
) -> (tuples: Vec<Json>)
    ensures
        items_model(tuples@) == tuples_model(
            values@,
            token_ids@,
            opt_texts_model(column),
            start as int,
            end as int,
        ),
{
    let ghost model = tuples_model(
        values@,
        token_ids@,
        opt_texts_model(column),
        start as int,
        end as int,
    );
    let mut tuples: Vec<Json> = Vec::new();
    let mut index: usize = start;
    while index < end && index < values.len() && index < token_ids.len()
        invariant
            start <= index,
            index <= end || index == start,
            index - start <= model.len(),
            model == tuples_model(
                values@,
                token_ids@,
                opt_texts_model(column),
                start as int,
                end as int,
            ),
            items_model(tuples@) == model.take(index - start),
        decreases end - index,
    {
        let tuple = logprob_tuple(values, token_ids, column, index);
        push_item(&mut tuples, tuple);
        assert(items_model(tuples@) =~= model.take(index - start + 1));
        index += 1;
    }
    assert(items_model(tuples@) =~= model);
    tuples
}

/// The flat logprob shape: a list of `[logprob, token_id, text]` tuples, as long
/// as the shorter column.
pub fn logprob_tuples(values: &[u64], token_ids: &[i32], column: Option<&[String]>) -> (list: Json)
    ensures
        list@ == JsonModel::Array(
            tuples_model(
                values@,
                token_ids@,
                opt_texts_model(column),
                0,
                common_length(values@, token_ids@) as int,
            ),
        ),
{
    let end = if values.len() <= token_ids.len() {
        values.len()
    } else {
        token_ids.len()
    };
    Json::Array(tuples_between(values, token_ids, column, 0, end))
}

/// The ragged shape of top and requested-token logprobs: one entry per
/// position, or `null` where the position's length is zero.
///
/// Columns that are too short for their lengths give shortened rows.
pub fn ragged_logprob_tuples(
    values: &[u64],
    token_ids: &[i32],
    lengths: &[u32],
    column: Option<&[String]>,
) -> (list: Json)
    ensures
        list@ == JsonModel::Array(
            ragged_rows_model(values@, token_ids@, lengths@, opt_texts_model(column)),
        ),
{
    let ghost model = ragged_rows_model(values@, token_ids@, lengths@, opt_texts_model(column));
    let mut positions: Vec<Json> = Vec::new();
    let mut offset: usize = 0;
    for p in 0..lengths.len()
        invariant
            model == ragged_rows_model(values@, token_ids@, lengths@, opt_texts_model(column)),
            items_model(positions@) == model.take(p as int),
            offset == total(lengths@.take(p as int)) || (offset == usize::MAX && usize::MAX
                <= total(lengths@.take(p as int))),
    {
        let length = lengths[p] as usize;
        let end = offset.saturating_add(length);
        let row = if length == 0 {
            Json::Null
        } else {
            Json::Array(tuples_between(values, token_ids, column, offset, end))
        };
        proof {
            let start = total(lengths@.take(p as int)) as int;
            assert(values@.len() == values.len());
            assert(lengths@.take(p + 1).drop_last() =~= lengths@.take(p as int));
            assert(tuples_model(
                values@,
                token_ids@,
                opt_texts_model(column),
                offset as int,
                end as int,
            ) =~= tuples_model(
                values@,
                token_ids@,
                opt_texts_model(column),
                start,
                start + lengths@[p as int],
            ));
            assert(row@ == model[p as int]);
        }
        push_item(&mut positions, row);
        assert(items_model(positions@) =~= model.take(p + 1));
        offset = end;
    }
    assert(items_model(positions@) =~= model);
    Json::Array(positions)
}

/// The values from `start` up to `end` as an array of numbers.
fn number_row(values: &[u64], start: usize, end: usize) -> (row: Json)
    requires
        start <= end <= values@.len(),
    ensures
        row@ == JsonModel::Array(
            Seq::new((end - start) as nat, |i: int| float_model(values@[start + i])),
        ),
{
    let ghost model = Seq::new((end - start) as nat, |i: int| float_model(values@[start + i]));
    let mut numbers: Vec<Json> = Vec::new();
    for index in start..end
        invariant
            start <= index <= end <= values@.len(),
            model == Seq::new((end - start) as nat, |i: int| float_model(values@[start + i])),
            items_model(numbers@) == model.take(index - start),
    {
        push_item(&mut numbers, lp_value(values[index]));
        assert(items_model(numbers@) =~= model.take(index - start + 1));
    }
    assert(items_model(numbers@) =~= model);
    Json::Array(numbers)
}

/// Reshapes flat hidden-state values and per-row lengths into nested rows.
pub fn hidden_states_rows(values: &[u64], lengths: &[u32]) -> (list: Json)
    ensures
        list@ == JsonModel::Array(hidden_rows_model(values@, lengths@)),
{
    let ghost model = hidden_rows_model(values@, lengths@);
    let mut rows: Vec<Json> = Vec::new();
    let mut offset: usize = 0;
    for p in 0..lengths.len()
        invariant
            model == hidden_rows_model(values@, lengths@),
            items_model(rows@) == model.take(p as int),
            offset == total(lengths@.take(p as int)) || (offset == usize::MAX && usize::MAX
                <= total(lengths@.take(p as int))),
    {
        let length = lengths[p] as usize;
        assert(lengths@.take(p + 1).drop_last() =~= lengths@.take(p as int));
        let end = offset.saturating_add(length);
        let fits = offset <= values.len() && length <= values.len() - offset;
        assert(fits ==> offset == total(lengths@.take(p as int)) || length == 0) by {
            if fits && offset != total(lengths@.take(p as int)) {
                assert(offset == usize::MAX);
            }
        }
        let row = if fits {
            number_row(values, offset, end)
        } else {
            Json::Array(Vec::new())
        };
        proof {
            if fits {
                if offset != total(lengths@.take(p as int)) {
                    assert(row@->Array_0 =~= seq![]);
                }
                assert(row@->Array_0 =~= model[p as int]->Array_0);
            } else {
                assert(row@->Array_0 =~= seq![]);
            }
            assert(row@ == model[p as int]);
        }
        push_item(&mut rows, row);
        assert(items_model(rows@) =~= model.take(p + 1));
        offset = end;
    }
    assert(items_model(rows@) =~= model);
    Json::Array(rows)
}

/// The entries, with one more at the end if the condition holds.
pub open spec fn with_entry_if(
    entries: Seq<(Seq<char>, JsonModel)>,
    condition: bool,
    key: Seq<char>,
    value: JsonModel,
) -> Seq<(Seq<char>, JsonModel)> {
    if condition {
        entries.push((key, value))
    } else {
        entries
    }
}

/// The flat logprobs of columns with one value per token.
pub open spec fn flat_model(columns: FlatColumns) -> JsonModel {
    JsonModel::Array(
        tuples_model(
            columns.values,
            columns.token_ids,
            populated(columns.texts),
            0,
            common_length(columns.values, columns.token_ids) as int,
        ),
    )
}

/// The ragged logprobs of columns with several values per position.
pub open spec fn ragged_model(columns: RaggedColumns) -> JsonModel {
    JsonModel::Array(
        ragged_rows_model(
            columns.values,
            columns.token_ids,
            columns.lengths,
            populated(columns.texts),
        ),
    )
}

/// The entries that every response has.
pub open spec fn base_meta_entries(out: OutputModel, rid: Seq<char>) -> Seq<
    (Seq<char>, JsonModel),
> {
    seq![
        ("id"@, JsonModel::Text(rid)),
        ("prompt_tokens"@, JsonModel::Unsigned(out.prompt_tokens as u64)),
        ("completion_tokens"@, JsonModel::Unsigned(out.completion_tokens as u64)),
        (
            "finish_reason"@,
            match out.finish_reason {
                Some(reason) => reason.value,
                None => JsonModel::Null,
            },
        ),
    ]
}

/// The entries that optional columns add. Output and input token logprobs
/// always come together, even where one of them is empty.
pub open spec fn extra_meta_entries(
    entries: Seq<(Seq<char>, JsonModel)>,
    extras: ExtrasModel,
) -> Seq<(Seq<char>, JsonModel)> {
    let flat = extras.out_lp.values.len() > 0 || extras.in_lp.values.len() > 0;
    let entries = with_entry_if(
        entries,
        flat,
        "output_token_logprobs"@,
        flat_model(extras.out_lp),
    );
    let entries = with_entry_if(
        entries,
        flat,
        "input_token_logprobs"@,
        flat_model(extras.in_lp),
    );
    let entries = with_entry_if(
        entries,
        extras.out_top.lengths.len() > 0,
        "output_top_logprobs"@,
        ragged_model(extras.out_top),
    );
    let entries = with_entry_if(
        entries,
        extras.in_top.lengths.len() > 0,
        "input_top_logprobs"@,
        ragged_model(extras.in_top),
    );
    let entries = with_entry_if(
        entries,
        extras.out_tid.lengths.len() > 0,
        "output_token_ids_logprobs"@,
        ragged_model(extras.out_tid),
    );
    let entries = with_entry_if(
        entries,
        extras.in_tid.lengths.len() > 0,
        "input_token_ids_logprobs"@,
        ragged_model(extras.in_tid),
    );
    with_entry_if(
        entries,
        extras.hidden.lengths.len() > 0,
        "hidden_states"@,
        JsonModel::Array(hidden_rows_model(extras.hidden.values, extras.hidden.lengths)),
    )
}

/// The entries of the native `meta_info` object.
pub open spec fn meta_entries(out: OutputModel, rid: Seq<char>) -> Seq<(Seq<char>, JsonModel)> {
    match out.extras {
        Some(extras) => extra_meta_entries(base_meta_entries(out, rid), extras),
        None => base_meta_entries(out, rid),
    }
}

/// Lists the entries of the native `meta_info` object, before a surface chooses
/// its wire encoding.
pub fn meta_info_entries(out: &FrontendOutput, rid: &str) -> (entries: Vec<(String, Json)>)
    ensures
        entries_model(entries@) == meta_entries(out@, rid@),
{
    let mut entries: Vec<(String, Json)> = Vec::new();
    push_entry(&mut entries, "id", Json::Text(rid.to_owned()));
    push_entry(&mut entries, "prompt_tokens", Json::Unsigned(out.prompt_tokens as u64));
    push_entry(&mut entries, "completion_tokens", Json::Unsigned(out.completion_tokens));
    let finish_reason = match &out.finish_reason {
        Some(reason) => reason.value.clone(),
        None => Json::Null,
    };
    push_entry(&mut entries, "finish_reason", finish_reason);
    assert(entries_model(entries@) =~= base_meta_entries(out@, rid@));
    let extras = match &out.extras {
        Some(extras) => extras,
        None => {
            return entries;
        },
    };
    if !extras.out_lp_val.is_empty() || !extras.in_lp_val.is_empty() {
        let output = logprob_tuples(
            extras.out_lp_val.as_slice(),
            extras.out_lp_idx.as_slice(),
            opt_texts(extras.out_lp_txt.as_slice()),
        );
        push_entry(&mut entries, "output_token_logprobs", output);
        let input = logprob_tuples(
            extras.in_lp_val.as_slice(),
            extras.in_lp_idx.as_slice(),
            opt_texts(extras.in_lp_txt.as_slice()),
        );
        push_entry(&mut entries, "input_token_logprobs", input);
    }
    if !extras.out_top_lens.is_empty() {
        let output = ragged_logprob_tuples(
            extras.out_top_val.as_slice(),
            extras.out_top_idx.as_slice(),
            extras.out_top_lens.as_slice(),
            opt_texts(extras.out_top_txt.as_slice()),
        );
        push_entry(&mut entries, "output_top_logprobs", output);
    }
    if !extras.in_top_lens.is_empty() {
        let input = ragged_logprob_tuples(
            extras.in_top_val.as_slice(),
            extras.in_top_idx.as_slice(),
            extras.in_top_lens.as_slice(),
            opt_texts(extras.in_top_txt.as_slice()),
        );
        push_entry(&mut entries, "input_top_logprobs", input);
    }
    if !extras.out_tid_lens.is_empty() {
        let output = ragged_logprob_tuples(
            extras.out_tid_val.as_slice(),
            extras.out_tid_idx.as_slice(),
            extras.out_tid_lens.as_slice(),
            opt_texts(extras.out_tid_txt.as_slice()),
        );
        push_entry(&mut entries, "output_token_ids_logprobs", output);
    }
    if !extras.in_tid_lens.is_empty() {
        let input = ragged_logprob_tuples(
            extras.in_tid_val.as_slice(),
            extras.in_tid_idx.as_slice(),
            extras.in_tid_lens.as_slice(),
            opt_texts(extras.in_tid_txt.as_slice()),
        );
        push_entry(&mut entries, "input_token_ids_logprobs", input);
    }
    if !extras.hidden_lens.is_empty() {
        let rows = hidden_states_rows(extras.hidden_val.as_slice(), extras.hidden_lens.as_slice());
        push_entry(&mut entries, "hidden_states", rows);
    }
    entries
}

/// Builds the native `meta_info` object.
pub fn meta_info_value(out: &FrontendOutput, rid: &str) -> (meta: Json)
    ensures
        meta@ == JsonModel::Object(meta_entries(out@, rid@)),
{
    Json::Object(meta_info_entries(out, rid))
}

/// All the tuples of the rows, in order.
pub open spec fn flattened(rows: Seq<JsonModel>) -> Seq<JsonModel>
    decreases rows.len(),
{
    if rows.len() == 0 {
        seq![]
    } else {
        flattened(rows.drop_last()) + match rows.last() {
            JsonModel::Array(items) => items,
            _ => seq![],
        }
    }
}

/// Where the columns are as long as the lengths say, the rows split the flat
/// list of tuples: no tuple is lost, repeated or moved.
pub proof fn law_ragged_rows_partition_the_tuples(
    values: Seq<u64>,
    token_ids: Seq<i32>,
    lengths: Seq<u32>,
    column: Option<Seq<Seq<char>>>,
)
    requires
        total(lengths) <= common_length(values, token_ids),
    ensures
        flattened(ragged_rows_model(values, token_ids, lengths, column)) == tuples_model(
            values,
            token_ids,
            column,
            0,
            total(lengths) as int,
        ),
    decreases lengths.len(),
{
    let rows = ragged_rows_model(values, token_ids, lengths, column);
    let flat = tuples_model(values, token_ids, column, 0, total(lengths) as int);
    if lengths.len() == 0 {
        assert(flattened(rows) =~= flat);
    } else {
        let rest = lengths.drop_last();
        law_ragged_rows_partition_the_tuples(values, token_ids, rest, column);
        let earlier = ragged_rows_model(values, token_ids, rest, column);
        assert forall|p: int| 0 <= p < rest.len() implies rows[p] == earlier[p] by {
            assert(rest.take(p) =~= lengths.take(p));
        }
        assert(rows.drop_last() =~= earlier);
        assert(lengths.take(lengths.len() - 1) =~= rest);
        assert(flattened(rows) =~= flat);
    }
}

/// Where there are as many values as the lengths say, the rows split the flat
/// list of hidden states: no value is lost, repeated or moved.
pub proof fn law_hidden_rows_partition_the_values(values: Seq<u64>, lengths: Seq<u32>)
    requires
        total(lengths) <= values.len(),
    ensures
        flattened(hidden_rows_model(values, lengths)) == Seq::new(
            total(lengths),
            |i: int| float_model(values[i]),
        ),
    decreases lengths.len(),
{
    let rows = hidden_rows_model(values, lengths);
    let flat = Seq::new(total(lengths), |i: int| float_model(values[i]));
    if lengths.len() == 0 {
        assert(flattened(rows) =~= flat);
    } else {
        let rest = lengths.drop_last();
        law_hidden_rows_partition_the_values(values, rest);
        let earlier = hidden_rows_model(values, rest);
        assert forall|p: int| 0 <= p < rest.len() implies rows[p] == earlier[p] by {
            assert(rest.take(p) =~= lengths.take(p));
        }
        assert(rows.drop_last() =~= earlier);
        assert(lengths.take(lengths.len() - 1) =~= rest);
        assert(flattened(rows) =~= flat);
    }
}

/// Whether every tuple has its token, and either every tuple has its text or
/// none has.
pub open spec fn parallel(columns: FlatColumns, with_text: bool) -> bool {
    &&& columns.values.len() == columns.token_ids.len()
    &&& columns.texts.len() == if with_text {
        columns.values.len()
    } else {
        0
    }
}

/// The logprobs of the cumulative output are those of its increments, one
/// after the other.
pub proof fn law_cumulative_logprobs_concatenate(
    first: FlatColumns,
    second: FlatColumns,
    with_text: bool,
)
    requires
        parallel(first, with_text),
        parallel(second, with_text),
    ensures
        parallel(first.followed_by(second), with_text),
        flat_model(first.followed_by(second))->Array_0 == flat_model(first)->Array_0 + flat_model(
            second,
        )->Array_0,
{
    let both = first.followed_by(second);
    let whole = flat_model(both)->Array_0;
    let front = flat_model(first)->Array_0;
    let back = flat_model(second)->Array_0;
    assert forall|i: int| 0 <= i < whole.len() implies whole[i] == (front + back)[i] by {
        if i < first.values.len() {
            assert(text_slot_model(populated(both.texts), i) == text_slot_model(
                populated(first.texts),
                i,
            ));
        } else {
            let j = i - first.values.len();
            assert(text_slot_model(populated(both.texts), i) == text_slot_model(
                populated(second.texts),
                j,
            ));
        }
    }
    assert(whole =~= front + back);
}

/// An optional entry is found only where no earlier one has its key.
broadcast proof fn lemma_lookup_with_entry_if(
    entries: Seq<(Seq<char>, JsonModel)>,
    condition: bool,
    key: Seq<char>,
    value: JsonModel,
    wanted: Seq<char>,
)
    ensures
        (#[trigger] lookup(with_entry_if(entries, condition, key, value), wanted)) == match lookup(
            entries,
            wanted,
        ) {
            Some(found) => Some(found),
            None => if condition && key == wanted {
                Some(value)
            } else {
                None
            },
        },
{
    broadcast use lemma_lookup_push;

}

/// The `meta_info` object can be read by its keys: each optional entry is there
/// exactly when its columns are, and output and input token logprobs come only
/// together.
pub proof fn law_meta_info_by_key(out: OutputModel, rid: Seq<char>)
    ensures
        ({
            let meta = JsonModel::Object(meta_entries(out, rid));
            let extras = match out.extras {
                Some(extras) => extras,
                None => ExtrasModel::empty(),
            };
            let flat = extras.out_lp.values.len() > 0 || extras.in_lp.values.len() > 0;
            &&& meta.get("id"@) == Some(JsonModel::Text(rid))
            &&& meta.get("prompt_tokens"@) == Some(JsonModel::Unsigned(out.prompt_tokens as u64))
            &&& meta.get("completion_tokens"@) == Some(
                JsonModel::Unsigned(out.completion_tokens as u64),
            )
            &&& meta.get("finish_reason"@) == Some(
                match out.finish_reason {
                    Some(reason) => reason.value,
                    None => JsonModel::Null,
                },
            )
            &&& meta.get("output_token_logprobs"@) == if flat {
                Some(flat_model(extras.out_lp))
            } else {
                None
            }
            &&& meta.get("input_token_logprobs"@) == if flat {
                Some(flat_model(extras.in_lp))
            } else {
                None
            }
            &&& meta.get("output_top_logprobs"@) == if extras.out_top.lengths.len() > 0 {
                Some(ragged_model(extras.out_top))
            } else {
                None
            }
            &&& meta.get("input_top_logprobs"@) == if extras.in_top.lengths.len() > 0 {
                Some(ragged_model(extras.in_top))
            } else {
                None
            }
            &&& meta.get("output_token_ids_logprobs"@) == if extras.out_tid.lengths.len() > 0 {
                Some(ragged_model(extras.out_tid))
            } else {
                None
            }
            &&& meta.get("input_token_ids_logprobs"@) == if extras.in_tid.lengths.len() > 0 {
                Some(ragged_model(extras.in_tid))
            } else {
                None
            }
            &&& meta.get("hidden_states"@) == if extras.hidden.lengths.len() > 0 {
                Some(
                    JsonModel::Array(
                        hidden_rows_model(extras.hidden.values, extras.hidden.lengths),
                    ),
                )
            } else {
                None
            }
        }),
{
    broadcast use {lemma_lookup_push, lemma_lookup_with_entry_if};

    reveal_strlit("id");
    reveal_strlit("prompt_tokens");
    reveal_strlit("completion_tokens");
    reveal_strlit("finish_reason");
    reveal_strlit("output_token_logprobs");
    reveal_strlit("input_token_logprobs");
    reveal_strlit("output_top_logprobs");
    reveal_strlit("input_top_logprobs");
    reveal_strlit("output_token_ids_logprobs");
    reveal_strlit("input_token_ids_logprobs");
    reveal_strlit("hidden_states");
    assert("id"@.len() == 2);
    assert("prompt_tokens"@.len() == 13);
    assert("completion_tokens"@.len() == 17);
    assert("finish_reason"@.len() == 13);
    assert("output_token_logprobs"@.len() == 21);
    assert("input_token_logprobs"@.len() == 20);
    assert("output_top_logprobs"@.len() == 19);
    assert("input_top_logprobs"@.len() == 18);
    assert("output_token_ids_logprobs"@.len() == 25);
    assert("input_token_ids_logprobs"@.len() == 24);
    assert("hidden_states"@.len() == 13);
    assert("prompt_tokens"@[0] == 'p' && "finish_reason"@[0] == 'f' && "hidden_states"@[0] == 'h');
    let base = base_meta_entries(out, rid);
    let empty: Seq<(Seq<char>, JsonModel)> = seq![];
    assert(base =~= empty.push(base[0]).push(base[1]).push(base[2]).push(base[3]));
}

/// The keys that a `meta_info` object can have, in their order.
pub open spec fn meta_keys() -> Seq<Seq<char>> {
    seq![
        "id"@,
        "prompt_tokens"@,
        "completion_tokens"@,
        "finish_reason"@,
        "output_token_logprobs"@,
        "input_token_logprobs"@,
        "output_top_logprobs"@,
        "input_top_logprobs"@,
        "output_token_ids_logprobs"@,
        "input_token_ids_logprobs"@,
        "hidden_states"@,
    ]
}

/// Whether every key of the entries is on the list, and none comes twice.
pub open spec fn keys_among(
    entries: Seq<(Seq<char>, JsonModel)>,
    keys: Seq<Seq<char>>,
) -> bool {
    &&& forall|i: int| 0 <= i < entries.len() ==> keys.contains((#[trigger] entries[i]).0)
    &&& forall|i: int, j: int|
        0 <= i < j < entries.len() ==> (#[trigger] entries[i]).0 != (#[trigger] entries[j]).0
}

/// An optional entry with the next key of the list keeps the keys on the list
/// and apart.
proof fn lemma_next_key(
    entries: Seq<(Seq<char>, JsonModel)>,
    condition: bool,
    value: JsonModel,
    keys: Seq<Seq<char>>,
    k: int,
)
    requires
        keys.no_duplicates(),
        0 <= k < keys.len(),
        keys_among(entries, keys.take(k)),
    ensures
        keys_among(with_entry_if(entries, condition, keys[k], value), keys.take(k + 1)),
{
    let grown = with_entry_if(entries, condition, keys[k], value);
    let front = keys.take(k);
    let longer = keys.take(k + 1);
    assert forall|i: int| 0 <= i < entries.len() implies (#[trigger] entries[i]).0 != keys[k]
        && longer.contains(entries[i].0) by {
        let at = front.index_of(entries[i].0);
        assert(front.contains(entries[i].0));
        assert(front[at] == keys[at] && longer[at] == keys[at]);
    }
    assert forall|i: int| 0 <= i < grown.len() implies longer.contains((#[trigger] grown[i]).0) by {
        if i < entries.len() {
            assert(grown[i] == entries[i]);
        } else {
            assert(longer[k] == grown[i].0);
        }
    }
    assert forall|i: int, j: int| 0 <= i < j < grown.len() implies (#[trigger] grown[i]).0 != (
    #[trigger] grown[j]).0 by {
        assert(grown[i] == entries[i]);
        if j < entries.len() {
            assert(grown[j] == entries[j]);
        }
    }
}

/// The keys of `meta_info` differ from each other.
proof fn lemma_meta_keys_differ()
    ensures
        meta_keys().no_duplicates(),
{
    reveal_strlit("id");
    reveal_strlit("prompt_tokens");
    reveal_strlit("completion_tokens");
    reveal_strlit("finish_reason");
    reveal_strlit("output_token_logprobs");
    reveal_strlit("input_token_logprobs");
    reveal_strlit("output_top_logprobs");
    reveal_strlit("input_top_logprobs");
    reveal_strlit("output_token_ids_logprobs");
    reveal_strlit("input_token_ids_logprobs");
    reveal_strlit("hidden_states");
    let keys = meta_keys();
    assert(keys[0].len() == 2);
    assert(keys[1].len() == 13 && keys[1][0] == 'p');
    assert(keys[2].len() == 17);
    assert(keys[3].len() == 13 && keys[3][0] == 'f');
    assert(keys[4].len() == 21);
    assert(keys[5].len() == 20);
    assert(keys[6].len() == 19);
    assert(keys[7].len() == 18);
    assert(keys[8].len() == 25);
    assert(keys[9].len() == 24);
    assert(keys[10].len() == 13 && keys[10][0] == 'h');
}

/// A `meta_info` object has no other keys than the listed ones, and has none of
/// them twice.
pub proof fn law_meta_info_has_no_other_key(out: OutputModel, rid: Seq<char>)
    ensures
        keys_among(meta_entries(out, rid), meta_keys()),
        forall|key: Seq<char>|
            !meta_keys().contains(key) ==> (#[trigger] JsonModel::Object(
                meta_entries(out, rid),
            ).get(key)) is None,
{
    let keys = meta_keys();
    lemma_meta_keys_differ();
    let entries = base_meta_entries(out, rid);
    assert(keys_among(entries, keys.take(4))) by {
        assert forall|i: int| 0 <= i < entries.len() implies keys.take(4).contains(
            (#[trigger] entries[i]).0,
        ) by {
            assert(keys.take(4)[i] == entries[i].0);
        }
    }
    assert(keys.take(11) =~= keys);
    match out.extras {
        Some(extras) => {
            let flat = extras.out_lp.values.len() > 0 || extras.in_lp.values.len() > 0;
            let value = flat_model(extras.out_lp);
            lemma_next_key(entries, flat, value, keys, 4);
            let entries = with_entry_if(entries, flat, keys[4], value);
            let value = flat_model(extras.in_lp);
            lemma_next_key(entries, flat, value, keys, 5);
            let entries = with_entry_if(entries, flat, keys[5], value);
            let (given, value) = (extras.out_top.lengths.len() > 0, ragged_model(extras.out_top));
            lemma_next_key(entries, given, value, keys, 6);
            let entries = with_entry_if(entries, given, keys[6], value);
            let (given, value) = (extras.in_top.lengths.len() > 0, ragged_model(extras.in_top));
            lemma_next_key(entries, given, value, keys, 7);
            let entries = with_entry_if(entries, given, keys[7], value);
            let (given, value) = (extras.out_tid.lengths.len() > 0, ragged_model(extras.out_tid));
            lemma_next_key(entries, given, value, keys, 8);
            let entries = with_entry_if(entries, given, keys[8], value);
            let (given, value) = (extras.in_tid.lengths.len() > 0, ragged_model(extras.in_tid));
            lemma_next_key(entries, given, value, keys, 9);
            let entries = with_entry_if(entries, given, keys[9], value);
            let rows = hidden_rows_model(extras.hidden.values, extras.hidden.lengths);
            let given = extras.hidden.lengths.len() > 0;
            lemma_next_key(entries, given, JsonModel::Array(rows), keys, 10);
        },
        None => {
            assert forall|i: int| 0 <= i < entries.len() implies keys.contains(
                (#[trigger] entries[i]).0,
            ) by {
                assert(keys[i] == entries[i].0);
            }
        },
    }
    let all = meta_entries(out, rid);
    assert forall|key: Seq<char>| !keys.contains(key) implies (#[trigger] JsonModel::Object(
        all,
    ).get(key)) is None by {
        lemma_lookup_absent(all, key);
    }
}

/// A number is shown as it is, bit for bit, unless it is infinite or no number at
/// all: its exponent is all ones exactly in these cases, and then `null` is shown.
pub proof fn law_numbers_are_shown_as_they_are(bits: u64)
    ensures
        (bits >> 52) & 0x7ff == 0x7ff ==> float_model(bits) is Null,
        (bits >> 52) & 0x7ff != 0x7ff ==> float_model(bits) == JsonModel::Float(bits),
{
    assert((bits >> 52) & 0x7ff == (bits / 0x10_0000_0000_0000) % 0x800) by (bit_vector);
}

/// Flat logprobs are shown position by position, as many as both columns have: the
/// value, the token, and the text where the column of texts reaches that far.
pub proof fn law_flat_logprobs_by_position(columns: FlatColumns)
    ensures
        flat_model(columns) matches JsonModel::Array(tuples) && {
            &&& tuples.len() <= columns.values.len()
            &&& tuples.len() <= columns.token_ids.len()
            &&& tuples.len() == columns.values.len() || tuples.len() == columns.token_ids.len()
            &&& forall|i: int|
                0 <= i < tuples.len() ==> (#[trigger] tuples[i]) == JsonModel::Array(
                        seq![
                            float_model(columns.values[i]),
                            integer_model(columns.token_ids[i] as int),
                            if i < columns.texts.len() {
                                JsonModel::Text(columns.texts[i])
                            } else {
                                JsonModel::Null
                            },
                        ],
                    )
        },
{
    let tuples = flat_model(columns)->Array_0;
    assert forall|i: int| 0 <= i < tuples.len() implies (#[trigger] tuples[i]) == JsonModel::Array(
                        seq![
                            float_model(columns.values[i]),
                            integer_model(columns.token_ids[i] as int),
                            if i < columns.texts.len() {
                                JsonModel::Text(columns.texts[i])
                            } else {
                                JsonModel::Null
                            },
                        ],
                    ) by {
        assert(tuples[i]->Array_0 =~= JsonModel::Array(
                        seq![
                            float_model(columns.values[i]),
                            integer_model(columns.token_ids[i] as int),
                            if i < columns.texts.len() {
                                JsonModel::Text(columns.texts[i])
                            } else {
                                JsonModel::Null
                            },
                        ],
                    )->Array_0);
    }
}

/// The sum of the lengths, as a fold.
proof fn lemma_total_is_the_sum(lengths: Seq<u32>)
    ensures
        total(lengths) == lengths.fold_left(0nat, |sum: nat, length: u32| sum + length as nat),
    decreases lengths.len(),
{
    if lengths.len() > 0 {
        lemma_total_is_the_sum(lengths.drop_last());
    }
}

/// Ragged logprobs are shown position by position: `null` where a position has
/// none, else its own run of the flat columns, which starts behind those of all
/// earlier positions and is as long as its length says, as far as the columns
/// reach.
pub proof fn law_ragged_logprobs_by_position(columns: RaggedColumns, position: int)
    requires
        0 <= position < columns.lengths.len(),
    ensures
        ragged_model(columns) matches JsonModel::Array(rows) && rows.len()
            == columns.lengths.len() && {
            let start = columns.lengths.take(position).fold_left(
                0nat,
                |sum: nat, length: u32| sum + length as nat,
            ) as int;
            let length = columns.lengths[position] as int;
            if length == 0 {
                rows[position] is Null
            } else {
                rows[position] matches JsonModel::Array(row) && {
                    &&& row.len() <= length
                    &&& start + length <= columns.values.len() && start + length
                        <= columns.token_ids.len() ==> row.len() == length
                    &&& row.len() < length ==> start + row.len() >= columns.values.len() || start
                        + row.len() >= columns.token_ids.len()
                    &&& forall|i: int|
                        0 <= i < row.len() ==> (#[trigger] row[i]) == JsonModel::Array(
                        seq![
                            float_model(columns.values[start + i]),
                            integer_model(columns.token_ids[start + i] as int),
                            if start + i < columns.texts.len() {
                                JsonModel::Text(columns.texts[start + i])
                            } else {
                                JsonModel::Null
                            },
                        ],
                    )
                }
            }
        },
{
    lemma_total_is_the_sum(columns.lengths.take(position));
    let start = total(columns.lengths.take(position)) as int;
    let rows = ragged_model(columns)->Array_0;
    if columns.lengths[position] != 0 {
        let row = rows[position]->Array_0;
        assert forall|i: int| 0 <= i < row.len() implies (#[trigger] row[i]) == JsonModel::Array(
                        seq![
                            float_model(columns.values[start + i]),
                            integer_model(columns.token_ids[start + i] as int),
                            if start + i < columns.texts.len() {
                                JsonModel::Text(columns.texts[start + i])
                            } else {
                                JsonModel::Null
                            },
                        ],
                    ) by {
            assert(row[i]->Array_0 =~= JsonModel::Array(
                        seq![
                            float_model(columns.values[start + i]),
                            integer_model(columns.token_ids[start + i] as int),
                            if start + i < columns.texts.len() {
                                JsonModel::Text(columns.texts[start + i])
                            } else {
                                JsonModel::Null
                            },
                        ],
                    )->Array_0);
        }
    }
}

/// Hidden states are shown row by row: each row is its own run of the flat values,
/// which starts behind all earlier rows and is as long as its length says, or it is
/// empty where the values do not reach that far.
pub proof fn law_hidden_states_by_position(values: Seq<u64>, lengths: Seq<u32>, position: int)
    requires
        0 <= position < lengths.len(),
    ensures
        hidden_rows_model(values, lengths).len() == lengths.len(),
        ({
            let start = lengths.take(position).fold_left(
                0nat,
                |sum: nat, length: u32| sum + length as nat,
            ) as int;
            let length = lengths[position] as int;
            hidden_rows_model(values, lengths)[position] matches JsonModel::Array(row) && {
                &&& start + length <= values.len() ==> row.len() == length
                &&& start + length > values.len() ==> row.len() == 0
                &&& forall|i: int|
                    0 <= i < row.len() ==> (#[trigger] row[i]) == float_model(values[start + i])
            }
        }),
{
    lemma_total_is_the_sum(lengths.take(position));
}

} // verus!
