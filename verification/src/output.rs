//! Generation output: what the runtime sends, and how increments add up.

use vstd::prelude::*;
use vstd::string::StringExecFns;

use crate::columns::{
    copy_i32, copy_u32, copy_u64, extend_i32, extend_texts, extend_u32, extend_u64,
};
use crate::ids::Rid;
use crate::json::{Json, JsonModel};
use crate::text::{copy_texts, texts};

verus! {

/// A scheduler-side abort that carried an error status.
#[derive(Debug)]
pub struct AbortStatus {
    pub status: u16,
    pub message: String,
}

/// Why generation stopped.
#[derive(Debug)]
pub struct FinishReason {
    /// The reason as it is shown to clients.
    pub value: Json,
    /// The error status, where the scheduler gave one.
    pub abort: Option<AbortStatus>,
}

/// What a [`FinishReason`] means.
pub struct FinishModel {
    pub value: JsonModel,
    pub abort: Option<(u16, Seq<char>)>,
}

impl View for FinishReason {
    type V = FinishModel;

    open spec fn view(&self) -> FinishModel {
        FinishModel {
            value: self.value@,
            abort: match self.abort {
                Some(abort) => Some((abort.status, abort.message@)),
                None => None,
            },
        }
    }
}

impl FinishReason {
    /// The error status and message of a scheduler-side abort. A plain abort,
    /// like any other reason, has none.
    pub fn abort_status(&self) -> (abort: Option<(u16, &String)>)
        ensures
            match abort {
                Some((status, message)) => self@.abort == Some((status, message@)),
                None => self@.abort is None,
            },
    {
        match &self.abort {
            Some(abort) => Some((abort.status, &abort.message)),
            None => None,
        }
    }
}

impl Clone for FinishReason {
    fn clone(&self) -> (copy: Self)
        ensures
            copy@ == self@,
    {
        FinishReason {
            value: self.value.clone(),
            abort: match &self.abort {
                Some(abort) => Some(
                    AbortStatus { status: abort.status, message: abort.message.clone() },
                ),
                None => None,
            },
        }
    }
}

/// The optional columns of generation output.
///
/// `out` columns belong to generated tokens, `in` columns to prompt tokens.
/// `lp` holds one log-probability per token, `top` the best alternatives and
/// `tid` the requested tokens of each position. A `val` or `hidden_val` entry
/// is the bit pattern of a 64-bit float, an `idx` entry a token, a `lens` entry
/// the number of alternatives at a position, a `txt` entry a decoded token.
#[derive(Debug, Default)]
pub struct ChunkExtras {
    pub out_lp_val: Vec<u64>,
    pub out_lp_idx: Vec<i32>,
    pub out_lp_txt: Vec<String>,
    pub out_top_val: Vec<u64>,
    pub out_top_idx: Vec<i32>,
    pub out_top_lens: Vec<u32>,
    pub out_top_txt: Vec<String>,
    pub out_tid_val: Vec<u64>,
    pub out_tid_idx: Vec<i32>,
    pub out_tid_lens: Vec<u32>,
    pub out_tid_txt: Vec<String>,
    pub in_lp_val: Vec<u64>,
    pub in_lp_idx: Vec<i32>,
    pub in_lp_txt: Vec<String>,
    pub in_top_val: Vec<u64>,
    pub in_top_idx: Vec<i32>,
    pub in_top_lens: Vec<u32>,
    pub in_top_txt: Vec<String>,
    pub in_tid_val: Vec<u64>,
    pub in_tid_idx: Vec<i32>,
    pub in_tid_lens: Vec<u32>,
    pub in_tid_txt: Vec<String>,
    pub hidden_val: Vec<u64>,
    pub hidden_lens: Vec<u32>,
}

/// One log-probability per token.
#[verifier::ext_equal]
pub struct FlatColumns {
    pub values: Seq<u64>,
    pub token_ids: Seq<i32>,
    pub texts: Seq<Seq<char>>,
}

/// Several log-probabilities per position.
#[verifier::ext_equal]
pub struct RaggedColumns {
    pub values: Seq<u64>,
    pub token_ids: Seq<i32>,
    pub lengths: Seq<u32>,
    pub texts: Seq<Seq<char>>,
}

/// Hidden states, one row after the other.
#[verifier::ext_equal]
pub struct HiddenRows {
    pub values: Seq<u64>,
    pub lengths: Seq<u32>,
}

/// What [`ChunkExtras`] holds.
#[verifier::ext_equal]
pub struct ExtrasModel {
    pub out_lp: FlatColumns,
    pub out_top: RaggedColumns,
    pub out_tid: RaggedColumns,
    pub in_lp: FlatColumns,
    pub in_top: RaggedColumns,
    pub in_tid: RaggedColumns,
    pub hidden: HiddenRows,
}

impl FlatColumns {
    pub open spec fn empty() -> Self {
        FlatColumns { values: seq![], token_ids: seq![], texts: seq![] }
    }

    pub open spec fn followed_by(self, more: Self) -> Self {
        FlatColumns {
            values: self.values + more.values,
            token_ids: self.token_ids + more.token_ids,
            texts: self.texts + more.texts,
        }
    }
}

impl RaggedColumns {
    pub open spec fn empty() -> Self {
        RaggedColumns { values: seq![], token_ids: seq![], lengths: seq![], texts: seq![] }
    }

    pub open spec fn followed_by(self, more: Self) -> Self {
        RaggedColumns {
            values: self.values + more.values,
            token_ids: self.token_ids + more.token_ids,
            lengths: self.lengths + more.lengths,
            texts: self.texts + more.texts,
        }
    }
}

impl ExtrasModel {
    pub open spec fn empty() -> Self {
        ExtrasModel {
            out_lp: FlatColumns::empty(),
            out_top: RaggedColumns::empty(),
            out_tid: RaggedColumns::empty(),
            in_lp: FlatColumns::empty(),
            in_top: RaggedColumns::empty(),
            in_tid: RaggedColumns::empty(),
            hidden: HiddenRows { values: seq![], lengths: seq![] },
        }
    }

    /// Columns of generated tokens grow. Columns of prompt tokens arrive once,
    /// and a later non-empty set replaces the earlier one; so do hidden states.
    pub open spec fn appended(self, delta: Self) -> Self {
        ExtrasModel {
            out_lp: self.out_lp.followed_by(delta.out_lp),
            out_top: self.out_top.followed_by(delta.out_top),
            out_tid: self.out_tid.followed_by(delta.out_tid),
            in_lp: if delta.in_lp.values.len() > 0 {
                delta.in_lp
            } else {
                self.in_lp
            },
            in_top: if delta.in_top.lengths.len() > 0 {
                delta.in_top
            } else {
                self.in_top
            },
            in_tid: if delta.in_tid.lengths.len() > 0 {
                delta.in_tid
            } else {
                self.in_tid
            },
            hidden: if delta.hidden.lengths.len() > 0 {
                delta.hidden
            } else {
                self.hidden
            },
        }
    }
}

impl View for ChunkExtras {
    type V = ExtrasModel;

    open spec fn view(&self) -> ExtrasModel {
        ExtrasModel {
            out_lp: FlatColumns {
                values: self.out_lp_val@,
                token_ids: self.out_lp_idx@,
                texts: texts(self.out_lp_txt@),
            },
            out_top: RaggedColumns {
                values: self.out_top_val@,
                token_ids: self.out_top_idx@,
                lengths: self.out_top_lens@,
                texts: texts(self.out_top_txt@),
            },
            out_tid: RaggedColumns {
                values: self.out_tid_val@,
                token_ids: self.out_tid_idx@,
                lengths: self.out_tid_lens@,
                texts: texts(self.out_tid_txt@),
            },
            in_lp: FlatColumns {
                values: self.in_lp_val@,
                token_ids: self.in_lp_idx@,
                texts: texts(self.in_lp_txt@),
            },
            in_top: RaggedColumns {
                values: self.in_top_val@,
                token_ids: self.in_top_idx@,
                lengths: self.in_top_lens@,
                texts: texts(self.in_top_txt@),
            },
            in_tid: RaggedColumns {
                values: self.in_tid_val@,
                token_ids: self.in_tid_idx@,
                lengths: self.in_tid_lens@,
                texts: texts(self.in_tid_txt@),
            },
            hidden: HiddenRows { values: self.hidden_val@, lengths: self.hidden_lens@ },
        }
    }
}

impl ChunkExtras {
    /// No columns.
    pub fn empty() -> (extras: Self)
        ensures
            extras@ == ExtrasModel::empty(),
    {
        let extras = ChunkExtras {
            out_lp_val: Vec::new(),
            out_lp_idx: Vec::new(),
            out_lp_txt: Vec::new(),
            out_top_val: Vec::new(),
            out_top_idx: Vec::new(),
            out_top_lens: Vec::new(),
            out_top_txt: Vec::new(),
            out_tid_val: Vec::new(),
            out_tid_idx: Vec::new(),
            out_tid_lens: Vec::new(),
            out_tid_txt: Vec::new(),
            in_lp_val: Vec::new(),
            in_lp_idx: Vec::new(),
            in_lp_txt: Vec::new(),
            in_top_val: Vec::new(),
            in_top_idx: Vec::new(),
            in_top_lens: Vec::new(),
            in_top_txt: Vec::new(),
            in_tid_val: Vec::new(),
            in_tid_idx: Vec::new(),
            in_tid_lens: Vec::new(),
            in_tid_txt: Vec::new(),
            hidden_val: Vec::new(),
            hidden_lens: Vec::new(),
        };
        assert(extras@ =~~= ExtrasModel::empty());
        extras
    }

    /// Folds the columns of one increment into these.
    pub fn append(&mut self, delta: &Self)
        ensures
            final(self)@ == old(self)@.appended(delta@),
    {
        extend_u64(&mut self.out_lp_val, &delta.out_lp_val);
        extend_i32(&mut self.out_lp_idx, &delta.out_lp_idx);
        extend_texts(&mut self.out_lp_txt, &delta.out_lp_txt);
        extend_u64(&mut self.out_top_val, &delta.out_top_val);
        extend_i32(&mut self.out_top_idx, &delta.out_top_idx);
        extend_u32(&mut self.out_top_lens, &delta.out_top_lens);
        extend_texts(&mut self.out_top_txt, &delta.out_top_txt);
        extend_u64(&mut self.out_tid_val, &delta.out_tid_val);
        extend_i32(&mut self.out_tid_idx, &delta.out_tid_idx);
        extend_u32(&mut self.out_tid_lens, &delta.out_tid_lens);
        extend_texts(&mut self.out_tid_txt, &delta.out_tid_txt);

        if !delta.in_lp_val.is_empty() {
            self.in_lp_val = copy_u64(&delta.in_lp_val);
            self.in_lp_idx = copy_i32(&delta.in_lp_idx);
            self.in_lp_txt = copy_texts(&delta.in_lp_txt);
        }
        if !delta.in_top_lens.is_empty() {
            self.in_top_val = copy_u64(&delta.in_top_val);
            self.in_top_idx = copy_i32(&delta.in_top_idx);
            self.in_top_lens = copy_u32(&delta.in_top_lens);
            self.in_top_txt = copy_texts(&delta.in_top_txt);
        }
        if !delta.in_tid_lens.is_empty() {
            self.in_tid_val = copy_u64(&delta.in_tid_val);
            self.in_tid_idx = copy_i32(&delta.in_tid_idx);
            self.in_tid_lens = copy_u32(&delta.in_tid_lens);
            self.in_tid_txt = copy_texts(&delta.in_tid_txt);
        }
        if !delta.hidden_lens.is_empty() {
            self.hidden_val = copy_u64(&delta.hidden_val);
            self.hidden_lens = copy_u32(&delta.hidden_lens);
        }
    }
}

impl Clone for ChunkExtras {
    fn clone(&self) -> (copy: Self)
        ensures
            copy@ == self@,
    {
        ChunkExtras {
            out_lp_val: copy_u64(&self.out_lp_val),
            out_lp_idx: copy_i32(&self.out_lp_idx),
            out_lp_txt: copy_texts(&self.out_lp_txt),
            out_top_val: copy_u64(&self.out_top_val),
            out_top_idx: copy_i32(&self.out_top_idx),
            out_top_lens: copy_u32(&self.out_top_lens),
            out_top_txt: copy_texts(&self.out_top_txt),
            out_tid_val: copy_u64(&self.out_tid_val),
            out_tid_idx: copy_i32(&self.out_tid_idx),
            out_tid_lens: copy_u32(&self.out_tid_lens),
            out_tid_txt: copy_texts(&self.out_tid_txt),
            in_lp_val: copy_u64(&self.in_lp_val),
            in_lp_idx: copy_i32(&self.in_lp_idx),
            in_lp_txt: copy_texts(&self.in_lp_txt),
            in_top_val: copy_u64(&self.in_top_val),
            in_top_idx: copy_i32(&self.in_top_idx),
            in_top_lens: copy_u32(&self.in_top_lens),
            in_top_txt: copy_texts(&self.in_top_txt),
            in_tid_val: copy_u64(&self.in_tid_val),
            in_tid_idx: copy_i32(&self.in_tid_idx),
            in_tid_lens: copy_u32(&self.in_tid_lens),
            in_tid_txt: copy_texts(&self.in_tid_txt),
            hidden_val: copy_u64(&self.hidden_val),
            hidden_lens: copy_u32(&self.hidden_lens),
        }
    }
}

/// One output update as the runtime sends it, with the request it belongs to.
#[derive(Debug)]
pub struct ChunkEvent {
    pub rid: Rid,
    pub token_ids: Vec<i32>,
    pub finish_reason: Option<FinishReason>,
    pub prompt_tokens: u32,
    pub text: String,
    pub completion_tokens: u64,
    pub extras: Option<Box<ChunkExtras>>,
}

/// Output of generation, without the identity that the runtime routes by.
#[derive(Debug)]
pub struct FrontendOutput {
    pub token_ids: Vec<i32>,
    pub finish_reason: Option<FinishReason>,
    pub prompt_tokens: u32,
    pub text: String,
    pub completion_tokens: u64,
    pub extras: Option<Box<ChunkExtras>>,
}

/// What a [`FrontendOutput`] holds.
#[verifier::ext_equal]
pub struct OutputModel {
    pub token_ids: Seq<i32>,
    pub finish_reason: Option<FinishModel>,
    pub prompt_tokens: u32,
    pub text: Seq<char>,
    pub completion_tokens: nat,
    pub extras: Option<ExtrasModel>,
}

/// What an optional finish reason means.
pub open spec fn opt_finish(reason: Option<FinishReason>) -> Option<FinishModel> {
    match reason {
        Some(reason) => Some(reason@),
        None => None,
    }
}

impl View for FrontendOutput {
    type V = OutputModel;

    open spec fn view(&self) -> OutputModel {
        OutputModel {
            token_ids: self.token_ids@,
            finish_reason: opt_finish(self.finish_reason),
            prompt_tokens: self.prompt_tokens,
            text: self.text@,
            completion_tokens: self.completion_tokens as nat,
            extras: match self.extras {
                Some(extras) => Some((*extras)@),
                None => None,
            },
        }
    }
}

impl OutputModel {
    pub open spec fn empty() -> Self {
        OutputModel {
            token_ids: seq![],
            finish_reason: None,
            prompt_tokens: 0,
            text: seq![],
            completion_tokens: 0,
            extras: None,
        }
    }

    /// The cumulative output after one more increment.
    pub open spec fn appended(self, delta: Self) -> Self {
        OutputModel {
            token_ids: self.token_ids + delta.token_ids,
            finish_reason: if delta.finish_reason is Some {
                delta.finish_reason
            } else {
                self.finish_reason
            },
            prompt_tokens: delta.prompt_tokens,
            text: self.text + delta.text,
            completion_tokens: self.completion_tokens + delta.completion_tokens,
            extras: match delta.extras {
                None => self.extras,
                Some(delta_extras) => match self.extras {
                    Some(extras) => Some(extras.appended(delta_extras)),
                    None => Some(ExtrasModel::empty().appended(delta_extras)),
                },
            },
        }
    }
}

/// The output part of a chunk.
pub open spec fn chunk_output(chunk: ChunkEvent) -> FrontendOutput {
    FrontendOutput {
        token_ids: chunk.token_ids,
        finish_reason: chunk.finish_reason,
        prompt_tokens: chunk.prompt_tokens,
        text: chunk.text,
        completion_tokens: chunk.completion_tokens,
        extras: chunk.extras,
    }
}

impl vstd::std_specs::convert::FromSpecImpl<ChunkEvent> for FrontendOutput {
    open spec fn obeys_from_spec() -> bool {
        true
    }

    open spec fn from_spec(chunk: ChunkEvent) -> Self {
        chunk_output(chunk)
    }
}

impl From<ChunkEvent> for FrontendOutput {
    /// Leaves the runtime's identity behind.
    fn from(chunk: ChunkEvent) -> (output: Self) {
        FrontendOutput {
            token_ids: chunk.token_ids,
            finish_reason: chunk.finish_reason,
            prompt_tokens: chunk.prompt_tokens,
            text: chunk.text,
            completion_tokens: chunk.completion_tokens,
            extras: chunk.extras,
        }
    }
}

impl Clone for FrontendOutput {
    fn clone(&self) -> (copy: Self)
        ensures
            copy@ == self@,
    {
        FrontendOutput {
            token_ids: copy_i32(&self.token_ids),
            finish_reason: match &self.finish_reason {
                Some(reason) => Some(reason.clone()),
                None => None,
            },
            prompt_tokens: self.prompt_tokens,
            text: self.text.clone(),
            completion_tokens: self.completion_tokens,
            extras: match &self.extras {
                Some(extras) => Some(Box::new((**extras).clone())),
                None => None,
            },
        }
    }
}

impl Default for FrontendOutput {
    fn default() -> (output: Self)
        ensures
            output@ == OutputModel::empty(),
    {
        let output = FrontendOutput {
            token_ids: Vec::new(),
            finish_reason: None,
            prompt_tokens: 0,
            text: String::new(),
            completion_tokens: 0,
            extras: None,
        };
        assert(output@ =~= OutputModel::empty());
        output
    }
}

impl FrontendOutput {
    /// Folds one increment into this cumulative output.
    ///
    /// Text, tokens and the columns of generated tokens grow; the prompt count,
    /// and a finish reason that the increment carries, are taken over.
    pub fn append_delta(&mut self, delta: &Self)
        requires
            old(self).completion_tokens + delta.completion_tokens <= u64::MAX,
        ensures
            final(self)@ == old(self)@.appended(delta@),
            final(self).text@ == old(self).text@ + delta.text@,
            final(self).token_ids@ == old(self).token_ids@ + delta.token_ids@,
            final(self).completion_tokens == old(self).completion_tokens + delta.completion_tokens,
            final(self).prompt_tokens == delta.prompt_tokens,
            delta.finish_reason is None ==> final(self).finish_reason == old(self).finish_reason,
            delta.finish_reason is Some ==> final(self).finish_reason is Some,
            final(self).extras is Some <==> old(self).extras is Some || delta.extras is Some,
    {
        self.text.append(delta.text.as_str());
        extend_i32(&mut self.token_ids, &delta.token_ids);
        self.completion_tokens = self.completion_tokens + delta.completion_tokens;
        self.prompt_tokens = delta.prompt_tokens;
        if let Some(reason) = &delta.finish_reason {
            self.finish_reason = Some(reason.clone());
        }
        if let Some(delta_extras) = &delta.extras {
            let mut extras = match self.extras.take() {
                Some(extras) => extras,
                None => Box::new(ChunkExtras::empty()),
            };
            extras.append(delta_extras);
            self.extras = Some(extras);
        }
    }
}

/// The cumulative output after all the increments.
pub open spec fn folded(deltas: Seq<OutputModel>) -> OutputModel
    decreases deltas.len(),
{
    if deltas.len() == 0 {
        OutputModel::empty()
    } else {
        folded(deltas.drop_last()).appended(deltas.last())
    }
}

/// The texts of the increments, one after the other.
pub open spec fn all_text(deltas: Seq<OutputModel>) -> Seq<char>
    decreases deltas.len(),
{
    if deltas.len() == 0 {
        seq![]
    } else {
        all_text(deltas.drop_last()) + deltas.last().text
    }
}

/// The tokens of the increments, one after the other.
pub open spec fn all_tokens(deltas: Seq<OutputModel>) -> Seq<i32>
    decreases deltas.len(),
{
    if deltas.len() == 0 {
        seq![]
    } else {
        all_tokens(deltas.drop_last()) + deltas.last().token_ids
    }
}

/// The completion counts of the increments, added up.
pub open spec fn all_completion_tokens(deltas: Seq<OutputModel>) -> nat
    decreases deltas.len(),
{
    if deltas.len() == 0 {
        0
    } else {
        all_completion_tokens(deltas.drop_last()) + deltas.last().completion_tokens
    }
}

/// The last finish reason among the increments.
pub open spec fn last_finish_reason(deltas: Seq<OutputModel>) -> Option<FinishModel>
    decreases deltas.len(),
{
    if deltas.len() == 0 {
        None
    } else if deltas.last().finish_reason is Some {
        deltas.last().finish_reason
    } else {
        last_finish_reason(deltas.drop_last())
    }
}

/// The cumulative output holds the text and the tokens of all increments in
/// order, the sum of their completion counts, the last finish reason, and the
/// prompt count of the last increment.
pub proof fn law_cumulative_output(deltas: Seq<OutputModel>)
    ensures
        folded(deltas).text == all_text(deltas),
        folded(deltas).token_ids == all_tokens(deltas),
        folded(deltas).completion_tokens == all_completion_tokens(deltas),
        folded(deltas).finish_reason == last_finish_reason(deltas),
        deltas.len() > 0 ==> folded(deltas).prompt_tokens == deltas.last().prompt_tokens,
    decreases deltas.len(),
{
    if deltas.len() > 0 {
        law_cumulative_output(deltas.drop_last());
    }
}

/// It does not matter whether increments are folded in one by one, or first
/// into one another: a cumulative output can be built from cumulative parts.
pub proof fn law_append_is_associative(first: OutputModel, second: OutputModel, third: OutputModel)
    ensures
        first.appended(second).appended(third) == first.appended(second.appended(third)),
{
    assert(first.appended(second).appended(third) =~~= first.appended(second.appended(third)));
}

/// Prompt columns and hidden states are replaced as a whole by a later
/// non-empty set, and kept through increments that bring none.
pub proof fn law_prompt_columns_are_replaced(extras: ExtrasModel, delta: ExtrasModel)
    ensures
        delta.in_lp.values.len() > 0 ==> extras.appended(delta).in_lp == delta.in_lp,
        delta.in_lp.values.len() == 0 ==> extras.appended(delta).in_lp == extras.in_lp,
        delta.in_top.lengths.len() > 0 ==> extras.appended(delta).in_top == delta.in_top,
        delta.in_top.lengths.len() == 0 ==> extras.appended(delta).in_top == extras.in_top,
        delta.in_tid.lengths.len() > 0 ==> extras.appended(delta).in_tid == delta.in_tid,
        delta.in_tid.lengths.len() == 0 ==> extras.appended(delta).in_tid == extras.in_tid,
        delta.hidden.lengths.len() > 0 ==> extras.appended(delta).hidden == delta.hidden,
        delta.hidden.lengths.len() == 0 ==> extras.appended(delta).hidden == extras.hidden,
{
}

/// Whatever is appended, nothing of either part is lost or moved: text, tokens
/// and the columns of generated tokens stand one behind the other, the completion
/// counts are added, the prompt count is the newer one, and the newer finish
/// reason counts where there is one.
pub proof fn law_appending_keeps_both_parts(output: OutputModel, delta: OutputModel)
    ensures
        output.appended(delta).text == output.text + delta.text,
        output.appended(delta).token_ids == output.token_ids + delta.token_ids,
        output.appended(delta).completion_tokens == output.completion_tokens
            + delta.completion_tokens,
        output.appended(delta).prompt_tokens == delta.prompt_tokens,
        delta.finish_reason is Some ==> output.appended(delta).finish_reason
            == delta.finish_reason,
        delta.finish_reason is None ==> output.appended(delta).finish_reason
            == output.finish_reason,
        delta.extras is None ==> output.appended(delta).extras == output.extras,
        match (output.extras, delta.extras, output.appended(delta).extras) {
            (None, Some(more), Some(grown)) => {
                &&& grown.out_lp == more.out_lp
                &&& grown.out_top == more.out_top
                &&& grown.out_tid == more.out_tid
                &&& more.in_lp.values.len() > 0 ==> grown.in_lp == more.in_lp
                &&& more.in_top.lengths.len() > 0 ==> grown.in_top == more.in_top
                &&& more.in_tid.lengths.len() > 0 ==> grown.in_tid == more.in_tid
                &&& more.hidden.lengths.len() > 0 ==> grown.hidden == more.hidden
            },
            (None, Some(_), None) => false,
            _ => true,
        },
        match (output.extras, delta.extras, output.appended(delta).extras) {
            (Some(extras), Some(more), Some(grown)) => {
                &&& grown.out_lp.values == extras.out_lp.values + more.out_lp.values
                &&& grown.out_lp.token_ids == extras.out_lp.token_ids + more.out_lp.token_ids
                &&& grown.out_lp.texts == extras.out_lp.texts + more.out_lp.texts
                &&& grown.out_top.values == extras.out_top.values + more.out_top.values
                &&& grown.out_top.token_ids == extras.out_top.token_ids + more.out_top.token_ids
                &&& grown.out_top.lengths == extras.out_top.lengths + more.out_top.lengths
                &&& grown.out_top.texts == extras.out_top.texts + more.out_top.texts
                &&& grown.out_tid.values == extras.out_tid.values + more.out_tid.values
                &&& grown.out_tid.token_ids == extras.out_tid.token_ids + more.out_tid.token_ids
                &&& grown.out_tid.lengths == extras.out_tid.lengths + more.out_tid.lengths
                &&& grown.out_tid.texts == extras.out_tid.texts + more.out_tid.texts
            },
            (Some(_), Some(_), None) => false,
            _ => true,
        },
{
    if let Some(more) = delta.extras {
        let grown = ExtrasModel::empty().appended(more);
        assert(grown.out_lp =~= more.out_lp);
        assert(grown.out_top =~= more.out_top);
        assert(grown.out_tid =~= more.out_tid);
    }
}

/// Joining can be unrolled from the back.
proof fn lemma_flatten_last<A>(deltas: Seq<OutputModel>, part: spec_fn(OutputModel) -> Seq<A>)
    requires
        deltas.len() > 0,
    ensures
        deltas.map_values(part).flatten() == deltas.drop_last().map_values(part).flatten() + part(
            deltas.last(),
        ),
{
    let parts = deltas.map_values(part);
    let front = deltas.drop_last().map_values(part);
    assert(parts.drop_last() =~= front);
    parts.lemma_flatten_and_flatten_alt_are_equivalent();
    front.lemma_flatten_and_flatten_alt_are_equivalent();
}

/// The cumulative output of a generation is its increments put together: the
/// texts and the tokens joined in order, the completion counts summed up, the
/// prompt count of the last increment, and the last finish reason that any of
/// them brought.
pub proof fn law_cumulative_output_joins_the_increments(deltas: Seq<OutputModel>)
    ensures
        folded(deltas).text == deltas.map_values(|delta: OutputModel| delta.text).flatten(),
        folded(deltas).token_ids == deltas.map_values(
            |delta: OutputModel| delta.token_ids,
        ).flatten(),
        folded(deltas).completion_tokens == deltas.fold_left(
            0nat,
            |sum: nat, delta: OutputModel| sum + delta.completion_tokens,
        ),
        deltas.len() > 0 ==> folded(deltas).prompt_tokens == deltas.last().prompt_tokens,
        (forall|i: int| 0 <= i < deltas.len() ==> (#[trigger] deltas[i]).finish_reason is None)
            ==> folded(deltas).finish_reason is None,
        forall|i: int|
            0 <= i < deltas.len() && (#[trigger] deltas[i]).finish_reason is Some && (forall|j: int|
                i < j < deltas.len() ==> (#[trigger] deltas[j]).finish_reason is None)
                ==> folded(deltas).finish_reason == deltas[i].finish_reason,
    decreases deltas.len(),
{
    if deltas.len() > 0 {
        let front = deltas.drop_last();
        law_cumulative_output_joins_the_increments(front);
        lemma_flatten_last(deltas, |delta: OutputModel| delta.text);
        lemma_flatten_last(deltas, |delta: OutputModel| delta.token_ids);
        if deltas.last().finish_reason is None {
            assert forall|i: int|
                0 <= i < deltas.len() && (#[trigger] deltas[i]).finish_reason is Some && (forall|
                    j: int,
                | i < j < deltas.len() ==> (#[trigger] deltas[j]).finish_reason is None) implies
                folded(deltas).finish_reason == deltas[i].finish_reason by {
                assert(front[i] == deltas[i]);
                assert forall|j: int| i < j < front.len() implies (
                #[trigger] front[j]).finish_reason is None by {
                    assert(front[j] == deltas[j]);
                }
            }
            if forall|i: int| 0 <= i < deltas.len() ==> (#[trigger] deltas[i]).finish_reason is None {
                assert forall|i: int| 0 <= i < front.len() implies (
                #[trigger] front[i]).finish_reason is None by {
                    assert(front[i] == deltas[i]);
                }
            }
        }
    } else {
        assert(folded(deltas).text =~= deltas.map_values(
            |delta: OutputModel| delta.text,
        ).flatten());
        assert(folded(deltas).token_ids =~= deltas.map_values(
            |delta: OutputModel| delta.token_ids,
        ).flatten());
    }
}

/// The columns of generated tokens in a cumulative output are those of its
/// increments, joined in order; there are columns as soon as one increment
/// brought any.
pub proof fn law_cumulative_columns_join_the_increments(deltas: Seq<OutputModel>)
    ensures
        folded(deltas).extras is Some <==> exists|i: int|
            0 <= i < deltas.len() && (#[trigger] deltas[i]).extras is Some,
        folded(deltas).extras matches Some(extras) ==> {
            &&& extras.out_lp.values == deltas.map_values(
                |delta: OutputModel| match delta.extras {
                    Some(extras) => extras.out_lp.values,
                    None => Seq::<u64>::empty(),
                },
            ).flatten()
            &&& extras.out_lp.token_ids == deltas.map_values(
                |delta: OutputModel| match delta.extras {
                    Some(extras) => extras.out_lp.token_ids,
                    None => Seq::<i32>::empty(),
                },
            ).flatten()
            &&& extras.out_lp.texts == deltas.map_values(
                |delta: OutputModel| match delta.extras {
                    Some(extras) => extras.out_lp.texts,
                    None => Seq::<Seq<char>>::empty(),
                },
            ).flatten()
            &&& extras.out_top.values == deltas.map_values(
                |delta: OutputModel| match delta.extras {
                    Some(extras) => extras.out_top.values,
                    None => Seq::<u64>::empty(),
                },
            ).flatten()
            &&& extras.out_top.token_ids == deltas.map_values(
                |delta: OutputModel| match delta.extras {
                    Some(extras) => extras.out_top.token_ids,
                    None => Seq::<i32>::empty(),
                },
            ).flatten()
            &&& extras.out_top.lengths == deltas.map_values(
                |delta: OutputModel| match delta.extras {
                    Some(extras) => extras.out_top.lengths,
                    None => Seq::<u32>::empty(),
                },
            ).flatten()
            &&& extras.out_top.texts == deltas.map_values(
                |delta: OutputModel| match delta.extras {
                    Some(extras) => extras.out_top.texts,
                    None => Seq::<Seq<char>>::empty(),
                },
            ).flatten()
            &&& extras.out_tid.values == deltas.map_values(
                |delta: OutputModel| match delta.extras {
                    Some(extras) => extras.out_tid.values,
                    None => Seq::<u64>::empty(),
                },
            ).flatten()
            &&& extras.out_tid.token_ids == deltas.map_values(
                |delta: OutputModel| match delta.extras {
                    Some(extras) => extras.out_tid.token_ids,
                    None => Seq::<i32>::empty(),
                },
            ).flatten()
            &&& extras.out_tid.lengths == deltas.map_values(
                |delta: OutputModel| match delta.extras {
                    Some(extras) => extras.out_tid.lengths,
                    None => Seq::<u32>::empty(),
                },
            ).flatten()
            &&& extras.out_tid.texts == deltas.map_values(
                |delta: OutputModel| match delta.extras {
                    Some(extras) => extras.out_tid.texts,
                    None => Seq::<Seq<char>>::empty(),
                },
            ).flatten()
        },
    decreases deltas.len(),
{
    if deltas.len() > 0 {
        let front = deltas.drop_last();
        law_cumulative_columns_join_the_increments(front);
        law_appending_keeps_both_parts(folded(front), deltas.last());
        if deltas.last().extras is Some {
            assert(deltas[deltas.len() - 1].extras is Some);
        }
        if folded(front).extras is Some {
            let i = choose|i: int| 0 <= i < front.len() && (#[trigger] front[i]).extras is Some;
            assert(deltas[i].extras is Some);
        } else {
            assert forall|i: int| 0 <= i < front.len() implies (#[trigger] deltas[i]).extras is None by {
                assert(front[i].extras is None);
            }
            lemma_no_columns(front);
        }
        lemma_flatten_last(
            deltas,
            |delta: OutputModel| match delta.extras {
                    Some(extras) => extras.out_lp.values,
                    None => Seq::<u64>::empty(),
                },
        );
        lemma_flatten_last(
            deltas,
            |delta: OutputModel| match delta.extras {
                    Some(extras) => extras.out_lp.token_ids,
                    None => Seq::<i32>::empty(),
                },
        );
        lemma_flatten_last(
            deltas,
            |delta: OutputModel| match delta.extras {
                    Some(extras) => extras.out_lp.texts,
                    None => Seq::<Seq<char>>::empty(),
                },
        );
        lemma_flatten_last(
            deltas,
            |delta: OutputModel| match delta.extras {
                    Some(extras) => extras.out_top.values,
                    None => Seq::<u64>::empty(),
                },
        );
        lemma_flatten_last(
            deltas,
            |delta: OutputModel| match delta.extras {
                    Some(extras) => extras.out_top.token_ids,
                    None => Seq::<i32>::empty(),
                },
        );
        lemma_flatten_last(
            deltas,
            |delta: OutputModel| match delta.extras {
                    Some(extras) => extras.out_top.lengths,
                    None => Seq::<u32>::empty(),
                },
        );
        lemma_flatten_last(
            deltas,
            |delta: OutputModel| match delta.extras {
                    Some(extras) => extras.out_top.texts,
                    None => Seq::<Seq<char>>::empty(),
                },
        );
        lemma_flatten_last(
            deltas,
            |delta: OutputModel| match delta.extras {
                    Some(extras) => extras.out_tid.values,
                    None => Seq::<u64>::empty(),
                },
        );
        lemma_flatten_last(
            deltas,
            |delta: OutputModel| match delta.extras {
                    Some(extras) => extras.out_tid.token_ids,
                    None => Seq::<i32>::empty(),
                },
        );
        lemma_flatten_last(
            deltas,
            |delta: OutputModel| match delta.extras {
                    Some(extras) => extras.out_tid.lengths,
                    None => Seq::<u32>::empty(),
                },
        );
        lemma_flatten_last(
            deltas,
            |delta: OutputModel| match delta.extras {
                    Some(extras) => extras.out_tid.texts,
                    None => Seq::<Seq<char>>::empty(),
                },
        );
    }
}

/// Increments without columns have none to join.
proof fn lemma_no_columns(deltas: Seq<OutputModel>)
    requires
        forall|i: int| 0 <= i < deltas.len() ==> (#[trigger] deltas[i]).extras is None,
    ensures
        deltas.map_values(
                |delta: OutputModel| match delta.extras {
                    Some(extras) => extras.out_lp.values,
                    None => Seq::<u64>::empty(),
                },
            ).flatten() == Seq::<u64>::empty(),
        deltas.map_values(
                |delta: OutputModel| match delta.extras {
                    Some(extras) => extras.out_lp.token_ids,
                    None => Seq::<i32>::empty(),
                },
            ).flatten() == Seq::<i32>::empty(),
        deltas.map_values(
                |delta: OutputModel| match delta.extras {
                    Some(extras) => extras.out_lp.texts,
                    None => Seq::<Seq<char>>::empty(),
                },
            ).flatten() == Seq::<Seq<char>>::empty(),
        deltas.map_values(
                |delta: OutputModel| match delta.extras {
                    Some(extras) => extras.out_top.values,
                    None => Seq::<u64>::empty(),
                },
            ).flatten() == Seq::<u64>::empty(),
        deltas.map_values(
                |delta: OutputModel| match delta.extras {
                    Some(extras) => extras.out_top.token_ids,
                    None => Seq::<i32>::empty(),
                },
            ).flatten() == Seq::<i32>::empty(),
        deltas.map_values(
                |delta: OutputModel| match delta.extras {
                    Some(extras) => extras.out_top.lengths,
                    None => Seq::<u32>::empty(),
                },
            ).flatten() == Seq::<u32>::empty(),
        deltas.map_values(
                |delta: OutputModel| match delta.extras {
                    Some(extras) => extras.out_top.texts,
                    None => Seq::<Seq<char>>::empty(),
                },
            ).flatten() == Seq::<Seq<char>>::empty(),
        deltas.map_values(
                |delta: OutputModel| match delta.extras {
                    Some(extras) => extras.out_tid.values,
                    None => Seq::<u64>::empty(),
                },
            ).flatten() == Seq::<u64>::empty(),
        deltas.map_values(
                |delta: OutputModel| match delta.extras {
                    Some(extras) => extras.out_tid.token_ids,
                    None => Seq::<i32>::empty(),
                },
            ).flatten() == Seq::<i32>::empty(),
        deltas.map_values(
                |delta: OutputModel| match delta.extras {
                    Some(extras) => extras.out_tid.lengths,
                    None => Seq::<u32>::empty(),
                },
            ).flatten() == Seq::<u32>::empty(),
        deltas.map_values(
                |delta: OutputModel| match delta.extras {
                    Some(extras) => extras.out_tid.texts,
                    None => Seq::<Seq<char>>::empty(),
                },
            ).flatten() == Seq::<Seq<char>>::empty(),
    decreases deltas.len(),
{
    if deltas.len() > 0 {
        let front = deltas.drop_last();
        assert forall|i: int| 0 <= i < front.len() implies (#[trigger] front[i]).extras is None by {
            assert(front[i] == deltas[i]);
        }
        lemma_no_columns(front);
        assert(deltas.last() == deltas[deltas.len() - 1]);
        lemma_flatten_last(
            deltas,
            |delta: OutputModel| match delta.extras {
                    Some(extras) => extras.out_lp.values,
                    None => Seq::<u64>::empty(),
                },
        );
        lemma_flatten_last(
            deltas,
            |delta: OutputModel| match delta.extras {
                    Some(extras) => extras.out_lp.token_ids,
                    None => Seq::<i32>::empty(),
                },
        );
        lemma_flatten_last(
            deltas,
            |delta: OutputModel| match delta.extras {
                    Some(extras) => extras.out_lp.texts,
                    None => Seq::<Seq<char>>::empty(),
                },
        );
        lemma_flatten_last(
            deltas,
            |delta: OutputModel| match delta.extras {
                    Some(extras) => extras.out_top.values,
                    None => Seq::<u64>::empty(),
                },
        );
        lemma_flatten_last(
            deltas,
            |delta: OutputModel| match delta.extras {
                    Some(extras) => extras.out_top.token_ids,
                    None => Seq::<i32>::empty(),
                },
        );
        lemma_flatten_last(
            deltas,
            |delta: OutputModel| match delta.extras {
                    Some(extras) => extras.out_top.lengths,
                    None => Seq::<u32>::empty(),
                },
        );
        lemma_flatten_last(
            deltas,
            |delta: OutputModel| match delta.extras {
                    Some(extras) => extras.out_top.texts,
                    None => Seq::<Seq<char>>::empty(),
                },
        );
        lemma_flatten_last(
            deltas,
            |delta: OutputModel| match delta.extras {
                    Some(extras) => extras.out_tid.values,
                    None => Seq::<u64>::empty(),
                },
        );
        lemma_flatten_last(
            deltas,
            |delta: OutputModel| match delta.extras {
                    Some(extras) => extras.out_tid.token_ids,
                    None => Seq::<i32>::empty(),
                },
        );
        lemma_flatten_last(
            deltas,
            |delta: OutputModel| match delta.extras {
                    Some(extras) => extras.out_tid.lengths,
                    None => Seq::<u32>::empty(),
                },
        );
        lemma_flatten_last(
            deltas,
            |delta: OutputModel| match delta.extras {
                    Some(extras) => extras.out_tid.texts,
                    None => Seq::<Seq<char>>::empty(),
                },
        );
    }
}

/// An output means its own fields.
pub proof fn law_output_means_its_fields(output: FrontendOutput)
    ensures
        output@.text == output.text@,
        output@.token_ids == output.token_ids@,
        output@.prompt_tokens == output.prompt_tokens,
        output@.completion_tokens == output.completion_tokens,
        output@.finish_reason is Some <==> output.finish_reason is Some,
        output.finish_reason matches Some(reason) ==> {
            &&& output@.finish_reason->0.value == reason.value@
            &&& reason.abort is Some <==> output@.finish_reason->0.abort is Some
            &&& reason.abort matches Some(abort) ==> output@.finish_reason->0.abort == Some(
                (abort.status, abort.message@),
            )
        },
        output@.extras is Some <==> output.extras is Some,
        output.extras matches Some(extras) ==> {
            let columns = output@.extras->0;
            &&& columns.out_lp.values == extras.out_lp_val@
            &&& columns.out_lp.token_ids == extras.out_lp_idx@
            &&& columns.out_top.values == extras.out_top_val@
            &&& columns.out_top.token_ids == extras.out_top_idx@
            &&& columns.out_top.lengths == extras.out_top_lens@
            &&& columns.out_tid.values == extras.out_tid_val@
            &&& columns.out_tid.token_ids == extras.out_tid_idx@
            &&& columns.out_tid.lengths == extras.out_tid_lens@
            &&& columns.in_lp.values == extras.in_lp_val@
            &&& columns.in_lp.token_ids == extras.in_lp_idx@
            &&& columns.in_top.values == extras.in_top_val@
            &&& columns.in_top.token_ids == extras.in_top_idx@
            &&& columns.in_top.lengths == extras.in_top_lens@
            &&& columns.in_tid.values == extras.in_tid_val@
            &&& columns.in_tid.token_ids == extras.in_tid_idx@
            &&& columns.in_tid.lengths == extras.in_tid_lens@
            &&& columns.hidden.values == extras.hidden_val@
            &&& columns.hidden.lengths == extras.hidden_lens@
            &&& columns.out_lp.texts == extras.out_lp_txt@.map_values(|text: String| text@)
            &&& columns.out_top.texts == extras.out_top_txt@.map_values(|text: String| text@)
            &&& columns.out_tid.texts == extras.out_tid_txt@.map_values(|text: String| text@)
            &&& columns.in_lp.texts == extras.in_lp_txt@.map_values(|text: String| text@)
            &&& columns.in_top.texts == extras.in_top_txt@.map_values(|text: String| text@)
            &&& columns.in_tid.texts == extras.in_tid_txt@.map_values(|text: String| text@)
        },
{
}

/// Nothing has been put out at first.
pub proof fn law_empty_output()
    ensures
        OutputModel::empty().text.len() == 0,
        OutputModel::empty().token_ids.len() == 0,
        OutputModel::empty().completion_tokens == 0,
        OutputModel::empty().prompt_tokens == 0,
        OutputModel::empty().finish_reason is None,
        OutputModel::empty().extras is None,
        folded(seq![]) == OutputModel::empty(),
{
}

} // verus!
