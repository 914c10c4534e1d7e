//! The transport-neutral generation request and its sampling parameters.

use vstd::prelude::*;

use crate::ids::{Rid, RidModel};
use crate::text::{copy_texts, opt_text, texts};

verus! {

/// One stop string, or several.
#[derive(Debug)]
pub enum OneOrMany {
    One(String),
    Many(Vec<String>),
}

/// What a [`OneOrMany`] means.
#[verifier::ext_equal]
pub enum OneOrManyModel {
    One(Seq<char>),
    Many(Seq<Seq<char>>),
}

impl View for OneOrMany {
    type V = OneOrManyModel;

    open spec fn view(&self) -> OneOrManyModel {
        match self {
            OneOrMany::One(text) => OneOrManyModel::One(text@),
            OneOrMany::Many(strings) => OneOrManyModel::Many(texts(strings@)),
        }
    }
}

impl Clone for OneOrMany {
    fn clone(&self) -> (copy: Self)
        ensures
            copy@ == self@,
    {
        match self {
            OneOrMany::One(text) => OneOrMany::One(text.clone()),
            OneOrMany::Many(strings) => OneOrMany::Many(copy_texts(strings)),
        }
    }
}

/// One sampling parameter: left to the runtime's default, filled in by the
/// frontend, or asked for by the client.
#[derive(Debug, PartialEq, Eq)]
pub enum Setting<T> {
    Unset,
    Implied(T),
    Explicit(T),
}

impl<T> Setting<T> {
    /// A preferred value replaces anything that the client did not ask for.
    pub open spec fn with_preferred(self, preferred: Option<T>) -> Setting<T> {
        match (self, preferred) {
            (Setting::Explicit(value), _) => Setting::Explicit(value),
            (_, Some(value)) => Setting::Implied(value),
            (_, None) => self,
        }
    }

    /// The value, if the parameter has one.
    pub open spec fn given(self) -> Option<T> {
        match self {
            Setting::Unset => None,
            Setting::Implied(value) => Some(value),
            Setting::Explicit(value) => Some(value),
        }
    }

    /// The value, if the parameter has one.
    pub fn value(&self) -> (value: Option<&T>)
        ensures
            match value {
                Some(value) => self.given() == Some(*value),
                None => self.given() is None,
            },
    {
        match self {
            Setting::Unset => None,
            Setting::Implied(value) => Some(value),
            Setting::Explicit(value) => Some(value),
        }
    }
}

/// What a textual setting means.
pub open spec fn text_setting(setting: Setting<String>) -> Setting<Seq<char>> {
    match setting {
        Setting::Unset => Setting::Unset,
        Setting::Implied(text) => Setting::Implied(text@),
        Setting::Explicit(text) => Setting::Explicit(text@),
    }
}

/// What a setting of stop strings means.
pub open spec fn stop_setting(setting: Setting<OneOrMany>) -> Setting<OneOrManyModel> {
    match setting {
        Setting::Unset => Setting::Unset,
        Setting::Implied(stop) => Setting::Implied(stop@),
        Setting::Explicit(stop) => Setting::Explicit(stop@),
    }
}

/// What a setting of tokens means.
pub open spec fn token_setting(setting: Setting<Vec<i64>>) -> Setting<Seq<i64>> {
    match setting {
        Setting::Unset => Setting::Unset,
        Setting::Implied(tokens) => Setting::Implied(tokens@),
        Setting::Explicit(tokens) => Setting::Explicit(tokens@),
    }
}

/// How the next tokens are chosen. A `u64` here is the bit pattern of a 64-bit
/// float.
#[derive(Debug)]
pub struct SamplingParams {
    pub temperature: Setting<u64>,
    pub top_p: Setting<u64>,
    pub top_k: Setting<i64>,
    pub min_p: Setting<u64>,
    pub frequency_penalty: Setting<u64>,
    pub presence_penalty: Setting<u64>,
    pub repetition_penalty: Setting<u64>,
    pub max_new_tokens: Setting<i64>,
    pub min_new_tokens: Setting<i64>,
    pub stop: Setting<OneOrMany>,
    pub stop_token_ids: Setting<Vec<i64>>,
    pub ignore_eos: Setting<bool>,
    pub n: Setting<i64>,
    pub sampling_seed: Setting<i64>,
    pub json_schema: Setting<String>,
    pub regex: Setting<String>,
    pub ebnf: Setting<String>,
    pub structural_tag: Setting<String>,
}

/// What [`SamplingParams`] mean.
#[verifier::ext_equal]
pub struct SamplingModel {
    pub temperature: Setting<u64>,
    pub top_p: Setting<u64>,
    pub top_k: Setting<i64>,
    pub min_p: Setting<u64>,
    pub frequency_penalty: Setting<u64>,
    pub presence_penalty: Setting<u64>,
    pub repetition_penalty: Setting<u64>,
    pub max_new_tokens: Setting<i64>,
    pub min_new_tokens: Setting<i64>,
    pub stop: Setting<OneOrManyModel>,
    pub stop_token_ids: Setting<Seq<i64>>,
    pub ignore_eos: Setting<bool>,
    pub n: Setting<i64>,
    pub sampling_seed: Setting<i64>,
    pub json_schema: Setting<Seq<char>>,
    pub regex: Setting<Seq<char>>,
    pub ebnf: Setting<Seq<char>>,
    pub structural_tag: Setting<Seq<char>>,
}

impl View for SamplingParams {
    type V = SamplingModel;

    open spec fn view(&self) -> SamplingModel {
        SamplingModel {
            temperature: self.temperature,
            top_p: self.top_p,
            top_k: self.top_k,
            min_p: self.min_p,
            frequency_penalty: self.frequency_penalty,
            presence_penalty: self.presence_penalty,
            repetition_penalty: self.repetition_penalty,
            max_new_tokens: self.max_new_tokens,
            min_new_tokens: self.min_new_tokens,
            stop: stop_setting(self.stop),
            stop_token_ids: token_setting(self.stop_token_ids),
            ignore_eos: self.ignore_eos,
            n: self.n,
            sampling_seed: self.sampling_seed,
            json_schema: text_setting(self.json_schema),
            regex: text_setting(self.regex),
            ebnf: text_setting(self.ebnf),
            structural_tag: text_setting(self.structural_tag),
        }
    }
}

/// Sampling values that the launch configuration prefers.
#[derive(Debug, Default)]
pub struct PreferredValues {
    pub temperature: Option<u64>,
    pub top_p: Option<u64>,
    pub top_k: Option<i64>,
    pub min_p: Option<u64>,
    pub frequency_penalty: Option<u64>,
    pub presence_penalty: Option<u64>,
    pub repetition_penalty: Option<u64>,
    pub max_new_tokens: Option<i64>,
    pub min_new_tokens: Option<i64>,
    pub stop: Option<OneOrMany>,
    pub stop_token_ids: Option<Vec<i64>>,
    pub ignore_eos: Option<bool>,
    pub n: Option<i64>,
    pub sampling_seed: Option<i64>,
    pub json_schema: Option<String>,
    pub regex: Option<String>,
    pub ebnf: Option<String>,
    pub structural_tag: Option<String>,
}

/// Launch-time preferences, or the reason why they cannot be used.
#[derive(Debug)]
pub enum PreferredSamplingParams {
    Values(PreferredValues),
    Invalid(String),
}

/// What optional stop strings mean.
pub open spec fn opt_stop(stop: Option<OneOrMany>) -> Option<OneOrManyModel> {
    match stop {
        Some(stop) => Some(stop@),
        None => None,
    }
}

/// What optional tokens mean.
pub open spec fn opt_tokens(tokens: Option<Vec<i64>>) -> Option<Seq<i64>> {
    match tokens {
        Some(tokens) => Some(tokens@),
        None => None,
    }
}

impl SamplingModel {
    /// Everything left to the runtime's defaults.
    pub open spec fn unset() -> Self {
        SamplingModel {
            temperature: Setting::Unset,
            top_p: Setting::Unset,
            top_k: Setting::Unset,
            min_p: Setting::Unset,
            frequency_penalty: Setting::Unset,
            presence_penalty: Setting::Unset,
            repetition_penalty: Setting::Unset,
            max_new_tokens: Setting::Unset,
            min_new_tokens: Setting::Unset,
            stop: Setting::Unset,
            stop_token_ids: Setting::Unset,
            ignore_eos: Setting::Unset,
            n: Setting::Unset,
            sampling_seed: Setting::Unset,
            json_schema: Setting::Unset,
            regex: Setting::Unset,
            ebnf: Setting::Unset,
            structural_tag: Setting::Unset,
        }
    }

    /// The parameters with the preferred values filled in.
    pub open spec fn with_preferred(self, preferred: PreferredValues) -> Self {
        SamplingModel {
            temperature: self.temperature.with_preferred(preferred.temperature),
            top_p: self.top_p.with_preferred(preferred.top_p),
            top_k: self.top_k.with_preferred(preferred.top_k),
            min_p: self.min_p.with_preferred(preferred.min_p),
            frequency_penalty: self.frequency_penalty.with_preferred(preferred.frequency_penalty),
            presence_penalty: self.presence_penalty.with_preferred(preferred.presence_penalty),
            repetition_penalty: self.repetition_penalty.with_preferred(
                preferred.repetition_penalty,
            ),
            max_new_tokens: self.max_new_tokens.with_preferred(preferred.max_new_tokens),
            min_new_tokens: self.min_new_tokens.with_preferred(preferred.min_new_tokens),
            stop: self.stop.with_preferred(opt_stop(preferred.stop)),
            stop_token_ids: self.stop_token_ids.with_preferred(
                opt_tokens(preferred.stop_token_ids),
            ),
            ignore_eos: self.ignore_eos.with_preferred(preferred.ignore_eos),
            n: self.n.with_preferred(preferred.n),
            sampling_seed: self.sampling_seed.with_preferred(preferred.sampling_seed),
            json_schema: self.json_schema.with_preferred(opt_text(preferred.json_schema)),
            regex: self.regex.with_preferred(opt_text(preferred.regex)),
            ebnf: self.ebnf.with_preferred(opt_text(preferred.ebnf)),
            structural_tag: self.structural_tag.with_preferred(opt_text(preferred.structural_tag)),
        }
    }
}

/// Fills in a plain value.
fn prefer<T: Copy>(setting: &mut Setting<T>, preferred: Option<T>)
    ensures
        *final(setting) == old(setting).with_preferred(preferred),
{
    let explicit = match setting {
        Setting::Explicit(_) => true,
        _ => false,
    };
    if !explicit {
        if let Some(value) = preferred {
            *setting = Setting::Implied(value);
        }
    }
}

/// Fills in a text.
fn prefer_text(setting: &mut Setting<String>, preferred: &Option<String>)
    ensures
        text_setting(*final(setting)) == text_setting(*old(setting)).with_preferred(
            opt_text(*preferred),
        ),
{
    let explicit = match setting {
        Setting::Explicit(_) => true,
        _ => false,
    };
    if !explicit {
        if let Some(value) = preferred {
            *setting = Setting::Implied(value.clone());
        }
    }
}

impl Default for SamplingParams {
    /// Everything left to the runtime's defaults.
    fn default() -> (params: Self)
        ensures
            params@ == SamplingModel::unset(),
    {
        SamplingParams {
            temperature: Setting::Unset,
            top_p: Setting::Unset,
            top_k: Setting::Unset,
            min_p: Setting::Unset,
            frequency_penalty: Setting::Unset,
            presence_penalty: Setting::Unset,
            repetition_penalty: Setting::Unset,
            max_new_tokens: Setting::Unset,
            min_new_tokens: Setting::Unset,
            stop: Setting::Unset,
            stop_token_ids: Setting::Unset,
            ignore_eos: Setting::Unset,
            n: Setting::Unset,
            sampling_seed: Setting::Unset,
            json_schema: Setting::Unset,
            regex: Setting::Unset,
            ebnf: Setting::Unset,
            structural_tag: Setting::Unset,
        }
    }
}

impl SamplingParams {
    /// Fills in launch-time preferences wherever the client asked for nothing.
    /// Preferences that cannot be used are refused with their reason.
    pub fn apply_preferred(&mut self, preferred: &PreferredSamplingParams) -> (applied: Result<
        (),
        String,
    >)
        ensures
            match *preferred {
                PreferredSamplingParams::Values(values) => applied is Ok && final(self)@
                    == old(self)@.with_preferred(values),
                PreferredSamplingParams::Invalid(reason) => applied == Err::<(), String>(reason)
                    && final(self)@ == old(self)@,
            },
    {
        let values = match preferred {
            PreferredSamplingParams::Values(values) => values,
            PreferredSamplingParams::Invalid(reason) => {
                return Err(reason.clone());
            },
        };
        prefer(&mut self.temperature, values.temperature);
        prefer(&mut self.top_p, values.top_p);
        prefer(&mut self.top_k, values.top_k);
        prefer(&mut self.min_p, values.min_p);
        prefer(&mut self.frequency_penalty, values.frequency_penalty);
        prefer(&mut self.presence_penalty, values.presence_penalty);
        prefer(&mut self.repetition_penalty, values.repetition_penalty);
        prefer(&mut self.max_new_tokens, values.max_new_tokens);
        prefer(&mut self.min_new_tokens, values.min_new_tokens);
        if let Some(stop) = &values.stop {
            match self.stop {
                Setting::Explicit(_) => {},
                _ => {
                    self.stop = Setting::Implied(stop.clone());
                },
            }
        }
        if let Some(tokens) = &values.stop_token_ids {
            match self.stop_token_ids {
                Setting::Explicit(_) => {},
                _ => {
                    let copy = tokens.clone();
                    assert(copy@ =~= tokens@);
                    self.stop_token_ids = Setting::Implied(copy);
                },
            }
        }
        prefer(&mut self.ignore_eos, values.ignore_eos);
        prefer(&mut self.n, values.n);
        prefer(&mut self.sampling_seed, values.sampling_seed);
        prefer_text(&mut self.json_schema, &values.json_schema);
        prefer_text(&mut self.regex, &values.regex);
        prefer_text(&mut self.ebnf, &values.ebnf);
        prefer_text(&mut self.structural_tag, &values.structural_tag);
        Ok(())
    }
}

/// Multimodal input, by the sources that it is to be loaded from.
#[derive(Debug, Default)]
pub struct MmData {
    pub image_data: Vec<String>,
}

/// Input of one generation operation, free of any transport.
#[derive(Debug)]
pub struct FrontendRequest {
    pub rid: Rid,
    pub text: Option<String>,
    pub input_ids: Option<Vec<i32>>,
    pub skip_special_tokens: bool,
    pub sampling_params: SamplingParams,
    pub stream: bool,
    pub return_logprob: bool,
    pub logprob_start_len: i64,
    pub top_logprobs_num: i64,
    pub token_ids_logprob: Option<Vec<i64>>,
    pub return_sampling_mask: bool,
    pub return_hidden_states: bool,
    pub return_text_in_logprobs: Option<bool>,
    pub bootstrap_host: Option<String>,
    pub bootstrap_port: Option<i64>,
    pub bootstrap_room: Option<i64>,
    pub bootstrap_pair_key: Option<String>,
    pub decode_tp_size: Option<i64>,
    pub routed_dp_rank: Option<i64>,
    pub disagg_prefill_dp_rank: Option<i64>,
    pub mm: Option<Box<MmData>>,
}

/// What a [`FrontendRequest`] means.
#[verifier::ext_equal]
pub struct RequestModel {
    pub rid: RidModel,
    pub text: Option<Seq<char>>,
    pub input_ids: Option<Seq<i32>>,
    pub skip_special_tokens: bool,
    pub sampling_params: SamplingModel,
    pub stream: bool,
    pub return_logprob: bool,
    pub logprob_start_len: int,
    pub top_logprobs_num: int,
    pub token_ids_logprob: Option<Seq<i64>>,
    pub return_sampling_mask: bool,
    pub return_hidden_states: bool,
    pub return_text_in_logprobs: Option<bool>,
    pub bootstrap_host: Option<Seq<char>>,
    pub bootstrap_port: Option<int>,
    pub bootstrap_room: Option<int>,
    pub bootstrap_pair_key: Option<Seq<char>>,
    pub decode_tp_size: Option<int>,
    pub routed_dp_rank: Option<int>,
    pub disagg_prefill_dp_rank: Option<int>,
    pub images: Option<Seq<Seq<char>>>,
}

/// An optional number as an integer.
pub open spec fn opt_int(number: Option<i64>) -> Option<int> {
    match number {
        Some(number) => Some(number as int),
        None => None,
    }
}

/// What optional prompt tokens mean.
pub open spec fn opt_ids(tokens: Option<Vec<i32>>) -> Option<Seq<i32>> {
    match tokens {
        Some(tokens) => Some(tokens@),
        None => None,
    }
}

impl View for FrontendRequest {
    type V = RequestModel;

    open spec fn view(&self) -> RequestModel {
        RequestModel {
            rid: self.rid@,
            text: opt_text(self.text),
            input_ids: opt_ids(self.input_ids),
            skip_special_tokens: self.skip_special_tokens,
            sampling_params: self.sampling_params@,
            stream: self.stream,
            return_logprob: self.return_logprob,
            logprob_start_len: self.logprob_start_len as int,
            top_logprobs_num: self.top_logprobs_num as int,
            token_ids_logprob: opt_tokens(self.token_ids_logprob),
            return_sampling_mask: self.return_sampling_mask,
            return_hidden_states: self.return_hidden_states,
            return_text_in_logprobs: self.return_text_in_logprobs,
            bootstrap_host: opt_text(self.bootstrap_host),
            bootstrap_port: opt_int(self.bootstrap_port),
            bootstrap_room: opt_int(self.bootstrap_room),
            bootstrap_pair_key: opt_text(self.bootstrap_pair_key),
            decode_tp_size: opt_int(self.decode_tp_size),
            routed_dp_rank: opt_int(self.routed_dp_rank),
            disagg_prefill_dp_rank: opt_int(self.disagg_prefill_dp_rank),
            images: match self.mm {
                Some(mm) => Some(texts(mm.image_data@)),
                None => None,
            },
        }
    }
}

impl RequestModel {
    /// A request that asks for nothing beyond the defaults.
    pub open spec fn plain(rid: RidModel) -> Self {
        RequestModel {
            rid,
            text: None,
            input_ids: None,
            skip_special_tokens: false,
            sampling_params: SamplingModel::unset(),
            stream: false,
            return_logprob: false,
            logprob_start_len: 0,
            top_logprobs_num: 0,
            token_ids_logprob: None,
            return_sampling_mask: false,
            return_hidden_states: false,
            return_text_in_logprobs: None,
            bootstrap_host: None,
            bootstrap_port: None,
            bootstrap_room: None,
            bootstrap_pair_key: None,
            decode_tp_size: None,
            routed_dp_rank: None,
            disagg_prefill_dp_rank: None,
            images: None,
        }
    }
}

impl FrontendRequest {
    /// A request that asks for nothing beyond the defaults.
    pub fn plain(rid: Rid) -> (request: Self)
        ensures
            request@ == RequestModel::plain(rid@),
    {
        FrontendRequest {
            rid,
            text: None,
            input_ids: None,
            skip_special_tokens: false,
            sampling_params: SamplingParams::default(),
            stream: false,
            return_logprob: false,
            logprob_start_len: 0,
            top_logprobs_num: 0,
            token_ids_logprob: None,
            return_sampling_mask: false,
            return_hidden_states: false,
            return_text_in_logprobs: None,
            bootstrap_host: None,
            bootstrap_port: None,
            bootstrap_room: None,
            bootstrap_pair_key: None,
            decode_tp_size: None,
            routed_dp_rank: None,
            disagg_prefill_dp_rank: None,
            mm: None,
        }
    }
}

/// A client's choice comes before a preference of the launch configuration,
/// and that before the runtime's default.
pub proof fn law_sampling_precedence<T>(setting: Setting<T>, preferred: Option<T>)
    ensures
        setting is Explicit ==> setting.with_preferred(preferred).given() == setting.given(),
        !(setting is Explicit) && preferred is Some ==> setting.with_preferred(preferred).given()
            == preferred,
        preferred is None ==> setting.with_preferred(preferred) == setting,
        setting.with_preferred(preferred) is Explicit <==> setting is Explicit,
{
}

/// Filling in the same preferences twice changes nothing more.
pub proof fn law_preferences_are_idempotent(params: SamplingModel, preferred: PreferredValues)
    ensures
        params.with_preferred(preferred).with_preferred(preferred) == params.with_preferred(
            preferred,
        ),
{
}

/// Each preference fills in its own parameter and no other: what the client asked
/// for stays, a preferred value takes the place of anything else, and without one
/// the parameter stays as it is.
pub proof fn law_preferences_fill_in_their_own_parameters(
    params: SamplingModel,
    preferred: PreferredValues,
)
    ensures
        params.with_preferred(preferred).temperature == match (
            params.temperature,
            preferred.temperature,
        ) {
            (Setting::Explicit(value), _) => Setting::Explicit(value),
            (_, Some(value)) => Setting::Implied(value),
            (unchanged, None) => unchanged,
        },
        params.with_preferred(preferred).top_p == match (
            params.top_p,
            preferred.top_p,
        ) {
            (Setting::Explicit(value), _) => Setting::Explicit(value),
            (_, Some(value)) => Setting::Implied(value),
            (unchanged, None) => unchanged,
        },
        params.with_preferred(preferred).top_k == match (
            params.top_k,
            preferred.top_k,
        ) {
            (Setting::Explicit(value), _) => Setting::Explicit(value),
            (_, Some(value)) => Setting::Implied(value),
            (unchanged, None) => unchanged,
        },
        params.with_preferred(preferred).min_p == match (
            params.min_p,
            preferred.min_p,
        ) {
            (Setting::Explicit(value), _) => Setting::Explicit(value),
            (_, Some(value)) => Setting::Implied(value),
            (unchanged, None) => unchanged,
        },
        params.with_preferred(preferred).frequency_penalty == match (
            params.frequency_penalty,
            preferred.frequency_penalty,
        ) {
            (Setting::Explicit(value), _) => Setting::Explicit(value),
            (_, Some(value)) => Setting::Implied(value),
            (unchanged, None) => unchanged,
        },
        params.with_preferred(preferred).presence_penalty == match (
            params.presence_penalty,
            preferred.presence_penalty,
        ) {
            (Setting::Explicit(value), _) => Setting::Explicit(value),
            (_, Some(value)) => Setting::Implied(value),
            (unchanged, None) => unchanged,
        },
        params.with_preferred(preferred).repetition_penalty == match (
            params.repetition_penalty,
            preferred.repetition_penalty,
        ) {
            (Setting::Explicit(value), _) => Setting::Explicit(value),
            (_, Some(value)) => Setting::Implied(value),
            (unchanged, None) => unchanged,
        },
        params.with_preferred(preferred).max_new_tokens == match (
            params.max_new_tokens,
            preferred.max_new_tokens,
        ) {
            (Setting::Explicit(value), _) => Setting::Explicit(value),
            (_, Some(value)) => Setting::Implied(value),
            (unchanged, None) => unchanged,
        },
        params.with_preferred(preferred).min_new_tokens == match (
            params.min_new_tokens,
            preferred.min_new_tokens,
        ) {
            (Setting::Explicit(value), _) => Setting::Explicit(value),
            (_, Some(value)) => Setting::Implied(value),
            (unchanged, None) => unchanged,
        },
        params.with_preferred(preferred).ignore_eos == match (
            params.ignore_eos,
            preferred.ignore_eos,
        ) {
            (Setting::Explicit(value), _) => Setting::Explicit(value),
            (_, Some(value)) => Setting::Implied(value),
            (unchanged, None) => unchanged,
        },
        params.with_preferred(preferred).n == match (
            params.n,
            preferred.n,
        ) {
            (Setting::Explicit(value), _) => Setting::Explicit(value),
            (_, Some(value)) => Setting::Implied(value),
            (unchanged, None) => unchanged,
        },
        params.with_preferred(preferred).sampling_seed == match (
            params.sampling_seed,
            preferred.sampling_seed,
        ) {
            (Setting::Explicit(value), _) => Setting::Explicit(value),
            (_, Some(value)) => Setting::Implied(value),
            (unchanged, None) => unchanged,
        },
        params.with_preferred(preferred).stop == match (
            params.stop,
            match preferred.stop {
                Some(stop) => Some(stop@),
                None => None,
            },
        ) {
            (Setting::Explicit(value), _) => Setting::Explicit(value),
            (_, Some(value)) => Setting::Implied(value),
            (unchanged, None) => unchanged,
        },
        params.with_preferred(preferred).stop_token_ids == match (
            params.stop_token_ids,
            match preferred.stop_token_ids {
                Some(tokens) => Some(tokens@),
                None => None,
            },
        ) {
            (Setting::Explicit(value), _) => Setting::Explicit(value),
            (_, Some(value)) => Setting::Implied(value),
            (unchanged, None) => unchanged,
        },
        params.with_preferred(preferred).json_schema == match (
            params.json_schema,
            match preferred.json_schema {
                Some(text) => Some(text@),
                None => None,
            },
        ) {
            (Setting::Explicit(value), _) => Setting::Explicit(value),
            (_, Some(value)) => Setting::Implied(value),
            (unchanged, None) => unchanged,
        },
        params.with_preferred(preferred).regex == match (
            params.regex,
            match preferred.regex {
                Some(text) => Some(text@),
                None => None,
            },
        ) {
            (Setting::Explicit(value), _) => Setting::Explicit(value),
            (_, Some(value)) => Setting::Implied(value),
            (unchanged, None) => unchanged,
        },
        params.with_preferred(preferred).ebnf == match (
            params.ebnf,
            match preferred.ebnf {
                Some(text) => Some(text@),
                None => None,
            },
        ) {
            (Setting::Explicit(value), _) => Setting::Explicit(value),
            (_, Some(value)) => Setting::Implied(value),
            (unchanged, None) => unchanged,
        },
        params.with_preferred(preferred).structural_tag == match (
            params.structural_tag,
            match preferred.structural_tag {
                Some(text) => Some(text@),
                None => None,
            },
        ) {
            (Setting::Explicit(value), _) => Setting::Explicit(value),
            (_, Some(value)) => Setting::Implied(value),
            (unchanged, None) => unchanged,
        },
{
}

/// Parameters that nobody has set are left to the runtime, every one of them.
pub proof fn law_unset_parameters_are_left_to_the_runtime()
    ensures
        SamplingModel::unset().temperature is Unset,
        SamplingModel::unset().top_p is Unset,
        SamplingModel::unset().top_k is Unset,
        SamplingModel::unset().min_p is Unset,
        SamplingModel::unset().frequency_penalty is Unset,
        SamplingModel::unset().presence_penalty is Unset,
        SamplingModel::unset().repetition_penalty is Unset,
        SamplingModel::unset().max_new_tokens is Unset,
        SamplingModel::unset().min_new_tokens is Unset,
        SamplingModel::unset().ignore_eos is Unset,
        SamplingModel::unset().n is Unset,
        SamplingModel::unset().sampling_seed is Unset,
        SamplingModel::unset().stop is Unset,
        SamplingModel::unset().stop_token_ids is Unset,
        SamplingModel::unset().json_schema is Unset,
        SamplingModel::unset().regex is Unset,
        SamplingModel::unset().ebnf is Unset,
        SamplingModel::unset().structural_tag is Unset,
{
}

/// Sampling parameters mean their own fields.
pub proof fn law_sampling_parameters_mean_their_fields(params: SamplingParams)
    ensures
        params@.temperature == params.temperature,
        params@.top_p == params.top_p,
        params@.top_k == params.top_k,
        params@.min_p == params.min_p,
        params@.frequency_penalty == params.frequency_penalty,
        params@.presence_penalty == params.presence_penalty,
        params@.repetition_penalty == params.repetition_penalty,
        params@.max_new_tokens == params.max_new_tokens,
        params@.min_new_tokens == params.min_new_tokens,
        params@.ignore_eos == params.ignore_eos,
        params@.n == params.n,
        params@.sampling_seed == params.sampling_seed,
        match params.json_schema {
            Setting::Unset => params@.json_schema is Unset,
            Setting::Implied(value) => params@.json_schema == Setting::Implied(value@),
            Setting::Explicit(value) => params@.json_schema == Setting::Explicit(value@),
        },
        match params.regex {
            Setting::Unset => params@.regex is Unset,
            Setting::Implied(value) => params@.regex == Setting::Implied(value@),
            Setting::Explicit(value) => params@.regex == Setting::Explicit(value@),
        },
        match params.ebnf {
            Setting::Unset => params@.ebnf is Unset,
            Setting::Implied(value) => params@.ebnf == Setting::Implied(value@),
            Setting::Explicit(value) => params@.ebnf == Setting::Explicit(value@),
        },
        match params.structural_tag {
            Setting::Unset => params@.structural_tag is Unset,
            Setting::Implied(value) => params@.structural_tag == Setting::Implied(value@),
            Setting::Explicit(value) => params@.structural_tag == Setting::Explicit(value@),
        },
        match params.stop {
            Setting::Unset => params@.stop is Unset,
            Setting::Implied(value) => params@.stop == Setting::Implied(value@),
            Setting::Explicit(value) => params@.stop == Setting::Explicit(value@),
        },
        match params.stop_token_ids {
            Setting::Unset => params@.stop_token_ids is Unset,
            Setting::Implied(value) => params@.stop_token_ids == Setting::Implied(value@),
            Setting::Explicit(value) => params@.stop_token_ids == Setting::Explicit(value@),
        },
{
}

/// A request means its own fields.
pub proof fn law_request_means_its_fields(request: FrontendRequest)
    ensures
        request@.rid == request.rid@,
        request@.skip_special_tokens == request.skip_special_tokens,
        request@.sampling_params == request.sampling_params@,
        request@.stream == request.stream,
        request@.return_logprob == request.return_logprob,
        request@.logprob_start_len == request.logprob_start_len,
        request@.top_logprobs_num == request.top_logprobs_num,
        request@.return_sampling_mask == request.return_sampling_mask,
        request@.return_hidden_states == request.return_hidden_states,
        request@.return_text_in_logprobs == request.return_text_in_logprobs,
        match request.text {
            Some(text) => request@.text == Some(text@),
            None => request@.text is None,
        },
        match request.input_ids {
            Some(tokens) => request@.input_ids == Some(tokens@),
            None => request@.input_ids is None,
        },
        match request.token_ids_logprob {
            Some(tokens) => request@.token_ids_logprob == Some(tokens@),
            None => request@.token_ids_logprob is None,
        },
        match request.bootstrap_host {
            Some(text) => request@.bootstrap_host == Some(text@),
            None => request@.bootstrap_host is None,
        },
        match request.bootstrap_pair_key {
            Some(text) => request@.bootstrap_pair_key == Some(text@),
            None => request@.bootstrap_pair_key is None,
        },
        match request.bootstrap_port {
            Some(number) => request@.bootstrap_port == Some(number as int),
            None => request@.bootstrap_port is None,
        },
        match request.bootstrap_room {
            Some(number) => request@.bootstrap_room == Some(number as int),
            None => request@.bootstrap_room is None,
        },
        match request.decode_tp_size {
            Some(number) => request@.decode_tp_size == Some(number as int),
            None => request@.decode_tp_size is None,
        },
        match request.routed_dp_rank {
            Some(number) => request@.routed_dp_rank == Some(number as int),
            None => request@.routed_dp_rank is None,
        },
        match request.disagg_prefill_dp_rank {
            Some(number) => request@.disagg_prefill_dp_rank == Some(number as int),
            None => request@.disagg_prefill_dp_rank is None,
        },
        match request.mm {
            Some(media) => request@.images == Some(
                media.image_data@.map_values(|source: String| source@),
            ),
            None => request@.images is None,
        },
{
}

/// A plain request names itself and asks for nothing.
pub proof fn law_plain_requests_ask_for_nothing(rid: RidModel)
    ensures
        RequestModel::plain(rid).rid == rid,
        RequestModel::plain(rid).text is None,
        RequestModel::plain(rid).input_ids is None,
        !RequestModel::plain(rid).stream,
        !RequestModel::plain(rid).skip_special_tokens,
        !RequestModel::plain(rid).return_logprob,
        !RequestModel::plain(rid).return_sampling_mask,
        !RequestModel::plain(rid).return_hidden_states,
        RequestModel::plain(rid).return_text_in_logprobs is None,
        RequestModel::plain(rid).logprob_start_len == 0,
        RequestModel::plain(rid).top_logprobs_num == 0,
        RequestModel::plain(rid).token_ids_logprob is None,
        RequestModel::plain(rid).bootstrap_host is None,
        RequestModel::plain(rid).bootstrap_port is None,
        RequestModel::plain(rid).bootstrap_room is None,
        RequestModel::plain(rid).bootstrap_pair_key is None,
        RequestModel::plain(rid).decode_tp_size is None,
        RequestModel::plain(rid).routed_dp_rank is None,
        RequestModel::plain(rid).disagg_prefill_dp_rank is None,
        RequestModel::plain(rid).images is None,
        RequestModel::plain(rid).sampling_params == SamplingModel::unset(),
{
}

/// Stop strings mean themselves, in order.
pub proof fn law_stop_strings_mean_themselves(stop: OneOrMany)
    ensures
        stop matches OneOrMany::One(text) ==> stop@ == OneOrManyModel::One(text@),
        stop matches OneOrMany::Many(strings) ==> (stop@ matches OneOrManyModel::Many(models)
            && models.len() == strings@.len() && forall|i: int|
            0 <= i < models.len() ==> (#[trigger] models[i]) == strings@[i]@),
{
}

} // verus!
