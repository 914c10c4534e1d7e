//! Public metadata of the model and of the server.
//!
//! What clients see is built from typed, allowlisted fields. The launch
//! configuration and the scheduler's raw state never reach a surface.

use std::collections::BTreeMap;

use vstd::prelude::*;
use vstd::std_specs::btree::increasing_seq;
use vstd::std_specs::iter::IteratorSpec;

use crate::config::ServerArgs;
use crate::json::{
    entries_model, items_model, lemma_array_model, lemma_lookup_push, lemma_object_model, lookup,
    push_entry, push_item, Json, JsonModel,
};
use crate::native_generation::{float_model, lp_value};
use crate::text::{
    copy_opt_text, decimal, decimal_text, lemma_decimal_is_injective, opt_text, parts_after,
    text_before,
};

verus! {

broadcast use {lemma_array_model, lemma_object_model};

/// The immutable metadata that the frontend keeps from its launch.
#[derive(Debug, Clone)]
pub struct FrontendMetadata {
    pub model_path: String,
    pub served_model_name: String,
    pub tokenizer_path: String,
    pub preferred_sampling_params: Option<Json>,
    pub weight_version: Option<String>,
    pub load_format: Option<String>,
    pub reasoning_parser: Option<String>,
    pub tool_call_parser: Option<String>,
    pub disaggregation_mode: String,
    pub max_context_length: u64,
    pub max_total_num_tokens: u64,
    pub version: String,
}

/// Static model metadata that every surface shows.
#[derive(Debug, Clone)]
pub struct ModelInfo {
    pub model_path: String,
    pub served_model_name: String,
    pub tokenizer_path: String,
    pub is_generation: bool,
    pub preferred_sampling_params: Option<Json>,
    pub weight_version: Option<String>,
    pub load_format: Option<String>,
    pub reasoning_parser: Option<String>,
    pub tool_call_parser: Option<String>,
    pub disaggregation_mode: String,
}

/// Public server metadata with the scheduler's current metrics.
#[derive(Debug, Clone)]
pub struct ServerInfo {
    pub model_path: String,
    pub served_model_name: String,
    pub tokenizer_path: String,
    pub max_context_length: u64,
    pub max_total_num_tokens: u64,
    pub version: String,
    pub internal_states: Vec<InternalState>,
}

/// The scheduler's metrics that are public. Anything else in the scheduler's
/// state, its launch arguments among them, has no field here and is dropped.
/// A `u64` that stands for a measurement is the bit pattern of a 64-bit float.
#[derive(Debug, Clone, Default, PartialEq)]
pub struct InternalState {
    pub last_gen_throughput: Option<u64>,
    pub memory_usage: Option<MemoryUsage>,
    pub effective_max_running_requests_per_dp: Option<u64>,
    pub avg_spec_accept_length: Option<u64>,
    /// By batch size.
    pub step_time_dict: Option<BTreeMap<u64, Vec<u64>>>,
}

/// The memory metrics that are public.
#[derive(Debug, Clone, Default, PartialEq)]
pub struct MemoryUsage {
    pub weight: Option<u64>,
    pub kvcache: Option<MemoryMeasurement>,
    pub startup_available: Option<u64>,
    pub token_capacity: Option<u64>,
    pub token_capacity_swa: Option<u64>,
    /// In ascending order of the name.
    pub graph: Option<Vec<(String, u64)>>,
}

/// A measurement that the scheduler reports as a number or as a text.
#[derive(Debug, Clone, PartialEq)]
pub enum MemoryMeasurement {
    Number(u64),
    Text(String),
}

/// Whether each name comes before those behind it.
pub open spec fn names_ascend(values: Seq<(String, u64)>) -> bool {
    forall|i: int, j: int|
        0 <= i < j < values.len() ==> text_before(#[trigger] values[i].0@, #[trigger] values[j].0@)
}

impl MemoryUsage {
    /// Whether the named measurements are in the order of their names, and no
    /// name comes twice.
    pub open spec fn well_formed(self) -> bool {
        self.graph matches Some(graph) ==> names_ascend(graph@)
    }
}

impl InternalState {
    /// Whether the memory metrics, where there are any, are in order.
    pub open spec fn well_formed(self) -> bool {
        self.memory_usage matches Some(usage) ==> usage.well_formed()
    }
}

/// What an optional document means.
pub open spec fn opt_json(document: Option<Json>) -> Option<JsonModel> {
    match document {
        Some(document) => Some(document@),
        None => None,
    }
}

/// Copies an optional document.
fn copy_opt_json(document: &Option<Json>) -> (copy: Option<Json>)
    ensures
        opt_json(copy) == opt_json(*document),
{
    match document {
        Some(document) => Some(document.clone()),
        None => None,
    }
}

impl FrontendMetadata {
    /// Whether this is what clients may see of the launch configuration.
    pub open spec fn kept_from(self, args: ServerArgs) -> bool {
        &&& self.model_path@ == args.model_path@
        &&& self.served_model_name@ == args.served_model_name@
        &&& self.tokenizer_path@ == args.tokenizer_path@
        &&& opt_json(self.preferred_sampling_params) == opt_json(args.preferred_sampling_params)
        &&& opt_text(self.weight_version) == opt_text(args.weight_version)
        &&& opt_text(self.load_format) == opt_text(args.load_format)
        &&& opt_text(self.reasoning_parser) == opt_text(args.reasoning_parser)
        &&& opt_text(self.tool_call_parser) == opt_text(args.tool_call_parser)
        &&& self.disaggregation_mode@ == args.disaggregation_mode@
        &&& self.max_context_length == args.context_len
        &&& self.max_total_num_tokens == args.max_total_num_tokens
        &&& self.version@ == args.version@
    }

    /// Whether this is the static model metadata that clients are shown.
    pub open spec fn describes_model(self, info: ModelInfo) -> bool {
        &&& info.model_path@ == self.model_path@
        &&& info.served_model_name@ == self.served_model_name@
        &&& info.tokenizer_path@ == self.tokenizer_path@
        &&& info.is_generation
        &&& opt_json(info.preferred_sampling_params) == opt_json(self.preferred_sampling_params)
        &&& opt_text(info.weight_version) == opt_text(self.weight_version)
        &&& opt_text(info.load_format) == opt_text(self.load_format)
        &&& opt_text(info.reasoning_parser) == opt_text(self.reasoning_parser)
        &&& opt_text(info.tool_call_parser) == opt_text(self.tool_call_parser)
        &&& info.disaggregation_mode@ == self.disaggregation_mode@
    }

    /// Whether this is the server metadata that clients are shown.
    pub open spec fn describes_server(self, info: ServerInfo, state: InternalState) -> bool {
        &&& info.model_path@ == self.model_path@
        &&& info.served_model_name@ == self.served_model_name@
        &&& info.tokenizer_path@ == self.tokenizer_path@
        &&& info.max_context_length == self.max_context_length
        &&& info.max_total_num_tokens == self.max_total_num_tokens
        &&& info.version@ == self.version@
        &&& info.internal_states@ == seq![state]
    }

    /// Keeps what clients may see of the launch configuration.
    pub fn from_args(args: &ServerArgs) -> (metadata: Self)
        ensures
            metadata.kept_from(*args),
    {
        FrontendMetadata {
            model_path: args.model_path.clone(),
            served_model_name: args.served_model_name.clone(),
            tokenizer_path: args.tokenizer_path.clone(),
            preferred_sampling_params: copy_opt_json(&args.preferred_sampling_params),
            weight_version: copy_opt_text(&args.weight_version),
            load_format: copy_opt_text(&args.load_format),
            reasoning_parser: copy_opt_text(&args.reasoning_parser),
            tool_call_parser: copy_opt_text(&args.tool_call_parser),
            disaggregation_mode: args.disaggregation_mode.clone(),
            max_context_length: args.context_len,
            max_total_num_tokens: args.max_total_num_tokens,
            version: args.version.clone(),
        }
    }

    /// The static model metadata. The only models here are those that generate.
    pub fn model_info(&self) -> (info: ModelInfo)
        ensures
            info.model_path@ == self.model_path@,
            info.served_model_name@ == self.served_model_name@,
            info.tokenizer_path@ == self.tokenizer_path@,
            info.is_generation,
            opt_json(info.preferred_sampling_params) == opt_json(self.preferred_sampling_params),
            opt_text(info.weight_version) == opt_text(self.weight_version),
            opt_text(info.load_format) == opt_text(self.load_format),
            opt_text(info.reasoning_parser) == opt_text(self.reasoning_parser),
            opt_text(info.tool_call_parser) == opt_text(self.tool_call_parser),
            info.disaggregation_mode@ == self.disaggregation_mode@,
            self.describes_model(info),
    {
        ModelInfo {
            model_path: self.model_path.clone(),
            served_model_name: self.served_model_name.clone(),
            tokenizer_path: self.tokenizer_path.clone(),
            is_generation: true,
            preferred_sampling_params: copy_opt_json(&self.preferred_sampling_params),
            weight_version: copy_opt_text(&self.weight_version),
            load_format: copy_opt_text(&self.load_format),
            reasoning_parser: copy_opt_text(&self.reasoning_parser),
            tool_call_parser: copy_opt_text(&self.tool_call_parser),
            disaggregation_mode: self.disaggregation_mode.clone(),
        }
    }

    /// The server metadata, with the scheduler's current metrics.
    pub fn server_info(&self, internal_state: InternalState) -> (info: ServerInfo)
        ensures
            info.model_path@ == self.model_path@,
            info.served_model_name@ == self.served_model_name@,
            info.tokenizer_path@ == self.tokenizer_path@,
            info.max_context_length == self.max_context_length,
            info.max_total_num_tokens == self.max_total_num_tokens,
            info.version@ == self.version@,
            info.internal_states@ == seq![internal_state],
            self.describes_server(info, internal_state),
    {
        let mut internal_states: Vec<InternalState> = Vec::new();
        internal_states.push(internal_state);
        assert(internal_states@ =~= seq![internal_state]);
        ServerInfo {
            model_path: self.model_path.clone(),
            served_model_name: self.served_model_name.clone(),
            tokenizer_path: self.tokenizer_path.clone(),
            max_context_length: self.max_context_length,
            max_total_num_tokens: self.max_total_num_tokens,
            version: self.version.clone(),
            internal_states,
        }
    }
}

/// An optional text, or `null`.
pub open spec fn text_or_null(text: Option<String>) -> JsonModel {
    match text {
        Some(text) => JsonModel::Text(text@),
        None => JsonModel::Null,
    }
}

/// An optional text, or `null`.
fn text_or_null_value(text: &Option<String>) -> (value: Json)
    ensures
        value@ == text_or_null(*text),
{
    match text {
        Some(text) => Json::Text(text.clone()),
        None => Json::Null,
    }
}

/// The public object of the model metadata.
pub open spec fn model_info_model(info: ModelInfo) -> JsonModel {
    JsonModel::Object(
        seq![
            ("model_path"@, JsonModel::Text(info.model_path@)),
            ("served_model_name"@, JsonModel::Text(info.served_model_name@)),
            ("tokenizer_path"@, JsonModel::Text(info.tokenizer_path@)),
            ("is_generation"@, JsonModel::Bool(info.is_generation)),
            (
                "preferred_sampling_params"@,
                match info.preferred_sampling_params {
                    Some(params) => params@,
                    None => JsonModel::Null,
                },
            ),
            ("weight_version"@, text_or_null(info.weight_version)),
            ("load_format"@, text_or_null(info.load_format)),
            ("reasoning_parser"@, text_or_null(info.reasoning_parser)),
            ("tool_call_parser"@, text_or_null(info.tool_call_parser)),
            ("disaggregation_mode"@, JsonModel::Text(info.disaggregation_mode@)),
        ],
    )
}

impl ModelInfo {
    /// Builds the public object.
    pub fn to_json(&self) -> (object: Json)
        ensures
            object@ == model_info_model(*self),
    {
        let mut entries: Vec<(String, Json)> = Vec::new();
        push_entry(&mut entries, "model_path", Json::Text(self.model_path.clone()));
        push_entry(&mut entries, "served_model_name", Json::Text(self.served_model_name.clone()));
        push_entry(&mut entries, "tokenizer_path", Json::Text(self.tokenizer_path.clone()));
        push_entry(&mut entries, "is_generation", Json::Bool(self.is_generation));
        let preferred = match &self.preferred_sampling_params {
            Some(params) => params.clone(),
            None => Json::Null,
        };
        push_entry(&mut entries, "preferred_sampling_params", preferred);
        push_entry(&mut entries, "weight_version", text_or_null_value(&self.weight_version));
        push_entry(&mut entries, "load_format", text_or_null_value(&self.load_format));
        push_entry(&mut entries, "reasoning_parser", text_or_null_value(&self.reasoning_parser));
        push_entry(&mut entries, "tool_call_parser", text_or_null_value(&self.tool_call_parser));
        push_entry(
            &mut entries,
            "disaggregation_mode",
            Json::Text(self.disaggregation_mode.clone()),
        );
        assert(entries_model(entries@) =~= model_info_model(*self)->Object_0);
        Json::Object(entries)
    }
}

/// The entries, with one more at the end if there is a value.
pub open spec fn with_optional(
    entries: Seq<(Seq<char>, JsonModel)>,
    key: Seq<char>,
    value: Option<JsonModel>,
) -> Seq<(Seq<char>, JsonModel)> {
    match value {
        Some(value) => entries.push((key, value)),
        None => entries,
    }
}

/// Puts one more entry at the end if there is a value.
fn push_optional(entries: &mut Vec<(String, Json)>, key: &str, value: Option<Json>)
    ensures
        entries_model(final(entries)@) == with_optional(
            entries_model(old(entries)@),
            key@,
            opt_json(value),
        ),
{
    if let Some(value) = value {
        push_entry(entries, key, value);
    }
}

/// An optional measurement.
pub open spec fn opt_float(bits: Option<u64>) -> Option<JsonModel> {
    match bits {
        Some(bits) => Some(float_model(bits)),
        None => None,
    }
}

/// An optional measurement.
fn float_value(bits: Option<u64>) -> (value: Option<Json>)
    ensures
        opt_json(value) == opt_float(bits),
{
    match bits {
        Some(bits) => Some(lp_value(bits)),
        None => None,
    }
}

/// An optional count.
pub open spec fn opt_count(count: Option<u64>) -> Option<JsonModel> {
    match count {
        Some(count) => Some(JsonModel::Unsigned(count)),
        None => None,
    }
}

/// An optional count.
fn count_value(count: Option<u64>) -> (value: Option<Json>)
    ensures
        opt_json(value) == opt_count(count),
{
    match count {
        Some(count) => Some(Json::Unsigned(count)),
        None => None,
    }
}

/// Measurements as an array of numbers.
pub open spec fn numbers_model(values: Seq<u64>) -> JsonModel {
    JsonModel::Array(values.map_values(|bits: u64| float_model(bits)))
}

/// Measurements as an array of numbers.
fn numbers(values: &Vec<u64>) -> (array: Json)
    ensures
        array@ == numbers_model(values@),
{
    let ghost model = numbers_model(values@)->Array_0;
    let mut items: Vec<Json> = Vec::new();
    for i in 0..values.len()
        invariant
            model == numbers_model(values@)->Array_0,
            items_model(items@) == model.take(i as int),
    {
        push_item(&mut items, lp_value(values[i]));
        assert(items_model(items@) =~= model.take(i + 1));
    }
    assert(items_model(items@) =~= model);
    Json::Array(items)
}

/// Whether this is the greatest of the keys.
pub open spec fn is_greatest(keys: Set<u64>, key: u64) -> bool {
    keys.contains(key) && forall|other: u64| keys.contains(other) ==> other <= key
}

/// The keys in ascending order.
pub open spec fn ascending(keys: Set<u64>) -> Seq<u64>
    decreases keys.len(),
    when keys.finite()
{
    let key = choose|key: u64| is_greatest(keys, key);
    if keys.contains(key) {
        ascending(keys.remove(key)).push(key)
    } else {
        seq![]
    }
}

/// Whether each key is below those behind it.
pub open spec fn strictly_ascends(keys: Seq<u64>) -> bool {
    forall|i: int, j: int| 0 <= i < j < keys.len() ==> keys[i] < keys[j]
}

/// A list that ascends and holds exactly these keys is the list of them in
/// ascending order.
proof fn lemma_ascending_is_unique(list: Seq<u64>, keys: Set<u64>)
    requires
        strictly_ascends(list),
        forall|key: u64| #[trigger] keys.contains(key) <==> list.contains(key),
        keys.finite(),
    ensures
        list == ascending(keys),
    decreases list.len(),
{
    let greatest = choose|key: u64| is_greatest(keys, key);
    if list.len() == 0 {
        assert(!keys.contains(greatest));
    } else {
        let last = list.last();
        assert(list.contains(last));
        assert forall|other: u64| keys.contains(other) implies other <= last by {
            let at = list.index_of(other);
            assert(list.contains(other));
            assert(list[at] == other);
        }
        assert(is_greatest(keys, last));
        assert(greatest == last);
        let rest = list.drop_last();
        assert forall|key: u64| #[trigger] keys.remove(last).contains(key) <==> rest.contains(
            key,
        ) by {
            if keys.contains(key) && key != last {
                let at = list.index_of(key);
                assert(list.contains(key));
                assert(rest[at] == key);
            }
            if rest.contains(key) {
                let at = rest.index_of(key);
                assert(list[at] == key);
                assert(list.contains(key));
            }
        }
        lemma_ascending_is_unique(rest, keys.remove(last));
        assert(list =~= rest.push(last));
    }
}

/// The step times of one batch size.
pub open spec fn step_time_model(size: u64, times: Vec<u64>) -> (Seq<char>, JsonModel) {
    (decimal(size as nat), numbers_model(times@))
}

/// Step times by batch size, the smallest size first.
pub open spec fn step_times_model(times: Map<u64, Vec<u64>>) -> JsonModel {
    let sizes = ascending(times.dom());
    JsonModel::Object(
        Seq::new(sizes.len(), |i: int| step_time_model(sizes[i], times[sizes[i]])),
    )
}

/// Walking the step times gives them by ascending batch size.
proof fn lemma_walk_ascends(walk: Seq<(&u64, &Vec<u64>)>, times: Map<u64, Vec<u64>>)
    requires
        times.dom().finite(),
        increasing_seq(walk.map_values(|entry: (&u64, &Vec<u64>)| *entry.0)),
        forall|i: int|
            0 <= i < walk.len() ==> times.contains_key(*(#[trigger] walk[i]).0)
                && times[*walk[i].0] == *walk[i].1,
        forall|size: u64| #[trigger]
            times.contains_key(size) ==> walk.contains((&size, &times[size])),
    ensures
        walk.len() == ascending(times.dom()).len(),
        forall|i: int|
            0 <= i < walk.len() ==> *(#[trigger] walk[i]).0 == ascending(times.dom())[i]
                && *walk[i].1 == times[ascending(times.dom())[i]],
{
    broadcast use {
        vstd::std_specs::btree::group_btree_axioms,
        vstd::laws_cmp::group_laws_cmp,
    };

    let sizes = walk.map_values(|entry: (&u64, &Vec<u64>)| *entry.0);
    assert(vstd::laws_cmp::obeys_cmp::<u64>());
    assert forall|i: int, j: int| 0 <= i < j < sizes.len() implies sizes[i] < sizes[j] by {
        assert(vstd::std_specs::cmp::OrdSpec::cmp_spec(&sizes[i], &sizes[j]) is Less);
    }
    assert forall|size: u64| #[trigger] times.dom().contains(size) <==> sizes.contains(size) by {
        if times.contains_key(size) {
            let at = walk.index_of((&size, &times[size]));
            assert(sizes[at] == size);
        }
        if sizes.contains(size) {
            let at = sizes.index_of(size);
            assert(times.contains_key(*walk[at].0));
        }
    }
    lemma_ascending_is_unique(sizes, times.dom());
    assert forall|i: int| 0 <= i < walk.len() implies *(#[trigger] walk[i]).0 == ascending(
        times.dom(),
    )[i] by {
        assert(sizes[i] == *walk[i].0);
    }
}

/// Step times by batch size.
fn step_times(times: &BTreeMap<u64, Vec<u64>>) -> (object: Json)
    ensures
        object@ == step_times_model(times@),
{
    let ghost model = step_times_model(times@)->Object_0;
    let mut entries: Vec<(String, Json)> = Vec::new();
    let walk = times.iter();
    proof {
        broadcast use {
            vstd::std_specs::btree::group_btree_axioms,
            vstd::laws_cmp::group_laws_cmp,
        };

        assert(vstd::laws_cmp::obeys_cmp::<u64>());
        assert(vstd::std_specs::btree::key_obeys_cmp_spec::<u64>());
        lemma_walk_ascends(walk.remaining(), times@);
    }
    for entry in it: walk
        invariant
            it.seq().len() == model.len(),
            forall|i: int|
                0 <= i < it.seq().len() ==> model[i] == step_time_model(
                    *(#[trigger] it.seq()[i]).0,
                    *it.seq()[i].1,
                ),
            entries_model(entries@) == model.take(it.index()),
    {
        let key = decimal_text(*entry.0);
        push_entry(&mut entries, key.as_str(), numbers(entry.1));
        assert(entries_model(entries@) =~= model.take(it.index() + 1));
    }
    assert(entries_model(entries@) =~= model);
    Json::Object(entries)
}

/// Measurements by name.
pub open spec fn named_numbers_model(values: Seq<(String, u64)>) -> JsonModel {
    JsonModel::Object(
        Seq::new(values.len(), |i: int| (values[i].0@, float_model(values[i].1))),
    )
}

/// Measurements by name.
fn named_numbers(values: &Vec<(String, u64)>) -> (object: Json)
    ensures
        object@ == named_numbers_model(values@),
{
    let ghost model = named_numbers_model(values@)->Object_0;
    let mut entries: Vec<(String, Json)> = Vec::new();
    for i in 0..values.len()
        invariant
            model == named_numbers_model(values@)->Object_0,
            entries_model(entries@) == model.take(i as int),
    {
        push_entry(&mut entries, values[i].0.as_str(), lp_value(values[i].1));
        assert(entries_model(entries@) =~= model.take(i + 1));
    }
    assert(entries_model(entries@) =~= model);
    Json::Object(entries)
}

/// The public memory metrics. The sliding-window capacity is always shown, the
/// others where they are known.
pub open spec fn memory_usage_model(usage: MemoryUsage) -> JsonModel {
    let entries: Seq<(Seq<char>, JsonModel)> = seq![];
    let entries = with_optional(entries, "weight"@, opt_float(usage.weight));
    let entries = with_optional(
        entries,
        "kvcache"@,
        match usage.kvcache {
            Some(MemoryMeasurement::Number(bits)) => Some(float_model(bits)),
            Some(MemoryMeasurement::Text(text)) => Some(JsonModel::Text(text@)),
            None => None,
        },
    );
    let entries = with_optional(
        entries,
        "startup_available"@,
        opt_float(usage.startup_available),
    );
    let entries = with_optional(entries, "token_capacity"@, opt_count(usage.token_capacity));
    let entries = entries.push(
        (
            "token_capacity_swa"@,
            match usage.token_capacity_swa {
                Some(count) => JsonModel::Unsigned(count),
                None => JsonModel::Null,
            },
        ),
    );
    JsonModel::Object(
        with_optional(
            entries,
            "graph"@,
            match usage.graph {
                Some(graph) => Some(named_numbers_model(graph@)),
                None => None,
            },
        ),
    )
}

impl MemoryUsage {
    /// Builds the public object.
    pub fn to_json(&self) -> (object: Json)
        ensures
            object@ == memory_usage_model(*self),
    {
        let mut entries: Vec<(String, Json)> = Vec::new();
        assert(entries_model(entries@) =~= seq![]);
        push_optional(&mut entries, "weight", float_value(self.weight));
        let kvcache = match &self.kvcache {
            Some(MemoryMeasurement::Number(bits)) => Some(lp_value(*bits)),
            Some(MemoryMeasurement::Text(text)) => Some(Json::Text(text.clone())),
            None => None,
        };
        push_optional(&mut entries, "kvcache", kvcache);
        push_optional(&mut entries, "startup_available", float_value(self.startup_available));
        push_optional(&mut entries, "token_capacity", count_value(self.token_capacity));
        let swa = match self.token_capacity_swa {
            Some(count) => Json::Unsigned(count),
            None => Json::Null,
        };
        push_entry(&mut entries, "token_capacity_swa", swa);
        let graph = match &self.graph {
            Some(graph) => Some(named_numbers(graph)),
            None => None,
        };
        push_optional(&mut entries, "graph", graph);
        Json::Object(entries)
    }
}

/// The public metrics of the scheduler, as far as they are known.
pub open spec fn internal_state_model(state: InternalState) -> JsonModel {
    let entries: Seq<(Seq<char>, JsonModel)> = seq![];
    let entries = with_optional(
        entries,
        "last_gen_throughput"@,
        opt_float(state.last_gen_throughput),
    );
    let entries = with_optional(
        entries,
        "memory_usage"@,
        match state.memory_usage {
            Some(usage) => Some(memory_usage_model(usage)),
            None => None,
        },
    );
    let entries = with_optional(
        entries,
        "effective_max_running_requests_per_dp"@,
        opt_count(state.effective_max_running_requests_per_dp),
    );
    let entries = with_optional(
        entries,
        "avg_spec_accept_length"@,
        opt_float(state.avg_spec_accept_length),
    );
    JsonModel::Object(
        with_optional(
            entries,
            "step_time_dict"@,
            match state.step_time_dict {
                Some(times) => Some(step_times_model(times@)),
                None => None,
            },
        ),
    )
}

impl InternalState {
    /// Builds the public object.
    pub fn to_json(&self) -> (object: Json)
        ensures
            object@ == internal_state_model(*self),
    {
        let mut entries: Vec<(String, Json)> = Vec::new();
        assert(entries_model(entries@) =~= seq![]);
        push_optional(&mut entries, "last_gen_throughput", float_value(self.last_gen_throughput));
        let memory_usage = match &self.memory_usage {
            Some(usage) => Some(usage.to_json()),
            None => None,
        };
        push_optional(&mut entries, "memory_usage", memory_usage);
        push_optional(
            &mut entries,
            "effective_max_running_requests_per_dp",
            count_value(self.effective_max_running_requests_per_dp),
        );
        push_optional(
            &mut entries,
            "avg_spec_accept_length",
            float_value(self.avg_spec_accept_length),
        );
        let step_time_dict = match &self.step_time_dict {
            Some(times) => Some(step_times(times)),
            None => None,
        };
        push_optional(&mut entries, "step_time_dict", step_time_dict);
        Json::Object(entries)
    }
}

/// The public object of the server metadata.
pub open spec fn server_info_model(info: ServerInfo) -> JsonModel {
    JsonModel::Object(
        seq![
            ("model_path"@, JsonModel::Text(info.model_path@)),
            ("served_model_name"@, JsonModel::Text(info.served_model_name@)),
            ("tokenizer_path"@, JsonModel::Text(info.tokenizer_path@)),
            ("max_context_length"@, JsonModel::Unsigned(info.max_context_length)),
            ("max_total_num_tokens"@, JsonModel::Unsigned(info.max_total_num_tokens)),
            ("version"@, JsonModel::Text(info.version@)),
            (
                "internal_states"@,
                JsonModel::Array(
                    info.internal_states@.map_values(
                        |state: InternalState| internal_state_model(state),
                    ),
                ),
            ),
        ],
    )
}

impl ServerInfo {
    /// Builds the public object.
    pub fn to_json(&self) -> (object: Json)
        ensures
            object@ == server_info_model(*self),
    {
        let ghost states = self.internal_states@.map_values(
            |state: InternalState| internal_state_model(state),
        );
        let mut items: Vec<Json> = Vec::new();
        for i in 0..self.internal_states.len()
            invariant
                states == self.internal_states@.map_values(
                    |state: InternalState| internal_state_model(state),
                ),
                items_model(items@) == states.take(i as int),
        {
            push_item(&mut items, self.internal_states[i].to_json());
            assert(items_model(items@) =~= states.take(i + 1));
        }
        assert(items_model(items@) =~= states);
        let mut entries: Vec<(String, Json)> = Vec::new();
        push_entry(&mut entries, "model_path", Json::Text(self.model_path.clone()));
        push_entry(&mut entries, "served_model_name", Json::Text(self.served_model_name.clone()));
        push_entry(&mut entries, "tokenizer_path", Json::Text(self.tokenizer_path.clone()));
        push_entry(&mut entries, "max_context_length", Json::Unsigned(self.max_context_length));
        push_entry(
            &mut entries,
            "max_total_num_tokens",
            Json::Unsigned(self.max_total_num_tokens),
        );
        push_entry(&mut entries, "version", Json::Text(self.version.clone()));
        push_entry(&mut entries, "internal_states", Json::Array(items));
        assert(entries_model(entries@) =~= server_info_model(*self)->Object_0);
        Json::Object(entries)
    }
}

/// The keys of the public metrics.
pub open spec fn internal_state_keys() -> Seq<Seq<char>> {
    seq![
        "last_gen_throughput"@,
        "memory_usage"@,
        "effective_max_running_requests_per_dp"@,
        "avg_spec_accept_length"@,
        "step_time_dict"@,
    ]
}

/// The keys of the public memory metrics.
pub open spec fn memory_usage_keys() -> Seq<Seq<char>> {
    seq![
        "weight"@,
        "kvcache"@,
        "startup_available"@,
        "token_capacity"@,
        "token_capacity_swa"@,
        "graph"@,
    ]
}

/// Whether every key of the entries is on the list.
pub open spec fn entry_keys_within(
    entries: Seq<(Seq<char>, JsonModel)>,
    keys: Seq<Seq<char>>,
) -> bool {
    forall|i: int| 0 <= i < entries.len() ==> keys.contains((#[trigger] entries[i]).0)
}

/// Whether this is an object and every key of it is on the list.
pub open spec fn keys_within(object: JsonModel, keys: Seq<Seq<char>>) -> bool {
    match object {
        JsonModel::Object(entries) => entry_keys_within(entries, keys),
        _ => false,
    }
}

/// An entry whose key is on the list keeps all keys on the list.
proof fn lemma_keys_within(
    entries: Seq<(Seq<char>, JsonModel)>,
    key: Seq<char>,
    value: Option<JsonModel>,
    keys: Seq<Seq<char>>,
    k: int,
)
    requires
        entry_keys_within(entries, keys),
        0 <= k < keys.len(),
        keys[k] == key,
    ensures
        entry_keys_within(with_optional(entries, key, value), keys),
{
    let grown = with_optional(entries, key, value);
    assert forall|i: int| 0 <= i < grown.len() implies keys.contains(
        (#[trigger] grown[i]).0,
    ) by {
        if i < entries.len() {
            assert(grown[i] == entries[i]);
        } else {
            assert(keys[k] == grown[i].0);
        }
    }
}

/// Whatever the scheduler's state holds, only the listed metrics are shown.
pub proof fn law_internal_state_is_allowlisted(state: InternalState)
    ensures
        keys_within(internal_state_model(state), internal_state_keys()),
{
    let keys = internal_state_keys();
    let entries: Seq<(Seq<char>, JsonModel)> = seq![];
    let throughput = opt_float(state.last_gen_throughput);
    lemma_keys_within(entries, keys[0], throughput, keys, 0);
    let entries = with_optional(entries, keys[0], throughput);
    let usage = match state.memory_usage {
        Some(usage) => Some(memory_usage_model(usage)),
        None => None,
    };
    lemma_keys_within(entries, keys[1], usage, keys, 1);
    let entries = with_optional(entries, keys[1], usage);
    let running = opt_count(state.effective_max_running_requests_per_dp);
    lemma_keys_within(entries, keys[2], running, keys, 2);
    let entries = with_optional(entries, keys[2], running);
    let accepted = opt_float(state.avg_spec_accept_length);
    lemma_keys_within(entries, keys[3], accepted, keys, 3);
    let entries = with_optional(entries, keys[3], accepted);
    let times = match state.step_time_dict {
        Some(times) => Some(step_times_model(times@)),
        None => None,
    };
    lemma_keys_within(entries, keys[4], times, keys, 4);
}

/// Whatever the scheduler measures, only the listed memory metrics are shown.
pub proof fn law_memory_usage_is_allowlisted(usage: MemoryUsage)
    ensures
        keys_within(memory_usage_model(usage), memory_usage_keys()),
{
    let keys = memory_usage_keys();
    let entries: Seq<(Seq<char>, JsonModel)> = seq![];
    let weight = opt_float(usage.weight);
    lemma_keys_within(entries, keys[0], weight, keys, 0);
    let entries = with_optional(entries, keys[0], weight);
    let kvcache = match usage.kvcache {
        Some(MemoryMeasurement::Number(bits)) => Some(float_model(bits)),
        Some(MemoryMeasurement::Text(text)) => Some(JsonModel::Text(text@)),
        None => None,
    };
    lemma_keys_within(entries, keys[1], kvcache, keys, 1);
    let entries = with_optional(entries, keys[1], kvcache);
    let startup = opt_float(usage.startup_available);
    lemma_keys_within(entries, keys[2], startup, keys, 2);
    let entries = with_optional(entries, keys[2], startup);
    let capacity = opt_count(usage.token_capacity);
    lemma_keys_within(entries, keys[3], capacity, keys, 3);
    let entries = with_optional(entries, keys[3], capacity);
    let swa = match usage.token_capacity_swa {
        Some(count) => JsonModel::Unsigned(count),
        None => JsonModel::Null,
    };
    lemma_keys_within(entries, keys[4], Some(swa), keys, 4);
    let entries = with_optional(entries, keys[4], Some(swa));
    let graph = match usage.graph {
        Some(graph) => Some(named_numbers_model(graph@)),
        None => None,
    };
    lemma_keys_within(entries, keys[5], graph, keys, 5);
}

/// Whether no two entries have the same key.
pub open spec fn distinct_keys(entries: Seq<(Seq<char>, JsonModel)>) -> bool {
    forall|i: int, j: int|
        0 <= i < j < entries.len() ==> (#[trigger] entries[i]).0 != (#[trigger] entries[j]).0
}

/// The keys in ascending order are exactly the keys, and they ascend.
proof fn lemma_ascending_keys(keys: Set<u64>)
    requires
        keys.finite(),
    ensures
        strictly_ascends(ascending(keys)),
        forall|key: u64| #[trigger] ascending(keys).contains(key) <==> keys.contains(key),
    decreases keys.len(),
{
    let greatest = choose|key: u64| is_greatest(keys, key);
    if keys.contains(greatest) {
        let rest = keys.remove(greatest);
        lemma_ascending_keys(rest);
        let list = ascending(rest);
        assert(exists|key: u64| is_greatest(keys, key)) by {
            lemma_greatest_exists(keys, greatest);
        }
        assert forall|i: int, j: int| 0 <= i < j < list.push(greatest).len() implies list.push(
            greatest,
        )[i] < list.push(greatest)[j] by {
            if j == list.len() {
                assert(list.contains(list[i]));
            }
        }
        assert forall|key: u64| #[trigger] list.push(greatest).contains(key) <==> keys.contains(
            key,
        ) by {
            if keys.contains(key) {
                if key == greatest {
                    assert(list.push(greatest)[list.len() as int] == key);
                } else {
                    assert(list.contains(key));
                    assert(list.push(greatest)[list.index_of(key)] == key);
                }
            }
            if list.push(greatest).contains(key) {
                let at = list.push(greatest).index_of(key);
                if at < list.len() {
                    assert(list.contains(list[at]));
                }
            }
        }
    } else {
        assert forall|key: u64| !keys.contains(key) by {
            if keys.contains(key) {
                lemma_greatest_exists(keys, key);
            }
        }
    }
}

/// A finite set that holds a key has a greatest one.
proof fn lemma_greatest_exists(keys: Set<u64>, key: u64)
    requires
        keys.finite(),
        keys.contains(key),
    ensures
        exists|greatest: u64| is_greatest(keys, greatest),
    decreases keys.len(),
{
    let rest = keys.remove(key);
    if exists|other: u64| rest.contains(other) {
        let other = choose|other: u64| rest.contains(other);
        lemma_greatest_exists(rest, other);
        let candidate = choose|greatest: u64| is_greatest(rest, greatest);
        let greatest = if candidate < key {
            key
        } else {
            candidate
        };
        assert(is_greatest(keys, greatest)) by {
            assert forall|other: u64| keys.contains(other) implies other <= greatest by {
                if other != key {
                    assert(rest.contains(other));
                }
            }
        }
    } else {
        assert(is_greatest(keys, key)) by {
            assert forall|other: u64| keys.contains(other) implies other <= key by {
                if other != key {
                    assert(rest.contains(other));
                }
            }
        }
    }
}

/// The step times are shown once for each batch size, by ascending size, and no
/// key comes twice.
pub proof fn law_step_times_are_in_order(times: Map<u64, Vec<u64>>)
    requires
        times.dom().finite(),
    ensures
        ({
            let sizes = ascending(times.dom());
            let entries = step_times_model(times)->Object_0;
            &&& entries.len() == sizes.len()
            &&& strictly_ascends(sizes)
            &&& forall|size: u64| #[trigger] sizes.contains(size) <==> times.contains_key(size)
            &&& forall|i: int|
                0 <= i < entries.len() ==> (#[trigger] entries[i]) == step_time_model(
                    sizes[i],
                    times[sizes[i]],
                )
            &&& distinct_keys(entries)
        }),
{
    lemma_ascending_keys(times.dom());
    let sizes = ascending(times.dom());
    let entries = step_times_model(times)->Object_0;
    assert forall|i: int, j: int| 0 <= i < j < entries.len() implies (#[trigger] entries[i]).0 != (
    #[trigger] entries[j]).0 by {
        if entries[i].0 == entries[j].0 {
            lemma_decimal_is_injective(sizes[i] as nat, sizes[j] as nat);
        }
    }
}

/// Named measurements that are in order are shown in that order, and no key comes
/// twice.
pub proof fn law_named_measurements_are_in_order(usage: MemoryUsage)
    requires
        usage.well_formed(),
    ensures
        usage.graph matches Some(graph) ==> {
            let entries = named_numbers_model(graph@)->Object_0;
            &&& entries.len() == graph@.len()
            &&& forall|i: int|
                0 <= i < entries.len() ==> (#[trigger] entries[i]).0 == graph@[i].0@
            &&& forall|i: int, j: int|
                0 <= i < j < entries.len() ==> text_before(
                    (#[trigger] entries[i]).0,
                    (#[trigger] entries[j]).0,
                )
            &&& distinct_keys(entries)
        },
{
    if let Some(graph) = usage.graph {
        let entries = named_numbers_model(graph@)->Object_0;
        assert forall|i: int, j: int| 0 <= i < j < entries.len() implies text_before(
            (#[trigger] entries[i]).0,
            (#[trigger] entries[j]).0,
        ) && entries[i].0 != entries[j].0 by {
            let (first, second) = (graph@[i].0@, graph@[j].0@);
            assert(text_before(first, second));
            let common = choose|common: int| #[trigger] parts_after(first, second, common);
            assert(parts_after(first, second, common));
        }
    }
}

/// An optional entry is found only where no earlier one has its key.
broadcast proof fn lemma_lookup_with_optional(
    entries: Seq<(Seq<char>, JsonModel)>,
    key: Seq<char>,
    value: Option<JsonModel>,
    wanted: Seq<char>,
)
    ensures
        (#[trigger] lookup(with_optional(entries, key, value), wanted)) == match lookup(
            entries,
            wanted,
        ) {
            Some(found) => Some(found),
            None => if key == wanted {
                value
            } else {
                None
            },
        },
{
    broadcast use lemma_lookup_push;

}

/// The public object of the model metadata shows each field under its own key, and
/// `null` for what is not configured.
pub proof fn law_model_info_by_key(info: ModelInfo)
    ensures
        model_info_model(info).get("model_path"@) == Some(
            JsonModel::Text(info.model_path@),
        ),
        model_info_model(info).get("served_model_name"@) == Some(
            JsonModel::Text(info.served_model_name@),
        ),
        model_info_model(info).get("tokenizer_path"@) == Some(
            JsonModel::Text(info.tokenizer_path@),
        ),
        model_info_model(info).get("is_generation"@) == Some(
            JsonModel::Bool(info.is_generation),
        ),
        model_info_model(info).get("preferred_sampling_params"@) == Some(
            match info.preferred_sampling_params {
                    Some(document) => document@,
                    None => JsonModel::Null,
                },
        ),
        model_info_model(info).get("weight_version"@) == Some(
            match info.weight_version {
                    Some(text) => JsonModel::Text(text@),
                    None => JsonModel::Null,
                },
        ),
        model_info_model(info).get("load_format"@) == Some(
            match info.load_format {
                    Some(text) => JsonModel::Text(text@),
                    None => JsonModel::Null,
                },
        ),
        model_info_model(info).get("reasoning_parser"@) == Some(
            match info.reasoning_parser {
                    Some(text) => JsonModel::Text(text@),
                    None => JsonModel::Null,
                },
        ),
        model_info_model(info).get("tool_call_parser"@) == Some(
            match info.tool_call_parser {
                    Some(text) => JsonModel::Text(text@),
                    None => JsonModel::Null,
                },
        ),
        model_info_model(info).get("disaggregation_mode"@) == Some(
            JsonModel::Text(info.disaggregation_mode@),
        ),
        model_info_model(info) matches JsonModel::Object(entries) && entries.len() == 10,
{
    broadcast use lemma_lookup_push;

    reveal_strlit("model_path");
    reveal_strlit("served_model_name");
    reveal_strlit("tokenizer_path");
    reveal_strlit("is_generation");
    reveal_strlit("preferred_sampling_params");
    reveal_strlit("weight_version");
    reveal_strlit("load_format");
    reveal_strlit("reasoning_parser");
    reveal_strlit("tool_call_parser");
    reveal_strlit("disaggregation_mode");
    assert("model_path"@.len() == 10 && "model_path"@[0] == 'm');
    assert("served_model_name"@.len() == 17 && "served_model_name"@[0] == 's');
    assert("tokenizer_path"@.len() == 14 && "tokenizer_path"@[0] == 't');
    assert("is_generation"@.len() == 13 && "is_generation"@[0] == 'i');
    assert("preferred_sampling_params"@.len() == 25 && "preferred_sampling_params"@[0] == 'p');
    assert("weight_version"@.len() == 14 && "weight_version"@[0] == 'w');
    assert("load_format"@.len() == 11 && "load_format"@[0] == 'l');
    assert("reasoning_parser"@.len() == 16 && "reasoning_parser"@[0] == 'r');
    assert("tool_call_parser"@.len() == 16 && "tool_call_parser"@[0] == 't');
    assert("disaggregation_mode"@.len() == 19 && "disaggregation_mode"@[0] == 'd');
    let entries = model_info_model(info)->Object_0;
    let empty: Seq<(Seq<char>, JsonModel)> = seq![];
    assert(entries =~= empty
        .push(entries[0])
        .push(entries[1])
        .push(entries[2])
        .push(entries[3])
        .push(entries[4])
        .push(entries[5])
        .push(entries[6])
        .push(entries[7])
        .push(entries[8])
        .push(entries[9]));
}

/// The public object of the server metadata shows each field under its own key, and
/// the metrics of every scheduler in order.
pub proof fn law_server_info_by_key(info: ServerInfo)
    ensures
        server_info_model(info).get("model_path"@) == Some(
            JsonModel::Text(info.model_path@),
        ),
        server_info_model(info).get("served_model_name"@) == Some(
            JsonModel::Text(info.served_model_name@),
        ),
        server_info_model(info).get("tokenizer_path"@) == Some(
            JsonModel::Text(info.tokenizer_path@),
        ),
        server_info_model(info).get("max_context_length"@) == Some(
            JsonModel::Unsigned(info.max_context_length),
        ),
        server_info_model(info).get("max_total_num_tokens"@) == Some(
            JsonModel::Unsigned(info.max_total_num_tokens),
        ),
        server_info_model(info).get("version"@) == Some(
            JsonModel::Text(info.version@),
        ),
        server_info_model(info).get("internal_states"@) matches Some(JsonModel::Array(states))
            && states.len() == info.internal_states@.len() && forall|i: int|
            0 <= i < states.len() ==> (#[trigger] states[i]) == internal_state_model(
                info.internal_states@[i],
            ),
        server_info_model(info) matches JsonModel::Object(entries) && entries.len() == 7,
{
    broadcast use lemma_lookup_push;

    reveal_strlit("model_path");
    reveal_strlit("served_model_name");
    reveal_strlit("tokenizer_path");
    reveal_strlit("max_context_length");
    reveal_strlit("max_total_num_tokens");
    reveal_strlit("version");
    reveal_strlit("internal_states");
    assert("model_path"@.len() == 10 && "model_path"@[0] == 'm');
    assert("served_model_name"@.len() == 17 && "served_model_name"@[0] == 's');
    assert("tokenizer_path"@.len() == 14 && "tokenizer_path"@[0] == 't');
    assert("max_context_length"@.len() == 18 && "max_context_length"@[0] == 'm');
    assert("max_total_num_tokens"@.len() == 20 && "max_total_num_tokens"@[0] == 'm');
    assert("version"@.len() == 7 && "version"@[0] == 'v');
    assert("internal_states"@.len() == 15 && "internal_states"@[0] == 'i');
    let entries = server_info_model(info)->Object_0;
    let empty: Seq<(Seq<char>, JsonModel)> = seq![];
    assert(entries =~= empty
        .push(entries[0])
        .push(entries[1])
        .push(entries[2])
        .push(entries[3])
        .push(entries[4])
        .push(entries[5])
        .push(entries[6]));
}

/// Each metric of the scheduler is shown under its own key where it is known, and
/// has no key where it is not.
pub proof fn law_metrics_by_key(state: InternalState)
    ensures
        state.last_gen_throughput matches Some(bits) ==> internal_state_model(state).get(
            "last_gen_throughput"@,
        ) == Some(float_model(bits)),
        state.last_gen_throughput is None ==> internal_state_model(state).get(
            "last_gen_throughput"@,
        ) is None,
        state.avg_spec_accept_length matches Some(bits) ==> internal_state_model(state).get(
            "avg_spec_accept_length"@,
        ) == Some(float_model(bits)),
        state.avg_spec_accept_length is None ==> internal_state_model(state).get(
            "avg_spec_accept_length"@,
        ) is None,
        state.effective_max_running_requests_per_dp matches Some(count) ==> internal_state_model(
            state,
        ).get("effective_max_running_requests_per_dp"@) == Some(JsonModel::Unsigned(count)),
        state.effective_max_running_requests_per_dp is None ==> internal_state_model(state).get(
            "effective_max_running_requests_per_dp"@,
        ) is None,
        state.memory_usage matches Some(usage) ==> internal_state_model(state).get("memory_usage"@)
            == Some(memory_usage_model(usage)),
        state.memory_usage is None ==> internal_state_model(state).get("memory_usage"@) is None,
        state.step_time_dict matches Some(times) ==> internal_state_model(state).get(
            "step_time_dict"@,
        ) == Some(step_times_model(times@)),
        state.step_time_dict is None ==> internal_state_model(state).get("step_time_dict"@) is None,
{
    broadcast use lemma_lookup_with_optional;

    reveal_strlit("last_gen_throughput");
    reveal_strlit("memory_usage");
    reveal_strlit("effective_max_running_requests_per_dp");
    reveal_strlit("avg_spec_accept_length");
    reveal_strlit("step_time_dict");
    assert("last_gen_throughput"@.len() == 19 && "last_gen_throughput"@[0] == 'l');
    assert("memory_usage"@.len() == 12 && "memory_usage"@[0] == 'm');
    assert("effective_max_running_requests_per_dp"@.len() == 37 && "effective_max_running_requests_per_dp"@[0] == 'e');
    assert("avg_spec_accept_length"@.len() == 22 && "avg_spec_accept_length"@[0] == 'a');
    assert("step_time_dict"@.len() == 14 && "step_time_dict"@[0] == 's');
}

/// Each memory metric is shown under its own key where it is known, in the form in
/// which the scheduler reported it; the sliding-window capacity has its key always.
pub proof fn law_memory_metrics_by_key(usage: MemoryUsage)
    ensures
        usage.weight matches Some(bits) ==> memory_usage_model(usage).get("weight"@) == Some(
            float_model(bits),
        ),
        usage.weight is None ==> memory_usage_model(usage).get("weight"@) is None,
        usage.kvcache matches Some(MemoryMeasurement::Number(bits)) ==> memory_usage_model(
            usage,
        ).get("kvcache"@) == Some(float_model(bits)),
        usage.kvcache matches Some(MemoryMeasurement::Text(text)) ==> memory_usage_model(usage).get(
            "kvcache"@,
        ) == Some(JsonModel::Text(text@)),
        usage.kvcache is None ==> memory_usage_model(usage).get("kvcache"@) is None,
        usage.startup_available matches Some(bits) ==> memory_usage_model(usage).get(
            "startup_available"@,
        ) == Some(float_model(bits)),
        usage.startup_available is None ==> memory_usage_model(usage).get(
            "startup_available"@,
        ) is None,
        usage.token_capacity matches Some(count) ==> memory_usage_model(usage).get(
            "token_capacity"@,
        ) == Some(JsonModel::Unsigned(count)),
        usage.token_capacity is None ==> memory_usage_model(usage).get("token_capacity"@) is None,
        usage.token_capacity_swa matches Some(count) ==> memory_usage_model(usage).get(
            "token_capacity_swa"@,
        ) == Some(JsonModel::Unsigned(count)),
        usage.token_capacity_swa is None ==> memory_usage_model(usage).get("token_capacity_swa"@)
            == Some(JsonModel::Null),
        usage.graph matches Some(graph) ==> (memory_usage_model(usage).get("graph"@) matches Some(
            JsonModel::Object(entries),
        ) && entries.len() == graph@.len() && forall|i: int|
            0 <= i < entries.len() ==> (#[trigger] entries[i]) == (
                graph@[i].0@,
                float_model(graph@[i].1),
            )),
        usage.graph is None ==> memory_usage_model(usage).get("graph"@) is None,
{
    broadcast use {lemma_lookup_push, lemma_lookup_with_optional};

    reveal_strlit("weight");
    reveal_strlit("kvcache");
    reveal_strlit("startup_available");
    reveal_strlit("token_capacity");
    reveal_strlit("token_capacity_swa");
    reveal_strlit("graph");
    assert("weight"@.len() == 6 && "weight"@[0] == 'w');
    assert("kvcache"@.len() == 7 && "kvcache"@[0] == 'k');
    assert("startup_available"@.len() == 17 && "startup_available"@[0] == 's');
    assert("token_capacity"@.len() == 14 && "token_capacity"@[0] == 't');
    assert("token_capacity_swa"@.len() == 18 && "token_capacity_swa"@[0] == 't');
    assert("graph"@.len() == 5 && "graph"@[0] == 'g');
}

/// The step times of a batch size stand under its decimal notation, one number for
/// each, in order.
pub proof fn law_step_times_of_one_size(size: u64, times: Vec<u64>)
    ensures
        step_time_model(size, times).0 == decimal(size as nat),
        step_time_model(size, times).1 matches JsonModel::Array(numbers) && numbers.len()
            == times@.len() && forall|i: int|
            0 <= i < numbers.len() ==> (#[trigger] numbers[i]) == float_model(times@[i]),
{
}

/// What clients are shown of a server is what it was launched with: the metadata
/// goes from the launch configuration to the public objects unchanged, and the
/// metrics are those of the scheduler that was asked.
pub proof fn law_metadata_is_shown_as_configured(
    metadata: FrontendMetadata,
    args: ServerArgs,
    model: ModelInfo,
    server: ServerInfo,
    state: InternalState,
)
    requires
        metadata.kept_from(args),
        metadata.describes_model(model),
        metadata.describes_server(server, state),
    ensures
        model_info_model(model).get("model_path"@) == Some(JsonModel::Text(args.model_path@)),
        model_info_model(model).get("served_model_name"@) == Some(
            JsonModel::Text(args.served_model_name@),
        ),
        model_info_model(model).get("tokenizer_path"@) == Some(
            JsonModel::Text(args.tokenizer_path@),
        ),
        model_info_model(model).get("is_generation"@) == Some(JsonModel::Bool(true)),
        model_info_model(model).get("weight_version"@) == Some(text_or_null(args.weight_version)),
        model_info_model(model).get("load_format"@) == Some(text_or_null(args.load_format)),
        model_info_model(model).get("reasoning_parser"@) == Some(
            text_or_null(args.reasoning_parser),
        ),
        model_info_model(model).get("tool_call_parser"@) == Some(
            text_or_null(args.tool_call_parser),
        ),
        model_info_model(model).get("disaggregation_mode"@) == Some(
            JsonModel::Text(args.disaggregation_mode@),
        ),
        args.preferred_sampling_params matches Some(document) ==> model_info_model(model).get(
            "preferred_sampling_params"@,
        ) == Some(document@),
        args.preferred_sampling_params is None ==> model_info_model(model).get(
            "preferred_sampling_params"@,
        ) == Some(JsonModel::Null),
        server_info_model(server).get("model_path"@) == Some(JsonModel::Text(args.model_path@)),
        server_info_model(server).get("served_model_name"@) == Some(
            JsonModel::Text(args.served_model_name@),
        ),
        server_info_model(server).get("tokenizer_path"@) == Some(
            JsonModel::Text(args.tokenizer_path@),
        ),
        server_info_model(server).get("max_context_length"@) == Some(
            JsonModel::Unsigned(args.context_len),
        ),
        server_info_model(server).get("max_total_num_tokens"@) == Some(
            JsonModel::Unsigned(args.max_total_num_tokens),
        ),
        server_info_model(server).get("version"@) == Some(JsonModel::Text(args.version@)),
        server_info_model(server).get("internal_states"@) == Some(
            JsonModel::Array(seq![internal_state_model(state)]),
        ),
{
    law_model_info_by_key(model);
    law_server_info_by_key(server);
    let states = server_info_model(server).get("internal_states"@)->0->Array_0;
    assert(states =~= seq![internal_state_model(state)]);
}

/// An optional text is shown as itself, or as `null`.
pub proof fn law_optional_texts(text: Option<String>)
    ensures
        text matches Some(text) ==> text_or_null(Some(text)) == JsonModel::Text(text@),
        text is None ==> text_or_null(text) == JsonModel::Null,
{
}

} // verus!
