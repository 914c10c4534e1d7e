//! Conversion of `runtime.v1` generation requests.
//!
//! The schema is wider than the frontend. A field that has no counterpart here
//! is refused, never silently ignored.

use vstd::prelude::*;

use crate::grpc::proto;
use crate::grpc::status::{GrpcCode, GrpcStatus, StatusModel};
use crate::ids::{Rid, RidModel};
use crate::request::{
    opt_int, FrontendRequest, OneOrMany, OneOrManyModel, PreferredSamplingParams, RequestModel,
    SamplingModel, SamplingParams, Setting,
};
use crate::text::{concat2, concat3, join, joined, opt_text, texts};

verus! {

/// Why a request cannot be converted.
#[derive(Debug)]
pub enum ConvertError {
    InvalidArgument(String),
    Unsupported(String),
    Internal(String),
}

/// What a conversion returns.
pub type ConvertResult<T> = Result<T, ConvertError>;

/// What a [`ConvertError`] means.
#[verifier::ext_equal]
pub enum ConvertErrorModel {
    InvalidArgument(Seq<char>),
    Unsupported(Seq<char>),
    Internal(Seq<char>),
}

impl View for ConvertError {
    type V = ConvertErrorModel;

    open spec fn view(&self) -> ConvertErrorModel {
        match self {
            ConvertError::InvalidArgument(message) => ConvertErrorModel::InvalidArgument(message@),
            ConvertError::Unsupported(message) => ConvertErrorModel::Unsupported(message@),
            ConvertError::Internal(message) => ConvertErrorModel::Internal(message@),
        }
    }
}

impl ConvertErrorModel {
    /// The status that a client gets.
    pub open spec fn status(self) -> StatusModel {
        match self {
            ConvertErrorModel::InvalidArgument(message) => StatusModel {
                code: GrpcCode::InvalidArgument,
                message,
            },
            ConvertErrorModel::Unsupported(message) => StatusModel {
                code: GrpcCode::Unimplemented,
                message,
            },
            ConvertErrorModel::Internal(message) => StatusModel {
                code: GrpcCode::Internal,
                message,
            },
        }
    }
}

impl ConvertError {
    /// A request that is wrong.
    pub fn invalid_argument(message: &str) -> (error: Self)
        ensures
            error@ == ConvertErrorModel::InvalidArgument(message@),
    {
        ConvertError::InvalidArgument(message.to_owned())
    }

    /// A server that is wrong.
    pub fn internal(message: String) -> (error: Self)
        ensures
            error@ == ConvertErrorModel::Internal(message@),
    {
        ConvertError::Internal(message)
    }

    /// The status that a client gets.
    pub fn into_status(self) -> (status: GrpcStatus)
        ensures
            status@ == self@.status(),
    {
        match self {
            ConvertError::InvalidArgument(message) => GrpcStatus {
                code: GrpcCode::InvalidArgument,
                message,
            },
            ConvertError::Unsupported(message) => GrpcStatus {
                code: GrpcCode::Unimplemented,
                message,
            },
            ConvertError::Internal(message) => GrpcStatus { code: GrpcCode::Internal, message },
        }
    }
}

/// The names of the fields that are present, in order.
pub open spec fn present_names(fields: Seq<(&str, bool)>) -> Seq<Seq<char>>
    decreases fields.len(),
{
    if fields.len() == 0 {
        seq![]
    } else if fields.last().1 {
        present_names(fields.drop_last()).push(fields.last().0@)
    } else {
        present_names(fields.drop_last())
    }
}

/// What a client is told about fields that the frontend has no use for.
pub open spec fn unsupported_error(names: Seq<Seq<char>>) -> ConvertErrorModel {
    ConvertErrorModel::Unsupported(
        "the Rust frontend does not yet support runtime.v1 field(s): "@ + joined(names, ", "@),
    )
}

/// Refuses the request if one of the fields is present, and names them all.
pub fn reject_unsupported(fields: &[(&str, bool)]) -> (checked: ConvertResult<()>)
    ensures
        match checked {
            Ok(_) => present_names(fields@).len() == 0,
            Err(error) => present_names(fields@).len() > 0 && error@ == unsupported_error(
                present_names(fields@),
            ),
        },
{
    let mut names: Vec<String> = Vec::new();
    assert(texts(names@) =~= present_names(fields@.take(0)));
    for i in 0..fields.len()
        invariant
            texts(names@) == present_names(fields@.take(i as int)),
    {
        assert(fields@.take(i + 1).drop_last() =~= fields@.take(i as int));
        if fields[i].1 {
            let ghost before = texts(names@);
            names.push(fields[i].0.to_owned());
            assert(texts(names@) =~= before.push(fields@[i as int].0@));
        }
    }
    assert(fields@.take(fields@.len() as int) =~= fields@);
    assert(texts(names@).len() == names@.len());
    if names.is_empty() {
        return Ok(());
    }
    let list = join(&names, ", ");
    Err(
        ConvertError::Unsupported(
            concat2(
                "the Rust frontend does not yet support runtime.v1 field(s): ",
                list.as_str(),
            ),
        ),
    )
}

/// The identity of a request: under the client's name, if it gave one.
pub open spec fn request_id_model(rid: Option<String>, minted: Seq<char>) -> RidModel {
    match rid {
        Some(name) => RidModel { internal: minted, public: name@ },
        None => RidModel::same(minted),
    }
}

/// Names the request. The minted name is always the one used inside.
pub fn request_id(rid: Option<String>, minted: &str) -> (id: Rid)
    ensures
        id@ == request_id_model(rid, minted@),
{
    match rid {
        Some(name) => Rid::from_client(name.as_str(), minted),
        None => Rid::from_name(minted),
    }
}

/// The name that a client chose is shown to it, and never used for routing.
pub proof fn law_client_name_is_only_shown(rid: Option<String>, minted: Seq<char>)
    ensures
        request_id_model(rid, minted).internal == minted,
        rid matches Some(name) ==> request_id_model(rid, minted).public == name@,
        rid is None ==> request_id_model(rid, minted).public == minted,
{
}

/// Whether the character has a meaning of its own in a regular expression.
pub open spec fn is_meta(character: char) -> bool {
    character == '.' || character == '+' || character == '*' || character == '?' || character == '^'
        || character == '$' || character == '(' || character == ')' || character == '['
        || character == ']' || character == '{' || character == '}' || character == '|'
        || character == '\\'
}

/// The character as it is written to stand for itself.
pub open spec fn escaped_char(character: char) -> Seq<char> {
    if is_meta(character) {
        seq!['\\', character]
    } else {
        seq![character]
    }
}

/// The text as it is written to stand for itself.
pub open spec fn escaped(text: Seq<char>) -> Seq<char>
    decreases text.len(),
{
    if text.len() == 0 {
        seq![]
    } else {
        escaped(text.drop_last()) + escaped_char(text.last())
    }
}

/// Writes a text so that a regular expression takes it literally.
pub fn regex_escape_literal(value: &str) -> (regex: String)
    ensures
        regex@ == escaped(value@),
{
    let mut regex = String::new();
    let length = value.unicode_len();
    for i in 0..length
        invariant
            length == value@.len(),
            regex@ == escaped(value@.take(i as int)),
    {
        let character = value.get_char(i);
        assert(value@.take(i + 1).drop_last() =~= value@.take(i as int));
        match character {
            '.' | '+' | '*' | '?' | '^' | '$' | '(' | ')' | '[' | ']' | '{' | '}' | '|' | '\\' => {
                regex.push('\\');
            },
            _ => {},
        }
        regex.push(character);
        assert(regex@ =~= escaped(value@.take(i as int)) + escaped_char(character));
    }
    assert(value@.take(value@.len() as int) =~= value@);
    regex
}

/// The texts, each written to stand for itself.
pub open spec fn escaped_all(values: Seq<Seq<char>>) -> Seq<Seq<char>> {
    values.map_values(|value: Seq<char>| escaped(value))
}

/// The regular expression that a guided choice becomes.
pub open spec fn choice_regex(values: Seq<Seq<char>>) -> Seq<char> {
    "(?:"@ + joined(escaped_all(values), "|"@) + ")"@
}

/// Whether no text is empty.
pub open spec fn no_empty_text(values: Seq<Seq<char>>) -> bool {
    forall|i: int| 0 <= i < values.len() ==> (#[trigger] values[i]).len() > 0
}

/// Writes a guided choice as a regular expression.
fn choice_alternatives(values: &Vec<String>) -> (regex: String)
    ensures
        regex@ == choice_regex(texts(values@)),
{
    let mut alternatives: Vec<String> = Vec::new();
    for i in 0..values.len()
        invariant
            texts(alternatives@) == escaped_all(texts(values@)).take(i as int),
    {
        let ghost before = texts(alternatives@);
        let alternative = regex_escape_literal(values[i].as_str());
        alternatives.push(alternative);
        assert(texts(alternatives@) =~= before.push(alternative@));
        assert(texts(alternatives@) =~= escaped_all(texts(values@)).take(i + 1));
    }
    assert(texts(alternatives@) =~= escaped_all(texts(values@)));
    let list = join(&alternatives, "|");
    concat3("(?:", list.as_str(), ")")
}

/// A value that the client asked for.
pub open spec fn asked<T>(value: Option<T>) -> Setting<T> {
    match value {
        Some(value) => Setting::Explicit(value),
        None => Setting::Unset,
    }
}

/// A number that the client asked for.
pub open spec fn asked_number(value: Option<i32>) -> Setting<i64> {
    match value {
        Some(value) => Setting::Explicit(value as i64),
        None => Setting::Unset,
    }
}

/// The parameters with the constraint of guided decoding, or why it is refused.
pub open spec fn guided_model(
    params: SamplingModel,
    guided: proto::GuidedDecoding,
) -> Result<SamplingModel, ConvertErrorModel> {
    let empty = ConvertErrorModel::InvalidArgument("guided decoding constraint must not be empty"@);
    match guided.constraint {
        Some(proto::Constraint::JsonSchema(value)) => if value@.len() > 0 {
            Ok(SamplingModel { json_schema: Setting::Explicit(value@), ..params })
        } else {
            Err(empty)
        },
        Some(proto::Constraint::Regex(value)) => if value@.len() > 0 {
            Ok(SamplingModel { regex: Setting::Explicit(value@), ..params })
        } else {
            Err(empty)
        },
        Some(proto::Constraint::Ebnf(value)) => if value@.len() > 0 {
            Ok(SamplingModel { ebnf: Setting::Explicit(value@), ..params })
        } else {
            Err(empty)
        },
        Some(proto::Constraint::StructuralTag(value)) => if value@.len() > 0 {
            Ok(SamplingModel { structural_tag: Setting::Explicit(value@), ..params })
        } else {
            Err(empty)
        },
        Some(proto::Constraint::Choice(choice)) => if choice.values@.len() > 0 && no_empty_text(
            texts(choice.values@),
        ) {
            Ok(
                SamplingModel {
                    regex: Setting::Explicit(choice_regex(texts(choice.values@))),
                    ..params
                },
            )
        } else {
            Err(
                ConvertErrorModel::InvalidArgument(
                    "guided choice must contain only non-empty values"@,
                ),
            )
        },
        None => Err(
            ConvertErrorModel::InvalidArgument("guided decoding constraint must be specified"@),
        ),
    }
}

/// What converted sampling parameters mean.
pub open spec fn sampling_result(result: ConvertResult<SamplingParams>) -> Result<
    SamplingModel,
    ConvertErrorModel,
> {
    match result {
        Ok(params) => Ok(params@),
        Err(error) => Err(error@),
    }
}

/// Whether one of the texts is empty.
fn has_empty_text(values: &Vec<String>) -> (found: bool)
    ensures
        found == !no_empty_text(texts(values@)),
{
    for i in 0..values.len()
        invariant
            forall|j: int| 0 <= j < i ==> (#[trigger] texts(values@)[j]).len() > 0,
    {
        assert(texts(values@)[i as int] == values@[i as int]@);
        if values[i].as_str().is_empty() {
            return true;
        }
    }
    false
}

/// Puts the constraint of guided decoding into the parameters, or leaves them as
/// they are and says why.
pub fn apply_guided_decoding(
    output: &mut SamplingParams,
    guided: proto::GuidedDecoding,
) -> (result: ConvertResult<()>)
    ensures
        match guided_model(old(output)@, guided) {
            Ok(params) => result is Ok && final(output)@ == params,
            Err(error) => result matches Err(refused) && refused@ == error && final(output)@
                == old(output)@,
        },
{
    match guided.constraint {
        Some(proto::Constraint::JsonSchema(value)) => {
            if value.as_str().is_empty() {
                return Err(
                    ConvertError::invalid_argument("guided decoding constraint must not be empty"),
                );
            }
            output.json_schema = Setting::Explicit(value);
        },
        Some(proto::Constraint::Regex(value)) => {
            if value.as_str().is_empty() {
                return Err(
                    ConvertError::invalid_argument("guided decoding constraint must not be empty"),
                );
            }
            output.regex = Setting::Explicit(value);
        },
        Some(proto::Constraint::Ebnf(value)) => {
            if value.as_str().is_empty() {
                return Err(
                    ConvertError::invalid_argument("guided decoding constraint must not be empty"),
                );
            }
            output.ebnf = Setting::Explicit(value);
        },
        Some(proto::Constraint::StructuralTag(value)) => {
            if value.as_str().is_empty() {
                return Err(
                    ConvertError::invalid_argument("guided decoding constraint must not be empty"),
                );
            }
            output.structural_tag = Setting::Explicit(value);
        },
        Some(proto::Constraint::Choice(choice)) => {
            if choice.values.is_empty() || has_empty_text(&choice.values) {
                return Err(
                    ConvertError::invalid_argument(
                        "guided choice must contain only non-empty values",
                    ),
                );
            }
            output.regex = Setting::Explicit(choice_alternatives(&choice.values));
        },
        None => {
            return Err(
                ConvertError::invalid_argument("guided decoding constraint must be specified"),
            );
        },
    }
    Ok(())
}

/// The parameters with the superseded constraints, or why they are refused.
pub open spec fn legacy_model(
    params: SamplingModel,
    json_schema: Option<String>,
    regex: Option<String>,
) -> Result<SamplingModel, ConvertErrorModel> {
    if json_schema is Some && json_schema->0@.len() == 0 {
        Err(ConvertErrorModel::InvalidArgument("legacy json_schema must not be empty"@))
    } else if regex is Some && regex->0@.len() == 0 {
        Err(ConvertErrorModel::InvalidArgument("legacy regex must not be empty"@))
    } else {
        Ok(
            SamplingModel {
                json_schema: match json_schema {
                    Some(value) => Setting::Explicit(value@),
                    None => params.json_schema,
                },
                regex: match regex {
                    Some(value) => Setting::Explicit(value@),
                    None => params.regex,
                },
                ..params
            },
        )
    }
}

/// The stop tokens, widened.
pub open spec fn widened(tokens: Seq<i32>) -> Seq<i64> {
    tokens.map_values(|token: i32| token as i64)
}

/// What the client asked for, without any constraint. Empty stop lists count as
/// absent.
pub open spec fn asked_model(params: proto::SamplingParams) -> SamplingModel {
    SamplingModel {
        temperature: asked(params.temperature),
        top_p: asked(params.top_p),
        top_k: asked_number(params.top_k),
        min_p: asked(params.min_p),
        frequency_penalty: asked(params.frequency_penalty),
        presence_penalty: asked(params.presence_penalty),
        repetition_penalty: asked(params.repetition_penalty),
        max_new_tokens: asked_number(params.max_new_tokens),
        min_new_tokens: asked_number(params.min_new_tokens),
        stop: if params.stop@.len() > 0 {
            Setting::Explicit(OneOrManyModel::Many(texts(params.stop@)))
        } else {
            Setting::Unset
        },
        stop_token_ids: if params.stop_token_ids@.len() > 0 {
            Setting::Explicit(widened(params.stop_token_ids@))
        } else {
            Setting::Unset
        },
        ignore_eos: asked(params.ignore_eos),
        n: asked_number(params.n),
        sampling_seed: asked(params.seed),
        json_schema: Setting::Unset,
        regex: Setting::Unset,
        ebnf: Setting::Unset,
        structural_tag: Setting::Unset,
    }
}

/// The parameters with the launch-time preferences, or why they cannot be used.
pub open spec fn preferred_model(
    params: SamplingModel,
    preferred: Option<&PreferredSamplingParams>,
) -> Result<SamplingModel, ConvertErrorModel> {
    match preferred {
        None => Ok(params),
        Some(PreferredSamplingParams::Values(values)) => Ok(params.with_preferred(*values)),
        Some(PreferredSamplingParams::Invalid(reason)) => Err(
            ConvertErrorModel::Internal("invalid preferred_sampling_params: "@ + reason@),
        ),
    }
}

/// The sampling parameters of a request, or why they are refused.
pub open spec fn sampling_model(
    params: Option<proto::SamplingParams>,
    preferred: Option<&PreferredSamplingParams>,
) -> Result<SamplingModel, ConvertErrorModel> {
    match params {
        None => preferred_model(SamplingModel::unset(), preferred),
        Some(params) => {
            let constrained = match params.guided_decoding {
                Some(guided) => if params.json_schema is Some || params.regex is Some {
                    Err(
                        ConvertErrorModel::InvalidArgument(
                            "legacy json_schema/regex cannot be combined with guided_decoding"@,
                        ),
                    )
                } else {
                    guided_model(asked_model(params), guided)
                },
                None => legacy_model(asked_model(params), params.json_schema, params.regex),
            };
            match constrained {
                Ok(output) => preferred_model(output, preferred),
                Err(error) => Err(error),
            }
        },
    }
}

/// Fills in the launch-time preferences.
fn apply_preferences(
    output: SamplingParams,
    preferred: Option<&PreferredSamplingParams>,
) -> (result: ConvertResult<SamplingParams>)
    ensures
        sampling_result(result) == preferred_model(output@, preferred),
{
    let mut output = output;
    if let Some(preferred) = preferred {
        if let Err(reason) = output.apply_preferred(preferred) {
            return Err(
                ConvertError::internal(
                    concat2("invalid preferred_sampling_params: ", reason.as_str()),
                ),
            );
        }
    }
    Ok(output)
}

/// A value that the client asked for.
fn ask<T>(value: Option<T>) -> (setting: Setting<T>)
    ensures
        setting == asked(value),
{
    match value {
        Some(value) => Setting::Explicit(value),
        None => Setting::Unset,
    }
}

/// A number that the client asked for.
fn ask_number(value: Option<i32>) -> (setting: Setting<i64>)
    ensures
        setting == asked_number(value),
{
    match value {
        Some(value) => Setting::Explicit(value as i64),
        None => Setting::Unset,
    }
}

/// Widens the stop tokens.
fn widen(tokens: &Vec<i32>) -> (wide: Vec<i64>)
    ensures
        wide@ == widened(tokens@),
{
    let mut wide: Vec<i64> = Vec::new();
    for i in 0..tokens.len()
        invariant
            wide@ == widened(tokens@).take(i as int),
    {
        wide.push(tokens[i] as i64);
        assert(wide@ =~= widened(tokens@).take(i + 1));
    }
    assert(wide@ =~= widened(tokens@));
    wide
}

/// Converts sampling parameters.
///
/// What the client asked for comes first, then what the launch configuration
/// prefers, then the runtime's defaults. An empty stop list cannot be told from
/// an absent one and counts as absent.
pub fn convert_sampling_params(
    params: Option<proto::SamplingParams>,
    preferred: Option<&PreferredSamplingParams>,
) -> (result: ConvertResult<SamplingParams>)
    ensures
        sampling_result(result) == sampling_model(params, preferred),
{
    let mut output = SamplingParams::default();
    let params = match params {
        Some(params) => params,
        None => {
            return apply_preferences(output, preferred);
        },
    };
    if params.guided_decoding.is_some() && (params.json_schema.is_some()
        || params.regex.is_some()) {
        return Err(
            ConvertError::invalid_argument(
                "legacy json_schema/regex cannot be combined with guided_decoding",
            ),
        );
    }
    let ghost asked_for = asked_model(params);
    output.temperature = ask(params.temperature);
    output.top_p = ask(params.top_p);
    output.top_k = ask_number(params.top_k);
    output.min_p = ask(params.min_p);
    output.frequency_penalty = ask(params.frequency_penalty);
    output.presence_penalty = ask(params.presence_penalty);
    output.repetition_penalty = ask(params.repetition_penalty);
    output.max_new_tokens = ask_number(params.max_new_tokens);
    output.min_new_tokens = ask_number(params.min_new_tokens);
    if !params.stop.is_empty() {
        output.stop = Setting::Explicit(OneOrMany::Many(params.stop));
    }
    if !params.stop_token_ids.is_empty() {
        output.stop_token_ids = Setting::Explicit(widen(&params.stop_token_ids));
    }
    output.ignore_eos = ask(params.ignore_eos);
    output.n = ask_number(params.n);
    output.sampling_seed = ask(params.seed);
    assert(output@ == asked_for);

    if let Some(guided) = params.guided_decoding {
        if let Err(error) = apply_guided_decoding(&mut output, guided) {
            return Err(error);
        }
    } else {
        if let Some(value) = params.json_schema {
            if value.as_str().is_empty() {
                return Err(ConvertError::invalid_argument("legacy json_schema must not be empty"));
            }
            output.json_schema = Setting::Explicit(value);
        }
        if let Some(value) = params.regex {
            if value.as_str().is_empty() {
                return Err(ConvertError::invalid_argument("legacy regex must not be empty"));
            }
            output.regex = Setting::Explicit(value);
        }
    }
    apply_preferences(output, preferred)
}

/// Where the other server of a disaggregated pair can be reached.
pub open spec fn disaggregated_model(params: Option<proto::DisaggregatedParams>) -> (
    Option<Seq<char>>,
    Option<int>,
    Option<int>,
) {
    match params {
        Some(params) => (
            Some(params.bootstrap_host@),
            Some(params.bootstrap_port as int),
            Some(params.bootstrap_room as int),
        ),
        None => (None, None, None),
    }
}

/// Splits the address of the other server into its parts: all of them, or none.
pub fn disaggregated_fields(params: Option<proto::DisaggregatedParams>) -> (fields: (
    Option<String>,
    Option<i64>,
    Option<i64>,
))
    ensures
        (opt_text(fields.0), opt_int(fields.1), opt_int(fields.2)) == disaggregated_model(params),
{
    match params {
        Some(params) => (
            Some(params.bootstrap_host),
            Some(params.bootstrap_port as i64),
            Some(params.bootstrap_room),
        ),
        None => (None, None, None),
    }
}

/// An optional number, with a value for its absence.
pub open spec fn number_or(number: Option<i32>, absent: int) -> int {
    match number {
        Some(number) => number as int,
        None => absent,
    }
}

/// An optional number as an integer.
pub open spec fn opt_number(number: Option<i32>) -> Option<int> {
    match number {
        Some(number) => Some(number as int),
        None => None,
    }
}

/// An optional flag; an absent one is off.
pub open spec fn flag(value: Option<bool>) -> bool {
    value == Some(true)
}

/// An optional number, with a value for its absence.
fn widen_or(number: Option<i32>, absent: i64) -> (wide: i64)
    ensures
        wide == number_or(number, absent as int),
{
    match number {
        Some(number) => number as i64,
        None => absent,
    }
}

/// An optional number.
fn widen_opt(number: Option<i32>) -> (wide: Option<i64>)
    ensures
        opt_int(wide) == opt_number(number),
{
    match number {
        Some(number) => Some(number as i64),
        None => None,
    }
}

/// An optional flag; an absent one is off.
fn flag_on(value: Option<bool>) -> (on: bool)
    ensures
        on == flag(value),
{
    match value {
        Some(value) => value,
        None => false,
    }
}

/// Whether each field that the frontend has no use for is present, under its
/// name.
pub open spec fn unsupported_fields(
    lora_path: bool,
    routing_key: bool,
    trace_headers: bool,
    session_id: bool,
    priority: bool,
    require_reasoning: bool,
    max_thinking_tokens: bool,
) -> Seq<(&'static str, bool)> {
    seq![
        ("lora_path", lora_path),
        ("routing_key", routing_key),
        ("trace_headers", trace_headers),
        ("session_id", session_id),
        ("priority", priority),
        ("require_reasoning", require_reasoning),
        ("max_thinking_tokens", max_thinking_tokens),
    ]
}

/// The unsupported fields of a text request.
pub open spec fn text_unsupported(request: proto::TextGenerateRequest) -> Seq<
    (&'static str, bool),
> {
    unsupported_fields(
        request.lora_path is Some,
        request.routing_key is Some,
        request.trace_headers@.len() > 0,
        request.session_id is Some,
        request.priority is Some,
        request.require_reasoning is Some,
        request.max_thinking_tokens is Some,
    )
}

/// The unsupported fields of a token request.
pub open spec fn token_unsupported(request: proto::GenerateRequest) -> Seq<(&'static str, bool)> {
    unsupported_fields(
        request.lora_path is Some,
        request.routing_key is Some,
        request.trace_headers@.len() > 0,
        request.session_id is Some,
        request.priority is Some,
        request.require_reasoning is Some,
        request.max_thinking_tokens is Some,
    )
}

/// What a converted request means.
pub open spec fn request_result(result: ConvertResult<FrontendRequest>) -> Result<
    RequestModel,
    ConvertErrorModel,
> {
    match result {
        Ok(request) => Ok(request@),
        Err(error) => Err(error@),
    }
}

/// The request that a text request becomes, or why it is refused.
pub open spec fn text_generate_model(
    request: proto::TextGenerateRequest,
    preferred: Option<&PreferredSamplingParams>,
    minted: Seq<char>,
) -> Result<RequestModel, ConvertErrorModel> {
    if present_names(text_unsupported(request)).len() > 0 {
        Err(unsupported_error(present_names(text_unsupported(request))))
    } else {
        match sampling_model(request.sampling_params, preferred) {
            Err(error) => Err(error),
            Ok(sampling_params) => {
                let bootstrap = disaggregated_model(request.disaggregated_params);
                Ok(
                    RequestModel {
                        rid: request_id_model(request.rid, minted),
                        text: Some(request.text@),
                        sampling_params,
                        stream: flag(request.stream),
                        return_logprob: flag(request.return_logprob),
                        logprob_start_len: number_or(request.logprob_start_len, -1),
                        top_logprobs_num: number_or(request.top_logprobs_num, 0),
                        return_text_in_logprobs: request.return_text_in_logprobs,
                        bootstrap_host: bootstrap.0,
                        bootstrap_port: bootstrap.1,
                        bootstrap_room: bootstrap.2,
                        routed_dp_rank: opt_number(request.routed_dp_rank),
                        ..RequestModel::plain(request_id_model(request.rid, minted))
                    },
                )
            },
        }
    }
}

/// The request that a token request becomes, or why it is refused.
pub open spec fn generate_model(
    request: proto::GenerateRequest,
    preferred: Option<&PreferredSamplingParams>,
    minted: Seq<char>,
) -> Result<RequestModel, ConvertErrorModel> {
    if present_names(token_unsupported(request)).len() > 0 {
        Err(unsupported_error(present_names(token_unsupported(request))))
    } else if request.input_ids@.len() == 0 {
        Err(ConvertErrorModel::InvalidArgument("input_ids cannot be empty"@))
    } else {
        match sampling_model(request.sampling_params, preferred) {
            Err(error) => Err(error),
            Ok(sampling_params) => {
                let bootstrap = disaggregated_model(request.disaggregated_params);
                Ok(
                    RequestModel {
                        rid: request_id_model(request.rid, minted),
                        input_ids: Some(request.input_ids@),
                        sampling_params,
                        stream: flag(request.stream),
                        return_logprob: flag(request.return_logprob),
                        logprob_start_len: number_or(request.logprob_start_len, -1),
                        top_logprobs_num: number_or(request.top_logprobs_num, 0),
                        bootstrap_host: bootstrap.0,
                        bootstrap_port: bootstrap.1,
                        bootstrap_room: bootstrap.2,
                        routed_dp_rank: opt_number(request.routed_dp_rank),
                        ..RequestModel::plain(request_id_model(request.rid, minted))
                    },
                )
            },
        }
    }
}

/// Converts a text request. `minted` is a fresh name for the request.
pub fn text_generate(
    request: proto::TextGenerateRequest,
    preferred: Option<&PreferredSamplingParams>,
    minted: &str,
) -> (result: ConvertResult<FrontendRequest>)
    ensures
        request_result(result) == text_generate_model(request, preferred, minted@),
        result matches Ok(converted) ==> {
            &&& converted.text matches Some(text) && text@ == request.text@
            &&& converted.input_ids is None
            &&& converted.return_text_in_logprobs == request.return_text_in_logprobs
            &&& converted.stream <==> request.stream == Some(true)
            &&& converted.return_logprob <==> request.return_logprob == Some(true)
            &&& request.logprob_start_len matches Some(number)
                ==> converted.logprob_start_len == number
            &&& request.logprob_start_len is None ==> converted.logprob_start_len == -1
            &&& request.top_logprobs_num matches Some(number) ==> converted.top_logprobs_num
                == number
            &&& request.top_logprobs_num is None ==> converted.top_logprobs_num == 0
            &&& request.routed_dp_rank matches Some(number) ==> converted.routed_dp_rank
                == Some(number as i64)
            &&& request.routed_dp_rank is None ==> converted.routed_dp_rank is None
            &&& converted.bootstrap_host is Some <==> request.disaggregated_params is Some
            &&& converted.bootstrap_port is Some <==> request.disaggregated_params is Some
            &&& converted.bootstrap_room is Some <==> request.disaggregated_params is Some
            &&& request.disaggregated_params matches Some(other) ==> {
                &&& converted.bootstrap_host->0@ == other.bootstrap_host@
                &&& converted.bootstrap_port->0 == other.bootstrap_port
                &&& converted.bootstrap_room->0 == other.bootstrap_room
            }
            &&& converted.rid@.internal == minted@
            &&& request.rid matches Some(name) ==> converted.rid@.public == name@
            &&& request.rid is None ==> converted.rid@.public == minted@
            &&& !converted.skip_special_tokens && !converted.return_hidden_states
                && !converted.return_sampling_mask && converted.mm is None
                && converted.token_ids_logprob is None
        },
{
    let fields = [
        ("lora_path", request.lora_path.is_some()),
        ("routing_key", request.routing_key.is_some()),
        ("trace_headers", !request.trace_headers.is_empty()),
        ("session_id", request.session_id.is_some()),
        ("priority", request.priority.is_some()),
        ("require_reasoning", request.require_reasoning.is_some()),
        ("max_thinking_tokens", request.max_thinking_tokens.is_some()),
    ];
    assert(fields@ =~= text_unsupported(request));
    if let Err(error) = reject_unsupported(fields.as_slice()) {
        return Err(error);
    }
    let (bootstrap_host, bootstrap_port, bootstrap_room) = disaggregated_fields(
        request.disaggregated_params,
    );
    let sampling_params = match convert_sampling_params(request.sampling_params, preferred) {
        Ok(sampling_params) => sampling_params,
        Err(error) => {
            return Err(error);
        },
    };
    Ok(
        FrontendRequest {
            rid: request_id(request.rid, minted),
            text: Some(request.text),
            input_ids: None,
            skip_special_tokens: false,
            sampling_params,
            stream: flag_on(request.stream),
            return_logprob: flag_on(request.return_logprob),
            logprob_start_len: widen_or(request.logprob_start_len, -1),
            top_logprobs_num: widen_or(request.top_logprobs_num, 0),
            token_ids_logprob: None,
            return_sampling_mask: false,
            return_hidden_states: false,
            return_text_in_logprobs: request.return_text_in_logprobs,
            bootstrap_host,
            bootstrap_port,
            bootstrap_room,
            bootstrap_pair_key: None,
            decode_tp_size: None,
            routed_dp_rank: widen_opt(request.routed_dp_rank),
            disagg_prefill_dp_rank: None,
            mm: None,
        },
    )
}

/// Converts a token request. `minted` is a fresh name for the request.
pub fn generate(
    request: proto::GenerateRequest,
    preferred: Option<&PreferredSamplingParams>,
    minted: &str,
) -> (result: ConvertResult<FrontendRequest>)
    ensures
        request_result(result) == generate_model(request, preferred, minted@),
        result matches Ok(converted) ==> {
            &&& converted.input_ids matches Some(tokens) && tokens@ == request.input_ids@
            &&& converted.text is None
            &&& converted.return_text_in_logprobs is None
            &&& converted.stream <==> request.stream == Some(true)
            &&& converted.return_logprob <==> request.return_logprob == Some(true)
            &&& request.logprob_start_len matches Some(number)
                ==> converted.logprob_start_len == number
            &&& request.logprob_start_len is None ==> converted.logprob_start_len == -1
            &&& request.top_logprobs_num matches Some(number) ==> converted.top_logprobs_num
                == number
            &&& request.top_logprobs_num is None ==> converted.top_logprobs_num == 0
            &&& request.routed_dp_rank matches Some(number) ==> converted.routed_dp_rank
                == Some(number as i64)
            &&& request.routed_dp_rank is None ==> converted.routed_dp_rank is None
            &&& converted.bootstrap_host is Some <==> request.disaggregated_params is Some
            &&& converted.bootstrap_port is Some <==> request.disaggregated_params is Some
            &&& converted.bootstrap_room is Some <==> request.disaggregated_params is Some
            &&& request.disaggregated_params matches Some(other) ==> {
                &&& converted.bootstrap_host->0@ == other.bootstrap_host@
                &&& converted.bootstrap_port->0 == other.bootstrap_port
                &&& converted.bootstrap_room->0 == other.bootstrap_room
            }
            &&& converted.rid@.internal == minted@
            &&& request.rid matches Some(name) ==> converted.rid@.public == name@
            &&& request.rid is None ==> converted.rid@.public == minted@
            &&& !converted.skip_special_tokens && !converted.return_hidden_states
                && !converted.return_sampling_mask && converted.mm is None
                && converted.token_ids_logprob is None
        },
{
    let fields = [
        ("lora_path", request.lora_path.is_some()),
        ("routing_key", request.routing_key.is_some()),
        ("trace_headers", !request.trace_headers.is_empty()),
        ("session_id", request.session_id.is_some()),
        ("priority", request.priority.is_some()),
        ("require_reasoning", request.require_reasoning.is_some()),
        ("max_thinking_tokens", request.max_thinking_tokens.is_some()),
    ];
    assert(fields@ =~= token_unsupported(request));
    if let Err(error) = reject_unsupported(fields.as_slice()) {
        return Err(error);
    }
    if request.input_ids.is_empty() {
        return Err(ConvertError::invalid_argument("input_ids cannot be empty"));
    }
    let (bootstrap_host, bootstrap_port, bootstrap_room) = disaggregated_fields(
        request.disaggregated_params,
    );
    let sampling_params = match convert_sampling_params(request.sampling_params, preferred) {
        Ok(sampling_params) => sampling_params,
        Err(error) => {
            return Err(error);
        },
    };
    Ok(
        FrontendRequest {
            rid: request_id(request.rid, minted),
            text: None,
            input_ids: Some(request.input_ids),
            skip_special_tokens: false,
            sampling_params,
            stream: flag_on(request.stream),
            return_logprob: flag_on(request.return_logprob),
            logprob_start_len: widen_or(request.logprob_start_len, -1),
            top_logprobs_num: widen_or(request.top_logprobs_num, 0),
            token_ids_logprob: None,
            return_sampling_mask: false,
            return_hidden_states: false,
            return_text_in_logprobs: None,
            bootstrap_host,
            bootstrap_port,
            bootstrap_room,
            bootstrap_pair_key: None,
            decode_tp_size: None,
            routed_dp_rank: widen_opt(request.routed_dp_rank),
            disagg_prefill_dp_rank: None,
            mm: None,
        },
    )
}

/// A field that is present is named.
proof fn lemma_present_field_is_named(fields: Seq<(&str, bool)>, i: int)
    requires
        0 <= i < fields.len(),
        fields[i].1,
    ensures
        present_names(fields).contains(fields[i].0@),
    decreases fields.len(),
{
    let rest = present_names(fields.drop_last());
    if i == fields.len() - 1 {
        assert(present_names(fields)[rest.len() as int] == fields[i].0@);
    } else {
        lemma_present_field_is_named(fields.drop_last(), i);
        let k = choose|k: int| 0 <= k < rest.len() && rest[k] == fields[i].0@;
        assert(present_names(fields)[k] == fields[i].0@);
    }
}

/// Fields that are all absent leave nothing to name.
proof fn lemma_absent_fields_are_not_named(fields: Seq<(&str, bool)>)
    requires
        forall|i: int| 0 <= i < fields.len() ==> !(#[trigger] fields[i]).1,
    ensures
        present_names(fields).len() == 0,
    decreases fields.len(),
{
    if fields.len() > 0 {
        lemma_absent_fields_are_not_named(fields.drop_last());
    }
}

/// A text request is refused as unsupported exactly when it carries one of the
/// fields that the frontend has no use for. Nothing is silently dropped.
pub proof fn law_unsupported_text_fields_are_refused(
    request: proto::TextGenerateRequest,
    preferred: Option<&PreferredSamplingParams>,
    minted: Seq<char>,
)
    ensures
        (text_generate_model(request, preferred, minted) matches Err(
            ConvertErrorModel::Unsupported(_),
        )) <==> (request.lora_path is Some || request.routing_key is Some
            || request.trace_headers@.len() > 0 || request.session_id is Some
            || request.priority is Some || request.require_reasoning is Some
            || request.max_thinking_tokens is Some),
{
    lemma_unsupported_fields(text_unsupported(request));
}

/// The same holds of a token request.
pub proof fn law_unsupported_token_fields_are_refused(
    request: proto::GenerateRequest,
    preferred: Option<&PreferredSamplingParams>,
    minted: Seq<char>,
)
    ensures
        (generate_model(request, preferred, minted) matches Err(
            ConvertErrorModel::Unsupported(_),
        )) <==> (request.lora_path is Some || request.routing_key is Some
            || request.trace_headers@.len() > 0 || request.session_id is Some
            || request.priority is Some || request.require_reasoning is Some
            || request.max_thinking_tokens is Some),
{
    lemma_unsupported_fields(token_unsupported(request));
}

/// Something is named exactly when one of the fields is present.
proof fn lemma_unsupported_fields(fields: Seq<(&str, bool)>)
    requires
        fields.len() == 7,
    ensures
        present_names(fields).len() > 0 <==> (fields[0].1 || fields[1].1 || fields[2].1
            || fields[3].1 || fields[4].1 || fields[5].1 || fields[6].1),
{
    if exists|i: int| 0 <= i < fields.len() && (#[trigger] fields[i]).1 {
        let i = choose|i: int| 0 <= i < fields.len() && (#[trigger] fields[i]).1;
        lemma_present_field_is_named(fields, i);
    } else {
        lemma_absent_fields_are_not_named(fields);
    }
}

/// Both kinds of request are converted alike but for their prompt, and for the
/// texts in logprobs that only a text request can ask for.
pub proof fn law_text_and_token_requests_agree(
    text: proto::TextGenerateRequest,
    tokens: proto::GenerateRequest,
    preferred: Option<&PreferredSamplingParams>,
    minted: Seq<char>,
)
    requires
        tokens.input_ids@.len() > 0,
        text.return_text_in_logprobs is None,
        text.sampling_params == tokens.sampling_params,
        text.stream == tokens.stream,
        text.return_logprob == tokens.return_logprob,
        text.top_logprobs_num == tokens.top_logprobs_num,
        text.logprob_start_len == tokens.logprob_start_len,
        text.rid == tokens.rid,
        text.routed_dp_rank == tokens.routed_dp_rank,
        text.disaggregated_params == tokens.disaggregated_params,
        text_unsupported(text) == token_unsupported(tokens),
    ensures
        match (
            text_generate_model(text, preferred, minted),
            generate_model(tokens, preferred, minted),
        ) {
            (Ok(left), Ok(right)) => left == (RequestModel {
                text: Some(text.text@),
                input_ids: None,
                ..right
            }),
            (Err(left), Err(right)) => left == right,
            _ => false,
        },
{
}

/// The prefill address of a converted request has all its parts or none.
pub proof fn law_bootstrap_fields_come_together(params: Option<proto::DisaggregatedParams>)
    ensures
        ({
            let (host, port, room) = disaggregated_model(params);
            &&& host is Some <==> port is Some
            &&& port is Some <==> room is Some
            &&& host is Some <==> params is Some
        }),
{
}

/// Whatever the client asked for survives the launch-time preferences.
pub proof fn law_client_sampling_wins(
    params: proto::SamplingParams,
    preferred: Option<&PreferredSamplingParams>,
)
    ensures
        sampling_model(Some(params), preferred) matches Ok(output) ==> {
            &&& params.temperature is Some ==> output.temperature.given() == params.temperature
            &&& params.top_p is Some ==> output.top_p.given() == params.top_p
            &&& params.min_p is Some ==> output.min_p.given() == params.min_p
            &&& params.frequency_penalty is Some ==> output.frequency_penalty.given()
                == params.frequency_penalty
            &&& params.presence_penalty is Some ==> output.presence_penalty.given()
                == params.presence_penalty
            &&& params.repetition_penalty is Some ==> output.repetition_penalty.given()
                == params.repetition_penalty
            &&& params.top_k is Some ==> output.top_k.given() == Some(params.top_k->0 as i64)
            &&& params.max_new_tokens is Some ==> output.max_new_tokens.given() == Some(
                params.max_new_tokens->0 as i64,
            )
            &&& params.min_new_tokens is Some ==> output.min_new_tokens.given() == Some(
                params.min_new_tokens->0 as i64,
            )
            &&& params.n is Some ==> output.n.given() == Some(params.n->0 as i64)
            &&& params.seed is Some ==> output.sampling_seed.given() == params.seed
            &&& params.ignore_eos is Some ==> output.ignore_eos.given() == params.ignore_eos
            &&& params.stop@.len() > 0 ==> output.stop.given() == Some(
                OneOrManyModel::Many(texts(params.stop@)),
            )
            &&& params.stop_token_ids@.len() > 0 ==> output.stop_token_ids.given() == Some(
                widened(params.stop_token_ids@),
            )
        },
{
}

/// Reads a regular expression of escaped alternatives: the characters up to the
/// next bare bar, each without its escape, are one alternative.
pub open spec fn alternatives(regex: Seq<char>, current: Seq<char>) -> Seq<Seq<char>>
    decreases regex.len(),
{
    if regex.len() == 0 {
        seq![current]
    } else if regex[0] == '\\' && regex.len() > 1 {
        alternatives(regex.skip(2), current.push(regex[1]))
    } else if regex[0] == '|' {
        seq![current] + alternatives(regex.skip(1), seq![])
    } else {
        alternatives(regex.skip(1), current.push(regex[0]))
    }
}

/// An escaped text is read back as the text.
proof fn lemma_escaped_is_read_back(text: Seq<char>, rest: Seq<char>, current: Seq<char>)
    ensures
        alternatives(escaped(text) + rest, current) == alternatives(rest, current + text),
    decreases text.len(),
{
    if text.len() == 0 {
        assert(escaped(text) + rest =~= rest);
        assert(current + text =~= current);
    } else {
        let front = text.drop_last();
        let last = text.last();
        let tail = escaped_char(last) + rest;
        assert(escaped(text) + rest =~= escaped(front) + tail);
        lemma_escaped_is_read_back(front, tail, current);
        assert((current + front).push(last) =~= current + text);
        if is_meta(last) {
            assert(tail.skip(2) =~= rest);
        } else {
            assert(tail.skip(1) =~= rest);
        }
    }
}

/// Joining can also be unrolled from the front.
proof fn lemma_joined_front(parts: Seq<Seq<char>>, separator: Seq<char>)
    requires
        parts.len() > 1,
    ensures
        joined(parts, separator) == parts[0] + separator + joined(parts.drop_first(), separator),
    decreases parts.len(),
{
    let rest = parts.drop_first();
    assert(rest.last() == parts.last());
    if parts.len() == 2 {
        reveal_with_fuel(joined, 3);
        assert(parts.drop_last()[0] == parts[0]);
        assert(joined(parts, separator) =~= parts[0] + separator + joined(rest, separator));
    } else {
        lemma_joined_front(parts.drop_last(), separator);
        assert(parts.drop_last().drop_first() =~= rest.drop_last());
        assert(joined(parts, separator) =~= parts[0] + separator + joined(rest, separator));
    }
}

/// The alternatives of a guided choice are exactly its values, whatever
/// characters they hold: reading the escaped alternatives gives them back.
pub proof fn law_choice_alternatives_are_the_values(values: Seq<Seq<char>>)
    requires
        values.len() > 0,
    ensures
        alternatives(joined(escaped_all(values), "|"@), seq![]) == values,
    decreases values.len(),
{
    let parts = escaped_all(values);
    let empty: Seq<char> = seq![];
    reveal_strlit("|");
    if values.len() == 1 {
        lemma_escaped_is_read_back(values[0], empty, empty);
        assert(escaped(values[0]) + empty =~= escaped(values[0]));
        assert(empty + values[0] =~= values[0]);
        assert(alternatives(joined(parts, "|"@), empty) =~= values);
    } else {
        let rest = values.drop_first();
        law_choice_alternatives_are_the_values(rest);
        assert(parts.drop_first() =~= escaped_all(rest));
        lemma_joined_front(parts, "|"@);
        let tail = "|"@ + joined(escaped_all(rest), "|"@);
        assert(joined(parts, "|"@) =~= escaped(values[0]) + tail);
        lemma_escaped_is_read_back(values[0], tail, empty);
        assert(empty + values[0] =~= values[0]);
        assert(tail[0] == '|');
        assert(tail.skip(1) =~= joined(escaped_all(rest), "|"@));
        assert(alternatives(joined(parts, "|"@), empty) =~= values);
    }
}

/// A text request that is accepted asks for exactly what the client asked for:
/// every field of the converted request is the client's own, or the default of a
/// field that the client left out.
pub proof fn law_text_requests_keep_what_was_asked(
    request: proto::TextGenerateRequest,
    preferred: Option<&PreferredSamplingParams>,
    minted: Seq<char>,
)
    ensures
        text_generate_model(request, preferred, minted) matches Ok(result) ==> {
            &&& result.text == Some(request.text@)
            &&& result.input_ids is None
            &&& result.return_text_in_logprobs == request.return_text_in_logprobs
            &&& result.stream <==> request.stream == Some(true)
            &&& result.return_logprob <==> request.return_logprob == Some(true)
            &&& result.logprob_start_len == match request.logprob_start_len {
                Some(number) => number as int,
                None => -1,
            }
            &&& result.top_logprobs_num == match request.top_logprobs_num {
                Some(number) => number as int,
                None => 0,
            }
            &&& result.routed_dp_rank == match request.routed_dp_rank {
                Some(number) => Some(number as int),
                None => None,
            }
            &&& request.disaggregated_params matches Some(other) ==> result.bootstrap_host == Some(
                other.bootstrap_host@,
            ) && result.bootstrap_port == Some(other.bootstrap_port as int)
                && result.bootstrap_room == Some(other.bootstrap_room as int)
            &&& request.disaggregated_params is None ==> result.bootstrap_host is None
                && result.bootstrap_port is None && result.bootstrap_room is None
            &&& result.rid.internal == minted
            &&& result.rid.public == match request.rid {
                Some(name) => name@,
                None => minted,
            }
            &&& sampling_model(request.sampling_params, preferred) == Ok::<
                SamplingModel,
                ConvertErrorModel,
            >(result.sampling_params)
            &&& !result.skip_special_tokens && !result.return_hidden_states
                && !result.return_sampling_mask
            &&& result.token_ids_logprob is None && result.images is None
                && result.bootstrap_pair_key is None && result.decode_tp_size is None
                && result.disagg_prefill_dp_rank is None
        },
{
}

/// The same holds of a token request.
pub proof fn law_token_requests_keep_what_was_asked(
    request: proto::GenerateRequest,
    preferred: Option<&PreferredSamplingParams>,
    minted: Seq<char>,
)
    ensures
        generate_model(request, preferred, minted) matches Ok(result) ==> {
            &&& result.input_ids == Some(request.input_ids@)
            &&& result.text is None
            &&& result.return_text_in_logprobs is None
            &&& result.stream <==> request.stream == Some(true)
            &&& result.return_logprob <==> request.return_logprob == Some(true)
            &&& result.logprob_start_len == match request.logprob_start_len {
                Some(number) => number as int,
                None => -1,
            }
            &&& result.top_logprobs_num == match request.top_logprobs_num {
                Some(number) => number as int,
                None => 0,
            }
            &&& result.routed_dp_rank == match request.routed_dp_rank {
                Some(number) => Some(number as int),
                None => None,
            }
            &&& request.disaggregated_params matches Some(other) ==> result.bootstrap_host == Some(
                other.bootstrap_host@,
            ) && result.bootstrap_port == Some(other.bootstrap_port as int)
                && result.bootstrap_room == Some(other.bootstrap_room as int)
            &&& request.disaggregated_params is None ==> result.bootstrap_host is None
                && result.bootstrap_port is None && result.bootstrap_room is None
            &&& result.rid.internal == minted
            &&& result.rid.public == match request.rid {
                Some(name) => name@,
                None => minted,
            }
            &&& sampling_model(request.sampling_params, preferred) == Ok::<
                SamplingModel,
                ConvertErrorModel,
            >(result.sampling_params)
            &&& !result.skip_special_tokens && !result.return_hidden_states
                && !result.return_sampling_mask
            &&& result.token_ids_logprob is None && result.images is None
                && result.bootstrap_pair_key is None && result.decode_tp_size is None
                && result.disagg_prefill_dp_rank is None
        },
{
}

/// Which generation requests are accepted: those without a field that the frontend
/// has no use for, with prompt tokens where they are the prompt, and with sampling
/// parameters that make sense. A refused one is told the first of these that it
/// fails.
pub proof fn law_accepted_generation_requests(
    text: proto::TextGenerateRequest,
    tokens: proto::GenerateRequest,
    preferred: Option<&PreferredSamplingParams>,
    minted: Seq<char>,
)
    ensures
        ({
            let unsupported = text.lora_path is Some || text.routing_key is Some
                || text.trace_headers@.len() > 0 || text.session_id is Some || text.priority is Some
                || text.require_reasoning is Some || text.max_thinking_tokens is Some;
            &&& text_generate_model(text, preferred, minted) is Ok <==> !unsupported
                && sampling_model(text.sampling_params, preferred) is Ok
            &&& !unsupported && sampling_model(text.sampling_params, preferred) is Err
                ==> text_generate_model(text, preferred, minted)->Err_0 == sampling_model(
                text.sampling_params,
                preferred,
            )->Err_0
        }),
        ({
            let unsupported = tokens.lora_path is Some || tokens.routing_key is Some
                || tokens.trace_headers@.len() > 0 || tokens.session_id is Some
                || tokens.priority is Some || tokens.require_reasoning is Some
                || tokens.max_thinking_tokens is Some;
            &&& generate_model(tokens, preferred, minted) is Ok <==> !unsupported
                && tokens.input_ids@.len() > 0 && sampling_model(
                tokens.sampling_params,
                preferred,
            ) is Ok
            &&& !unsupported && tokens.input_ids@.len() == 0 ==> generate_model(
                tokens,
                preferred,
                minted,
            ) == Err::<RequestModel, ConvertErrorModel>(
                ConvertErrorModel::InvalidArgument("input_ids cannot be empty"@),
            )
            &&& !unsupported && tokens.input_ids@.len() > 0 && sampling_model(
                tokens.sampling_params,
                preferred,
            ) is Err ==> generate_model(tokens, preferred, minted)->Err_0 == sampling_model(
                tokens.sampling_params,
                preferred,
            )->Err_0
        }),
{
    lemma_unsupported_fields(text_unsupported(text));
    lemma_unsupported_fields(token_unsupported(tokens));
}

/// A refusal for unsupported fields names exactly those that are present, in the
/// order of the schema, with commas between them.
#[verifier::spinoff_prover]
#[verifier::rlimit(40)]
pub proof fn law_unsupported_text_fields_are_named(
    text: proto::TextGenerateRequest,
    preferred: Option<&PreferredSamplingParams>,
    minted: Seq<char>,
)
    ensures
        text_generate_model(text, preferred, minted) matches Err(
            ConvertErrorModel::Unsupported(message),
        ) ==> message == "the Rust frontend does not yet support runtime.v1 field(s): "@ + joined(
            seq![
                ("lora_path"@, text.lora_path is Some),
                ("routing_key"@, text.routing_key is Some),
                ("trace_headers"@, text.trace_headers@.len() > 0),
                ("session_id"@, text.session_id is Some),
                ("priority"@, text.priority is Some),
                ("require_reasoning"@, text.require_reasoning is Some),
                ("max_thinking_tokens"@, text.max_thinking_tokens is Some),
            ].filter(|field: (Seq<char>, bool)| field.1).map_values(
                |field: (Seq<char>, bool)| field.0,
            ),
            ", "@,
        ),
{
    lemma_unsupported_list(
        text.lora_path is Some,
        text.routing_key is Some,
        text.trace_headers@.len() > 0,
        text.session_id is Some,
        text.priority is Some,
        text.require_reasoning is Some,
        text.max_thinking_tokens is Some,
    );
}

/// The same holds of a token request.
#[verifier::spinoff_prover]
#[verifier::rlimit(40)]
pub proof fn law_unsupported_token_fields_are_named(
    tokens: proto::GenerateRequest,
    preferred: Option<&PreferredSamplingParams>,
    minted: Seq<char>,
)
    ensures
        generate_model(tokens, preferred, minted) matches Err(
            ConvertErrorModel::Unsupported(message),
        ) ==> message == "the Rust frontend does not yet support runtime.v1 field(s): "@ + joined(
            seq![
                ("lora_path"@, tokens.lora_path is Some),
                ("routing_key"@, tokens.routing_key is Some),
                ("trace_headers"@, tokens.trace_headers@.len() > 0),
                ("session_id"@, tokens.session_id is Some),
                ("priority"@, tokens.priority is Some),
                ("require_reasoning"@, tokens.require_reasoning is Some),
                ("max_thinking_tokens"@, tokens.max_thinking_tokens is Some),
            ].filter(|field: (Seq<char>, bool)| field.1).map_values(
                |field: (Seq<char>, bool)| field.0,
            ),
            ", "@,
        ),
{
    lemma_unsupported_list(
        tokens.lora_path is Some,
        tokens.routing_key is Some,
        tokens.trace_headers@.len() > 0,
        tokens.session_id is Some,
        tokens.priority is Some,
        tokens.require_reasoning is Some,
        tokens.max_thinking_tokens is Some,
    );
}

/// The names of the unsupported fields that are present.
proof fn lemma_unsupported_list(
    lora_path: bool,
    routing_key: bool,
    trace_headers: bool,
    session_id: bool,
    priority: bool,
    require_reasoning: bool,
    max_thinking_tokens: bool,
)
    ensures
        present_names(
            unsupported_fields(
                lora_path,
                routing_key,
                trace_headers,
                session_id,
                priority,
                require_reasoning,
                max_thinking_tokens,
            ),
        ) == seq![
            ("lora_path"@, lora_path),
            ("routing_key"@, routing_key),
            ("trace_headers"@, trace_headers),
            ("session_id"@, session_id),
            ("priority"@, priority),
            ("require_reasoning"@, require_reasoning),
            ("max_thinking_tokens"@, max_thinking_tokens),
        ].filter(|field: (Seq<char>, bool)| field.1).map_values(
            |field: (Seq<char>, bool)| field.0,
        ),
{
    let fields = unsupported_fields(
        lora_path,
        routing_key,
        trace_headers,
        session_id,
        priority,
        require_reasoning,
        max_thinking_tokens,
    );
    lemma_present_names_are_filtered(fields);
    assert(fields.map_values(|field: (&str, bool)| (field.0@, field.1)) =~= seq![
            ("lora_path"@, lora_path),
            ("routing_key"@, routing_key),
            ("trace_headers"@, trace_headers),
            ("session_id"@, session_id),
            ("priority"@, priority),
            ("require_reasoning"@, require_reasoning),
            ("max_thinking_tokens"@, max_thinking_tokens),
    ]);
}

/// The names of present fields are the list of fields without the absent ones.
proof fn lemma_present_names_are_filtered(fields: Seq<(&str, bool)>)
    ensures
        present_names(fields) == fields.map_values(
            |field: (&str, bool)| (field.0@, field.1),
        ).filter(|field: (Seq<char>, bool)| field.1).map_values(
            |field: (Seq<char>, bool)| field.0,
        ),
    decreases fields.len(),
{
    reveal(Seq::filter);
    let named = fields.map_values(|field: (&str, bool)| (field.0@, field.1));
    let kept = |field: (Seq<char>, bool)| field.1;
    let name = |field: (Seq<char>, bool)| field.0;
    if fields.len() > 0 {
        let front = fields.drop_last();
        lemma_present_names_are_filtered(front);
        let front_named = front.map_values(|field: (&str, bool)| (field.0@, field.1));
        assert(named.drop_last() =~= front_named);
        assert(named.last() == (fields.last().0@, fields.last().1));
        if fields.last().1 {
            assert(front_named.filter(kept).push(named.last()).map_values(name)
                =~= front_named.filter(kept).map_values(name).push(fields.last().0@));
        }
        assert(present_names(fields) =~= named.filter(kept).map_values(name));
    } else {
        assert(present_names(fields) =~= named.filter(kept).map_values(name));
    }
}

/// How each sampling parameter of an accepted request comes about: as the client
/// asked for it, else as the launch configuration prefers it, else it is left to
/// the runtime. An empty stop list counts as absent, a guided choice becomes a
/// regular expression, and a constraint sets its own parameter and no other.
pub proof fn law_sampling_parameters_keep_what_was_asked(
    params: proto::SamplingParams,
    preferred: Option<&PreferredSamplingParams>,
)
    ensures
        sampling_model(Some(params), preferred) matches Ok(output) ==> {
            &&& output.temperature == match (params.temperature, preferred) {
                (Some(value), _) => Setting::Explicit(value),
                (None, Some(PreferredSamplingParams::Values(values))) => match values.temperature {
                    Some(value) => Setting::Implied(value),
                    None => Setting::Unset,
                },
                (None, _) => Setting::Unset,
            }
            &&& output.top_p == match (params.top_p, preferred) {
                (Some(value), _) => Setting::Explicit(value),
                (None, Some(PreferredSamplingParams::Values(values))) => match values.top_p {
                    Some(value) => Setting::Implied(value),
                    None => Setting::Unset,
                },
                (None, _) => Setting::Unset,
            }
            &&& output.top_k == match (params.top_k, preferred) {
                (Some(value), _) => Setting::Explicit(value as i64),
                (None, Some(PreferredSamplingParams::Values(values))) => match values.top_k {
                    Some(value) => Setting::Implied(value),
                    None => Setting::Unset,
                },
                (None, _) => Setting::Unset,
            }
            &&& output.min_p == match (params.min_p, preferred) {
                (Some(value), _) => Setting::Explicit(value),
                (None, Some(PreferredSamplingParams::Values(values))) => match values.min_p {
                    Some(value) => Setting::Implied(value),
                    None => Setting::Unset,
                },
                (None, _) => Setting::Unset,
            }
            &&& output.frequency_penalty == match (params.frequency_penalty, preferred) {
                (Some(value), _) => Setting::Explicit(value),
                (None, Some(PreferredSamplingParams::Values(values))) => match values.frequency_penalty {
                    Some(value) => Setting::Implied(value),
                    None => Setting::Unset,
                },
                (None, _) => Setting::Unset,
            }
            &&& output.presence_penalty == match (params.presence_penalty, preferred) {
                (Some(value), _) => Setting::Explicit(value),
                (None, Some(PreferredSamplingParams::Values(values))) => match values.presence_penalty {
                    Some(value) => Setting::Implied(value),
                    None => Setting::Unset,
                },
                (None, _) => Setting::Unset,
            }
            &&& output.repetition_penalty == match (params.repetition_penalty, preferred) {
                (Some(value), _) => Setting::Explicit(value),
                (None, Some(PreferredSamplingParams::Values(values))) => match values.repetition_penalty {
                    Some(value) => Setting::Implied(value),
                    None => Setting::Unset,
                },
                (None, _) => Setting::Unset,
            }
            &&& output.max_new_tokens == match (params.max_new_tokens, preferred) {
                (Some(value), _) => Setting::Explicit(value as i64),
                (None, Some(PreferredSamplingParams::Values(values))) => match values.max_new_tokens {
                    Some(value) => Setting::Implied(value),
                    None => Setting::Unset,
                },
                (None, _) => Setting::Unset,
            }
            &&& output.min_new_tokens == match (params.min_new_tokens, preferred) {
                (Some(value), _) => Setting::Explicit(value as i64),
                (None, Some(PreferredSamplingParams::Values(values))) => match values.min_new_tokens {
                    Some(value) => Setting::Implied(value),
                    None => Setting::Unset,
                },
                (None, _) => Setting::Unset,
            }
            &&& output.ignore_eos == match (params.ignore_eos, preferred) {
                (Some(value), _) => Setting::Explicit(value),
                (None, Some(PreferredSamplingParams::Values(values))) => match values.ignore_eos {
                    Some(value) => Setting::Implied(value),
                    None => Setting::Unset,
                },
                (None, _) => Setting::Unset,
            }
            &&& output.n == match (params.n, preferred) {
                (Some(value), _) => Setting::Explicit(value as i64),
                (None, Some(PreferredSamplingParams::Values(values))) => match values.n {
                    Some(value) => Setting::Implied(value),
                    None => Setting::Unset,
                },
                (None, _) => Setting::Unset,
            }
            &&& output.sampling_seed == match (params.seed, preferred) {
                (Some(value), _) => Setting::Explicit(value),
                (None, Some(PreferredSamplingParams::Values(values))) => match values.sampling_seed {
                    Some(value) => Setting::Implied(value),
                    None => Setting::Unset,
                },
                (None, _) => Setting::Unset,
            }
            &&& output.stop == if params.stop@.len() > 0 {
                Setting::Explicit(
                    OneOrManyModel::Many(params.stop@.map_values(|text: String| text@)),
                )
            } else {
                match preferred {
                Some(PreferredSamplingParams::Values(values)) => match values.stop {
                    Some(value) => Setting::Implied(value@),
                    None => Setting::Unset,
                },
                _ => Setting::Unset,
            }
            }
            &&& output.stop_token_ids == if params.stop_token_ids@.len() > 0 {
                Setting::Explicit(params.stop_token_ids@.map_values(|token: i32| token as i64))
            } else {
                match preferred {
                Some(PreferredSamplingParams::Values(values)) => match values.stop_token_ids {
                    Some(value) => Setting::Implied(value@),
                    None => Setting::Unset,
                },
                _ => Setting::Unset,
            }
            }
            &&& output.json_schema == match params.guided_decoding {
                Some(guided) => match guided.constraint {
                    Some(proto::Constraint::JsonSchema(value)) => Setting::Explicit(value@),
                    _ => match preferred {
                Some(PreferredSamplingParams::Values(values)) => match values.json_schema {
                    Some(value) => Setting::Implied(value@),
                    None => Setting::Unset,
                },
                _ => Setting::Unset,
            },
                },
                None => match params.json_schema {
                    Some(value) => Setting::Explicit(value@),
                    None => match preferred {
                Some(PreferredSamplingParams::Values(values)) => match values.json_schema {
                    Some(value) => Setting::Implied(value@),
                    None => Setting::Unset,
                },
                _ => Setting::Unset,
            },
                },
            }
            &&& output.regex == match params.guided_decoding {
                Some(guided) => match guided.constraint {
                    Some(proto::Constraint::Regex(value)) => Setting::Explicit(value@),
                    Some(proto::Constraint::Choice(choice)) => Setting::Explicit(
                        choice_regex(choice.values@.map_values(|text: String| text@)),
                    ),
                    _ => match preferred {
                Some(PreferredSamplingParams::Values(values)) => match values.regex {
                    Some(value) => Setting::Implied(value@),
                    None => Setting::Unset,
                },
                _ => Setting::Unset,
            },
                },
                None => match params.regex {
                    Some(value) => Setting::Explicit(value@),
                    None => match preferred {
                Some(PreferredSamplingParams::Values(values)) => match values.regex {
                    Some(value) => Setting::Implied(value@),
                    None => Setting::Unset,
                },
                _ => Setting::Unset,
            },
                },
            }
            &&& output.ebnf == match params.guided_decoding {
                Some(guided) => match guided.constraint {
                    Some(proto::Constraint::Ebnf(value)) => Setting::Explicit(value@),
                    _ => match preferred {
                Some(PreferredSamplingParams::Values(values)) => match values.ebnf {
                    Some(value) => Setting::Implied(value@),
                    None => Setting::Unset,
                },
                _ => Setting::Unset,
            },
                },
                None => match preferred {
                Some(PreferredSamplingParams::Values(values)) => match values.ebnf {
                    Some(value) => Setting::Implied(value@),
                    None => Setting::Unset,
                },
                _ => Setting::Unset,
            },
            }
            &&& output.structural_tag == match params.guided_decoding {
                Some(guided) => match guided.constraint {
                    Some(proto::Constraint::StructuralTag(value)) => Setting::Explicit(value@),
                    _ => match preferred {
                Some(PreferredSamplingParams::Values(values)) => match values.structural_tag {
                    Some(value) => Setting::Implied(value@),
                    None => Setting::Unset,
                },
                _ => Setting::Unset,
            },
                },
                None => match preferred {
                Some(PreferredSamplingParams::Values(values)) => match values.structural_tag {
                    Some(value) => Setting::Implied(value@),
                    None => Setting::Unset,
                },
                _ => Setting::Unset,
            },
            }
        },
{
    assert(texts(params.stop@) =~= params.stop@.map_values(|text: String| text@));
    if let Some(guided) = params.guided_decoding {
        if let Some(proto::Constraint::Choice(choice)) = guided.constraint {
            assert(texts(choice.values@) =~= choice.values@.map_values(|text: String| text@));
        }
    }
}

/// A request without sampling parameters leaves everything to the launch
/// configuration and the runtime.
pub proof fn law_absent_sampling_parameters(preferred: Option<&PreferredSamplingParams>)
    ensures
        preferred is None ==> sampling_model(None, preferred) == Ok::<
            SamplingModel,
            ConvertErrorModel,
        >(SamplingModel::unset()),
        preferred matches Some(PreferredSamplingParams::Values(values)) ==> sampling_model(
            None,
            preferred,
        ) == Ok::<SamplingModel, ConvertErrorModel>(SamplingModel::unset().with_preferred(*values)),
        preferred matches Some(PreferredSamplingParams::Invalid(reason)) ==> sampling_model(
            None,
            preferred,
        ) == Err::<SamplingModel, ConvertErrorModel>(
            ConvertErrorModel::Internal("invalid preferred_sampling_params: "@ + reason@),
        ),
{
}

/// Which sampling parameters are refused, and with which words: two ways of
/// constraining the output at once, a constraint that is empty or missing, and
/// preferences of the launch configuration that cannot be used.
pub proof fn law_refused_sampling_parameters(
    params: proto::SamplingParams,
    preferred: Option<&PreferredSamplingParams>,
)
    ensures
        ({
            let legacy = params.json_schema is Some || params.regex is Some;
            let fault = match params.guided_decoding {
                Some(guided) => if legacy {
                    Some("legacy json_schema/regex cannot be combined with guided_decoding"@)
                } else {
                    match guided.constraint {
                        None => Some("guided decoding constraint must be specified"@),
                        Some(proto::Constraint::JsonSchema(value)) => if value@.len() == 0 {
                            Some("guided decoding constraint must not be empty"@)
                        } else {
                            None
                        },
                        Some(proto::Constraint::Regex(value)) => if value@.len() == 0 {
                            Some("guided decoding constraint must not be empty"@)
                        } else {
                            None
                        },
                        Some(proto::Constraint::Ebnf(value)) => if value@.len() == 0 {
                            Some("guided decoding constraint must not be empty"@)
                        } else {
                            None
                        },
                        Some(proto::Constraint::StructuralTag(value)) => if value@.len() == 0 {
                            Some("guided decoding constraint must not be empty"@)
                        } else {
                            None
                        },
                        Some(proto::Constraint::Choice(choice)) => if choice.values@.len() == 0 || (
                        exists|i: int|
                            0 <= i < choice.values@.len() && (
                            #[trigger] choice.values@[i])@.len() == 0) {
                            Some("guided choice must contain only non-empty values"@)
                        } else {
                            None
                        },
                    }
                },
                None => if params.json_schema matches Some(value) && value@.len() == 0 {
                    Some("legacy json_schema must not be empty"@)
                } else if params.regex matches Some(value) && value@.len() == 0 {
                    Some("legacy regex must not be empty"@)
                } else {
                    None
                },
            };
            match fault {
                Some(message) => sampling_model(Some(params), preferred) == Err::<
                    SamplingModel,
                    ConvertErrorModel,
                >(ConvertErrorModel::InvalidArgument(message)),
                None => match preferred {
                    Some(PreferredSamplingParams::Invalid(reason)) => sampling_model(
                        Some(params),
                        preferred,
                    ) == Err::<SamplingModel, ConvertErrorModel>(
                        ConvertErrorModel::Internal(
                            "invalid preferred_sampling_params: "@ + reason@,
                        ),
                    ),
                    _ => sampling_model(Some(params), preferred) is Ok,
                },
            }
        }),
{
    if let Some(guided) = params.guided_decoding {
        if let Some(proto::Constraint::Choice(choice)) = guided.constraint {
            let values = texts(choice.values@);
            assert forall|i: int| 0 <= i < values.len() implies (#[trigger] values[i])
                == choice.values@[i]@ by {
            }
            if no_empty_text(values) {
                assert forall|i: int| 0 <= i < choice.values@.len() implies (
                #[trigger] choice.values@[i])@.len() > 0 by {
                    assert(values[i] == choice.values@[i]@);
                }
            }
        }
    }
}

/// A text in a regular expression stands for itself: each of the characters that
/// mean something there gets one backslash before it, every other character is
/// left alone, and the characters stay in order.
pub proof fn law_escaping_adds_backslashes_only(first: Seq<char>, second: Seq<char>, character: char)
    ensures
        escaped(first + second) == escaped(first) + escaped(second),
        (character == '.' || character == '+' || character == '*' || character == '?' || character
            == '^' || character == '$' || character == '(' || character == ')' || character == '['
            || character == ']' || character == '{' || character == '}' || character == '|'
            || character == '\\') ==> escaped(seq![character]) == seq!['\\', character],
        !(character == '.' || character == '+' || character == '*' || character == '?' || character
            == '^' || character == '$' || character == '(' || character == ')' || character == '['
            || character == ']' || character == '{' || character == '}' || character == '|'
            || character == '\\') ==> escaped(seq![character]) == seq![character],
        escaped(seq![]) == Seq::<char>::empty(),
    decreases second.len(),
{
    let one = seq![character];
    assert(one.drop_last() =~= seq![]);
    assert(escaped(one.drop_last()) =~= seq![]);
    assert(escaped(one) =~= escaped_char(character));
    if second.len() == 0 {
        assert(first + second =~= first);
    } else {
        law_escaping_adds_backslashes_only(first, second.drop_last(), character);
        assert((first + second).drop_last() =~= first + second.drop_last());
        assert(escaped(first + second) =~= escaped(first) + escaped(second));
    }
}

/// A guided choice is one group of alternatives that is not captured.
pub proof fn law_choices_are_grouped(values: Seq<Seq<char>>)
    ensures
        choice_regex(values) == "(?:"@ + joined(
            values.map_values(|value: Seq<char>| escaped(value)),
            "|"@,
        ) + ")"@,
{
    assert(escaped_all(values) =~= values.map_values(|value: Seq<char>| escaped(value)));
}

/// What a client is told when its request cannot be converted: the message as it
/// is, under the code of what went wrong.
pub proof fn law_conversion_failures_have_codes(message: Seq<char>)
    ensures
        ConvertErrorModel::InvalidArgument(message).status() == (StatusModel {
            code: GrpcCode::InvalidArgument,
            message,
        }),
        ConvertErrorModel::Unsupported(message).status() == (StatusModel {
            code: GrpcCode::Unimplemented,
            message,
        }),
        ConvertErrorModel::Internal(message).status() == (StatusModel {
            code: GrpcCode::Internal,
            message,
        }),
{
}

/// A conversion's outcome means what it holds.
pub proof fn law_conversions_mean_themselves(
    error: ConvertError,
    params: ConvertResult<SamplingParams>,
    request: ConvertResult<FrontendRequest>,
)
    ensures
        error matches ConvertError::InvalidArgument(message) ==> error@
            == ConvertErrorModel::InvalidArgument(message@),
        error matches ConvertError::Unsupported(message) ==> error@
            == ConvertErrorModel::Unsupported(message@),
        error matches ConvertError::Internal(message) ==> error@ == ConvertErrorModel::Internal(
            message@,
        ),
        params matches Ok(converted) ==> sampling_result(params) == Ok::<
            SamplingModel,
            ConvertErrorModel,
        >(converted@),
        params matches Err(refused) ==> sampling_result(params) == Err::<
            SamplingModel,
            ConvertErrorModel,
        >(refused@),
        request matches Ok(converted) ==> request_result(request) == Ok::<
            RequestModel,
            ConvertErrorModel,
        >(converted@),
        request matches Err(refused) ==> request_result(request) == Err::<
            RequestModel,
            ConvertErrorModel,
        >(refused@),
{
}

} // verus!
