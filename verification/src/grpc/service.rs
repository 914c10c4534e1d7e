//! The decisions of the `runtime.v1` service: which calls it serves, and what it
//! answers around the operations that it waits for.

use vstd::prelude::*;

use crate::config::ServerArgs;
use crate::contract::{ErrorModel, FrontendError, HealthStatus};
use crate::grpc::convert::{
    generate_model, text_generate_model, ConvertErrorModel,
};
use crate::grpc::openai::OpenAiPolicy;
use crate::grpc::proto;
use crate::grpc::response::{error_status, status};
use crate::grpc::status::{GrpcCode, GrpcStatus, StatusModel};
use crate::metadata::ModelInfo;
use crate::request::{FrontendRequest, PreferredSamplingParams, RequestModel};
use crate::text::{concat2, parse_usize, parsed_usize};

verus! {

/// The seconds after which a response that has not come is given up.
pub const DEFAULT_RESPONSE_TIMEOUT: u64 = 300;

/// The largest message, in bytes, unless configured otherwise.
pub const DEFAULT_GRPC_MAX_MESSAGE_SIZE: usize = 64 * 1024 * 1024;

/// The calls of the service.
#[derive(Clone, Copy, Debug, PartialEq, Eq, Structural)]
pub enum Rpc {
    TextGenerate,
    Generate,
    TextEmbed,
    Embed,
    Classify,
    Tokenize,
    Detokenize,
    HealthCheck,
    GetModelInfo,
    GetServerInfo,
    ListModels,
    GetLoad,
    Abort,
    FlushCache,
    PauseGeneration,
    GetIsReady,
    ContinueGeneration,
    ChatComplete,
    Complete,
    OpenAiEmbed,
    OpenAiClassify,
    Score,
    Rerank,
    StartProfile,
    StopProfile,
    UpdateWeightsFromDisk,
}

impl Rpc {
    /// Whether the frontend has an operation for the call.
    pub open spec fn is_served(self) -> bool {
        match self {
            Rpc::TextGenerate
            | Rpc::Generate
            | Rpc::ChatComplete
            | Rpc::Complete
            | Rpc::Detokenize
            | Rpc::HealthCheck
            | Rpc::GetModelInfo
            | Rpc::GetServerInfo
            | Rpc::ListModels => true,
            _ => false,
        }
    }

    /// The name of the call in messages.
    pub open spec fn name_model(self) -> Seq<char> {
        match self {
            Rpc::TextGenerate => "text_generate"@,
            Rpc::Generate => "generate"@,
            Rpc::TextEmbed => "text_embed"@,
            Rpc::Embed => "embed"@,
            Rpc::Classify => "classify"@,
            Rpc::Tokenize => "tokenize"@,
            Rpc::Detokenize => "detokenize"@,
            Rpc::HealthCheck => "health_check"@,
            Rpc::GetModelInfo => "get_model_info"@,
            Rpc::GetServerInfo => "get_server_info"@,
            Rpc::ListModels => "list_models"@,
            Rpc::GetLoad => "get_load"@,
            Rpc::Abort => "abort"@,
            Rpc::FlushCache => "flush_cache"@,
            Rpc::PauseGeneration => "pause_generation"@,
            Rpc::GetIsReady => "get_is_ready"@,
            Rpc::ContinueGeneration => "continue_generation"@,
            Rpc::ChatComplete => "chat_complete"@,
            Rpc::Complete => "complete"@,
            Rpc::OpenAiEmbed => "open_ai_embed"@,
            Rpc::OpenAiClassify => "open_ai_classify"@,
            Rpc::Score => "score"@,
            Rpc::Rerank => "rerank"@,
            Rpc::StartProfile => "start_profile"@,
            Rpc::StopProfile => "stop_profile"@,
            Rpc::UpdateWeightsFromDisk => "update_weights_from_disk"@,
        }
    }

    /// The name of the call in messages.
    pub fn name(self) -> (name: &'static str)
        ensures
            name@ == self.name_model(),
    {
        match self {
            Rpc::TextGenerate => "text_generate",
            Rpc::Generate => "generate",
            Rpc::TextEmbed => "text_embed",
            Rpc::Embed => "embed",
            Rpc::Classify => "classify",
            Rpc::Tokenize => "tokenize",
            Rpc::Detokenize => "detokenize",
            Rpc::HealthCheck => "health_check",
            Rpc::GetModelInfo => "get_model_info",
            Rpc::GetServerInfo => "get_server_info",
            Rpc::ListModels => "list_models",
            Rpc::GetLoad => "get_load",
            Rpc::Abort => "abort",
            Rpc::FlushCache => "flush_cache",
            Rpc::PauseGeneration => "pause_generation",
            Rpc::GetIsReady => "get_is_ready",
            Rpc::ContinueGeneration => "continue_generation",
            Rpc::ChatComplete => "chat_complete",
            Rpc::Complete => "complete",
            Rpc::OpenAiEmbed => "open_ai_embed",
            Rpc::OpenAiClassify => "open_ai_classify",
            Rpc::Score => "score",
            Rpc::Rerank => "rerank",
            Rpc::StartProfile => "start_profile",
            Rpc::StopProfile => "stop_profile",
            Rpc::UpdateWeightsFromDisk => "update_weights_from_disk",
        }
    }
}

/// The status of a call that the frontend has no operation for.
pub open spec fn unimplemented_model(name: Seq<char>) -> StatusModel {
    StatusModel {
        code: GrpcCode::Unimplemented,
        message: name + " is not implemented by the Rust frontend gRPC adapter"@,
    }
}

/// Answers a call that the frontend has no operation for.
pub fn unimplemented_rpc(name: &str) -> (status: GrpcStatus)
    ensures
        status@ == unimplemented_model(name@),
{
    GrpcStatus {
        code: GrpcCode::Unimplemented,
        message: concat2(name, " is not implemented by the Rust frontend gRPC adapter"),
    }
}

/// Lets a call through, or refuses it. A call without an operation is never
/// answered with an empty success.
pub fn check_served(rpc: Rpc) -> (served: Result<(), GrpcStatus>)
    ensures
        match served {
            Ok(_) => rpc.is_served(),
            Err(status) => !rpc.is_served() && status@ == unimplemented_model(rpc.name_model()),
        },
{
    match rpc {
        Rpc::TextGenerate
        | Rpc::Generate
        | Rpc::ChatComplete
        | Rpc::Complete
        | Rpc::Detokenize
        | Rpc::HealthCheck
        | Rpc::GetModelInfo
        | Rpc::GetServerInfo
        | Rpc::ListModels => Ok(()),
        _ => Err(unimplemented_rpc(rpc.name())),
    }
}

/// What the service needs to know of the launch configuration.
#[derive(Debug)]
pub struct AdapterConfig {
    pub incremental_streaming_output: bool,
    /// In seconds.
    pub response_timeout: u64,
    /// In seconds; absent where health checks do not probe.
    pub health_probe_timeout: Option<u64>,
    pub skip_tokenizer_init: bool,
}

impl AdapterConfig {
    /// Whether this is what the launch configuration and the environment ask for.
    pub open spec fn adapted_to(
        self,
        args: ServerArgs,
        probe_enabled: bool,
        probe_seconds: int,
    ) -> bool {
        &&& self.incremental_streaming_output == args.incremental_streaming_output
        &&& self.response_timeout == 300
        &&& self.skip_tokenizer_init == args.skip_tokenizer_init
        &&& self.health_probe_timeout is Some <==> probe_enabled
        &&& self.health_probe_timeout matches Some(seconds) ==> seconds == if probe_seconds < 0 {
            0
        } else {
            probe_seconds
        }
    }

    /// Reads the launch configuration and the environment's health settings. A
    /// negative timeout counts as none at all.
    pub fn new(args: &ServerArgs, probe_enabled: bool, probe_seconds: i64) -> (config: Self)
        ensures
            config.incremental_streaming_output == args.incremental_streaming_output,
            config.response_timeout == DEFAULT_RESPONSE_TIMEOUT,
            config.adapted_to(*args, probe_enabled, probe_seconds as int),
            config.skip_tokenizer_init == args.skip_tokenizer_init,
            config.health_probe_timeout == if !probe_enabled {
                None
            } else if probe_seconds < 0 {
                Some(0u64)
            } else {
                Some(probe_seconds as u64)
            },
    {
        let health_probe_timeout: Option<u64> = if !probe_enabled {
            None
        } else if probe_seconds < 0 {
            Some(0)
        } else {
            Some(probe_seconds as u64)
        };
        AdapterConfig {
            incremental_streaming_output: args.incremental_streaming_output,
            response_timeout: DEFAULT_RESPONSE_TIMEOUT,
            health_probe_timeout,
            skip_tokenizer_init: args.skip_tokenizer_init,
        }
    }
}

/// Whether this is what the launch configuration makes possible.
pub open spec fn allowed_by(policy: OpenAiPolicy, args: ServerArgs, chat_formatter: bool) -> bool {
    &&& policy.chat_formatter == chat_formatter
    &&& policy.skip_tokenizer_init == args.skip_tokenizer_init
    &&& policy.tool_call_parser == (args.tool_call_parser is Some)
}

/// What the launch configuration makes possible for OpenAI calls.
pub fn openai_policy(args: &ServerArgs, chat_formatter: bool) -> (policy: OpenAiPolicy)
    ensures
        policy == (OpenAiPolicy {
            chat_formatter,
            skip_tokenizer_init: args.skip_tokenizer_init,
            tool_call_parser: args.tool_call_parser is Some,
        }),
        allowed_by(policy, *args, chat_formatter),
{
    OpenAiPolicy {
        chat_formatter,
        skip_tokenizer_init: args.skip_tokenizer_init,
        tool_call_parser: args.tool_call_parser.is_some(),
    }
}

/// What a generation call comes to before anything is submitted.
pub open spec fn call_model(
    converted: Result<RequestModel, ConvertErrorModel>,
) -> Result<RequestModel, StatusModel> {
    match converted {
        Ok(request) => Ok(request),
        Err(error) => Err(error.status()),
    }
}

/// What an opened generation call means.
pub open spec fn opened_model(opened: Result<FrontendRequest, GrpcStatus>) -> Result<
    RequestModel,
    StatusModel,
> {
    match opened {
        Ok(request) => Ok(request@),
        Err(status) => Err(status@),
    }
}

/// What a text generation comes to before anything is submitted.
pub open spec fn text_call_model(
    skip_tokenizer_init: bool,
    converted: Result<RequestModel, ConvertErrorModel>,
) -> Result<RequestModel, StatusModel> {
    if skip_tokenizer_init {
        Err(
            StatusModel {
                code: GrpcCode::Unimplemented,
                message: "text generation requires a tokenizer"@,
            },
        )
    } else {
        call_model(converted)
    }
}

/// Opens a text generation. Without a tokenizer there is none.
pub fn text_generate(
    request: proto::TextGenerateRequest,
    skip_tokenizer_init: bool,
    preferred: Option<&PreferredSamplingParams>,
    minted: &str,
) -> (opened: Result<FrontendRequest, GrpcStatus>)
    ensures
        opened_model(opened) == if skip_tokenizer_init {
            Err(
                StatusModel {
                    code: GrpcCode::Unimplemented,
                    message: "text generation requires a tokenizer"@,
                },
            )
        } else {
            call_model(text_generate_model(request, preferred, minted@))
        },
        opened_model(opened) == text_call_model(
            skip_tokenizer_init,
            text_generate_model(request, preferred, minted@),
        ),
{
    if skip_tokenizer_init {
        return Err(
            GrpcStatus::new(GrpcCode::Unimplemented, "text generation requires a tokenizer"),
        );
    }
    match crate::grpc::convert::text_generate(request, preferred, minted) {
        Ok(request) => Ok(request),
        Err(error) => Err(error.into_status()),
    }
}

/// Opens a token generation.
pub fn generate(
    request: proto::GenerateRequest,
    preferred: Option<&PreferredSamplingParams>,
    minted: &str,
) -> (opened: Result<FrontendRequest, GrpcStatus>)
    ensures
        opened_model(opened) == call_model(generate_model(request, preferred, minted@)),
{
    match crate::grpc::convert::generate(request, preferred, minted) {
        Ok(request) => Ok(request),
        Err(error) => Err(error.into_status()),
    }
}

/// Why a detokenization is refused, if it is.
pub open spec fn detokenization_refusal(skip_tokenizer_init: bool) -> Option<StatusModel> {
    if skip_tokenizer_init {
        Some(
            StatusModel {
                code: GrpcCode::Unimplemented,
                message: "detokenization requires a tokenizer"@,
            },
        )
    } else {
        None
    }
}

/// Lets a detokenization through. Without a tokenizer there is none.
pub fn open_detokenize(skip_tokenizer_init: bool) -> (opened: Result<(), GrpcStatus>)
    ensures
        match opened {
            Ok(_) => !skip_tokenizer_init,
            Err(status) => skip_tokenizer_init && status@ == (StatusModel {
                code: GrpcCode::Unimplemented,
                message: "detokenization requires a tokenizer"@,
            }),
        },
        opened matches Err(status) ==> detokenization_refusal(skip_tokenizer_init) == Some(status@),
        opened is Ok ==> detokenization_refusal(skip_tokenizer_init) is None,
{
    if skip_tokenizer_init {
        Err(GrpcStatus::new(GrpcCode::Unimplemented, "detokenization requires a tokenizer"))
    } else {
        Ok(())
    }
}

/// The outcome of an operation that was waited for: nothing, where the wait was
/// given up.
pub type Awaited<T> = Option<Result<T, FrontendError>>;

/// What an awaited operation is answered with.
pub open spec fn awaited_error<T>(awaited: Awaited<T>, timeout: Seq<char>) -> Option<StatusModel> {
    match awaited {
        None => Some(StatusModel { code: GrpcCode::DeadlineExceeded, message: timeout }),
        Some(Err(error)) => Some(error_status(error@)),
        Some(Ok(_)) => None,
    }
}

/// Passes the outcome of an operation on, or its failure, or that it was given
/// up.
fn finish_awaited<T>(awaited: Awaited<T>, timeout: &str) -> (reply: Result<T, GrpcStatus>)
    ensures
        match reply {
            Ok(value) => awaited == Some(Ok::<T, FrontendError>(value)),
            Err(status) => awaited_error(awaited, timeout@) == Some(status@),
        },
{
    match awaited {
        None => Err(GrpcStatus::new(GrpcCode::DeadlineExceeded, timeout)),
        Some(Err(error)) => Err(status(error)),
        Some(Ok(value)) => Ok(value),
    }
}

/// Answers a detokenization.
pub fn detokenize(awaited: Awaited<String>) -> (reply: Result<String, GrpcStatus>)
    ensures
        match reply {
            Ok(text) => awaited == Some(Ok::<String, FrontendError>(text)),
            Err(status) => awaited_error(awaited, "detokenization timed out"@) == Some(status@),
        },
{
    finish_awaited(awaited, "detokenization timed out")
}

/// Answers a request for the server metadata.
pub fn get_server_info<T>(awaited: Awaited<T>) -> (reply: Result<T, GrpcStatus>)
    ensures
        match reply {
            Ok(info) => awaited == Some(Ok::<T, FrontendError>(info)),
            Err(status) => awaited_error(awaited, "server information timed out"@) == Some(
                status@,
            ),
        },
{
    finish_awaited(awaited, "server information timed out")
}

/// Whether the server counts as healthy, by whether health checks probe, whether
/// the probe clearly succeeded, and whether the server has started.
pub open spec fn health_model(probing: bool, probe_succeeded: bool, is_ready: bool) -> bool {
    if probing {
        probe_succeeded
    } else {
        is_ready
    }
}

/// Answers a health check: by the probe, where health checks probe, and only
/// its clear success counts; else by whether the server has started.
pub fn health_check(
    config: &AdapterConfig,
    probed: Awaited<HealthStatus>,
    is_ready: bool,
) -> (healthy: bool)
    ensures
        healthy == if config.health_probe_timeout is Some {
            probed == Some(Ok::<HealthStatus, FrontendError>(HealthStatus::Healthy))
        } else {
            is_ready
        },
        healthy == health_model(
            config.health_probe_timeout is Some,
            probed == Some(Ok::<HealthStatus, FrontendError>(HealthStatus::Healthy)),
            is_ready,
        ),
{
    if config.health_probe_timeout.is_some() {
        match probed {
            Some(Ok(HealthStatus::Healthy)) => true,
            _ => false,
        }
    } else {
        is_ready
    }
}

/// What a [`proto::ModelCard`] means.
#[verifier::ext_equal]
pub struct CardModel {
    pub id: Seq<char>,
    pub root: Seq<char>,
    pub parent: Option<Seq<char>>,
    pub max_model_len: Option<int>,
}

/// What a card means.
pub open spec fn card_model(card: proto::ModelCard) -> CardModel {
    CardModel {
        id: card.id@,
        root: card.root@,
        parent: match card.parent {
            Some(parent) => Some(parent@),
            None => None,
        },
        max_model_len: match card.max_model_len {
            Some(length) => Some(length as int),
            None => None,
        },
    }
}

/// What a list of models means.
pub open spec fn listed_model(reply: Result<Vec<proto::ModelCard>, GrpcStatus>) -> Result<
    Seq<CardModel>,
    StatusModel,
> {
    match reply {
        Ok(models) => Ok(models@.map_values(|card: proto::ModelCard| card_model(card))),
        Err(status) => Err(status@),
    }
}

/// The models that are listed, or why they cannot be.
pub open spec fn models_model(name: Seq<char>, max_context_length: u64) -> Result<
    Seq<CardModel>,
    StatusModel,
> {
    if max_context_length > i32::MAX {
        Err(
            StatusModel {
                code: GrpcCode::OutOfRange,
                message: "context length exceeds runtime.v1 int32"@,
            },
        )
    } else {
        Ok(
            seq![
                CardModel {
                    id: name,
                    root: name,
                    parent: None,
                    max_model_len: Some(max_context_length as int),
                },
            ],
        )
    }
}

/// Lists the one model that is served, with its context limit. A limit that the
/// schema's number cannot hold is an error.
pub fn list_models(info: &ModelInfo, max_context_length: u64) -> (reply: Result<
    Vec<proto::ModelCard>,
    GrpcStatus,
>)
    ensures
        match reply {
            Ok(models) => max_context_length <= i32::MAX && models@.len() == 1 && models@[0].id@
                == info.served_model_name@ && models@[0].root@ == info.served_model_name@
                && models@[0].parent is None && models@[0].max_model_len == Some(
                max_context_length as i32,
            ),
            Err(status) => max_context_length > i32::MAX && status@ == (StatusModel {
                code: GrpcCode::OutOfRange,
                message: "context length exceeds runtime.v1 int32"@,
            }),
        },
        listed_model(reply) == models_model(info.served_model_name@, max_context_length),
{
    if max_context_length > i32::MAX as u64 {
        return Err(
            GrpcStatus::new(GrpcCode::OutOfRange, "context length exceeds runtime.v1 int32"),
        );
    }
    let mut models: Vec<proto::ModelCard> = Vec::new();
    models.push(
        proto::ModelCard {
            id: info.served_model_name.clone(),
            root: info.served_model_name.clone(),
            parent: None,
            max_model_len: Some(max_context_length as i32),
        },
    );
    assert(models@.map_values(|card: proto::ModelCard| card_model(card)) =~= models_model(
        info.served_model_name@,
        max_context_length,
    )->Ok_0);
    Ok(models)
}

/// The largest message, given what the environment says: a positive number of
/// bytes, or else the default.
pub open spec fn message_size_model(raw: Option<Seq<char>>) -> usize {
    match raw {
        Some(raw) => match parsed_usize(raw) {
            Some(bytes) => if bytes > 0 {
                bytes
            } else {
                DEFAULT_GRPC_MAX_MESSAGE_SIZE
            },
            None => DEFAULT_GRPC_MAX_MESSAGE_SIZE,
        },
        None => DEFAULT_GRPC_MAX_MESSAGE_SIZE,
    }
}

/// Chooses the largest message. An override that makes no sense is ignored.
pub fn max_message_size(raw: Option<&str>) -> (bytes: usize)
    ensures
        bytes == message_size_model(
            match raw {
                Some(raw) => Some(raw@),
                None => None,
            },
        ),
        bytes > 0,
{
    match raw {
        Some(raw) => match parse_usize(raw) {
            Some(bytes) => if bytes > 0 {
                bytes
            } else {
                DEFAULT_GRPC_MAX_MESSAGE_SIZE
            },
            None => DEFAULT_GRPC_MAX_MESSAGE_SIZE,
        },
        None => DEFAULT_GRPC_MAX_MESSAGE_SIZE,
    }
}

/// A failure has the same category on both surfaces: codes agree with statuses
/// wherever the scheduler gave none of its own, but for exhausted capacity,
/// which HTTP answers like a closed intake.
pub proof fn law_surfaces_agree_on_failures(error: ErrorModel)
    requires
        !(error is RuntimeRejected),
        error.kind() != crate::contract::FrontendErrorKind::ResourceExhausted,
    ensures
        crate::grpc::openai::http_code(crate::openai::error_http_status(error)) == error_status(
            error,
        ).code,
{
}

/// Which calls are served, and that every other one is refused by its name and
/// never answered as if it had been done.
pub proof fn law_served_calls(rpc: Rpc)
    ensures
        rpc.is_served() <==> (rpc is TextGenerate || rpc is Generate || rpc is ChatComplete
            || rpc is Complete || rpc is Detokenize || rpc is HealthCheck || rpc is GetModelInfo
            || rpc is GetServerInfo || rpc is ListModels),
        unimplemented_model(rpc.name_model()) == (StatusModel {
            code: GrpcCode::Unimplemented,
            message: rpc.name_model()
                + " is not implemented by the Rust frontend gRPC adapter"@,
        }),
        rpc is TextEmbed ==> rpc.name_model() == "text_embed"@,
        rpc is Embed ==> rpc.name_model() == "embed"@,
        rpc is Classify ==> rpc.name_model() == "classify"@,
        rpc is Tokenize ==> rpc.name_model() == "tokenize"@,
        rpc is GetLoad ==> rpc.name_model() == "get_load"@,
        rpc is Abort ==> rpc.name_model() == "abort"@,
        rpc is FlushCache ==> rpc.name_model() == "flush_cache"@,
        rpc is PauseGeneration ==> rpc.name_model() == "pause_generation"@,
        rpc is GetIsReady ==> rpc.name_model() == "get_is_ready"@,
        rpc is ContinueGeneration ==> rpc.name_model() == "continue_generation"@,
        rpc is OpenAiEmbed ==> rpc.name_model() == "open_ai_embed"@,
        rpc is OpenAiClassify ==> rpc.name_model() == "open_ai_classify"@,
        rpc is Score ==> rpc.name_model() == "score"@,
        rpc is Rerank ==> rpc.name_model() == "rerank"@,
        rpc is StartProfile ==> rpc.name_model() == "start_profile"@,
        rpc is StopProfile ==> rpc.name_model() == "stop_profile"@,
        rpc is UpdateWeightsFromDisk ==> rpc.name_model() == "update_weights_from_disk"@,
{
}

/// An operation that was waited for gives its own outcome: its failure under the
/// code of what went wrong, or a deadline where it was given up.
pub proof fn law_awaited_operations<T>(awaited: Awaited<T>, timeout: Seq<char>)
    ensures
        match awaited {
            None => awaited_error(awaited, timeout) == Some(
                StatusModel { code: GrpcCode::DeadlineExceeded, message: timeout },
            ),
            Some(Err(error)) => awaited_error(awaited, timeout) matches Some(status)
                && status.message == error@.text() && status.code == error_status(error@).code,
            Some(Ok(_)) => awaited_error(awaited, timeout) is None,
        },
{
}

/// A converted request is submitted as it is, and one that cannot be converted is
/// refused with its reason.
pub proof fn law_converted_requests_are_submitted(
    converted: Result<RequestModel, ConvertErrorModel>,
)
    ensures
        converted matches Ok(request) ==> call_model(converted) == Ok::<RequestModel, StatusModel>(
            request,
        ),
        converted matches Err(ConvertErrorModel::InvalidArgument(message)) ==> call_model(converted)
            == Err::<RequestModel, StatusModel>(
            StatusModel { code: GrpcCode::InvalidArgument, message },
        ),
        converted matches Err(ConvertErrorModel::Unsupported(message)) ==> call_model(converted)
            == Err::<RequestModel, StatusModel>(
            StatusModel { code: GrpcCode::Unimplemented, message },
        ),
        converted matches Err(ConvertErrorModel::Internal(message)) ==> call_model(converted)
            == Err::<RequestModel, StatusModel>(StatusModel { code: GrpcCode::Internal, message }),
{
}

/// The largest message is what the environment says in decimal notation, and 64
/// MiB where it says nothing, zero or nonsense; a response is waited for five
/// minutes.
pub proof fn law_limits(bytes: usize, text: Seq<char>)
    ensures
        bytes > 0 ==> message_size_model(Some(crate::text::decimal(bytes as nat))) == bytes,
        message_size_model(Some(crate::text::decimal(0))) == 67_108_864,
        message_size_model(None) == 67_108_864,
        parsed_usize(text) is None ==> message_size_model(Some(text)) == 67_108_864,
        DEFAULT_RESPONSE_TIMEOUT == 300,
{
    crate::text::law_numbers_are_read_back(bytes as nat, text, 0);
    crate::text::law_numbers_are_read_back(0, text, 0);
}

/// A status means its code and its message.
pub proof fn law_status_means_its_fields(status: GrpcStatus)
    ensures
        status@.code == status.code,
        status@.message == status.message@,
{
}

/// What the service knows of its launch: how output is streamed and whether there
/// is a tokenizer, as configured, and how long a health probe may take, never less
/// than nothing, and only where probes are on.
pub proof fn law_adapter_configuration(
    config: AdapterConfig,
    args: ServerArgs,
    probe_enabled: bool,
    probe_seconds: int,
)
    requires
        config.adapted_to(args, probe_enabled, probe_seconds),
    ensures
        config.incremental_streaming_output == args.incremental_streaming_output,
        config.skip_tokenizer_init == args.skip_tokenizer_init,
        config.response_timeout == 300,
        !probe_enabled ==> config.health_probe_timeout is None,
        probe_enabled && probe_seconds >= 0 ==> (config.health_probe_timeout matches Some(seconds)
            && seconds == probe_seconds),
        probe_enabled && probe_seconds < 0 ==> (config.health_probe_timeout matches Some(seconds)
            && seconds == 0),
{
}

/// What OpenAI calls may do follows from the launch: chat from its template, text
/// from the tokenizer, tools from their parser.
pub proof fn law_openai_policy(policy: OpenAiPolicy, args: ServerArgs, chat_formatter: bool)
    requires
        allowed_by(policy, args, chat_formatter),
    ensures
        policy.chat_formatter == chat_formatter,
        policy.skip_tokenizer_init == args.skip_tokenizer_init,
        policy.tool_call_parser <==> args.tool_call_parser is Some,
{
}

/// Without a tokenizer neither a text can be generated from nor tokens turned into
/// text: both are refused as unimplemented. With one, neither is.
pub proof fn law_text_needs_a_tokenizer(converted: Result<RequestModel, ConvertErrorModel>)
    ensures
        text_call_model(true, converted) == Err::<RequestModel, StatusModel>(
            StatusModel {
                code: GrpcCode::Unimplemented,
                message: "text generation requires a tokenizer"@,
            },
        ),
        converted matches Ok(request) ==> text_call_model(false, converted) == Ok::<
            RequestModel,
            StatusModel,
        >(request),
        converted is Err ==> text_call_model(false, converted) == call_model(converted),
        detokenization_refusal(true) == Some(
            StatusModel {
                code: GrpcCode::Unimplemented,
                message: "detokenization requires a tokenizer"@,
            },
        ),
        detokenization_refusal(false) is None,
{
}

/// A server that probes is healthy exactly when the probe clearly succeeded, whether
/// or not it counts as started; one that does not probe is healthy exactly when it
/// has started.
pub proof fn law_health_follows_the_probe(probe_succeeded: bool, is_ready: bool)
    ensures
        health_model(true, probe_succeeded, is_ready) == probe_succeeded,
        health_model(false, probe_succeeded, is_ready) == is_ready,
{
}

/// The one model that is listed is the one that is served, under its served name,
/// with its own context limit; a limit beyond the schema's range is an error rather
/// than another number.
pub proof fn law_listed_models(name: Seq<char>, max_context_length: u64)
    ensures
        max_context_length <= 2_147_483_647 ==> (models_model(name, max_context_length) matches Ok(
            models,
        ) && models.len() == 1 && models[0].id == name && models[0].root == name
            && models[0].parent is None && models[0].max_model_len == Some(
            max_context_length as int,
        )),
        max_context_length > 2_147_483_647 ==> models_model(name, max_context_length) == Err::<
            Seq<CardModel>,
            StatusModel,
        >(
            StatusModel {
                code: GrpcCode::OutOfRange,
                message: "context length exceeds runtime.v1 int32"@,
            },
        ),
{
}

/// A card means its own fields.
pub proof fn law_card_means_its_fields(card: proto::ModelCard)
    ensures
        card_model(card).id == card.id@,
        card_model(card).root == card.root@,
        card_model(card).parent is Some <==> card.parent is Some,
        card.parent matches Some(parent) ==> card_model(card).parent == Some(parent@),
        card_model(card).max_model_len is Some <==> card.max_model_len is Some,
        card.max_model_len matches Some(length) ==> card_model(card).max_model_len == Some(
            length as int,
        ),
{
}

/// An opened call and a list of models mean what they hold.
pub proof fn law_replies_mean_themselves(
    opened: Result<FrontendRequest, GrpcStatus>,
    listed: Result<Vec<proto::ModelCard>, GrpcStatus>,
)
    ensures
        opened matches Ok(request) ==> opened_model(opened) == Ok::<RequestModel, StatusModel>(
            request@,
        ),
        opened matches Err(status) ==> opened_model(opened) == Err::<RequestModel, StatusModel>(
            StatusModel { code: status.code, message: status.message@ },
        ),
        listed matches Ok(models) ==> (listed_model(listed) matches Ok(cards) && cards.len()
            == models@.len() && forall|i: int|
            0 <= i < cards.len() ==> (#[trigger] cards[i]) == card_model(models@[i])),
        listed matches Err(status) ==> listed_model(listed) == Err::<Seq<CardModel>, StatusModel>(
            StatusModel { code: status.code, message: status.message@ },
        ),
{
}

} // verus!
