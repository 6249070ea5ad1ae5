//! The logging pipeline: a filter, a store for the fields of the active
//! scopes and a formatter, composed into one event sink that is installed
//! once for the whole process.

use crate::directive::{fit_for_parser, prepare, prepared};
use tracing::dispatcher::SetGlobalDefaultError;
use tracing::Dispatch;
use tracing_bunyan_formatter::{BunyanFormattingLayer, JsonStorageLayer};
use tracing_log::log::SetLoggerError;
use tracing_log::LogTracer;
use tracing_subscriber::filter::ParseError;
use tracing_subscriber::fmt::writer::BoxMakeWriter;
use tracing_subscriber::layer::{Layered, SubscriberExt};
use tracing_subscriber::{EnvFilter, Registry};
use vstd::prelude::*;

verus! {

/// `tracing_subscriber::EnvFilter`: a filter parsed from directives.
#[verifier::external_type_specification]
#[verifier::external_body]
pub struct ExEnvFilter(EnvFilter);

/// `tracing_subscriber::filter::ParseError`: why a text of directives did
/// not parse.
#[verifier::external_type_specification]
#[verifier::external_body]
pub struct ExParseError(ParseError);

/// `tracing::Dispatch`: a shareable handle to a composed event sink.
#[verifier::external_type_specification]
#[verifier::external_body]
pub struct ExDispatch(Dispatch);

/// `tracing::dispatcher::SetGlobalDefaultError`: the process already has a
/// global event sink.
#[verifier::external_type_specification]
#[verifier::external_body]
pub struct ExSetGlobalDefaultError(SetGlobalDefaultError);

/// `log::SetLoggerError`: the process already has a logger.
#[verifier::external_type_specification]
#[verifier::external_body]
pub struct ExSetLoggerError(SetLoggerError);

/// `tracing_subscriber::fmt::writer::BoxMakeWriter`: a boxed maker of
/// writers, the destination of the formatted records.
#[verifier::external_type_specification]
#[verifier::external_body]
pub struct ExBoxMakeWriter(BoxMakeWriter);

/// `tracing_subscriber::Registry`: the store of scopes at the base of a stack
/// of layers.
#[verifier::external_type_specification]
#[verifier::external_body]
pub struct ExRegistry(Registry);

/// `tracing_bunyan_formatter::JsonStorageLayer`: the layer that keeps the
/// fields of each scope for the layers above it.
#[verifier::external_type_specification]
#[verifier::external_body]
pub struct ExJsonStorageLayer(JsonStorageLayer);

/// `tracing_subscriber::layer::Layered`: a layer on top of what it wraps.
#[verifier::external_type_specification]
#[verifier::external_body]
#[verifier::reject_recursive_types(L)]
#[verifier::reject_recursive_types(I)]
#[verifier::reject_recursive_types(S)]
pub struct ExLayered<L, I, S>(Layered<L, I, S>);

/// The filter that `EnvFilter::new` parses from a text of directives,
/// ignoring the pieces that do not parse.
pub uninterp spec fn parsed_filter(directives: Seq<char>) -> EnvFilter;

/// The filter that the strict parser, `Builder::parse`, makes of a text of
/// directives, if every piece of it parses.
pub uninterp spec fn strictly_parsed(directives: Seq<char>) -> Option<EnvFilter>;

/// The filter that a filtered base holds.
pub uninterp spec fn base_filter(base: Layered<EnvFilter, Registry>) -> EnvFilter;

/// The filter that a base with the storage layer holds.
pub uninterp spec fn stored_filter(
    base: Layered<JsonStorageLayer, Layered<EnvFilter, Registry>>,
) -> EnvFilter;

/// The filter that a composed event sink holds.
pub uninterp spec fn sink_filter(sink: Dispatch) -> EnvFilter;

/// The name with which a composed event sink tags its records.
pub uninterp spec fn sink_name(sink: Dispatch) -> Seq<char>;

/// The maker of writers to which a composed event sink writes its records.
pub uninterp spec fn sink_writer(sink: Dispatch) -> BoxMakeWriter;

/// Where the filter of a pipeline came from.
#[derive(Clone, Copy, Debug, PartialEq, Eq, Structural)]
pub enum FilterOrigin {
    /// The environment supplied it.
    Environment,
    /// The environment supplied none that parses, and the default directive
    /// was parsed.
    Fallback,
}

/// A filter with its origin.
pub struct ChosenFilter {
    pub filter: EnvFilter,
    pub origin: FilterOrigin,
}

/// A composed pipeline: what it was configured with, and the event sink
/// itself.
pub struct Pipeline {
    /// The name that tags every record.
    pub name: String,
    /// The directive to fall back on.
    pub default_directive: String,
    /// Where the filter in effect came from.
    pub origin: FilterOrigin,
    /// The composed event sink.
    pub dispatch: Dispatch,
}

/// The part of an installation that refused it.
#[derive(Clone, Copy, Debug, PartialEq, Eq, Structural)]
pub enum InstallStage {
    /// The guard had been used before.
    Guard,
    /// The process already had a logger for unstructured records.
    LogBridge,
    /// The process already had a global event sink.
    Dispatcher,
}

/// An installation was attempted where one had been attempted or made before.
#[derive(Clone, Copy, Debug, PartialEq, Eq, Structural)]
pub struct AlreadyInstalledError {
    pub stage: InstallStage,
}

/// The one-shot guard of the installation: it admits one attempt.
#[derive(Debug)]
pub struct InstallGuard {
    spent: bool,
}

/// Calls `Builder::parse` on the builder that `EnvFilter::builder` returns:
/// the strict parser, which fails where a piece of the text does not parse.
/// The text must be fit for the parser, which otherwise may cut a piece
/// inside a character. The result is named, not described.
#[verifier::external_body]
fn parse_strictly(directives: &str) -> (parsed: Result<EnvFilter, ParseError>)
    requires
        fit_for_parser(directives@),
    ensures
        match parsed {
            Ok(filter) => strictly_parsed(directives@) == Some(filter),
            Err(_) => strictly_parsed(directives@) is None,
        },
{
    EnvFilter::builder().parse(directives)
}

/// Calls `EnvFilter::new`, which parses a filter from the pieces of a text
/// and ignores those that it cannot parse, with a line on the standard error
/// stream for each. The text must be fit for the parser, which otherwise may
/// cut a piece inside a character. The result is named, not described.
#[verifier::external_body]
fn parse_leniently(directives: &str) -> (filter: EnvFilter)
    requires
        fit_for_parser(directives@),
    ensures
        filter == parsed_filter(directives@),
{
    EnvFilter::new(directives)
}

/// Calls `Registry::default`, which makes an empty store of scopes: the
/// base of the stack of layers.
#[verifier::external_body]
fn registry() -> (base: Registry) {
    Registry::default()
}

/// Calls `SubscriberExt::with`, which puts the filter on top of the base.
/// The stacked value holds the filter that it was given.
#[verifier::external_body]
fn stack_filter(base: Registry, filter: EnvFilter) -> (stacked: Layered<EnvFilter, Registry>)
    ensures
        base_filter(stacked) == filter,
{
    base.with(filter)
}

/// Calls `SubscriberExt::with`, which puts a `JsonStorageLayer` on top of the
/// filtered base. The stacked value holds the base as it was given, and so
/// its filter.
#[verifier::external_body]
fn stack_storage(base: Layered<EnvFilter, Registry>) -> (stacked: Layered<
    JsonStorageLayer,
    Layered<EnvFilter, Registry>,
>)
    ensures
        stored_filter(stacked) == base_filter(base),
{
    base.with(JsonStorageLayer)
}

/// Calls `BunyanFormattingLayer::new` for the layer that writes each event to
/// `sink` as a structured record tagged with `name`, puts it on top of `base`
/// with `SubscriberExt::with`, and wraps the stack with `Dispatch::new` in a
/// handle that can be shared and installed. The handle holds the base as it
/// was given, and so its filter, and the layer holds the name and the maker
/// of writers that it was given. Nothing else is claimed: the layer also
/// records the process and the host.
#[verifier::external_body]
fn stack_formatter(
    base: Layered<JsonStorageLayer, Layered<EnvFilter, Registry>>,
    name: String,
    sink: BoxMakeWriter,
) -> (dispatch: Dispatch)
    ensures
        sink_filter(dispatch) == stored_filter(base),
        sink_name(dispatch) == name@,
        sink_writer(dispatch) == sink,
{
    Dispatch::new(base.with(BunyanFormattingLayer::new(name, sink)))
}

/// Calls `LogTracer::init`, which registers a logger that turns unstructured
/// records into events. Nothing is claimed of the result: it depends on
/// whether the process has a logger.
#[verifier::external_body]
fn redirect_log() -> (outcome: Result<(), SetLoggerError>) {
    LogTracer::init()
}

/// Calls `tracing::dispatcher::set_global_default`, which makes the dispatch
/// the event sink of the process. Nothing is claimed of the result: it
/// depends on whether the process has one.
#[verifier::external_body]
fn set_global(dispatch: Dispatch) -> (outcome: Result<(), SetGlobalDefaultError>) {
    tracing::dispatcher::set_global_default(dispatch)
}

/// The directive of the environment as a sequence of characters.
pub open spec fn directive_view(directive: Option<String>) -> Option<Seq<char>> {
    match directive {
        Some(text) => Some(text@),
        None => None,
    }
}

/// The filter that the environment supplies: the one that the strict parser
/// makes of its directive, prepared for the parser. An environment without a
/// directive, or with one that does not parse, supplies none.
pub open spec fn environment_filter(from_environment: Option<Seq<char>>) -> Option<EnvFilter> {
    match from_environment {
        Some(text) => strictly_parsed(prepared(text)),
        None => None,
    }
}

/// The filter in effect: the one that the environment supplies, if it
/// supplies one, else the one parsed from the default directive, prepared
/// for the parser.
pub open spec fn effective_filter(
    from_environment: Option<Seq<char>>,
    default_directive: Seq<char>,
) -> EnvFilter {
    match environment_filter(from_environment) {
        Some(filter) => filter,
        None => parsed_filter(prepared(default_directive)),
    }
}

/// The origin of the filter in effect.
pub open spec fn effective_origin(from_environment: Option<Seq<char>>) -> FilterOrigin {
    match environment_filter(from_environment) {
        Some(_) => FilterOrigin::Environment,
        None => FilterOrigin::Fallback,
    }
}

/// Parses the directive of the environment, where there is one: the text is
/// prepared for the parser and parsed strictly. No text, or a text with a
/// piece that does not parse, gives no filter.
pub fn filter_from_environment(from_environment: Option<String>) -> (found: Option<EnvFilter>)
    ensures
        found == environment_filter(directive_view(from_environment)),
{
    match from_environment {
        Some(text) => {
            let fit = prepare(text.as_str());
            match parse_strictly(fit.as_str()) {
                Ok(filter) => Some(filter),
                Err(_) => None,
            }
        },
        None => None,
    }
}

/// Decides the filter of a pipeline from what the environment supplied. A
/// filter of the environment overrides the default directive; without one
/// the default directive is prepared for the parser and parsed.
pub fn choose_filter(found: Option<EnvFilter>, default_directive: &str) -> (chosen: ChosenFilter)
    ensures
        found is Some ==> chosen.filter == found->Some_0 && chosen.origin
            == FilterOrigin::Environment,
        found is None ==> chosen.filter == parsed_filter(prepared(default_directive@))
            && chosen.origin == FilterOrigin::Fallback,
{
    match found {
        Some(filter) => ChosenFilter { filter, origin: FilterOrigin::Environment },
        None => {
            let fit = prepare(default_directive);
            ChosenFilter { filter: parse_leniently(fit.as_str()), origin: FilterOrigin::Fallback }
        },
    }
}

/// A pipeline is configured from a name, a default directive, the directive
/// of the environment and a maker of writers: it records the first two and
/// the origin of its filter, and its event sink holds the filter in effect,
/// the name and the maker of writers.
pub open spec fn configured(
    pipeline: Pipeline,
    name: Seq<char>,
    default_directive: Seq<char>,
    from_environment: Option<Seq<char>>,
    sink: BoxMakeWriter,
) -> bool {
    &&& pipeline.name@ == name
    &&& pipeline.default_directive@ == default_directive
    &&& pipeline.origin == effective_origin(from_environment)
    &&& sink_filter(pipeline.dispatch) == effective_filter(from_environment, default_directive)
    &&& sink_name(pipeline.dispatch) == name
    &&& sink_writer(pipeline.dispatch) == sink
}

/// Composes a pipeline that filters events, stores the fields of the active
/// scopes, and writes each event that passes to `sink` as a structured record
/// tagged with `name`. `from_environment` is the directive that the
/// environment holds, if it holds one. The filter is the one parsed from it
/// where it parses, else the one parsed from `env_filter`.
pub fn get_subscriber(
    name: String,
    env_filter: String,
    from_environment: Option<String>,
    sink: BoxMakeWriter,
) -> (pipeline: Pipeline)
    ensures
        configured(pipeline, name@, env_filter@, directive_view(from_environment), sink),
{
    let found = filter_from_environment(from_environment);
    let chosen = choose_filter(found, env_filter.as_str());
    let filtered = stack_filter(registry(), chosen.filter);
    let stored = stack_storage(filtered);
    let dispatch = stack_formatter(stored, name.clone(), sink);
    Pipeline { name, default_directive: env_filter, origin: chosen.origin, dispatch }
}

/// Two pipelines configured from the same name, default directive, directive
/// of the environment and maker of writers record the same configuration,
/// and their event sinks hold the same filter, name and maker of writers.
pub proof fn configuration_is_repeatable(
    first: Pipeline,
    second: Pipeline,
    name: Seq<char>,
    default_directive: Seq<char>,
    from_environment: Option<Seq<char>>,
    sink: BoxMakeWriter,
)
    requires
        configured(first, name, default_directive, from_environment, sink),
        configured(second, name, default_directive, from_environment, sink),
    ensures
        first.name@ == second.name@,
        first.default_directive@ == second.default_directive@,
        first.origin == second.origin,
        sink_filter(first.dispatch) == sink_filter(second.dispatch),
        sink_name(first.dispatch) == sink_name(second.dispatch),
        sink_writer(first.dispatch) == sink_writer(second.dispatch),
{
}

/// A directive of the environment that parses gives the filter in effect,
/// whatever the default directive; without one, or with one that does not
/// parse, the filter in effect is the one parsed from the default directive.
pub proof fn environment_overrides_default(
    from_environment: Option<Seq<char>>,
    default_directive: Seq<char>,
    other_default: Seq<char>,
)
    ensures
        environment_filter(from_environment) is Some ==> {
            &&& effective_filter(from_environment, default_directive) == environment_filter(
                from_environment,
            )->Some_0
            &&& effective_filter(from_environment, default_directive) == effective_filter(
                from_environment,
                other_default,
            )
            &&& effective_origin(from_environment) == FilterOrigin::Environment
        },
        environment_filter(from_environment) is None ==> {
            &&& effective_filter(from_environment, default_directive) == parsed_filter(
                prepared(default_directive),
            )
            &&& effective_origin(from_environment) == FilterOrigin::Fallback
        },
        from_environment is None ==> environment_filter(from_environment) is None,
{
}

impl InstallGuard {
    /// Whether the guard has admitted its one attempt.
    pub closed spec fn spent(&self) -> bool {
        self.spent
    }

    /// A guard that has admitted nothing yet.
    pub fn new() -> (guard: InstallGuard)
        ensures
            !guard.spent(),
    {
        InstallGuard { spent: false }
    }

    /// Whether the guard has admitted its one attempt.
    pub fn is_spent(&self) -> (spent: bool)
        ensures
            spent == self.spent(),
    {
        self.spent
    }
}

/// The refusal of a spent guard.
pub open spec fn refused_by_guard() -> Result<(), AlreadyInstalledError> {
    Err(AlreadyInstalledError { stage: InstallStage::Guard })
}

/// What one call of `init_subscriber` does to the guard and returns: the
/// guard is spent afterwards; a spent guard refuses; a fresh one leaves the
/// verdict to the process.
pub open spec fn installs(
    before: InstallGuard,
    after: InstallGuard,
    verdict: Result<(), AlreadyInstalledError>,
) -> bool {
    &&& after.spent()
    &&& before.spent() ==> verdict == refused_by_guard()
    &&& !before.spent() ==> {
        ||| verdict is Ok
        ||| verdict == Err::<(), AlreadyInstalledError>(
            AlreadyInstalledError { stage: InstallStage::LogBridge },
        )
        ||| verdict == Err::<(), AlreadyInstalledError>(
            AlreadyInstalledError { stage: InstallStage::Dispatcher },
        )
    }
}

/// A run of installations through one guard: `guards` holds the guard before
/// the first call and after each call, `verdicts` what each call returned.
pub open spec fn install_run(
    guards: Seq<InstallGuard>,
    verdicts: Seq<Result<(), AlreadyInstalledError>>,
) -> bool {
    &&& guards.len() == verdicts.len() + 1
    &&& forall|k: int|
        0 <= k < verdicts.len() ==> installs(guards[k], guards[k + 1], #[trigger] verdicts[k])
}

/// The verdict of one stage of the installation: a stage that the process
/// accepted passes, one that it refused is reported under its name.
pub fn stage_verdict<E>(outcome: Result<(), E>, stage: InstallStage) -> (verdict: Result<
    (),
    AlreadyInstalledError,
>)
    ensures
        outcome is Ok ==> verdict is Ok,
        outcome is Err ==> verdict == Err::<(), AlreadyInstalledError>(
            AlreadyInstalledError { stage },
        ),
{
    match outcome {
        Ok(_) => Ok(()),
        Err(_) => Err(AlreadyInstalledError { stage }),
    }
}

/// Installs the pipeline as the event sink of the whole process, and turns
/// unstructured records into events of the same sink. The guard admits one
/// attempt: a spent guard refuses without touching the process. A fresh guard
/// is spent by the call; the process then refuses where it already has a
/// logger or an event sink.
pub fn init_subscriber(guard: &mut InstallGuard, pipeline: Pipeline) -> (verdict: Result<
    (),
    AlreadyInstalledError,
>)
    ensures
        installs(*old(guard), *final(guard), verdict),
{
    if guard.spent {
        return Err(AlreadyInstalledError { stage: InstallStage::Guard });
    }
    guard.spent = true;
    match stage_verdict(redirect_log(), InstallStage::LogBridge) {
        Ok(_) => stage_verdict(set_global(pipeline.dispatch), InstallStage::Dispatcher),
        Err(refused) => Err(refused),
    }
}

/// Of two installations through one guard, the second is refused by the
/// guard, whatever the first returned and whatever pipeline either was given.
pub proof fn second_install_is_refused(
    fresh: InstallGuard,
    used: InstallGuard,
    last: InstallGuard,
    first_verdict: Result<(), AlreadyInstalledError>,
    second_verdict: Result<(), AlreadyInstalledError>,
)
    requires
        installs(fresh, used, first_verdict),
        installs(used, last, second_verdict),
    ensures
        second_verdict == refused_by_guard(),
        last.spent(),
{
}

/// In a run of any number of installations through one guard, every call
/// after the first is refused by the guard, so at most the first succeeds,
/// and the guard is spent from the first call on and never fresh again.
pub proof fn only_first_install_can_succeed(
    guards: Seq<InstallGuard>,
    verdicts: Seq<Result<(), AlreadyInstalledError>>,
)
    requires
        install_run(guards, verdicts),
    ensures
        forall|k: int| 1 <= k < verdicts.len() ==> #[trigger] verdicts[k] == refused_by_guard(),
        forall|k: int| 1 <= k < guards.len() ==> (#[trigger] guards[k]).spent(),
        forall|j: int, k: int|
            0 <= j < k < verdicts.len() ==> !((#[trigger] verdicts[j]) is Ok
                && (#[trigger] verdicts[k]) is Ok),
{
    assert forall|k: int| 1 <= k < guards.len() implies (#[trigger] guards[k]).spent() by {
        assert(installs(guards[k - 1], guards[k - 1 + 1], verdicts[k - 1]));
    }
    assert forall|k: int| 1 <= k < verdicts.len() implies #[trigger] verdicts[k]
        == refused_by_guard() by {
        assert(guards[k].spent());
        assert(installs(guards[k], guards[k + 1], verdicts[k]));
    }
}

} // verus!
