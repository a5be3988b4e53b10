//! Typed parsing of the standard `OTEL_*` environment variables the gateway
//! interprets itself.
//!
//! Only the variables the SDK or exporter would otherwise fall back on
//! silently are validated here (exporter selection, protocol, service name,
//! and the global kill switch). Endpoint, header, timeout, sampler, and batch
//! settings are read by the SDK and OTLP exporter directly, which already
//! implement the signal-specific, generic and default precedence rules.

use std::time::Duration;

use vstd::prelude::*;

use crate::settings::environment;
use crate::text;

verus! {

const DEFAULT_SERVICE_NAME: &'static str = "agentic-api";

pub const OTEL_SDK_DISABLED: &'static str = "OTEL_SDK_DISABLED";

pub const OTEL_SERVICE_NAME: &'static str = "OTEL_SERVICE_NAME";

pub const OTEL_TRACES_EXPORTER: &'static str = "OTEL_TRACES_EXPORTER";

pub const OTEL_METRICS_EXPORTER: &'static str = "OTEL_METRICS_EXPORTER";

pub const OTEL_EXPORTER_OTLP_PROTOCOL: &'static str = "OTEL_EXPORTER_OTLP_PROTOCOL";

pub const OTEL_EXPORTER_OTLP_TRACES_PROTOCOL: &'static str = "OTEL_EXPORTER_OTLP_TRACES_PROTOCOL";

pub const OTEL_EXPORTER_OTLP_METRICS_PROTOCOL: &'static str = "OTEL_EXPORTER_OTLP_METRICS_PROTOCOL";

// ---------------------------------------------------------------------------
// Selections
// ---------------------------------------------------------------------------

/// Which exporter a signal is delivered to.
///
/// The OpenTelemetry specification defaults exporter selection to `otlp`;
/// this gateway deliberately defaults to `none` so that telemetry is opt-in
/// and no exporter is ever constructed unless an operator asked for one.
#[derive(Debug, Clone, Copy, PartialEq, Eq, Structural)]
pub enum ExporterSelection {
    /// `none`.
    Off,
    /// `otlp`.
    Otlp,
}

impl Default for ExporterSelection {
    fn default() -> (selection: Self)
        ensures
            selection == ExporterSelection::Off,
    {
        ExporterSelection::Off
    }
}

/// OTLP wire protocol.
///
/// Only `http/protobuf` is offered: the gRPC transport requires `tonic`,
/// whose minimum supported Rust version (1.88) is above this repository's
/// MSRV (1.85).
#[derive(Debug, Clone, Copy, PartialEq, Eq, Structural)]
pub enum OtlpProtocol {
    HttpProtobuf,
}

impl Default for OtlpProtocol {
    fn default() -> (protocol: Self)
        ensures
            protocol == OtlpProtocol::HttpProtobuf,
    {
        OtlpProtocol::HttpProtobuf
    }
}

/// A variable whose value is invalid, and the value.
#[derive(Debug, PartialEq, Eq)]
pub enum TelemetryConfigError {
    InvalidBool { var: &'static str, value: String },
    UnknownExporter { var: &'static str, value: String },
    UnsupportedProtocol { var: &'static str, value: String },
}

// ---------------------------------------------------------------------------
// Models
// ---------------------------------------------------------------------------

/// A refused variable: which kind of value it takes, its name, and what it held.
pub enum Refusal {
    InvalidBool(Seq<char>, Seq<char>),
    UnknownExporter(Seq<char>, Seq<char>),
    UnsupportedProtocol(Seq<char>, Seq<char>),
}

/// Telemetry settings as values.
pub struct Settings {
    pub traces: ExporterSelection,
    pub metrics: ExporterSelection,
    pub protocol: OtlpProtocol,
    pub service_name: Seq<char>,
    pub otlp_endpoint: Option<Seq<char>>,
    pub otlp_timeout: Option<Duration>,
}

/// The variables that this module reads.
pub open spec fn is_read(name: Seq<char>) -> bool {
    ||| name == OTEL_SDK_DISABLED@
    ||| name == OTEL_SERVICE_NAME@
    ||| name == OTEL_TRACES_EXPORTER@
    ||| name == OTEL_METRICS_EXPORTER@
    ||| name == OTEL_EXPORTER_OTLP_PROTOCOL@
    ||| name == OTEL_EXPORTER_OTLP_TRACES_PROTOCOL@
    ||| name == OTEL_EXPORTER_OTLP_METRICS_PROTOCOL@
}

/// Every answer of `lookup` about a variable that is read is what `env` says.
pub open spec fn answers<F: Fn(&str) -> Option<String>>(lookup: F, env: environment::Environment) -> bool {
    forall|name: &str, value: Option<String>|
        is_read(name@) && #[trigger] call_ensures(lookup, (name,), value) ==> text::opt_text(value) == env(name@)
}

/// A switch is off unless it is set to `true`; a value that is no boolean is refused.
pub open spec fn bool_setting(var: Seq<char>, value: Option<Seq<char>>) -> Result<bool, Refusal> {
    match text::cleaned(value) {
        None => Ok(false),
        Some(text) => if text::lower(text) == "true"@ {
            Ok(true)
        } else if text::lower(text) == "false"@ {
            Ok(false)
        } else {
            Err(Refusal::InvalidBool(var, text))
        },
    }
}

/// The exporter that a keyword selects.
pub open spec fn exporter_keyword(text: Seq<char>) -> Option<ExporterSelection> {
    if text::keyword(text) == "none"@ {
        Some(ExporterSelection::Off)
    } else if text::keyword(text) == "otlp"@ {
        Some(ExporterSelection::Otlp)
    } else {
        None
    }
}

/// The protocol that a keyword selects.
pub open spec fn protocol_keyword(text: Seq<char>) -> Option<OtlpProtocol> {
    if text::keyword(text) == "http/protobuf"@ {
        Some(OtlpProtocol::HttpProtobuf)
    } else {
        None
    }
}

/// A signal has no exporter unless one is selected.
pub open spec fn exporter_setting(var: Seq<char>, value: Option<Seq<char>>) -> Result<ExporterSelection, Refusal> {
    match text::cleaned(value) {
        None => Ok(ExporterSelection::Off),
        Some(text) => match exporter_keyword(text) {
            Some(selection) => Ok(selection),
            None => Err(Refusal::UnknownExporter(var, text)),
        },
    }
}

/// The protocol is `http/protobuf`; a variable that asks for another is refused.
pub open spec fn protocol_setting(var: Seq<char>, value: Option<Seq<char>>) -> Result<OtlpProtocol, Refusal> {
    match text::cleaned(value) {
        None => Ok(OtlpProtocol::HttpProtobuf),
        Some(text) => match protocol_keyword(text) {
            Some(protocol) => Ok(protocol),
            None => Err(Refusal::UnsupportedProtocol(var, text)),
        },
    }
}

/// Telemetry fully off.
pub open spec fn disabled_settings() -> Settings {
    Settings {
        traces: ExporterSelection::Off,
        metrics: ExporterSelection::Off,
        protocol: OtlpProtocol::HttpProtobuf,
        service_name: "agentic-api"@,
        otlp_endpoint: None,
        otlp_timeout: None,
    }
}

/// The settings that an environment selects, the kill switch aside: the first invalid
/// variable refuses them all.
pub open spec fn selected_settings(env: environment::Environment) -> Result<Settings, Refusal> {
    match exporter_setting(OTEL_TRACES_EXPORTER@, env(OTEL_TRACES_EXPORTER@)) {
        Err(refusal) => Err(refusal),
        Ok(traces) => match exporter_setting(OTEL_METRICS_EXPORTER@, env(OTEL_METRICS_EXPORTER@)) {
            Err(refusal) => Err(refusal),
            Ok(metrics) => match protocol_setting(
                OTEL_EXPORTER_OTLP_PROTOCOL@,
                env(OTEL_EXPORTER_OTLP_PROTOCOL@),
            ) {
                Err(refusal) => Err(refusal),
                Ok(protocol) => match protocol_setting(
                    OTEL_EXPORTER_OTLP_TRACES_PROTOCOL@,
                    env(OTEL_EXPORTER_OTLP_TRACES_PROTOCOL@),
                ) {
                    Err(refusal) => Err(refusal),
                    Ok(_) => match protocol_setting(
                        OTEL_EXPORTER_OTLP_METRICS_PROTOCOL@,
                        env(OTEL_EXPORTER_OTLP_METRICS_PROTOCOL@),
                    ) {
                        Err(refusal) => Err(refusal),
                        Ok(_) => Ok(
                            Settings {
                                traces,
                                metrics,
                                protocol,
                                service_name: match text::cleaned(env(OTEL_SERVICE_NAME@)) {
                                    Some(name) => name,
                                    None => "agentic-api"@,
                                },
                                otlp_endpoint: None,
                                otlp_timeout: None,
                            },
                        ),
                    },
                },
            },
        },
    }
}

/// The settings that an environment gives: any invalid variable refuses them, and the
/// kill switch then decides whether the selections count.
pub open spec fn settings_from(env: environment::Environment) -> Result<Settings, Refusal> {
    match bool_setting(OTEL_SDK_DISABLED@, env(OTEL_SDK_DISABLED@)) {
        Err(refusal) => Err(refusal),
        Ok(off) => match selected_settings(env) {
            Err(refusal) => Err(refusal),
            Ok(settings) => Ok(
                if off {
                    disabled_settings()
                } else {
                    settings
                },
            ),
        },
    }
}

impl View for TelemetryConfigError {
    type V = Refusal;

    open spec fn view(&self) -> Refusal {
        match *self {
            TelemetryConfigError::InvalidBool { var, value } => Refusal::InvalidBool(var@, value@),
            TelemetryConfigError::UnknownExporter { var, value } => Refusal::UnknownExporter(var@, value@),
            TelemetryConfigError::UnsupportedProtocol { var, value } => Refusal::UnsupportedProtocol(var@, value@),
        }
    }
}

/// A result with its error as a value.
pub open spec fn outcome<T>(r: Result<T, TelemetryConfigError>) -> Result<T, Refusal> {
    match r {
        Ok(value) => Ok(value),
        Err(error) => Err(error@),
    }
}

/// The diagnostic of a refused variable.
pub open spec fn refusal_message(refusal: Refusal) -> Seq<char> {
    match refusal {
        Refusal::InvalidBool(var, value) => var + " must be `true` or `false`, got `"@ + value + "`"@,
        Refusal::UnknownExporter(var, value) => var + " must be `none` or `otlp`, got `"@ + value + "`"@,
        Refusal::UnsupportedProtocol(var, value) => var
            + " must be `http/protobuf` (gRPC is unavailable below Rust 1.88), got `"@ + value + "`"@,
    }
}

// ---------------------------------------------------------------------------
// Parsing
// ---------------------------------------------------------------------------

impl ExporterSelection {
    /// The exporter that `value` selects.
    ///
    /// # Errors
    /// Returns the variable and the value where the value names no exporter.
    pub fn parse(var: &'static str, value: &str) -> (r: Result<Self, TelemetryConfigError>)
        ensures
            outcome(r) == match exporter_keyword(value@) {
                Some(selection) => Ok(selection),
                None => Err(Refusal::UnknownExporter(var@, value@)),
            },
    {
        if text::is_keyword(value, "none") {
            Ok(ExporterSelection::Off)
        } else if text::is_keyword(value, "otlp") {
            Ok(ExporterSelection::Otlp)
        } else {
            Err(TelemetryConfigError::UnknownExporter { var, value: value.to_owned() })
        }
    }
}

impl OtlpProtocol {
    /// The protocol that `value` selects.
    ///
    /// # Errors
    /// Returns the variable and the value where the value names no protocol offered.
    pub fn parse(var: &'static str, value: &str) -> (r: Result<Self, TelemetryConfigError>)
        ensures
            outcome(r) == match protocol_keyword(value@) {
                Some(protocol) => Ok(protocol),
                None => Err(Refusal::UnsupportedProtocol(var@, value@)),
            },
    {
        if text::is_keyword(value, "http/protobuf") {
            Ok(OtlpProtocol::HttpProtobuf)
        } else {
            Err(TelemetryConfigError::UnsupportedProtocol { var, value: value.to_owned() })
        }
    }

    /// The protocol's name on the wire.
    pub fn as_str(self) -> (name: &'static str)
        ensures
            name@ == "http/protobuf"@,
    {
        match self {
            OtlpProtocol::HttpProtobuf => "http/protobuf",
        }
    }
}

impl TelemetryConfigError {
    /// The diagnostic text.
    pub fn to_string(&self) -> (message: String)
        ensures
            message@ == refusal_message(self@),
    {
        let (var, expected, value): (&'static str, &'static str, &String) = match self {
            TelemetryConfigError::InvalidBool { var, value } => (var, " must be `true` or `false`, got `", value),
            TelemetryConfigError::UnknownExporter { var, value } => (var, " must be `none` or `otlp`, got `", value),
            TelemetryConfigError::UnsupportedProtocol { var, value } => (
                var,
                " must be `http/protobuf` (gRPC is unavailable below Rust 1.88), got `",
                value,
            ),
        };
        var.to_owned().concat(expected).concat(value.as_str()).concat("`")
    }
}

/// Validated telemetry settings.
#[derive(Debug, PartialEq, Eq)]
pub struct TelemetryConfig {
    traces: ExporterSelection,
    metrics: ExporterSelection,
    protocol: OtlpProtocol,
    service_name: String,
    /// Programmatic OTLP endpoint. Overrides every endpoint environment
    /// variable, so it is only set by embedding code and tests, never from
    /// the environment.
    otlp_endpoint: Option<String>,
    /// Programmatic per-export timeout; same override semantics as the
    /// endpoint.
    otlp_timeout: Option<Duration>,
}

impl View for TelemetryConfig {
    type V = Settings;

    closed spec fn view(&self) -> Settings {
        Settings {
            traces: self.traces,
            metrics: self.metrics,
            protocol: self.protocol,
            service_name: self.service_name@,
            otlp_endpoint: text::opt_text(self.otlp_endpoint),
            otlp_timeout: self.otlp_timeout,
        }
    }
}

impl Clone for TelemetryConfig {
    fn clone(&self) -> (copy: Self)
        ensures
            copy@ == self@,
    {
        TelemetryConfig {
            traces: self.traces,
            metrics: self.metrics,
            protocol: self.protocol,
            service_name: self.service_name.clone(),
            otlp_endpoint: self.otlp_endpoint.clone(),
            otlp_timeout: self.otlp_timeout,
        }
    }
}

impl Default for TelemetryConfig {
    fn default() -> (config: Self)
        ensures
            config@ == disabled_settings(),
    {
        TelemetryConfig::disabled()
    }
}

impl TelemetryConfig {
    /// Telemetry fully off: no providers, no exporters, no subscriber layer.
    pub fn disabled() -> (config: Self)
        ensures
            config@ == disabled_settings(),
    {
        TelemetryConfig {
            traces: ExporterSelection::Off,
            metrics: ExporterSelection::Off,
            protocol: OtlpProtocol::HttpProtobuf,
            service_name: DEFAULT_SERVICE_NAME.to_owned(),
            otlp_endpoint: None,
            otlp_timeout: None,
        }
    }

    /// Parse from an arbitrary lookup function.
    ///
    /// # Errors
    ///
    /// Returns [`TelemetryConfigError`] for any recognised variable whose
    /// value is invalid, also under the kill switch; where several are, the first
    /// in reading order is named. Unset variables take their documented defaults.
    pub fn from_lookup<F>(lookup: F) -> (r: Result<Self, TelemetryConfigError>) where
        F: Fn(&str) -> Option<String>,

        requires
            forall|name: &str| call_requires(lookup, (name,)),
        ensures
            forall|env: environment::Environment| #[trigger]
                answers(lookup, env) ==> match r {
                    Ok(config) => settings_from(env) == Ok::<Settings, Refusal>(config@),
                    Err(error) => settings_from(env) == Err::<Settings, Refusal>(error@),
                },
    {
        let disabled: bool = parse_bool(OTEL_SDK_DISABLED, text::borrowed(&lookup(OTEL_SDK_DISABLED)))?;
        let traces: ExporterSelection = parse_exporter(OTEL_TRACES_EXPORTER, text::borrowed(&lookup(OTEL_TRACES_EXPORTER)))?;
        let metrics: ExporterSelection = parse_exporter(OTEL_METRICS_EXPORTER, text::borrowed(&lookup(OTEL_METRICS_EXPORTER)))?;
        let protocol: OtlpProtocol = parse_protocol(
            OTEL_EXPORTER_OTLP_PROTOCOL,
            text::borrowed(&lookup(OTEL_EXPORTER_OTLP_PROTOCOL)),
        )?;
        // The exporter honours the signal-specific variables over the generic
        // one, so each must be validated even though only one protocol exists.
        parse_protocol(OTEL_EXPORTER_OTLP_TRACES_PROTOCOL, text::borrowed(&lookup(OTEL_EXPORTER_OTLP_TRACES_PROTOCOL)))?;
        parse_protocol(OTEL_EXPORTER_OTLP_METRICS_PROTOCOL, text::borrowed(&lookup(OTEL_EXPORTER_OTLP_METRICS_PROTOCOL)))?;
        if disabled {
            return Ok(TelemetryConfig::disabled());
        }
        let service_name: String = match text::cleaned_copy(lookup(OTEL_SERVICE_NAME)) {
            Some(name) => name,
            None => DEFAULT_SERVICE_NAME.to_owned(),
        };
        Ok(TelemetryConfig { traces, metrics, protocol, service_name, otlp_endpoint: None, otlp_timeout: None })
    }

    /// Route both signals to the given OTLP/HTTP base endpoint, ignoring the
    /// endpoint environment variables.
    pub fn with_otlp_endpoint(self, endpoint: &str) -> (config: Self)
        ensures
            config@ == (Settings { otlp_endpoint: Some(endpoint@), ..self@ }),
    {
        let mut config: TelemetryConfig = self;
        config.otlp_endpoint = Some(endpoint.to_owned());
        config
    }

    /// Bound every OTLP export request by `timeout`, ignoring the timeout
    /// environment variables.
    pub fn with_otlp_timeout(self, timeout: Duration) -> (config: Self)
        ensures
            config@ == (Settings { otlp_timeout: Some(timeout), ..self@ }),
    {
        let mut config: TelemetryConfig = self;
        config.otlp_timeout = Some(timeout);
        config
    }

    /// The exporter of traces.
    pub fn traces(&self) -> (selection: ExporterSelection)
        ensures
            selection == self@.traces,
    {
        self.traces
    }

    /// The exporter of metrics.
    pub fn metrics(&self) -> (selection: ExporterSelection)
        ensures
            selection == self@.metrics,
    {
        self.metrics
    }

    /// The wire protocol.
    pub fn protocol(&self) -> (protocol: OtlpProtocol)
        ensures
            protocol == self@.protocol,
    {
        self.protocol
    }

    /// The service name that exports carry.
    pub fn service_name(&self) -> (name: &str)
        ensures
            name@ == self@.service_name,
    {
        self.service_name.as_str()
    }

    /// The programmatic endpoint.
    pub fn otlp_endpoint(&self) -> (endpoint: Option<&str>)
        ensures
            text::opt_str(endpoint) == self@.otlp_endpoint,
    {
        text::borrowed(&self.otlp_endpoint)
    }

    /// The programmatic timeout.
    pub fn otlp_timeout(&self) -> (timeout: Option<Duration>)
        ensures
            timeout == self@.otlp_timeout,
    {
        self.otlp_timeout
    }

    /// `true` when at least one signal has an exporter selected.
    pub fn is_enabled(&self) -> (enabled: bool)
        ensures
            enabled == settings_enabled(self@),
    {
        self.traces != ExporterSelection::Off || self.metrics != ExporterSelection::Off
    }
}

/// At least one signal has an exporter.
pub open spec fn settings_enabled(settings: Settings) -> bool {
    settings.traces != ExporterSelection::Off || settings.metrics != ExporterSelection::Off
}

/// Whether a switch is on.
///
/// # Errors
/// Returns the variable and the trimmed value where the value is no boolean.
pub fn parse_bool(var: &'static str, value: Option<&str>) -> (r: Result<bool, TelemetryConfigError>)
    ensures
        outcome(r) == bool_setting(var@, text::opt_str(value)),
{
    match value {
        None => Ok(false),
        Some(raw) => {
            let text: &str = raw.trim();
            if text.is_empty() {
                return Ok(false);
            }
            let folded: String = text.to_ascii_lowercase();
            if text::same_text(folded.as_str(), "true") {
                Ok(true)
            } else if text::same_text(folded.as_str(), "false") {
                Ok(false)
            } else {
                Err(TelemetryConfigError::InvalidBool { var, value: text.to_owned() })
            }
        },
    }
}

/// The exporter that a variable selects, none where it is unset or blank.
///
/// # Errors
/// Returns the variable and the trimmed value where the value names no exporter.
pub fn parse_exporter(var: &'static str, value: Option<&str>) -> (r: Result<
    ExporterSelection,
    TelemetryConfigError,
>)
    ensures
        outcome(r) == exporter_setting(var@, text::opt_str(value)),
{
    match value {
        None => Ok(ExporterSelection::Off),
        Some(raw) => {
            let text: &str = raw.trim();
            if text.is_empty() {
                return Ok(ExporterSelection::Off);
            }
            ExporterSelection::parse(var, text)
        },
    }
}

/// The protocol that a variable selects, the default where it is unset or blank.
///
/// # Errors
/// Returns the variable and the trimmed value where the value names no protocol offered.
pub fn parse_protocol(var: &'static str, value: Option<&str>) -> (r: Result<OtlpProtocol, TelemetryConfigError>)
    ensures
        outcome(r) == protocol_setting(var@, text::opt_str(value)),
{
    match value {
        None => Ok(OtlpProtocol::HttpProtobuf),
        Some(raw) => {
            let text: &str = raw.trim();
            if text.is_empty() {
                return Ok(OtlpProtocol::HttpProtobuf);
            }
            OtlpProtocol::parse(var, text)
        },
    }
}

// ---------------------------------------------------------------------------
// Laws
// ---------------------------------------------------------------------------

/// The kill switch is on.
pub open spec fn is_killed(env: environment::Environment) -> bool {
    bool_setting(OTEL_SDK_DISABLED@, env(OTEL_SDK_DISABLED@)) == Ok::<bool, Refusal>(true)
}

/// Telemetry is opt-in: where no variable that is read says anything, it is off.
pub proof fn law_unset_environment_is_disabled(env: environment::Environment)
    requires
        forall|name: Seq<char>| is_read(name) ==> text::cleaned(#[trigger] env(name)) is None,
    ensures
        settings_from(env) == Ok::<Settings, Refusal>(disabled_settings()),
        !settings_enabled(disabled_settings()),
{
}

/// The kill switch overrides every selection: under it the settings are the disabled
/// ones, unless a variable is invalid, which is refused as without it.
pub proof fn law_kill_switch_overrides_everything(env: environment::Environment)
    requires
        is_killed(env),
    ensures
        settings_from(env) == match selected_settings(env) {
            Ok(_) => Ok::<Settings, Refusal>(disabled_settings()),
            Err(refusal) => Err(refusal),
        },
{
}

/// No environment sets the programmatic endpoint or timeout.
pub proof fn law_environment_never_sets_endpoint_or_timeout(env: environment::Environment)
    ensures
        settings_from(env) matches Ok(settings) ==> settings.otlp_endpoint is None && settings.otlp_timeout is None,
{
}

/// Each signal follows its own variable and no other.
pub proof fn law_signals_are_selected_independently(env: environment::Environment)
    requires
        !is_killed(env),
        settings_from(env) is Ok,
    ensures
        Ok::<ExporterSelection, Refusal>(settings_from(env)->Ok_0.traces) == exporter_setting(
            OTEL_TRACES_EXPORTER@,
            env(OTEL_TRACES_EXPORTER@),
        ),
        Ok::<ExporterSelection, Refusal>(settings_from(env)->Ok_0.metrics) == exporter_setting(
            OTEL_METRICS_EXPORTER@,
            env(OTEL_METRICS_EXPORTER@),
        ),
{
}

/// Every variable is held to its values: an environment is accepted exactly when all of
/// them are valid, whatever the kill switch says.
pub proof fn law_no_invalid_variable_is_accepted(env: environment::Environment)
    ensures
        settings_from(env) is Ok <==> {
            &&& bool_setting(OTEL_SDK_DISABLED@, env(OTEL_SDK_DISABLED@)) is Ok
            &&& exporter_setting(OTEL_TRACES_EXPORTER@, env(OTEL_TRACES_EXPORTER@)) is Ok
            &&& exporter_setting(OTEL_METRICS_EXPORTER@, env(OTEL_METRICS_EXPORTER@)) is Ok
            &&& protocol_setting(OTEL_EXPORTER_OTLP_PROTOCOL@, env(OTEL_EXPORTER_OTLP_PROTOCOL@)) is Ok
            &&& protocol_setting(
                OTEL_EXPORTER_OTLP_TRACES_PROTOCOL@,
                env(OTEL_EXPORTER_OTLP_TRACES_PROTOCOL@),
            ) is Ok
            &&& protocol_setting(
                OTEL_EXPORTER_OTLP_METRICS_PROTOCOL@,
                env(OTEL_EXPORTER_OTLP_METRICS_PROTOCOL@),
            ) is Ok
        },
{
}

/// Surrounding white space and ASCII case never change what a value selects.
pub proof fn law_values_are_read_by_keyword(var: Seq<char>, one: Seq<char>, other: Seq<char>)
    requires
        text::keyword(one) == text::keyword(other),
    ensures
        bool_setting(var, Some(one)) is Ok ==> bool_setting(var, Some(one)) == bool_setting(var, Some(other)),
        exporter_setting(var, Some(one)) is Ok ==> exporter_setting(var, Some(one)) == exporter_setting(
            var,
            Some(other),
        ),
        protocol_setting(var, Some(one)) is Ok ==> protocol_setting(var, Some(one)) == protocol_setting(
            var,
            Some(other),
        ),
{
    text::law_trimming_is_idempotent(one);
    text::law_trimming_is_idempotent(other);
    assert(text::keyword(one).len() == text::trimmed(one).len());
    assert(text::keyword(other).len() == text::trimmed(other).len());
}

/// What a lookup answers, as an environment.
pub open spec fn is_answered_by<F: Fn(&str) -> Option<String>>(env: environment::Environment, lookup: F) -> bool {
    forall|name: &str, value: Option<String>| #[trigger]
        call_ensures(lookup, (name,), value) ==> match value {
            Some(text) => env(name@) == Some(text@),
            None => env(name@) is None,
        }
}

/// A variable holds nothing but white space, or nothing at all.
pub open spec fn says_nothing(value: Option<Seq<char>>) -> bool {
    value matches Some(text) ==> text::trimmed(text).len() == 0
}

/// A variable holds a word, whatever its case and the white space around it.
pub open spec fn says(value: Option<Seq<char>>, word: Seq<char>) -> bool {
    value matches Some(text) && text::lower(text::trimmed(text)) == word
}

/// Accepted settings carry the service name that its own variable gives, without the
/// white space around it, and `agentic-api` where the variable says nothing or the kill
/// switch is on. No other variable has a say in it.
pub proof fn law_service_name_follows_its_variable<F: Fn(&str) -> Option<String>>(
    lookup: F,
    env: environment::Environment,
    r: Result<TelemetryConfig, TelemetryConfigError>,
    config: TelemetryConfig,
    name: &str,
)
    requires
        is_answered_by(env, lookup),
        call_ensures(TelemetryConfig::from_lookup::<F>, (lookup,), r),
        r == Ok::<TelemetryConfig, TelemetryConfigError>(config),
        call_ensures(TelemetryConfig::service_name, (&config,), name),
    ensures
        !says(env("OTEL_SDK_DISABLED"@), "true"@) && !says_nothing(env("OTEL_SERVICE_NAME"@)) ==> name@ == text::trimmed(
            env("OTEL_SERVICE_NAME"@)->Some_0,
        ),
        !says(env("OTEL_SDK_DISABLED"@), "true"@) && says_nothing(env("OTEL_SERVICE_NAME"@)) ==> name@
            == "agentic-api"@,
        says(env("OTEL_SDK_DISABLED"@), "true"@) ==> name@ == "agentic-api"@,
{
    lemma_switch_words();
    assert(answers(lookup, env));
    assert(seq![(lookup,)][0].0 == lookup);
}

/// Two environments that give the service name alike give settings with the same service
/// name, however they differ elsewhere, as long as both are accepted and in force.
pub proof fn law_service_name_is_the_same_for_the_same_variable(
    one: environment::Environment,
    other: environment::Environment,
)
    requires
        one("OTEL_SERVICE_NAME"@) == other("OTEL_SERVICE_NAME"@),
        !says(one("OTEL_SDK_DISABLED"@), "true"@),
        !says(other("OTEL_SDK_DISABLED"@), "true"@),
        settings_from(one) is Ok,
        settings_from(other) is Ok,
    ensures
        settings_from(one)->Ok_0.service_name == settings_from(other)->Ok_0.service_name,
        says_nothing(one("OTEL_SERVICE_NAME"@)) ==> settings_from(one)->Ok_0.service_name == "agentic-api"@,
        !says_nothing(one("OTEL_SERVICE_NAME"@)) ==> settings_from(one)->Ok_0.service_name == text::trimmed(
            one("OTEL_SERVICE_NAME"@)->Some_0,
        ),
{
    lemma_switch_words();
}

proof fn lemma_switch_words()
    ensures
        "true"@.len() == 4,
        "false"@.len() == 5,
        "none"@.len() == 4,
        "otlp"@.len() == 4,
        "none"@[0] == 'n',
        "otlp"@[0] == 'o',
        "http/protobuf"@.len() == 13,
{
    reveal_strlit("true");
    reveal_strlit("false");
    reveal_strlit("none");
    reveal_strlit("otlp");
    reveal_strlit("http/protobuf");
}

/// A switch is on exactly for `true`, off for `false` and for nothing, and refused, with
/// its name and its trimmed text, for anything else.
pub proof fn law_switches_go_by_their_word(var: Seq<char>, value: Option<Seq<char>>)
    ensures
        bool_setting(var, value) == Ok::<bool, Refusal>(true) <==> says(value, "true"@),
        bool_setting(var, value) == Ok::<bool, Refusal>(false) <==> says(value, "false"@) || says_nothing(value),
        bool_setting(var, value) matches Err(refusal) ==> value is Some && refusal == Refusal::InvalidBool(
            var,
            text::trimmed(value->Some_0),
        ),
{
    lemma_switch_words();
}

/// A signal is exported exactly for `otlp`, not for `none` or nothing, and refused, with
/// the variable's name and trimmed text, for anything else.
pub proof fn law_exporters_go_by_their_word(var: Seq<char>, value: Option<Seq<char>>)
    ensures
        exporter_setting(var, value) == Ok::<ExporterSelection, Refusal>(ExporterSelection::Otlp) <==> says(
            value,
            "otlp"@,
        ),
        exporter_setting(var, value) == Ok::<ExporterSelection, Refusal>(ExporterSelection::Off) <==> says(
            value,
            "none"@,
        ) || says_nothing(value),
        exporter_setting(var, value) matches Err(refusal) ==> value is Some && refusal == Refusal::UnknownExporter(
            var,
            text::trimmed(value->Some_0),
        ),
{
    lemma_switch_words();
    if let Some(text) = value {
        text::law_trimming_is_idempotent(text);
    }
}

/// A protocol variable is accepted exactly for `http/protobuf` and for nothing, and
/// refused, with its name and its trimmed text, for anything else.
pub proof fn law_protocols_go_by_their_word(var: Seq<char>, value: Option<Seq<char>>)
    ensures
        protocol_setting(var, value) == Ok::<OtlpProtocol, Refusal>(OtlpProtocol::HttpProtobuf) <==> says(
            value,
            "http/protobuf"@,
        ) || says_nothing(value),
        protocol_setting(var, value) matches Err(refusal) ==> value is Some && refusal == Refusal::UnsupportedProtocol(
            var,
            text::trimmed(value->Some_0),
        ),
{
    lemma_switch_words();
    if let Some(text) = value {
        text::law_trimming_is_idempotent(text);
    }
}

/// Accepted settings in force have each signal exported exactly where its own variable
/// says `otlp`, and nothing set by program; under the kill switch nothing is exported.
pub proof fn law_accepted_settings_follow_their_variables<F: Fn(&str) -> Option<String>>(
    lookup: F,
    env: environment::Environment,
    r: Result<TelemetryConfig, TelemetryConfigError>,
    config: TelemetryConfig,
    traces: ExporterSelection,
    metrics: ExporterSelection,
    enabled: bool,
    endpoint: Option<&str>,
    timeout: Option<Duration>,
)
    requires
        is_answered_by(env, lookup),
        call_ensures(TelemetryConfig::from_lookup::<F>, (lookup,), r),
        r == Ok::<TelemetryConfig, TelemetryConfigError>(config),
        call_ensures(TelemetryConfig::traces, (&config,), traces),
        call_ensures(TelemetryConfig::metrics, (&config,), metrics),
        call_ensures(TelemetryConfig::is_enabled, (&config,), enabled),
        call_ensures(TelemetryConfig::otlp_endpoint, (&config,), endpoint),
        call_ensures(TelemetryConfig::otlp_timeout, (&config,), timeout),
    ensures
        ({
            let in_force = !says(env("OTEL_SDK_DISABLED"@), "true"@);
            &&& traces is Otlp <==> in_force && says(env("OTEL_TRACES_EXPORTER"@), "otlp"@)
            &&& metrics is Otlp <==> in_force && says(env("OTEL_METRICS_EXPORTER"@), "otlp"@)
            &&& enabled <==> traces is Otlp || metrics is Otlp
        }),
        endpoint is None,
        timeout is None,
{
    lemma_switch_words();
    assert(answers(lookup, env));
    assert(seq![(lookup,)][0].0 == lookup);
    law_exporters_go_by_their_word("OTEL_TRACES_EXPORTER"@, env("OTEL_TRACES_EXPORTER"@));
    law_exporters_go_by_their_word("OTEL_METRICS_EXPORTER"@, env("OTEL_METRICS_EXPORTER"@));
}

/// Settings are accepted exactly where every variable says one of its words or nothing,
/// whatever the kill switch says.
pub proof fn law_only_known_words_are_accepted<F: Fn(&str) -> Option<String>>(
    lookup: F,
    env: environment::Environment,
    r: Result<TelemetryConfig, TelemetryConfigError>,
)
    requires
        is_answered_by(env, lookup),
        call_ensures(TelemetryConfig::from_lookup::<F>, (lookup,), r),
    ensures
        r is Ok <==> {
            let switch = env("OTEL_SDK_DISABLED"@);
            let traces = env("OTEL_TRACES_EXPORTER"@);
            let metrics = env("OTEL_METRICS_EXPORTER"@);
            let common = env("OTEL_EXPORTER_OTLP_PROTOCOL"@);
            let of_traces = env("OTEL_EXPORTER_OTLP_TRACES_PROTOCOL"@);
            let of_metrics = env("OTEL_EXPORTER_OTLP_METRICS_PROTOCOL"@);
            &&& says_nothing(switch) || says(switch, "true"@) || says(switch, "false"@)
            &&& says_nothing(traces) || says(traces, "none"@) || says(traces, "otlp"@)
            &&& says_nothing(metrics) || says(metrics, "none"@) || says(metrics, "otlp"@)
            &&& says_nothing(common) || says(common, "http/protobuf"@)
            &&& says_nothing(of_traces) || says(of_traces, "http/protobuf"@)
            &&& says_nothing(of_metrics) || says(of_metrics, "http/protobuf"@)
        },
{
    assert(answers(lookup, env));
    assert(seq![(lookup,)][0].0 == lookup);
    law_switches_go_by_their_word("OTEL_SDK_DISABLED"@, env("OTEL_SDK_DISABLED"@));
    law_exporters_go_by_their_word("OTEL_TRACES_EXPORTER"@, env("OTEL_TRACES_EXPORTER"@));
    law_exporters_go_by_their_word("OTEL_METRICS_EXPORTER"@, env("OTEL_METRICS_EXPORTER"@));
    law_protocols_go_by_their_word("OTEL_EXPORTER_OTLP_PROTOCOL"@, env("OTEL_EXPORTER_OTLP_PROTOCOL"@));
    law_protocols_go_by_their_word(
        "OTEL_EXPORTER_OTLP_TRACES_PROTOCOL"@,
        env("OTEL_EXPORTER_OTLP_TRACES_PROTOCOL"@),
    );
    law_protocols_go_by_their_word(
        "OTEL_EXPORTER_OTLP_METRICS_PROTOCOL"@,
        env("OTEL_EXPORTER_OTLP_METRICS_PROTOCOL"@),
    );
}

/// A refusal is that of the first variable that cannot be used, in the order kill
/// switch, traces, metrics, common protocol, traces protocol, metrics protocol.
pub proof fn law_first_refusal_counts(env: environment::Environment)
    ensures
        ({
            let switch = bool_setting("OTEL_SDK_DISABLED"@, env("OTEL_SDK_DISABLED"@));
            let traces = exporter_setting("OTEL_TRACES_EXPORTER"@, env("OTEL_TRACES_EXPORTER"@));
            let metrics = exporter_setting("OTEL_METRICS_EXPORTER"@, env("OTEL_METRICS_EXPORTER"@));
            let common = protocol_setting("OTEL_EXPORTER_OTLP_PROTOCOL"@, env("OTEL_EXPORTER_OTLP_PROTOCOL"@));
            let of_traces = protocol_setting(
                "OTEL_EXPORTER_OTLP_TRACES_PROTOCOL"@,
                env("OTEL_EXPORTER_OTLP_TRACES_PROTOCOL"@),
            );
            let of_metrics = protocol_setting(
                "OTEL_EXPORTER_OTLP_METRICS_PROTOCOL"@,
                env("OTEL_EXPORTER_OTLP_METRICS_PROTOCOL"@),
            );
            let settings = settings_from(env);
            &&& switch matches Err(refusal) ==> settings == Err::<Settings, Refusal>(refusal)
            &&& switch is Ok ==> (traces matches Err(refusal) ==> settings == Err::<Settings, Refusal>(refusal))
            &&& switch is Ok && traces is Ok ==> (metrics matches Err(refusal) ==> settings == Err::<Settings, Refusal>(
                refusal,
            ))
            &&& switch is Ok && traces is Ok && metrics is Ok ==> (common matches Err(refusal) ==> settings == Err::<
                Settings,
                Refusal,
            >(refusal))
            &&& switch is Ok && traces is Ok && metrics is Ok && common is Ok ==> (of_traces matches Err(refusal)
                ==> settings == Err::<Settings, Refusal>(refusal))
            &&& switch is Ok && traces is Ok && metrics is Ok && common is Ok && of_traces is Ok ==> (of_metrics
                matches Err(refusal) ==> settings == Err::<Settings, Refusal>(refusal))
        }),
{
}

/// Setting the endpoint or the timeout by program changes that and nothing else, and the
/// later of two settings counts.
pub proof fn law_programmed_settings_touch_nothing_else(
    config: TelemetryConfig,
    endpoint: &str,
    routed: TelemetryConfig,
    timeout: Duration,
    bounded: TelemetryConfig,
    shown_endpoint: Option<&str>,
    shown_timeout: Option<Duration>,
)
    requires
        call_ensures(TelemetryConfig::with_otlp_endpoint, (config, endpoint), routed),
        call_ensures(TelemetryConfig::with_otlp_timeout, (routed, timeout), bounded),
        call_ensures(TelemetryConfig::otlp_endpoint, (&bounded,), shown_endpoint),
        call_ensures(TelemetryConfig::otlp_timeout, (&bounded,), shown_timeout),
    ensures
        shown_endpoint matches Some(shown) && shown@ == endpoint@,
        shown_timeout == Some(timeout),
        bounded@.otlp_endpoint == Some(endpoint@),
        bounded@.otlp_timeout == Some(timeout),
        routed@.otlp_timeout == config@.otlp_timeout,
        bounded@.traces == config@.traces,
        bounded@.metrics == config@.metrics,
        bounded@.protocol == config@.protocol,
        bounded@.service_name == config@.service_name,
{
}

/// A copy, the default settings and the disabled ones: a copy keeps every setting, and
/// the other two export nothing under the name `agentic-api`.
pub proof fn law_disabled_settings_export_nothing(
    config: TelemetryConfig,
    copy: TelemetryConfig,
    disabled: TelemetryConfig,
    default: TelemetryConfig,
    exporter: ExporterSelection,
    protocol: OtlpProtocol,
    shown: OtlpProtocol,
)
    requires
        call_ensures(ExporterSelection::default, (), exporter),
        call_ensures(OtlpProtocol::default, (), protocol),
        call_ensures(TelemetryConfig::protocol, (&config,), shown),
        call_ensures(TelemetryConfig::clone, (&config,), copy),
        call_ensures(TelemetryConfig::disabled, (), disabled),
        call_ensures(TelemetryConfig::default, (), default),
    ensures
        exporter is Off,
        protocol is HttpProtobuf,
        shown == config@.protocol,
        copy@ == config@,
        disabled@.traces is Off && disabled@.metrics is Off,
        disabled@.service_name == "agentic-api"@,
        disabled@.otlp_endpoint is None && disabled@.otlp_timeout is None,
        default@ == disabled@,
{
}

/// A diagnostic begins with the variable's name, says which words it takes, and ends
/// with the text that it held.
pub proof fn law_diagnostics_name_variable_and_value(error: TelemetryConfigError, message: String)
    requires
        call_ensures(TelemetryConfigError::to_string, (&error,), message),
    ensures
        error matches TelemetryConfigError::InvalidBool { var, value } ==> message@ == var@
            + " must be `true` or `false`, got `"@ + value@ + "`"@,
        error matches TelemetryConfigError::UnknownExporter { var, value } ==> message@ == var@
            + " must be `none` or `otlp`, got `"@ + value@ + "`"@,
        error matches TelemetryConfigError::UnsupportedProtocol { var, value } ==> message@ == var@
            + " must be `http/protobuf` (gRPC is unavailable below Rust 1.88), got `"@ + value@ + "`"@,
{
}

/// The parsers of single values return the settings of their words.
pub proof fn law_parsed_values_go_by_their_word(
    var: &'static str,
    value: Option<&str>,
    raw: &str,
    switch: Result<bool, TelemetryConfigError>,
    exporter: Result<ExporterSelection, TelemetryConfigError>,
    protocol: Result<OtlpProtocol, TelemetryConfigError>,
    selection: Result<ExporterSelection, TelemetryConfigError>,
    wire: Result<OtlpProtocol, TelemetryConfigError>,
    wire_name: &'static str,
)
    requires
        call_ensures(parse_bool, (var, value), switch),
        call_ensures(parse_exporter, (var, value), exporter),
        call_ensures(parse_protocol, (var, value), protocol),
        call_ensures(ExporterSelection::parse, (var, raw), selection),
        call_ensures(OtlpProtocol::parse, (var, raw), wire),
        call_ensures(OtlpProtocol::as_str, (OtlpProtocol::HttpProtobuf,), wire_name),
    ensures
        ({
            let held = match value {
                Some(text) => Some(text@),
                None => None,
            };
            &&& switch is Ok <==> says_nothing(held) || says(held, "true"@) || says(held, "false"@)
            &&& switch matches Ok(on) ==> (on <==> says(held, "true"@))
            &&& exporter is Ok <==> says_nothing(held) || says(held, "none"@) || says(held, "otlp"@)
            &&& exporter matches Ok(selected) ==> (selected is Otlp <==> says(held, "otlp"@))
            &&& protocol is Ok <==> says_nothing(held) || says(held, "http/protobuf"@)
            &&& switch matches Err(error) ==> error@ == Refusal::InvalidBool(var@, text::trimmed(held->Some_0))
            &&& exporter matches Err(error) ==> error@ == Refusal::UnknownExporter(var@, text::trimmed(held->Some_0))
            &&& protocol matches Err(error) ==> error@ == Refusal::UnsupportedProtocol(
                var@,
                text::trimmed(held->Some_0),
            )
        }),
        selection is Ok <==> says(Some(raw@), "none"@) || says(Some(raw@), "otlp"@),
        selection matches Ok(selected) ==> (selected is Otlp <==> says(Some(raw@), "otlp"@)),
        selection matches Err(error) ==> error@ == Refusal::UnknownExporter(var@, raw@),
        wire is Ok <==> says(Some(raw@), "http/protobuf"@),
        wire matches Err(error) ==> error@ == Refusal::UnsupportedProtocol(var@, raw@),
        wire_name@ == "http/protobuf"@,
{
    lemma_switch_words();
    let held = match value {
        Some(text) => Some(text@),
        None => None,
    };
    law_switches_go_by_their_word(var@, held);
    law_exporters_go_by_their_word(var@, held);
    law_protocols_go_by_their_word(var@, held);
}

} // verus!
