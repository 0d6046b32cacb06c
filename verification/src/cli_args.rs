//! Command-line settings of the node scraper.
//!
//! The grammar: the first argument names the program; every other argument is
//! `--help` / `-h`, `--version` / `-V` (a cluster of short flags such as `-hV`
//! is read from its first flag on), or a long option `--NAME=VALUE` or
//! `--NAME VALUE`, each option at most once; a lone `--` ends the options.
//! Options that are not given take their default values. Arguments are read
//! from left to right, and the first one that is wrong decides the error.
use std::time::Duration;
use vstd::prelude::*;
use vstd::string::*;

use crate::decimal::{
    decimal_text, is_ascii_digit, law_decimal_round_trip, lemma_decimal_text_value, parse_port, parse_u64, spec_parse_port, spec_parse_u64,
};
use crate::text::{concat, opt_string_view, owned, text_eq};

verus! {

/// What `Duration::from_secs` returns for a number of whole seconds.
pub uninterp spec fn secs_duration(secs: u64) -> Duration;

/// `Duration::from_secs`: a duration of `secs` whole seconds. Claimed: the
/// result is determined by `secs` alone.
#[verifier::external_body]
fn duration_from_secs(secs: u64) -> (d: Duration)
    ensures
        d == secs_duration(secs),
{
    Duration::from_secs(secs)
}

/// How the kubelet's serving certificate is checked.
#[derive(Clone, Copy, Debug, PartialEq, Eq, Structural)]
pub enum KubeletServerIdentity {
    /// Verify the certificate against the node IP address.
    NodeIp,
    /// Verify the certificate against the Kubernetes node name.
    NodeName,
    /// Verify the certificate chain without verifying its subject alternative names.
    CaOnly,
}

/// The identity that a command-line value names.
pub open spec fn spec_identity_named(v: Seq<char>) -> Option<KubeletServerIdentity> {
    if v == "node-ip"@ {
        Some(KubeletServerIdentity::NodeIp)
    } else if v == "node-name"@ {
        Some(KubeletServerIdentity::NodeName)
    } else if v == "ca-only"@ {
        Some(KubeletServerIdentity::CaOnly)
    } else {
        None
    }
}

fn identity_named(v: &str) -> (r: Option<KubeletServerIdentity>)
    ensures
        r == spec_identity_named(v@),
{
    if text_eq(v, "node-ip") {
        Some(KubeletServerIdentity::NodeIp)
    } else if text_eq(v, "node-name") {
        Some(KubeletServerIdentity::NodeName)
    } else if text_eq(v, "ca-only") {
        Some(KubeletServerIdentity::CaOnly)
    } else {
        None
    }
}

/// Settings of the node scraper.
#[derive(Debug)]
pub struct CliArgs {
    /// CA certificate bundle used to verify the kubelet certificate. When not
    /// specified, kubelet certificate verification is disabled.
    pub kubelet_ca_cert_file: Option<String>,
    /// Identity used to verify the kubelet certificate.
    pub kubelet_server_identity: KubeletServerIdentity,
    /// Kubelet stats poll interval; whole seconds, greater than zero.
    pub kubelet_stats_poll_interval: Duration,
    /// Kubelet health poll interval; whole seconds, greater than zero.
    pub kubelet_health_poll_interval: Duration,
    /// System-agent poll interval; whole seconds, greater than zero.
    pub system_agent_poll_interval: Duration,
    /// Timeout for each system-agent execution; whole seconds, greater than zero.
    pub system_agent_timeout: Duration,
    /// Namespace that cluster-aggregator lives in.
    pub cluster_aggregator_namespace: String,
    /// Service name that cluster-aggregator responds on.
    pub cluster_aggregator_service: String,
    /// Port to talk to cluster-aggregator on.
    pub cluster_aggregator_port: u16,
    /// CA certificate for connecting to cluster-aggregator. When not specified,
    /// HTTP is used.
    pub cluster_aggregator_ca_cert_file: Option<String>,
}

/// The options that the scraper takes.
#[derive(Clone, Copy, Debug, PartialEq, Eq, Structural)]
pub enum CliOption {
    KubeletCaCertFile,
    ServerIdentity,
    KubeletStatsPollInterval,
    KubeletHealthPollInterval,
    SystemAgentPollInterval,
    SystemAgentTimeout,
    ClusterAggregatorNamespace,
    ClusterAggregatorService,
    ClusterAggregatorPort,
    ClusterAggregatorCaCertFile,
}

/// The option that a long flag name (without the leading `--`) designates.
pub open spec fn spec_option_named(name: Seq<char>) -> Option<CliOption> {
    if name == "kubelet-ca-cert-file"@ {
        Some(CliOption::KubeletCaCertFile)
    } else if name == "kubelet-server-identity"@ {
        Some(CliOption::ServerIdentity)
    } else if name == "kubelet-stats-poll-interval"@ {
        Some(CliOption::KubeletStatsPollInterval)
    } else if name == "kubelet-health-poll-interval"@ {
        Some(CliOption::KubeletHealthPollInterval)
    } else if name == "system-agent-poll-interval"@ {
        Some(CliOption::SystemAgentPollInterval)
    } else if name == "system-agent-timeout"@ {
        Some(CliOption::SystemAgentTimeout)
    } else if name == "cluster-aggregator-namespace"@ {
        Some(CliOption::ClusterAggregatorNamespace)
    } else if name == "cluster-aggregator-service"@ {
        Some(CliOption::ClusterAggregatorService)
    } else if name == "cluster-aggregator-port"@ {
        Some(CliOption::ClusterAggregatorPort)
    } else if name == "cluster-aggregator-ca-cert-file"@ {
        Some(CliOption::ClusterAggregatorCaCertFile)
    } else {
        None
    }
}

fn option_named(name: &str) -> (r: Option<CliOption>)
    ensures
        r == spec_option_named(name@),
{
    if text_eq(name, "kubelet-ca-cert-file") {
        Some(CliOption::KubeletCaCertFile)
    } else if text_eq(name, "kubelet-server-identity") {
        Some(CliOption::ServerIdentity)
    } else if text_eq(name, "kubelet-stats-poll-interval") {
        Some(CliOption::KubeletStatsPollInterval)
    } else if text_eq(name, "kubelet-health-poll-interval") {
        Some(CliOption::KubeletHealthPollInterval)
    } else if text_eq(name, "system-agent-poll-interval") {
        Some(CliOption::SystemAgentPollInterval)
    } else if text_eq(name, "system-agent-timeout") {
        Some(CliOption::SystemAgentTimeout)
    } else if text_eq(name, "cluster-aggregator-namespace") {
        Some(CliOption::ClusterAggregatorNamespace)
    } else if text_eq(name, "cluster-aggregator-service") {
        Some(CliOption::ClusterAggregatorService)
    } else if text_eq(name, "cluster-aggregator-port") {
        Some(CliOption::ClusterAggregatorPort)
    } else if text_eq(name, "cluster-aggregator-ca-cert-file") {
        Some(CliOption::ClusterAggregatorCaCertFile)
    } else {
        None
    }
}

/// The slot in which a given option's value is kept while reading the arguments.
pub open spec fn option_slot(o: CliOption) -> int {
    match o {
        CliOption::KubeletCaCertFile => 0,
        CliOption::ServerIdentity => 1,
        CliOption::KubeletStatsPollInterval => 2,
        CliOption::KubeletHealthPollInterval => 3,
        CliOption::SystemAgentPollInterval => 4,
        CliOption::SystemAgentTimeout => 5,
        CliOption::ClusterAggregatorNamespace => 6,
        CliOption::ClusterAggregatorService => 7,
        CliOption::ClusterAggregatorPort => 8,
        CliOption::ClusterAggregatorCaCertFile => 9,
    }
}

fn slot_of(o: CliOption) -> (r: usize)
    ensures
        r == option_slot(o),
        r < 10,
{
    match o {
        CliOption::KubeletCaCertFile => 0,
        CliOption::ServerIdentity => 1,
        CliOption::KubeletStatsPollInterval => 2,
        CliOption::KubeletHealthPollInterval => 3,
        CliOption::SystemAgentPollInterval => 4,
        CliOption::SystemAgentTimeout => 5,
        CliOption::ClusterAggregatorNamespace => 6,
        CliOption::ClusterAggregatorService => 7,
        CliOption::ClusterAggregatorPort => 8,
        CliOption::ClusterAggregatorCaCertFile => 9,
    }
}

/// The kinds of command-line errors.
#[derive(Clone, Copy, Debug, PartialEq, Eq, Structural)]
pub enum CliErrorKind {
    /// `--help` or `-h` (alone or first in a cluster) was given: the caller
    /// shows the usage text.
    DisplayHelp,
    /// `--version` or `-V` (alone or first in a cluster) was given: the
    /// caller shows the version.
    DisplayVersion,
    /// An argument that is no option of the scraper.
    UnknownArgument,
    /// An option given twice.
    ArgumentConflict,
    /// An option without its value, or an identity value that is not one of
    /// `node-ip`, `node-name`, `ca-only`.
    InvalidValue,
    /// A value that the option's value parser refused.
    ValueValidation,
    /// A value attached to a flag that takes none (`--help=x`).
    TooManyValues,
}

/// A refused command line.
#[derive(Debug)]
pub struct CliError {
    kind: CliErrorKind,
    argument: String,
    reason: String,
}

/// What a refused command line is made of: its kind, the argument or option
/// at fault, and why (empty where the kind says all).
pub struct CliErrorView {
    pub kind: CliErrorKind,
    pub argument: Seq<char>,
    pub reason: Seq<char>,
}

impl View for CliError {
    type V = CliErrorView;

    closed spec fn view(&self) -> CliErrorView {
        CliErrorView { kind: self.kind, argument: self.argument@, reason: self.reason@ }
    }
}

impl CliError {
    /// The kind of the error.
    pub fn kind(&self) -> (r: CliErrorKind)
        ensures
            r == self@.kind,
    {
        self.kind
    }

    /// The argument or option at fault.
    pub fn argument(&self) -> (r: &str)
        ensures
            r@ == self@.argument,
    {
        self.argument.as_str()
    }

    /// Why the value was refused; empty where the kind says all.
    pub fn reason(&self) -> (r: &str)
        ensures
            r@ == self@.reason,
    {
        self.reason.as_str()
    }
}

/// The message for a value that is no whole number.
pub open spec fn not_a_number_message() -> Seq<char> {
    "expected a positive whole number of seconds"@
}

/// The message for a zero number of seconds.
pub open spec fn zero_seconds_message() -> Seq<char> {
    "must be greater than zero"@
}

/// The message for a port that is no number in `0..=65535`.
pub open spec fn bad_port_message() -> Seq<char> {
    "expected a port number between 0 and 65535"@
}

/// The message for an option given without its value.
pub open spec fn missing_value_message() -> Seq<char> {
    "a value is required"@
}

/// The message for an identity that is none of the three.
pub open spec fn bad_identity_message() -> Seq<char> {
    "expected one of node-ip, node-name, ca-only"@
}

/// A positive number of whole seconds, or why `value` is none.
pub open spec fn spec_positive_seconds(value: Seq<char>) -> Result<u64, Seq<char>> {
    match spec_parse_u64(value) {
        None => Err(not_a_number_message()),
        Some(n) => if n == 0 {
            Err(zero_seconds_message())
        } else {
            Ok(n)
        },
    }
}

/// Parses a positive number of whole seconds.
pub fn parse_positive_seconds(value: &str) -> (r: Result<Duration, String>)
    ensures
        match spec_positive_seconds(value@) {
            Ok(n) => r == Ok::<Duration, String>(secs_duration(n)),
            Err(m) => r is Err && r->Err_0@ == m,
        },
{
    match parse_u64(value) {
        None => Err(owned("expected a positive whole number of seconds")),
        Some(seconds) => {
            if seconds == 0 {
                return Err(owned("must be greater than zero"));
            }
            Ok(duration_from_secs(seconds))
        },
    }
}

/// What is wrong with `value` as the value of option `o`, if anything: the
/// error kind and the reason.
pub open spec fn spec_value_problem(o: CliOption, value: Seq<char>) -> Option<
    (CliErrorKind, Seq<char>),
> {
    match o {
        CliOption::ServerIdentity => if spec_identity_named(value) is None {
            Some((CliErrorKind::InvalidValue, bad_identity_message()))
        } else {
            None
        },
        CliOption::KubeletStatsPollInterval | CliOption::KubeletHealthPollInterval
        | CliOption::SystemAgentPollInterval | CliOption::SystemAgentTimeout => {
            match spec_positive_seconds(value) {
                Ok(_) => None,
                Err(m) => Some((CliErrorKind::ValueValidation, m)),
            }
        },
        CliOption::ClusterAggregatorPort => if spec_parse_port(value) is None {
            Some((CliErrorKind::ValueValidation, bad_port_message()))
        } else {
            None
        },
        _ => None,
    }
}

/// `t` is a cluster of short flags: `-` and at least one more character, not
/// `-` again.
pub open spec fn is_short_cluster(t: Seq<char>) -> bool {
    t.len() >= 2 && t[0] == '-' && t[1] != '-'
}

/// `t` is a long flag: it starts with `--`.
pub open spec fn is_long_flag(t: Seq<char>) -> bool {
    t.len() >= 2 && t[0] == '-' && t[1] == '-'
}

/// `t` can stand as the value of the option before it: it does not look like
/// a flag (a lone `-` does not).
pub open spec fn can_be_value(t: Seq<char>) -> bool {
    t.len() == 0 || t[0] != '-' || t == "-"@
}

/// An error as the scan reports it.
pub open spec fn failure(kind: CliErrorKind, argument: Seq<char>, reason: Seq<char>) -> CliErrorView {
    CliErrorView { kind, argument, reason }
}

/// What reading the argument at index `i` does.
pub enum ScanStep {
    /// The argument is refused with this error.
    Fail(CliErrorView),
    /// The argument gives option `option` the value `value`; reading goes on
    /// at index `next`.
    Take { option: CliOption, value: Seq<char>, next: int },
    /// The argument is a lone `--` with nothing after it: reading ends.
    Stop,
}

/// The step that the argument at index `i < args.len()` makes, given the
/// options read so far.
pub open spec fn spec_step(args: Seq<Seq<char>>, i: int, given: Map<CliOption, Seq<char>>) -> ScanStep {
    let t = args[i];
    if t == "--help"@ || t == "-h"@ {
        ScanStep::Fail(failure(CliErrorKind::DisplayHelp, t, Seq::empty()))
    } else if t == "--version"@ || t == "-V"@ {
        ScanStep::Fail(failure(CliErrorKind::DisplayVersion, t, Seq::empty()))
    } else if t == "--"@ {
        // What follows `--` could only be values without an option, which
        // the scraper does not take.
        if i + 1 < args.len() {
            ScanStep::Fail(failure(CliErrorKind::UnknownArgument, args[i + 1], Seq::empty()))
        } else {
            ScanStep::Stop
        }
    } else if is_short_cluster(t) {
        // The flags of a cluster are read in turn; the first decides, and
        // only `-h` and `-V` are short flags of the scraper.
        if t[1] == 'h' {
            ScanStep::Fail(failure(CliErrorKind::DisplayHelp, t, Seq::empty()))
        } else if t[1] == 'V' {
            ScanStep::Fail(failure(CliErrorKind::DisplayVersion, t, Seq::empty()))
        } else {
            ScanStep::Fail(failure(CliErrorKind::UnknownArgument, t, Seq::empty()))
        }
    } else if !is_long_flag(t) {
        ScanStep::Fail(failure(CliErrorKind::UnknownArgument, t, Seq::empty()))
    } else {
        let body = t.skip(2);
        let eq = body.index_of_first('=');
        let name = if eq is Some {
            body.take(eq->0)
        } else {
            body
        };
        let flag = "--"@ + name;
        if eq is Some && (name == "help"@ || name == "version"@) {
            ScanStep::Fail(failure(CliErrorKind::TooManyValues, t, Seq::empty()))
        } else {
            match spec_option_named(name) {
                None => ScanStep::Fail(failure(CliErrorKind::UnknownArgument, t, Seq::empty())),
                Some(o) => if given.contains_key(o) {
                    ScanStep::Fail(failure(CliErrorKind::ArgumentConflict, flag, Seq::empty()))
                } else if eq is None && !(i + 1 < args.len() && can_be_value(args[i + 1])) {
                    ScanStep::Fail(failure(CliErrorKind::InvalidValue, flag, missing_value_message()))
                } else {
                    let value = if eq is Some {
                        body.skip(eq->0 + 1)
                    } else {
                        args[i + 1]
                    };
                    match spec_value_problem(o, value) {
                        Some(p) => ScanStep::Fail(failure(p.0, flag, p.1)),
                        None => ScanStep::Take {
                            option: o,
                            value,
                            next: if eq is Some {
                                i + 1
                            } else {
                                i + 2
                            },
                        },
                    }
                }
            }
        }
    }
}

/// Reads the arguments from index `i` on, given the option values read so far.
/// Yields the values of all options given, or the first error.
pub open spec fn spec_scan(args: Seq<Seq<char>>, i: int, given: Map<CliOption, Seq<char>>) -> Result<
    Map<CliOption, Seq<char>>,
    CliErrorView,
>
    decreases args.len() - i,
{
    if i < 0 || i >= args.len() {
        Ok(given)
    } else {
        match spec_step(args, i, given) {
            ScanStep::Fail(e) => Err(e),
            ScanStep::Stop => Ok(given),
            ScanStep::Take { option, value, next } => if next > i {
                spec_scan(args, next, given.insert(option, value))
            } else {
                Ok(given)
            },
        }
    }
}

/// The characters of each argument.
pub open spec fn arg_views(args: Seq<&str>) -> Seq<Seq<char>> {
    args.map_values(|a: &str| a@)
}

/// The value of a seconds option: the one given, else the default.
pub open spec fn seconds_setting(given: Map<CliOption, Seq<char>>, o: CliOption, default: u64) -> u64 {
    if given.contains_key(o) {
        spec_parse_u64(given[o])->0
    } else {
        default
    }
}

/// The value of a string option: the one given, else the default.
pub open spec fn text_setting(given: Map<CliOption, Seq<char>>, o: CliOption, default: Seq<char>) -> Seq<char> {
    if given.contains_key(o) {
        given[o]
    } else {
        default
    }
}

/// The value of an optional string option.
pub open spec fn optional_setting(given: Map<CliOption, Seq<char>>, o: CliOption) -> Option<Seq<char>> {
    if given.contains_key(o) {
        Some(given[o])
    } else {
        None
    }
}

/// `a` holds the settings that the option values `given` make, with the
/// defaults for the options not given.
pub open spec fn settings_from(a: CliArgs, given: Map<CliOption, Seq<char>>) -> bool {
    &&& opt_string_view(a.kubelet_ca_cert_file) == optional_setting(given, CliOption::KubeletCaCertFile)
    &&& a.kubelet_server_identity == (if given.contains_key(CliOption::ServerIdentity) {
        spec_identity_named(given[CliOption::ServerIdentity])->0
    } else {
        KubeletServerIdentity::NodeIp
    })
    &&& a.kubelet_stats_poll_interval == secs_duration(
        seconds_setting(given, CliOption::KubeletStatsPollInterval, 60),
    )
    &&& a.kubelet_health_poll_interval == secs_duration(
        seconds_setting(given, CliOption::KubeletHealthPollInterval, 60),
    )
    &&& a.system_agent_poll_interval == secs_duration(
        seconds_setting(given, CliOption::SystemAgentPollInterval, 60),
    )
    &&& a.system_agent_timeout == secs_duration(
        seconds_setting(given, CliOption::SystemAgentTimeout, 15),
    )
    &&& a.cluster_aggregator_namespace@ == text_setting(
        given,
        CliOption::ClusterAggregatorNamespace,
        "checkmk-monitoring"@,
    )
    &&& a.cluster_aggregator_service@ == text_setting(
        given,
        CliOption::ClusterAggregatorService,
        "checkmk-agent-cluster-aggregator"@,
    )
    &&& a.cluster_aggregator_port == (if given.contains_key(CliOption::ClusterAggregatorPort) {
        spec_parse_port(given[CliOption::ClusterAggregatorPort])->0
    } else {
        10050u16
    })
    &&& opt_string_view(a.cluster_aggregator_ca_cert_file) == optional_setting(
        given,
        CliOption::ClusterAggregatorCaCertFile,
    )
}

/// Every value in `given` passed its option's check.
pub open spec fn all_values_valid(given: Map<CliOption, Seq<char>>) -> bool {
    forall|o: CliOption| #[trigger] given.contains_key(o) ==> spec_value_problem(o, given[o]) is None
}


/// Reading on from a state whose values are all valid ends, if it succeeds,
/// in a state whose values are all valid.
proof fn lemma_scan_keeps_values_valid(args: Seq<Seq<char>>, i: int, given: Map<CliOption, Seq<char>>)
    requires
        all_values_valid(given),
    ensures
        spec_scan(args, i, given) matches Ok(g) ==> all_values_valid(g),
    decreases args.len() - i,
{
    if 0 <= i < args.len() {
        match spec_step(args, i, given) {
            ScanStep::Take { option, value, next } => {
                if next > i {
                    let g2 = given.insert(option, value);
                    assert(all_values_valid(g2)) by {
                        assert forall|o: CliOption| #[trigger] g2.contains_key(o) implies spec_value_problem(
                            o,
                            g2[o],
                        ) is None by {
                            if o != option {
                                assert(given.contains_key(o));
                            }
                        }
                    }
                    lemma_scan_keeps_values_valid(args, next, g2);
                }
            },
            ScanStep::Fail(_) => {},
            ScanStep::Stop => {},
        }
    }
}

/// The command line that names only the program gives every setting its
/// default: no CA bundles, the node IP as the kubelet's identity, polls every
/// 60 seconds, a system-agent timeout of 15 seconds, and the aggregator at
/// `checkmk-agent-cluster-aggregator` in `checkmk-monitoring` on port 10050.
pub proof fn law_defaults(program: Seq<char>, a: CliArgs)
    requires
        spec_scan(seq![program], 1, Map::empty()) matches Ok(given) && settings_from(a, given),
    ensures
        a.kubelet_ca_cert_file is None,
        a.kubelet_server_identity == KubeletServerIdentity::NodeIp,
        a.kubelet_stats_poll_interval == secs_duration(60),
        a.kubelet_health_poll_interval == secs_duration(60),
        a.system_agent_poll_interval == secs_duration(60),
        a.system_agent_timeout == secs_duration(15),
        a.cluster_aggregator_namespace@ == "checkmk-monitoring"@,
        a.cluster_aggregator_service@ == "checkmk-agent-cluster-aggregator"@,
        a.cluster_aggregator_port == 10050,
        a.cluster_aggregator_ca_cert_file is None,
{
    assert(spec_scan(seq![program], 1, Map::empty()) == Ok::<Map<CliOption, Seq<char>>, CliErrorView>(
        Map::empty(),
    ));
}

/// The option that each flag name designates.
proof fn lemma_option_names()
    ensures
        spec_option_named("kubelet-ca-cert-file"@) == Some(CliOption::KubeletCaCertFile),
        spec_option_named("kubelet-server-identity"@) == Some(CliOption::ServerIdentity),
        spec_option_named("kubelet-stats-poll-interval"@) == Some(CliOption::KubeletStatsPollInterval),
        spec_option_named("kubelet-health-poll-interval"@) == Some(CliOption::KubeletHealthPollInterval),
        spec_option_named("system-agent-poll-interval"@) == Some(CliOption::SystemAgentPollInterval),
        spec_option_named("system-agent-timeout"@) == Some(CliOption::SystemAgentTimeout),
        spec_option_named("cluster-aggregator-namespace"@) == Some(CliOption::ClusterAggregatorNamespace),
        spec_option_named("cluster-aggregator-service"@) == Some(CliOption::ClusterAggregatorService),
        spec_option_named("cluster-aggregator-port"@) == Some(CliOption::ClusterAggregatorPort),
        spec_option_named("cluster-aggregator-ca-cert-file"@) == Some(CliOption::ClusterAggregatorCaCertFile),
{
    reveal_strlit("kubelet-ca-cert-file");
    reveal_strlit("kubelet-server-identity");
    reveal_strlit("kubelet-stats-poll-interval");
    reveal_strlit("kubelet-health-poll-interval");
    reveal_strlit("system-agent-poll-interval");
    reveal_strlit("system-agent-timeout");
    reveal_strlit("cluster-aggregator-namespace");
    reveal_strlit("cluster-aggregator-service");
    reveal_strlit("cluster-aggregator-port");
    reveal_strlit("cluster-aggregator-ca-cert-file");
    assert("kubelet-ca-cert-file"@.len() == 20 && "kubelet-ca-cert-file"@[0] == 'k');
    assert("kubelet-server-identity"@.len() == 23 && "kubelet-server-identity"@[0] == 'k');
    assert("kubelet-stats-poll-interval"@.len() == 27 && "kubelet-stats-poll-interval"@[0] == 'k');
    assert("kubelet-health-poll-interval"@.len() == 28 && "kubelet-health-poll-interval"@[0] == 'k');
    assert("system-agent-poll-interval"@.len() == 26 && "system-agent-poll-interval"@[0] == 's');
    assert("system-agent-timeout"@.len() == 20 && "system-agent-timeout"@[0] == 's');
    assert("cluster-aggregator-namespace"@.len() == 28 && "cluster-aggregator-namespace"@[0] == 'c');
    assert("cluster-aggregator-service"@.len() == 26 && "cluster-aggregator-service"@[0] == 'c');
    assert("cluster-aggregator-port"@.len() == 23 && "cluster-aggregator-port"@[0] == 'c');
    assert("cluster-aggregator-ca-cert-file"@.len() == 31 && "cluster-aggregator-ca-cert-file"@[0] == 'c');
}

/// Reading `--NAME=VALUE` alone, for a name that designates option `o`: the
/// option takes the value, or the value's problem is the error.
proof fn lemma_attached_option(program: Seq<char>, name: Seq<char>, v: Seq<char>, o: CliOption)
    requires
        name.len() > 0,
        forall|j: int| 0 <= j < name.len() ==> name[j] != '=',
        name != "help"@,
        name != "version"@,
        spec_option_named(name) == Some(o),
    ensures
        spec_scan(seq![program, "--"@ + name + "="@ + v], 1, Map::empty()) == (match spec_value_problem(
            o,
            v,
        ) {
            None => Ok(Map::<CliOption, Seq<char>>::empty().insert(o, v)),
            Some(p) => Err(failure(p.0, "--"@ + name, p.1)),
        }),
{
    reveal_strlit("--");
    reveal_strlit("=");
    reveal_strlit("--help");
    reveal_strlit("-h");
    reveal_strlit("--version");
    reveal_strlit("-V");
    let args = seq![program, "--"@ + name + "="@ + v];
    let t = args[1];
    let n: int = name.len() as int;
    assert(t[0] == '-' && t[1] == '-');
    assert(t[n + 2] == '=');
    assert(t.len() == n + 3 + v.len());
    assert(t != "--help"@) by {
        if t == "--help"@ {
            assert(t[n + 2] == "--help"@[n + 2]);
        }
    }
    assert(t != "--version"@) by {
        if t == "--version"@ {
            assert(t[n + 2] == "--version"@[n + 2]);
        }
    }
    assert(t != "-h"@ && t != "-V"@ && t != "--"@);
    assert(!is_short_cluster(t));
    assert(is_long_flag(t));
    let body = t.skip(2);
    assert(body =~= name + "="@ + v);
    assert(body[n] == '=');
    assert(body.contains('='));
    body.index_of_first_ensures('=');
    let eq = body.index_of_first('=');
    assert(eq == Some(n)) by {
        let idx = eq->0;
        if idx < n {
            assert(body[idx] == name[idx]);
        }
    }
    assert(body.take(n) =~= name);
    assert(body.skip(n + 1) =~= v);
    assert(spec_scan(args, 2, Map::<CliOption, Seq<char>>::empty().insert(o, v)) == Ok::<
        Map<CliOption, Seq<char>>,
        CliErrorView,
    >(Map::<CliOption, Seq<char>>::empty().insert(o, v)));
}

/// A long flag for a text setting sets that setting and no other: given
/// alone with any value attached, `--cluster-aggregator-namespace` sets the
/// namespace, `--cluster-aggregator-service` the service,
/// `--kubelet-ca-cert-file` the kubelet's CA bundle and
/// `--cluster-aggregator-ca-cert-file` the aggregator's, each to exactly that
/// value, while the others keep their defaults.
pub proof fn law_text_flags_set_their_own_setting(program: Seq<char>, v: Seq<char>, a: CliArgs)
    ensures
        spec_scan(seq![program, "--cluster-aggregator-namespace="@ + v], 1, Map::empty()) matches Ok(
            given,
        ) && (settings_from(a, given) ==> {
            &&& a.cluster_aggregator_namespace@ == v
            &&& a.cluster_aggregator_service@ == "checkmk-agent-cluster-aggregator"@
            &&& a.kubelet_ca_cert_file is None
            &&& a.cluster_aggregator_ca_cert_file is None
        }),
        spec_scan(seq![program, "--cluster-aggregator-service="@ + v], 1, Map::empty()) matches Ok(
            given,
        ) && (settings_from(a, given) ==> {
            &&& a.cluster_aggregator_service@ == v
            &&& a.cluster_aggregator_namespace@ == "checkmk-monitoring"@
            &&& a.kubelet_ca_cert_file is None
            &&& a.cluster_aggregator_ca_cert_file is None
        }),
        spec_scan(seq![program, "--kubelet-ca-cert-file="@ + v], 1, Map::empty()) matches Ok(given)
            && (settings_from(a, given) ==> {
            &&& opt_string_view(a.kubelet_ca_cert_file) == Some(v)
            &&& a.cluster_aggregator_ca_cert_file is None
            &&& a.cluster_aggregator_namespace@ == "checkmk-monitoring"@
            &&& a.cluster_aggregator_service@ == "checkmk-agent-cluster-aggregator"@
        }),
        spec_scan(seq![program, "--cluster-aggregator-ca-cert-file="@ + v], 1, Map::empty()) matches Ok(
            given,
        ) && (settings_from(a, given) ==> {
            &&& opt_string_view(a.cluster_aggregator_ca_cert_file) == Some(v)
            &&& a.kubelet_ca_cert_file is None
            &&& a.cluster_aggregator_namespace@ == "checkmk-monitoring"@
            &&& a.cluster_aggregator_service@ == "checkmk-agent-cluster-aggregator"@
        }),
{
    reveal_strlit("--cluster-aggregator-namespace=");
    reveal_strlit("--cluster-aggregator-service=");
    reveal_strlit("--kubelet-ca-cert-file=");
    reveal_strlit("--cluster-aggregator-ca-cert-file=");
    reveal_strlit("cluster-aggregator-namespace");
    reveal_strlit("cluster-aggregator-service");
    reveal_strlit("kubelet-ca-cert-file");
    reveal_strlit("cluster-aggregator-ca-cert-file");
    reveal_strlit("kubelet-server-identity");
    reveal_strlit("kubelet-stats-poll-interval");
    reveal_strlit("kubelet-health-poll-interval");
    reveal_strlit("system-agent-poll-interval");
    reveal_strlit("system-agent-timeout");
    reveal_strlit("help");
    reveal_strlit("version");
    reveal_strlit("--");
    reveal_strlit("=");
    lemma_option_names();
    let name = "cluster-aggregator-namespace"@;
    assert("--cluster-aggregator-namespace="@ + v =~= "--"@ + name + "="@ + v);
    lemma_attached_option(program, name, v, CliOption::ClusterAggregatorNamespace);
    let name = "cluster-aggregator-service"@;
    assert("--cluster-aggregator-service="@ + v =~= "--"@ + name + "="@ + v);
    lemma_attached_option(program, name, v, CliOption::ClusterAggregatorService);
    let name = "kubelet-ca-cert-file"@;
    assert("--kubelet-ca-cert-file="@ + v =~= "--"@ + name + "="@ + v);
    lemma_attached_option(program, name, v, CliOption::KubeletCaCertFile);
    let name = "cluster-aggregator-ca-cert-file"@;
    assert("--cluster-aggregator-ca-cert-file="@ + v =~= "--"@ + name + "="@ + v);
    lemma_attached_option(program, name, v, CliOption::ClusterAggregatorCaCertFile);
}

/// A long flag for a duration sets that duration and no other: given alone
/// with a positive number of seconds attached in decimal, each of
/// `--kubelet-stats-poll-interval`, `--kubelet-health-poll-interval`,
/// `--system-agent-poll-interval` and `--system-agent-timeout` sets its own
/// setting to that many seconds while the others keep their defaults.
pub proof fn law_duration_flags_set_their_own_setting(program: Seq<char>, n: u64, a: CliArgs)
    requires
        n > 0,
    ensures
        spec_scan(seq![program, "--kubelet-stats-poll-interval="@ + decimal_text(n as nat)], 1, Map::empty())
            matches Ok(given) && (settings_from(a, given) ==> {
            &&& a.kubelet_stats_poll_interval == secs_duration(n)
            &&& a.kubelet_health_poll_interval == secs_duration(60)
            &&& a.system_agent_poll_interval == secs_duration(60)
            &&& a.system_agent_timeout == secs_duration(15)
        }),
        spec_scan(seq![program, "--kubelet-health-poll-interval="@ + decimal_text(n as nat)], 1, Map::empty())
            matches Ok(given) && (settings_from(a, given) ==> {
            &&& a.kubelet_health_poll_interval == secs_duration(n)
            &&& a.kubelet_stats_poll_interval == secs_duration(60)
            &&& a.system_agent_poll_interval == secs_duration(60)
            &&& a.system_agent_timeout == secs_duration(15)
        }),
        spec_scan(seq![program, "--system-agent-poll-interval="@ + decimal_text(n as nat)], 1, Map::empty())
            matches Ok(given) && (settings_from(a, given) ==> {
            &&& a.system_agent_poll_interval == secs_duration(n)
            &&& a.kubelet_stats_poll_interval == secs_duration(60)
            &&& a.kubelet_health_poll_interval == secs_duration(60)
            &&& a.system_agent_timeout == secs_duration(15)
        }),
        spec_scan(seq![program, "--system-agent-timeout="@ + decimal_text(n as nat)], 1, Map::empty())
            matches Ok(given) && (settings_from(a, given) ==> {
            &&& a.system_agent_timeout == secs_duration(n)
            &&& a.kubelet_stats_poll_interval == secs_duration(60)
            &&& a.kubelet_health_poll_interval == secs_duration(60)
            &&& a.system_agent_poll_interval == secs_duration(60)
        }),
{
    reveal_strlit("--kubelet-stats-poll-interval=");
    reveal_strlit("--kubelet-health-poll-interval=");
    reveal_strlit("--system-agent-poll-interval=");
    reveal_strlit("--system-agent-timeout=");
    reveal_strlit("kubelet-stats-poll-interval");
    reveal_strlit("kubelet-health-poll-interval");
    reveal_strlit("system-agent-poll-interval");
    reveal_strlit("system-agent-timeout");
    reveal_strlit("help");
    reveal_strlit("version");
    reveal_strlit("--");
    reveal_strlit("=");
    lemma_option_names();
    let t = decimal_text(n as nat);
    law_positive_seconds_round_trip(n);
    let name = "kubelet-stats-poll-interval"@;
    assert("--kubelet-stats-poll-interval="@ + t =~= "--"@ + name + "="@ + t);
    lemma_attached_option(program, name, t, CliOption::KubeletStatsPollInterval);
    let name = "kubelet-health-poll-interval"@;
    assert("--kubelet-health-poll-interval="@ + t =~= "--"@ + name + "="@ + t);
    lemma_attached_option(program, name, t, CliOption::KubeletHealthPollInterval);
    let name = "system-agent-poll-interval"@;
    assert("--system-agent-poll-interval="@ + t =~= "--"@ + name + "="@ + t);
    lemma_attached_option(program, name, t, CliOption::SystemAgentPollInterval);
    let name = "system-agent-timeout"@;
    assert("--system-agent-timeout="@ + t =~= "--"@ + name + "="@ + t);
    lemma_attached_option(program, name, t, CliOption::SystemAgentTimeout);
}

/// `--cluster-aggregator-port` given alone with a port attached in decimal
/// sets the port to it, and nothing else.
pub proof fn law_port_flag_sets_the_port(program: Seq<char>, port: u16, a: CliArgs)
    ensures
        spec_scan(seq![program, "--cluster-aggregator-port="@ + decimal_text(port as nat)], 1, Map::empty())
            matches Ok(given) && (settings_from(a, given) ==> {
            &&& a.cluster_aggregator_port == port
            &&& a.cluster_aggregator_namespace@ == "checkmk-monitoring"@
            &&& a.cluster_aggregator_service@ == "checkmk-agent-cluster-aggregator"@
        }),
{
    reveal_strlit("--cluster-aggregator-port=");
    reveal_strlit("cluster-aggregator-port");
    reveal_strlit("help");
    reveal_strlit("version");
    reveal_strlit("--");
    reveal_strlit("=");
    lemma_option_names();
    let t = decimal_text(port as nat);
    law_decimal_round_trip(port as u64);
    lemma_decimal_text_value(port as nat);
    assert(is_ascii_digit(t[0]));
    assert(spec_parse_port(t) == Some(port));
    let name = "cluster-aggregator-port"@;
    assert("--cluster-aggregator-port="@ + t =~= "--"@ + name + "="@ + t);
    lemma_attached_option(program, name, t, CliOption::ClusterAggregatorPort);
}

/// `--kubelet-server-identity` given alone sets the identity that its value
/// names: `node-ip`, `node-name` or `ca-only`.
pub proof fn law_identity_flag_sets_the_identity(program: Seq<char>, a: CliArgs)
    ensures
        spec_scan(seq![program, "--kubelet-server-identity=node-ip"@], 1, Map::empty()) matches Ok(given)
            && (settings_from(a, given) ==> a.kubelet_server_identity == KubeletServerIdentity::NodeIp),
        spec_scan(seq![program, "--kubelet-server-identity=node-name"@], 1, Map::empty()) matches Ok(
            given,
        ) && (settings_from(a, given) ==> a.kubelet_server_identity == KubeletServerIdentity::NodeName),
        spec_scan(seq![program, "--kubelet-server-identity=ca-only"@], 1, Map::empty()) matches Ok(given)
            && (settings_from(a, given) ==> a.kubelet_server_identity == KubeletServerIdentity::CaOnly),
{
    reveal_strlit("--kubelet-server-identity=node-ip");
    reveal_strlit("--kubelet-server-identity=node-name");
    reveal_strlit("--kubelet-server-identity=ca-only");
    reveal_strlit("kubelet-server-identity");
    reveal_strlit("node-ip");
    reveal_strlit("node-name");
    reveal_strlit("ca-only");
    reveal_strlit("help");
    reveal_strlit("version");
    reveal_strlit("--");
    reveal_strlit("=");
    lemma_option_names();
    let name = "kubelet-server-identity"@;
    assert("--kubelet-server-identity=node-ip"@ =~= "--"@ + name + "="@ + "node-ip"@);
    lemma_attached_option(program, name, "node-ip"@, CliOption::ServerIdentity);
    assert("--kubelet-server-identity=node-name"@ =~= "--"@ + name + "="@ + "node-name"@);
    lemma_attached_option(program, name, "node-name"@, CliOption::ServerIdentity);
    assert("--kubelet-server-identity=ca-only"@ =~= "--"@ + name + "="@ + "ca-only"@);
    lemma_attached_option(program, name, "ca-only"@, CliOption::ServerIdentity);
}

/// Whatever the command line, the intervals and the timeout it yields are
/// positive whole numbers of seconds.
pub proof fn law_intervals_are_positive(args: Seq<Seq<char>>, a: CliArgs)
    requires
        spec_scan(args, 1, Map::empty()) matches Ok(given) && settings_from(a, given),
    ensures
        exists|n: u64| n > 0 && a.kubelet_stats_poll_interval == secs_duration(n),
        exists|n: u64| n > 0 && a.kubelet_health_poll_interval == secs_duration(n),
        exists|n: u64| n > 0 && a.system_agent_poll_interval == secs_duration(n),
        exists|n: u64| n > 0 && a.system_agent_timeout == secs_duration(n),
{
    let given = spec_scan(args, 1, Map::empty())->Ok_0;
    assert(all_values_valid(Map::<CliOption, Seq<char>>::empty()));
    lemma_scan_keeps_values_valid(args, 1, Map::empty());
    let o3 = CliOption::KubeletStatsPollInterval;
    let o4 = CliOption::KubeletHealthPollInterval;
    let o5 = CliOption::SystemAgentPollInterval;
    let o6 = CliOption::SystemAgentTimeout;
    if given.contains_key(o3) {
        assert(spec_value_problem(o3, given[o3]) is None);
    }
    if given.contains_key(o4) {
        assert(spec_value_problem(o4, given[o4]) is None);
    }
    if given.contains_key(o5) {
        assert(spec_value_problem(o5, given[o5]) is None);
    }
    if given.contains_key(o6) {
        assert(spec_value_problem(o6, given[o6]) is None);
    }
    let n3 = seconds_setting(given, o3, 60);
    let n4 = seconds_setting(given, o4, 60);
    let n5 = seconds_setting(given, o5, 60);
    let n6 = seconds_setting(given, o6, 15);
    assert(n3 > 0 && a.kubelet_stats_poll_interval == secs_duration(n3));
    assert(n4 > 0 && a.kubelet_health_poll_interval == secs_duration(n4));
    assert(n5 > 0 && a.system_agent_poll_interval == secs_duration(n5));
    assert(n6 > 0 && a.system_agent_timeout == secs_duration(n6));
}

/// Every positive number of seconds, written in decimal, is accepted as that
/// many seconds.
pub proof fn law_positive_seconds_round_trip(n: u64)
    requires
        n > 0,
    ensures
        spec_positive_seconds(decimal_text(n as nat)) == Ok::<u64, Seq<char>>(n),
{
    law_decimal_round_trip(n);
}

/// Whatever value is accepted is a positive number of whole seconds, and
/// that number written in decimal is accepted again as the same duration.
pub proof fn law_accepted_seconds_read_back(value: Seq<char>)
    ensures
        spec_positive_seconds(value) matches Ok(n) ==> n > 0 && spec_positive_seconds(
            decimal_text(n as nat),
        ) == Ok::<u64, Seq<char>>(n),
{
    if let Ok(n) = spec_positive_seconds(value) {
        law_positive_seconds_round_trip(n);
    }
}

fn cli_error(kind: CliErrorKind, argument: String, reason: String) -> (e: CliError)
    ensures
        e@ == failure(kind, argument@, reason@),
{
    CliError { kind, argument, reason }
}

/// Checks `value` as the value of option `o`; on refusal, the error kind and
/// the reason.
fn value_problem(o: CliOption, value: &str) -> (r: Option<(CliErrorKind, String)>)
    ensures
        match spec_value_problem(o, value@) {
            None => r is None,
            Some(p) => r matches Some(q) && q.0 == p.0 && q.1@ == p.1,
        },
{
    match o {
        CliOption::ServerIdentity => {
            if identity_named(value).is_none() {
                Some((CliErrorKind::InvalidValue, owned("expected one of node-ip, node-name, ca-only")))
            } else {
                None
            }
        },
        CliOption::KubeletStatsPollInterval | CliOption::KubeletHealthPollInterval
        | CliOption::SystemAgentPollInterval | CliOption::SystemAgentTimeout => {
            match parse_positive_seconds(value) {
                Ok(_) => None,
                Err(m) => Some((CliErrorKind::ValueValidation, m)),
            }
        },
        CliOption::ClusterAggregatorPort => {
            if parse_port(value).is_none() {
                Some((CliErrorKind::ValueValidation, owned("expected a port number between 0 and 65535")))
            } else {
                None
            }
        },
        _ => None,
    }
}

/// The position of the first `=` in `s`.
fn first_equals(s: &str) -> (r: Option<usize>)
    ensures
        match s@.index_of_first('=') {
            None => r is None,
            Some(k) => r matches Some(j) && j as int == k,
        },
        r matches Some(k) ==> k < s@.len(),
{
    proof {
        s@.index_of_first_ensures('=');
    }
    let n = s.unicode_len();
    let mut k: usize = 0;
    while k < n
        invariant
            k <= n,
            n == s@.len(),
            forall|j: int| 0 <= j < k ==> s@[j] != '=',
            match s@.index_of_first('=') {
                Some(index) => {
                    &&& 0 <= index < s@.len()
                    &&& s@[index] == '='
                    &&& forall|j: int| 0 <= j < index < s@.len() ==> s@[j] != '='
                },
                None => !s@.contains('='),
            },
        decreases n - k,
    {
        if s.get_char(k) == '=' {
            return Some(k);
        }
        k = k + 1;
    }
    assert(!s@.contains('='));
    None
}

/// Whether `t` can stand as an option's value.
fn can_be_value_exec(t: &str) -> (r: bool)
    ensures
        r == can_be_value(t@),
{
    t.unicode_len() == 0 || t.get_char(0) != '-' || text_eq(t, "-")
}

/// The duration of a seconds option: the value given, else the default.
fn seconds_from(slot: &Option<String>, default: u64) -> (d: Duration)
    requires
        slot is Some ==> spec_positive_seconds(slot->0@) is Ok,
    ensures
        d == secs_duration(
            if slot is Some {
                spec_parse_u64(slot->0@)->0
            } else {
                default
            },
        ),
{
    match slot {
        Some(v) => match parse_u64(v.as_str()) {
            Some(n) => duration_from_secs(n),
            None => duration_from_secs(default),
        },
        None => duration_from_secs(default),
    }
}

/// The value of a string option: the value given, else the default.
fn text_from(slot: &Option<String>, default: &str) -> (t: String)
    ensures
        t@ == (if slot is Some {
            slot->0@
        } else {
            default@
        }),
{
    match slot {
        Some(v) => v.clone(),
        None => owned(default),
    }
}

/// Reads the argument at index `i`: the option and value that it gives and
/// where reading goes on, or the error it makes. `slots` holds the values of
/// the options read so far, which are `given`.
fn read_step(
    args: &[&str],
    i: usize,
    slots: &Vec<Option<String>>,
    Ghost(given): Ghost<Map<CliOption, Seq<char>>>,
) -> (r: Result<Option<(CliOption, String, usize)>, CliError>)
    requires
        i < args@.len(),
        slots@.len() == 10,
        forall|o: CliOption|
            opt_string_view(#[trigger] slots@[option_slot(o)]) == optional_setting(given, o),
    ensures
        match spec_step(arg_views(args@), i as int, given) {
            ScanStep::Fail(e) => r is Err && r->Err_0@ == e,
            ScanStep::Take { option, value, next } => r matches Ok(Some(x)) && x.0 == option && x.1@
                == value && x.2 == next,
            ScanStep::Stop => r matches Ok(None),
        },
{
    let ghost views = arg_views(args@);
    let n = args.len();
    let t: &str = args[i];
    assert(views[i as int] == t@);
    if text_eq(t, "--help") || text_eq(t, "-h") {
        return Err(cli_error(CliErrorKind::DisplayHelp, owned(t), String::new()));
    }
    if text_eq(t, "--version") || text_eq(t, "-V") {
        return Err(cli_error(CliErrorKind::DisplayVersion, owned(t), String::new()));
    }
    if text_eq(t, "--") {
        if i + 1 < n {
            assert(views[i + 1] == args@[i + 1]@);
            return Err(cli_error(CliErrorKind::UnknownArgument, owned(args[i + 1]), String::new()));
        }
        return Ok(None);
    }
    let len = t.unicode_len();
    if len >= 2 && t.get_char(0) == '-' && t.get_char(1) != '-' {
        let first = t.get_char(1);
        if first == 'h' {
            return Err(cli_error(CliErrorKind::DisplayHelp, owned(t), String::new()));
        }
        if first == 'V' {
            return Err(cli_error(CliErrorKind::DisplayVersion, owned(t), String::new()));
        }
        return Err(cli_error(CliErrorKind::UnknownArgument, owned(t), String::new()));
    }
    if len < 2 || t.get_char(0) != '-' || t.get_char(1) != '-' {
        return Err(cli_error(CliErrorKind::UnknownArgument, owned(t), String::new()));
    }
    let body = t.substring_char(2, len);
    assert(body@ =~= t@.skip(2));
    let eq = first_equals(body);
    let name = match eq {
        Some(e) => body.substring_char(0, e),
        None => body,
    };
    assert(eq is Some ==> name@ =~= body@.take(eq->0 as int));
    let flag = concat("--", name);
    if eq.is_some() && (text_eq(name, "help") || text_eq(name, "version")) {
        return Err(cli_error(CliErrorKind::TooManyValues, owned(t), String::new()));
    }
    let o = match option_named(name) {
        Some(o) => o,
        None => {
            return Err(cli_error(CliErrorKind::UnknownArgument, owned(t), String::new()));
        },
    };
    let slot = slot_of(o);
    assert(opt_string_view(slots@[option_slot(o)]) == optional_setting(given, o));
    if slots[slot].is_some() {
        return Err(cli_error(CliErrorKind::ArgumentConflict, flag, String::new()));
    }
    let value: &str;
    let next: usize;
    match eq {
        Some(e) => {
            value = body.substring_char(e + 1, body.unicode_len());
            assert(value@ =~= body@.skip(e + 1));
            next = i + 1;
        },
        None => {
            if i + 1 < n && can_be_value_exec(args[i + 1]) {
                value = args[i + 1];
                assert(views[i + 1] == value@);
                next = i + 2;
            } else {
                return Err(cli_error(CliErrorKind::InvalidValue, flag, owned("a value is required")));
            }
        },
    }
    match value_problem(o, value) {
        Some(p) => {
            return Err(cli_error(p.0, flag, p.1));
        },
        None => {},
    }
    Ok(Some((o, owned(value), next)))
}

/// The value kept for option `o`.
fn slot_value<'s>(
    slots: &'s Vec<Option<String>>,
    o: CliOption,
    Ghost(given): Ghost<Map<CliOption, Seq<char>>>,
) -> (r: &'s Option<String>)
    requires
        slots@.len() == 10,
        forall|p: CliOption|
            opt_string_view(#[trigger] slots@[option_slot(p)]) == optional_setting(given, p),
    ensures
        opt_string_view(*r) == optional_setting(given, o),
{
    &slots[slot_of(o)]
}

impl CliArgs {
    /// Reads the settings from a command line whose first element names the
    /// program.
    pub fn try_parse_from(args: &[&str]) -> (r: Result<CliArgs, CliError>)
        ensures
            match spec_scan(arg_views(args@), 1, Map::empty()) {
                Ok(given) => r is Ok && settings_from(r->Ok_0, given),
                Err(e) => r is Err && r->Err_0@ == e,
            },
    {
        let ghost views = arg_views(args@);
        let n = args.len();
        let mut slots: Vec<Option<String>> = Vec::new();
        let mut k: usize = 0;
        while k < 10
            invariant
                k <= 10,
                slots@.len() == k,
                forall|j: int| 0 <= j < k ==> slots@[j] is None,
            decreases 10 - k,
        {
            slots.push(None);
            k = k + 1;
        }
        let ghost mut given: Map<CliOption, Seq<char>> = Map::empty();
        let mut i: usize = 1;
        while i < n
            invariant
                1 <= i,
                n == args@.len(),
                views == arg_views(args@),
                views.len() == n,
                spec_scan(views, 1, Map::empty()) == spec_scan(views, i as int, given),
                slots@.len() == 10,
                forall|o: CliOption|
                    opt_string_view(#[trigger] slots@[option_slot(o)]) == optional_setting(given, o),
                all_values_valid(given),
            decreases n - i,
        {
            let step = read_step(args, i, &slots, Ghost(given));
            let (o, value, next) = match step {
                Ok(Some(x)) => x,
                Ok(None) => {
                    i = n;
                    continue;
                },
                Err(e) => {
                    return Err(e);
                },
            };
            let slot = slot_of(o);
            let ghost v = value@;
            slots.set(slot, Some(value));
            proof {
                given = given.insert(o, v);
                assert forall|p: CliOption|
                    opt_string_view(#[trigger] slots@[option_slot(p)]) == optional_setting(given, p) by {
                    if p != o {
                        assert(option_slot(p) != option_slot(o));
                    }
                }
            }
            i = next;
        }
        assert(spec_scan(views, i as int, given) == Ok::<Map<CliOption, Seq<char>>, CliErrorView>(given));
        let ghost all_given = given;
        let identity = match slot_value(&slots, CliOption::ServerIdentity, Ghost(all_given)) {
            Some(v) => match identity_named(v.as_str()) {
                Some(id) => id,
                None => KubeletServerIdentity::NodeIp,
            },
            None => KubeletServerIdentity::NodeIp,
        };
        let port = match slot_value(&slots, CliOption::ClusterAggregatorPort, Ghost(all_given)) {
            Some(v) => match parse_port(v.as_str()) {
                Some(p) => p,
                None => 10050,
            },
            None => 10050,
        };
        Ok(CliArgs {
            kubelet_ca_cert_file: crate::text::clone_opt_string(slot_value(&slots, CliOption::KubeletCaCertFile, Ghost(all_given))),
            kubelet_server_identity: identity,
            kubelet_stats_poll_interval: seconds_from(slot_value(&slots, CliOption::KubeletStatsPollInterval, Ghost(all_given)), 60),
            kubelet_health_poll_interval: seconds_from(slot_value(&slots, CliOption::KubeletHealthPollInterval, Ghost(all_given)), 60),
            system_agent_poll_interval: seconds_from(slot_value(&slots, CliOption::SystemAgentPollInterval, Ghost(all_given)), 60),
            system_agent_timeout: seconds_from(slot_value(&slots, CliOption::SystemAgentTimeout, Ghost(all_given)), 15),
            cluster_aggregator_namespace: text_from(slot_value(&slots, CliOption::ClusterAggregatorNamespace, Ghost(all_given)), "checkmk-monitoring"),
            cluster_aggregator_service: text_from(slot_value(&slots, CliOption::ClusterAggregatorService, Ghost(all_given)), "checkmk-agent-cluster-aggregator"),
            cluster_aggregator_port: port,
            cluster_aggregator_ca_cert_file: crate::text::clone_opt_string(slot_value(&slots, CliOption::ClusterAggregatorCaCertFile, Ghost(all_given))),
        })
    }
}

} // verus!
