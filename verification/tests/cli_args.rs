use std::time::Duration;

use kube_agent::cli_args::{parse_positive_seconds, CliArgs, CliErrorKind, KubeletServerIdentity};

#[test]
fn scraper_timings_have_defaults_and_accept_overrides_in_seconds() {
    let defaults = CliArgs::try_parse_from(&["node-scraper"]).expect("valid defaults");
    assert_eq!(
        defaults.kubelet_server_identity,
        KubeletServerIdentity::NodeIp
    );
    assert_eq!(
        defaults.kubelet_stats_poll_interval,
        Duration::from_secs(60)
    );
    assert_eq!(
        defaults.kubelet_health_poll_interval,
        Duration::from_secs(60)
    );
    assert_eq!(defaults.system_agent_poll_interval, Duration::from_secs(60));
    assert_eq!(defaults.system_agent_timeout, Duration::from_secs(15));

    let configured = CliArgs::try_parse_from(&[
        "node-scraper",
        "--kubelet-ca-cert-file=/tmp/kubelet-ca.crt",
        "--kubelet-server-identity=node-name",
        "--kubelet-stats-poll-interval=30",
        "--kubelet-health-poll-interval=45",
        "--system-agent-poll-interval=90",
        "--system-agent-timeout=10",
    ])
    .expect("valid timing overrides");
    assert_eq!(
        configured.kubelet_ca_cert_file.as_deref(),
        Some("/tmp/kubelet-ca.crt")
    );
    assert_eq!(
        configured.kubelet_server_identity,
        KubeletServerIdentity::NodeName
    );
    assert_eq!(
        configured.kubelet_stats_poll_interval,
        Duration::from_secs(30)
    );
    assert_eq!(
        configured.kubelet_health_poll_interval,
        Duration::from_secs(45)
    );
    assert_eq!(
        configured.system_agent_poll_interval,
        Duration::from_secs(90)
    );
    assert_eq!(configured.system_agent_timeout, Duration::from_secs(10));
}

#[test]
fn scraper_timings_reject_zero_and_invalid_seconds() {
    for flag in [
        "--kubelet-stats-poll-interval",
        "--kubelet-health-poll-interval",
        "--system-agent-poll-interval",
        "--system-agent-timeout",
    ] {
        for value in ["0", "-1", "0.5", "invalid"] {
            let argument = format!("{flag}={value}");
            let error = CliArgs::try_parse_from(&["node-scraper", argument.as_str()])
                .expect_err("invalid timing must be rejected before starting scrapers");
            assert_eq!(error.kind(), CliErrorKind::ValueValidation);
        }
    }
}

#[test]
fn other_settings_have_their_defaults() {
    let defaults = CliArgs::try_parse_from(&["node-scraper"]).expect("valid defaults");
    assert_eq!(defaults.kubelet_ca_cert_file, None);
    assert_eq!(defaults.cluster_aggregator_namespace, "checkmk-monitoring");
    assert_eq!(
        defaults.cluster_aggregator_service,
        "checkmk-agent-cluster-aggregator"
    );
    assert_eq!(defaults.cluster_aggregator_port, 10050);
    assert_eq!(defaults.cluster_aggregator_ca_cert_file, None);
}

#[test]
fn values_may_follow_their_option_as_the_next_argument() {
    let args = CliArgs::try_parse_from(&[
        "node-scraper",
        "--system-agent-timeout",
        "7",
        "--cluster-aggregator-port",
        "+8443",
        "--kubelet-server-identity",
        "ca-only",
        "--cluster-aggregator-ca-cert-file",
        "-",
    ])
    .expect("valid settings");
    assert_eq!(args.system_agent_timeout, Duration::from_secs(7));
    assert_eq!(args.cluster_aggregator_port, 8443);
    assert_eq!(args.kubelet_server_identity, KubeletServerIdentity::CaOnly);
    assert_eq!(args.cluster_aggregator_ca_cert_file.as_deref(), Some("-"));
}

#[test]
fn each_error_kind_has_an_input_that_gives_it() {
    let kind = |args: &[&str]| CliArgs::try_parse_from(args).expect_err("refused").kind();
    assert_eq!(kind(&["node-scraper", "--help"]), CliErrorKind::DisplayHelp);
    assert_eq!(kind(&["node-scraper", "-h"]), CliErrorKind::DisplayHelp);
    assert_eq!(kind(&["node-scraper", "--version"]), CliErrorKind::DisplayVersion);
    assert_eq!(kind(&["node-scraper", "-hV"]), CliErrorKind::DisplayHelp);
    assert_eq!(kind(&["node-scraper", "-Vh"]), CliErrorKind::DisplayVersion);
    assert_eq!(kind(&["node-scraper", "-x"]), CliErrorKind::UnknownArgument);
    assert_eq!(kind(&["node-scraper", "--help=x"]), CliErrorKind::TooManyValues);
    assert_eq!(kind(&["node-scraper", "--version=x"]), CliErrorKind::TooManyValues);
    assert_eq!(kind(&["node-scraper", "positional"]), CliErrorKind::UnknownArgument);
    assert_eq!(kind(&["node-scraper", "--no-such-flag=1"]), CliErrorKind::UnknownArgument);
    assert_eq!(
        kind(&["node-scraper", "--system-agent-timeout=1", "--system-agent-timeout=2"]),
        CliErrorKind::ArgumentConflict
    );
    assert_eq!(kind(&["node-scraper", "--system-agent-timeout"]), CliErrorKind::InvalidValue);
    assert_eq!(
        kind(&["node-scraper", "--kubelet-stats-poll-interval", "-5"]),
        CliErrorKind::InvalidValue
    );
    assert_eq!(
        kind(&["node-scraper", "--kubelet-server-identity=NodeIp"]),
        CliErrorKind::InvalidValue
    );
    assert_eq!(
        kind(&["node-scraper", "--cluster-aggregator-port=65536"]),
        CliErrorKind::ValueValidation
    );
}

#[test]
fn the_first_bad_argument_decides_the_error() {
    let error = CliArgs::try_parse_from(&["node-scraper", "--system-agent-timeout=0", "--help"])
        .expect_err("refused");
    assert_eq!(error.kind(), CliErrorKind::ValueValidation);
    assert_eq!(error.argument(), "--system-agent-timeout");
    assert_eq!(error.reason(), "must be greater than zero");
}

#[test]
fn positive_seconds_accept_whole_numbers_above_zero() {
    assert_eq!(parse_positive_seconds("1"), Ok(Duration::from_secs(1)));
    assert_eq!(parse_positive_seconds("+42"), Ok(Duration::from_secs(42)));
    assert_eq!(
        parse_positive_seconds("18446744073709551615"),
        Ok(Duration::from_secs(u64::MAX))
    );
    assert_eq!(
        parse_positive_seconds("18446744073709551616"),
        Err("expected a positive whole number of seconds".to_string())
    );
    assert_eq!(
        parse_positive_seconds(" 5"),
        Err("expected a positive whole number of seconds".to_string())
    );
    assert_eq!(
        parse_positive_seconds("000"),
        Err("must be greater than zero".to_string())
    );
}

#[test]
fn a_lone_double_dash_ends_the_options() {
    let args = CliArgs::try_parse_from(&["node-scraper", "--system-agent-timeout=5", "--"])
        .expect("valid settings");
    assert_eq!(args.system_agent_timeout, Duration::from_secs(5));
    let error = CliArgs::try_parse_from(&["node-scraper", "--", "extra"]).expect_err("refused");
    assert_eq!(error.kind(), CliErrorKind::UnknownArgument);
    assert_eq!(error.argument(), "extra");
}

#[test]
fn every_positive_number_of_seconds_reads_back() {
    for n in [1u64, 15, 60, 86400, u64::MAX] {
        assert_eq!(parse_positive_seconds(&n.to_string()), Ok(Duration::from_secs(n)));
    }
}
