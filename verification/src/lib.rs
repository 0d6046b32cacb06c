//! Verified core of a Kubernetes monitoring agent: the node scraper's
//! command-line settings, the kubelet connection plan, the kubelet health
//! record, the OTel metrics client and the agent's self-health section.

pub mod cli_args;
pub mod decimal;
pub mod http;
pub mod kubelet;
pub mod kubelet_health;
pub mod name_map;
pub mod otel_client;
pub mod section;
pub mod snapshot;
pub mod text;
