# kube_agent

Verified core of a Kubernetes monitoring agent (node scraper, cluster
aggregator and metrics cache), written in Verus.

- `src/` — the library, every function verified:
  - `cli_args` — the node scraper's command-line grammar, defaults and
    value checks (`CliArgs::try_parse_from`, `parse_positive_seconds`);
  - `decimal` — decimal numerals read as `str::parse` reads them, and written;
  - `kubelet` — the plan for reaching the kubelet and checking its certificate,
    and the kubelet client's request URLs;
  - `kubelet_health` — the kubelet health record and its JSON wire form;
  - `otel_client` — the OTel collector client: export URL, CA bundle checks,
    export requests and the verdict on the collector's answer;
  - `name_map` — a map kept in the byte order of its names;
  - `snapshot`, `section` — the aggregator's self-health record and the
    section that reports it;
  - `http` — the calls into `reqwest`, `prost` and `serde_json`, with what
    each is assumed to do;
  - `text` — small string helpers.
- `tests/` — tests of the library.
- `app/` — the process-facing parts: environment, files, network, logging and
  JSON with floating-point seconds.
