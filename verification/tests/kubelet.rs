use kube_agent::cli_args::KubeletServerIdentity;
use kube_agent::http::HttpClientBuilder;
use kube_agent::kubelet::{
    ip_base_url, kubelet_client_builder, plan_kubelet_connection, HostnameCheck, KubeletClient,
    KubeletTls, KubeletTlsError, KUBELET_PORT,
};

#[test]
fn formats_ipv4_and_ipv6_urls() {
    // The addresses as `IpAddr` writes them.
    assert_eq!(KUBELET_PORT, 10250);
    assert_eq!(ip_base_url("192.0.2.1"), "https://192.0.2.1:10250");
    assert_eq!(ip_base_url("2001:db8::1"), "https://[2001:db8::1]:10250");
}

#[test]
fn without_a_ca_bundle_certificates_are_not_checked() {
    for identity in [
        KubeletServerIdentity::NodeIp,
        KubeletServerIdentity::NodeName,
        KubeletServerIdentity::CaOnly,
    ] {
        let plan = plan_kubelet_connection(&None, identity, "node01", "192.0.2.1");
        assert!(matches!(plan.tls, KubeletTls::AcceptInvalidCerts));
        assert_eq!(plan.base_url, "https://192.0.2.1:10250");
    }
}

#[test]
fn with_a_ca_bundle_the_identity_decides_the_host() {
    let bundle = Some("/etc/kubelet/ca.crt".to_string());
    let cases = [
        (KubeletServerIdentity::NodeIp, HostnameCheck::NodeIp, "https://192.0.2.1:10250"),
        (KubeletServerIdentity::NodeName, HostnameCheck::NodeName, "https://node01:10250"),
        (KubeletServerIdentity::CaOnly, HostnameCheck::Skip, "https://192.0.2.1:10250"),
    ];
    for (identity, expected_check, expected_url) in cases {
        let plan = plan_kubelet_connection(&bundle, identity, "node01", "192.0.2.1");
        match plan.tls {
            KubeletTls::TrustBundle { bundle_file, hostname } => {
                assert_eq!(bundle_file, "/etc/kubelet/ca.crt");
                assert_eq!(hostname, expected_check);
            }
            KubeletTls::AcceptInvalidCerts => panic!("a CA bundle is configured"),
        }
        assert_eq!(plan.base_url, expected_url);
    }
}

#[test]
fn request_urls_append_the_path_to_the_base_url() {
    let _ = rustls::crypto::ring::default_provider().install_default();
    let client = KubeletClient::new(
        HttpClientBuilder::new().build().expect("a default client should build"),
        "https://192.0.2.1:10250".to_string(),
        "node01".to_string(),
    );
    assert_eq!(client.url("/healthz"), "https://192.0.2.1:10250/healthz");
    assert_eq!(client.node_name(), "node01");
    let request = client
        .get("/stats/summary")
        .into_reqwest()
        .build()
        .expect("the request should build");
    assert_eq!(request.url().as_str(), "https://192.0.2.1:10250/stats/summary");
    assert_eq!(request.method(), reqwest::Method::GET);
    assert!(request.headers().get("authorization").is_none());
    let authorized = client
        .authorized_get("/healthz", "  secret-token\n")
        .into_reqwest()
        .build()
        .expect("the request should build");
    assert_eq!(authorized.url().as_str(), "https://192.0.2.1:10250/healthz");
    assert_eq!(authorized.method(), reqwest::Method::GET);
    assert_eq!(authorized.headers()["authorization"], "Bearer secret-token");
}

#[test]
fn the_kubelet_client_follows_its_connection_plan() {
    let _ = rustls::crypto::ring::default_provider().install_default();
    let open = plan_kubelet_connection(&None, KubeletServerIdentity::NodeIp, "node01", "192.0.2.1");
    let builder = kubelet_client_builder(reqwest::Client::builder(), &open, None)
        .expect("no CA bundle is needed");
    assert!(builder.build().is_some());

    let bundle = Some("/etc/kubelet/ca.crt".to_string());
    let checked = plan_kubelet_connection(&bundle, KubeletServerIdentity::CaOnly, "node01", "192.0.2.1");
    assert_eq!(
        kubelet_client_builder(reqwest::Client::builder(), &checked, None).err(),
        Some(KubeletTlsError::MissingCaBundle)
    );
    assert_eq!(
        kubelet_client_builder(
            reqwest::Client::builder(),
            &checked,
            Some(b"-----BEGIN CERTIFICATE-----\nMIIB\n"),
        )
        .err(),
        Some(KubeletTlsError::InvalidCaBundle)
    );
    assert!(kubelet_client_builder(reqwest::Client::builder(), &checked, Some(b"")).is_ok());
}
