use opentelemetry_proto::tonic::collector::metrics::v1::ExportMetricsServiceRequest;
use opentelemetry_proto::tonic::metrics::v1::ResourceMetrics;
use prost::Message;

use kube_agent::otel_client::{
    checked_ca_certificates, export_accepted, export_rejected, export_url, BasicAuth, OtelClient,
    OtelClientError,
};

#[test]
fn rejects_invalid_or_empty_ca_bundles() {
    let _ = rustls::crypto::ring::default_provider().install_default();
    for pem in [
        "",
        "not a certificate",
        "-----BEGIN CERTIFICATE-----\ninvalid\n-----END CERTIFICATE-----",
    ] {
        assert!(OtelClient::new("https://localhost", Some(pem.as_bytes()), None).is_err());
    }
    assert_eq!(
        OtelClient::new("https://localhost", Some(b"not a certificate"), None).err(),
        Some(OtelClientError::EmptyCaBundle)
    );
    assert_eq!(
        checked_ca_certificates(None).err(),
        Some(OtelClientError::InvalidCaBundle)
    );
    assert_eq!(
        checked_ca_certificates(Some(Vec::new())).err(),
        Some(OtelClientError::EmptyCaBundle)
    );
    assert_eq!(
        OtelClientError::EmptyCaBundle.message(),
        "OTel CA bundle contains no certificates"
    );
}

#[test]
fn credentials_become_an_authorization_header() {
    let _ = rustls::crypto::ring::default_provider().install_default();
    for (password, expected) in [
        (
            Some("McBobberson".to_string()),
            "Basic Ym9iOk1jQm9iYmVyc29u",
        ),
        (Some(String::new()), "Basic Ym9iOg=="),
        (None, "Basic Ym9iOg=="),
    ] {
        let auth = BasicAuth {
            username: "bob".to_string(),
            password,
        };
        let client = OtelClient::new("http://collector:4318", None, Some(auth))
            .expect("a client without a CA bundle should build");
        let request = client
            .export_request(ExportMetricsServiceRequest::default())
            .into_reqwest()
            .build()
            .expect("the export request should build");
        assert_eq!(request.headers()["authorization"], expected);
    }
}

#[test]
fn without_credentials_there_is_no_authorization_header() {
    let _ = rustls::crypto::ring::default_provider().install_default();
    let client = OtelClient::new("http://collector:4318", None, None)
        .expect("a client without a CA bundle should build");
    let request = client
        .export_request(ExportMetricsServiceRequest::default())
        .into_reqwest()
        .build()
        .expect("the export request should build");
    assert!(request.headers().get("authorization").is_none());
}

#[test]
fn the_export_request_posts_protobuf_to_the_export_url() {
    let _ = rustls::crypto::ring::default_provider().install_default();
    let client = OtelClient::new("http://collector:4318/", None, None)
        .expect("a client without a CA bundle should build");
    assert_eq!(client.export_url(), "http://collector:4318/v1/metrics");
    let request = client
        .export_request(ExportMetricsServiceRequest::default())
        .into_reqwest()
        .build()
        .expect("the export request should build");
    assert_eq!(request.method(), reqwest::Method::POST);
    assert_eq!(request.url().as_str(), "http://collector:4318/v1/metrics");
    assert_eq!(request.headers()["content-type"], "application/x-protobuf");
    let with_body = client
        .export_request_for_body(vec![1, 2, 3])
        .into_reqwest()
        .build()
        .expect("the export request should build");
    assert_eq!(with_body.url().as_str(), "http://collector:4318/v1/metrics");
    assert_eq!(
        with_body.body().and_then(|b| b.as_bytes()),
        Some(&[1u8, 2, 3][..])
    );
    assert!(with_body.headers().get("authorization").is_none());
}

#[test]
fn the_export_request_carries_the_protobuf_encoding() {
    let _ = rustls::crypto::ring::default_provider().install_default();
    let client = OtelClient::new("http://collector:4318", None, None)
        .expect("a client without a CA bundle should build");
    let message = ExportMetricsServiceRequest {
        resource_metrics: vec![ResourceMetrics::default()],
    };
    let expected = message.encode_to_vec();
    assert!(!expected.is_empty());
    let request = client
        .export_request(message)
        .into_reqwest()
        .build()
        .expect("the export request should build");
    assert_eq!(request.body().and_then(|b| b.as_bytes()), Some(&expected[..]));
}

#[test]
fn trailing_slashes_do_not_change_the_export_url() {
    assert_eq!(export_url("http://collector:4318"), "http://collector:4318/v1/metrics");
    assert_eq!(export_url("http://collector:4318///"), "http://collector:4318/v1/metrics");
    assert_eq!(export_url(""), "/v1/metrics");
    assert_eq!(export_url("/"), "/v1/metrics");
}

#[test]
fn only_success_statuses_accept_an_export() {
    assert!(export_accepted(200));
    assert!(export_accepted(204));
    assert!(export_accepted(299));
    assert!(!export_accepted(199));
    assert!(!export_accepted(300));
    assert!(!export_accepted(503));
    let rejected = export_rejected(503, Some("overloaded".to_string()));
    assert_eq!(rejected.status, 503);
    assert_eq!(rejected.body, "overloaded");
    assert_eq!(export_rejected(400, None).body, "<failed to read body>");
}
