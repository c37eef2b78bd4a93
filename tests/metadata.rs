use data_ingester::metadata::{AdoMetadata, AdoMetadataBuilder};
use serde_json::Value;

fn sample() -> AdoMetadata {
    AdoMetadata::new(
        "tenant-1",
        "https://dev.azure.com/org/_apis/projects",
        Some("org"),
        None,
        Some("repo"),
        vec![200, 429],
        "fn list_projects",
        "https://learn.microsoft.com/rest/api/azure/devops",
    )
}

#[test]
fn source_is_tenant_and_url() {
    let m = sample();
    assert_eq!(m.source, "tenant-1:https://dev.azure.com/org/_apis/projects");
    assert_eq!(m.sourcetype, "ADO");
    assert_eq!(m.url(), "https://dev.azure.com/org/_apis/projects");
    assert_eq!(m.organization.as_deref(), Some("org"));
    assert!(m.project.is_none());
    assert_eq!(m.status, vec![200, 429]);
    assert_eq!(m.record_type, "fn list_projects");
}

#[test]
fn metadata_as_json() {
    let v = sample().to_json();
    let expected: Value = serde_json::from_str(
        r#"{
            "url": "https://dev.azure.com/org/_apis/projects",
            "organization": "org",
            "project": null,
            "repo": "repo",
            "status": [200, 429],
            "source": "tenant-1:https://dev.azure.com/org/_apis/projects",
            "sourcetype": "ADO",
            "tenant": "tenant-1",
            "type": "fn list_projects",
            "rest_docs": "https://learn.microsoft.com/rest/api/azure/devops"
        }"#,
    )
    .unwrap();
    assert_eq!(v, expected);
}

#[test]
fn stamping_twice_is_byte_identical() {
    let a = serde_json::to_string(&sample().to_json()).unwrap();
    let b = serde_json::to_string(&sample().to_json()).unwrap();
    assert_eq!(a, b);
    assert_eq!(sample().source, sample().source);
}

#[test]
fn builder_sets_members() {
    let b = AdoMetadataBuilder {
        url: String::new(),
        organization: None,
        project: None,
        repo: None,
        status: 200,
        source: String::new(),
        sourcetype: String::new(),
        tenant: "t".to_string(),
        record_type: String::new(),
        rest_docs: String::new(),
    }
    .url("https://u".to_string())
    .organization("o".to_string())
    .project("p".to_string())
    .repo("r".to_string());
    assert_eq!(b.url, "https://u");
    assert_eq!(b.organization.as_deref(), Some("o"));
    assert_eq!(b.project.as_deref(), Some("p"));
    assert_eq!(b.repo.as_deref(), Some("r"));
    assert_eq!(b.tenant, "t");
    assert_eq!(b.status, 200);
}

#[test]
fn default_metadata_is_empty() {
    let m = AdoMetadata::default();
    assert_eq!(m.source, "");
    assert_eq!(m.sourcetype, "");
    assert!(m.status.is_empty());
    assert!(m.organization.is_none());
}
