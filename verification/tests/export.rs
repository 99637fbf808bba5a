use my_rust_service::config::Config;
use my_rust_service::error::AppError;
use my_rust_service::export_pdf::{
    export_failure, export_success, object_key, render_document, ExportStage,
};
use my_rust_service::models::ExportRequest;

fn test_config() -> Config {
    Config::from_parts(
        None,
        None,
        None,
        Some("k".to_string()),
        Some("my-bucket".to_string()),
        Some("us-east-2".to_string()),
    )
    .ok()
    .unwrap()
}

#[test]
fn render_substitutes_summary() {
    let req = ExportRequest {
        summary: "Built X".to_string(),
    };
    assert_eq!(render_document("Name: {{SUMMARY}}", &req), "Name: Built X");
}

#[test]
fn render_replaces_every_occurrence() {
    let req = ExportRequest {
        summary: "S".to_string(),
    };
    assert_eq!(
        render_document("a {{SUMMARY}} b {{SUMMARY}} c", &req),
        "a S b S c"
    );
}

#[test]
fn render_without_placeholder_keeps_template() {
    let req = ExportRequest {
        summary: "anything".to_string(),
    };
    assert_eq!(render_document("plain text", &req), "plain text");
}

#[test]
fn object_key_has_millisecond_timestamp() {
    assert_eq!(object_key(1700000000123), "resumes/1700000000123.pdf");
    assert_eq!(object_key(0), "resumes/0.pdf");
    assert_eq!(object_key(-5), "resumes/-5.pdf");
}

#[test]
fn export_url_is_built_from_bucket_region_and_key() {
    let config = test_config();
    let resp = export_success(&config, "resumes/42.pdf");
    assert_eq!(
        resp.pdf_url,
        "https://my-bucket.s3.us-east-2.amazonaws.com/resumes/42.pdf"
    );
}

#[test]
fn stage_failures_keep_their_tags() {
    match export_failure(ExportStage::Render, "no template".to_string()) {
        AppError::Io(m) => assert_eq!(m, "no template"),
        _ => panic!("a render failure is an I/O error"),
    }
    match export_failure(ExportStage::Compile, "bad latex".to_string()) {
        AppError::Tectonic(m) => assert_eq!(m, "bad latex"),
        _ => panic!("a compile failure is a compilation error"),
    }
    match export_failure(ExportStage::Upload, "denied".to_string()) {
        AppError::S3(m) => assert_eq!(m, "denied"),
        _ => panic!("an upload failure is a storage error"),
    }
}
