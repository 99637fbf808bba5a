//! The typed payloads the pipelines work on.

use vstd::prelude::*;

verus! {

/// One commit entry in a push-event payload.
pub struct Commit {
    pub message: String,
}

/// Payload of a push event; the commit list may be absent, which is not
/// an error.
pub struct PushEventPayload {
    pub commits: Option<Vec<Commit>>,
}

/// One activity record: an event kind, and the part of its body the
/// service reads — the push-event payload, where one could be decoded.
pub struct Activity {
    pub kind: String,
    pub payload: Option<PushEventPayload>,
}

/// Request for the summarize pipeline. The optional settings override
/// the configured defaults.
pub struct SummarizeRequest {
    pub activities: Vec<Activity>,
    pub openapi_base_url: Option<String>,
    pub model: Option<String>,
    pub endpoint_type: Option<String>,
}

/// Result of the summarize pipeline.
pub struct SummarizeResponse {
    pub summary: String,
    pub endpoint_used: String,
}

/// Request for the PDF export pipeline.
pub struct ExportRequest {
    pub summary: String,
}

/// Result of the PDF export pipeline: the public URL of the uploaded PDF.
pub struct ExportResponse {
    pub pdf_url: String,
}

} // verus!
