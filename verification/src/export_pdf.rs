//! The PDF export pipeline: render the summary into the document
//! template, then compile and upload the document, and construct the
//! public URL of the uploaded object. Each stage is strictly sequential
//! and a failure at any stage is terminal, tagged by that stage.

use vstd::prelude::*;
use vstd::string::*;
use crate::config::Config;
use crate::error::AppError;
use crate::models::{ExportRequest, ExportResponse};
use crate::textops::{dec_signed, i64_to_dec, replace_all, replaced};

verus! {

/// Substitute the summary for every occurrence of the `{{SUMMARY}}`
/// placeholder in the template; nothing else in the template is touched.
pub fn render_document(template: &str, req: &ExportRequest) -> (r: String)
    ensures
        r@ == replaced(template@, "{{SUMMARY}}"@, req.summary@),
{
    proof {
        reveal_strlit("{{SUMMARY}}");
    }
    replace_all(template, "{{SUMMARY}}", req.summary.as_str())
}

/// The object key under which a PDF captured at `ts_millis` — the upload
/// moment in milliseconds since the Unix epoch — is stored. No uniqueness
/// is guaranteed: two uploads in one millisecond share a key.
pub fn object_key(ts_millis: i64) -> (r: String)
    ensures
        r@ == "resumes/"@ + dec_signed(ts_millis as int) + ".pdf"@,
{
    String::from_str("resumes/").concat(i64_to_dec(ts_millis).as_str()).concat(".pdf")
}

/// The public URL of the uploaded object, built from the configured
/// bucket name and region and the object key.
pub fn export_success(config: &Config, key: &str) -> (r: ExportResponse)
    ensures
        r.pdf_url@ == "https://"@ + config.aws_s3_bucket_name@ + ".s3."@ + config.aws_region@
            + ".amazonaws.com/"@ + key@,
{
    let url = String::from_str("https://").concat(config.aws_s3_bucket_name.as_str()).concat(
        ".s3.",
    ).concat(config.aws_region.as_str()).concat(".amazonaws.com/").concat(key);
    ExportResponse { pdf_url: url }
}

/// The stage of the export pipeline at which a failure occurred.
pub enum ExportStage {
    /// The document template could not be read.
    Render,
    /// The document compiler rejected the rendered document.
    Compile,
    /// The object-storage upload failed.
    Upload,
}

/// Tag a stage failure with its error: template read failures are I/O
/// errors, compiler failures compilation errors, upload failures storage
/// errors; the recorded detail is kept as it is.
pub fn export_failure(stage: ExportStage, detail: String) -> (r: AppError)
    ensures
        stage matches ExportStage::Render ==> (r matches AppError::Io(m) && m@ == detail@),
        stage matches ExportStage::Compile ==> (r matches AppError::Tectonic(m) && m@ == detail@),
        stage matches ExportStage::Upload ==> (r matches AppError::S3(m) && m@ == detail@),
{
    match stage {
        ExportStage::Render => AppError::Io(detail),
        ExportStage::Compile => AppError::Tectonic(detail),
        ExportStage::Upload => AppError::S3(detail),
    }
}

} // verus!
