//! Process-wide configuration, built once at startup from optionally
//! present setting values.

use vstd::prelude::*;
use vstd::string::*;
use crate::error::AppError;

verus! {

/// Read-only service configuration.
pub struct Config {
    pub openapi_base_url: String,
    pub default_model: String,
    pub default_endpoint: String,
    pub openapi_api_key: String,
    pub aws_s3_bucket_name: String,
    pub aws_region: String,
}

impl Config {
    /// Build the configuration from the setting values found at startup.
    /// The first three settings fall back to fixed defaults when absent;
    /// the API key, bucket name and region are required, and the first one
    /// missing is reported as a configuration error.
    pub fn from_parts(
        openapi_base_url: Option<String>,
        default_model: Option<String>,
        default_endpoint: Option<String>,
        openapi_api_key: Option<String>,
        aws_s3_bucket_name: Option<String>,
        aws_region: Option<String>,
    ) -> (r: Result<Config, AppError>)
        ensures
            r is Ok <==> (openapi_api_key is Some && aws_s3_bucket_name is Some && aws_region
                is Some),
            r matches Ok(c) ==> {
                &&& c.openapi_base_url@ == (match openapi_base_url {
                    Some(s) => s@,
                    None => "https://api.openai.com"@,
                })
                &&& c.default_model@ == (match default_model {
                    Some(s) => s@,
                    None => "text-davinci-003"@,
                })
                &&& c.default_endpoint@ == (match default_endpoint {
                    Some(s) => s@,
                    None => "completions"@,
                })
                &&& c.openapi_api_key@ == openapi_api_key->0@
                &&& c.aws_s3_bucket_name@ == aws_s3_bucket_name->0@
                &&& c.aws_region@ == aws_region->0@
            },
            openapi_api_key is None ==> (r matches Err(e) && e matches AppError::Config(m)
                && m@ == "OPENAPI_API_KEY is not set"@),
            (openapi_api_key is Some && aws_s3_bucket_name is None) ==> (r matches Err(e)
                && e matches AppError::Config(m) && m@ == "AWS_S3_BUCKET_NAME is not set"@),
            (openapi_api_key is Some && aws_s3_bucket_name is Some && aws_region is None) ==> (
            r matches Err(e) && e matches AppError::Config(m) && m@
                == "AWS_REGION is not set"@),
    {
        let key = match openapi_api_key {
            Some(s) => s,
            None => {
                return Err(AppError::Config(String::from_str("OPENAPI_API_KEY is not set")));
            },
        };
        let bucket = match aws_s3_bucket_name {
            Some(s) => s,
            None => {
                return Err(AppError::Config(String::from_str("AWS_S3_BUCKET_NAME is not set")));
            },
        };
        let region = match aws_region {
            Some(s) => s,
            None => {
                return Err(AppError::Config(String::from_str("AWS_REGION is not set")));
            },
        };
        let base_url = match openapi_base_url {
            Some(s) => s,
            None => String::from_str("https://api.openai.com"),
        };
        let model = match default_model {
            Some(s) => s,
            None => String::from_str("text-davinci-003"),
        };
        let endpoint = match default_endpoint {
            Some(s) => s,
            None => String::from_str("completions"),
        };
        Ok(
            Config {
                openapi_base_url: base_url,
                default_model: model,
                default_endpoint: endpoint,
                openapi_api_key: key,
                aws_s3_bucket_name: bucket,
                aws_region: region,
            },
        )
    }
}

/// The value of an optional request override, falling back to a default.
pub open spec fn resolved(value: Option<String>, default: Seq<char>) -> Seq<char> {
    match value {
        Some(s) => s@,
        None => default,
    }
}

/// Take an optional request override, or fall back to the configured
/// default: request value > configured default.
pub fn resolve_override(value: Option<String>, default: &String) -> (r: String)
    ensures
        r@ == resolved(value, default@),
{
    match value {
        Some(s) => s,
        None => default.clone(),
    }
}

} // verus!
