//! The store-client factory: an authenticated blob-store client built from
//! the resolved region and credential settings. Construction does no network
//! I/O; the handle is cheap, short-lived and owned by one invocation.

use vstd::prelude::*;

use crate::config::AppConfig;
use crate::errors::PipelineError;

verus! {

/// The blob-store client type. Opaque to verification: a handle bound to one
/// (region, credential-pair) combination.
#[verifier::external_type_specification]
#[verifier::external_body]
pub struct ExClient(aws_sdk_s3::Client);

/// Relies on aws_sdk_s3's client construction chain: `Credentials::new`
/// (static credentials under a fixed provenance label), `Region::new`,
/// `config::Builder::build`, and `Client::from_conf`. Retries, timeouts,
/// identity caching and stalled-stream protection are disabled, as no stage
/// of this pipeline retries and nothing is shared or cached across
/// invocations, and an explicit behavior version is set; `from_conf`'s config
/// validation therefore has nothing to reject, so it cannot panic. No
/// network I/O occurs during construction.
#[verifier::external_body]
fn make_client(region: &str, key_id: &str, key_secret: &str) -> aws_sdk_s3::Client {
    let cred = aws_sdk_s3::config::Credentials::new(
        key_id.to_owned(), key_secret.to_owned(), None, None, "loaded-from-custom-env",
    );
    let conf = aws_sdk_s3::config::Builder::new()
        .behavior_version(aws_sdk_s3::config::BehaviorVersion::latest())
        .region(aws_sdk_s3::config::Region::new(region.to_owned()))
        .credentials_provider(cred)
        .identity_cache(aws_sdk_s3::config::IdentityCache::no_cache())
        .retry_config(aws_sdk_s3::config::retry::RetryConfig::disabled())
        .timeout_config(aws_sdk_s3::config::timeout::TimeoutConfig::disabled())
        .stalled_stream_protection(aws_sdk_s3::config::StalledStreamProtectionConfig::disabled())
        .build();
    aws_sdk_s3::Client::from_conf(conf)
}

/// Build the authenticated client for one invocation, or reject malformed
/// client parameters (an empty region or credential part) as a construction
/// error before any I/O.
pub fn get_aws_client(config: &AppConfig) -> (r: Result<aws_sdk_s3::Client, PipelineError>)
    ensures
        r is Ok <==> config.region@.len() > 0 && config.key_id@.len() > 0
            && config.key_secret@.len() > 0,
        r matches Err(e) ==> e matches PipelineError::ClientConstruction,
{
    if config.region.as_str().is_empty() || config.key_id.as_str().is_empty()
        || config.key_secret.as_str().is_empty() {
        return Err(PipelineError::ClientConstruction);
    }
    Ok(make_client(config.region.as_str(), config.key_id.as_str(), config.key_secret.as_str()))
}

} // verus!
