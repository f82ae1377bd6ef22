//! The error taxonomy of the pipeline. Every stage is terminal-on-error:
//! errors bubble unchanged to the invocation boundary, and no default value
//! is ever substituted for a failed stage.

use vstd::prelude::*;

verus! {

/// The five required configuration settings, named so that a configuration
/// error can report exactly which one was missing or empty.
#[derive(Debug, Clone, Copy, PartialEq, Eq, Structural)]
pub enum ConfigKey {
    Region,
    Bucket,
    FilePath,
    KeyId,
    KeySecret,
}

/// One error kind per failure point of the pipeline.
#[derive(Debug)]
pub enum PipelineError {
    /// A required setting is absent or empty; no I/O has been attempted.
    Configuration(ConfigKey),
    /// Malformed client parameters (an empty region or credential part).
    ClientConstruction,
    /// Object retrieval failed: not found, denied, or transport trouble.
    Fetch(String),
    /// The byte stream broke mid-transfer while being drained.
    Drain(String),
    /// The object's bytes are not well-formed UTF-8.
    Encoding,
    /// Zero lines were available to select from.
    EmptyCorpus,
}

impl ConfigKey {
    /// The name of the setting in the ambient configuration source.
    pub fn setting_name(&self) -> (r: &'static str)
        ensures
            *self == ConfigKey::Region ==> r@ == "REGION"@,
            *self == ConfigKey::Bucket ==> r@ == "BUCKET"@,
            *self == ConfigKey::FilePath ==> r@ == "FILE_PATH"@,
            *self == ConfigKey::KeyId ==> r@ == "S3_KEY_ID"@,
            *self == ConfigKey::KeySecret ==> r@ == "S3_KEY_SECRET"@,
    {
        match self {
            ConfigKey::Region => "REGION",
            ConfigKey::Bucket => "BUCKET",
            ConfigKey::FilePath => "FILE_PATH",
            ConfigKey::KeyId => "S3_KEY_ID",
            ConfigKey::KeySecret => "S3_KEY_SECRET",
        }
    }
}

impl PipelineError {
    /// A short human-readable description, for the invocation boundary to
    /// surface; the library itself never prints it.
    pub fn message(&self) -> (r: String)
        ensures
            self matches PipelineError::Configuration(ConfigKey::Region) ==> r@ == "Missing REGION"@,
            self matches PipelineError::Configuration(ConfigKey::Bucket) ==> r@ == "Missing BUCKET"@,
            self matches PipelineError::Configuration(ConfigKey::FilePath) ==> r@
                == "Missing FILE_PATH"@,
            self matches PipelineError::Configuration(ConfigKey::KeyId) ==> r@
                == "Missing S3_KEY_ID"@,
            self matches PipelineError::Configuration(ConfigKey::KeySecret) ==> r@
                == "Missing S3_KEY_SECRET"@,
            self matches PipelineError::ClientConstruction ==> r@ == "Malformed client parameters"@,
            self matches PipelineError::Encoding ==> r@ == "Object is not valid UTF-8"@,
            self matches PipelineError::EmptyCorpus ==> r@ == "Failed to get random line."@,
            self matches PipelineError::Fetch(s) ==> r@ == s@,
            self matches PipelineError::Drain(s) ==> r@ == s@,
    {
        match self {
            PipelineError::Configuration(ConfigKey::Region) => String::from_str("Missing REGION"),
            PipelineError::Configuration(ConfigKey::Bucket) => String::from_str("Missing BUCKET"),
            PipelineError::Configuration(ConfigKey::FilePath) => String::from_str(
                "Missing FILE_PATH",
            ),
            PipelineError::Configuration(ConfigKey::KeyId) => String::from_str("Missing S3_KEY_ID"),
            PipelineError::Configuration(ConfigKey::KeySecret) => String::from_str(
                "Missing S3_KEY_SECRET",
            ),
            PipelineError::ClientConstruction => String::from_str("Malformed client parameters"),
            PipelineError::Fetch(s) => s.clone(),
            PipelineError::Drain(s) => s.clone(),
            PipelineError::Encoding => String::from_str("Object is not valid UTF-8"),
            PipelineError::EmptyCorpus => String::from_str("Failed to get random line."),
        }
    }
}

} // verus!
