//! Configuration resolution: the five required named settings, failing fast
//! if any is absent or empty, before any I/O is attempted.

use vstd::prelude::*;

use crate::errors::{ConfigKey, PipelineError};

verus! {

/// The resolved configuration: five required string settings.
pub struct AppConfig {
    pub region: String,
    pub bucket: String,
    pub file_path: String,
    pub key_id: String,
    pub key_secret: String,
}

impl AppConfig {
    /// Well-formedness: no setting is empty.
    pub open spec fn wf(&self) -> bool {
        &&& self.region@.len() > 0
        &&& self.bucket@.len() > 0
        &&& self.file_path@.len() > 0
        &&& self.key_id@.len() > 0
        &&& self.key_secret@.len() > 0
    }
}

/// Whether one raw setting value counts as present: set, and not empty.
pub open spec fn present(v: Option<String>) -> bool {
    v matches Some(s) && s@.len() > 0
}

/// Turn the five raw setting values (as read from the ambient configuration
/// source) into a configuration record, or fail naming the first setting,
/// in resolution order, that is absent or empty.
pub fn resolve_config(
    region: Option<String>,
    bucket: Option<String>,
    file_path: Option<String>,
    key_id: Option<String>,
    key_secret: Option<String>,
) -> (r: Result<AppConfig, PipelineError>)
    ensures
        r is Ok <==> present(region) && present(bucket) && present(file_path) && present(key_id)
            && present(key_secret),
        r matches Ok(c) ==> {
            &&& c.wf()
            &&& c.region@ == region.unwrap()@
            &&& c.bucket@ == bucket.unwrap()@
            &&& c.file_path@ == file_path.unwrap()@
            &&& c.key_id@ == key_id.unwrap()@
            &&& c.key_secret@ == key_secret.unwrap()@
        },
        !present(region) ==> (r matches Err(PipelineError::Configuration(ConfigKey::Region))),
        present(region) && !present(bucket) ==> (r matches Err(
            PipelineError::Configuration(ConfigKey::Bucket),
        )),
        present(region) && present(bucket) && !present(file_path) ==> (r matches Err(
            PipelineError::Configuration(ConfigKey::FilePath),
        )),
        present(region) && present(bucket) && present(file_path) && !present(key_id) ==> (r matches
            Err(PipelineError::Configuration(ConfigKey::KeyId))),
        present(region) && present(bucket) && present(file_path) && present(key_id) && !present(
            key_secret,
        ) ==> (r matches Err(PipelineError::Configuration(ConfigKey::KeySecret))),
{
    let region = match required(region, ConfigKey::Region) {
        Ok(s) => s,
        Err(e) => { return Err(e); },
    };
    let bucket = match required(bucket, ConfigKey::Bucket) {
        Ok(s) => s,
        Err(e) => { return Err(e); },
    };
    let file_path = match required(file_path, ConfigKey::FilePath) {
        Ok(s) => s,
        Err(e) => { return Err(e); },
    };
    let key_id = match required(key_id, ConfigKey::KeyId) {
        Ok(s) => s,
        Err(e) => { return Err(e); },
    };
    let key_secret = match required(key_secret, ConfigKey::KeySecret) {
        Ok(s) => s,
        Err(e) => { return Err(e); },
    };
    Ok(AppConfig { region, bucket, file_path, key_id, key_secret })
}

/// One required setting: reject an absent or empty value with a
/// configuration error naming it.
fn required(v: Option<String>, key: ConfigKey) -> (r: Result<String, PipelineError>)
    ensures
        r is Ok <==> present(v),
        r matches Ok(s) ==> s@ == v.unwrap()@,
        r matches Err(e) ==> e matches PipelineError::Configuration(k) && k == key,
{
    match v {
        Some(s) => {
            if s.as_str().is_empty() {
                Err(PipelineError::Configuration(key))
            } else {
                Ok(s)
            }
        },
        None => Err(PipelineError::Configuration(key)),
    }
}

} // verus!
