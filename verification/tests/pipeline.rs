use random_line::client::get_aws_client;
use random_line::config::{resolve_config, AppConfig};
use random_line::envelope::build_response;
use random_line::errors::{ConfigKey, PipelineError};
use random_line::lines::convert_bytes_to_string;
use random_line::select::{get_random_line, select_line};

fn some(s: &str) -> Option<String> {
    Some(s.to_string())
}

fn full_config() -> AppConfig {
    resolve_config(
        some("eu-west-1"),
        some("quotes-bucket"),
        some("quotes.txt"),
        some("test-key-id"),
        some("test-key-secret"),
    )
    .expect("all settings present")
}

#[test]
fn config_all_present() {
    let config = full_config();
    assert_eq!(config.region, "eu-west-1");
    assert_eq!(config.bucket, "quotes-bucket");
    assert_eq!(config.file_path, "quotes.txt");
    assert_eq!(config.key_id, "test-key-id");
    assert_eq!(config.key_secret, "test-key-secret");
}

#[test]
fn config_missing_region() {
    let r = resolve_config(None, some("b"), some("f"), some("k"), some("s"));
    match r {
        Err(PipelineError::Configuration(key)) => {
            assert_eq!(key, ConfigKey::Region);
            assert_eq!(PipelineError::Configuration(key).message(), "Missing REGION");
        }
        _ => panic!("expected a configuration error"),
    }
}

#[test]
fn config_empty_region_is_rejected() {
    let r = resolve_config(some(""), some("b"), some("f"), some("k"), some("s"));
    assert!(matches!(
        r,
        Err(PipelineError::Configuration(ConfigKey::Region))
    ));
}

#[test]
fn config_missing_bucket() {
    let r = resolve_config(some("r"), None, some("f"), some("k"), some("s"));
    match r {
        Err(e) => {
            assert!(matches!(
                e,
                PipelineError::Configuration(ConfigKey::Bucket)
            ));
            assert_eq!(e.message(), "Missing BUCKET");
        }
        _ => panic!("expected a configuration error"),
    }
}

#[test]
fn config_missing_file_path() {
    let r = resolve_config(some("r"), some("b"), some(""), some("k"), some("s"));
    match r {
        Err(e) => {
            assert!(matches!(
                e,
                PipelineError::Configuration(ConfigKey::FilePath)
            ));
            assert_eq!(e.message(), "Missing FILE_PATH");
        }
        _ => panic!("expected a configuration error"),
    }
}

#[test]
fn config_missing_key_id() {
    let r = resolve_config(some("r"), some("b"), some("f"), None, some("s"));
    assert!(matches!(
        r,
        Err(PipelineError::Configuration(ConfigKey::KeyId))
    ));
}

#[test]
fn config_missing_key_secret() {
    let r = resolve_config(some("r"), some("b"), some("f"), some("k"), some(""));
    assert!(matches!(
        r,
        Err(PipelineError::Configuration(ConfigKey::KeySecret))
    ));
}

#[test]
fn config_reports_first_missing_setting() {
    let r = resolve_config(None, None, None, None, None);
    assert!(matches!(
        r,
        Err(PipelineError::Configuration(ConfigKey::Region))
    ));
}

#[test]
fn setting_names() {
    assert_eq!(ConfigKey::Region.setting_name(), "REGION");
    assert_eq!(ConfigKey::Bucket.setting_name(), "BUCKET");
    assert_eq!(ConfigKey::FilePath.setting_name(), "FILE_PATH");
    assert_eq!(ConfigKey::KeyId.setting_name(), "S3_KEY_ID");
    assert_eq!(ConfigKey::KeySecret.setting_name(), "S3_KEY_SECRET");
}

#[test]
fn valid_aws_client() {
    let config = full_config();
    let client = get_aws_client(&config);
    assert!(client.is_ok());
}

#[test]
fn empty_region_rejected_at_client_construction() {
    let config = AppConfig {
        region: String::new(),
        bucket: "b".to_string(),
        file_path: "f".to_string(),
        key_id: "k".to_string(),
        key_secret: "s".to_string(),
    };
    assert!(matches!(
        get_aws_client(&config),
        Err(PipelineError::ClientConstruction)
    ));
}

#[test]
fn deserialize_stream() {
    let string = "This is a\ntest string.\nIt will get\nturned into\nan array.";
    let bytes = string.as_bytes().to_vec();

    let deserialized = convert_bytes_to_string(bytes);
    assert_eq!(
        string
            .split("\n")
            .map(|x| x.to_string())
            .collect::<Vec<String>>(),
        deserialized.expect("Error")
    );
}

#[test]
fn split_preserves_empty_segments_and_order() {
    let bytes = b"a\n\nb\n".to_vec();
    let lines = convert_bytes_to_string(bytes).expect("Error");
    assert_eq!(lines, vec!["a", "", "b", ""]);
}

#[test]
fn windows_line_endings_keep_carriage_return() {
    let bytes = b"first\r\nsecond".to_vec();
    let lines = convert_bytes_to_string(bytes).expect("Error");
    assert_eq!(lines, vec!["first\r", "second"]);
}

#[test]
fn multibyte_text_is_decoded() {
    let bytes = "h\u{e9}llo\nw\u{f6}rld".as_bytes().to_vec();
    let lines = convert_bytes_to_string(bytes).expect("Error");
    assert_eq!(lines, vec!["h\u{e9}llo", "w\u{f6}rld"]);
}

#[test]
fn invalid_utf8_is_an_encoding_error() {
    let bytes = vec![0xff, 0xfe, 0x0a, 0x41];
    let r = convert_bytes_to_string(bytes);
    assert!(matches!(r, Err(PipelineError::Encoding)));
}

#[test]
fn empty_object_yields_empty_corpus_then_empty_corpus_error() {
    let lines = convert_bytes_to_string(Vec::new()).expect("empty bytes are valid text");
    assert_eq!(lines.len(), 0);
    let r = get_random_line(lines);
    assert!(matches!(r, Err(PipelineError::EmptyCorpus)));
}

#[test]
fn empty_corpus_message() {
    let r = get_random_line(Vec::new());
    match r {
        Err(e) => assert_eq!(e.message(), "Failed to get random line."),
        Ok(_) => panic!("an empty corpus must not select a line"),
    }
}

#[test]
fn random_line() {
    let string = "This is a\ntest string.\nIt will get\nturned into\nan array.";

    let str_array = string
        .split("\n")
        .map(|x| x.to_string())
        .collect::<Vec<String>>();

    //get line
    let s1 = get_random_line(str_array.clone()).expect("Error");
    assert!(str_array.contains(&s1));

    //random?
    let mut i: i32 = 10;
    let mut s2: String = "".to_string();
    while i > 0 {
        s2 = get_random_line(str_array.clone()).expect("Error");
        if s1 == s2 {
            i = i - 1;
        } else {
            assert!(true);
            break;
        }
    }
    let _ = s2;
}

#[test]
fn selection_membership_holds_on_every_call() {
    let corpus: Vec<String> = vec!["one".to_string(), "two".to_string(), "three".to_string()];
    for _ in 0..50 {
        let line = get_random_line(corpus.clone()).expect("Error");
        assert!(corpus.contains(&line));
    }
}

#[test]
fn single_line_corpus_always_selects_it() {
    let corpus = vec!["only".to_string()];
    let line = get_random_line(corpus).expect("Error");
    assert_eq!(line, "only");
}

#[test]
fn select_line_is_deterministic_at_an_index() {
    let corpus: Vec<String> = vec!["a".to_string(), "b".to_string(), "c".to_string()];
    assert_eq!(select_line(&corpus, 0), "a");
    assert_eq!(select_line(&corpus, 1), "b");
    assert_eq!(select_line(&corpus, 2), "c");
}

#[test]
fn fetch_and_drain_errors_carry_their_description() {
    let f = PipelineError::Fetch("object not found".to_string());
    assert_eq!(f.message(), "object not found");
    let d = PipelineError::Drain("connection reset".to_string());
    assert_eq!(d.message(), "connection reset");
}

#[test]
fn envelope_shape() {
    let line = "  a chosen line  ".to_string();
    let envelope = build_response(&line);

    assert_eq!(envelope.status_code, 200);
    assert!(!envelope.is_base64_encoded);

    let headers = envelope.headers;
    assert_eq!(headers.len(), 4);
    assert_eq!(headers[0].0, "Content-Type");
    assert_eq!(headers[0].1, "application/json");
    assert_eq!(headers[1].0, "Access-Control-Allow-Methods");
    assert_eq!(headers[1].1, "'GET,OPTIONS'");
    assert_eq!(headers[2].0, "Access-Control-Allow-Headers");
    assert_eq!(
        headers[2].1,
        "'Content-Type,X-Amz-Date,Authorization,X-Api-Key,X-Amz-Security-Token'"
    );
    assert_eq!(headers[3].0, "Access-Control-Allow-Origin");
    assert_eq!(headers[3].1, "https://example.com");

    let parsed: serde_json::Value =
        serde_json::from_str(&envelope.body).expect("body must be JSON");
    let object = parsed.as_object().expect("body must be a JSON object");
    assert_eq!(object.len(), 1);
    assert_eq!(
        object.get("message").and_then(|v| v.as_str()),
        Some("a chosen line")
    );
}

#[test]
fn envelope_body_trims_the_line() {
    let line = "\t padded \n".to_string();
    let envelope = build_response(&line);
    assert_eq!(envelope.body, "{\"message\": \"padded\"}");
}
