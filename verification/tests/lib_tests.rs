use openai::assistants::files::FilePurpose;
use openai::assistants::runs::Status;
use openai::files::file_not_found_error;
use openai::files::io_error;
use openai::chat::ChatCompletionDeltaMergeError;
use openai::edits::Edit;
use openai::edits::EditChoice;
use openai::Credentials;
use openai::OpenAiError;
use openai::set_base_url;
use openai::set_key;
use openai::Tokens;
use openai::Usage;

#[test]
fn credentials_default_and_slash() {
    let plain = Credentials::new("sk-test", "");
    assert_eq!(plain.api_key(), "sk-test");
    assert_eq!(plain.base_url(), "https://api.openai.com/v1/");

    let no_slash = Credentials::new("sk-test", "https://example.test/v1");
    assert_eq!(no_slash.base_url(), "https://example.test/v1/");

    let with_slash = Credentials::new("sk-test", "https://example.test/v1/");
    assert_eq!(with_slash.base_url(), "https://example.test/v1/");
}

#[test]
fn credentials_setters() {
    let mut credentials = Credentials::new("old-key", "https://example.test/");
    set_key(&mut credentials, "new-key".to_string());
    assert_eq!(credentials.api_key(), "new-key");
    assert_eq!(credentials.base_url(), "https://example.test/");

    set_base_url(&mut credentials, String::new());
    assert_eq!(credentials.base_url(), "https://example.test/");

    set_base_url(&mut credentials, "https://other.test/v2".to_string());
    assert_eq!(credentials.base_url(), "https://other.test/v2/");
    assert_eq!(credentials.api_key(), "new-key");
}

#[test]
fn tokens_estimate() {
    assert_eq!("abcdefgh".tokens(), 2);
    assert_eq!("abc".tokens(), 0);
    assert_eq!("abcdefgh".to_string().tokens(), 2);
}

#[test]
fn merge_error_messages() {
    assert_eq!(
        ChatCompletionDeltaMergeError::DifferentCompletionIds.message(),
        "Different completion IDs"
    );
    assert_eq!(
        ChatCompletionDeltaMergeError::DifferentCompletionChoiceIndices.message(),
        "Different completion choice indices"
    );
    assert_eq!(
        ChatCompletionDeltaMergeError::FunctionCallArgumentTypeMismatch.message(),
        "Function call argument type mismatch"
    );
}

#[test]
fn openai_error_new_leaves_optionals_empty() {
    let error = OpenAiError::new("boom".to_string(), "internal".to_string());
    assert_eq!(error.message, "boom");
    assert_eq!(error.error_type, "internal");
    assert_eq!(error.param, None);
    assert_eq!(error.code, None);
}

#[test]
fn file_error_constructors() {
    let not_found = file_not_found_error("test_data/missing.jsonl");
    assert_eq!(not_found.message, "File test_data/missing.jsonl not found");
    assert_eq!(not_found.error_type, "internal");
    assert_eq!(not_found.param, None);
    assert_eq!(not_found.code, None);

    let io = io_error("permission denied");
    assert_eq!(io.message, "IO Error permission denied");
    assert_eq!(io.error_type, "internal");
}

#[test]
fn run_status_from_api_name() {
    assert_eq!(Status::from_api_name("queued"), Some(Status::Queued));
    assert_eq!(Status::from_api_name("in_progress"), Some(Status::InProgress));
    assert_eq!(
        Status::from_api_name("requires_action"),
        Some(Status::RequiresAction)
    );
    assert_eq!(Status::from_api_name("completed"), Some(Status::Completed));
    assert_eq!(Status::from_api_name("expired"), Some(Status::Expired));
    assert_eq!(Status::from_api_name("daydreaming"), None);
}

#[test]
fn run_status_is_terminal() {
    assert!(!Status::Queued.is_terminal());
    assert!(!Status::InProgress.is_terminal());
    assert!(Status::RequiresAction.is_terminal());
    assert!(Status::Cancelling.is_terminal());
    assert!(Status::Cancelled.is_terminal());
    assert!(Status::Failed.is_terminal());
    assert!(Status::Completed.is_terminal());
    assert!(Status::Incomplete.is_terminal());
    assert!(Status::Expired.is_terminal());
}

#[test]
fn file_purpose_api_names() {
    assert_eq!(FilePurpose::Assistants.api_name(), "assistants");
    assert_eq!(FilePurpose::FineTune.api_name(), "fine_tune");
    assert_eq!(FilePurpose::Vision.api_name(), "vision");
}

#[test]
fn edit_normalize_choices_lifts_texts() {
    let mut edit = Edit {
        created: 9,
        choices: vec![],
        usage: Usage {
            prompt_tokens: 1,
            completion_tokens: 2,
            total_tokens: 3,
        },
        raw_choices: vec![
            EditChoice {
                text: "What day of the week is it?\n".to_string(),
            },
            EditChoice {
                text: "second".to_string(),
            },
        ],
    };
    edit.normalize_choices();
    assert_eq!(
        edit.choices,
        vec![
            "What day of the week is it?\n".to_string(),
            "second".to_string()
        ]
    );
    assert_eq!(edit.created, 9);
}
