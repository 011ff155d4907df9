use openai::audio::Transcription;
use openai::chat::modules::ChatCompletion;
use openai::chat::requests::ChatCompletionBuilder;
use openai::chat::requests::ChatCompletionResponseFormat;
use openai::chat::ToolChoiceMode;
use openai::completions::Completion;
use openai::edits::Edit;
use openai::files::File;
use openai::moderations::moderation_builder;
use openai::Credentials;

#[test]
fn builder_clone_and_eq() {
    let builder_a = ChatCompletion::builder("gpt-4", vec![]).seed(65u64);
    let builder_b = builder_a.clone();
    let builder_c = builder_b.clone().max_completion_tokens(128);
    let builder_d = ChatCompletionBuilder::default();
    assert_eq!(builder_a, builder_b);
    assert_ne!(builder_a, builder_c);
    assert_ne!(builder_b, builder_c);
    assert_ne!(builder_a, builder_d);
    assert_ne!(builder_c, builder_d);
}

#[test]
fn chat_builder_sets_fields() {
    let credentials = Credentials::new("sk-test", "https://example.test/v1");
    let request = ChatCompletion::builder("gpt-4o", vec![])
        .seed(7u64)
        .store(true)
        .n(2)
        .user("tester")
        .tool_choice(ToolChoiceMode::Auto)
        .response_format(ChatCompletionResponseFormat::text())
        .credentials(credentials.clone())
        .build();
    assert_eq!(request.model, "gpt-4o");
    assert_eq!(request.messages, vec![]);
    assert_eq!(request.seed, Some(7));
    assert_eq!(request.store, Some(true));
    assert_eq!(request.n, Some(2));
    assert_eq!(request.user, Some("tester".to_string()));
    assert_eq!(request.tool_choice, Some(ToolChoiceMode::Auto));
    assert_eq!(
        request.response_format,
        Some(ChatCompletionResponseFormat::Text)
    );
    assert_eq!(request.credentials, Some(credentials));
}

#[test]
fn completion_builder_sets_fields() {
    let request = Completion::builder("text-davinci-003")
        .prompt("Say this is a test")
        .max_tokens(7)
        .build();
    assert_eq!(request.model, "text-davinci-003");
    assert_eq!(request.prompt, Some("Say this is a test".to_string()));
    assert_eq!(request.max_tokens, Some(7));
    assert_eq!(request.n, None);
}

#[test]
fn edit_builder_sets_fields() {
    let request = Edit::builder("text-davinci-edit-001", "Fix the spelling mistakes")
        .input("What day of the wek is it?")
        .build();
    assert_eq!(request.model, "text-davinci-edit-001");
    assert_eq!(request.instruction, "Fix the spelling mistakes");
    assert_eq!(request.input, Some("What day of the wek is it?".to_string()));
}

#[test]
fn file_builder_requires_both_fields() {
    assert_eq!(File::builder().build(), None);
    assert_eq!(File::builder().file_name("data.jsonl").build(), None);
    let request = File::builder()
        .file_name("data.jsonl")
        .purpose("fine-tune")
        .build()
        .unwrap();
    assert_eq!(request.file_name, "data.jsonl");
    assert_eq!(request.purpose, "fine-tune");
}

#[test]
fn transcription_builder_requires_file_name() {
    assert_eq!(Transcription::builder("whisper-1").build(), None);
    let request = Transcription::builder("whisper-1")
        .file_name("hello.wav")
        .build()
        .unwrap();
    assert_eq!(request.model, "whisper-1");
    assert_eq!(request.file_name, "hello.wav");
}

#[test]
fn moderation_builder_sets_fields() {
    let request = moderation_builder("I want to kill them.")
        .model("text-moderation-latest")
        .build();
    assert_eq!(request.input, "I want to kill them.");
    assert_eq!(request.model, Some("text-moderation-latest".to_string()));
    assert_eq!(request.credentials, None);
}
