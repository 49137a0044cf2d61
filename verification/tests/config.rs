use scrawl::editor::{ContentSource, Editor, EditorCommand, TargetMode, resolve_command};
use scrawl::error::ScrawlError;

#[test]
fn new_opens_an_empty_temporary_buffer() {
    let e = scrawl::new();
    assert_eq!(e.content_source, ContentSource::Empty);
    assert_eq!(e.target_mode, TargetMode::Temporary);
    assert!(e.editor_override.is_none());
}

#[test]
fn with_pre_populates_the_buffer() {
    let e = scrawl::with("Hello World!");
    assert_eq!(e.content_source, ContentSource::InlineText("Hello World!".to_string()));
    assert_eq!(e.target_mode, TargetMode::Temporary);
    assert!(e.editor_override.is_none());
}

#[test]
fn open_reads_a_file_into_a_scratch_copy() {
    let e = scrawl::open("notes.txt");
    assert_eq!(e.content_source, ContentSource::ExistingFile("notes.txt".to_string()));
    assert_eq!(e.target_mode, TargetMode::Temporary);
    assert!(e.editor_override.is_none());
}

#[test]
fn edit_targets_the_file_itself() {
    let e = scrawl::edit("notes.txt");
    assert_eq!(e.content_source, ContentSource::ExistingFile("notes.txt".to_string()));
    assert_eq!(e.target_mode, TargetMode::InPlace);
    assert!(e.editor_override.is_none());
}

#[test]
fn builder_methods_compose() {
    let e = scrawl::editor::new().contents("draft").editor("nano");
    assert_eq!(e.content_source, ContentSource::InlineText("draft".to_string()));
    assert_eq!(e.target_mode, TargetMode::Temporary);
    assert_eq!(
        e.editor_override,
        Some(EditorCommand { program: "nano".to_string(), args: Vec::new() })
    );
}

#[test]
fn resolution_prefers_the_override() {
    let configured = Some(EditorCommand {
        program: "emacs".to_string(),
        args: vec!["-nw".to_string()],
    });
    let cmd = resolve_command(&configured, Some("nano".to_string()));
    assert_eq!(cmd.program, "emacs");
    assert_eq!(cmd.args, vec!["-nw".to_string()]);
}

#[test]
fn resolution_falls_back_to_the_environment() {
    let cmd = resolve_command(&None, Some("nano".to_string()));
    assert_eq!(cmd.program, "nano");
    assert!(cmd.args.is_empty());
}

#[test]
fn resolution_falls_back_to_the_default_editor() {
    let cmd = resolve_command(&None, None);
    assert_eq!(cmd.program, "vi");
    assert!(cmd.args.is_empty());
}

#[test]
fn errors_describe_themselves() {
    assert_eq!(
        ScrawlError::Configuration.describe(),
        "in-place editing requires an existing file"
    );
    assert_eq!(
        ScrawlError::EditorExit { code: 1 }.describe(),
        "the editor exited with a failure status"
    );
    assert_eq!(ScrawlError::Io.describe(), "a file could not be created, copied or read");
    assert_eq!(
        ScrawlError::Encoding.describe(),
        "the edited file does not contain valid text"
    );
    assert_eq!(
        ScrawlError::EditorNotFound.describe(),
        "the editor command could not be launched"
    );
}

#[test]
fn a_configuration_is_consumed_as_plain_data() {
    let e = Editor {
        content_source: ContentSource::Empty,
        target_mode: TargetMode::Temporary,
        editor_override: None,
    };
    assert_eq!(e, scrawl::new());
}
