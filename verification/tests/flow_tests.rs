use mdword::commands::{get_supported_formats, ConversionFlow, ConversionRequest};
use mdword::converter::{Action, Converter, Event, WordToMarkdownConverter};
use mdword::error::ConverterError;

fn request(input: &str, output: &str) -> ConversionRequest {
    ConversionRequest {
        input_path: input.to_string(),
        output_path: output.to_string(),
        input_format: None,
        output_format: None,
    }
}

fn expect_check_input(flow: &ConversionFlow, expected: &str) {
    match flow.action() {
        Action::CheckInput { path } => assert_eq!(path, expected),
        _ => panic!("expected an input-existence check"),
    }
}

fn expect_ensure_dir(flow: &ConversionFlow, expected: &str) {
    match flow.action() {
        Action::EnsureParentDir { path } => assert_eq!(path, expected),
        _ => panic!("expected a directory-creation request"),
    }
}

#[test]
fn scenario_markdown_to_word_succeeds_end_to_end() {
    let mut flow = ConversionFlow::new(request("notes.md", "out/report.docx"));

    expect_check_input(&flow, "notes.md");
    flow.step(Event::InputExists(true));

    expect_ensure_dir(&flow, "out/report.docx");
    flow.step(Event::DirEnsured(None));

    expect_check_input(&flow, "notes.md");
    flow.step(Event::InputExists(true));

    expect_ensure_dir(&flow, "out/report.docx");
    flow.step(Event::DirEnsured(None));

    match flow.action() {
        Action::RunTool { program, args } => {
            assert_eq!(program, "markitdown");
            assert_eq!(args, vec!["notes.md", "--format", "docx", "-o", "out/report.docx"]);
        }
        _ => panic!("expected the tool invocation"),
    }
    flow.step(Event::ToolExited { success: true, stdout: String::new(), stderr: String::new() });

    match flow.action() {
        Action::CheckOutput { path } => assert_eq!(path, "out/report.docx"),
        _ => panic!("expected an output-existence check"),
    }
    flow.step(Event::OutputExists(true));

    assert!(flow.is_done());
    let result = flow.outcome();
    assert!(result.success);
    assert_eq!(result.output_path.as_deref(), Some("out/report.docx"));
    assert!(result.error.is_none());
    assert_eq!(result.message, "Successfully converted notes.md to out/report.docx");
}

#[test]
fn scenario_missing_input_fails_before_any_mutation() {
    let mut flow = ConversionFlow::new(request("missing.md", "x.docx"));

    expect_check_input(&flow, "missing.md");
    flow.step(Event::InputExists(false));

    assert!(flow.is_done());
    let result = flow.outcome();
    assert!(!result.success);
    assert!(result.output_path.is_none());
    assert_eq!(result.error.as_deref(), Some("Input file not found"));
    assert_eq!(result.message, "The file 'missing.md' does not exist");
}

#[test]
fn scenario_same_format_pair_is_rejected_before_any_tool_run() {
    let mut flow = ConversionFlow::new(request("a.md", "b.md"));

    expect_check_input(&flow, "a.md");
    flow.step(Event::InputExists(true));

    assert!(flow.is_done());
    let result = flow.outcome();
    assert!(!result.success);
    assert_eq!(result.error.as_deref(), Some("Unsupported file format: Markdown to Markdown"));
    assert_eq!(
        result.message,
        "Conversion failed: Unsupported file format: Markdown to Markdown"
    );
}

#[test]
fn scenario_reported_success_without_output_file_is_a_failure() {
    let mut flow = ConversionFlow::new(request("notes.md", "report.docx"));

    flow.step(Event::InputExists(true));
    flow.step(Event::DirEnsured(None));
    flow.step(Event::InputExists(true));
    flow.step(Event::DirEnsured(None));
    flow.step(Event::ToolExited { success: true, stdout: String::new(), stderr: String::new() });
    flow.step(Event::OutputExists(false));

    assert!(flow.is_done());
    let result = flow.outcome();
    assert!(!result.success);
    assert_eq!(
        result.error.as_deref(),
        Some("Conversion failed: Output file was not created successfully")
    );
    assert_eq!(
        result.message,
        "Conversion failed: Conversion failed: Output file was not created successfully"
    );
}

#[test]
fn explicit_hints_take_precedence_over_extensions() {
    let mut flow = ConversionFlow::new(ConversionRequest {
        input_path: "staged.bin".to_string(),
        output_path: "result.out".to_string(),
        input_format: Some("MD".to_string()),
        output_format: Some("docx".to_string()),
    });

    flow.step(Event::InputExists(true));
    assert!(!flow.is_done());
    expect_ensure_dir(&flow, "result.out");
}

#[test]
fn path_without_extension_and_without_hint_is_invalid() {
    let mut flow = ConversionFlow::new(request("noext", "b.docx"));

    flow.step(Event::InputExists(true));
    assert!(flow.is_done());
    let result = flow.outcome();
    assert!(!result.success);
    assert_eq!(result.error.as_deref(), Some("Invalid file path: noext"));
}

#[test]
fn unsupported_extension_fails_resolution() {
    let mut flow = ConversionFlow::new(request("notes.txt", "out.docx"));

    flow.step(Event::InputExists(true));
    assert!(flow.is_done());
    let result = flow.outcome();
    assert!(!result.success);
    assert_eq!(result.error.as_deref(), Some("Unsupported file format: txt"));
}

#[test]
fn directory_creation_failure_is_an_io_error_outcome() {
    let mut flow = ConversionFlow::new(request("notes.md", "out/x.docx"));

    flow.step(Event::InputExists(true));
    flow.step(Event::DirEnsured(Some("permission denied".to_string())));

    assert!(flow.is_done());
    let result = flow.outcome();
    assert!(!result.success);
    assert_eq!(result.error.as_deref(), Some("IO error: permission denied"));
}

#[test]
fn spawn_failure_suggests_installing_the_tool() {
    let mut flow = ConversionFlow::new(request("notes.md", "x.docx"));

    flow.step(Event::InputExists(true));
    flow.step(Event::DirEnsured(None));
    flow.step(Event::InputExists(true));
    flow.step(Event::DirEnsured(None));
    flow.step(Event::ToolFailed("No such file or directory".to_string()));

    assert!(flow.is_done());
    let result = flow.outcome();
    assert!(!result.success);
    assert_eq!(
        result.error.as_deref(),
        Some(
            "Markitdown command failed: Failed to execute markitdown: No such file or directory. \
             Make sure markitdown is installed and available in PATH."
        )
    );
}

#[test]
fn tool_rejection_carries_both_captured_streams() {
    let mut flow = ConversionFlow::new(request("notes.md", "x.docx"));

    flow.step(Event::InputExists(true));
    flow.step(Event::DirEnsured(None));
    flow.step(Event::InputExists(true));
    flow.step(Event::DirEnsured(None));
    flow.step(Event::ToolExited {
        success: false,
        stdout: "partial output".to_string(),
        stderr: "bad document".to_string(),
    });

    assert!(flow.is_done());
    let result = flow.outcome();
    assert!(!result.success);
    assert_eq!(
        result.error.as_deref(),
        Some(
            "Conversion failed: Markitdown conversion failed.\nStderr: bad document\nStdout: partial output"
        )
    );
}

#[test]
fn strategy_input_recheck_failure_names_the_path() {
    let mut flow = ConversionFlow::new(request("notes.md", "x.docx"));

    flow.step(Event::InputExists(true));
    flow.step(Event::DirEnsured(None));
    flow.step(Event::InputExists(false));

    assert!(flow.is_done());
    let result = flow.outcome();
    assert!(!result.success);
    assert_eq!(result.error.as_deref(), Some("File not found: notes.md"));
    assert_eq!(result.message, "Conversion failed: File not found: notes.md");
}

#[test]
fn word_to_markdown_job_passes_the_markdown_flag() {
    let converter = WordToMarkdownConverter;
    let mut job = converter.convert("memo.docx", "memo.md");

    job.step(Event::InputExists(true));
    job.step(Event::DirEnsured(None));
    match job.action() {
        Action::RunTool { program, args } => {
            assert_eq!(program, "markitdown");
            assert_eq!(args, vec!["memo.docx", "--format", "markdown", "-o", "memo.md"]);
        }
        _ => panic!("expected the tool invocation"),
    }
}

#[test]
fn supported_formats_listing_is_fixed() {
    let formats = get_supported_formats();
    assert_eq!(formats.len(), 2);
    assert_eq!(formats[0].name, "Markdown");
    assert_eq!(formats[0].extension, "md");
    assert_eq!(formats[0].description, "Markdown text files");
    assert_eq!(formats[1].name, "Word Document");
    assert_eq!(formats[1].extension, "docx");
    assert_eq!(formats[1].description, "Microsoft Word documents");
}
