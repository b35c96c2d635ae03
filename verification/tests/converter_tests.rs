use mdword::converter::{
    Converter, ConverterFactory, Event, FileFormat, MarkdownToWordConverter,
    WordToMarkdownConverter,
};
use mdword::error::ConverterError;

#[test]
fn test_file_format_from_extension() {
    assert_eq!(FileFormat::from_extension("md").unwrap(), FileFormat::Markdown);
    assert_eq!(FileFormat::from_extension("markdown").unwrap(), FileFormat::Markdown);
    assert_eq!(FileFormat::from_extension("docx").unwrap(), FileFormat::Word);

    assert!(FileFormat::from_extension("txt").is_err());
    assert!(FileFormat::from_extension("pdf").is_err());
}

#[test]
fn test_file_format_to_extension() {
    assert_eq!(FileFormat::Markdown.to_extension(), "md");
    assert_eq!(FileFormat::Word.to_extension(), "docx");
}

#[test]
fn test_converter_factory_create_converter() {
    let converter = ConverterFactory::create_converter(FileFormat::Markdown, FileFormat::Word);
    assert!(converter.is_ok());

    let converter = ConverterFactory::create_converter(FileFormat::Word, FileFormat::Markdown);
    assert!(converter.is_ok());

    let converter = ConverterFactory::create_converter(FileFormat::Markdown, FileFormat::Markdown);
    assert!(converter.is_err());
}

#[test]
fn test_converter_factory_supported_conversions() {
    let conversions = ConverterFactory::get_supported_conversions();
    assert_eq!(conversions.len(), 2);
    assert!(conversions.contains(&(FileFormat::Markdown, FileFormat::Word)));
    assert!(conversions.contains(&(FileFormat::Word, FileFormat::Markdown)));
}

#[test]
fn test_markdown_to_word_converter_supported_formats() {
    let converter = MarkdownToWordConverter;
    assert_eq!(converter.supported_input_format(), FileFormat::Markdown);
    assert_eq!(converter.supported_output_format(), FileFormat::Word);
}

#[test]
fn test_word_to_markdown_converter_supported_formats() {
    let converter = WordToMarkdownConverter;
    assert_eq!(converter.supported_input_format(), FileFormat::Word);
    assert_eq!(converter.supported_output_format(), FileFormat::Markdown);
}

#[test]
fn test_converter_file_not_found() {
    let converter = MarkdownToWordConverter;
    let mut job = converter.convert("non_existent_file.md", "output.docx");

    job.step(Event::InputExists(false));
    assert!(job.is_done());
    let result = job.outcome();
    assert!(result.is_err());

    if let Err(ConverterError::FileNotFound { path }) = result {
        assert!(path.contains("non_existent_file.md"));
    } else {
        panic!("Expected FileNotFound error");
    }
}

#[test]
fn from_extension_ignores_letter_case() {
    assert_eq!(FileFormat::from_extension("MD").unwrap(), FileFormat::Markdown);
    assert_eq!(FileFormat::from_extension("Markdown").unwrap(), FileFormat::Markdown);
    assert_eq!(FileFormat::from_extension("MARKDOWN").unwrap(), FileFormat::Markdown);
    assert_eq!(FileFormat::from_extension("DocX").unwrap(), FileFormat::Word);
    assert_eq!(FileFormat::from_extension("DOCX").unwrap(), FileFormat::Word);
}

#[test]
fn from_extension_reports_the_offending_token() {
    match FileFormat::from_extension("pdf") {
        Err(ConverterError::UnsupportedFormat { format }) => assert_eq!(format, "pdf"),
        other => panic!("expected UnsupportedFormat, got {:?}", other),
    }
    match FileFormat::from_extension("") {
        Err(ConverterError::UnsupportedFormat { format }) => assert_eq!(format, ""),
        other => panic!("expected UnsupportedFormat, got {:?}", other),
    }
}

#[test]
fn create_converter_rejects_every_pair_outside_the_supported_set() {
    let cases = vec![
        (FileFormat::Markdown, FileFormat::Markdown, "Markdown to Markdown"),
        (FileFormat::Word, FileFormat::Word, "Word to Word"),
    ];
    for (input, output, expected) in cases {
        match ConverterFactory::create_converter(input, output) {
            Err(ConverterError::UnsupportedFormat { format }) => assert_eq!(format, expected),
            _ => panic!("expected UnsupportedFormat for {:?} to {:?}", input, output),
        }
    }
}

#[test]
fn selected_converter_reports_the_requested_pair() {
    let converter =
        ConverterFactory::create_converter(FileFormat::Word, FileFormat::Markdown).unwrap();
    assert_eq!(converter.supported_input_format(), FileFormat::Word);
    assert_eq!(converter.supported_output_format(), FileFormat::Markdown);
}

#[test]
fn error_messages_render_each_kind() {
    let e = ConverterError::FileNotFound { path: "a.md".to_string() };
    assert_eq!(e.message(), "File not found: a.md");
    let e = ConverterError::UnsupportedFormat { format: "pdf".to_string() };
    assert_eq!(e.message(), "Unsupported file format: pdf");
    let e = ConverterError::ConversionFailed { message: "bad input".to_string() };
    assert_eq!(e.message(), "Conversion failed: bad input");
    let e = ConverterError::IoError { message: "disk full".to_string() };
    assert_eq!(e.message(), "IO error: disk full");
    let e = ConverterError::MarkitdownError { message: "not installed".to_string() };
    assert_eq!(e.message(), "Markitdown command failed: not installed");
    let e = ConverterError::InvalidPath { path: "noext".to_string() };
    assert_eq!(e.message(), "Invalid file path: noext");
}
