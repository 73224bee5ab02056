use logz::log_file::{classify_extension, LogFile, LogFileError, LogFileExtension};

fn lines(texts: &[&str]) -> Vec<String> {
    texts.iter().map(|t| t.to_string()).collect()
}

fn fresh_log() -> LogFile {
    LogFile::validate("app.log".to_string(), true, false).unwrap()
}

#[test]
fn fresh_file_starts_at_cursor_zero() {
    let f = fresh_log();
    assert_eq!(f.current_line(), 0);
    assert_eq!(f.path(), "app.log");
    assert_eq!(f.extension(), LogFileExtension::Log);
}

#[test]
fn read_yields_lines_after_cursor() {
    let mut f = fresh_log();
    let got = f.get_entries(&lines(&["a", "b", "c", "d"]));
    let idx: Vec<usize> = got.iter().map(|e| e.line).collect();
    let text: Vec<&str> = got.iter().map(|e| e.content.as_str()).collect();
    assert_eq!(idx, vec![1, 2, 3]);
    assert_eq!(text, vec!["b", "c", "d"]);
    assert_eq!(f.current_line(), 3);
}

#[test]
fn second_read_without_change_is_empty() {
    let mut f = fresh_log();
    let file = lines(&["a", "b", "c"]);
    assert_eq!(f.get_entries(&file).len(), 2);
    assert!(f.get_entries(&file).is_empty());
    assert_eq!(f.current_line(), 2);
}

#[test]
fn growth_yields_only_new_lines_in_order() {
    let mut f = fresh_log();
    f.get_entries(&lines(&["a", "b", "c"]));
    let got = f.get_entries(&lines(&["a", "b", "c", "d", "e"]));
    let idx: Vec<usize> = got.iter().map(|e| e.line).collect();
    assert_eq!(idx, vec![3, 4]);
    assert!(idx.windows(2).all(|w| w[0] < w[1]));
    assert_eq!(got[1].content, "e");
    assert_eq!(f.current_line(), 4);
}

#[test]
fn truncated_file_yields_nothing_and_keeps_cursor() {
    let mut f = fresh_log();
    f.get_entries(&lines(&["a", "b", "c", "d", "e"]));
    assert!(f.get_entries(&lines(&["x", "y"])).is_empty());
    assert_eq!(f.current_line(), 4);
}

#[test]
fn empty_file_yields_nothing() {
    let mut f = fresh_log();
    assert!(f.get_entries(&Vec::new()).is_empty());
    assert!(f.get_entries(&lines(&["only"])).is_empty());
    assert_eq!(f.current_line(), 0);
}

#[test]
fn directory_is_not_a_file() {
    let r = LogFile::validate("/var/log".to_string(), true, true);
    let e = r.err().unwrap();
    assert_eq!(e, LogFileError::NotAFile);
    assert_eq!(e.exit_code(), 1);
    assert_eq!(e.message(), "expected file, but found directory instead");
}

#[test]
fn txt_extension_is_unsupported() {
    let e = LogFile::validate("notes.txt".to_string(), true, false).err().unwrap();
    assert_eq!(e, LogFileError::UnsupportedExtension);
    assert_eq!(e.exit_code(), 1);
    assert_eq!(e.message(), "extension not supported");
}

#[test]
fn missing_path_is_not_found() {
    let e = LogFile::validate("gone.log".to_string(), false, false).err().unwrap();
    assert_eq!(e, LogFileError::NotFound);
    assert_eq!(e.message(), "File not found");
}

#[test]
fn json_extension_is_accepted() {
    let f = LogFile::validate("/srv/app/events.json".to_string(), true, false).unwrap();
    assert_eq!(f.extension(), LogFileExtension::Json);
    assert_eq!(f.path(), "/srv/app/events.json");
}

#[test]
fn no_extension_is_unsupported() {
    let e = LogFile::validate("README".to_string(), true, false).err().unwrap();
    assert_eq!(e, LogFileError::UnsupportedExtension);
    let e = LogFile::validate(".log".to_string(), true, false).err().unwrap();
    assert_eq!(e, LogFileError::UnsupportedExtension);
}

#[test]
fn classify_extension_texts() {
    assert_eq!(classify_extension(Some("log".to_string())), Ok(LogFileExtension::Log));
    assert_eq!(classify_extension(Some("json".to_string())), Ok(LogFileExtension::Json));
    assert_eq!(classify_extension(Some("LOG".to_string())), Err(LogFileError::UnsupportedExtension));
    assert_eq!(classify_extension(None), Err(LogFileError::UnsupportedExtension));
}

#[test]
fn new_on_directory_is_not_a_file() {
    let e = LogFile::new("/".to_string()).err().unwrap();
    assert_eq!(e, LogFileError::NotAFile);
    assert_eq!(e.exit_code(), 1);
}

#[test]
fn new_on_missing_path_is_not_found() {
    let e = LogFile::new("/no/such/dir/app.log".to_string()).err().unwrap();
    assert_eq!(e, LogFileError::NotFound);
}

#[test]
fn new_on_unset_variable_fails_to_resolve() {
    let e = LogFile::new("$LOGZ_SURELY_UNSET_VARIABLE/app.log".to_string()).err().unwrap();
    assert!(matches!(e, LogFileError::PathResolution(_)));
    assert_eq!(e.exit_code(), 1);
}
