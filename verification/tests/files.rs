use text_editor::files::{File, FileContext};
use text_editor::text_zone::TextContent;

#[test]
fn new_file_is_empty_and_has_no_path() {
    let f = File::new();
    assert_eq!(f.path, None);
    assert_eq!(f.content.get_text(), vec![String::new()]);
    assert_eq!(f.content.get_cursor(), (0, 0));
}

#[test]
fn new_context_holds_one_empty_document() {
    let mut files = FileContext::new();
    assert_eq!(files.current().path, None);
    assert_eq!(files.current().content.get_string(), "");
    assert_eq!(files.current_file().path, None);
}

#[test]
fn current_gives_access_to_change_the_document() {
    let mut files = FileContext::new();
    files.current().content.append("abc".to_string());
    files.current().content.break_line();
    assert_eq!(files.current().content.get_text(), vec!["abc", ""]);
    assert_eq!(files.current_file().content.get_cursor(), (1, 0));
}

#[test]
fn set_current_path_attaches_a_path() {
    let mut files = FileContext::new();
    files.current().content.append("abc".to_string());
    files.set_current_path("notes.txt".to_string());
    assert_eq!(files.current().path, Some("notes.txt".to_string()));
    assert_eq!(files.current().content.get_text(), vec!["abc"]);
}

#[test]
fn add_file_keeps_the_current_document_until_select_last() {
    let mut files = FileContext::new();
    files.current().content.append("first".to_string());
    files.add_file(File {
        path: Some("b.txt".to_string()),
        content: TextContent::from_string("second\nline".to_string()),
    });
    assert_eq!(files.current().path, None);
    assert_eq!(files.current().content.get_text(), vec!["first"]);
    files.select_last();
    assert_eq!(files.current().path, Some("b.txt".to_string()));
    assert_eq!(files.current().content.get_text(), vec!["second", "line"]);
    files.select_last();
    assert_eq!(files.current().path, Some("b.txt".to_string()));
}

#[test]
fn set_current_content_replaces_the_text_and_keeps_the_path() {
    let mut files = FileContext::new();
    files.set_current_path("a.txt".to_string());
    files._set_current_content(TextContent::from_string("x\ny".to_string()));
    assert_eq!(files.current().path, Some("a.txt".to_string()));
    assert_eq!(files.current().content.get_text(), vec!["x", "y"]);
}
