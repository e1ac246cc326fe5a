use state_store::commands::{append_history, clear_history, save_history};
use state_store::fs_helpers::{FileText, FsErr, Loaded};
use state_store::history::{load_history, push_capped, HISTORY_CAP};

fn numbered(count: usize) -> Vec<String> {
    (0..count).map(|i| format!("https://site/{}", i)).collect()
}

fn refused() -> std::io::Error {
    std::io::Error::new(std::io::ErrorKind::PermissionDenied, "denied")
}

#[test]
fn cap_is_two_hundred() {
    assert_eq!(HISTORY_CAP, 200);
}

#[test]
fn push_to_empty_list() {
    assert_eq!(push_capped(Vec::new(), "a".to_string()), vec!["a".to_string()]);
}

#[test]
fn push_keeps_order_and_duplicates() {
    let list = vec!["a".to_string(), "b".to_string()];
    assert_eq!(
        push_capped(list, "a".to_string()),
        vec!["a".to_string(), "b".to_string(), "a".to_string()]
    );
}

#[test]
fn push_below_cap_keeps_everything() {
    let out = push_capped(numbered(199), "last".to_string());
    assert_eq!(out.len(), 200);
    assert_eq!(out[0], "https://site/0");
    assert_eq!(out[199], "last");
}

#[test]
fn push_at_cap_drops_the_oldest() {
    let out = push_capped(numbered(200), "last".to_string());
    assert_eq!(out.len(), 200);
    assert_eq!(out[0], "https://site/1");
    assert_eq!(out[198], "https://site/199");
    assert_eq!(out[199], "last");
}

#[test]
fn push_over_cap_keeps_the_last_two_hundred() {
    let out = push_capped(numbered(450), "last".to_string());
    assert_eq!(out.len(), 200);
    assert_eq!(out[0], "https://site/251");
    assert_eq!(out[199], "last");
}

#[test]
fn visits_in_a_row_keep_the_most_recent() {
    for count in [0usize, 1, 199, 200, 201, 520] {
        let urls = numbered(count);
        let mut list: Vec<String> = Vec::new();
        for url in &urls {
            list = push_capped(list, url.clone());
        }
        let kept = count.min(200);
        assert_eq!(list.len(), kept);
        assert_eq!(list, urls[count - kept..].to_vec());
    }
}

#[test]
fn append_without_a_file_starts_a_list() {
    let out = append_history(FileText::Missing, "https://a".to_string());
    assert_eq!(out, Ok(vec!["https://a".to_string()]));
}

#[test]
fn append_to_stored_list() {
    let file = FileText::Text("[\"https://a\", \"https://b\"]".to_string());
    let out = append_history(file, "https://c".to_string());
    assert_eq!(
        out,
        Ok(vec!["https://a".to_string(), "https://b".to_string(), "https://c".to_string()])
    );
}

#[test]
fn append_to_stored_empty_list() {
    let out = append_history(FileText::Text("[]".to_string()), "https://a".to_string());
    assert_eq!(out, Ok(vec!["https://a".to_string()]));
}

#[test]
fn append_through_saved_text_many_times() {
    let mut file = FileText::Missing;
    for i in 0..205 {
        let list = append_history(file, format!("https://site/{}", i)).unwrap();
        let text = save_history(Ok(()), &list).unwrap();
        file = FileText::Text(text);
    }
    let list = append_history(file, "last".to_string()).unwrap();
    assert_eq!(list.len(), 200);
    assert_eq!(list[0], "https://site/6");
    assert_eq!(list[198], "https://site/204");
    assert_eq!(list[199], "last");
}

#[test]
fn append_to_invalid_json_fails() {
    let out = append_history(FileText::Text("[\"https://a\"".to_string()), "b".to_string());
    let message = out.unwrap_err();
    assert!(message.starts_with("json: "), "{}", message);
}

#[test]
fn append_to_json_of_another_shape_fails() {
    for text in ["{}", "[1, 2]", "\"https://a\"", "null", ""] {
        let out = append_history(FileText::Text(text.to_string()), "b".to_string());
        let message = out.unwrap_err();
        assert!(message.starts_with("json: "), "{}", message);
    }
}

#[test]
fn append_to_unreadable_file_fails() {
    let out = append_history(FileText::Unreadable(refused()), "b".to_string());
    assert_eq!(out, Err("io: denied".to_string()));
}

#[test]
fn load_history_tells_the_four_cases_apart() {
    assert!(matches!(load_history(FileText::Missing), Loaded::Missing));
    assert!(matches!(load_history(FileText::Unreadable(refused())), Loaded::Unreadable(_)));
    assert!(matches!(load_history(FileText::Text("[".to_string())), Loaded::Malformed(_)));
    match load_history(FileText::Text("[\"x\", \"y\"]".to_string())) {
        Loaded::Parsed(list) => assert_eq!(list, vec!["x".to_string(), "y".to_string()]),
        other => panic!("{:?}", other),
    }
}

#[test]
fn load_history_decodes_escapes() {
    match load_history(FileText::Text("[\"a\\\"b\\n\", \"\\u00e9\"]".to_string())) {
        Loaded::Parsed(list) => assert_eq!(list, vec!["a\"b\n".to_string(), "\u{e9}".to_string()]),
        other => panic!("{:?}", other),
    }
}

#[test]
fn save_prints_pretty_json() {
    let list = vec!["https://a".to_string(), "https://b".to_string()];
    assert_eq!(
        save_history(Ok(()), &list),
        Ok("[\n  \"https://a\",\n  \"https://b\"\n]".to_string())
    );
}

#[test]
fn save_escapes_what_json_reserves() {
    let list = vec!["a\"b\\c\n".to_string()];
    assert_eq!(save_history(Ok(()), &list), Ok("[\n  \"a\\\"b\\\\c\\n\"\n]".to_string()));
}

#[test]
fn save_fails_when_the_directory_is_not_ready() {
    let list = vec!["https://a".to_string()];
    let out = save_history(Err(FsErr::Io(refused())), &list);
    assert_eq!(out, Err("io: denied".to_string()));
}

#[test]
fn saved_text_reads_back() {
    let list = vec!["https://a".to_string(), "tab\there \"quoted\" \u{1f600}".to_string()];
    let text = save_history(Ok(()), &list).unwrap();
    match load_history(FileText::Text(text)) {
        Loaded::Parsed(found) => assert_eq!(found, list),
        other => panic!("{:?}", other),
    }
}

#[test]
fn clear_writes_the_empty_list() {
    assert_eq!(clear_history(Ok(())), Ok("[]".to_string()));
}

#[test]
fn clear_fails_when_the_directory_is_not_ready() {
    assert_eq!(clear_history(Err(FsErr::Io(refused()))), Err("io: denied".to_string()));
}

#[test]
fn cleared_history_reads_back_empty() {
    let text = clear_history(Ok(())).unwrap();
    match load_history(FileText::Text(text.clone())) {
        Loaded::Parsed(found) => assert!(found.is_empty()),
        other => panic!("{:?}", other),
    }
    let out = append_history(FileText::Text(text), "https://a".to_string());
    assert_eq!(out, Ok(vec!["https://a".to_string()]));
}
