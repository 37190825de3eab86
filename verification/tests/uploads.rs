use webpush_accounts::anyhow_response_error::{AnyhowError, ErrorReport};
use webpush_accounts::handlers::upload::{
    compose_upload_path, directory_error, file_create_error, file_extension_of, handle_upload,
    join_path, remove_quotes, save_file_path, upload_reply, InputData,
};
use webpush_accounts::reply::ReplyBody;

fn input(name: Option<&str>, size: usize, user: &str) -> InputData {
    InputData { file_name: name.map(|s| s.to_string()), file_size: size, user_id: user.to_string() }
}

fn is_uuid(s: &str) -> bool {
    s.len() == 36
        && s.chars().enumerate().all(|(i, c)| {
            if i == 8 || i == 13 || i == 18 || i == 23 {
                c == '-'
            } else {
                c.is_ascii_digit() || ('a'..='f').contains(&c)
            }
        })
}

fn is_date(s: &str) -> bool {
    let b = s.as_bytes();
    let n = b.len();
    n >= 10
        && b[n - 6] == b'-'
        && b[n - 3] == b'-'
        && [n - 5, n - 4, n - 2, n - 1].iter().all(|&i| b[i].is_ascii_digit())
        && b[..n - 6].iter().enumerate().all(|(i, c)| c.is_ascii_digit() || (i == 0 && (*c == b'+' || *c == b'-')))
}

#[test]
fn extension_is_text_after_last_dot() {
    assert_eq!(file_extension_of(Some("photo.jpg")), "jpg");
    assert_eq!(file_extension_of(Some("archive.tar.gz")), "gz");
    assert_eq!(file_extension_of(Some("noext")), "noext");
    assert_eq!(file_extension_of(Some("trailing.")), "");
    assert_eq!(file_extension_of(Some("")), "");
    assert_eq!(file_extension_of(Some(".hidden")), "hidden");
    assert_eq!(file_extension_of(Some("ファイル.テキスト")), "テキスト");
}

#[test]
fn extension_without_name_is_unknown() {
    assert_eq!(file_extension_of(None), "unknown");
}

#[test]
fn quotes_are_removed() {
    assert_eq!(remove_quotes("\"png\""), "png");
    assert_eq!(remove_quotes("p\"n\"g"), "png");
    assert_eq!(remove_quotes("png"), "png");
    assert_eq!(remove_quotes("\"\""), "");
}

#[test]
fn path_join_follows_unix_rules() {
    assert_eq!(join_path("./uploads", "alice"), "./uploads/alice");
    assert_eq!(join_path("a/", "b"), "a/b");
    assert_eq!(join_path("a", "/etc"), "/etc");
    assert_eq!(join_path("", "b"), "b");
    assert_eq!(join_path("a", ""), "a/");
}

#[test]
fn path_join_agrees_with_std_path() {
    for (base, part) in [("./uploads", "alice"), ("a/", "b"), ("a", "/etc"), ("", "b"), ("a", "")] {
        let expected = std::path::Path::new(base).join(part);
        assert_eq!(join_path(base, part), expected.to_str().unwrap());
    }
}

#[test]
fn upload_path_is_composed_from_parts() {
    assert_eq!(
        compose_upload_path("alice", "2024-01-02", "0123abcd", "png"),
        "./uploads/alice/2024-01-02/0123abcd.png"
    );
    assert_eq!(compose_upload_path("bob/", "2024-01-02", "id", ""), "./uploads/bob/2024-01-02/id.");
    assert_eq!(compose_upload_path("/abs", "2024-01-02", "id", "x"), "/abs/2024-01-02/id.x");
}

#[test]
fn save_path_has_user_date_uuid_and_extension() {
    let path = save_file_path(Some("pic.\"png\""), "alice");
    let rest = path.strip_prefix("./uploads/alice/").expect("under the user's directory");
    let (date, name) = rest.split_once('/').expect("a date directory");
    assert!(is_date(date), "date {date}");
    let id = name.strip_suffix(".png").expect("sanitised extension");
    assert!(is_uuid(id), "id {id}");
    assert_eq!(&id[14..15], "4");
}

#[test]
fn two_save_paths_differ() {
    assert_ne!(save_file_path(Some("a.txt"), "u"), save_file_path(Some("a.txt"), "u"));
}

#[test]
fn upload_without_user_is_refused() {
    match handle_upload(&input(Some("a.txt"), 10, "")) {
        Err(AnyhowError::Anyhow(e)) => {
            assert_eq!(e.message, "Input data is empty");
            assert!(reports(&e.report, "Input data is empty"));
        }
        Ok(p) => panic!("accepted: {p}"),
    }
}

#[test]
fn upload_of_empty_file_is_refused() {
    let r = handle_upload(&input(Some("a.txt"), 0, "alice"));
    assert!(matches!(r, Err(ref e) if e.message() == "Input data is empty"));
    let reply = r.unwrap_err().error_response();
    assert_eq!(reply.status, 500);
}

#[test]
fn accepted_upload_without_name_uses_unknown_extension() {
    let path = handle_upload(&input(None, 5, "alice")).expect("accepted");
    assert!(path.starts_with("./uploads/alice/"));
    assert!(path.ends_with(".unknown"));
}

#[test]
fn upload_reply_on_success_and_failure() {
    let reply = upload_reply(Ok(())).expect("success");
    assert_eq!(reply.status, 200);
    assert!(matches!(&reply.body, ReplyBody::Text(t) if t == "File uploaded successfully"));
    let err = upload_reply(Err(ErrorReport::msg("disk full".to_string()))).unwrap_err();
    assert_eq!(err.message(), "disk full");
}

#[test]
fn storage_errors_name_the_path() {
    let e = directory_error("./uploads/a/2024-01-01/x.png", "Permission denied (os error 13)");
    assert_eq!(e.message, "Failed to create directory for path: ./uploads/a/2024-01-01/x.png");
    assert!(reports(
        &e.report,
        "Failed to create directory for path: ./uploads/a/2024-01-01/x.png\n\nCaused by:\n    Permission denied (os error 13)"
    ));
    let e = file_create_error("./p", "Os { code: 2 }");
    assert_eq!(e.message, "Error creating file at path: ./p. Error: Os { code: 2 }");
    assert!(reports(&e.report, &e.message));
}

fn reports(report: &str, text: &str) -> bool {
    report == text || report.starts_with(&format!("{text}\n\nStack backtrace:"))
}
