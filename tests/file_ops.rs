use rehost::composer::{compose_destination, compose_with_name, join_local, user_path, user_url};
use rehost::naming::replace_filename;
use rehost::relay::{relay_source, reply_text, FetchError, FileRef, MessageType, RelaySource, TGFile};
use rehost::user::{get_username, User};
use rehost::weburl::{push_url, Url};

fn horse() -> User {
    User { id: 12345, first_name: "test".into(), last_name: None, username: Some("the_horse".into()) }
}

fn nobody() -> User {
    User { id: 7, first_name: "test".into(), last_name: None, username: None }
}

fn file(id: &str, size: Option<i64>) -> FileRef {
    FileRef { file_id: id.into(), file_size: size }
}

#[test]
fn test_file_ops() {
    let user = horse();
    let filename = "gross.py";
    let name = "horses";
    assert_eq!("horses.py", replace_filename(filename, name));
    assert_eq!("the_horse", get_username(&user));
}

#[test]
fn test_url_ops() {
    let user = horse();
    let filename = "gross.py";
    let base_url = Url::parse("http://example.com/files").unwrap();
    let middle_url = user_url(&user, &base_url);
    let final_url = push_url(middle_url, filename.into());
    assert_eq!("http://example.com/files/the_horse/gross.py", final_url.serialize());
}

#[test]
fn extension_is_after_last_dot() {
    assert_eq!("abc123.gz", replace_filename("archive.tar.gz", "abc123"));
    assert_eq!("abc123.", replace_filename("trailing.", "abc123"));
    assert_eq!("abc123.hidden", replace_filename(".hidden", "abc123"));
}

#[test]
fn no_dot_gives_bare_name() {
    assert_eq!("abc123", replace_filename("README", "abc123"));
    assert_eq!("abc123", replace_filename("", "abc123"));
}

#[test]
fn anonymous_sender() {
    assert_eq!("anonymous", get_username(&nobody()));
    let base = Url::parse("https://host.example/f").unwrap();
    assert_eq!("https://host.example/f/anonymous", user_url(&nobody(), &base).serialize());
}

#[test]
fn trailing_slash_on_base_url() {
    let with = Url::parse("http://example.com/files/").unwrap();
    let without = Url::parse("http://example.com/files").unwrap();
    let a = push_url(user_url(&horse(), &with), "x.py".into()).serialize();
    let b = push_url(user_url(&horse(), &without), "x.py".into()).serialize();
    assert_eq!("http://example.com/files/the_horse/x.py", a);
    assert_eq!(a, b);
}

#[test]
fn root_base_url() {
    let root = Url::parse("http://example.com").unwrap();
    assert_eq!("http://example.com/", root.serialize());
    assert_eq!("http://example.com/the_horse", user_url(&horse(), &root).serialize());
    let port = Url::parse("http://example.com:8080/a/b").unwrap();
    assert_eq!("http://example.com:8080/a/b", port.serialize());
}

#[test]
fn text_that_is_no_url() {
    assert!(Url::parse("not a url").is_none());
    assert!(relay_source(MessageType::Text("not a url".into())).is_none());
}

#[test]
fn text_url_is_rehosted() {
    match relay_source(MessageType::Text("http://a.example/x/y.png".into())) {
        Some(RelaySource::Rehost(u)) => {
            assert_eq!("http://a.example/x/y.png", u.serialize());
            assert_eq!("y.png", u.last_segment());
        }
        _ => panic!("expected a URL to rehost"),
    }
}

#[test]
fn largest_photo_is_chosen() {
    let msg = MessageType::Photo(vec![file("small", Some(100)), file("mid", Some(500)), file("big", Some(900))]);
    let f = TGFile::from_message(msg).unwrap();
    assert_eq!("big", f.file_id);
    assert_eq!(900, f.file_size);
}

#[test]
fn attachment_kinds() {
    assert_eq!("d", TGFile::from_message(MessageType::Document(file("d", Some(3)))).unwrap().file_id);
    assert_eq!("v", TGFile::from_message(MessageType::Voice(file("v", Some(4)))).unwrap().file_id);
    assert!(TGFile::from_message(MessageType::Audio(file("a", None))).is_none());
    assert!(TGFile::from_message(MessageType::Photo(vec![])).is_none());
    assert!(TGFile::from_message(MessageType::Text("x".into())).is_none());
    assert!(TGFile::from_message(MessageType::Other).is_none());
    match relay_source(MessageType::Sticker(file("s", Some(5)))) {
        Some(RelaySource::Upload(f)) => assert_eq!(5, f.file_size),
        _ => panic!("expected an upload"),
    }
}

#[test]
fn local_paths() {
    assert_eq!("/srv/dl/the_horse", user_path(&horse(), "/srv/dl"));
    assert_eq!("/srv/dl/anonymous", user_path(&nobody(), "/srv/dl/"));
    assert_eq!("a/b", join_local("a", "b"));
}

#[test]
fn composed_with_given_name() {
    let base = Url::parse("http://example.com/files").unwrap();
    let source = Url::parse("https://cdn.example/docs/gross.py").unwrap();
    let stored = compose_with_name("horses", &horse(), "/srv/dl", &base, &source);
    assert_eq!("/srv/dl/the_horse/horses.py", stored.local_path);
    assert_eq!("http://example.com/files/the_horse/horses.py", stored.public_url.serialize());
    assert_eq!("the_horse", stored.username);
}

#[test]
fn composed_with_generated_name() {
    let base = Url::parse("http://example.com/files").unwrap();
    let source = Url::parse("https://cdn.example/docs/gross.py").unwrap();
    let stored = compose_destination(&horse(), "/srv/dl", &base, &source);
    let file = stored.local_path.strip_prefix("/srv/dl/the_horse/").unwrap().to_string();
    assert_eq!(9, file.len());
    assert!(file.ends_with(".py"));
    assert!(file[..6].chars().all(|c| c.is_ascii_alphanumeric()));
    assert_eq!(format!("http://example.com/files/the_horse/{}", file), stored.public_url.serialize());
}

#[test]
fn failed_fetch_gets_no_reply() {
    let base = Url::parse("http://example.com/files").unwrap();
    let source = Url::parse("https://cdn.example/gross.py").unwrap();
    let stored = compose_with_name("horses", &horse(), "/srv", &base, &source);
    assert!(reply_text(&stored, &Err(FetchError::Network)).is_none());
    assert!(reply_text(&stored, &Err(FetchError::FileSystem)).is_none());
    assert_eq!(
        Some("http://example.com/files/the_horse/horses.py".to_string()),
        reply_text(&stored, &Ok(()))
    );
}

#[test]
fn empty_handle_keeps_its_segment() {
    let user = User { id: 1, first_name: "test".into(), last_name: None, username: Some(String::new()) };
    let base = Url::parse("http://example.com/files").unwrap();
    let source = Url::parse("https://cdn.example/gross.py").unwrap();
    assert_eq!("http://example.com/files/", user_url(&user, &base).serialize());
    let stored = compose_with_name("horses", &user, "/srv/dl", &base, &source);
    assert_eq!("http://example.com/files//horses.py", stored.public_url.serialize());
    assert_eq!("/srv/dl//horses.py", stored.local_path);
}

#[test]
fn pushed_segment_is_percent_encoded() {
    let base = Url::parse("http://example.com/files").unwrap();
    let url = push_url(base, "a b/c?d#e%.py".into());
    assert_eq!("http://example.com/files/a%20b%2Fc%3Fd%23e%25.py", url.serialize());
    assert_eq!(2, url.segments.len());
}

#[test]
fn base_url_keeps_user_info_query_and_fragment() {
    let base = Url::parse("http://u:p@example.com:8080/files/?x=1#top").unwrap();
    assert_eq!("http://u:p@example.com:8080/files/the_horse?x=1#top", user_url(&horse(), &base).serialize());
    let file = Url::parse("file:///srv/www").unwrap();
    assert_eq!("file:///srv/www/the_horse", user_url(&horse(), &file).serialize());
}

#[test]
fn push_url_ignores_trailing_slash() {
    let with = Url::parse("http://example.com/files/").unwrap();
    let without = Url::parse("http://example.com/files").unwrap();
    let a = push_url(push_url(with, "u".into()), "f.py".into()).serialize();
    let b = push_url(push_url(without, "u".into()), "f.py".into()).serialize();
    assert_eq!("http://example.com/files/u/f.py", a);
    assert_eq!(a, b);
}

#[test]
fn empty_download_root_is_relative() {
    assert_eq!("the_horse", user_path(&horse(), ""));
    assert_eq!("b", join_local("", "b"));
    let base = Url::parse("http://example.com/files").unwrap();
    let source = Url::parse("https://cdn.example/gross.py").unwrap();
    let stored = compose_with_name("horses", &horse(), "", &base, &source);
    assert_eq!("the_horse/horses.py", stored.local_path);
}
