use share_files::file_info::{load_file_info, FileInfoError};
use share_files::transfer::FileInfo;

#[test]
fn hello_txt_is_plain_text() {
    assert_eq!(
        load_file_info("/tmp/hello.txt", 13),
        Ok(FileInfo {
            path: "/tmp/hello.txt".to_string(),
            name: "hello.txt".to_string(),
            size: 13,
            mime: "text/plain".to_string(),
        })
    );
}

#[test]
fn media_type_follows_the_extension() {
    assert_eq!(load_file_info("photo.PNG", 1).unwrap().mime, "image/png");
    assert_eq!(load_file_info("a/b/page.html", 1).unwrap().mime, "text/html");
    assert_eq!(load_file_info("data.json", 1).unwrap().mime, "application/json");
}

#[test]
fn unknown_or_missing_extension_is_an_octet_stream() {
    assert_eq!(load_file_info("blob", 0).unwrap().mime, "application/octet-stream");
    assert_eq!(
        load_file_info("thing.no-such-extension", 0).unwrap().mime,
        "application/octet-stream"
    );
    assert_eq!(load_file_info(".hidden", 0).unwrap().mime, "application/octet-stream");
}

#[test]
fn name_is_the_last_component() {
    let info = load_file_info("some/dir/report.final.pdf", u64::MAX).unwrap();
    assert_eq!(info.name, "report.final.pdf");
    assert_eq!(info.path, "some/dir/report.final.pdf");
    assert_eq!(info.size, u64::MAX);
    assert_eq!(info.mime, "application/pdf");
    assert_eq!(load_file_info("dir/", 0).unwrap().name, "dir");
}

#[test]
fn a_path_without_a_name_is_refused() {
    assert_eq!(load_file_info("..", 1), Err(FileInfoError::InvalidFileName));
    assert_eq!(load_file_info("/", 1), Err(FileInfoError::InvalidFileName));
    assert_eq!(load_file_info("", 1), Err(FileInfoError::InvalidFileName));
    assert_eq!(load_file_info("a/..", 1), Err(FileInfoError::InvalidFileName));
}

#[test]
fn parts_make_a_description() {
    assert_eq!(
        FileInfo::from_parts("p".to_string(), Some("n".to_string()), 2, "m/t".to_string()),
        Ok(FileInfo {
            path: "p".to_string(),
            name: "n".to_string(),
            size: 2,
            mime: "m/t".to_string(),
        })
    );
    assert_eq!(
        FileInfo::from_parts("p".to_string(), None, 2, "m/t".to_string()),
        Err(FileInfoError::InvalidFileName)
    );
}
