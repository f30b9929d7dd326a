use exile_rs::pob::error::PobError;
use exile_rs::pob::google_drive::{
    files_from_rows, last_segment_of, name_before, parse_google_drive_folder_html, parse_row,
    GoogleDriveClient, GoogleDriveFileInfo, ProbeResponse, RowFields,
};

fn file(id: &str, name: &str, is_folder: bool) -> GoogleDriveFileInfo {
    GoogleDriveFileInfo { id: id.to_string(), name: name.to_string(), is_folder }
}

fn row(id: Option<&str>, name: Option<&str>, label: Option<&str>) -> RowFields {
    RowFields {
        id: id.map(str::to_string),
        name: name.map(str::to_string),
        size_label: label.map(str::to_string),
    }
}

fn probe(
    status: u16,
    accept_ranges: Option<&str>,
    content_range: Option<&str>,
    content_length: Option<&str>,
) -> ProbeResponse {
    ProbeResponse {
        status,
        final_url: "https://host.invalid/final".to_string(),
        accept_ranges: accept_ranges.map(str::to_string),
        content_range: content_range.map(str::to_string),
        content_length: content_length.map(str::to_string),
    }
}

const PAGE: &str = r#"<html><body><table><tbody>
<tr data-id="id-folder"><td><strong>Old versions</strong></td>
    <td data-column-field="3"><span aria-label="Size not available">-</span></td></tr>
<tr data-id="id-1"><td><strong>POE1&amp;2 통합 한글 POB (2024.01.15).zip</strong></td>
    <td data-column-field="3"><span aria-label="120 MB">120 MB</span></td></tr>
<tr><td><strong>no id</strong></td>
    <td data-column-field="3"><span aria-label="1 MB">1 MB</span></td></tr>
<tr data-id="id-2"><td><strong>POE1&amp;2 통합 한글 POB (2024.05.20).zip</strong></td>
    <td data-column-field="3"><span aria-label="121 MB">121 MB</span></td></tr>
<tr data-id="id-3"><td>no name</td>
    <td data-column-field="3"><span aria-label="1 MB">1 MB</span></td></tr>
<tr data-id="id-4"><td><strong>no size</strong></td><td data-column-field="2">x</td></tr>
</tbody></table></body></html>"#;

#[test]
fn listing_page_is_read_row_by_row() {
    let files = parse_google_drive_folder_html(PAGE);
    let seen: Vec<(String, String, bool)> = files
        .iter()
        .map(|f| (f.id.clone(), f.name.clone(), f.is_folder))
        .collect();
    assert_eq!(
        seen,
        vec![
            ("id-folder".to_string(), "Old versions".to_string(), true),
            (
                "id-1".to_string(),
                "POE1&2 통합 한글 POB (2024.01.15).zip".to_string(),
                false
            ),
            (
                "id-2".to_string(),
                "POE1&2 통합 한글 POB (2024.05.20).zip".to_string(),
                false
            ),
        ]
    );
}

#[test]
fn page_without_rows_lists_nothing() {
    assert!(parse_google_drive_folder_html("<html><body><p>Sign in</p></body></html>").is_empty());
    assert!(parse_google_drive_folder_html("").is_empty());
}

#[test]
fn fetch_folder_refuses_an_empty_listing() {
    let client = GoogleDriveClient::new();
    match client.fetch_folder("<html></html>") {
        Err(PobError::NotFoundFromDrive(text)) => assert_eq!(
            text,
            "Google Drive 폴더에서 파일을 찾을 수 없거나 HTML 파싱에 실패했습니다"
        ),
        _ => panic!("expected NotFoundFromDrive"),
    }
    assert_eq!(client.fetch_folder(PAGE).unwrap().len(), 3);
}

#[test]
fn rows_need_id_name_and_label() {
    let complete = parse_row(&row(Some("a"), Some("n.zip"), Some("12 KB"))).unwrap();
    assert_eq!(complete.id, "a");
    assert_eq!(complete.name, "n.zip");
    assert!(!complete.is_folder);
    assert!(parse_row(&row(Some("a"), Some("dir"), Some("Size not available"))).unwrap().is_folder);
    assert!(parse_row(&row(None, Some("n"), Some("1"))).is_none());
    assert!(parse_row(&row(Some("a"), None, Some("1"))).is_none());
    assert!(parse_row(&row(Some("a"), Some("n"), None)).is_none());
}

#[test]
fn incomplete_rows_are_passed_over() {
    let rows = vec![
        row(Some("a"), Some("one"), Some("1 KB")),
        row(None, Some("two"), Some("1 KB")),
        row(Some("c"), Some("three"), Some("not available")),
    ];
    let files = files_from_rows(&rows);
    assert_eq!(files.len(), 2);
    assert_eq!(files[0].name, "one");
    assert_eq!(files[1].name, "three");
    assert!(files[1].is_folder);
}

#[test]
fn names_are_ordered_like_strings() {
    let names = [
        "",
        "a",
        "ab",
        "b",
        "B",
        "POE1&2 통합 한글 POB (2024.01.15).zip",
        "POE1&2 통합 한글 POB (2024.05.20).zip",
        "POE1&2 통합 한글 POB(2024.05.20).zip",
        "한글",
        "zz",
        "é",
        "\u{10FFFF}",
    ];
    for a in names {
        for b in names {
            assert_eq!(name_before(a, b), a < b, "{:?} {:?}", a, b);
        }
    }
}

#[test]
fn latest_is_the_file_whose_name_comes_last() {
    let client = GoogleDriveClient::new();
    let files = vec![
        file("f", "zzz folder", true),
        file("1", "POE1&2 통합 한글 POB (2024.01.15).zip", false),
        file("2", "POE1&2 통합 한글 POB (2024.05.20).zip", false),
        file("3", "POE1&2 통합 한글 POB (2023.12.31).zip", false),
    ];
    assert_eq!(client.find_latest(&files).unwrap().id, "2");
}

#[test]
fn of_equal_names_the_first_is_the_latest() {
    let client = GoogleDriveClient::new();
    let files = vec![file("1", "b", false), file("2", "a", false), file("3", "b", false)];
    assert_eq!(client.find_latest(&files).unwrap().id, "1");
}

#[test]
fn listing_of_folders_has_no_latest() {
    let client = GoogleDriveClient::new();
    assert!(client.find_latest(&vec![file("f", "x", true)]).is_none());
    assert!(client.find_latest(&Vec::new()).is_none());
}

#[test]
fn addresses_and_range_headers() {
    let client = GoogleDriveClient::new();
    assert_eq!(
        client.folder_url("FOLDER"),
        "https://drive.google.com/drive/folders/FOLDER"
    );
    assert_eq!(
        client.get_file("FILE"),
        "https://drive.usercontent.google.com/download?confirm=t&id=FILE"
    );
    let request = client.get_file_range("FILE", 0, 134217727);
    assert_eq!(
        request.url,
        "https://drive.usercontent.google.com/download?confirm=t&id=FILE"
    );
    assert_eq!(request.range, "bytes=0-134217727");
    assert_eq!(
        client.get_file_range("F", 10, u64::MAX).range,
        format!("bytes=10-{}", u64::MAX)
    );
    assert_eq!(client.probe_request("F").range, "bytes=0-0");
}

#[test]
fn partial_content_tells_size_and_range_support() {
    let client = GoogleDriveClient::new();
    let info = client.get_file_download_info(&probe(206, None, Some("bytes 0-0/12345678"), Some("1")));
    assert!(info.accepts_ranges);
    assert_eq!(info.content_length, 12345678);
    assert_eq!(info.download_url, "https://host.invalid/final");
}

#[test]
fn full_answer_tells_size_by_content_length() {
    let client = GoogleDriveClient::new();
    let info = client.get_file_download_info(&probe(200, None, Some("bytes 0-0/99"), Some("4096")));
    assert!(!info.accepts_ranges);
    assert_eq!(info.content_length, 4096);
    let info = client.get_file_download_info(&probe(200, Some("bytes"), None, Some("4096")));
    assert!(info.accepts_ranges);
    let info = client.get_file_download_info(&probe(200, Some("none"), None, None));
    assert!(!info.accepts_ranges);
    assert_eq!(info.content_length, 0);
}

#[test]
fn sizes_that_are_no_numbers_count_as_zero() {
    let client = GoogleDriveClient::new();
    for range in ["bytes 0-0/*", "bytes 0-0/", "garbage", "bytes 0-0/12x", "bytes 0-0/-5"] {
        let info = client.get_file_download_info(&probe(206, None, Some(range), None));
        assert_eq!(info.content_length, 0, "{}", range);
    }
    let info = client.get_file_download_info(&probe(206, None, None, Some("77")));
    assert_eq!(info.content_length, 0);
    let info = client.get_file_download_info(&probe(
        200,
        None,
        None,
        Some("99999999999999999999999"),
    ));
    assert_eq!(info.content_length, 0);
    let info = client.get_file_download_info(&probe(206, None, Some("42"), None));
    assert_eq!(info.content_length, 42);
}

#[test]
fn last_segment_is_what_follows_the_last_slash() {
    assert_eq!(last_segment_of("bytes 0-0/123"), "123");
    assert_eq!(last_segment_of("a/b/c"), "c");
    assert_eq!(last_segment_of("abc"), "abc");
    assert_eq!(last_segment_of("abc/"), "");
    assert_eq!(last_segment_of(""), "");
}

#[test]
fn plain_response_tells_the_size_only() {
    let info = exile_rs::pob::google_drive::FileDownloadInfo::from_plain_response(
        Some(77),
        "https://host.invalid/f".to_string(),
    );
    assert_eq!(info.content_length, 77);
    assert!(!info.accepts_ranges);
    assert_eq!(info.download_url, "https://host.invalid/f");
    let unknown = exile_rs::pob::google_drive::FileDownloadInfo::from_plain_response(
        None,
        String::new(),
    );
    assert_eq!(unknown.content_length, 0);
    assert_eq!(unknown.clone().content_length, 0);
}
