//! The remote host: what is asked of it and what its answers mean.
//!
//! Requests are sent by the caller. This module says where they go and
//! with which headers, and reads the answers: the listing of a folder, and
//! the probe that tells the size of a file and whether the host honours
//! byte ranges.

use vstd::prelude::*;
use vstd::string::{StrSliceExecFns, StringExecFns};

use crate::pob::error::PobError;
use crate::text::{
    chars_of, concat, contains, dec_digits, occurs_in, parse_u64, parsed_u64, push_decimal,
};

verus! {

/// One row of the remote folder listing.
#[derive(Debug)]
pub struct GoogleDriveFileInfo {
    pub id: String,
    pub name: String,
    pub is_folder: bool,
}

/// A [`GoogleDriveFileInfo`] with its texts as sequences of characters.
pub struct FileView {
    pub id: Seq<char>,
    pub name: Seq<char>,
    pub is_folder: bool,
}

impl View for GoogleDriveFileInfo {
    type V = FileView;

    open spec fn view(&self) -> FileView {
        FileView { id: self.id@, name: self.name@, is_folder: self.is_folder }
    }
}

impl Clone for GoogleDriveFileInfo {
    fn clone(&self) -> (r: Self)
        ensures
            r == *self,
    {
        GoogleDriveFileInfo {
            id: self.id.clone(),
            name: self.name.clone(),
            is_folder: self.is_folder,
        }
    }
}

/// What a probe of a remote file found: it is taken anew for each download.
#[derive(Debug)]
pub struct FileDownloadInfo {
    /// Total size in bytes.
    pub content_length: u64,
    /// Whether the host honours byte-range requests.
    pub accepts_ranges: bool,
    /// Where the file is served from once redirects are followed.
    pub download_url: String,
}

impl FileDownloadInfo {
    /// What the answer to a plain request for the file tells: the size, if
    /// the host announced one, else 0; nothing of ranges.
    pub fn from_plain_response(content_length: Option<u64>, url: String) -> (info: Self)
        ensures
            info.content_length == content_length.unwrap_or(0),
            !info.accepts_ranges,
            info.download_url == url,
    {
        let content_length = match content_length {
            Some(n) => n,
            None => 0,
        };
        FileDownloadInfo { content_length, accepts_ranges: false, download_url: url }
    }
}

impl Clone for FileDownloadInfo {
    fn clone(&self) -> (r: Self)
        ensures
            r == *self,
    {
        FileDownloadInfo {
            content_length: self.content_length,
            accepts_ranges: self.accepts_ranges,
            download_url: self.download_url.clone(),
        }
    }
}

/// Whether `a` comes before `b` in the order of names: character by
/// character, a name before every longer name that begins with it.
pub open spec fn name_less(a: Seq<char>, b: Seq<char>) -> bool
    decreases a.len(),
{
    if b.len() == 0 {
        false
    } else if a.len() == 0 {
        true
    } else if a[0] != b[0] {
        (a[0] as int) < (b[0] as int)
    } else {
        name_less(a.drop_first(), b.drop_first())
    }
}

/// Of two different names one comes before the other, and never both.
pub proof fn lemma_name_order_is_total(a: Seq<char>, b: Seq<char>)
    ensures
        a == b || name_less(a, b) || name_less(b, a),
        !(name_less(a, b) && name_less(b, a)),
        !name_less(a, a),
    decreases a.len(),
{
    if a.len() > 0 && b.len() > 0 && a[0] == b[0] {
        lemma_name_order_is_total(a.drop_first(), b.drop_first());
        if a.drop_first() == b.drop_first() {
            assert(a =~= seq![a[0]] + a.drop_first());
        }
    }
    if a.len() > 0 {
        lemma_name_order_is_total(a.drop_first(), a.drop_first());
    }
}

/// What comes before a name comes before all that the name comes before.
pub proof fn lemma_name_order_is_transitive(a: Seq<char>, b: Seq<char>, c: Seq<char>)
    requires
        name_less(a, b),
        name_less(b, c),
    ensures
        name_less(a, c),
    decreases a.len(),
{
    if a.len() > 0 && a[0] == b[0] && b[0] == c[0] {
        lemma_name_order_is_transitive(a.drop_first(), b.drop_first(), c.drop_first());
    }
}

/// Whether `a` comes before `b` in the order of names.
pub fn name_before(a: &str, b: &str) -> (r: bool)
    ensures
        r == name_less(a@, b@),
{
    let x = chars_of(a);
    let y = chars_of(b);
    let mut i: usize = 0;
    assert(x@.subrange(0, x@.len() as int) =~= x@);
    assert(y@.subrange(0, y@.len() as int) =~= y@);
    while i < x.len() && i < y.len()
        invariant
            x@ == a@,
            y@ == b@,
            i <= x@.len(),
            i <= y@.len(),
            name_less(x@, y@) == name_less(
                x@.subrange(i as int, x@.len() as int),
                y@.subrange(i as int, y@.len() as int),
            ),
        decreases x@.len() - i,
    {
        let ghost xs = x@.subrange(i as int, x@.len() as int);
        let ghost ys = y@.subrange(i as int, y@.len() as int);
        if x[i] != y[i] {
            return x[i] < y[i];
        }
        assert(xs.drop_first() =~= x@.subrange(i + 1, x@.len() as int));
        assert(ys.drop_first() =~= y@.subrange(i + 1, y@.len() as int));
        i = i + 1;
    }
    i < y.len()
}

/// Whether `files[k]` is the latest of `files`: a file whose name no other
/// file's name comes after, and the first of those in the listing.
pub open spec fn is_latest(files: Seq<GoogleDriveFileInfo>, k: int) -> bool {
    &&& 0 <= k < files.len()
    &&& !files[k].is_folder
    &&& forall|j: int|
        0 <= j < k && !files[j].is_folder ==> name_less(
            (#[trigger] files[j]).name@,
            files[k].name@,
        )
    &&& forall|j: int|
        k < j < files.len() && !files[j].is_folder ==> !name_less(
            files[k].name@,
            (#[trigger] files[j]).name@,
        )
}

/// What one row of the listing page holds: the row's identifier, the text
/// of its name, and the label of its size cell, each where it is there.
#[derive(Debug)]
pub struct RowFields {
    pub id: Option<String>,
    pub name: Option<String>,
    pub size_label: Option<String>,
}

/// The text of an optional string.
pub open spec fn text_of(s: Option<String>) -> Option<Seq<char>> {
    match s {
        Some(t) => Some(t@),
        None => None,
    }
}

impl View for RowFields {
    type V = (Option<Seq<char>>, Option<Seq<char>>, Option<Seq<char>>);

    open spec fn view(&self) -> Self::V {
        (text_of(self.id), text_of(self.name), text_of(self.size_label))
    }
}

/// The rows, each by its view.
pub open spec fn rows_view(rows: Seq<RowFields>) -> Seq<
    (Option<Seq<char>>, Option<Seq<char>>, Option<Seq<char>>),
> {
    Seq::new(rows.len(), |i: int| rows[i]@)
}

/// The files, each by its view.
pub open spec fn files_view(files: Seq<GoogleDriveFileInfo>) -> Seq<FileView> {
    Seq::new(files.len(), |i: int| files[i]@)
}

/// What the `scraper` crate reads from the page `html`: for each element
/// that the selector `rows` matches, in the order in which `Html::select`
/// yields them, the value of its attribute `id_attr`, the first text below
/// the first element in it that `name` matches, and the value of the
/// attribute `label_attr` of the first element in it that `label` matches.
/// `None` where one of the three selectors is not a selector.
pub uninterp spec fn selected_rows(
    html: Seq<char>,
    rows: Seq<char>,
    id_attr: Seq<char>,
    name: Seq<char>,
    label: Seq<char>,
    label_attr: Seq<char>,
) -> Option<Seq<(Option<Seq<char>>, Option<Seq<char>>, Option<Seq<char>>)>>;

/// Parses `html` with `scraper::Html::parse_document` and reads the rows
/// that `scraper::Html::select` finds for the selector `rows`, each with
/// `ElementRef::attr`, `ElementRef::select` and `ElementRef::text`.
///
/// The contract only gives a name to what the `scraper` crate computes
/// from the six texts; the selectors are parsed by `Selector::parse`.
#[verifier::external_body]
fn select_rows(
    html: &str,
    rows: &str,
    id_attr: &str,
    name: &str,
    label: &str,
    label_attr: &str,
) -> (r: Option<Vec<RowFields>>)
    ensures
        match r {
            Some(found) => selected_rows(html@, rows@, id_attr@, name@, label@, label_attr@)
                == Some(rows_view(found@)),
            None => selected_rows(html@, rows@, id_attr@, name@, label@, label_attr@) is None,
        },
{
    let rows = scraper::Selector::parse(rows).ok()?;
    let name = scraper::Selector::parse(name).ok()?;
    let label = scraper::Selector::parse(label).ok()?;
    let page = scraper::Html::parse_document(html);
    let mut found = Vec::new();
    for row in page.select(&rows) {
        let id = row.attr(id_attr).map(str::to_string);
        let name = row.select(&name).next().and_then(|e| e.text().next()).map(str::to_string);
        let size_label = row.select(&label).next().and_then(|e| e.attr(label_attr)).map(str::to_string);
        found.push(RowFields { id, name, size_label });
    }
    Some(found)
}

/// The file that a row of the listing stands for: a row with an
/// identifier, a name and a size label. Where the label says that no size
/// is available, the row is a folder. A row that lacks one of the three
/// stands for nothing.
pub open spec fn row_file(row: (Option<Seq<char>>, Option<Seq<char>>, Option<Seq<char>>)) -> Option<
    FileView,
> {
    match row {
        (Some(id), Some(name), Some(label)) => Some(
            FileView { id, name, is_folder: occurs_in(label, "not available"@) },
        ),
        _ => None,
    }
}

/// The files that the first `n` of `rows` stand for, in their order.
pub open spec fn rows_files(
    rows: Seq<(Option<Seq<char>>, Option<Seq<char>>, Option<Seq<char>>)>,
    n: nat,
) -> Seq<FileView>
    decreases n,
{
    if n == 0 {
        Seq::empty()
    } else {
        match row_file(rows[n - 1]) {
            Some(file) => rows_files(rows, (n - 1) as nat).push(file),
            None => rows_files(rows, (n - 1) as nat),
        }
    }
}

/// The files that the listing page `html` shows.
pub open spec fn listed_files(html: Seq<char>) -> Seq<FileView> {
    match selected_rows(
        html,
        "tbody > tr"@,
        "data-id"@,
        "strong"@,
        "td[data-column-field=\"3\"] [aria-label]"@,
        "aria-label"@,
    ) {
        Some(rows) => rows_files(rows, rows.len()),
        None => Seq::empty(),
    }
}

/// The file that a row of the listing stands for.
pub fn parse_row(row: &RowFields) -> (r: Option<GoogleDriveFileInfo>)
    ensures
        match r {
            Some(file) => row_file(row@) == Some(file@),
            None => row_file(row@) is None,
        },
{
    match (&row.id, &row.name, &row.size_label) {
        (Some(id), Some(name), Some(label)) => Some(
            GoogleDriveFileInfo {
                id: id.clone(),
                name: name.clone(),
                is_folder: contains(label.as_str(), "not available"),
            },
        ),
        _ => None,
    }
}

/// The files that `rows` stand for, in their order.
pub fn files_from_rows(rows: &Vec<RowFields>) -> (files: Vec<GoogleDriveFileInfo>)
    ensures
        files_view(files@) == rows_files(rows_view(rows@), rows@.len()),
{
    let mut files: Vec<GoogleDriveFileInfo> = Vec::new();
    let mut i: usize = 0;
    while i < rows.len()
        invariant
            i <= rows@.len(),
            files_view(files@) == rows_files(rows_view(rows@), i as nat),
        decreases rows@.len() - i,
    {
        match parse_row(&rows[i]) {
            Some(file) => {
                files.push(file);
            },
            None => {},
        }
        i = i + 1;
    }
    files
}

/// Reads the files that the listing page of a folder shows. A row that is
/// not complete is passed over.
pub fn parse_google_drive_folder_html(html: &str) -> (files: Vec<GoogleDriveFileInfo>)
    ensures
        files_view(files@) == listed_files(html@),
{
    match select_rows(
        html,
        "tbody > tr",
        "data-id",
        "strong",
        "td[data-column-field=\"3\"] [aria-label]",
        "aria-label",
    ) {
        Some(rows) => {
            let files = files_from_rows(&rows);
            files
        },
        None => {
            let files: Vec<GoogleDriveFileInfo> = Vec::new();
            files
        },
    }
}

/// What the host answered to the probe of a file: the status, where the
/// answer came from once redirects were followed, and the headers that
/// matter, each where it was sent and is plain text.
#[derive(Debug)]
pub struct ProbeResponse {
    pub status: u16,
    pub final_url: String,
    pub accept_ranges: Option<String>,
    pub content_range: Option<String>,
    pub content_length: Option<String>,
}

/// What stands in `s` behind its last `/`; all of `s` where it has none.
pub open spec fn last_segment(s: Seq<char>) -> Seq<char>
    decreases s.len(),
{
    if s.len() == 0 || s.last() == '/' {
        Seq::empty()
    } else {
        last_segment(s.drop_last()).push(s.last())
    }
}

/// What stands in `s` behind its last `/`.
pub fn last_segment_of(s: &str) -> (r: String)
    ensures
        r@ == last_segment(s@),
{
    let chars = chars_of(s);
    let n = chars.len();
    let mut from: usize = n;
    while from > 0 && chars[from - 1] != '/'
        invariant
            from <= n,
            n == chars@.len(),
            forall|k: int| from <= k < n ==> chars@[k] != '/',
        decreases from,
    {
        from = from - 1;
    }
    proof {
        lemma_last_segment(chars@, from as int);
    }
    String::from_str(s.substring_char(from, n))
}

/// The last segment of `s` begins behind the last `/`.
proof fn lemma_last_segment(s: Seq<char>, from: int)
    requires
        0 <= from <= s.len(),
        forall|k: int| from <= k < s.len() ==> s[k] != '/',
        from > 0 ==> s[from - 1] == '/',
    ensures
        last_segment(s) == s.subrange(from, s.len() as int),
    decreases s.len(),
{
    if from < s.len() {
        lemma_last_segment(s.drop_last(), from);
    }
}

/// Whether a probe shows that the host honours ranges: it answered with
/// status 206, or it sent an `Accept-Ranges` header that does not say
/// `none`.
pub open spec fn probe_accepts_ranges(status: u16, accept_ranges: Option<Seq<char>>) -> bool {
    status == 206 || (accept_ranges matches Some(v) && v != "none"@)
}

/// The size of the file that a probe shows. An answer with status 206
/// tells it behind the `/` of its `Content-Range` header, any other answer
/// in its `Content-Length` header. What is missing or no number counts as 0.
pub open spec fn probe_content_length(
    status: u16,
    content_range: Option<Seq<char>>,
    content_length: Option<Seq<char>>,
) -> u64 {
    let text = if status == 206 {
        match content_range {
            Some(v) => Some(last_segment(v)),
            None => None,
        }
    } else {
        content_length
    };
    match text {
        Some(t) => match parsed_u64(t) {
            Some(n) => n,
            None => 0,
        },
        None => 0,
    }
}

/// The address that the file `file_id` is downloaded from.
pub open spec fn download_address(file_id: Seq<char>) -> Seq<char> {
    "https://drive.usercontent.google.com/download?confirm=t&id="@ + file_id
}

/// The address of the listing page of the folder `folder_id`.
pub open spec fn folder_address(folder_id: Seq<char>) -> Seq<char> {
    "https://drive.google.com/drive/folders/"@ + folder_id
}

/// The `Range` header that asks for the bytes from `start` to `end`, both
/// included.
pub open spec fn range_header(start: u64, end: u64) -> Seq<char> {
    "bytes="@ + dec_digits(start as nat) + seq!['-'] + dec_digits(end as nat)
}

/// The request for one byte range of a file.
#[derive(Debug)]
pub struct RangeRequest {
    pub url: String,
    /// The value of the `Range` header.
    pub range: String,
}

/// The requests to the remote host and the reading of its answers.
#[derive(Debug, Clone, Copy)]
pub struct GoogleDriveClient {}

impl GoogleDriveClient {
    /// The client of the remote host.
    pub fn new() -> Self {
        GoogleDriveClient {  }
    }

    /// The address of the listing page of the folder `folder_id`.
    pub fn folder_url(&self, folder_id: &str) -> (url: String)
        ensures
            url@ == folder_address(folder_id@),
    {
        concat("https://drive.google.com/drive/folders/", folder_id)
    }

    /// Reads the listing page `body` of a folder. A page that shows no
    /// file is an error: the folder is empty, or the page is not what it
    /// used to be.
    pub fn fetch_folder(&self, body: &str) -> (r: Result<Vec<GoogleDriveFileInfo>, PobError>)
        ensures
            match r {
                Ok(files) => files_view(files@) == listed_files(body@) && files@.len() > 0,
                Err(e) => listed_files(body@).len() == 0 && (e matches PobError::NotFoundFromDrive(
                    text,
                ) && text@ == "Google Drive 폴더에서 파일을 찾을 수 없거나 HTML 파싱에 실패했습니다"@),
            },
    {
        let files = parse_google_drive_folder_html(body);
        if files.len() == 0 {
            Err(
                PobError::NotFoundFromDrive(
                    String::from_str(
                        "Google Drive 폴더에서 파일을 찾을 수 없거나 HTML 파싱에 실패했습니다",
                    ),
                ),
            )
        } else {
            Ok(files)
        }
    }

    /// Picks the latest file of a listing: of the rows that are no
    /// folders, the one whose name comes last, and of several with that
    /// name the first. A listing without files has none.
    pub fn find_latest(&self, files: &Vec<GoogleDriveFileInfo>) -> (r: Option<GoogleDriveFileInfo>)
        ensures
            match r {
                Some(file) => exists|k: int| is_latest(files@, k) && file == files@[k],
                None => forall|j: int| 0 <= j < files@.len() ==> (#[trigger] files@[j]).is_folder,
            },
    {
        let mut best: Option<usize> = None;
        let mut i: usize = 0;
        while i < files.len()
            invariant
                i <= files@.len(),
                match best {
                    Some(k) => k < i && is_latest(files@.subrange(0, i as int), k as int),
                    None => forall|j: int| 0 <= j < i ==> (#[trigger] files@[j]).is_folder,
                },
            decreases files@.len() - i,
        {
            let ghost seen = files@.subrange(0, i as int);
            let ghost more = files@.subrange(0, i + 1);
            assert forall|j: int| 0 <= j < i implies #[trigger] more[j] == seen[j] by {}
            if !files[i].is_folder {
                match best {
                    None => {
                        best = Some(i);
                    },
                    Some(k) => {
                        if name_before(files[k].name.as_str(), files[i].name.as_str()) {
                            assert forall|j: int| 0 <= j < i && !more[j].is_folder implies name_less(
                                (#[trigger] more[j]).name@,
                                more[i as int].name@,
                            ) by {
                                let nj = seen[j].name@;
                                let nk = seen[k as int].name@;
                                let ni = files@[i as int].name@;
                                if j < k {
                                    lemma_name_order_is_transitive(nj, nk, ni);
                                } else if j > k {
                                    lemma_name_order_is_total(nj, nk);
                                    if nj != nk {
                                        lemma_name_order_is_transitive(nj, nk, ni);
                                    }
                                }
                            }
                            best = Some(i);
                        }
                    },
                }
            }
            i = i + 1;
        }
        assert(files@.subrange(0, i as int) =~= files@);
        match best {
            Some(k) => Some(files[k].clone()),
            None => None,
        }
    }

    /// The address that the file `file_id` is downloaded from.
    pub fn get_file(&self, file_id: &str) -> (url: String)
        ensures
            url@ == download_address(file_id@),
    {
        concat("https://drive.usercontent.google.com/download?confirm=t&id=", file_id)
    }

    /// The request that probes a file: its first byte alone.
    pub fn probe_request(&self, file_id: &str) -> (request: RangeRequest)
        ensures
            request.url@ == download_address(file_id@),
            request.range@ == range_header(0, 0),
    {
        self.get_file_range(file_id, 0, 0)
    }

    /// Reads the answer to the probe of a file.
    pub fn get_file_download_info(&self, probe: &ProbeResponse) -> (info: FileDownloadInfo)
        ensures
            info.accepts_ranges == probe_accepts_ranges(probe.status, text_of(probe.accept_ranges)),
            info.content_length == probe_content_length(
                probe.status,
                text_of(probe.content_range),
                text_of(probe.content_length),
            ),
            info.download_url@ == probe.final_url@,
    {
        let partial = probe.status == 206;
        let accepts_ranges = partial || match &probe.accept_ranges {
            Some(v) => {
                let none = String::from_str("none");
                !(*v == none)
            },
            None => false,
        };
        let content_length = if partial {
            match &probe.content_range {
                Some(v) => {
                    let total = last_segment_of(v.as_str());
                    parse_u64(total.as_str()).unwrap_or(0)
                },
                None => 0,
            }
        } else {
            match &probe.content_length {
                Some(v) => parse_u64(v.as_str()).unwrap_or(0),
                None => 0,
            }
        };
        FileDownloadInfo { content_length, accepts_ranges, download_url: probe.final_url.clone() }
    }

    /// The request for the bytes of a file from `start` to `end`, both
    /// included.
    pub fn get_file_range(&self, file_id: &str, start: u64, end: u64) -> (request: RangeRequest)
        ensures
            request.url@ == download_address(file_id@),
            request.range@ == range_header(start, end),
    {
        let mut range = String::from_str("bytes=");
        push_decimal(&mut range, start);
        proof {
            reveal_strlit("-");
        }
        range.append("-");
        push_decimal(&mut range, end);
        RangeRequest { url: self.get_file(file_id), range }
    }
}

} // verus!
