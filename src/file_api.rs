use vstd::prelude::*;
use crate::config::ProjectConfig;
use crate::text::{chars_of, concat, push_char, same_text};
use vstd::string::StringExecFns;

verus! {

/// Relies on `std::path::Path::extension`: the extension of the file name
/// that ends the path, if it has one.
pub uninterp spec fn path_extension_of(path: Seq<char>) -> Option<Seq<char>>;

pub struct FileProcessError {
    pub error_code: FileProcessErrorType,
    pub error_msg: String,
}

impl FileProcessError {
    pub fn new(error_code: FileProcessErrorType, error_msg: &str) -> (r: FileProcessError)
        ensures
            r.error_code == error_code,
            r.error_msg@ == error_msg@,
    {
        FileProcessError { error_code, error_msg: error_msg.to_owned() }
    }
}

#[derive(Copy, Clone, Debug, PartialEq, Eq, Structural)]
pub enum FileProcessErrorType {
    FormatError,
    PrvGenError,
    CopyError,
}

/// Position of the last `.` in `s`, or -1 where there is none.
pub open spec fn last_point(s: Seq<char>) -> int
    decreases s.len(),
{
    if s.len() == 0 {
        -1
    } else if s.last() == '.' {
        s.len() - 1
    } else {
        last_point(s.drop_last())
    }
}

pub open spec fn has_extension_point(s: Seq<char>) -> bool {
    last_point(s) >= 0
}

pub open spec fn upload_url_of(filename: Seq<char>) -> Seq<char> {
    "/uploads/"@ + filename
}

/// Everything before the last `.`, then `.` and `.jpg`.
pub open spec fn preview_url_of(filename: Seq<char>) -> Seq<char> {
    "/prv/"@ + filename.subrange(0, last_point(filename)) + "."@ + ".jpg"@
}

pub open spec fn tmp_upload_dir() -> Seq<char> {
    "./tmp/p0nygramm/upload_files/"@
}

pub open spec fn tmp_preview_dir() -> Seq<char> {
    "./tmp/p0nygramm/preview_files/"@
}

pub open spec fn is_image_extension(e: Seq<char>) -> bool {
    e == "gif"@ || e == "jpg"@ || e == "png"@
}

pub open spec fn is_video_extension(e: Seq<char>) -> bool {
    e == "mp4"@
}

proof fn lemma_last_point_bounds(s: Seq<char>)
    ensures
        -1 <= last_point(s) < s.len(),
        last_point(s) >= 0 ==> s[last_point(s)] == '.',
    decreases s.len(),
{
    if s.len() > 0 && s.last() != '.' {
        lemma_last_point_bounds(s.drop_last());
    }
}

pub fn get_url_from_filename(filename: &str) -> (r: String)
    ensures
        r@ == upload_url_of(filename@),
{
    concat("/uploads/", filename)
}

/// Position of the last `.`, counted in characters.
fn find_last_point(chars: &Vec<char>) -> (r: Option<usize>)
    ensures
        match r {
            Some(p) => p == last_point(chars@),
            None => last_point(chars@) == -1,
        },
{
    let mut found: Option<usize> = None;
    let mut i: usize = 0;
    while i < chars.len()
        invariant
            i <= chars@.len(),
            match found {
                Some(p) => p == last_point(chars@.subrange(0, i as int)),
                None => last_point(chars@.subrange(0, i as int)) == -1,
            },
        decreases chars@.len() - i,
    {
        assert(chars@.subrange(0, i + 1).drop_last() == chars@.subrange(0, i as int));
        if chars[i] == '.' {
            found = Some(i);
        }
        i = i + 1;
    }
    assert(chars@.subrange(0, chars@.len() as int) == chars@);
    found
}

pub fn get_preview_url_from_filename(filename: &str) -> (r: String)
    requires
        has_extension_point(filename@),
    ensures
        r@ == preview_url_of(filename@),
{
    let chars = chars_of(filename);
    let point = find_last_point(&chars);
    let end: usize = match point {
        Some(p) => p,
        None => 0,
    };
    proof {
        lemma_last_point_bounds(filename@);
    }
    let mut url = "/prv/".to_owned();
    let mut i: usize = 0;
    while i < end
        invariant
            i <= end,
            end == last_point(chars@),
            end < chars@.len(),
            chars@ == filename@,
            url@ == "/prv/"@ + chars@.subrange(0, i as int),
        decreases end - i,
    {
        assert(chars@.subrange(0, i + 1) == chars@.subrange(0, i as int).push(chars@[i as int]));
        push_char(&mut url, chars[i]);
        i = i + 1;
    }
    url.append(".");
    url.append(".jpg");
    url
}

pub fn get_upload_path_srv(config: &ProjectConfig, filename: &str) -> (r: String)
    ensures
        r@ == config.filesystem_config.uploads_path.value@ + "/"@ + filename@,
{
    let dir = config.filesystem_config.uploads_path.get_value();
    let mut path = concat(dir.as_str(), "/");
    path.append(filename);
    path
}

pub fn get_upload_prv_path_srv(config: &ProjectConfig, filename: &str) -> (r: String)
    ensures
        r@ == config.filesystem_config.uploads_prv_path.value@ + "/"@ + filename@,
{
    let dir = config.filesystem_config.uploads_prv_path.get_value();
    let mut path = concat(dir.as_str(), "/");
    path.append(filename);
    path
}

pub fn get_upload_path_tmp(filename: &str) -> (r: String)
    ensures
        r@ == tmp_upload_dir() + filename@,
{
    concat("./tmp/p0nygramm/upload_files/", filename)
}

pub fn get_upload_prv_path_tmp(filename: &str) -> (r: String)
    ensures
        r@ == tmp_preview_dir() + filename@,
{
    concat("./tmp/p0nygramm/preview_files/", filename)
}

/// Relies on `std::path::Path::extension`, with the extension turned into a `String`.
#[verifier::external_body]
fn file_extension(filename: &str) -> (r: Option<String>)
    ensures
        match r {
            Some(e) => path_extension_of(filename@) == Some(e@),
            None => path_extension_of(filename@) is None,
        },
{
    std::path::Path::new(filename).extension().map(|e| e.to_string_lossy().into_owned())
}

/// Whether a file extension is one of an image: `gif`, `jpg` or `png`.
pub fn is_image_extension_text(extension: &str) -> (r: bool)
    ensures
        r == is_image_extension(extension@),
{
    same_text(extension, "gif") || same_text(extension, "jpg") || same_text(extension, "png")
}

/// Whether a file extension is one of a video: `mp4`.
pub fn is_video_extension_text(extension: &str) -> (r: bool)
    ensures
        r == is_video_extension(extension@),
{
    same_text(extension, "mp4")
}

pub fn is_image_file(filename: &str) -> (r: bool)
    ensures
        r == match path_extension_of(filename@) {
            Some(e) => is_image_extension(e),
            None => false,
        },
{
    match file_extension(filename) {
        Some(e) => is_image_extension_text(e.as_str()),
        None => false,
    }
}

pub fn is_video_file(filename: &str) -> (r: bool)
    ensures
        r == match path_extension_of(filename@) {
            Some(e) => is_video_extension(e),
            None => false,
        },
{
    match file_extension(filename) {
        Some(e) => is_video_extension_text(e.as_str()),
        None => false,
    }
}

} // verus!
