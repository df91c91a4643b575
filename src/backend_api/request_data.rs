use vstd::prelude::*;
use crate::security::{check_and_escape_comment, check_tag, tag_ok};
use crate::text::{chars_of, push_char, same_text};

verus! {

/// A comment as submitted for an upload.
pub struct CommentData {
    pub upload_id: i32,
    pub comment_text: String,
}

impl CommentData {
    /// The comment with its text checked and HTML-escaped, once the store
    /// has said whether the upload exists; `None` where either fails.
    pub fn validate_data(&self, upload_exists: bool) -> (r: Option<CommentData>)
        ensures
            r is Some <==> (upload_exists && crate::security::utf8_len(self.comment_text@) <= 8000
                && crate::security::all_comment_chars(self.comment_text@)),
            r is Some ==> r->0.upload_id == self.upload_id
                && r->0.comment_text@ == crate::security::html_escaped(self.comment_text@),
    {
        if !upload_exists {
            return None;
        }
        match check_and_escape_comment(self.comment_text.as_str()) {
            Some(text) => Some(CommentData { upload_id: self.upload_id, comment_text: text }),
            None => None,
        }
    }
}

pub struct LoginData {
    pub username: String,
    pub password: String,
    pub keep_logged_in: bool,
}

pub struct RegisterData {
    pub username: String,
    pub password: String,
    pub invite_key: String,
}

/// The pieces of `s` between commas; an empty text is one empty piece.
pub open spec fn split_commas(s: Seq<char>) -> Seq<Seq<char>>
    decreases s.len(),
{
    if s.len() == 0 {
        seq![Seq::empty()]
    } else {
        let p = split_commas(s.drop_last());
        if s.last() == ',' {
            p.push(Seq::empty())
        } else {
            p.update(p.len() - 1, p.last().push(s.last()))
        }
    }
}

pub open spec fn trim_start_spaces(t: Seq<char>) -> Seq<char>
    decreases t.len(),
{
    if t.len() > 0 && t[0] == ' ' {
        trim_start_spaces(t.drop_first())
    } else {
        t
    }
}

pub open spec fn trim_end_spaces(t: Seq<char>) -> Seq<char>
    decreases t.len(),
{
    if t.len() > 0 && t.last() == ' ' {
        trim_end_spaces(t.drop_last())
    } else {
        t
    }
}

pub open spec fn trim_spaces(t: Seq<char>) -> Seq<char> {
    trim_end_spaces(trim_start_spaces(t))
}

/// The valid tags among the trimmed pieces, in order.
pub open spec fn valid_tags(pieces: Seq<Seq<char>>) -> Seq<Seq<char>>
    decreases pieces.len(),
{
    if pieces.len() == 0 {
        Seq::empty()
    } else {
        let rest = valid_tags(pieces.drop_last());
        let t = trim_spaces(pieces.last());
        if tag_ok(t) {
            rest.push(t)
        } else {
            rest
        }
    }
}

pub open spec fn all_tags_valid(pieces: Seq<Seq<char>>) -> bool {
    forall|i: int| 0 <= i < pieces.len() ==> tag_ok(#[trigger] trim_spaces(pieces[i]))
}

pub open spec fn texts_view(v: Seq<String>) -> Seq<Seq<char>> {
    v.map_values(|t: String| t@)
}

/// Tags parsed from a comma separated list.
pub struct TagData {
    pub taglist: Vec<String>,
    pub full_success: bool,
}

proof fn lemma_trim_start_skip(t: Seq<char>, k: int)
    requires
        0 <= k < t.len(),
        t[k] == ' ',
    ensures
        trim_start_spaces(t.subrange(k, t.len() as int)) == trim_start_spaces(t.subrange(k + 1, t.len() as int)),
{
    assert(t.subrange(k, t.len() as int).drop_first() == t.subrange(k + 1, t.len() as int));
}

proof fn lemma_trim_end_skip(t: Seq<char>, a: int, b: int)
    requires
        0 <= a < b <= t.len(),
        t[b - 1] == ' ',
    ensures
        trim_end_spaces(t.subrange(a, b)) == trim_end_spaces(t.subrange(a, b - 1)),
{
    assert(t.subrange(a, b).drop_last() == t.subrange(a, b - 1));
}

/// The piece with its leading and trailing spaces removed.
fn trim_piece(piece: &Vec<char>) -> (r: String)
    ensures
        r@ == trim_spaces(piece@),
{
    let n = piece.len();
    assert(piece@.subrange(0, n as int) == piece@);
    let mut start: usize = 0;
    while start < n && piece[start] == ' '
        invariant
            start <= n,
            n == piece@.len(),
            trim_start_spaces(piece@) == trim_start_spaces(piece@.subrange(start as int, n as int)),
        decreases n - start,
    {
        proof {
            lemma_trim_start_skip(piece@, start as int);
        }
        start = start + 1;
    }
    assert(trim_start_spaces(piece@.subrange(start as int, n as int)) == piece@.subrange(start as int, n as int));
    let mut end: usize = n;
    while end > start && piece[end - 1] == ' '
        invariant
            start <= end <= n,
            n == piece@.len(),
            trim_spaces(piece@) == trim_end_spaces(piece@.subrange(start as int, end as int)),
        decreases end - start,
    {
        proof {
            lemma_trim_end_skip(piece@, start as int, end as int);
        }
        end = end - 1;
    }
    assert(trim_end_spaces(piece@.subrange(start as int, end as int)) == piece@.subrange(start as int, end as int));
    let mut out = String::new();
    let mut i: usize = start;
    while i < end
        invariant
            start <= i <= end,
            end <= n,
            n == piece@.len(),
            out@ == piece@.subrange(start as int, i as int),
        decreases end - i,
    {
        assert(piece@.subrange(start as int, i + 1) == piece@.subrange(start as int, i as int).push(piece@[i as int]));
        push_char(&mut out, piece[i]);
        i = i + 1;
    }
    out
}

impl TagData {
    /// Splits at commas, trims spaces around each piece and keeps the pieces
    /// that are valid tags; `full_success` says whether all of them were.
    pub fn from_str(taglist_str: &str) -> (r: TagData)
        ensures
            texts_view(r.taglist@) == valid_tags(split_commas(taglist_str@)),
            r.full_success == all_tags_valid(split_commas(taglist_str@)),
    {
        let chars = chars_of(taglist_str);
        let mut result_vec: Vec<String> = Vec::new();
        let mut full_success = true;
        let mut current: Vec<char> = Vec::new();
        let mut i: usize = 0;
        while i < chars.len()
            invariant
                i <= chars@.len(),
                chars@ == taglist_str@,
                ({
                    let p = split_commas(chars@.subrange(0, i as int));
                    &&& p.len() >= 1
                    &&& current@ == p.last()
                    &&& texts_view(result_vec@) == valid_tags(p.drop_last())
                    &&& full_success == all_tags_valid(p.drop_last())
                }),
            decreases chars@.len() - i,
        {
            let ghost before = split_commas(chars@.subrange(0, i as int));
            assert(chars@.subrange(0, i + 1).drop_last() == chars@.subrange(0, i as int));
            let c = chars[i];
            if c == ',' {
                let tag = trim_piece(&current);
                let ok = check_tag(tag.as_str());
                proof {
                    let after = before.push(Seq::empty());
                    assert(after.drop_last() == before);
                    assert(before.drop_last().push(before.last()) == before);
                    assert(before == before.drop_last().push(before.last()));
                }
                if ok {
                    result_vec.push(tag);
                } else {
                    full_success = false;
                }
                proof {
                    assert(texts_view(result_vec@) == valid_tags(before));
                    assert(full_success == all_tags_valid(before)) by {
                        if full_success {
                            assert forall|j: int| 0 <= j < before.len() implies tag_ok(#[trigger] trim_spaces(before[j])) by {
                                if j < before.len() - 1 {
                                    assert(before[j] == before.drop_last()[j]);
                                }
                            }
                        } else {
                            if !all_tags_valid(before.drop_last()) {
                                let j = choose|j: int| 0 <= j < before.drop_last().len() && !tag_ok(#[trigger] trim_spaces(before.drop_last()[j]));
                                assert(before[j] == before.drop_last()[j]);
                            }
                        }
                    }
                }
                current = Vec::new();
            } else {
                current.push(c);
                proof {
                    let after = before.update(before.len() - 1, before.last().push(c));
                    assert(after.drop_last() == before.drop_last());
                }
            }
            i = i + 1;
        }
        assert(chars@.subrange(0, chars@.len() as int) == chars@);
        let ghost pieces = split_commas(chars@);
        let tag = trim_piece(&current);
        let ok = check_tag(tag.as_str());
        if ok {
            result_vec.push(tag);
        } else {
            full_success = false;
        }
        proof {
            assert(pieces == pieces.drop_last().push(pieces.last()));
            assert(texts_view(result_vec@) == valid_tags(pieces));
            assert(full_success == all_tags_valid(pieces)) by {
                if full_success {
                    assert forall|j: int| 0 <= j < pieces.len() implies tag_ok(#[trigger] trim_spaces(pieces[j])) by {
                        if j < pieces.len() - 1 {
                            assert(pieces[j] == pieces.drop_last()[j]);
                        }
                    }
                } else {
                    if !all_tags_valid(pieces.drop_last()) {
                        let j = choose|j: int| 0 <= j < pieces.drop_last().len() && !tag_ok(#[trigger] trim_spaces(pieces.drop_last()[j]));
                        assert(pieces[j] == pieces.drop_last()[j]);
                    }
                }
            }
        }
        TagData { taglist: result_vec, full_success }
    }

    /// The tags as text slices, in order.
    pub fn as_str_ref_vec(&self) -> (r: Vec<&str>)
        ensures
            r@.len() == self.taglist@.len(),
            forall|i: int| 0 <= i < r@.len() ==> #[trigger] r@[i]@ == self.taglist@[i]@,
    {
        let mut out: Vec<&str> = Vec::new();
        let mut i: usize = 0;
        while i < self.taglist.len()
            invariant
                i <= self.taglist@.len(),
                out@.len() == i,
                forall|j: int| 0 <= j < i ==> #[trigger] out@[j]@ == self.taglist@[j]@,
            decreases self.taglist@.len() - i,
        {
            out.push(self.taglist[i].as_str());
            i = i + 1;
        }
        out
    }
}

/// Media types accepted for an uploaded file: PNG, JPEG and GIF images and MP4 video.
pub open spec fn file_mime_allowed(media_type: Seq<char>, media_subtype: Seq<char>) -> bool {
    (media_type == "image"@ && (media_subtype == "png"@ || media_subtype == "jpeg"@ || media_subtype == "gif"@))
        || (media_type == "video"@ && media_subtype == "mp4"@)
}

/// Checks a media type, given as its type and subtype names.
pub fn check_file_mime(media_type: &str, media_subtype: &str) -> (r: bool)
    ensures
        r == file_mime_allowed(media_type@, media_subtype@),
{
    proof {
        reveal_strlit("image");
        reveal_strlit("video");
        assert("image"@[0] != "video"@[0]);
    }
    if same_text(media_type, "image") {
        same_text(media_subtype, "png") || same_text(media_subtype, "jpeg") || same_text(media_subtype, "gif")
    } else if same_text(media_type, "video") {
        same_text(media_subtype, "mp4")
    } else {
        false
    }
}

/// Form fields other than files must be sent as `application/octet-stream`.
pub fn check_form_content_mime(media_type: &str, media_subtype: &str) -> (r: bool)
    ensures
        r == (media_type@ == "application"@ && media_subtype@ == "octet-stream"@),
{
    same_text(media_type, "application") && same_text(media_subtype, "octet-stream")
}

} // verus!
