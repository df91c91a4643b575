use vstd::prelude::*;
use crate::file_api::{get_preview_url_from_filename, get_url_from_filename, has_extension_point};

verus! {

/// A comment below an upload; `comment_timestamp` is in seconds since the Unix epoch.
#[derive(Clone)]
pub struct CommentData {
    pub comment_timestamp: i64,
    pub comment_text: String,
    pub comment_poster_id: i32,
    pub comment_poster_username: String,
    pub comment_upvotes: i32,
}

impl CommentData {
    pub fn new(
        comment_timestamp: i64,
        comment_text: &str,
        comment_poster_id: i32,
        comment_poster_username: &str,
        comment_upvotes: i32,
    ) -> (r: CommentData)
        ensures
            r.comment_timestamp == comment_timestamp,
            r.comment_text@ == comment_text@,
            r.comment_poster_id == comment_poster_id,
            r.comment_poster_username@ == comment_poster_username@,
            r.comment_upvotes == comment_upvotes,
    {
        CommentData {
            comment_timestamp,
            comment_text: comment_text.to_owned(),
            comment_poster_id,
            comment_poster_username: comment_poster_username.to_owned(),
            comment_upvotes,
        }
    }
}

pub struct CommentList {
    pub comment_list: Vec<CommentData>,
}

impl CommentList {
    pub fn new() -> (r: CommentList)
        ensures
            r.comment_list@.len() == 0,
    {
        CommentList { comment_list: Vec::new() }
    }

    pub fn add_comment(&mut self, comment_data: CommentData)
        ensures
            final(self).comment_list@ == old(self).comment_list@.push(comment_data),
    {
        self.comment_list.push(comment_data);
    }
}

#[derive(Copy, Clone, Debug, PartialEq, Eq, Structural)]
pub enum DbApiErrorType {
    ConnectionError,
    QueryError,
    NoResult,
    PartFail,
}

#[derive(Clone)]
pub struct DbApiError {
    pub error_type: DbApiErrorType,
    pub error_msg: String,
}

impl DbApiError {
    pub fn new(error_type: DbApiErrorType, error_msg: &str) -> (r: DbApiError)
        ensures
            r.error_type == error_type,
            r.error_msg@ == error_msg@,
    {
        DbApiError { error_type, error_msg: error_msg.to_owned() }
    }
}

/// A live session as handed to a caller. `expire_datetime` is in seconds
/// since the Unix epoch.
#[derive(Clone)]
pub struct SessionData {
    pub expire_datetime: i64,
    pub is_lts: bool,
    pub session_id: String,
    pub user_id: i32,
}

impl SessionData {
    pub fn new(session_id: String, user_id: i32, expire_datetime: i64, is_lts: bool) -> (r: SessionData)
        ensures
            r.session_id == session_id,
            r.user_id == user_id,
            r.expire_datetime == expire_datetime,
            r.is_lts == is_lts,
    {
        SessionData { expire_datetime, is_lts, session_id, user_id }
    }
}

#[derive(Copy, Clone, Debug, PartialEq, Eq, Structural)]
pub enum SessionErrorType {
    UnknownError,
    DbError,
    SessionInvalid,
    NoSession,
}

#[derive(Clone)]
pub struct SessionError {
    pub error_type: SessionErrorType,
    pub error_msg: String,
}

impl SessionError {
    pub fn new(error_type: SessionErrorType, error_msg: &str) -> (r: SessionError)
        ensures
            r.error_type == error_type,
            r.error_msg@ == error_msg@,
    {
        SessionError { error_type, error_msg: error_msg.to_owned() }
    }
}

#[derive(Clone)]
pub struct TagData {
    pub tag_id: i32,
    pub tag_text: String,
    pub tag_upvotes: i32,
}

impl TagData {
    pub fn new(tag_id: i32, tag_text: &str, tag_upvotes: i32) -> (r: TagData)
        ensures
            r.tag_id == tag_id,
            r.tag_text@ == tag_text@,
            r.tag_upvotes == tag_upvotes,
    {
        TagData { tag_id, tag_text: tag_text.to_owned(), tag_upvotes }
    }
}

pub struct TagList {
    pub tag_list: Vec<TagData>,
}

impl TagList {
    pub fn new() -> (r: TagList)
        ensures
            r.tag_list@.len() == 0,
    {
        TagList { tag_list: Vec::new() }
    }

    pub fn add_tag(&mut self, tag_data: TagData)
        ensures
            final(self).tag_list@ == old(self).tag_list@.push(tag_data),
    {
        self.tag_list.push(tag_data);
    }
}

#[derive(Copy, Clone, Debug, PartialEq, Eq, Structural)]
pub enum UploadType {
    Image,
    AnimatedImage,
    Video,
}

impl UploadType {
    /// An image flag wins over the video flag; neither flag gives no type.
    pub fn new(is_image: bool, is_animated_image: bool, is_video: bool) -> (r: Option<UploadType>)
        ensures
            is_image && is_animated_image ==> r == Some(UploadType::AnimatedImage),
            is_image && !is_animated_image ==> r == Some(UploadType::Image),
            !is_image && is_video ==> r == Some(UploadType::Video),
            !is_image && !is_video ==> r is None,
    {
        if is_image {
            if is_animated_image {
                Some(UploadType::AnimatedImage)
            } else {
                Some(UploadType::Image)
            }
        } else if is_video {
            Some(UploadType::Video)
        } else {
            None
        }
    }
}

pub struct UploadData {
    pub upload_id: i32,
    pub upload_is_sfw: bool,
    pub upload_is_nsfw: bool,
    pub upload_type: UploadType,
    pub upload_url: String,
    pub uploader_id: i32,
    pub uploader_username: String,
    pub upload_timestamp: i64,
    pub upload_upvotes: i32,
    pub tag_list: TagList,
    pub comment_list: CommentList,
}

impl UploadData {
    pub fn new(
        upload_id: i32,
        upload_is_nsfw: bool,
        upload_type: UploadType,
        upload_filename: &str,
        uploader_id: i32,
        uploader_username: &str,
        upload_timestamp: i64,
        upload_upvotes: i32,
    ) -> (r: UploadData)
        ensures
            r.upload_id == upload_id,
            r.upload_is_sfw == !upload_is_nsfw,
            r.upload_is_nsfw == upload_is_nsfw,
            r.upload_type == upload_type,
            r.upload_url@ == crate::file_api::upload_url_of(upload_filename@),
            r.uploader_id == uploader_id,
            r.uploader_username@ == uploader_username@,
            r.upload_timestamp == upload_timestamp,
            r.upload_upvotes == upload_upvotes,
            r.tag_list.tag_list@.len() == 0,
            r.comment_list.comment_list@.len() == 0,
    {
        UploadData {
            upload_id,
            upload_is_sfw: !upload_is_nsfw,
            upload_is_nsfw,
            upload_type,
            upload_url: get_url_from_filename(upload_filename),
            uploader_id,
            uploader_username: uploader_username.to_owned(),
            upload_timestamp,
            upload_upvotes,
            tag_list: TagList::new(),
            comment_list: CommentList::new(),
        }
    }

    pub fn add_comment(
        &mut self,
        comment_timestamp: i64,
        comment_text: &str,
        comment_poster_id: i32,
        comment_poster_username: &str,
        comment_upvotes: i32,
    )
        ensures
            final(self).comment_list.comment_list@.len() == old(self).comment_list.comment_list@.len() + 1,
            ({
                let c = final(self).comment_list.comment_list@.last();
                &&& c.comment_timestamp == comment_timestamp
                &&& c.comment_text@ == comment_text@
                &&& c.comment_poster_id == comment_poster_id
                &&& c.comment_poster_username@ == comment_poster_username@
                &&& c.comment_upvotes == comment_upvotes
            }),
            final(self).comment_list.comment_list@.drop_last() == old(self).comment_list.comment_list@,
            final(self).tag_list.tag_list@ == old(self).tag_list.tag_list@,
    {
        let comment_data = CommentData::new(
            comment_timestamp,
            comment_text,
            comment_poster_id,
            comment_poster_username,
            comment_upvotes,
        );
        self.comment_list.add_comment(comment_data);
    }

    pub fn add_tag(&mut self, tag_id: i32, tag_text: &str, tag_upvotes: i32)
        ensures
            final(self).tag_list.tag_list@.len() == old(self).tag_list.tag_list@.len() + 1,
            ({
                let t = final(self).tag_list.tag_list@.last();
                &&& t.tag_id == tag_id
                &&& t.tag_text@ == tag_text@
                &&& t.tag_upvotes == tag_upvotes
            }),
            final(self).tag_list.tag_list@.drop_last() == old(self).tag_list.tag_list@,
            final(self).comment_list.comment_list@ == old(self).comment_list.comment_list@,
    {
        let tag_data = TagData::new(tag_id, tag_text, tag_upvotes);
        self.tag_list.add_tag(tag_data);
    }
}

pub struct UploadPreview {
    pub upload_id: i32,
    pub upload_is_nsfw: bool,
    pub upload_prv_url: String,
    pub upload_url: String,
    pub upload_type: UploadType,
}

impl UploadPreview {
    pub fn new(upload_id: i32, upload_is_nsfw: bool, upload_filename: String, upload_type: UploadType) -> (r: UploadPreview)
        requires
            has_extension_point(upload_filename@),
        ensures
            r.upload_id == upload_id,
            r.upload_is_nsfw == upload_is_nsfw,
            r.upload_prv_url@ == crate::file_api::preview_url_of(upload_filename@),
            r.upload_url@ == crate::file_api::upload_url_of(upload_filename@),
            r.upload_type == upload_type,
    {
        UploadPreview {
            upload_id,
            upload_is_nsfw,
            upload_prv_url: get_preview_url_from_filename(upload_filename.as_str()),
            upload_url: get_url_from_filename(upload_filename.as_str()),
            upload_type,
        }
    }
}

pub struct UploadPrvList {
    pub uploads: Vec<UploadPreview>,
}

#[derive(Clone)]
pub struct UserData {
    pub user_id: i32,
    pub username: String,
    pub password_hash: String,
    pub user_is_mod: bool,
}

impl UserData {
    pub fn new(user_id: i32, username: &str, password_hash: &str, user_is_mod: bool) -> (r: UserData)
        ensures
            r.user_id == user_id,
            r.username@ == username@,
            r.password_hash@ == password_hash@,
            r.user_is_mod == user_is_mod,
    {
        UserData {
            user_id,
            username: username.to_owned(),
            password_hash: password_hash.to_owned(),
            user_is_mod,
        }
    }
}

} // verus!
