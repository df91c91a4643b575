use p0nygramm::backend_api::response_result::{self, BackendError, ErrorCode, Filter};
use p0nygramm::cli::CliActions;
use p0nygramm::config::{ConfigField, ConnectionMethod, ProjectConfig};
use p0nygramm::db_api::db_result::{TagList, TagData, UploadData, UploadPreview, UploadType, UserData};
use p0nygramm::file_api::{
    get_preview_url_from_filename, get_upload_path_srv, get_upload_path_tmp, get_upload_prv_path_srv,
    get_upload_prv_path_tmp, get_url_from_filename, is_image_extension_text, is_image_file, is_video_extension_text,
    is_video_file,
};
use p0nygramm::frontend::template_data::IndexViewTemplateData;

#[test]
fn upload_types() {
    assert_eq!(UploadType::new(true, true, false), Some(UploadType::AnimatedImage));
    assert_eq!(UploadType::new(true, false, true), Some(UploadType::Image));
    assert_eq!(UploadType::new(false, true, true), Some(UploadType::Video));
    assert_eq!(UploadType::new(false, true, false), None);
}

#[test]
fn urls_and_paths() {
    assert_eq!(get_url_from_filename("cat.png"), "/uploads/cat.png");
    assert_eq!(get_preview_url_from_filename("cat.png"), "/prv/cat..jpg");
    assert_eq!(get_preview_url_from_filename("a.b.mp4"), "/prv/a.b..jpg");
    assert_eq!(get_upload_path_tmp("x.gif"), "./tmp/p0nygramm/upload_files/x.gif");
    assert_eq!(get_upload_prv_path_tmp("x.gif"), "./tmp/p0nygramm/preview_files/x.gif");
    let mut config = ProjectConfig::new();
    config.filesystem_config.uploads_path.set_value("/srv/up".to_string());
    config.filesystem_config.uploads_prv_path.set_value("/srv/prv".to_string());
    assert_eq!(get_upload_path_srv(&config, "x.gif"), "/srv/up/x.gif");
    assert_eq!(get_upload_prv_path_srv(&config, "x.gif"), "/srv/prv/x.gif");
}

#[test]
fn file_kinds() {
    assert!(is_image_file("cat.png"));
    assert!(is_image_file("dir/cat.jpg"));
    assert!(is_image_file("cat.gif"));
    assert!(!is_image_file("cat.jpeg"));
    assert!(!is_image_file("png"));
    assert!(!is_image_file(".png"));
    assert!(is_video_file("clip.mp4"));
    assert!(!is_video_file("clip.mp4.txt"));
    assert!(is_image_extension_text("jpg"));
    assert!(!is_image_extension_text("JPG"));
    assert!(is_video_extension_text("mp4"));
    assert!(!is_video_extension_text("mp3"));
}

#[test]
fn config_fields_are_write_once() {
    let mut f: ConfigField<u16> = ConfigField::new_empty(0);
    assert_eq!(f.get_value(), 0);
    f.set_value(8080);
    assert_eq!(f.get_value(), 8080);
    f.set_value(9090);
    assert_eq!(f.get_value(), 8080);
    let config = ProjectConfig::new();
    assert_eq!(config.redis_config.connection_method.get_value(), ConnectionMethod::Tcp);
    assert_eq!(config.network_config.port.get_value(), 0);
    assert_eq!(config.security_config.password_hash_key.get_value(), "");
}

#[test]
fn connection_methods() {
    assert_eq!(ConnectionMethod::try_from("TCP"), Ok(ConnectionMethod::Tcp));
    assert_eq!(ConnectionMethod::try_from("UnixSocket"), Ok(ConnectionMethod::UnixSocket));
    assert_eq!(ConnectionMethod::try_from("udp"), Err("UDP is not supported"));
    assert!(ConnectionMethod::try_from("pipe").is_err());
    assert_eq!(ConnectionMethod::from_lowercase("tcp"), Ok(ConnectionMethod::Tcp));
    assert!(ConnectionMethod::from_lowercase("TCP").is_err());
    assert_eq!(ConnectionMethod::from_lowercase("udp"), Err("UDP is not supported"));
}

#[test]
fn uploads_collect_tags_and_comments() {
    let mut u = UploadData::new(1, true, UploadType::Video, "clip.mp4", 2, "bob", 1_600_000_000, 5);
    assert!(u.upload_is_nsfw && !u.upload_is_sfw);
    assert_eq!(u.upload_url, "/uploads/clip.mp4");
    u.add_tag(4, "fun", 2);
    u.add_comment(1_600_000_100, "nice", 3, "carol", 0);
    assert_eq!(u.tag_list.tag_list.len(), 1);
    assert_eq!(u.tag_list.tag_list[0].tag_text, "fun");
    assert_eq!(u.comment_list.comment_list[0].comment_poster_username, "carol");
    let mut list = TagList::new();
    list.add_tag(TagData::new(1, "a", 0));
    assert_eq!(list.tag_list.len(), 1);
    let p = UploadPreview::new(1, false, "cat.png".to_string(), UploadType::Image);
    assert_eq!(p.upload_prv_url, "/prv/cat..jpg");
    assert_eq!(p.upload_url, "/uploads/cat.png");
}

#[test]
fn index_page_data() {
    let e = IndexViewTemplateData::new_empty();
    assert!(e.backend_error.is_none() && !e.read_access);
    let unauthorized = BackendError::new(403, ErrorCode::Unauthorized, "login");
    let page = IndexViewTemplateData::new_index(Err(unauthorized), Err(BackendError::new(500, ErrorCode::DatabaseError, "x")));
    assert!(page.backend_error.is_none() && !page.read_access);
    let down = BackendError::new(500, ErrorCode::DatabaseError, "down");
    let page = IndexViewTemplateData::new_index(Err(down), Err(BackendError::new(500, ErrorCode::DatabaseError, "x")));
    assert_eq!(page.backend_error.unwrap().error_msg, "down");
    let db_user = UserData::new(1, "alice", "h", true);
    let page = IndexViewTemplateData::new_index(Ok(Filter::new(true, false)), Ok(response_result::UserData::new(&db_user)));
    assert!(page.read_access);
    assert_eq!(page.user_data.unwrap().username, "alice");
    assert!(page.filter_settings.unwrap().show_sfw);
}

#[test]
fn admin_actions() {
    let mut a = CliActions {
        create_db: false,
        create_db_user: false,
        create_db_tables: true,
        add_admin_user: true,
        change_user_password: false,
        change_pw_username: String::new(),
        drop_db: false,
        drop_db_user: false,
        drop_db_tables: false,
    };
    assert!(!a.require_db_admin());
    a.drop_db_user = true;
    assert!(a.require_db_admin());
}

#[test]
fn plain_records() {
    use_records();
}

fn use_records() {
    let e = p0nygramm::file_api::FileProcessError::new(p0nygramm::file_api::FileProcessErrorType::PrvGenError, "no preview");
    assert!(e.error_code == p0nygramm::file_api::FileProcessErrorType::PrvGenError);
    assert_eq!(e.error_msg, "no preview");
    let s = p0nygramm::cli::CliActionSuccess::new(true);
    assert!(s.term_after_cli_actions);
    let f = p0nygramm::cli::CliActionError::new("failed".to_string());
    assert_eq!(f.error_msg, "failed");
    let a = response_result::AddUploadSuccess::new(true, 12, true, false);
    assert!(a.upload_success && a.upload_id == 12 && a.tags_part_success && !a.tags_full_success);
    assert!(response_result::UserExists::new(true).user_exists);
    assert!(!response_result::SuccessReport::new(false).success);
    let j = p0nygramm::js_api::response_result::BackendError::new(ErrorCode::NoResult, "nothing");
    assert!(j.error_code == ErrorCode::NoResult);
    assert_eq!(j.error_msg, "nothing");
    let u = p0nygramm::js_api::response_result::AddUploadSuccess::new(false, true, true);
    assert!(!u.upload_success && u.tags_part_success && u.tags_full_success);
    let err = IndexViewTemplateData::new_error(BackendError::new(500, ErrorCode::InternalError, "x"));
    assert_eq!(err.backend_error.unwrap().http_status_code, 500);
}
