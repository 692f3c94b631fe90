use home_cloud::entity::domain::primary_database_tables::User;
use home_cloud::entity::dto::picture_base64::Base64PictureDTO;
use home_cloud::error::Error;
use home_cloud::service::file_service::FileService;
use home_cloud::service::oss_service::{OssService, UploadField};
use home_cloud::util;

fn code_of(e: &Error) -> (String, i32) {
    match e {
        Error::E(m, c) => (m.clone(), *c),
    }
}

fn picture(content: Option<&str>) -> Base64PictureDTO {
    Base64PictureDTO { name: None, content: content.map(|c| c.to_string()), token: None }
}

fn user() -> User {
    User {
        account: Some("dave".to_string()),
        name: Some("Dave".to_string()),
        password: Some("h".to_string()),
        sex: None,
        qq: None,
        email: None,
        phone: None,
        birthday: None,
        hometown: None,
        autograph: None,
        logo: Some("/old.png".to_string()),
        background: None,
        organize_id: Some(2),
        state: Some(1),
        create_time: Some("c".to_string()),
        update_time: None,
    }
}

fn types() -> Vec<(String, String)> {
    vec![("pdf".to_string(), "document".to_string()), ("mp4".to_string(), "video".to_string())]
}

#[test]
fn base64_payloads() {
    assert_eq!(OssService::picture_payload("data:image/png;base64,QUJD").unwrap(), "QUJD");
    assert_eq!(OssService::picture_payload("data:image/png;base64,QU,JD").unwrap(), "QU");
    assert_eq!(
        code_of(&OssService::picture_payload("no comma").unwrap_err()),
        ("无效的图片!".to_string(), util::NOT_PARAMETER_CODE)
    );
    assert_eq!(
        code_of(&OssService::picture_payload("text/plain,QUJD").unwrap_err()),
        ("非法的Base64图片!".to_string(), util::NOT_PARAMETER_CODE)
    );
    assert_eq!(code_of(&OssService::upload_logo_payload(&picture(None)).unwrap_err()).0, "请选择base64图片!");
    assert_eq!(code_of(&OssService::upload_base64_picture_payload(&picture(Some(""))).unwrap_err()).0, "请选择图片!");
    assert_eq!(OssService::upload_base64_picture_payload(&picture(Some("data:image/gif;base64,R0"))).unwrap(), "R0");
}

#[test]
fn extensions() {
    assert_eq!(OssService::file_extension("Report.Final.PDF").unwrap(), "pdf");
    assert_eq!(code_of(&OssService::file_extension("README").unwrap_err()).0, "无效的文件!");
    assert_eq!(OssService::image_extension("cat.JPeG").unwrap(), "jpeg");
    assert_eq!(
        code_of(&OssService::image_extension("cat.tiff").unwrap_err()).0,
        "请上传GIF、PNG、JPG、JPEG、BMP格式的图片!"
    );
    assert_eq!(FileService::second_piece("a.tar.gz", "x").unwrap(), "tar");
    assert_eq!(FileService::second_picture_piece("x.png.txt").unwrap(), "png");
    assert!(FileService::second_picture_piece("x.txt.png").is_err());
}

#[test]
fn paths_and_names() {
    assert_eq!(OssService::view_path("/data/logo/dave/x.png", "/data"), "/warehouse/logo/dave/x.png");
    assert_eq!(OssService::save_dir("/data", util::DOCUMENT_PATH, "dave", "20240517"), "/data/document/dave/20240517");
    assert_eq!(OssService::stored_file_name("20240517", 42, "pdf"), "2024051742.pdf");
    assert_eq!(OssService::stored_file_name("d", -7, "png"), "d-7.png");
    assert_eq!(OssService::signed_text(i64::MIN), "-9223372036854775808");
    assert_eq!(FileService::logo_dir("/data", "dave", "20240517", 12345), "/data/logo/dave/20240517/2024051712345");
    assert_eq!(OssService::file_type_of("mp4", &types()), Some("video".to_string()));
    assert_eq!(OssService::file_type_of("zip", &types()), None);
}

#[test]
fn document_upload_flow() {
    let mut state = OssService::upload_file_begin();
    assert_eq!(state.uid, "null");
    let name = OssService::upload_file_field_as(&mut state, "Plan.PDF", &types(), "20240517", 9).unwrap();
    assert_eq!(name, "202405179.pdf");
    assert_eq!(state.file_type, Some("document".to_string()));
    OssService::upload_file_uid(&mut state, "u-1".to_string());
    OssService::upload_file_saved(&mut state, Some("/data/document/dave/20240517/202405179.pdf".to_string())).unwrap();
    let f = OssService::upload_file(&state, "/data", 2, "dave".to_string(), "now".to_string()).unwrap();
    assert_eq!(f.file_url, Some("/document/dave/20240517/202405179.pdf".to_string()));
    assert_eq!(f.file_type, Some("document".to_string()));
    assert_eq!(f.file_name, Some("Plan.PDF".to_string()));
    assert_eq!(f.uid, Some("u-1".to_string()));
    assert_eq!(f.status, Some(2));
    assert_eq!(f.organize, Some(2));

    let mut fresh = OssService::upload_file_begin();
    let generated = OssService::upload_file_field(&mut fresh, "a.zip", &types(), "d").unwrap();
    assert!(generated.starts_with('d') && generated.ends_with(".zip"));
    let e = OssService::upload_file(&fresh, "/data", 2, "dave".to_string(), "now".to_string()).unwrap_err();
    assert_eq!(code_of(&e), ("文件上传失败!".to_string(), util::NOT_PARAMETER_CODE));
    let e = OssService::upload_file_saved(&mut fresh, None).unwrap_err();
    assert_eq!(code_of(&e), ("文件上传失败".to_string(), util::CODE_FAIL));
    fresh.local_path = Some("/data/x.zip".to_string());
    let f = OssService::upload_file(&fresh, "/data", 2, "dave".to_string(), "now".to_string()).unwrap();
    assert_eq!(f.file_type, Some("complex".to_string()));
    assert_eq!(f.uid, Some("null".to_string()));
    assert!(OssService::upload_file_field_as(&mut fresh, "noext", &types(), "d", 1).is_err());
}

#[test]
fn picture_upload_records() {
    assert_eq!(OssService::upload_file_picture_field_as("Sun.PNG", "d", 5).unwrap(), "d5.png");
    assert!(OssService::upload_file_picture_field("x.exe", "d").is_err());
    let p = OssService::upload_file_picture(
        Some(("Sun.PNG".to_string(), Some("/data/wallpaper/dave/d/d5.png".to_string()))),
        "/data",
        2,
        "dave".to_string(),
        "now".to_string(),
    )
    .unwrap();
    assert_eq!(p.category, Some(1));
    assert_eq!(p.web_url, Some("/warehouse/wallpaper/dave/d/d5.png".to_string()));
    assert_eq!(p.file_name, Some("Sun.PNG".to_string()));
    let e = OssService::upload_file_picture(None, "/data", 2, "dave".to_string(), "now".to_string()).unwrap_err();
    assert_eq!(code_of(&e), ("图片上传失败".to_string(), util::CODE_FAIL));
    let b = OssService::upload_base64_picture(
        "d9.png".to_string(),
        Some("/data/illustrated/dave/d/d9.png".to_string()),
        "/data",
        2,
        "dave".to_string(),
        "now".to_string(),
    )
    .unwrap();
    assert_eq!(b.category, Some(2));
    assert_eq!(b.file_name, Some("d9.png".to_string()));
    let e = OssService::upload_base64_picture("x".to_string(), None, "/data", 2, "d".to_string(), "n".to_string())
        .unwrap_err();
    assert_eq!(code_of(&e).0, "保存base64图片");
}

#[test]
fn avatar_updates() {
    let u = OssService::upload_logo(&user(), Some("/data/logo/dave/d/1.png".to_string()), "/data", "now".to_string())
        .unwrap();
    assert_eq!(u.logo, Some("/warehouse/logo/dave/d/1.png".to_string()));
    assert_eq!(u.update_time, Some("now".to_string()));
    assert_eq!(u.password, Some("h".to_string()));
    assert_eq!(code_of(&OssService::upload_logo(&user(), None, "/data", "n".to_string()).unwrap_err()).0, "头像保存失败");
    let v = FileService::upload_logo(&user(), Some("/data/logo/dave/d/1.png".to_string()), "/data", "now".to_string())
        .unwrap();
    assert_eq!(v.logo, Some("/logo/dave/d/1.png".to_string()));
    assert_eq!(code_of(&FileService::upload_logo(&user(), None, "/data", "n".to_string()).unwrap_err()).0, "修改头像失败");
    assert_eq!(OssService::missing_user("dave").to_string(), "用户:dave 不存在!");
}

#[test]
fn first_service_uploads() {
    let mut state = OssService::upload_file_begin();
    let name = FileService::upload_file_field_as(&mut state, "a.tar.gz", &types(), "d", 12345).unwrap();
    assert_eq!(name, "d12345.tar");
    state.local_path = Some("/data/document/x/d12345.tar".to_string());
    let f = FileService::upload_file(&state, "/data", "dave".to_string(), "now".to_string()).unwrap();
    assert_eq!(f.file_type, Some("complex".to_string()));
    assert!(f.organize.is_none());
    let p = FileService::upload_file_picture(
        Some(("b.png".to_string(), Some("/data/w/b.png".to_string()))),
        "/data",
        "dave".to_string(),
        "now".to_string(),
    )
    .unwrap();
    assert_eq!(p.web_url, Some("/w/b.png".to_string()));
    assert_eq!(FileService::upload_file_picture_field_as("b.png", "d", 10000).unwrap(), "d10000.png");
    assert_eq!(FileService::upload_base64_picture(Some("/data/i/x.png".to_string()), "/data").unwrap(), "/i/x.png");
    let refused: Result<home_cloud::entity::vo::jwt::JWTToken, Error> = Err(Error::from_message("InvalidToken"));
    assert_eq!(code_of(&FileService::upload_user(refused).unwrap_err()).0, "获取用户信息失败");
}

fn stored_file(url: Option<&str>) -> home_cloud::entity::domain::business_database_tables::Files {
    home_cloud::entity::domain::business_database_tables::Files {
        id: Some(31),
        uid: None,
        file_name: Some("plan.pdf".to_string()),
        file_url: url.map(|u| u.to_string()),
        file_type: None,
        organize: Some(2),
        source: None,
        status: Some(2),
        create_time: None,
        update_time: None,
    }
}

fn uploader() -> Option<home_cloud::entity::vo::user_context::UserContext> {
    Some(home_cloud::entity::vo::user_context::UserContext {
        account: "dave".to_string(),
        name: "Dave".to_string(),
        organize: 2,
        ip: "i".to_string(),
        city: "c".to_string(),
        leeway: 1,
    })
}

#[test]
fn file_records_change_and_go() {
    let arg = home_cloud::entity::dto::files::FilesDTO {
        id: Some(31),
        uid: None,
        file_name: None,
        file_url: None,
        file_type: None,
        organize: None,
        source: None,
        status: Some(1),
        create_time: None,
        update_time: None,
    };
    let f = OssService::files_update(&arg, true, &uploader(), &Some(stored_file(None)), "now".to_string()).unwrap();
    assert_eq!(f.status, Some(1));
    assert_eq!(f.organize, Some(2));
    assert_eq!(f.source, Some("dave".to_string()));
    let e = OssService::files_update(&arg, true, &uploader(), &None, "now".to_string()).unwrap_err();
    assert_eq!(code_of(&e), ("id=31 的文件不存在!".to_string(), util::NOT_EXIST_CODE));
    let e = OssService::files_update(&arg, false, &uploader(), &None, "now".to_string()).unwrap_err();
    assert_eq!(code_of(&e).1, util::TOKEN_ERROR_CODE);

    let d = OssService::files_delete(true, &uploader(), &Some(stored_file(Some("document/x.pdf"))), "/data").unwrap();
    assert_eq!(d.id, 31);
    assert_eq!(d.path, Some("/data/document/x.pdf".to_string()));
    let d = OssService::files_delete(true, &uploader(), &Some(stored_file(Some(""))), "/data").unwrap();
    assert!(d.path.is_none());
    let e = OssService::files_delete(true, &uploader(), &None, "/data").unwrap_err();
    assert_eq!(code_of(&e).0, "删除文件失败!");

    let dl = OssService::files_download(&Some(stored_file(Some("document/x.pdf"))), "/data").unwrap();
    assert_eq!(dl.path, "/data/document/x.pdf");
    assert_eq!(dl.disposition, "attachment;filename*=utf-8''plan.pdf");
    assert!(OssService::files_download(&Some(stored_file(None)), "/data").is_none());
    assert!(OssService::files_download(&None, "/data").is_none());
}

#[test]
fn picture_records_go() {
    let p = home_cloud::entity::domain::business_database_tables::Pictures {
        id: Some(4),
        category: Some(1),
        file_name: None,
        descript: None,
        file_url: None,
        web_url: Some("/warehouse/w/a.png".to_string()),
        organize: Some(2),
        source: None,
        create_time: None,
        update_time: None,
    };
    assert_eq!(
        OssService::picture_delete(4, &uploader(), &Some(p.clone()), "/data").unwrap(),
        Some("/data//warehouse/w/a.png".to_string())
    );
    let e = OssService::picture_delete(4, &uploader(), &None, "/data").unwrap_err();
    assert_eq!(code_of(&e), ("id为:4 的图片或壁纸不存在!".to_string(), util::NOT_EXIST_CODE));
    assert_eq!(code_of(&OssService::picture_delete(4, &None, &None, "/data").unwrap_err()).1, util::NOT_AUTHORIZE_CODE);
    assert_eq!(FileService::picture_delete(4, &Some(p), "/d").unwrap(), Some("/d//warehouse/w/a.png".to_string()));
}

#[test]
fn first_service_draws_numbers_in_range() {
    let dir = FileService::logo_folder("/data", "dave", "20240517");
    let number: u32 = dir["/data/logo/dave/20240517/20240517".len()..].parse().unwrap();
    assert!((10000..=99999).contains(&number));
    let name = FileService::upload_file_picture_field("a.png", "d").unwrap();
    let n: u32 = name[1..name.len() - 4].parse().unwrap();
    assert!((10000..=99999).contains(&n));
    let mut state = OssService::upload_file_begin();
    let doc = FileService::upload_file_field(&mut state, "a.pdf", &types(), "d").unwrap();
    assert!(doc.ends_with(".pdf"));
    assert_eq!(state.file_type, Some("document".to_string()));
}

#[test]
fn picture_bytes_decode_the_body() {
    assert_eq!(OssService::picture_bytes("QUJD"), Some(b"ABC".to_vec()));
    assert_eq!(OssService::picture_bytes("aGVsbG8gd29ybGQ="), Some(b"hello world".to_vec()));
}

#[test]
fn picture_bytes_refuse_invalid_base64() {
    assert_eq!(OssService::picture_bytes("not base64!"), None);
}

#[test]
fn picture_names_are_lowercased_before_the_check() {
    assert_eq!(OssService::upload_file_picture_field_as("ÄRGER.JPEG", "d", 5).unwrap(), "d5.jpeg");
}

#[test]
fn form_fields_go_to_their_steps() {
    assert_eq!(OssService::upload_field(Some("file"), true), UploadField::File);
    assert_eq!(OssService::upload_field(Some("file"), false), UploadField::File);
    assert_eq!(OssService::upload_field(Some("uid"), true), UploadField::Uid);
    assert_eq!(OssService::upload_field(Some("uid"), false), UploadField::Skip);
    assert_eq!(OssService::upload_field(Some("files"), true), UploadField::Skip);
    assert_eq!(OssService::upload_field(Some(""), true), UploadField::Skip);
    assert_eq!(OssService::upload_field(None, true), UploadField::Skip);
}
