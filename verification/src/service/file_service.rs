use vstd::prelude::*;
use crate::claims::{digits, digits_of, string_of};
use crate::entity::domain::business_database_tables::{Files, Pictures};
use crate::entity::domain::primary_database_tables::User;
use crate::entity::vo::jwt::JWTToken;
use crate::error::Error;
use crate::service::oss_service::{
    allowed_picture, missing_picture, missing_picture_message, outcome_is, path_is, path_to_remove,
    removal_path, stored_name_of, type_of_ext, FileUpload, OssService,
};
use crate::util;
use crate::util::string::{lowercase, replace_all, replaced, split_char, split_on, to_lowercase};
use rand::Rng;

verus! {

/// The first file service: uploads of avatars, pictures and documents by
/// the holder of a token.
pub struct FileService {}

/// The extension that this service reads from a file name: the text
/// between its first and second dot, lower-cased, or the refusal when the
/// name has no dot.
pub open spec fn second_piece_of(name: Seq<char>, refusal: Seq<char>) -> Result<Seq<char>, (Seq<char>, i32)> {
    let pieces = split_on(lowercase(name), '.');
    if pieces.len() < 2 {
        Err((refusal, util::NOT_PARAMETER_CODE))
    } else {
        Ok(pieces[1])
    }
}

/// The picture extension that this service reads from a file name, which
/// must be a picture format.
pub open spec fn second_picture_piece_of(name: Seq<char>) -> Result<Seq<char>, (Seq<char>, i32)> {
    match second_piece_of(name, "无效的图片!"@) {
        Ok(ext) => if allowed_picture(ext) {
            Ok(ext)
        } else {
            Err(("请上传GIF、PNG、JPG、JPEG、BMP格式的图片!"@, util::NOT_PARAMETER_CODE))
        },
        Err(e) => Err(e),
    }
}

/// The folder an avatar goes to: under the avatars of the account, the day,
/// and a folder named by the day and a number.
pub open spec fn logo_dir_of(data_dir: Seq<char>, account: Seq<char>, today: Seq<char>, suffix: u32) -> Seq<char> {
    data_dir + "/"@ + util::LOGO_PATH@ + "/"@ + account + "/"@ + today + "/"@ + today + digits(
        suffix as nat,
    )
}

impl FileService {
    /// The caller of an upload, as its token gives it; any failure to read
    /// the token is refused with one message.
    pub fn upload_user(extracted: Result<JWTToken, Error>) -> (r: Result<JWTToken, Error>)
        ensures
            extracted is Ok ==> r == extracted,
            extracted is Err ==> (r matches Err(e) && e.message() == "获取用户信息失败"@ && e.code()
                == util::CODE_FAIL),
    {
        match extracted {
            Ok(u) => Ok(u),
            Err(_) => Err(Error::from_message("获取用户信息失败")),
        }
    }

    /// The extension this service reads from a file name: the text between
    /// its first and second dot, lower-cased.
    pub fn second_piece(origin_name: &str, refusal: &str) -> (r: Result<String, Error>)
        ensures
            outcome_is(r, second_piece_of(origin_name@, refusal@)),
    {
        let lower = to_lowercase(origin_name);
        let pieces = split_char(lower.as_str(), '.');
        proof {
            assert(pieces@.map_values(|p: Vec<char>| p@).len() == pieces@.len());
        }
        if pieces.len() < 2 {
            return Err(Error::with_code(refusal, util::NOT_PARAMETER_CODE));
        }
        proof {
            assert(pieces@.map_values(|p: Vec<char>| p@)[1] == pieces@[1]@);
        }
        Ok(string_of(&pieces[1]))
    }

    /// The picture extension this service reads from a file name, which must
    /// be a picture format.
    pub fn second_picture_piece(origin_name: &str) -> (r: Result<String, Error>)
        ensures
            outcome_is(r, second_picture_piece_of(origin_name@)),
    {
        let ext = match FileService::second_piece(origin_name, "无效的图片!") {
            Ok(ext) => ext,
            Err(e) => {
                return Err(e);
            },
        };
        let allowed = ext == String::from_str("gif") || ext == String::from_str("png") || ext
            == String::from_str("jpg") || ext == String::from_str("jpeg") || ext == String::from_str(
            "bmp",
        );
        if !allowed {
            return Err(
                Error::with_code("请上传GIF、PNG、JPG、JPEG、BMP格式的图片!", util::NOT_PARAMETER_CODE),
            );
        }
        Ok(ext)
    }

    /// The folder an avatar goes to.
    pub fn logo_dir(data_dir: &str, account: &str, today: &str, suffix: u32) -> (r: String)
        ensures
            r@ == logo_dir_of(data_dir@, account@, today@, suffix),
    {
        let mut r = String::from_str(data_dir);
        r.append("/");
        r.append(util::LOGO_PATH);
        r.append("/");
        r.append(account);
        r.append("/");
        r.append(today);
        r.append("/");
        r.append(today);
        r.append(string_of(&digits_of(suffix as u64)).as_str());
        r
    }

    /// The account `user` with a new avatar stored at `saved` (`None` where
    /// storing failed): its logo becomes the stored file's local path
    /// without the storage root, its update time `now`; the rest stays.
    pub fn upload_logo(user: &User, saved: Option<String>, data_dir: &str, now: String) -> (r: Result<User, Error>)
        ensures
            match saved {
                Some(local) => r matches Ok(u) && (u.logo matches Some(l) && l@ == replaced(
                    local@,
                    data_dir@,
                    ""@,
                )) && u.update_time == Some(now) && u == (User {
                    logo: u.logo,
                    update_time: u.update_time,
                    ..*user
                }),
                None => r matches Err(e) && e.message() == "修改头像失败"@ && e.code() == util::CODE_FAIL,
            },
    {
        match saved {
            Some(local) => Ok(
                User {
                    account: user.account.clone(),
                    name: user.name.clone(),
                    password: user.password.clone(),
                    sex: user.sex.clone(),
                    qq: user.qq.clone(),
                    email: user.email.clone(),
                    phone: user.phone.clone(),
                    birthday: user.birthday.clone(),
                    hometown: user.hometown.clone(),
                    autograph: user.autograph.clone(),
                    logo: Some(replace_all(local.as_str(), data_dir, "")),
                    background: user.background,
                    organize_id: user.organize_id,
                    state: user.state,
                    create_time: user.create_time.clone(),
                    update_time: Some(now),
                },
            ),
            None => Err(Error::from_message("修改头像失败")),
        }
    }

    /// A `file` field of a picture upload named `origin_name`, with the
    /// number `suffix`: the name to store the picture under.
    pub fn upload_file_picture_field_as(origin_name: &str, today: &str, suffix: u32) -> (r: Result<String, Error>)
        ensures
            match second_picture_piece_of(origin_name@) {
                Ok(ext) => outcome_is(r, Ok(stored_name_of(today@, suffix as i64, ext))),
                Err(e) => outcome_is(r, Err(e)),
            },
    {
        let ext = match FileService::second_picture_piece(origin_name) {
            Ok(ext) => ext,
            Err(e) => {
                return Err(e);
            },
        };
        Ok(OssService::stored_file_name(today, suffix as i64, ext.as_str()))
    }

    /// The record of a picture uploaded as a file: `file` is the name it was
    /// sent under and where it was stored, `None` where storing failed;
    /// `None` in place of both where the form had no file. Category 1, by
    /// `account` at `now`, its address the local path without the storage
    /// root.
    pub fn upload_file_picture(
        file: Option<(String, Option<String>)>,
        data_dir: &str,
        account: String,
        now: String,
    ) -> (r: Result<Pictures, Error>)
        ensures
            match file {
                Some((origin, Some(local))) => r matches Ok(p) && p == (Pictures {
                    id: None,
                    category: Some(1u32),
                    file_name: Some(origin),
                    descript: None,
                    file_url: Some(local),
                    web_url: p.web_url,
                    organize: None,
                    source: Some(account),
                    create_time: Some(now),
                    update_time: None,
                }) && (p.web_url matches Some(w) && w@ == replaced(local@, data_dir@, ""@)),
                _ => r matches Err(e) && e.message() == "图片上传失败"@ && e.code() == util::CODE_FAIL,
            },
    {
        match file {
            Some((origin, Some(local))) => {
                let web_url = replace_all(local.as_str(), data_dir, "");
                Ok(
                    Pictures {
                        id: None,
                        category: Some(1),
                        file_name: Some(origin),
                        descript: None,
                        file_url: Some(local),
                        web_url: Some(web_url),
                        organize: None,
                        source: Some(account),
                        create_time: Some(now),
                        update_time: None,
                    },
                )
            },
            _ => Err(Error::from_message("图片上传失败")),
        }
    }

    /// The address of a picture uploaded as base64 and stored at `saved`
    /// (`None` where storing failed): its local path without the storage
    /// root.
    pub fn upload_base64_picture(saved: Option<String>, data_dir: &str) -> (r: Result<String, Error>)
        ensures
            match saved {
                Some(local) => outcome_is(r, Ok(replaced(local@, data_dir@, ""@))),
                None => outcome_is(r, Err(("保存base64图片"@, util::CODE_FAIL))),
            },
    {
        match saved {
            Some(local) => Ok(replace_all(local.as_str(), data_dir, "")),
            None => Err(Error::from_message("保存base64图片")),
        }
    }

    /// A `file` field of a document upload named `origin_name`, with the
    /// number `suffix`: the name is kept; the kind of file is looked up by
    /// the extension in `types` and kept where found; the name to store the
    /// file under is `today`, the number, a dot and the extension.
    pub fn upload_file_field_as(
        state: &mut FileUpload,
        origin_name: &str,
        types: &Vec<(String, String)>,
        today: &str,
        suffix: u32,
    ) -> (r: Result<String, Error>)
        ensures
            final(state).origin_name@ == origin_name@,
            final(state).uid == old(state).uid,
            final(state).local_path == old(state).local_path,
            match second_piece_of(origin_name@, "无效的文件!"@) {
                Err(e) => outcome_is(r, Err(e)) && final(state).file_type == old(state).file_type,
                Ok(ext) => outcome_is(r, Ok(stored_name_of(today@, suffix as i64, ext)))
                    && final(state).file_type == match type_of_ext(types@, ext) {
                    Some(t) => Some(t),
                    None => old(state).file_type,
                },
            },
    {
        state.origin_name = String::from_str(origin_name);
        let ext = match FileService::second_piece(origin_name, "无效的文件!") {
            Ok(ext) => ext,
            Err(e) => {
                return Err(e);
            },
        };
        match OssService::file_type_of(ext.as_str(), types) {
            Some(t) => {
                state.file_type = Some(t);
            },
            None => {},
        }
        Ok(OssService::stored_file_name(today, suffix as i64, ext.as_str()))
    }

    /// The record of an uploaded document, by `account` at `now`: its
    /// address is its local path without the storage root, its kind
    /// `"complex"` where no extension gave one, its status 2. An upload that
    /// stored no file is refused.
    pub fn upload_file(state: &FileUpload, data_dir: &str, account: String, now: String) -> (r: Result<Files, Error>)
        ensures
            state.local_path is None ==> (r matches Err(e) && e.message() == "文件上传失败!"@ && e.code()
                == util::NOT_PARAMETER_CODE),
            state.local_path matches Some(p) ==> (r matches Ok(f) && f.id is None && f.uid == Some(
                state.uid,
            ) && f.file_name == Some(state.origin_name) && (f.file_url matches Some(u) && u@ == replaced(
                p@,
                data_dir@,
                ""@,
            )) && (f.file_type matches Some(t) && t@ == match state.file_type {
                Some(k) => k@,
                None => "complex"@,
            }) && f.organize is None && f.source == Some(account) && f.status == Some(2u32)
                && f.create_time == Some(now) && f.update_time is None),
    {
        let local = match &state.local_path {
            Some(p) => p,
            None => {
                return Err(Error::with_code("文件上传失败!", util::NOT_PARAMETER_CODE));
            },
        };
        let file_url = replace_all(local.as_str(), data_dir, "");
        let file_type = match &state.file_type {
            Some(t) => t.clone(),
            None => String::from_str("complex"),
        };
        Ok(
            Files {
                id: None,
                uid: Some(state.uid.clone()),
                file_name: Some(state.origin_name.clone()),
                file_url: Some(file_url),
                file_type: Some(file_type),
                organize: None,
                source: Some(account),
                status: Some(2),
                create_time: Some(now),
                update_time: None,
            },
        )
    }
}

impl FileService {
    /// The stored file that deleting the picture `id` removes, where the
    /// picture has an address; the picture must be found.
    pub fn picture_delete(id: u64, found: &Option<Pictures>, data_dir: &str) -> (r: Result<Option<String>, Error>)
        ensures
            found is None ==> (r matches Err(e) && e.message() == missing_picture_message(id) && e.code()
                == util::NOT_EXIST_CODE),
            found is Some ==> (r matches Ok(p) && path_is(p, path_to_remove(found.unwrap().web_url, data_dir@))),
    {
        match found {
            Some(p) => Ok(removal_path(&p.web_url, data_dir)),
            None => Err(missing_picture(id)),
        }
    }
}

/// A number from `rand::thread_rng().gen_range(10000..=99999)`: it is
/// random; rand's documentation gives that it lies in the range.
#[verifier::external_body]
fn random_suffix() -> (r: u32)
    ensures
        10000 <= r <= 99999,
{
    rand::thread_rng().gen_range(10000..=99999)
}

impl FileService {
    /// The folder a new avatar goes to, with a fresh number from 10000 to
    /// 99999.
    pub fn logo_folder(data_dir: &str, account: &str, today: &str) -> (r: String)
        ensures
            exists|suffix: u32| 10000 <= suffix <= 99999 && r@ == #[trigger] logo_dir_of(data_dir@, account@, today@, suffix),
    {
        let suffix = random_suffix();
        FileService::logo_dir(data_dir, account, today, suffix)
    }

    /// A `file` field of a picture upload, with a fresh number from 10000 to
    /// 99999: as `upload_file_picture_field_as` for that number.
    pub fn upload_file_picture_field(origin_name: &str, today: &str) -> (r: Result<String, Error>)
        ensures
            match second_picture_piece_of(origin_name@) {
                Ok(ext) => exists|suffix: u32|
                    10000 <= suffix <= 99999 && outcome_is(r, Ok(#[trigger] stored_name_of(today@, suffix as i64, ext))),
                Err(e) => outcome_is(r, Err(e)),
            },
    {
        let suffix = random_suffix();
        FileService::upload_file_picture_field_as(origin_name, today, suffix)
    }

    /// A `file` field of a document upload, with a fresh number from 10000
    /// to 99999: as `upload_file_field_as` for that number.
    pub fn upload_file_field(
        state: &mut FileUpload,
        origin_name: &str,
        types: &Vec<(String, String)>,
        today: &str,
    ) -> (r: Result<String, Error>)
        ensures
            final(state).origin_name@ == origin_name@,
            final(state).uid == old(state).uid,
            final(state).local_path == old(state).local_path,
            match second_piece_of(origin_name@, "无效的文件!"@) {
                Err(e) => outcome_is(r, Err(e)) && final(state).file_type == old(state).file_type,
                Ok(ext) => (exists|suffix: u32|
                    10000 <= suffix <= 99999 && outcome_is(r, Ok(#[trigger] stored_name_of(today@, suffix as i64, ext))))
                    && final(state).file_type == match type_of_ext(types@, ext) {
                    Some(t) => Some(t),
                    None => old(state).file_type,
                },
            },
    {
        let suffix = random_suffix();
        FileService::upload_file_field_as(state, origin_name, types, today, suffix)
    }
}

} // verus!
