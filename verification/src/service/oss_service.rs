use vstd::prelude::*;
use crate::claims::{chars_of, digits, digits_of, is_digit, lemma_digits_are_digits, string_of};
use crate::entity::domain::business_database_tables::{Files, Pictures};
use crate::entity::dto::files::FilesDTO;
use crate::entity::dto::picture_base64::Base64PictureDTO;
use crate::entity::vo::user_context::UserContext;
use crate::service::content_service::{missing_item, missing_item_message};
use crate::error::Error;
use crate::util;
use crate::entity::domain::primary_database_tables::User;
use crate::util::string::{has_prefix, lowercase, replace_all, replaced, split_char, split_on, starts_with, to_lowercase};

use rustflake::Snowflake;

verus! {

/// The file service: uploads, downloads and the records of stored files.
pub struct OssService {}

/// The picture extensions that uploads accept.
pub open spec fn allowed_picture(ext: Seq<char>) -> bool {
    ext == "gif"@ || ext == "png"@ || ext == "jpg"@ || ext == "jpeg"@ || ext == "bmp"@
}

/// What a base64 picture upload yields: the text after the first comma of a
/// `data:image...` URL, or the refusal.
pub open spec fn picture_payload_of(content: Seq<char>) -> Result<Seq<char>, (Seq<char>, i32)> {
    let pieces = split_on(content, ',');
    if pieces.len() < 2 {
        Err(("无效的图片!"@, util::NOT_PARAMETER_CODE))
    } else if !starts_with(pieces[0], "data:image"@) {
        Err(("非法的Base64图片!"@, util::NOT_PARAMETER_CODE))
    } else {
        Ok(pieces[1])
    }
}

/// Whether `r` is the outcome `expected`, the error taken by its message and code.
pub open spec fn outcome_is(r: Result<String, Error>, expected: Result<Seq<char>, (Seq<char>, i32)>) -> bool {
    match (r, expected) {
        (Ok(s), Ok(t)) => s@ == t,
        (Err(e), Err((m, c))) => e.message() == m && e.code() == c,
        _ => false,
    }
}

/// The extension of a file name: the text after its last dot, lower-cased,
/// or the refusal when the name has no dot.
pub open spec fn extension_of(name: Seq<char>, refusal: Seq<char>) -> Result<Seq<char>, (Seq<char>, i32)> {
    let pieces = split_on(lowercase(name), '.');
    if pieces.len() < 2 {
        Err((refusal, util::NOT_PARAMETER_CODE))
    } else {
        Ok(pieces.last())
    }
}

/// The extension of an uploaded picture: that of its name, which must be one
/// of the accepted picture formats.
pub open spec fn picture_extension_of(name: Seq<char>) -> Result<Seq<char>, (Seq<char>, i32)> {
    match extension_of(name, "无效的图片!"@) {
        Ok(ext) => if allowed_picture(ext) {
            Ok(ext)
        } else {
            Err(("请上传GIF、PNG、JPG、JPEG、BMP格式的图片!"@, util::NOT_PARAMETER_CODE))
        },
        Err(e) => Err(e),
    }
}

/// The public address of a stored file: the storage root removed from its
/// local path, under the public view root.
pub open spec fn view_path_of(local_path: Seq<char>, data_dir: Seq<char>) -> Seq<char> {
    "/"@ + util::PUBLIC_VIEW_ROOT_PATH@ + replaced(local_path, data_dir, ""@)
}

/// The folder that uploads of one kind by one user on one day go to.
pub open spec fn save_dir_of(data_dir: Seq<char>, kind: Seq<char>, account: Seq<char>, today: Seq<char>) -> Seq<char> {
    data_dir + "/"@ + kind + "/"@ + account + "/"@ + today
}

impl OssService {
    /// The encoded body of a picture given as a `data:image...;base64,...`
    /// URL: the text between its first and second comma.
    pub fn picture_payload(content: &str) -> (r: Result<String, Error>)
        ensures
            outcome_is(r, picture_payload_of(content@)),
    {
        let pieces = split_char(content, ',');
        proof {
            assert(pieces@.map_values(|p: Vec<char>| p@).len() == pieces@.len());
        }
        if pieces.len() < 2 {
            return Err(Error::with_code("无效的图片!", util::NOT_PARAMETER_CODE));
        }
        proof {
            assert(pieces@.map_values(|p: Vec<char>| p@)[0] == pieces@[0]@);
            assert(pieces@.map_values(|p: Vec<char>| p@)[1] == pieces@[1]@);
        }
        if !has_prefix(&pieces[0], "data:image") {
            return Err(Error::with_code("非法的Base64图片!", util::NOT_PARAMETER_CODE));
        }
        Ok(string_of(&pieces[1]))
    }

    /// The encoded body of a new avatar; the content must be present.
    pub fn upload_logo_payload(arg: &Base64PictureDTO) -> (r: Result<String, Error>)
        ensures
            match arg.content {
                Some(c) if c@.len() > 0 => outcome_is(r, picture_payload_of(c@)),
                _ => outcome_is(r, Err(("请选择base64图片!"@, util::NOT_PARAMETER_CODE))),
            },
    {
        match &arg.content {
            Some(c) => {
                if c.as_str().unicode_len() == 0 {
                    Err(Error::with_code("请选择base64图片!", util::NOT_PARAMETER_CODE))
                } else {
                    OssService::picture_payload(c.as_str())
                }
            },
            None => Err(Error::with_code("请选择base64图片!", util::NOT_PARAMETER_CODE)),
        }
    }

    /// The encoded body of a picture uploaded as base64; the content must be
    /// present.
    pub fn upload_base64_picture_payload(arg: &Base64PictureDTO) -> (r: Result<String, Error>)
        ensures
            match arg.content {
                Some(c) if c@.len() > 0 => outcome_is(r, picture_payload_of(c@)),
                _ => outcome_is(r, Err(("请选择图片!"@, util::NOT_PARAMETER_CODE))),
            },
    {
        match &arg.content {
            Some(c) => {
                if c.as_str().unicode_len() == 0 {
                    Err(Error::with_code("请选择图片!", util::NOT_PARAMETER_CODE))
                } else {
                    OssService::picture_payload(c.as_str())
                }
            },
            None => Err(Error::with_code("请选择图片!", util::NOT_PARAMETER_CODE)),
        }
    }

    /// The lower-cased extension of an uploaded file's name.
    fn extension(origin_name: &str, refusal: &str) -> (r: Result<String, Error>)
        ensures
            outcome_is(r, extension_of(origin_name@, refusal@)),
    {
        let lower = to_lowercase(origin_name);
        let pieces = split_char(lower.as_str(), '.');
        proof {
            assert(pieces@.map_values(|p: Vec<char>| p@).len() == pieces@.len());
        }
        if pieces.len() < 2 {
            return Err(Error::with_code(refusal, util::NOT_PARAMETER_CODE));
        }
        let last = pieces.len() - 1;
        proof {
            assert(pieces@.map_values(|p: Vec<char>| p@)[last as int] == pieces@[last as int]@);
        }
        Ok(string_of(&pieces[last]))
    }

    /// The extension of an uploaded document.
    pub fn file_extension(origin_name: &str) -> (r: Result<String, Error>)
        ensures
            outcome_is(r, extension_of(origin_name@, "无效的文件!"@)),
    {
        OssService::extension(origin_name, "无效的文件!")
    }

    /// The extension of an uploaded picture, which must be one of the
    /// accepted picture formats.
    pub fn image_extension(origin_name: &str) -> (r: Result<String, Error>)
        ensures
            outcome_is(r, picture_extension_of(origin_name@)),
            match extension_of(origin_name@, "无效的图片!"@) {
                Ok(ext) => if allowed_picture(ext) {
                    outcome_is(r, Ok(ext))
                } else {
                    outcome_is(r, Err(("请上传GIF、PNG、JPG、JPEG、BMP格式的图片!"@, util::NOT_PARAMETER_CODE)))
                },
                Err(e) => outcome_is(r, Err(e)),
            },
    {
        let ext = match OssService::extension(origin_name, "无效的图片!") {
            Ok(ext) => ext,
            Err(e) => return Err(e),
        };
        let allowed = ext == String::from_str("gif") || ext == String::from_str("png") || ext
            == String::from_str("jpg") || ext == String::from_str("jpeg") || ext == String::from_str("bmp");
        if !allowed {
            return Err(Error::with_code("请上传GIF、PNG、JPG、JPEG、BMP格式的图片!", util::NOT_PARAMETER_CODE));
        }
        Ok(ext)
    }

    /// The public address of a stored file.
    pub fn view_path(local_path: &str, data_dir: &str) -> (r: String)
        ensures
            r@ == view_path_of(local_path@, data_dir@),
    {
        let http_path = replace_all(local_path, data_dir, "");
        let mut r = String::from_str("/");
        r.append(util::PUBLIC_VIEW_ROOT_PATH);
        r.append(http_path.as_str());
        r
    }

    /// The folder that uploads of one kind by one user on one day go to.
    pub fn save_dir(data_dir: &str, kind: &str, account: &str, today: &str) -> (r: String)
        ensures
            r@ == save_dir_of(data_dir@, kind@, account@, today@),
    {
        let mut r = String::from_str(data_dir);
        r.append("/");
        r.append(kind);
        r.append("/");
        r.append(account);
        r.append("/");
        r.append(today);
        r
    }
}

/// The decimal text of a signed number.
pub open spec fn signed_digits(n: i64) -> Seq<char> {
    if n < 0 {
        seq!['-'] + digits((-n) as nat)
    } else {
        digits(n as nat)
    }
}

/// The name a stored upload gets: the day, an id, a dot and the extension.
pub open spec fn stored_name_of(today: Seq<char>, id: i64, ext: Seq<char>) -> Seq<char> {
    today + signed_digits(id) + "."@ + ext
}

/// No id drawn from the generator is 0: its worker and data center bits are
/// set whatever the clock reads.
pub proof fn lemma_generator_id_not_zero(id: i64)
    requires
        is_snowflake_id(id),
    ensures
        id != 0,
{
    assert(((id & 0x3fffffi64) == 0x21000i64 || (id & 0x3fffffi64) == 0x21001i64) ==> id != 0) by (bit_vector);
}

/// A stored name determines its id: two uploads of one day and extension get
/// the same name only when they drew the same id, so a name made from a
/// generator id is never the name made from an id the generator cannot give
/// (such as 0).
pub proof fn lemma_stored_name_determines_id(today: Seq<char>, ext: Seq<char>, a: i64, b: i64)
    requires
        stored_name_of(today, a, ext) == stored_name_of(today, b, ext),
    ensures
        a == b,
{
    let x = stored_name_of(today, a, ext);
    let sa = signed_digits(a);
    let sb = signed_digits(b);
    let y = stored_name_of(today, b, ext);
    assert(x.len() == today.len() + sa.len() + "."@.len() + ext.len());
    assert(y.len() == today.len() + sb.len() + "."@.len() + ext.len());
    assert(sa.len() == sb.len());
    assert(sa =~= x.subrange(today.len() as int, (today.len() + sa.len()) as int));
    assert(sb =~= y.subrange(today.len() as int, (today.len() + sb.len()) as int));
    let na: nat = if a < 0 { (-a) as nat } else { a as nat };
    let nb: nat = if b < 0 { (-b) as nat } else { b as nat };
    lemma_digits_are_digits(na);
    lemma_digits_are_digits(nb);
    if a < 0 {
        assert(sa[0] == '-');
        if b >= 0 {
            assert(is_digit(digits(nb)[0]));
            assert(false);
        }
        assert(sa.drop_first() =~= digits(na));
        assert(sb.drop_first() =~= digits(nb));
    } else {
        if b < 0 {
            assert(sb[0] == '-');
            assert(is_digit(digits(na)[0]));
            assert(false);
        }
    }
    assert(digits(na) == digits(nb));
}

/// The kind of file that the table `types` gives an extension: the value of
/// its first entry with that extension as key.
pub open spec fn type_of_ext(types: Seq<(String, String)>, ext: Seq<char>) -> Option<String>
    decreases types.len(),
{
    if types.len() == 0 {
        None
    } else if types[0].0@ == ext {
        Some(types[0].1)
    } else {
        type_of_ext(types.drop_first(), ext)
    }
}

/// The error of an upload by a user whose account does not exist.
pub open spec fn missing_user_message(account: Seq<char>) -> Seq<char> {
    "用户:"@ + account + " 不存在!"@
}

/// Whether `id` has the layout of an id drawn from a fresh
/// `rustflake::Snowflake::default()`: the milliseconds since the generator's
/// epoch above bit 22, then worker 1 (bit 17) and data center 1 (bit 12),
/// and a sequence of 0 (or 1, where the clock stands exactly at the epoch)
/// in the low twelve bits.
pub open spec fn is_snowflake_id(id: i64) -> bool {
    (id & 0x3fffffi64) == 0x21000i64 || (id & 0x3fffffi64) == 0x21001i64
}

/// A fresh id from `rustflake::Snowflake::default().generate()`. Its time
/// part depends on the clock and is not stated; the generator writes its
/// worker and data center (both 1) and a fresh generator's sequence (0, or 1
/// where the clock reads exactly its epoch) into the low 22 bits.
#[verifier::external_body]
fn snowflake_id() -> (r: i64)
    ensures
        is_snowflake_id(r),
{
    Snowflake::default().generate()
}

/// What standard base64 decoding (`base64::decode`, padded standard
/// alphabet) makes of a text: its bytes, or `None` where the text is not
/// valid base64.
pub uninterp spec fn base64_bytes(text: Seq<char>) -> Option<Seq<u8>>;

/// Decodes `text` with `base64::decode`. Claims only that the outcome is the
/// named decoding of the text; which texts decode, and to what, is not stated.
#[verifier::external_body]
fn decode_base64(text: &str) -> (r: Option<Vec<u8>>)
    ensures
        match r {
            Some(v) => base64_bytes(text@) == Some(v@),
            None => base64_bytes(text@) is None,
        },
{
    base64::decode(text).ok()
}

/// What an upload of a document gathers from the fields of its form.
#[derive(Clone, Debug)]
pub struct FileUpload {
    /// The text of the `uid` field, `"null"` until one comes.
    pub uid: String,
    /// The name of the last file sent.
    pub origin_name: String,
    /// Where the last file was stored.
    pub local_path: Option<String>,
    /// The kind of file that its extension gave, if any did.
    pub file_type: Option<String>,
}

impl OssService {
    /// The decimal text of a signed number.
    pub fn signed_text(n: i64) -> (r: String)
        ensures
            r@ == signed_digits(n),
    {
        if n < 0 {
            let magnitude: u64 = if n == i64::MIN {
                9223372036854775808u64
            } else {
                (-n) as u64
            };
            let mut r = String::from_str("-");
            r.append(string_of(&digits_of(magnitude)).as_str());
            proof {
                reveal_strlit("-");
            }
            r
        } else {
            string_of(&digits_of(n as u64))
        }
    }

    /// The name a stored upload gets: `today`, the id, a dot and the
    /// extension.
    pub fn stored_file_name(today: &str, id: i64, ext: &str) -> (r: String)
        ensures
            r@ == stored_name_of(today@, id, ext@),
    {
        let mut r = String::from_str(today);
        r.append(OssService::signed_text(id).as_str());
        r.append(".");
        r.append(ext);
        r
    }

    /// The name a picture sent as base64 is stored under on `today`: the
    /// day, a fresh snowflake id and the extension `png`.
    pub fn fresh_png_name(today: &str) -> (r: String)
        ensures
            exists|id: i64| is_snowflake_id(id) && r@ == stored_name_of(today@, id, "png"@),
    {
        let id = snowflake_id();
        OssService::stored_file_name(today, id, "png")
    }

    /// The kind of file of an extension, as the table `types` gives it.
    pub fn file_type_of(ext: &str, types: &Vec<(String, String)>) -> (r: Option<String>)
        ensures
            r == type_of_ext(types@, ext@),
    {
        let key = String::from_str(ext);
        let mut i: usize = 0;
        proof {
            assert(types@.skip(0) =~= types@);
        }
        while i < types.len()
            invariant
                i <= types.len(),
                key@ == ext@,
                type_of_ext(types@, ext@) == type_of_ext(types@.skip(i as int), ext@),
            decreases types.len() - i,
        {
            proof {
                assert(types@.skip(i as int).drop_first() =~= types@.skip(i + 1));
                assert(types@.skip(i as int)[0] == types@[i as int]);
            }
            if types[i].0 == key {
                return Some(types[i].1.clone());
            }
            i = i + 1;
        }
        proof {
            assert(types@.skip(i as int) =~= Seq::<(String, String)>::empty());
        }
        None
    }

    /// The error of an upload by a user whose account does not exist.
    pub fn missing_user(account: &str) -> (e: Error)
        ensures
            e.message() == missing_user_message(account@),
            e.code() == util::NOT_EXIST_CODE,
    {
        let mut m = String::from_str("用户:");
        m.append(account);
        m.append(" 不存在!");
        Error::E(m, util::NOT_EXIST_CODE)
    }

    /// An upload before any field: uid `"null"`, no file yet.
    pub fn upload_file_begin() -> (r: FileUpload)
        ensures
            r.uid@ == "null"@,
            r.origin_name@ == Seq::<char>::empty(),
            r.local_path is None,
            r.file_type is None,
    {
        FileUpload { uid: String::from_str("null"), origin_name: String::new(), local_path: None, file_type: None }
    }

    /// A `file` field named `origin_name`, under the id `id`: the name is
    /// kept; the kind of file is looked up by the extension in `types` and
    /// kept where found; the name to store the file under is `today`, the
    /// id, a dot and the extension. A name without extension is refused.
    pub fn upload_file_field_as(
        state: &mut FileUpload,
        origin_name: &str,
        types: &Vec<(String, String)>,
        today: &str,
        id: i64,
    ) -> (r: Result<String, Error>)
        ensures
            final(state).origin_name@ == origin_name@,
            final(state).uid == old(state).uid,
            final(state).local_path == old(state).local_path,
            match extension_of(origin_name@, "无效的文件!"@) {
                Err(e) => outcome_is(r, Err(e)) && final(state).file_type == old(state).file_type,
                Ok(ext) => outcome_is(r, Ok(stored_name_of(today@, id, ext))) && final(state).file_type
                    == match type_of_ext(types@, ext) {
                    Some(t) => Some(t),
                    None => old(state).file_type,
                },
            },
    {
        state.origin_name = String::from_str(origin_name);
        let ext = match OssService::file_extension(origin_name) {
            Ok(ext) => ext,
            Err(e) => {
                return Err(e);
            },
        };
        match OssService::file_type_of(ext.as_str(), types) {
            Some(t) => {
                state.file_type = Some(t);
            },
            None => {},
        }
        Ok(OssService::stored_file_name(today, id, ext.as_str()))
    }

    /// A `file` field named `origin_name`, under a fresh id: as
    /// `upload_file_field_as` for some id.
    pub fn upload_file_field(
        state: &mut FileUpload,
        origin_name: &str,
        types: &Vec<(String, String)>,
        today: &str,
    ) -> (r: Result<String, Error>)
        ensures
            final(state).origin_name@ == origin_name@,
            final(state).uid == old(state).uid,
            final(state).local_path == old(state).local_path,
            match extension_of(origin_name@, "无效的文件!"@) {
                Err(e) => outcome_is(r, Err(e)) && final(state).file_type == old(state).file_type,
                Ok(ext) => (exists|id: i64| is_snowflake_id(id) && outcome_is(r, Ok(stored_name_of(today@, id, ext))))
                    && final(state).file_type == match type_of_ext(types@, ext) {
                    Some(t) => Some(t),
                    None => old(state).file_type,
                },
            },
    {
        let id = snowflake_id();
        OssService::upload_file_field_as(state, origin_name, types, today, id)
    }

    /// Where the file of the last `file` field was stored, or `None` where
    /// storing it failed.
    pub fn upload_file_saved(state: &mut FileUpload, saved: Option<String>) -> (r: Result<(), Error>)
        ensures
            saved is None ==> (r matches Err(e) && e.message() == "文件上传失败"@ && e.code()
                == util::CODE_FAIL && *final(state) == *old(state)),
            saved is Some ==> (r is Ok && final(state).local_path == saved && final(state).uid
                == old(state).uid && final(state).origin_name == old(state).origin_name
                && final(state).file_type == old(state).file_type),
    {
        match saved {
            Some(p) => {
                state.local_path = Some(p);
                Ok(())
            },
            None => Err(Error::from_message("文件上传失败")),
        }
    }

    /// The text of a `uid` field.
    pub fn upload_file_uid(state: &mut FileUpload, uid: String)
        ensures
            final(state).uid == uid,
            final(state).origin_name == old(state).origin_name,
            final(state).local_path == old(state).local_path,
            final(state).file_type == old(state).file_type,
    {
        state.uid = uid;
    }

    /// The record of an uploaded document, by `account` of `organize` at
    /// `now`: its address is its local path without the storage root, its
    /// kind `"complex"` where no extension gave one, its status 2. An upload
    /// that stored no file is refused.
    pub fn upload_file(state: &FileUpload, data_dir: &str, organize: u64, account: String, now: String) -> (r:
        Result<Files, Error>)
        ensures
            state.local_path is None ==> (r matches Err(e) && e.message() == "文件上传失败!"@ && e.code()
                == util::NOT_PARAMETER_CODE),
            state.local_path matches Some(p) ==> (r matches Ok(f) && f.id is None && f.uid == Some(
                state.uid,
            ) && f.file_name == Some(state.origin_name) && (f.file_url matches Some(u) && u@ == replaced(
                p@,
                data_dir@,
                ""@,
            )) && (f.file_type matches Some(t) && t@ == match state.file_type {
                Some(k) => k@,
                None => "complex"@,
            }) && f.organize == Some(organize) && f.source == Some(account) && f.status == Some(2u32)
                && f.create_time == Some(now) && f.update_time is None),
    {
        let local = match &state.local_path {
            Some(p) => p,
            None => {
                return Err(Error::with_code("文件上传失败!", util::NOT_PARAMETER_CODE));
            },
        };
        let file_url = replace_all(local.as_str(), data_dir, "");
        let file_type = match &state.file_type {
            Some(t) => t.clone(),
            None => String::from_str("complex"),
        };
        Ok(
            Files {
                id: None,
                uid: Some(state.uid.clone()),
                file_name: Some(state.origin_name.clone()),
                file_url: Some(file_url),
                file_type: Some(file_type),
                organize: Some(organize),
                source: Some(account),
                status: Some(2),
                create_time: Some(now),
                update_time: None,
            },
        )
    }
}

/// Whether a picture record is the one that an upload of `category` stored
/// at `local` under `file_name` makes, by `account` of `organize` at `now`.
pub open spec fn is_picture_record(
    p: Pictures,
    category: u32,
    file_name: String,
    local: String,
    data_dir: Seq<char>,
    organize: u64,
    account: String,
    now: String,
) -> bool {
    &&& p.id is None
    &&& p.category == Some(category)
    &&& p.file_name == Some(file_name)
    &&& p.descript is None
    &&& p.file_url == Some(local)
    &&& p.web_url matches Some(w) && w@ == view_path_of(local@, data_dir)
    &&& p.organize == Some(organize)
    &&& p.source == Some(account)
    &&& p.create_time == Some(now)
    &&& p.update_time is None
}

impl OssService {
    /// A `file` field of a picture upload, named `origin_name`, under the id
    /// `id`: the name to store the picture under, `today`, the id, a dot and
    /// the extension, which must be a picture format.
    pub fn upload_file_picture_field_as(origin_name: &str, today: &str, id: i64) -> (r: Result<String, Error>)
        ensures
            match picture_extension_of(origin_name@) {
                Ok(ext) => outcome_is(r, Ok(stored_name_of(today@, id, ext))),
                Err(e) => outcome_is(r, Err(e)),
            },
    {
        let ext = match OssService::image_extension(origin_name) {
            Ok(ext) => ext,
            Err(e) => {
                return Err(e);
            },
        };
        Ok(OssService::stored_file_name(today, id, ext.as_str()))
    }

    /// A `file` field of a picture upload, under a fresh id: as
    /// `upload_file_picture_field_as` for some id.
    pub fn upload_file_picture_field(origin_name: &str, today: &str) -> (r: Result<String, Error>)
        ensures
            match picture_extension_of(origin_name@) {
                Ok(ext) => exists|id: i64| is_snowflake_id(id) && outcome_is(r, Ok(stored_name_of(today@, id, ext))),
                Err(e) => outcome_is(r, Err(e)),
            },
    {
        let id = snowflake_id();
        OssService::upload_file_picture_field_as(origin_name, today, id)
    }

    /// The record of a wallpaper uploaded as a file: `file` is the name the
    /// file was sent under and where it was stored, `None` where storing
    /// failed; `None` in place of both where the form had no file. The
    /// record is of category 1, by `account` of `organize` at `now`, with
    /// the public address of the stored file.
    pub fn upload_file_picture(
        file: Option<(String, Option<String>)>,
        data_dir: &str,
        organize: u64,
        account: String,
        now: String,
    ) -> (r: Result<Pictures, Error>)
        ensures
            match file {
                Some((origin, Some(local))) => r matches Ok(p) && is_picture_record(
                    p,
                    1,
                    origin,
                    local,
                    data_dir@,
                    organize,
                    account,
                    now,
                ),
                _ => r matches Err(e) && e.message() == "图片上传失败"@ && e.code() == util::CODE_FAIL,
            },
    {
        match file {
            Some((origin, Some(local))) => {
                let web_url = OssService::view_path(local.as_str(), data_dir);
                Ok(
                    Pictures {
                        id: None,
                        category: Some(1),
                        file_name: Some(origin),
                        descript: None,
                        file_url: Some(local),
                        web_url: Some(web_url),
                        organize: Some(organize),
                        source: Some(account),
                        create_time: Some(now),
                        update_time: None,
                    },
                )
            },
            _ => Err(Error::from_message("图片上传失败")),
        }
    }

    /// The record of a picture uploaded as base64 and stored under
    /// `file_name` at `saved` (`None` where storing failed): category 2, by
    /// `account` of `organize` at `now`, with the public address of the
    /// stored file.
    pub fn upload_base64_picture(
        file_name: String,
        saved: Option<String>,
        data_dir: &str,
        organize: u64,
        account: String,
        now: String,
    ) -> (r: Result<Pictures, Error>)
        ensures
            match saved {
                Some(local) => r matches Ok(p) && is_picture_record(
                    p,
                    2,
                    file_name,
                    local,
                    data_dir@,
                    organize,
                    account,
                    now,
                ),
                None => r matches Err(e) && e.message() == "保存base64图片"@ && e.code() == util::CODE_FAIL,
            },
    {
        match saved {
            Some(local) => {
                let web_url = OssService::view_path(local.as_str(), data_dir);
                Ok(
                    Pictures {
                        id: None,
                        category: Some(2),
                        file_name: Some(file_name),
                        descript: None,
                        file_url: Some(local),
                        web_url: Some(web_url),
                        organize: Some(organize),
                        source: Some(account),
                        create_time: Some(now),
                        update_time: None,
                    },
                )
            },
            None => Err(Error::from_message("保存base64图片")),
        }
    }

    /// The account `user` with a new avatar stored at `saved` (`None` where
    /// storing failed): its logo becomes the public address of the stored
    /// file, its update time `now`; the rest stays.
    pub fn upload_logo(user: &User, saved: Option<String>, data_dir: &str, now: String) -> (r: Result<User, Error>)
        ensures
            match saved {
                Some(local) => r matches Ok(u) && (u.logo matches Some(l) && l@ == view_path_of(
                    local@,
                    data_dir@,
                )) && u.update_time == Some(now) && u == (User {
                    logo: u.logo,
                    update_time: u.update_time,
                    ..*user
                }),
                None => r matches Err(e) && e.message() == "头像保存失败"@ && e.code() == util::CODE_FAIL,
            },
    {
        match saved {
            Some(local) => {
                Ok(
                    User {
                        account: user.account.clone(),
                        name: user.name.clone(),
                        password: user.password.clone(),
                        sex: user.sex.clone(),
                        qq: user.qq.clone(),
                        email: user.email.clone(),
                        phone: user.phone.clone(),
                        birthday: user.birthday.clone(),
                        hometown: user.hometown.clone(),
                        autograph: user.autograph.clone(),
                        logo: Some(OssService::view_path(local.as_str(), data_dir)),
                        background: user.background,
                        organize_id: user.organize_id,
                        state: user.state,
                        create_time: user.create_time.clone(),
                        update_time: Some(now),
                    },
                )
            },
            None => Err(Error::from_message("头像保存失败")),
        }
    }
}

/// The path of a stored file: its address under the storage root.
pub open spec fn stored_path_of(data_dir: Seq<char>, url: Seq<char>) -> Seq<char> {
    data_dir + "/"@ + url
}

/// The file to remove with a record: where the address is given and not
/// empty, the path under the storage root.
pub open spec fn path_to_remove(url: Option<String>, data_dir: Seq<char>) -> Option<Seq<char>> {
    match url {
        Some(u) => if u@.len() > 0 {
            Some(stored_path_of(data_dir, u@))
        } else {
            None
        },
        None => None,
    }
}

/// Whether an optional path is the path expected.
pub open spec fn path_is(p: Option<String>, expected: Option<Seq<char>>) -> bool {
    match (p, expected) {
        (Some(a), Some(b)) => a@ == b,
        (None, None) => true,
        _ => false,
    }
}

/// The error of a picture that does not exist: "id为:<id> 的图片或壁纸不存在!".
pub open spec fn missing_picture_message(id: u64) -> Seq<char> {
    "id为:"@ + digits(id as nat) + " 的图片或壁纸不存在!"@
}

/// What deleting a file's record removes: the record and, where it has an
/// address, the stored file.
#[derive(Clone, Debug)]
pub struct FileRemoval {
    pub id: u64,
    pub path: Option<String>,
}

/// What downloading a stored file sends: the file at `path`, under the
/// name that `disposition` gives.
#[derive(Clone, Debug)]
pub struct Download {
    pub path: String,
    pub disposition: String,
}

/// The path under the storage root of a record's address, where the address
/// is given and not empty.
pub fn removal_path(url: &Option<String>, data_dir: &str) -> (r: Option<String>)
    ensures
        path_is(r, path_to_remove(*url, data_dir@)),
{
    match url {
        Some(u) => {
            if u.as_str().unicode_len() > 0 {
                let mut p = String::from_str(data_dir);
                p.append("/");
                p.append(u.as_str());
                Some(p)
            } else {
                None
            }
        },
        None => None,
    }
}

/// The error of a picture that does not exist.
pub fn missing_picture(id: u64) -> (e: Error)
    ensures
        e.message() == missing_picture_message(id),
        e.code() == util::NOT_EXIST_CODE,
{
    let mut m = String::from_str("id为:");
    m.append(string_of(&digits_of(id)).as_str());
    m.append(" 的图片或壁纸不存在!");
    Error::E(m, util::NOT_EXIST_CODE)
}

impl OssService {
    /// The row that changes the status of the file `exist` of the caller
    /// `context` at `now`; id and status must be given, the caller known and
    /// the file found.
    pub fn files_update(
        arg: &FilesDTO,
        token_ok: bool,
        context: &Option<UserContext>,
        exist: &Option<Files>,
        now: String,
    ) -> (r: Result<Files, Error>)
        ensures
            !token_ok ==> (r matches Err(e) && e.code() == util::TOKEN_ERROR_CODE),
            token_ok && (arg.id is None || arg.status is None) ==> (r matches Err(e) && e.message()
                == "文件id不能为空!"@ && e.code() == util::NOT_PARAMETER_CODE),
            token_ok && arg.id is Some && arg.status is Some && context is None ==> (r matches Err(e)
                && e.code() == util::NOT_AUTHORIZE_CODE),
            token_ok && arg.id is Some && arg.status is Some && context is Some && exist is None ==> (r matches Err(
                e,
            ) && e.message() == missing_item_message(arg.id.unwrap(), "文件"@) && e.code()
                == util::NOT_EXIST_CODE),
            token_ok && arg.id is Some && arg.status is Some && context is Some && exist is Some ==> r
                == Ok::<Files, Error>(
                Files {
                    id: arg.id,
                    uid: None,
                    file_name: None,
                    file_url: None,
                    file_type: None,
                    organize: exist.unwrap().organize,
                    source: Some(context.unwrap().account),
                    status: arg.status,
                    create_time: None,
                    update_time: Some(now),
                },
            ),
    {
        if !token_ok {
            return Err(Error::from_code(util::TOKEN_ERROR_CODE));
        }
        let id = match (arg.id, arg.status) {
            (Some(id), Some(_)) => id,
            _ => {
                return Err(Error::with_code("文件id不能为空!", util::NOT_PARAMETER_CODE));
            },
        };
        let c = match context {
            Some(c) => c,
            None => {
                return Err(Error::from_code(util::NOT_AUTHORIZE_CODE));
            },
        };
        let f = match exist {
            Some(f) => f,
            None => {
                return Err(missing_item(id, "文件"));
            },
        };
        Ok(
            Files {
                id: arg.id,
                uid: None,
                file_name: None,
                file_url: None,
                file_type: None,
                organize: f.organize,
                source: Some(c.account.clone()),
                status: arg.status,
                create_time: None,
                update_time: Some(now),
            },
        )
    }

    /// What deleting the file `found` (the caller's organization's file
    /// that the request names) removes: its record, and its stored file
    /// where it has an address. The caller must be known and the file found.
    pub fn files_delete(
        token_ok: bool,
        context: &Option<UserContext>,
        found: &Option<Files>,
        data_dir: &str,
    ) -> (r: Result<FileRemoval, Error>)
        requires
            token_ok && context is Some && found is Some ==> found.unwrap().id is Some,
        ensures
            !token_ok ==> (r matches Err(e) && e.code() == util::TOKEN_ERROR_CODE),
            token_ok && context is None ==> (r matches Err(e) && e.code() == util::NOT_AUTHORIZE_CODE),
            token_ok && context is Some && found is None ==> (r matches Err(e) && e.message()
                == "删除文件失败!"@ && e.code() == util::CODE_FAIL),
            token_ok && context is Some && found is Some ==> (r matches Ok(d) && d.id == found.unwrap().id.unwrap()
                && path_is(d.path, path_to_remove(found.unwrap().file_url, data_dir@))),
    {
        if !token_ok {
            return Err(Error::from_code(util::TOKEN_ERROR_CODE));
        }
        if context.is_none() {
            return Err(Error::from_code(util::NOT_AUTHORIZE_CODE));
        }
        let f = match found {
            Some(f) => f,
            None => {
                return Err(Error::from_message("删除文件失败!"));
            },
        };
        let id = match f.id {
            Some(id) => id,
            None => 0,
        };
        Ok(FileRemoval { id, path: removal_path(&f.file_url, data_dir) })
    }

    /// The stored file that deleting the picture `id` removes, where the
    /// picture has an address; the caller must be known and the picture, of
    /// the caller's organization, found.
    pub fn picture_delete(id: u64, context: &Option<UserContext>, found: &Option<Pictures>, data_dir: &str) -> (r:
        Result<Option<String>, Error>)
        ensures
            context is None ==> (r matches Err(e) && e.code() == util::NOT_AUTHORIZE_CODE),
            context is Some && found is None ==> (r matches Err(e) && e.message() == missing_picture_message(id)
                && e.code() == util::NOT_EXIST_CODE),
            context is Some && found is Some ==> (r matches Ok(p) && path_is(
                p,
                path_to_remove(found.unwrap().web_url, data_dir@),
            )),
    {
        if context.is_none() {
            return Err(Error::from_code(util::NOT_AUTHORIZE_CODE));
        }
        match found {
            Some(p) => Ok(removal_path(&p.web_url, data_dir)),
            None => Err(missing_picture(id)),
        }
    }

    /// What downloading the file `found` sends: its stored file, under its
    /// name; nothing where the file is not found or has no address.
    pub fn files_download(found: &Option<Files>, data_dir: &str) -> (r: Option<Download>)
        requires
            found is Some && path_to_remove(found.unwrap().file_url, data_dir@) is Some ==> found.unwrap().file_name is Some,
        ensures
            match found {
                Some(f) => match path_to_remove(f.file_url, data_dir@) {
                    Some(p) => r matches Some(d) && d.path@ == p && d.disposition@
                        == "attachment;filename*=utf-8''"@ + f.file_name.unwrap()@,
                    None => r is None,
                },
                None => r is None,
            },
    {
        let f = match found {
            Some(f) => f,
            None => {
                return None;
            },
        };
        let path = match removal_path(&f.file_url, data_dir) {
            Some(p) => p,
            None => {
                return None;
            },
        };
        let mut disposition = String::from_str("attachment;filename*=utf-8''");
        match &f.file_name {
            Some(n) => disposition.append(n.as_str()),
            None => {},
        }
        Some(Download { path, disposition })
    }
}

impl OssService {
    /// The bytes of a picture's encoded body, as they are written to disk;
    /// `None` where the body is not valid base64.
    pub fn picture_bytes(body: &str) -> (r: Option<Vec<u8>>)
        ensures
            match r {
                Some(v) => base64_bytes(body@) == Some(v@),
                None => base64_bytes(body@) is None,
            },
    {
        decode_base64(body)
    }
}

/// What a field of an upload form is to the upload: the file, the `uid`
/// of a document, or a field the upload passes over.
#[derive(Clone, Copy, Debug, PartialEq, Eq)]
pub enum UploadField {
    /// The `file` field: its file is stored. A picture upload ends with the
    /// first one.
    File,
    /// The `uid` field of a document upload: its text is the document's uid.
    Uid,
    /// A field without a name, or with another: passed over.
    Skip,
}

impl OssService {
    /// What the field named `name` is to an upload; `reads_uid` says
    /// whether the upload takes a `uid` field (documents do, pictures not).
    pub fn upload_field(name: Option<&str>, reads_uid: bool) -> (r: UploadField)
        ensures
            name is Some && name.unwrap()@ == "file"@ ==> r == UploadField::File,
            name is Some && name.unwrap()@ == "uid"@ && reads_uid ==> r == UploadField::Uid,
            !(name is Some && name.unwrap()@ == "file"@) && !(name is Some && name.unwrap()@ == "uid"@
                && reads_uid) ==> r == UploadField::Skip,
    {
        proof {
            reveal_strlit("file");
            reveal_strlit("uid");
        }
        let n = match name {
            Some(n) => n,
            None => {
                return UploadField::Skip;
            },
        };
        let cs = chars_of(n);
        if cs.len() == 4 && has_prefix(&cs, "file") {
            assert(cs@ =~= "file"@);
            return UploadField::File;
        }
        if reads_uid && cs.len() == 3 && has_prefix(&cs, "uid") {
            assert(cs@ =~= "uid"@);
            return UploadField::Uid;
        }
        proof {
            if n@ == "file"@ {
                assert(cs@.take(4) =~= cs@);
            }
            if n@ == "uid"@ {
                assert(cs@.take(3) =~= cs@);
            }
        }
        UploadField::Skip
    }
}

} // verus!
