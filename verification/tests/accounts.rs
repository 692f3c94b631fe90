use home_cloud::entity::domain::primary_database_tables::User;
use home_cloud::entity::dto::resource::ResourceDTO;
use home_cloud::entity::dto::sign_in::SignInDTO;
use home_cloud::entity::dto::user::UserDTO;
use home_cloud::entity::vo::jwt::JWTToken;
use home_cloud::error::Error;
use home_cloud::service::log_service::LogService;
use home_cloud::service::resource_service::ResourceService;
use home_cloud::service::system_service::SystemService;
use home_cloud::service::user_service::UserService;
use home_cloud::util;

fn code_of(e: &Error) -> (String, i32) {
    match e {
        Error::E(m, c) => (m.clone(), *c),
    }
}

fn stored(state: Option<u32>) -> User {
    User {
        account: Some("frank".to_string()),
        name: Some("Frank".to_string()),
        password: Some("h".to_string()),
        sex: None,
        qq: None,
        email: None,
        phone: None,
        birthday: None,
        hometown: None,
        autograph: None,
        logo: None,
        background: None,
        organize_id: Some(4),
        state,
        create_time: Some("c".to_string()),
        update_time: None,
    }
}

fn request() -> UserDTO {
    UserDTO {
        account: Some("frank".to_string()),
        name: Some("F".to_string()),
        password: Some("pw".to_string()),
        sex: None,
        qq: None,
        email: Some("f@x".to_string()),
        phone: Some("3".to_string()),
        birthday: None,
        hometown: None,
        autograph: None,
        logo: None,
        background: None,
        organize_id: Some(4),
        state: Some(1),
        token: None,
    }
}

#[test]
fn first_account_service() {
    let s = UserService {};
    let enc = |p: String| format!("enc:{}", p);
    let u = s.add(&request(), false, enc, "now".to_string()).unwrap();
    assert_eq!(u.password, Some("enc:pw".to_string()));
    let mut no_password = request();
    no_password.password = Some(String::new());
    let d = s.add(&no_password, false, enc, "now".to_string()).unwrap();
    assert_eq!(d.password, Some("enc:123456".to_string()));
    assert_eq!(code_of(&s.add(&request(), true, enc, "n".to_string()).unwrap_err()).0, "账户:frank已存在!");
    let arg = SignInDTO { account: Some("frank".to_string()), password: Some("pw".to_string()) };
    assert_eq!(code_of(&s.login(&arg, &Some(stored(Some(1))), false).unwrap_err()).0, "密码不正确!");
    assert_eq!(code_of(&s.login(&arg, &None, true).unwrap_err()), ("账号:frank 不存在!".to_string(), util::CODE_FAIL));
    assert!(s.login(&arg, &Some(stored(Some(1))), true).is_ok());
    let e = s.edit(&request(), &None, enc, "n".to_string()).unwrap_err();
    assert_eq!(code_of(&e).0, "用户:frank 不存在!");
    let edited = s.edit(&request(), &Some(stored(Some(1))), enc, "n".to_string()).unwrap();
    assert_eq!(edited.password, Some("enc:pw".to_string()));
    assert_eq!(code_of(&s.detail(&request(), &None).unwrap_err()).0, "用户:frank 不存在！");
    assert_eq!(code_of(&s.remove("").unwrap_err()).0, "account 不能为空！");
}

#[test]
fn sign_in_token_holds_the_user() {
    let s = UserService {};
    let v = s.get_user_info(&stored(Some(1)), "9.9.9.9".to_string(), 4102444800, "key").unwrap();
    assert!(v.user.as_ref().unwrap().password.is_none());
    let claims = JWTToken::verify_at("key", &v.access_token, 4102444800).unwrap();
    assert_eq!(claims.account, "frank");
    assert_eq!(claims.organize, 4);
    assert_eq!(claims.ip, "9.9.9.9");
    assert_eq!(claims.city, "云南西双版纳");
    let refused: Result<JWTToken, Error> = Err(Error::from_message("access_token is invalid!"));
    assert_eq!(code_of(&s.get_user_info_by_token(&refused, &None).unwrap_err()).0, "access_token is invalid!");
}

#[test]
fn password_check_is_not_offered() {
    let arg = SignInDTO { account: None, password: None };
    assert_eq!(code_of(&SystemService {}.check_password(&arg).unwrap_err()).0, "方法未实现!");
}

#[test]
fn resource_records() {
    let arg = ResourceDTO {
        id: None,
        name: Some("a".to_string()),
        suffix: Some("pdf".to_string()),
        size: Some(10),
        del: None,
        create_user: None,
        create_time: None,
    };
    let r = ResourceService {}.add(&arg, "now".to_string()).unwrap();
    assert_eq!(r.del, Some(0));
    assert_eq!(r.create_user, Some("saya".to_string()));
    let e = ResourceService {}.add(&ResourceDTO { size: None, ..arg }, "now".to_string()).unwrap_err();
    assert_eq!(code_of(&e).0, "文件名和文件类型不能为空!");
}

#[test]
fn log_page_scope_and_empty_pages() {
    let named = Some(vec!["a".to_string()]);
    let none: Result<JWTToken, Error> = Err(Error::from_message("x"));
    assert_eq!(LogService::page_scope(&named, &none).unwrap(), vec!["a".to_string()]);
    assert_eq!(code_of(&LogService::page_scope(&Some(vec![]), &none).unwrap_err()).0, "获取用户信息失败");
    let holder: Result<JWTToken, Error> = Ok(JWTToken {
        account: "g".to_string(),
        name: "G".to_string(),
        organize: 1,
        ip: "i".to_string(),
        city: "c".to_string(),
        exp: 0,
    });
    assert_eq!(LogService::page_scope(&None, &holder).unwrap(), vec!["g".to_string()]);
    assert_eq!(
        code_of(&LogService::no_rows(0).unwrap_err()),
        ("未查询到符合条件的数据".to_string(), util::NOT_EXIST_CODE)
    );
    assert!(LogService::no_rows(3).is_ok());
}
