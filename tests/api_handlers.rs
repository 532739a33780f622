use channel_builder::api_handlers::{
    gen_rand_str_unlike, token_from,
    AccountStage, AccountStep, CreateAccountFlow, InnerStatusReport, status_page, validate_new_account, validate_origin_or_referer,
    check_new_account, expect_empty, expect_string, expect_user_id, expect_validated,
    gen_large_rand_str, handle_rejection, retrieve_session_dat, session_cookie, AuthFlow,
    AuthStage, FlowStep, Rejections, RefreshFlow, RefreshStage,
};
use channel_builder::db::{Action, DBError, Db, NameOrID, Response};
use channel_builder::helpers::SessType;
use channel_builder::models::AuthForm;
use channel_builder::password_hash_version::{get_pw_ver, hash_pw};

fn s(x: &str) -> String {
    x.to_string()
}

#[test]
fn try_handle_rejection_dberror() {
    let rejection = Rejections::from(DBError::InvalidRowCount(5));
    let result = handle_rejection(false, Some(&rejection));
    let expected = (500u16, s("Internal Server Error: DB"));
    assert_eq!(expected, result);
}

#[test]
fn print_error() {
    let reject1 = Rejections::from(DBError::InvalidRowCount(10));
    let reject2 = Rejections::ErrorDBAPI(s("ValidateAccount"), Response::Bool(false));
    let reject3 = Rejections::from(DBError::OtherErr);

    println!("{:?}", reject1);
    println!("{:?}", reject2);
    println!("{:?}", reject3);
}

#[test]
fn rejection_replies() {
    assert_eq!((404u16, s("Not Found")), handle_rejection(true, None));
    assert_eq!((403u16, s("Forbidden")), handle_rejection(false, Some(&Rejections::InvalidSession)));
    assert_eq!((403u16, s("Forbidden")), handle_rejection(false, Some(&Rejections::InvalidPassword)));
    assert_eq!(
        (400u16, s("Bad Request")),
        handle_rejection(false, Some(&Rejections::InvalidOriginOrReferer))
    );
    assert_eq!(
        (500u16, s("Internal Server Error: INTERNAL")),
        handle_rejection(false, Some(&Rejections::ErrorInternal(s("x"))))
    );
    assert_eq!(
        (500u16, s("Internal Server Error: OTHER")),
        handle_rejection(false, Some(&Rejections::InvalidRefreshSessionType))
    );
    assert_eq!((500u16, s("Internal Server Error: OTHER")), handle_rejection(false, None));
}

#[test]
fn tokens_are_hex_and_distinct() {
    let a = gen_large_rand_str();
    let b = gen_large_rand_str();
    assert_eq!(64, a.len());
    assert!(a.chars().all(|c| c.is_ascii_digit() || ('A'..='F').contains(&c)));
    assert_ne!(a, b);
}

#[test]
fn cookie_values() {
    assert_eq!(
        "session=TOK; Max-Age=432000; SameSite=Lax",
        session_cookie(SessType::Frontend, "TOK")
    );
    assert_eq!(
        "roku_session=K2; Max-Age=31536000; SameSite=Lax",
        session_cookie(SessType::Roku, "K2")
    );
    assert_eq!("display_session", SessType::Display.get_session_cookie_name());
}

#[test]
fn session_gate() {
    assert!(matches!(
        retrieve_session_dat(s("K"), Ok(Response::ValidatedKey(true, 7))),
        Ok((k, 7)) if k == "K"
    ));
    assert!(matches!(
        retrieve_session_dat(s("K"), Ok(Response::ValidatedKey(false, 0))),
        Err(Rejections::InvalidSession)
    ));
    assert!(matches!(
        retrieve_session_dat(s("K"), Err(DBError::InvalidRowCount(0))),
        Err(Rejections::InvalidSession)
    ));
    assert!(matches!(
        retrieve_session_dat(s("K"), Ok(Response::Empty)),
        Err(Rejections::InvalidSession)
    ));
}

#[test]
fn reply_readers() {
    assert!(expect_empty("X", Ok(Response::Empty)).is_ok());
    assert!(matches!(expect_empty("X", Ok(Response::Bool(true))), Err(Rejections::ErrorDBAPI(n, Response::Bool(true))) if n == "X"));
    assert!(matches!(
        expect_empty("X", Err(DBError::EntryAlreadyExists)),
        Err(Rejections::ErrorFromDB(DBError::EntryAlreadyExists))
    ));
    assert!(matches!(expect_string("Y", Ok(Response::StringResp(s("d")))), Ok(d) if d == "d"));
    assert!(matches!(expect_string("Y", Ok(Response::Empty)), Err(Rejections::ErrorDBAPI(n, Response::Empty)) if n == "Y"));
    assert!(expect_validated(Ok(Response::Bool(true))).is_ok());
    assert!(matches!(expect_validated(Ok(Response::Bool(false))), Err(Rejections::ErrorDBAPI(_, Response::Bool(false)))));
    assert!(matches!(expect_user_id(Ok(Response::UserID(3))), Ok(3)));
    assert!(matches!(
        expect_user_id(Err(DBError::OtherErr)),
        Err(Rejections::ErrorFromDB(DBError::OtherErr))
    ));
}

#[test]
fn new_account_checks() {
    assert!(matches!(check_new_account(false, "long enough"), Err(Rejections::InvalidEmailAddr)));
    assert!(matches!(check_new_account(true, "short"), Err(Rejections::InvalidPassword)));
    assert!(check_new_account(true, "12345678").is_ok());
}

fn run_auth(db: &mut Db, t: SessType, user: &str, pw: &str) -> FlowStep {
    let (mut flow, mut action) =
        AuthFlow::start(t, AuthForm { username: s(user), password: s(pw) });
    loop {
        let reply = db.execute(action, 100);
        match flow.on_reply(reply) {
            FlowStep::Submit(next) => action = next,
            done => {
                assert_eq!(AuthStage::Finished, flow.stage);
                return done;
            }
        }
    }
}

fn registered_db(validated: bool) -> (Db, i32) {
    let mut db = Db::new();
    let hash = hash_pw("a@b.com", "secret password").unwrap();
    let id = match db.add_user(s("a@b.com"), hash, get_pw_ver(), s("CODE")) {
        Ok(Response::UserID(id)) => id,
        other => panic!("unexpected {:?}", other),
    };
    if validated {
        assert!(db.validate_account(s("CODE")).is_ok());
    }
    (db, id)
}

#[test]
fn authenticate_issues_recorded_key() {
    let (mut db, id) = registered_db(true);
    let key = match run_auth(&mut db, SessType::Roku, "a@b.com", "secret password") {
        FlowStep::Done(key) => key,
        other => panic!("unexpected {:?}", other),
    };
    assert_eq!(64, key.len());
    match db.validate_session_key(SessType::Roku, key, 200) {
        Ok(Response::ValidatedKey(true, uid)) => assert_eq!(id, uid),
        other => panic!("unexpected {:?}", other),
    }
}

#[test]
fn authenticate_refusals() {
    let (mut db, _) = registered_db(true);
    assert!(matches!(
        run_auth(&mut db, SessType::Frontend, "a@b.com", "wrong password"),
        FlowStep::Reject(Rejections::InvalidPassword)
    ));
    assert!(matches!(
        run_auth(&mut db, SessType::Frontend, "nobody@b.com", "secret password"),
        FlowStep::Reject(Rejections::InvalidUserNonValidated)
    ));
    let (mut db2, _) = registered_db(false);
    assert!(matches!(
        run_auth(&mut db2, SessType::Frontend, "a@b.com", "secret password"),
        FlowStep::Reject(Rejections::InvalidUserNonValidated)
    ));
    // no key was recorded by any refused attempt
    match db.execute(Action::GetStatusReport, 0) {
        Ok(Response::StatusReport(r)) => assert_eq!(0, r.add_session_key),
        other => panic!("unexpected {:?}", other),
    }
}

#[test]
fn authenticate_key_not_recorded() {
    let (mut flow, _) = AuthFlow::start(
        SessType::Frontend,
        AuthForm { username: s("a@b.com"), password: s("secret password") },
    );
    let hash = hash_pw("a@b.com", "secret password").unwrap();
    let step = flow.on_reply(Ok(Response::UserPassHash(hash, 1, true)));
    assert!(matches!(step, FlowStep::Submit(Action::AddSessKey { .. })));
    assert_eq!(AuthStage::AwaitKeyRecorded, flow.stage);
    assert!(matches!(
        flow.on_reply(Err(DBError::OtherErr)),
        FlowStep::Reject(Rejections::ErrorFromDB(DBError::OtherErr))
    ));
}

#[test]
fn refresh_device_session() {
    let (mut db, id) = registered_db(true);
    assert!(db.add_session_key(NameOrID::ID(id), SessType::Display, s("OLD"), 0).is_ok());
    let (mut flow, action) = RefreshFlow::start(SessType::Display, (s("OLD"), id)).unwrap();
    let new_key = flow.new_key.clone();
    let step = flow.on_reply(db.execute(action, 10));
    let logout = match step {
        FlowStep::Submit(a) => a,
        other => panic!("unexpected {:?}", other),
    };
    assert_eq!(RefreshStage::AwaitOldDeleted, flow.stage);
    assert!(matches!(flow.on_reply(db.execute(logout, 10)), FlowStep::Done(k) if k == new_key));
    assert!(matches!(
        db.validate_session_key(SessType::Display, s("OLD"), 20),
        Ok(Response::ValidatedKey(false, 0))
    ));
    assert!(matches!(
        db.validate_session_key(SessType::Display, new_key, 20),
        Ok(Response::ValidatedKey(true, uid)) if uid == id
    ));
}

#[test]
fn refresh_refuses_browser_class() {
    assert!(matches!(
        RefreshFlow::start(SessType::Frontend, (s("K"), 1)),
        Err(Rejections::InvalidRefreshSessionType)
    ));
}

#[test]
fn refresh_old_key_delete_is_best_effort() {
    let (mut flow, _) = RefreshFlow::start(SessType::Roku, (s("OLD"), 1)).unwrap();
    let new_key = flow.new_key.clone();
    assert!(matches!(flow.on_reply(Ok(Response::Empty)), FlowStep::Submit(_)));
    assert!(matches!(
        flow.on_reply(Err(DBError::OtherErr)),
        FlowStep::Done(k) if k == new_key
    ));
}

#[test]
fn origin_check() {
    let origins = vec![s("http://localhost:8080"), s("https://player.example")];
    assert!(validate_origin_or_referer("http://localhost:8080/page", &origins).is_ok());
    assert!(validate_origin_or_referer("https://player.example", &origins).is_ok());
    assert!(matches!(
        validate_origin_or_referer("http://localhost:808", &origins),
        Err(Rejections::InvalidOriginOrReferer)
    ));
    assert!(matches!(
        validate_origin_or_referer("http://evil.example", &vec![]),
        Err(Rejections::InvalidOriginOrReferer)
    ));
}

#[test]
fn new_account_address_check() {
    assert!(validate_new_account("a@b.com", "12345678").is_ok());
    assert!(matches!(validate_new_account("not an address", "12345678"), Err(Rejections::InvalidEmailAddr)));
    assert!(matches!(validate_new_account("a@b.com", "1234567"), Err(Rejections::InvalidPassword)));
}

#[test]
fn create_account_flow() {
    let mut db = Db::new();
    let (mut flow, mut action) =
        CreateAccountFlow::start(s("new@b.com"), s("HASH"), 1, s("REG"));
    let mut notices = 0;
    loop {
        let reply = db.execute(action, 0);
        match flow.on_reply(reply) {
            AccountStep::Submit(next) => action = next,
            AccountStep::Notify(reg) => {
                notices += 1;
                assert_eq!("new@b.com", reg.dest_addr);
                assert_eq!("REG", reg.reg_key);
                assert_eq!(AccountStage::AwaitNotified, flow.stage);
                match flow.notified() {
                    AccountStep::Submit(next) => action = next,
                    other => panic!("unexpected {:?}", other),
                }
            }
            AccountStep::Done => break,
            AccountStep::Reject(r) => panic!("unexpected {:?}", r),
        }
    }
    assert_eq!(1, notices);
    assert_eq!(AccountStage::Finished, flow.stage);
    match db.get_active_channel(flow.user_id) {
        Ok(Response::StringResp(d)) => assert_eq!("{\"entries\": []}", d),
        other => panic!("unexpected {:?}", other),
    }
    // the same name again is refused by the store
    let (mut again, action) = CreateAccountFlow::start(s("new@b.com"), s("H2"), 1, s("R2"));
    assert!(matches!(
        again.on_reply(db.execute(action, 0)),
        AccountStep::Reject(Rejections::ErrorFromDB(DBError::EntryAlreadyExists))
    ));
}

#[test]
fn api_counters_and_text() {
    let mut r = InnerStatusReport::new();
    r.record_authenticate(SessType::Roku);
    r.record_authenticate(SessType::Frontend);
    r.record_refresh(SessType::Display);
    r.record_validate_session(SessType::Display);
    r.record_logout(SessType::Frontend);
    r.record_get_active_channel(SessType::Roku);
    assert_eq!(2, r.authenticate);
    assert_eq!(1, r.authenticate_ro);
    assert_eq!(1, r.refresh_session_di);
    let text = r.summary();
    assert!(text.starts_with("API Handler Status Report:\n  Authentications: 2\n    Successful: 0\n    Frontend Auths: 1\n    Roku Auths: 1\n    Display Auths: 0\n"));
    assert!(text.contains("  Refresh Session: 1\n    Roku: 0\n    Display: 1\n"));
    assert!(text.contains("    Get Active: 1\n      Frontend: 0\n      Roku: 1\n      Display: 0\n"));
    assert!(text.ends_with("  Status Reports: 0\n"));
}

#[test]
fn status_page_text() {
    assert_eq!("Startup time: T\nVersion: V\nE\nD\nA", status_page("T", "V", "E", "D", "A"));
}

#[test]
fn token_rendering() {
    let t = token_from(0xAB, u128::MAX);
    assert_eq!(format!("{}AB{}", "0".repeat(30), "F".repeat(32)), t);
    assert_eq!("0".repeat(64), token_from(0, 0));
    assert_ne!(token_from(1, 0), token_from(0, 1));
}

#[test]
fn refresh_key_differs_from_old() {
    let old = gen_large_rand_str();
    let fresh = gen_rand_str_unlike(&old);
    assert_ne!(old, fresh);
    assert_eq!(64, fresh.len());
    let (flow, _) = RefreshFlow::start(SessType::Roku, (old.clone(), 1)).unwrap();
    assert_ne!(old, flow.new_key);
}
