use channel_builder::db::{allow_only_one, Action, DBError, Db, NameOrID, Response};
use channel_builder::helpers::SessType;

fn s(x: &str) -> String {
    x.to_string()
}

fn add_user(db: &mut Db, name: &str, code: &str) -> i32 {
    match db.execute(
        Action::AddUser { user: s(name), pass_hash: s("hash"), pass_hash_ver: 1, reg_key: s(code) },
        0,
    ) {
        Ok(Response::UserID(id)) => id,
        other => panic!("unexpected {:?}", other),
    }
}

fn validate_key(db: &mut Db, t: SessType, key: &str, now: i64) -> Result<Response, DBError> {
    db.execute(Action::ValidateSessKey { sess_type: t, sess_key: s(key) }, now)
}

#[test]
fn end_to_end_register_validate_login() {
    let mut db = Db::new();
    let id = add_user(&mut db, "a@b.com", "CODE1");
    assert!(matches!(
        db.execute(Action::ValidateAccount { val_code: s("CODE1") }, 10),
        Ok(Response::Bool(true))
    ));
    assert!(matches!(
        db.execute(
            Action::AddSessKey {
                user: NameOrID::Name(s("a@b.com")),
                sess_type: SessType::Frontend,
                sess_key: s("TOK1"),
            },
            20
        ),
        Ok(Response::Empty)
    ));
    match validate_key(&mut db, SessType::Frontend, "TOK1", 30) {
        Ok(Response::ValidatedKey(true, uid)) => assert_eq!(id, uid),
        other => panic!("unexpected {:?}", other),
    }
    match db.execute(Action::GetUserPassHash { user: s("a@b.com") }, 40) {
        Ok(Response::UserPassHash(h, v, valid)) => {
            assert_eq!("hash", h);
            assert_eq!(1, v);
            assert!(valid);
        }
        other => panic!("unexpected {:?}", other),
    }
}

#[test]
fn session_expiry_deletes_key() {
    // validating an unknown or deleted token answers (false, 0)
    for t in [SessType::Frontend, SessType::Roku, SessType::Display] {
        let mut db = Db::new();
        let id = add_user(&mut db, "u@x.org", "C");
        let created = 1_000;
        assert!(db
            .add_session_key(NameOrID::ID(id), t, s("K"), created)
            .is_ok());
        let max = t.max_age_secs();
        match validate_key(&mut db, t, "K", created + max - 1) {
            Ok(Response::ValidatedKey(true, uid)) => assert_eq!(id, uid),
            other => panic!("unexpected {:?}", other),
        }
        assert!(matches!(
            validate_key(&mut db, t, "K", created + max + 1),
            Ok(Response::ValidatedKey(false, 0))
        ));
        assert!(matches!(
            validate_key(&mut db, t, "K", created + max + 2),
            Ok(Response::ValidatedKey(false, 0))
        ));
    }
}

#[test]
fn session_key_classes_are_partitions() {
    let mut db = Db::new();
    let id = add_user(&mut db, "u@x.org", "C");
    assert!(db.add_session_key(NameOrID::ID(id), SessType::Roku, s("K"), 0).is_ok());
    assert!(matches!(
        validate_key(&mut db, SessType::Frontend, "K", 1),
        Ok(Response::ValidatedKey(false, 0))
    ));
    assert!(matches!(
        validate_key(&mut db, SessType::Roku, "K", 1),
        Ok(Response::ValidatedKey(true, _))
    ));
}

#[test]
fn two_keys_same_user_both_valid() {
    let mut db = Db::new();
    let id = add_user(&mut db, "u@x.org", "C");
    assert!(db.add_session_key(NameOrID::ID(id), SessType::Frontend, s("K1"), 0).is_ok());
    assert!(db
        .add_session_key(NameOrID::Name(s("u@x.org")), SessType::Frontend, s("K2"), 0)
        .is_ok());
    for k in ["K1", "K2", "K1"] {
        match validate_key(&mut db, SessType::Frontend, k, 5) {
            Ok(Response::ValidatedKey(true, uid)) => assert_eq!(id, uid),
            other => panic!("unexpected {:?}", other),
        }
    }
    assert!(matches!(
        db.execute(Action::LogoutSessKey { sess_type: SessType::Frontend, sess_key: s("K1") }, 6),
        Ok(Response::Empty)
    ));
    assert!(matches!(
        validate_key(&mut db, SessType::Frontend, "K1", 7),
        Ok(Response::ValidatedKey(false, 0))
    ));
    assert!(matches!(
        validate_key(&mut db, SessType::Frontend, "K2", 7),
        Ok(Response::ValidatedKey(true, _))
    ));
    // logging out a key that is not there is no error
    assert!(matches!(db.logout_session_key(SessType::Frontend, s("K1")), Ok(Response::Empty)));
}

#[test]
fn duplicate_session_key_is_ambiguous() {
    let mut db = Db::new();
    let id = add_user(&mut db, "u@x.org", "C");
    assert!(db.add_session_key(NameOrID::ID(id), SessType::Display, s("K"), 0).is_ok());
    assert!(db.add_session_key(NameOrID::ID(id), SessType::Display, s("K"), 0).is_ok());
    assert_eq!(
        Err(DBError::InvalidRowCount(2)),
        validate_key(&mut db, SessType::Display, "K", 1).map(|_| ())
    );
}

#[test]
fn add_session_key_unknown_user() {
    let mut db = Db::new();
    assert_eq!(
        Err(DBError::InvalidRowCount(0)),
        db.add_session_key(NameOrID::Name(s("nobody")), SessType::Frontend, s("K"), 0)
            .map(|_| ())
    );
}

#[test]
fn create_channel_list_twice() {
    let mut db = Db::new();
    assert!(matches!(db.create_channel_list(1, s("A")), Ok(Response::Empty)));
    assert_eq!(
        Err(DBError::EntryAlreadyExists),
        db.create_channel_list(1, s("A")).map(|_| ())
    );
    assert!(matches!(db.create_channel_list(2, s("A")), Ok(Response::Empty)));
}

#[test]
fn validate_account_row_counts() {
    let mut db = Db::new();
    assert_eq!(
        Err(DBError::InvalidRowCount(0)),
        db.validate_account(s("NOPE")).map(|_| ())
    );
    add_user(&mut db, "a@x.org", "ONE");
    assert!(matches!(db.validate_account(s("ONE")), Ok(Response::Bool(true))));
    // the code is cleared once used
    assert_eq!(
        Err(DBError::InvalidRowCount(0)),
        db.validate_account(s("ONE")).map(|_| ())
    );
    add_user(&mut db, "b@x.org", "SAME");
    add_user(&mut db, "c@x.org", "SAME");
    assert_eq!(
        Err(DBError::InvalidRowCount(2)),
        db.validate_account(s("SAME")).map(|_| ())
    );
}

#[test]
fn lookups_report_at_most_the_limit() {
    let mut db = Db::new();
    for n in ["a", "b", "c", "d", "e", "f", "g"] {
        add_user(&mut db, n, "X");
    }
    assert_eq!(
        Err(DBError::InvalidRowCount(5)),
        db.validate_account(s("X")).map(|_| ())
    );
}

#[test]
fn add_user_name_taken() {
    let mut db = Db::new();
    assert_eq!(1, add_user(&mut db, "a@x.org", "C1"));
    assert_eq!(
        Err(DBError::EntryAlreadyExists),
        db.add_user(s("a@x.org"), s("h"), 1, s("C2")).map(|_| ())
    );
    assert_eq!(2, add_user(&mut db, "b@x.org", "C2"));
}

#[test]
fn channel_list_crud() {
    let mut db = Db::new();
    let id = add_user(&mut db, "a@x.org", "C");
    assert!(db.create_channel_list(id, s("First")).is_ok());
    assert!(db.create_channel_list(id, s("Second")).is_ok());
    assert!(db.create_channel_list(id + 1, s("Other")).is_ok());
    match db.get_channel_list(id, s("First")) {
        Ok(Response::StringResp(d)) => assert_eq!("{\"entries\": []}", d),
        other => panic!("unexpected {:?}", other),
    }
    assert!(matches!(
        db.set_channel_list(id, s("First"), s("{\"entries\": [1]}")),
        Ok(Response::Empty)
    ));
    match db.get_channel_list(id, s("First")) {
        Ok(Response::StringResp(d)) => assert_eq!("{\"entries\": [1]}", d),
        other => panic!("unexpected {:?}", other),
    }
    assert_eq!(
        Err(DBError::InvalidRowCount(0)),
        db.set_channel_list(id, s("Missing"), s("x")).map(|_| ())
    );
    match db.get_channel_lists(id) {
        Ok(Response::StringResp(j)) => assert_eq!("[\"First\",\"Second\"]", j),
        other => panic!("unexpected {:?}", other),
    }
    match db.get_channel_lists(99) {
        Ok(Response::StringResp(j)) => assert_eq!("[]", j),
        other => panic!("unexpected {:?}", other),
    }
}

#[test]
fn active_channel() {
    let mut db = Db::new();
    let id = add_user(&mut db, "a@x.org", "C");
    assert!(db.create_channel_list(id, s("First")).is_ok());
    assert!(db.create_channel_list(id, s("Second")).is_ok());
    assert_eq!(Err(DBError::InvalidRowCount(0)), db.get_active_channel(id).map(|_| ()));
    assert!(db.set_channel_list(id, s("Second"), s("two")).is_ok());
    assert!(matches!(db.set_active_channel(id, s("Second")), Ok(Response::Empty)));
    match db.get_active_channel(id) {
        Ok(Response::StringResp(d)) => assert_eq!("two", d),
        other => panic!("unexpected {:?}", other),
    }
    assert_eq!(
        Err(DBError::InvalidRowCount(0)),
        db.set_active_channel(id, s("Missing")).map(|_| ())
    );
    assert!(db.create_channel_list(77, s("Orphan")).is_ok());
    assert_eq!(
        Err(DBError::InvalidRowCount(0)),
        db.set_active_channel(77, s("Orphan")).map(|_| ())
    );
}

#[test]
fn status_report_counts() {
    let mut db = Db::new();
    add_user(&mut db, "a@x.org", "C");
    assert!(db.add_user(s("a@x.org"), s("h"), 1, s("D")).is_err());
    assert!(db.validate_account(s("C")).is_ok());
    match db.execute(Action::GetStatusReport, 0) {
        Ok(Response::StatusReport(r)) => {
            assert_eq!(2, r.add_user);
            assert_eq!(1, r.add_user_success);
            assert_eq!(1, r.validate_account);
            assert_eq!(1, r.validate_acct_success);
            assert_eq!(1, r.get_status_report);
        }
        other => panic!("unexpected {:?}", other),
    }
    match db.execute(Action::GetStatusReport, 0) {
        Ok(Response::StatusReport(r)) => assert_eq!(2, r.get_status_report),
        other => panic!("unexpected {:?}", other),
    }
}

#[test]
fn shutdown_stops_the_store() {
    let mut db = Db::new();
    assert!(matches!(db.execute(Action::Shutdown, 0), Ok(Response::Shutdown)));
    assert_eq!(
        Err(DBError::ThreadResponseFailure),
        db.execute(Action::GetStatusReport, 0).map(|_| ())
    );
    assert_eq!(
        Err(DBError::ThreadResponseFailure),
        db.please(Action::GetStatusReport).map(|_| ())
    );
}

#[test]
fn please_uses_the_clock() {
    let mut db = Db::new();
    let id = add_user(&mut db, "a@x.org", "C");
    assert!(db
        .please(Action::AddSessKey {
            user: NameOrID::ID(id),
            sess_type: SessType::Frontend,
            sess_key: s("K"),
        })
        .is_ok());
    assert!(matches!(
        db.please(Action::ValidateSessKey { sess_type: SessType::Frontend, sess_key: s("K") }),
        Ok(Response::ValidatedKey(true, _))
    ));
}

#[test]
fn allow_only_one_counts() {
    assert_eq!(Ok(()), allow_only_one(1));
    assert_eq!(Err(DBError::InvalidRowCount(0)), allow_only_one(0));
    assert_eq!(Err(DBError::InvalidRowCount(3)), allow_only_one(3));
}

#[test]
fn store_report_text() {
    let mut db = Db::new();
    add_user(&mut db, "a@x.org", "C");
    let text = match db.get_status_report() {
        Ok(Response::StatusReport(r)) => r.summary(),
        other => panic!("unexpected {:?}", other),
    };
    assert_eq!(
        "Database status report:\n  Add User: 1\n    Success: 1\n  Validate User: 0\n    Success: 0\n  Add Session Key: 0\n    Success: 0\n  Validate Session Key: 0\n    Success: 0\n  Logout: 0\n  Get User and Pass Hash: 0\n  Channel List:\n    List them: 0\n    Get: 0\n    Set: 0\n    Create: 0\n    Get Active: 0\n    Set Active: 0\n  Status Reports: 1",
        text
    );
}

#[test]
fn unknown_token_is_not_valid() {
    let mut db = Db::new();
    assert!(matches!(
        validate_key(&mut db, SessType::Frontend, "NEVER", 0),
        Ok(Response::ValidatedKey(false, 0))
    ));
}

#[test]
fn active_channel_follows_set_data() {
    let mut db = Db::new();
    let id = add_user(&mut db, "a@x.org", "C");
    assert!(db.create_channel_list(id, s("A")).is_ok());
    assert!(db.set_active_channel(id, s("A")).is_ok());
    assert!(db.set_channel_list(id, s("A"), s("new data")).is_ok());
    match db.get_active_channel(id) {
        Ok(Response::StringResp(d)) => assert_eq!("new data", d),
        other => panic!("unexpected {:?}", other),
    }
}
