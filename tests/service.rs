use std::collections::HashMap;

use user_service::create::{create_user, plan_create_with_id, CreatePlan};
use user_service::http::{
    create_status, error_status, list_status, root, STATUS_CREATED, STATUS_OK, STATUS_SERVER_ERROR,
    STATUS_UNPROCESSABLE,
};
use user_service::list::{get_users, ListSession, ListStage, ListStep, LIST_LIMIT};
use user_service::user::{StoreFault, User, UserError};

fn is_v4_text(s: &str) -> bool {
    let b = s.as_bytes();
    if b.len() != 36 {
        return false;
    }
    for (i, c) in b.iter().enumerate() {
        let ok = if i == 8 || i == 13 || i == 18 || i == 23 {
            *c == b'-'
        } else {
            c.is_ascii_digit() || (b'a'..=b'f').contains(c)
        };
        if !ok {
            return false;
        }
    }
    b[14] == b'4' && matches!(b[19], b'8' | b'9' | b'a' | b'b')
}

/// Plays the part of the store for a listing: enumeration in the map's key
/// order as given, and fetches from the map.
fn run_listing(
    limit: usize,
    enumerated: &[&str],
    store: &HashMap<String, String>,
    fetches: &mut Vec<String>,
) -> Result<Vec<User>, UserError> {
    let (mut session, step) = ListSession::start(limit);
    let mut step = match step {
        ListStep::EnumerateKeys(n) => {
            assert_eq!(n, limit);
            session.on_keys(Ok(enumerated.iter().map(|k| k.to_string()).collect()))
        }
        other => panic!("unexpected first step {:?}", other),
    };
    loop {
        match step {
            ListStep::Fetch(key) => {
                fetches.push(key.clone());
                let reply = store.get(&key).cloned().ok_or(StoreFault::CallFailed);
                step = session.on_value(reply);
            }
            ListStep::Done(r) => {
                assert_eq!(session.stage(), ListStage::Finished);
                return r;
            }
            ListStep::EnumerateKeys(_) => panic!("enumeration asked twice"),
        }
    }
}

fn apply(store: &mut HashMap<String, String>, plan: &CreatePlan) {
    store.insert(plan.set.key.clone(), plan.set.value.clone());
}

#[test]
fn create_without_username_is_refused_before_any_store_call() {
    let r = create_user(None);
    assert!(matches!(r, Err(UserError::ClientInput)));
    assert_eq!(error_status(UserError::ClientInput), STATUS_UNPROCESSABLE);
}

#[test]
fn create_draws_a_v4_identifier_and_writes_the_username_under_it() {
    let plan = create_user(Some("alice".to_string())).unwrap();
    assert!(is_v4_text(&plan.user.id), "{}", plan.user.id);
    assert_eq!(plan.user.username, "alice");
    assert_eq!(plan.set.key, plan.user.id);
    assert_eq!(plan.set.value, "alice");
}

#[test]
fn creates_with_identical_usernames_get_distinct_identifiers() {
    let mut store = HashMap::new();
    let mut plans = Vec::new();
    for name in ["bob", "bob", "carol", "bob"] {
        let plan = create_user(Some(name.to_string())).unwrap();
        apply(&mut store, &plan);
        plans.push(plan);
    }
    for i in 0..plans.len() {
        for j in 0..plans.len() {
            if i != j {
                assert_ne!(plans[i].user.id, plans[j].user.id);
            }
        }
    }
    for (plan, name) in plans.iter().zip(["bob", "bob", "carol", "bob"]) {
        assert_eq!(store.get(&plan.user.id).map(|s| s.as_str()), Some(name));
    }
}

#[test]
fn plan_with_given_identifier() {
    let plan = plan_create_with_id(Some("dave".to_string()), "k1".to_string()).unwrap();
    assert_eq!(plan.user.id, "k1");
    assert_eq!(plan.user.username, "dave");
    assert_eq!(plan.set.key, "k1");
    assert_eq!(plan.set.value, "dave");
    assert!(matches!(plan_create_with_id(None, "k1".to_string()), Err(UserError::ClientInput)));
}

#[test]
fn empty_username_is_accepted() {
    let plan = plan_create_with_id(Some(String::new()), "k".to_string()).unwrap();
    assert_eq!(plan.user.username, "");
}

#[test]
fn finished_write_returns_the_user() {
    let plan = plan_create_with_id(Some("erin".to_string()), "k2".to_string()).unwrap();
    let user = plan.finish(Ok(())).unwrap();
    assert_eq!(user.id, "k2");
    assert_eq!(user.username, "erin");
    assert_eq!(create_status(&Ok(user)), STATUS_CREATED);
}

#[test]
fn failed_write_is_a_write_error() {
    let plan = plan_create_with_id(Some("erin".to_string()), "k2".to_string()).unwrap();
    let r = plan.finish(Err(StoreFault::CallFailed));
    assert!(matches!(r, Err(UserError::StoreWrite)));
    assert_eq!(create_status(&r), STATUS_SERVER_ERROR);
}

#[test]
fn write_without_connection_is_unavailable() {
    let plan = plan_create_with_id(Some("erin".to_string()), "k2".to_string()).unwrap();
    let r = plan.finish(Err(StoreFault::NoConnection));
    assert!(matches!(r, Err(UserError::StoreUnavailable)));
    assert_eq!(create_status(&r), STATUS_SERVER_ERROR);
}

#[test]
fn listing_fetches_each_key_in_enumeration_order() {
    let mut store = HashMap::new();
    store.insert("a".to_string(), "ann".to_string());
    store.insert("b".to_string(), "ben".to_string());
    store.insert("c".to_string(), "cid".to_string());
    let mut fetches = Vec::new();
    let users = run_listing(10, &["c", "a", "b"], &store, &mut fetches).unwrap();
    assert_eq!(fetches, vec!["c", "a", "b"]);
    let pairs: Vec<(&str, &str)> = users.iter().map(|u| (u.id.as_str(), u.username.as_str())).collect();
    assert_eq!(pairs, vec![("c", "cid"), ("a", "ann"), ("b", "ben")]);
}

#[test]
fn listing_stops_at_the_limit_when_the_store_enumerates_more() {
    let mut store = HashMap::new();
    let keys: Vec<String> = (0..12).map(|i| format!("k{}", i)).collect();
    for k in &keys {
        store.insert(k.clone(), format!("user-{}", k));
    }
    let refs: Vec<&str> = keys.iter().map(|k| k.as_str()).collect();
    let mut fetches = Vec::new();
    let users = run_listing(LIST_LIMIT, &refs, &store, &mut fetches).unwrap();
    assert_eq!(users.len(), 10);
    assert_eq!(fetches.len(), 10);
    assert_eq!(users[9].id, "k9");
    assert_eq!(users[9].username, "user-k9");
}

#[test]
fn listing_with_limit_zero_is_empty() {
    let mut store = HashMap::new();
    store.insert("a".to_string(), "ann".to_string());
    let mut fetches = Vec::new();
    let users = run_listing(0, &["a"], &store, &mut fetches).unwrap();
    assert!(users.is_empty());
    assert!(fetches.is_empty());
}

#[test]
fn listing_of_an_empty_store_is_empty() {
    let store = HashMap::new();
    let mut fetches = Vec::new();
    let r = run_listing(LIST_LIMIT, &[], &store, &mut fetches);
    assert!(r.as_ref().unwrap().is_empty());
    assert_eq!(list_status(&r), STATUS_OK);
}

#[test]
fn one_failed_fetch_fails_the_whole_listing() {
    let mut store = HashMap::new();
    store.insert("a".to_string(), "ann".to_string());
    store.insert("c".to_string(), "cid".to_string());
    let mut fetches = Vec::new();
    let r = run_listing(10, &["a", "gone", "c"], &store, &mut fetches);
    assert!(matches!(r, Err(UserError::StoreRead)));
    assert_eq!(fetches, vec!["a", "gone"]);
    assert_eq!(list_status(&r), STATUS_SERVER_ERROR);
}

#[test]
fn failed_enumeration_is_a_read_error() {
    let (mut session, _) = ListSession::start(10);
    let step = session.on_keys(Err(StoreFault::CallFailed));
    assert!(matches!(step, ListStep::Done(Err(UserError::StoreRead))));
    assert_eq!(session.stage(), ListStage::Finished);
}

#[test]
fn enumeration_without_connection_is_unavailable() {
    let (mut session, _) = ListSession::start(10);
    let step = session.on_keys(Err(StoreFault::NoConnection));
    assert!(matches!(step, ListStep::Done(Err(UserError::StoreUnavailable))));
}

#[test]
fn listing_session_steps() {
    let (mut session, step) = get_users();
    assert!(matches!(step, ListStep::EnumerateKeys(10)));
    assert_eq!(session.limit(), 10);
    assert_eq!(session.stage(), ListStage::AwaitingKeys);
    let step = session.on_keys(Ok(vec!["x".to_string(), "y".to_string()]));
    assert!(matches!(&step, ListStep::Fetch(k) if k == "x"));
    assert_eq!(session.stage(), ListStage::Fetching);
    let step = session.on_value(Ok("xena".to_string()));
    assert!(matches!(&step, ListStep::Fetch(k) if k == "y"));
    match session.on_value(Ok("yuri".to_string())) {
        ListStep::Done(Ok(users)) => {
            assert_eq!(users.len(), 2);
            assert_eq!((users[0].id.as_str(), users[0].username.as_str()), ("x", "xena"));
            assert_eq!((users[1].id.as_str(), users[1].username.as_str()), ("y", "yuri"));
        }
        other => panic!("unexpected step {:?}", other),
    }
}

#[test]
fn created_user_appears_in_a_listing_that_covers_its_key() {
    let mut store = HashMap::new();
    store.insert("old".to_string(), "olga".to_string());
    let plan = create_user(Some("uma".to_string())).unwrap();
    apply(&mut store, &plan);
    let user = plan.finish(Ok(())).unwrap();
    let mut fetches = Vec::new();
    let users = run_listing(10, &["old", user.id.as_str()], &store, &mut fetches).unwrap();
    assert!(users.iter().any(|u| u.id == user.id && u.username == "uma"));
}

#[test]
fn end_to_end_create_then_list_alice() {
    let mut store = HashMap::new();
    let plan = create_user(Some("alice".to_string())).unwrap();
    apply(&mut store, &plan);
    let created = plan.finish(Ok(()));
    assert_eq!(create_status(&created), 201);
    let created = created.unwrap();
    assert!(is_v4_text(&created.id));
    assert_eq!(created.username, "alice");
    let enumerated: Vec<&str> = store.keys().map(|k| k.as_str()).collect();
    let mut fetches = Vec::new();
    let listed = run_listing(LIST_LIMIT, &enumerated, &store, &mut fetches);
    assert_eq!(list_status(&listed), 200);
    let listed = listed.unwrap();
    assert!(listed.iter().any(|u| u.id == created.id && u.username == "alice"));
}

#[test]
fn root_says_hello() {
    assert_eq!(root(), "Hello, World!");
}

#[test]
fn every_store_error_is_a_server_error() {
    assert_eq!(error_status(UserError::StoreUnavailable), STATUS_SERVER_ERROR);
    assert_eq!(error_status(UserError::StoreWrite), STATUS_SERVER_ERROR);
    assert_eq!(error_status(UserError::StoreRead), STATUS_SERVER_ERROR);
    assert_eq!(StoreFault::CallFailed.read_error(), UserError::StoreRead);
    assert_eq!(StoreFault::CallFailed.write_error(), UserError::StoreWrite);
    assert_eq!(StoreFault::NoConnection.read_error(), UserError::StoreUnavailable);
    let u = User::new("i".to_string(), "n".to_string());
    assert_eq!((u.id.as_str(), u.username.as_str()), ("i", "n"));
}
