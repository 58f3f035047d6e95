use libherald::interface::users::{UsersEmitter, UsersList};
use libherald::signal::ModelCall;
use libherald::users::{color_of, status_of, UserData, UserStatus, Users, UsersUpdate};

fn data(id: &str) -> UserData {
    UserData {
        id: id.to_string(),
        name: format!("{} name", id),
        pairwise_conversation: [1; 32],
        profile_picture: None,
        color: 3,
        status: UserStatus::Active,
    }
}

fn users() -> Users {
    Users::new(UsersEmitter::new(1), UsersList::new(1), Some(vec![data("bob"), data("dan")]))
}

#[test]
fn users_are_added_in_id_order() {
    let mut u = users();
    assert_eq!(u.row_count(), 2);
    assert!(u.add(&data("carl"), true));
    assert_eq!(u.user_id(0), "bob");
    assert_eq!(u.user_id(1), "carl");
    assert_eq!(u.user_id(2), "dan");
    assert!(!u.add(&data("carl"), true));
    assert_eq!(u.row_count(), 3);
    assert_eq!(u.user_id(9), "");
}

#[test]
fn reading_failure_gives_an_empty_list() {
    let u = Users::new(UsersEmitter::new(1), UsersList::new(1), None);
    assert_eq!(u.row_count(), 0);
    assert_eq!(u.filter(), "");
    assert!(!u.filter_regex());
    assert!(u.matched(0));
}

#[test]
fn filtering_and_clearing() {
    let mut u = users();
    u.set_filter("b".to_string(), true, &vec![Some(true), Some(false)]);
    assert_eq!(u.filter(), "b");
    assert!(u.matched(0));
    assert!(!u.matched(1));
    u.clear_filter();
    assert!(u.matched(1));
    assert_eq!(u.filter(), "");
}

#[test]
fn an_uncached_user_ends_the_filter_pass() {
    let mut u = users();
    u.set_filter("z".to_string(), true, &vec![None, Some(false)]);
    assert!(u.matched(0));
    assert!(u.matched(1));
}

#[test]
fn regex_mode_follows_the_text() {
    let mut u = users();
    assert!(u.toggle_filter_regex(true, &vec![Some(true), Some(true)]));
    assert!(u.filter_regex());
    u.set_filter_regex(false, false, &vec![Some(true), Some(true)]);
    assert!(u.filter_regex());
}

#[test]
fn deleting_a_user_removes_the_row() {
    let mut u = users();
    assert!(!u.set_status(0, 7, true));
    assert!(!u.set_status(5, 2, true));
    assert!(!u.set_status(0, 2, false));
    assert!(u.set_status(0, 1, true));
    assert_eq!(u.row_count(), 2);
    assert!(u.set_status(0, 2, true));
    assert_eq!(u.row_count(), 1);
    assert_eq!(u.user_id(0), "dan");
}

#[test]
fn network_users_arrive_once() {
    let mut u = users();
    assert!(u.fetch_update(&UsersUpdate::NewUser(data("erin")), true));
    assert_eq!(u.row_count(), 3);
    assert!(!u.fetch_update(&UsersUpdate::NewUser(data("erin")), true));
    assert!(!u.fetch_update(&UsersUpdate::ReqResp("erin".to_string(), true), true));
    assert_eq!(u.row_count(), 3);
}

#[test]
fn cache_entries_are_updated() {
    let u = users();
    let named = u.set_name(0, Some(data("bob")), "Robert".to_string()).unwrap();
    assert_eq!(named.name, "Robert");
    assert!(u.set_name(0, None, "x".to_string()).is_none());
    assert!(u.set_name(4, Some(data("bob")), "x".to_string()).is_none());
    assert_eq!(u.set_color(1, Some(data("dan")), 9).unwrap().color, 9);
    let pic = u.set_profile_picture(0, Some(data("bob")), Some(Some("p.png".to_string()))).unwrap();
    assert_eq!(pic.profile_picture, Some("p.png".to_string()));
    assert!(u.set_profile_picture(0, Some(data("bob")), None).is_none());
    assert_eq!(u.name(0, None), "bob");
    assert_eq!(u.name(0, Some(&data("bob"))), "bob name");
    assert_eq!(color_of(None), 0);
    assert_eq!(color_of(Some(&data("x"))), 3);
    assert_eq!(status_of(Some(&data("x"))), 0);
    assert_eq!(UserStatus::try_from_code(2), Some(UserStatus::Deleted));
    assert_eq!(UserStatus::try_from_code(3), None);
}

#[test]
fn toggling_flips_the_mode_even_when_the_text_does_not_compile() {
    let mut u = users();
    u.set_filter("b".to_string(), true, &vec![Some(true), Some(false)]);
    assert!(u.toggle_filter_regex(false, &vec![Some(true), Some(true)]));
    assert!(u.filter_regex());
    assert_eq!(u.filter(), "");
    assert!(!u.toggle_filter_regex(true, &vec![Some(true), Some(true)]));
    assert!(!u.filter_regex());
}

#[test]
fn the_view_hears_of_each_row_the_filter_flips() {
    let mut u = users();
    let _ = u.model.take_calls();
    u.set_filter("b".to_string(), true, &vec![Some(true), Some(false)]);
    assert_eq!(u.model.take_calls(), vec![ModelCall::DataChanged { first: 1, last: 1 }]);
    u.clear_filter();
    assert_eq!(u.model.take_calls(), vec![ModelCall::DataChanged { first: 1, last: 1 }]);
    assert!(u.set_status(0, 2, true));
    assert_eq!(
        u.model.take_calls(),
        vec![ModelCall::BeginRemoveRows { first: 0, last: 0 }, ModelCall::EndRemoveRows]
    );
}
