use basable::config::{Config, Database, SourceType};
use basable::errors::AppError;
use basable::foundation::Basable;
use basable::table::TableConfig;
use basable::user::User;

fn mysql_config(host: &str, db_name: &str) -> Config {
    Config {
        source_type: SourceType::Database(Database::Mysql),
        host: host.to_owned(),
        db_name: db_name.to_owned(),
        username: "root".to_owned(),
    }
}

#[test]
fn guest_user_round_trip() {
    let mut registry = Basable::default();
    let session = registry.create_guest_user("1.2.3.4").expect("minting succeeds");
    assert_eq!(session.token, "jwt:1.2.3.4");
    let user = registry.find_user("1.2.3.4").expect("the guest is filed under its origin");
    assert_eq!(user.id, "1.2.3.4");
    assert!(!user.is_logged);
    assert!(user.saved_config.is_none());
}

#[test]
fn guest_user_with_empty_origin_fails() {
    let mut registry = Basable::default();
    let result = registry.create_guest_user("");
    assert_eq!(result.unwrap_err(), AppError::SessionError);
    assert!(registry.find_user("").is_none());
}

#[test]
fn find_user_unknown_is_none() {
    let registry = Basable::default();
    assert!(registry.find_user("nobody").is_none());
}

#[test]
fn log_user_out_removes_the_user() {
    let mut registry = Basable::default();
    registry.create_guest_user("1.2.3.4").unwrap();
    assert!(registry.find_user("1.2.3.4").is_some());
    registry.log_user_out("1.2.3.4");
    assert!(registry.find_user("1.2.3.4").is_none());
}

#[test]
fn log_user_out_on_missing_id_is_a_noop() {
    let mut registry = Basable::default();
    registry.create_guest_user("1.2.3.4").unwrap();
    registry.log_user_out("5.6.7.8");
    let kept = registry.find_user("1.2.3.4").expect("other users are untouched");
    assert_eq!(kept.id, "1.2.3.4");
}

#[test]
fn add_then_get_connection_round_trips() {
    let mut registry = Basable::default();
    let conn = Basable::create_connection(&mysql_config("localhost", "shop"))
        .unwrap()
        .unwrap();
    registry.add_connection("1.2.3.4".to_owned(), conn);
    assert!(registry.get_connection("1.2.3.4").is_some());
    // take the handle back out and check it is the very connection added
    let mut stored = registry.connections.remove("1.2.3.4").unwrap();
    let details = stored.details().unwrap();
    assert_eq!(details.driver, Database::Mysql);
    assert_eq!(details.host, "localhost");
    assert_eq!(details.db_name, "shop");
}

#[test]
fn get_connection_never_added_is_none() {
    let mut registry = Basable::default();
    assert!(registry.get_connection("1.2.3.4").is_none());
    let conn = Basable::create_connection(&mysql_config("localhost", "shop"))
        .unwrap()
        .unwrap();
    registry.add_connection("1.2.3.4".to_owned(), conn);
    // an id never passed to add_connection stays absent
    assert!(registry.get_connection("5.6.7.8").is_none());
}

#[test]
fn latest_added_connection_wins() {
    let mut registry = Basable::default();
    let first = Basable::create_connection(&mysql_config("localhost", "first_db"))
        .unwrap()
        .unwrap();
    let second = Basable::create_connection(&mysql_config("localhost", "second_db"))
        .unwrap()
        .unwrap();
    registry.add_connection("1.2.3.4".to_owned(), first);
    registry.add_connection("1.2.3.4".to_owned(), second);
    let mut stored = registry.connections.remove("1.2.3.4").unwrap();
    let details = stored.details().unwrap();
    assert_eq!(details.db_name, "second_db");
}

#[test]
fn save_config_for_missing_user_is_user_not_found() {
    let mut registry = Basable::default();
    let config = mysql_config("localhost", "shop");
    let result = registry.save_config(&config, "nobody");
    assert_eq!(result.unwrap_err(), AppError::UserNotFound);
}

#[test]
fn save_config_reaches_the_user() {
    let mut registry = Basable::default();
    registry.create_guest_user("1.2.3.4").unwrap();
    let config = mysql_config("db.example", "shop");
    registry.save_config(&config, "1.2.3.4").expect("the user exists");
    let user = registry.find_user("1.2.3.4").unwrap();
    let saved = user.saved_config.as_ref().expect("the configuration was received");
    assert_eq!(saved.host, "db.example");
    assert_eq!(saved.db_name, "shop");
    assert!(!user.is_logged);
}

#[test]
fn add_user_files_by_its_own_id() {
    let mut registry = Basable::default();
    registry.add_user(User {
        id: "alice".to_owned(),
        is_logged: true,
        saved_config: None,
    });
    let user = registry.find_user("alice").expect("filed under its own id");
    assert!(user.is_logged);
}

#[test]
fn add_user_replaces_an_earlier_entry() {
    let mut registry = Basable::default();
    registry.create_guest_user("1.2.3.4").unwrap();
    registry.add_user(User {
        id: "1.2.3.4".to_owned(),
        is_logged: true,
        saved_config: None,
    });
    let user = registry.find_user("1.2.3.4").unwrap();
    assert!(user.is_logged);
}

#[test]
fn replaced_connection_is_closed_and_saves_still_reach_the_new_one() {
    let mut registry = Basable::default();
    let mut first = Basable::create_connection(&mysql_config("localhost", "shop"))
        .unwrap()
        .unwrap();
    first.add_table(basable::table::BasableTable {
        name: "orders".to_owned(),
        row_count: 1,
        col_count: 1,
        created: None,
        updated: None,
    });
    registry.add_connection("1.2.3.4".to_owned(), first);
    let second = Basable::create_connection(&mysql_config("localhost", "fresh"))
        .unwrap()
        .unwrap();
    registry.add_connection("1.2.3.4".to_owned(), second);
    let stored = registry.get_connection("1.2.3.4").unwrap();
    assert!(stored.is_open());
    // the stored handle is the second one: the seeded catalogue is gone
    let mut taken = registry.connections.remove("1.2.3.4").unwrap();
    assert_eq!(taken.table_exists("orders"), Ok(false));
    let result = taken.save_table_config(
        "orders",
        TableConfig { payload: "unused".to_owned() },
        true,
    );
    assert_eq!(result.unwrap_err(), AppError::TableNotFound);
}
