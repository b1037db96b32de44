use basable::config::{Config, Database, SourceType};
use basable::errors::AppError;
use basable::foundation::Basable;
use basable::table::{BasableTable, TableConfig};

fn mysql_config(host: &str, db_name: &str) -> Config {
    Config {
        source_type: SourceType::Database(Database::Mysql),
        host: host.to_owned(),
        db_name: db_name.to_owned(),
        username: "root".to_owned(),
    }
}

fn table(name: &str, rows: u32, cols: u32) -> BasableTable {
    BasableTable {
        name: name.to_owned(),
        row_count: rows,
        col_count: cols,
        created: Some("2024-01-01".to_owned()),
        updated: None,
    }
}

#[test]
fn mysql_connection_details_reflect_config() {
    let config = mysql_config("localhost", "shop");
    let mut conn = Basable::create_connection(&config)
        .expect("supported config must connect")
        .expect("the mysql path always needs a connection");
    let details = conn.details().expect("details on a live connection succeed");
    assert_eq!(details.driver, Database::Mysql);
    assert_eq!(details.host, "localhost");
    assert_eq!(details.db_name, "shop");
}

#[test]
fn unsupported_postgres_reports_unsupported_source() {
    let mut registry = Basable::default();
    let config = Config {
        source_type: SourceType::Database(Database::Postgres),
        host: "localhost".to_owned(),
        db_name: "shop".to_owned(),
        username: "root".to_owned(),
    };
    let result = Basable::create_connection(&config);
    assert_eq!(result.unwrap_err(), AppError::UnsupportedSource);
    // the registry is unchanged: nothing was filed for any id
    assert!(registry.get_connection("localhost").is_none());
    registry.add_user(basable::user::User {
        id: "probe".to_owned(),
        is_logged: false,
        saved_config: None,
    });
    assert!(registry.get_connection("probe").is_none());
}

#[test]
fn unsupported_file_source_reports_unsupported_source() {
    let config = Config {
        source_type: SourceType::File,
        host: "localhost".to_owned(),
        db_name: "shop".to_owned(),
        username: "root".to_owned(),
    };
    assert_eq!(
        Basable::create_connection(&config).unwrap_err(),
        AppError::UnsupportedSource
    );
}

#[test]
fn empty_host_is_a_connection_error() {
    let config = mysql_config("", "shop");
    assert_eq!(
        Basable::create_connection(&config).unwrap_err(),
        AppError::ConnectionError
    );
}

#[test]
fn load_tables_on_empty_backend_is_success_and_empty() {
    let config = mysql_config("localhost", "empty_db");
    let mut conn = Basable::create_connection(&config).unwrap().unwrap();
    let tables = conn.load_tables().expect("zero tables is a success, not an error");
    assert!(tables.is_empty());
}

#[test]
fn load_tables_returns_the_seeded_catalogue() {
    let config = mysql_config("localhost", "shop");
    let mut conn = Basable::create_connection(&config).unwrap().unwrap();
    conn.add_table(table("orders", 42, 7));
    conn.add_table(table("customers", 3, 5));
    let tables = conn.load_tables().unwrap();
    assert_eq!(tables.len(), 2);
    assert_eq!(tables[0].name, "orders");
    assert_eq!(tables[0].row_count, 42);
    assert_eq!(tables[0].col_count, 7);
    assert_eq!(tables[0].created.as_deref(), Some("2024-01-01"));
    assert_eq!(tables[0].updated, None);
    assert_eq!(tables[1].name, "customers");
}

#[test]
fn table_exists_reports_presence_in_the_value() {
    let config = mysql_config("localhost", "shop");
    let mut conn = Basable::create_connection(&config).unwrap().unwrap();
    conn.add_table(table("orders", 1, 1));
    assert_eq!(conn.table_exists("orders"), Ok(true));
    assert_eq!(conn.table_exists("customers"), Ok(false));
}

#[test]
fn save_table_config_for_unknown_table_is_not_found() {
    let config = mysql_config("localhost", "shop");
    let mut conn = Basable::create_connection(&config).unwrap().unwrap();
    let result = conn.save_table_config(
        "missing",
        TableConfig { payload: "unused".to_owned() },
        true,
    );
    assert_eq!(result.unwrap_err(), AppError::TableNotFound);
    assert!(conn.table_config("missing").is_none());
}

#[test]
fn local_save_is_reflected_by_introspection() {
    let config = mysql_config("localhost", "shop");
    let mut conn = Basable::create_connection(&config).unwrap().unwrap();
    conn.add_table(table("orders", 1, 1));
    conn.save_table_config("orders", TableConfig { payload: "color=blue".to_owned() }, true)
        .expect("the table exists, so the save succeeds");
    let stored = conn.table_config("orders").expect("the local save is visible");
    assert_eq!(stored.payload, "color=blue");
    assert_eq!(conn.remote_save_count(), 0);
}

#[test]
fn remote_save_joins_the_outgoing_queue() {
    let config = mysql_config("localhost", "shop");
    let mut conn = Basable::create_connection(&config).unwrap().unwrap();
    conn.add_table(table("orders", 1, 1));
    assert_eq!(conn.remote_save_count(), 0);
    conn.save_table_config("orders", TableConfig { payload: "color=red".to_owned() }, false)
        .expect("the table exists, so the save succeeds");
    assert_eq!(conn.remote_save_count(), 1);
    assert!(conn.table_config("orders").is_none());
}

#[test]
fn operations_on_a_closed_connection_fail() {
    let config = mysql_config("localhost", "shop");
    let mut conn = Basable::create_connection(&config).unwrap().unwrap();
    conn.add_table(table("orders", 1, 1));
    assert!(conn.is_open());
    conn.close();
    assert!(!conn.is_open());
    assert_eq!(conn.details().unwrap_err(), AppError::IntrospectionError);
    assert_eq!(conn.load_tables().unwrap_err(), AppError::IntrospectionError);
    assert_eq!(conn.table_exists("orders"), Err(AppError::IntrospectionError));
    let result = conn.save_table_config(
        "orders",
        TableConfig { payload: "unused".to_owned() },
        true,
    );
    assert_eq!(result.unwrap_err(), AppError::IntrospectionError);
}

#[test]
fn error_messages_are_stable() {
    assert_eq!(AppError::UnsupportedSource.message(), "unsupported source type");
    assert_eq!(AppError::ConnectionError.message(), "unable to establish connection");
    assert_eq!(AppError::IntrospectionError.message(), "connection is no longer valid");
    assert_eq!(AppError::TableNotFound.message(), "no such table on this connection");
    assert_eq!(AppError::UserNotFound.message(), "no such user");
    assert_eq!(AppError::SessionError.message(), "unable to mint a session");
}
