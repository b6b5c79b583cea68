use prisma_query::error::{classify_mysql_error, from_mysql_error, from_utf8_error};
use prisma_query::error::{ConnectorError, MysqlErrorInfo};
use prisma_query::id::Id;
use uuid::Uuid;

fn server(code: u16, message: &str) -> MysqlErrorInfo {
    MysqlErrorInfo::Server { code, message: message.to_string() }
}

fn mysql_server_error(code: u16, message: &str) -> mysql::Error {
    mysql::Error::MySqlError(mysql::MySqlError {
        state: "23000".to_string(),
        message: message.to_string(),
        code,
    })
}

#[test]
fn unique_constraint_violation_extracts_field() {
    let e = mysql_server_error(1062, "Duplicate entry 'bar' for key 'user_email_key'");
    assert_eq!(
        from_mysql_error(&e),
        ConnectorError::UniqueConstraintViolation { field_name: "user".to_string() }
    );
}

#[test]
fn null_constraint_violation_extracts_field() {
    let e = mysql_server_error(1263, "Column set to default value; NULL supplied to NOT NULL column 'name' at row 1; key 'user_name_key'");
    assert_eq!(
        from_mysql_error(&e),
        ConnectorError::NullConstraintViolation { field_name: "user".to_string() }
    );
}

#[test]
fn unknown_database_extracts_name() {
    let e = mysql_server_error(1049, "Unknown database 'mydb'");
    assert_eq!(
        from_mysql_error(&e),
        ConnectorError::DatabaseDoesNotExist { db_name: "mydb".to_string() }
    );
}

#[test]
fn database_exists_extracts_name() {
    let e = mysql_server_error(1007, "Can't create database 'mydb'; database exists");
    assert_eq!(
        from_mysql_error(&e),
        ConnectorError::DatabaseAlreadyExists { db_name: "mydb".to_string() }
    );
}

#[test]
fn access_denied_extracts_database() {
    let e = mysql_server_error(1044, "Access denied for user 'u'@'localhost' to database 'mydb'");
    assert_eq!(
        from_mysql_error(&e),
        ConnectorError::DatabaseAccessDenied { db_name: "mydb".to_string() }
    );
}

#[test]
fn authentication_failure_extracts_user() {
    let e = mysql_server_error(
        1045,
        "Access denied for user 'root'@'localhost' (using password: YES)",
    );
    assert_eq!(
        from_mysql_error(&e),
        ConnectorError::AuthenticationFailed { user: "root".to_string() }
    );
}

#[test]
fn connect_timeout_maps_to_its_variant() {
    let e = mysql::Error::DriverError(mysql::DriverError::ConnectTimeout);
    assert_eq!(from_mysql_error(&e), ConnectorError::ConnectTimeout);
}

#[test]
fn timeout_maps_to_its_variant() {
    let e = mysql::Error::DriverError(mysql::DriverError::Timeout);
    assert_eq!(from_mysql_error(&e), ConnectorError::Timeout);
}

#[test]
fn other_driver_errors_become_query_errors() {
    let e = mysql::Error::DriverError(mysql::DriverError::PacketTooLarge);
    assert!(matches!(from_mysql_error(&e), ConnectorError::QueryError(_)));
}

#[test]
fn unknown_server_code_keeps_the_message() {
    let r = classify_mysql_error(server(9999, "something else went wrong"));
    assert_eq!(
        r,
        ConnectorError::QueryError("something else went wrong".to_string())
    );
}

#[test]
fn malformed_message_falls_back_to_query_error() {
    let r = classify_mysql_error(server(1062, "no quoted key anywhere"));
    assert_eq!(
        r,
        ConnectorError::QueryError("no quoted key anywhere".to_string())
    );
}

#[test]
fn empty_message_falls_back_to_query_error() {
    let r = classify_mysql_error(server(1049, ""));
    assert_eq!(r, ConnectorError::QueryError(String::new()));
}

#[test]
fn classifier_handles_plain_info_values() {
    assert_eq!(
        classify_mysql_error(MysqlErrorInfo::ConnectTimeout),
        ConnectorError::ConnectTimeout
    );
    assert_eq!(classify_mysql_error(MysqlErrorInfo::Timeout), ConnectorError::Timeout);
    assert_eq!(
        classify_mysql_error(MysqlErrorInfo::Other("boom".to_string())),
        ConnectorError::QueryError("boom".to_string())
    );
}

#[test]
fn invalid_utf8_becomes_query_error() {
    let err = String::from_utf8(vec![0xff, 0xfe]).unwrap_err();
    assert!(matches!(from_utf8_error(&err), ConnectorError::QueryError(_)));
}

#[test]
fn id_conversions() {
    assert_eq!(Id::from(42usize), Id::Int(42));
    assert_eq!(Id::from(42u64), Id::Int(42));
    assert_eq!(Id::from("abc".to_string()), Id::String("abc".to_string()));
    let u = Uuid::nil();
    assert_eq!(Id::from(u), Id::UUID(u));
}
