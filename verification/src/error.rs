use vstd::prelude::*;

use crate::strutil::{split_char, split_char_exec, ws_tokens, ws_tokens_exec};

verus! {

/// The error taxonomy the connector layer reports to callers. The renderer
/// itself never fails; these arise when a statement is executed and the
/// server or the driver turns it down.
#[derive(Debug, PartialEq)]
pub enum ConnectorError {
    /// Connecting to the server timed out.
    ConnectTimeout,
    /// Waiting for the server timed out.
    Timeout,
    /// Any other driver or server diagnostic, as text.
    QueryError(String),
    /// A unique constraint rejected a write.
    UniqueConstraintViolation { field_name: String },
    /// A null constraint rejected a write.
    NullConstraintViolation { field_name: String },
    /// The named database does not exist.
    DatabaseDoesNotExist { db_name: String },
    /// The named database already exists.
    DatabaseAlreadyExists { db_name: String },
    /// Access to the named database was denied.
    DatabaseAccessDenied { db_name: String },
    /// The server rejected the user's credentials.
    AuthenticationFailed { user: String },
}

/// What one driver answer looks like once its variants are told apart: the
/// two timeouts, a server diagnostic with its code and message, or any
/// other failure as text.
#[derive(Debug, PartialEq)]
pub enum MysqlErrorInfo {
    ConnectTimeout,
    Timeout,
    Server { code: u16, message: String },
    Other(String),
}

/// The stretch of `tok` between its first two apostrophes, where the
/// server's diagnostics quote an identifier.
pub open spec fn quoted_segment(tok: Seq<char>) -> Option<Seq<char>> {
    let parts = split_char(tok, '\'');
    if parts.len() >= 2 {
        Some(parts[1])
    } else {
        None
    }
}

/// The field a constraint-violation message names: the quoted segment of
/// its last whitespace token, up to the first underscore of the index name.
pub open spec fn constraint_field(msg: Seq<char>) -> Option<Seq<char>> {
    let toks = ws_tokens(msg);
    if toks.len() == 0 {
        None
    } else {
        match quoted_segment(toks.last()) {
            Some(q) => Some(split_char(q, '_')[0]),
            None => None,
        }
    }
}

/// The database name quoted in the last whitespace token of a message.
pub open spec fn last_token_db(msg: Seq<char>) -> Option<Seq<char>> {
    let toks = ws_tokens(msg);
    if toks.len() == 0 {
        None
    } else {
        quoted_segment(toks.last())
    }
}

/// The database name quoted in the fourth whitespace token of a message,
/// where the server reports a database that already exists.
pub open spec fn fourth_token_db(msg: Seq<char>) -> Option<Seq<char>> {
    let toks = ws_tokens(msg);
    if toks.len() > 3 {
        quoted_segment(toks[3])
    } else {
        None
    }
}

/// The user an authentication-failure message names: the quoted part
/// before the `@` of its fifth whitespace token.
pub open spec fn denied_user(msg: Seq<char>) -> Option<Seq<char>> {
    let toks = ws_tokens(msg);
    if toks.len() > 4 {
        quoted_segment(split_char(toks[4], '@')[0])
    } else {
        None
    }
}

/// The classification relation: which [`ConnectorError`] the classifier returns for
/// each driver answer. Messages whose shape the extractors do not
/// recognize fall back to [`ConnectorError::QueryError`] with the message intact.
pub open spec fn classifies(info: MysqlErrorInfo, r: ConnectorError) -> bool {
    match info {
        MysqlErrorInfo::ConnectTimeout => r == ConnectorError::ConnectTimeout,
        MysqlErrorInfo::Timeout => r == ConnectorError::Timeout,
        MysqlErrorInfo::Other(s) => r matches ConnectorError::QueryError(m) && m@ == s@,
        MysqlErrorInfo::Server { code, message } => {
            if code == 1062 {
                match constraint_field(message@) {
                    Some(f) => r matches ConnectorError::UniqueConstraintViolation { field_name }
                        && field_name@ == f,
                    None => r matches ConnectorError::QueryError(m) && m@ == message@,
                }
            } else if code == 1263 {
                match constraint_field(message@) {
                    Some(f) => r matches ConnectorError::NullConstraintViolation { field_name }
                        && field_name@ == f,
                    None => r matches ConnectorError::QueryError(m) && m@ == message@,
                }
            } else if code == 1049 {
                match last_token_db(message@) {
                    Some(d) => r matches ConnectorError::DatabaseDoesNotExist { db_name } && db_name@ == d,
                    None => r matches ConnectorError::QueryError(m) && m@ == message@,
                }
            } else if code == 1007 {
                match fourth_token_db(message@) {
                    Some(d) => r matches ConnectorError::DatabaseAlreadyExists { db_name } && db_name@ == d,
                    None => r matches ConnectorError::QueryError(m) && m@ == message@,
                }
            } else if code == 1044 {
                match last_token_db(message@) {
                    Some(d) => r matches ConnectorError::DatabaseAccessDenied { db_name } && db_name@ == d,
                    None => r matches ConnectorError::QueryError(m) && m@ == message@,
                }
            } else if code == 1045 {
                match denied_user(message@) {
                    Some(u) => r matches ConnectorError::AuthenticationFailed { user } && user@ == u,
                    None => r matches ConnectorError::QueryError(m) && m@ == message@,
                }
            } else {
                r matches ConnectorError::QueryError(m) && m@ == message@
            }
        },
    }
}

/// The stretch of `tok` between its first two apostrophes, or nothing when
/// the token holds fewer than two.
fn quoted_segment_exec(tok: &str) -> (r: Option<String>)
    ensures
        match r {
            Some(s) => quoted_segment(tok@) == Some(s@),
            None => quoted_segment(tok@) is None,
        },
{
    let mut parts = split_char_exec(tok, '\'');
    if parts.len() >= 2 {
        let s = parts.remove(1);
        assert(s@ == split_char(tok@, '\'')[1]);
        Some(s)
    } else {
        None
    }
}

/// The field a constraint-violation message names, per
/// [`constraint_field`].
fn constraint_field_exec(msg: &str) -> (r: Option<String>)
    ensures
        match r {
            Some(s) => constraint_field(msg@) == Some(s@),
            None => constraint_field(msg@) is None,
        },
{
    let mut toks = ws_tokens_exec(msg);
    if toks.len() == 0 {
        return None;
    }
    let last = toks.remove(toks.len() - 1);
    proof {
        assert(last@ == ws_tokens(msg@).last());
    }
    match quoted_segment_exec(last.as_str()) {
        Some(q) => {
            proof {
                crate::strutil::lemma_split_char_len(q@, '_');
            }
            let mut parts = split_char_exec(q.as_str(), '_');
            let field = parts.remove(0);
            assert(field@ == split_char(q@, '_')[0]);
            Some(field)
        },
        None => None,
    }
}

/// The database name quoted in the last whitespace token, per
/// [`last_token_db`].
fn last_token_db_exec(msg: &str) -> (r: Option<String>)
    ensures
        match r {
            Some(s) => last_token_db(msg@) == Some(s@),
            None => last_token_db(msg@) is None,
        },
{
    let mut toks = ws_tokens_exec(msg);
    if toks.len() == 0 {
        return None;
    }
    let last = toks.remove(toks.len() - 1);
    proof {
        assert(last@ == ws_tokens(msg@).last());
    }
    quoted_segment_exec(last.as_str())
}

/// The database name quoted in the fourth whitespace token, per
/// [`fourth_token_db`].
fn fourth_token_db_exec(msg: &str) -> (r: Option<String>)
    ensures
        match r {
            Some(s) => fourth_token_db(msg@) == Some(s@),
            None => fourth_token_db(msg@) is None,
        },
{
    let mut toks = ws_tokens_exec(msg);
    if toks.len() > 3 {
        let tok = toks.remove(3);
        assert(tok@ == ws_tokens(msg@)[3]);
        quoted_segment_exec(tok.as_str())
    } else {
        None
    }
}

/// The user an authentication failure names, per [`denied_user`].
fn denied_user_exec(msg: &str) -> (r: Option<String>)
    ensures
        match r {
            Some(s) => denied_user(msg@) == Some(s@),
            None => denied_user(msg@) is None,
        },
{
    let mut toks = ws_tokens_exec(msg);
    if toks.len() > 4 {
        let tok = toks.remove(4);
        assert(tok@ == ws_tokens(msg@)[4]);
        proof {
            crate::strutil::lemma_split_char_len(tok@, '@');
        }
        let mut at_parts = split_char_exec(tok.as_str(), '@');
        let before_at = at_parts.remove(0);
        assert(before_at@ == split_char(tok@, '@')[0]);
        quoted_segment_exec(before_at.as_str())
    } else {
        None
    }
}

/// Classify one driver answer into the error taxonomy, exactly as the
/// relation [`classifies`] describes: the two timeouts map to their own
/// variants, the known server codes are mined for the identifier their
/// message quotes, and everything else is carried as a plain
/// [`ConnectorError::QueryError`].
pub fn classify_mysql_error(info: MysqlErrorInfo) -> (r: ConnectorError)
    ensures
        classifies(info, r),
{
    match info {
        MysqlErrorInfo::ConnectTimeout => ConnectorError::ConnectTimeout,
        MysqlErrorInfo::Timeout => ConnectorError::Timeout,
        MysqlErrorInfo::Other(s) => ConnectorError::QueryError(s),
        MysqlErrorInfo::Server { code, message } => {
            if code == 1062 {
                match constraint_field_exec(message.as_str()) {
                    Some(field_name) => ConnectorError::UniqueConstraintViolation { field_name },
                    None => ConnectorError::QueryError(message),
                }
            } else if code == 1263 {
                match constraint_field_exec(message.as_str()) {
                    Some(field_name) => ConnectorError::NullConstraintViolation { field_name },
                    None => ConnectorError::QueryError(message),
                }
            } else if code == 1049 {
                match last_token_db_exec(message.as_str()) {
                    Some(db_name) => ConnectorError::DatabaseDoesNotExist { db_name },
                    None => ConnectorError::QueryError(message),
                }
            } else if code == 1007 {
                match fourth_token_db_exec(message.as_str()) {
                    Some(db_name) => ConnectorError::DatabaseAlreadyExists { db_name },
                    None => ConnectorError::QueryError(message),
                }
            } else if code == 1044 {
                match last_token_db_exec(message.as_str()) {
                    Some(db_name) => ConnectorError::DatabaseAccessDenied { db_name },
                    None => ConnectorError::QueryError(message),
                }
            } else if code == 1045 {
                match denied_user_exec(message.as_str()) {
                    Some(user) => ConnectorError::AuthenticationFailed { user },
                    None => ConnectorError::QueryError(message),
                }
            } else {
                ConnectorError::QueryError(message)
            }
        },
    }
}

#[verifier::external_type_specification]
#[verifier::external_body]
pub struct ExMysqlError(mysql::Error);

/// Relies on mysql::Error: its `DriverError` variant carries the driver's
/// own failure, among them the two timeouts, and its `MySqlError` variant
/// carries the server diagnostic with its numeric `code` and text
/// `message`; every other variant is reported through its display text.
#[verifier::external_body]
fn mysql_error_info(e: &mysql::Error) -> MysqlErrorInfo {
    match e {
        mysql::Error::DriverError(mysql::DriverError::ConnectTimeout) => {
            MysqlErrorInfo::ConnectTimeout
        },
        mysql::Error::DriverError(mysql::DriverError::Timeout) => MysqlErrorInfo::Timeout,
        mysql::Error::MySqlError(me) => MysqlErrorInfo::Server {
            code: me.code,
            message: me.message.clone(),
        },
        other => MysqlErrorInfo::Other(format!("{}", other)),
    }
}

/// Translate a driver error into the taxonomy. The driver's answer is
/// opaque here, so the contract promises only that the result is a
/// faithful classification of some driver answer; [`classify_mysql_error`]
/// carries the exact contract for every answer.
pub fn from_mysql_error(e: &mysql::Error) -> (r: ConnectorError)
    ensures
        exists|info: MysqlErrorInfo| classifies(info, r),
{
    let info = mysql_error_info(e);
    let ghost ginfo = info;
    let r = classify_mysql_error(info);
    proof {
        assert(classifies(ginfo, r));
    }
    r
}

#[verifier::external_type_specification]
#[verifier::external_body]
pub struct ExFromUtf8Error(std::string::FromUtf8Error);

/// Relies on std::string::FromUtf8Error: formatting it yields its display
/// text.
#[verifier::external_body]
fn utf8_error_text(e: &std::string::FromUtf8Error) -> String {
    format!("{}", e)
}

/// Translate a UTF-8 decoding failure into the taxonomy: always a plain
/// [`ConnectorError::QueryError`] carrying the failure's text.
pub fn from_utf8_error(e: &std::string::FromUtf8Error) -> (r: ConnectorError)
    ensures
        r is QueryError,
{
    ConnectorError::QueryError(utf8_error_text(e))
}

} // verus!
