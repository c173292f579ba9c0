//! The values that travel between the editor's screen and its backend.

use vstd::prelude::*;

use crate::state::ConnectionSettings;
use crate::text::texts;

verus! {

/// The outcome of a query: the column names and, for each row, one text
/// per column.
#[derive(Debug)]
pub struct QueryResult {
    pub columns: Vec<String>,
    pub rows: Vec<Vec<String>>,
}

/// The model of a [`QueryResult`].
#[verifier::ext_equal]
pub struct QueryTable {
    pub columns: Seq<Seq<char>>,
    pub rows: Seq<Seq<Seq<char>>>,
}

impl View for QueryResult {
    type V = QueryTable;

    open spec fn view(&self) -> QueryTable {
        QueryTable {
            columns: texts(self.columns@),
            rows: self.rows@.map_values(|r: Vec<String>| texts(r@)),
        }
    }
}

/// The assistant's answer to a chat message, with the SQL it proposes.
#[derive(Debug)]
pub struct GeneratedSqlAndAnswer {
    pub answer: String,
    pub sql: String,
}

impl View for GeneratedSqlAndAnswer {
    type V = (Seq<char>, Seq<char>);

    open spec fn view(&self) -> (Seq<char>, Seq<char>) {
        (self.answer@, self.sql@)
    }
}

/// The settings with which the backend connects to a server.
#[derive(Debug, Clone)]
pub struct ConnectParams {
    pub name: String,
    pub server: String,
    pub port: String,
    pub database: String,
    pub user: String,
    pub password: String,
    pub integrated_security: bool,
    pub encrypt: bool,
    pub trust_server_certificate: bool,
}

impl View for ConnectParams {
    type V = ConnectionSettings;

    open spec fn view(&self) -> ConnectionSettings {
        ConnectionSettings {
            name: self.name@,
            server: self.server@,
            port: self.port@,
            database: self.database@,
            user: self.user@,
            password: self.password@,
            integrated_security: self.integrated_security,
            encrypt: self.encrypt,
            trust_server_certificate: self.trust_server_certificate,
        }
    }
}

/// The outcome of trying a connection: the databases that the server lists.
#[derive(Debug)]
pub struct TestConnectionResult {
    pub success: bool,
    pub databases: Vec<String>,
    pub message: String,
}

/// The model of a [`TestConnectionResult`].
#[verifier::ext_equal]
pub struct ConnectionTest {
    pub success: bool,
    pub databases: Seq<Seq<char>>,
    pub message: Seq<char>,
}

impl View for TestConnectionResult {
    type V = ConnectionTest;

    open spec fn view(&self) -> ConnectionTest {
        ConnectionTest {
            success: self.success,
            databases: texts(self.databases@),
            message: self.message@,
        }
    }
}

/// The backend commands that the screen invokes.
#[derive(Clone, Copy, Debug, PartialEq, Eq, Structural)]
pub enum ApiCommand {
    TestConnection,
    ConnectToSqlServer,
    SendChatMessage,
    ExecuteSql,
}

/// The text shown when a command failed and its error could not be read.
pub open spec fn unreadable_error_text(command: ApiCommand) -> Seq<char> {
    match command {
        ApiCommand::TestConnection => "Error desconocido"@,
        ApiCommand::ConnectToSqlServer => "Error de conexión"@,
        ApiCommand::SendChatMessage => "Error en el chat"@,
        ApiCommand::ExecuteSql => "Error ejecutando SQL"@,
    }
}

/// The text of a failed command: the error that the backend sent back when
/// it could be read as text (`decoded`), else a fixed text per command.
pub fn invoke_error_message(command: ApiCommand, decoded: Option<String>) -> (r: String)
    ensures
        r@ == match decoded {
            Some(e) => e@,
            None => unreadable_error_text(command),
        },
{
    match decoded {
        Some(e) => e,
        None => match command {
            ApiCommand::TestConnection => String::from_str("Error desconocido"),
            ApiCommand::ConnectToSqlServer => String::from_str("Error de conexión"),
            ApiCommand::SendChatMessage => String::from_str("Error en el chat"),
            ApiCommand::ExecuteSql => String::from_str("Error ejecutando SQL"),
        },
    }
}

} // verus!
