use editorsql::api::{invoke_error_message, ApiCommand, ConnectParams};
use editorsql::backend::{
    build_query_result, collect_databases, create_config, plan_config, send_chat_message,
    BackendFailure, Encryption, LoginPlan, QueryItem, SqlCell, SqlRow,
};

fn params(server: &str, port: &str, database: &str, integrated: bool) -> ConnectParams {
    ConnectParams {
        name: "Prueba".to_string(),
        server: server.to_string(),
        port: port.to_string(),
        database: database.to_string(),
        user: "sa".to_string(),
        password: "secreto".to_string(),
        integrated_security: integrated,
        encrypt: true,
        trust_server_certificate: false,
    }
}

fn text_cell(s: &str) -> SqlCell {
    SqlCell { text: Some(s.to_string()), int: None, float: None, other: None }
}

fn row(columns: &[&str], cells: Vec<SqlCell>) -> SqlRow {
    SqlRow { columns: columns.iter().map(|c| c.to_string()).collect(), cells }
}

#[test]
fn plan_with_sql_login() {
    let p = plan_config(&params("db.local", "1500", "ventas", false));
    assert_eq!(p.host, "db.local");
    assert_eq!(p.port, Some(1500));
    assert_eq!(p.database, Some("ventas".to_string()));
    match &p.login {
        LoginPlan::SqlServer { user, password } => {
            assert_eq!(user, "sa");
            assert_eq!(password, "secreto");
        }
        LoginPlan::Windows => panic!("expected a SQL Server login"),
    }
    assert_eq!(p.encryption, Encryption::Required);
    assert!(!p.trust_cert);
}

#[test]
fn plan_with_integrated_login_and_blank_database() {
    let mut q = params("srv", "no-port", "   ", true);
    q.encrypt = false;
    q.trust_server_certificate = true;
    let p = plan_config(&q);
    assert_eq!(p.port, None);
    assert_eq!(p.database, None);
    assert!(matches!(p.login, LoginPlan::Windows));
    assert_eq!(p.encryption, Encryption::NotSupported);
    assert!(p.trust_cert);
}

#[test]
fn created_config_has_host_and_port() {
    let c = create_config(&params("db.local", "1500", "", false));
    assert_eq!(c.addr(), "db.local:1500");
    assert_eq!(c.into_inner().get_addr(), "db.local:1500");
}

#[test]
fn created_config_keeps_default_port_when_port_is_not_a_number() {
    let c = create_config(&params("otro", "x", "", false));
    assert_eq!(c.addr(), "otro:1433");
    assert_eq!(c.into_inner().get_addr(), "otro:1433");
}

#[test]
fn created_config_with_dot_host_goes_to_localhost() {
    let c = create_config(&params(".", "abc", "   ", false));
    assert_eq!(c.addr(), "localhost:1433");
}

#[test]
fn created_config_with_trusted_certificate_does_not_panic() {
    let mut q = params("srv", "1433", "ventas", false);
    q.trust_server_certificate = true;
    let c = create_config(&q);
    assert_eq!(c.addr(), "srv:1433");
}

#[test]
fn integrated_security_config_keeps_address() {
    let c = create_config(&params("srv", "1500", "", true));
    assert_eq!(c.addr(), "srv:1500");
}

#[test]
fn integrated_security_failure_message() {
    assert_eq!(
        BackendFailure::IntegratedSecurityUnsupported.message(),
        "La autenticación integrada no está soportada en esta compilación. Por favor usa Usuario y Contraseña."
    );
}

#[test]
fn databases_start_with_master() {
    let items = vec![
        QueryItem::Metadata,
        QueryItem::Row(Some("ventas".to_string())),
        QueryItem::Row(None),
        QueryItem::Row(Some("rrhh".to_string())),
    ];
    let r = collect_databases(&items).unwrap();
    assert!(r.success);
    assert_eq!(r.databases, vec!["master", "ventas", "rrhh"]);
    assert_eq!(r.message, "Conexión exitosa.");
}

#[test]
fn databases_with_no_rows() {
    let r = collect_databases(&Vec::new()).unwrap();
    assert_eq!(r.databases, vec!["master"]);
}

#[test]
fn databases_error_in_row() {
    let items = vec![QueryItem::Row(Some("a".to_string())), QueryItem::Error("roto".to_string())];
    assert_eq!(collect_databases(&items).unwrap_err(), "Error en fila: roto");
}

#[test]
fn query_result_columns_from_first_row() {
    let items = vec![
        QueryItem::Metadata,
        QueryItem::Row(row(&["id", "nombre", "precio"], vec![
            SqlCell { text: None, int: Some(-7), float: None, other: None },
            text_cell("pan"),
            SqlCell { text: None, int: None, float: Some("2.5".to_string()), other: None },
        ])),
        QueryItem::Row(row(&["otra"], vec![SqlCell { text: None, int: None, float: None, other: None }])),
    ];
    let r = build_query_result(&items).unwrap();
    assert_eq!(r.columns, vec!["id", "nombre", "precio"]);
    assert_eq!(r.rows, vec![vec!["-7", "pan", "2.5"], vec!["NULL", "NULL", "NULL"]]);
}

#[test]
fn query_result_text_wins_over_numbers() {
    let items = vec![QueryItem::Row(row(&["c"], vec![SqlCell {
        text: Some("t".to_string()),
        int: Some(1),
        float: Some("1".to_string()),
        other: Some("1".to_string()),
    }]))];
    let r = build_query_result(&items).unwrap();
    assert_eq!(r.rows, vec![vec!["t"]]);
}

#[test]
fn query_result_other_types_are_shown_and_null_means_null() {
    let items = vec![QueryItem::Row(row(&["grande", "nada"], vec![
        SqlCell { text: None, int: None, float: None, other: Some("9000000000".to_string()) },
        SqlCell { text: None, int: None, float: None, other: None },
    ]))];
    let r = build_query_result(&items).unwrap();
    assert_eq!(r.rows, vec![vec!["9000000000", "NULL"]]);
}

#[test]
fn query_result_without_rows_is_empty() {
    let r = build_query_result(&vec![QueryItem::Metadata]).unwrap();
    assert!(r.columns.is_empty());
    assert!(r.rows.is_empty());
}

#[test]
fn query_result_error() {
    let items = vec![QueryItem::Row(row(&["c"], vec![text_cell("x")])), QueryItem::Error("falla".to_string())];
    assert_eq!(build_query_result(&items).unwrap_err(), "Error en resultado: falla");
}

#[test]
fn failure_messages() {
    assert_eq!(BackendFailure::Network("e".to_string()).message(), "Error de red (verifica IP/Puerto): e");
    assert_eq!(BackendFailure::Socket("e".to_string()).message(), "e");
    assert_eq!(
        BackendFailure::Login("e".to_string()).message(),
        "Error de conexión SQL (verifica usuario/password): e"
    );
    assert_eq!(
        BackendFailure::DatabaseList("e".to_string()).message(),
        "Error consultando bases de datos: e"
    );
    assert_eq!(BackendFailure::DatabaseRow("e".to_string()).message(), "Error en fila: e");
    assert_eq!(BackendFailure::NoActiveConnection.message(), "No hay una conexión activa.");
    assert_eq!(BackendFailure::Query("e".to_string()).message(), "Error ejecutando consulta: e");
    assert_eq!(BackendFailure::QueryResult("e".to_string()).message(), "Error en resultado: e");
}

#[test]
fn chat_answer_follows_the_request() {
    let a = send_chat_message("¿Qué TABLAS hay?".to_string()).unwrap();
    assert_eq!(a.answer, "Tablas de la base de datos actual.");
    assert_eq!(
        a.sql,
        "SELECT TABLE_SCHEMA, TABLE_NAME FROM INFORMATION_SCHEMA.TABLES WHERE TABLE_TYPE = 'BASE TABLE' ORDER BY TABLE_SCHEMA, TABLE_NAME;"
    );
    let b = send_chat_message("lista las bases de datos".to_string()).unwrap();
    assert_eq!(b.sql, "SELECT name FROM sys.databases ORDER BY name;");
    let c = send_chat_message("columnas de la tabla clientes".to_string()).unwrap();
    assert_eq!(
        c.sql,
        "SELECT TABLE_NAME, COLUMN_NAME, DATA_TYPE FROM INFORMATION_SCHEMA.COLUMNS ORDER BY TABLE_NAME, ORDINAL_POSITION;"
    );
    let d = send_chat_message("Vistas".to_string()).unwrap();
    assert_eq!(d.answer, "Vistas de la base de datos actual.");
    let e = send_chat_message("procedimientos almacenados".to_string()).unwrap();
    assert!(e.sql.contains("ROUTINE_TYPE = 'PROCEDURE'"));
    assert_ne!(a.sql, b.sql);
}

#[test]
fn chat_answer_for_unknown_request() {
    let a = send_chat_message("hola".to_string()).unwrap();
    assert_eq!(a.answer, "Simulación: Analizando esquema real...");
    assert_eq!(a.sql, "SELECT TOP (10) * FROM sys.tables;");
}

#[test]
fn unreadable_errors_per_command() {
    assert_eq!(invoke_error_message(ApiCommand::TestConnection, None), "Error desconocido");
    assert_eq!(invoke_error_message(ApiCommand::ConnectToSqlServer, None), "Error de conexión");
    assert_eq!(invoke_error_message(ApiCommand::SendChatMessage, None), "Error en el chat");
    assert_eq!(invoke_error_message(ApiCommand::ExecuteSql, None), "Error ejecutando SQL");
    assert_eq!(invoke_error_message(ApiCommand::ExecuteSql, Some("x".to_string())), "x");
}
