use editorsql::api::{GeneratedSqlAndAnswer, QueryResult, TestConnectionResult};
use editorsql::app::{chat_message_class, test_message_class, AppState, FormField, FormOption};
use editorsql::state::{ChatRole, ConnectionState};

#[test]
fn initial_screen() {
    let s = AppState::new();
    assert!(s.connection_state == ConnectionState::Disconnected);
    assert!(s.chat_panel_open);
    assert!(s.tree_expanded);
    assert!(!s.connection_modal_open);
    assert_eq!(s.status_text(), "Listo.");
    assert_eq!(s.tree_chevron(), "▼");
    assert_eq!(s.chat_button_class(), "icon-btn active");
    assert_eq!(s.test_button_label(), "Probar Conexión");
}

#[test]
fn blank_server_is_refused_for_test_and_connect() {
    let mut s = AppState::new();
    s.edit_form_field(FormField::Server, "   ".to_string());
    assert!(s.begin_test_connection().is_none());
    assert_eq!(s.test_message.as_deref(), Some("Error: El servidor es obligatorio."));
    assert!(!s.is_testing);
    assert!(s.begin_connect().is_none());
    assert!(s.connection_state == ConnectionState::Error("Servidor obligatorio.".to_string()));
}

#[test]
fn connection_test_round() {
    let mut s = AppState::new();
    s.open_connection_modal();
    s.toggle_form_option(FormOption::IntegratedSecurity);
    s.edit_form_field(FormField::User, "sa".to_string());
    let p = s.begin_test_connection().unwrap();
    assert_eq!(p.server, "localhost");
    assert_eq!(p.user, "sa");
    assert!(!p.integrated_security);
    assert!(s.is_testing);
    assert_eq!(s.test_button_label(), "Probando...");
    s.finish_test_connection(Ok(TestConnectionResult {
        success: true,
        databases: vec!["master".to_string(), "ventas".to_string()],
        message: "Conexión exitosa.".to_string(),
    }));
    assert!(!s.is_testing);
    assert_eq!(s.server_databases, vec!["master", "ventas"]);
    let msg = s.test_message.clone().unwrap();
    assert_eq!(msg, "✓ Conexión exitosa.");
    assert_eq!(test_message_class(&msg), "test-success");
    s.finish_test_connection(Err("sin red".to_string()));
    let msg = s.test_message.clone().unwrap();
    assert_eq!(msg, "Error: sin red");
    assert_eq!(test_message_class(&msg), "test-error");
    s.finish_test_connection(Ok(TestConnectionResult {
        success: false,
        databases: vec![],
        message: "no".to_string(),
    }));
    assert_eq!(s.test_message.as_deref(), Some("✗ no"));
    assert_eq!(s.server_databases, vec!["master", "ventas"]);
}

#[test]
fn connect_round() {
    let mut s = AppState::new();
    s.open_connection_modal();
    let p = s.begin_connect().unwrap();
    assert_eq!(p.port, "1433");
    assert!(s.connection_state == ConnectionState::Connecting);
    s.finish_connect(Err("fallo".to_string()));
    assert!(s.connection_state == ConnectionState::Error("fallo".to_string()));
    assert!(s.connection_modal_open);
    assert!(s.server_databases.is_empty());
    s.finish_connect(Ok(TestConnectionResult {
        success: true,
        databases: vec!["master".to_string(), "ventas".to_string()],
        message: "Conexión exitosa.".to_string(),
    }));
    assert!(s.connection_state == ConnectionState::Connected);
    assert!(!s.connection_modal_open);
    assert_eq!(s.server_databases, vec!["master", "ventas"]);
}

#[test]
fn chat_round() {
    let mut s = AppState::new();
    s.edit_chat_input("   ".to_string());
    assert!(s.send_chat_message().is_none());
    assert!(s.chat_messages.is_empty());
    s.edit_chat_input("  ventas de hoy \n".to_string());
    let prompt = s.send_chat_message().unwrap();
    assert_eq!(prompt, "ventas de hoy");
    assert_eq!(s.chat_input, "");
    assert!(s.send_chat_message().is_none());
    assert_eq!(s.chat_messages.len(), 1);
    assert_eq!(s.chat_messages[0].role, ChatRole::User);
    assert_eq!(s.chat_messages[0].content, "ventas de hoy");
    s.receive_chat_answer(Ok(GeneratedSqlAndAnswer {
        answer: "Hecho".to_string(),
        sql: "SELECT 1;".to_string(),
    }));
    assert_eq!(s.chat_messages.len(), 2);
    assert_eq!(s.chat_messages[1].role, ChatRole::Assistant);
    assert_eq!(s.chat_messages[1].content, "Hecho\n\nSQL generado:\n```sql\nSELECT 1;\n```");
    assert_eq!(s.last_generated_sql.as_deref(), Some("SELECT 1;"));
    assert_eq!(s.sql_editor_content, "SELECT 1;");
    s.edit_sql("otra cosa".to_string());
    s.use_generated_sql();
    assert_eq!(s.sql_editor_content, "SELECT 1;");
    s.receive_chat_answer(Err("caído".to_string()));
    assert_eq!(s.chat_messages[2].content, "Error: caído");
    assert_eq!(chat_message_class(&s.chat_messages[0].role), "message user");
    assert_eq!(chat_message_class(&s.chat_messages[2].role), "message assistant");
}

#[test]
fn run_sql_round() {
    let mut s = AppState::new();
    assert!(s.begin_run_sql().is_none());
    s.edit_sql("\n SELECT * FROM t \n".to_string());
    assert_eq!(s.begin_run_sql().as_deref(), Some("SELECT * FROM t"));
    s.finish_run_sql(Ok(QueryResult {
        columns: vec!["a".to_string()],
        rows: vec![vec!["1".to_string()], vec!["2".to_string()]],
    }));
    assert_eq!(s.status_text(), "✓ 2 filas");
    s.finish_run_sql(Err("mal".to_string()));
    assert_eq!(s.status_text(), "✓ 2 filas");
}

#[test]
fn toggles_twice_restore() {
    let mut s = AppState::new();
    s.toggle_chat_panel();
    assert!(!s.chat_panel_open);
    assert_eq!(s.chat_button_class(), "icon-btn");
    s.toggle_chat_panel();
    assert!(s.chat_panel_open);
    s.toggle_tree();
    assert_eq!(s.tree_chevron(), "▶");
    s.toggle_tree();
    assert!(s.tree_expanded);
}

#[test]
fn modal_open_clears_test_message() {
    let mut s = AppState::new();
    s.edit_form_field(FormField::Server, String::new());
    let _ = s.begin_test_connection();
    assert!(s.test_message.is_some());
    s.close_connection_modal();
    s.open_connection_modal();
    assert!(s.test_message.is_none());
    assert!(s.connection_modal_open);
}
