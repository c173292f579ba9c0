use editorsql::state::{ChatMessage, ChatRole, ConnectionForm, ConnectionState};

#[test]
fn connection_state_labels() {
    assert_eq!(ConnectionState::Disconnected.label(), "Desconectado");
    assert_eq!(ConnectionState::Connecting.label(), "Conectando…");
    assert_eq!(ConnectionState::Connected.label(), "Conectado");
    assert_eq!(ConnectionState::Error("x".to_string()).label(), "Error de conexión");
}

#[test]
fn connection_state_badges() {
    assert_eq!(ConnectionState::Disconnected.badge_class(), "badge-disconnected");
    assert_eq!(ConnectionState::Connecting.badge_class(), "badge-connecting");
    assert_eq!(ConnectionState::Connected.badge_class(), "badge-connected");
    assert_eq!(ConnectionState::Error(String::new()).badge_class(), "badge-error");
}

#[test]
fn connection_state_equality() {
    assert!(ConnectionState::Connected == ConnectionState::Connected);
    assert!(ConnectionState::Connected != ConnectionState::Connecting);
    assert!(ConnectionState::Error("a".to_string()) == ConnectionState::Error("a".to_string()));
    assert!(ConnectionState::Error("a".to_string()) != ConnectionState::Error("b".to_string()));
    assert!(ConnectionState::Error(String::new()) != ConnectionState::Disconnected);
}

#[test]
fn connection_form_default() {
    let f = ConnectionForm::default();
    assert_eq!(f.name, "Nueva Conexión");
    assert_eq!(f.server, "localhost");
    assert_eq!(f.port, "1433");
    assert_eq!(f.database, "");
    assert_eq!(f.user, "");
    assert_eq!(f.password, "");
    assert!(f.integrated_security);
    assert!(f.encrypt);
    assert!(f.trust_server_certificate);
}

#[test]
fn chat_message_new_and_labels() {
    let m = ChatMessage::new(ChatRole::User, "hola".to_string());
    assert_eq!(m.role, ChatRole::User);
    assert_eq!(m.content, "hola");
    assert_eq!(m.role_label(), "Tú");
    let a = ChatMessage::new(ChatRole::Assistant, String::new());
    assert_eq!(a.role_label(), "EditorSQL");
}
