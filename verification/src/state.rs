//! What the editor's screen keeps: the connection's state, the connection
//! form and the chat messages.

use vstd::prelude::*;

verus! {

/// The state of the connection to the server, as the header shows it.
#[derive(Clone, Debug)]
pub enum ConnectionState {
    Disconnected,
    Connecting,
    Connected,
    Error(String),
}

/// The model of a [`ConnectionState`]: the error's text as characters.
#[verifier::ext_equal]
pub enum ConnectionStateView {
    Disconnected,
    Connecting,
    Connected,
    Error(Seq<char>),
}

impl View for ConnectionState {
    type V = ConnectionStateView;

    open spec fn view(&self) -> ConnectionStateView {
        match self {
            ConnectionState::Disconnected => ConnectionStateView::Disconnected,
            ConnectionState::Connecting => ConnectionStateView::Connecting,
            ConnectionState::Connected => ConnectionStateView::Connected,
            ConnectionState::Error(msg) => ConnectionStateView::Error(msg@),
        }
    }
}

/// The label that the header shows for a connection state.
pub open spec fn connection_label(s: ConnectionStateView) -> Seq<char> {
    match s {
        ConnectionStateView::Disconnected => "Desconectado"@,
        ConnectionStateView::Connecting => "Conectando…"@,
        ConnectionStateView::Connected => "Conectado"@,
        ConnectionStateView::Error(_) => "Error de conexión"@,
    }
}

/// The style class of the header's badge for a connection state.
pub open spec fn connection_badge_class(s: ConnectionStateView) -> Seq<char> {
    match s {
        ConnectionStateView::Disconnected => "badge-disconnected"@,
        ConnectionStateView::Connecting => "badge-connecting"@,
        ConnectionStateView::Connected => "badge-connected"@,
        ConnectionStateView::Error(_) => "badge-error"@,
    }
}

impl ConnectionState {
    /// The label shown for this state.
    pub fn label(&self) -> (r: &str)
        ensures
            r@ == connection_label(self@),
    {
        match self {
            ConnectionState::Disconnected => "Desconectado",
            ConnectionState::Connecting => "Conectando…",
            ConnectionState::Connected => "Conectado",
            ConnectionState::Error(_) => "Error de conexión",
        }
    }

    /// The style class of the badge for this state.
    pub fn badge_class(&self) -> (r: &'static str)
        ensures
            r@ == connection_badge_class(self@),
    {
        match self {
            ConnectionState::Disconnected => "badge-disconnected",
            ConnectionState::Connecting => "badge-connecting",
            ConnectionState::Connected => "badge-connected",
            ConnectionState::Error(_) => "badge-error",
        }
    }
}

impl PartialEq for ConnectionState {
    fn eq(&self, other: &Self) -> (r: bool) {
        match (self, other) {
            (ConnectionState::Disconnected, ConnectionState::Disconnected) => true,
            (ConnectionState::Connecting, ConnectionState::Connecting) => true,
            (ConnectionState::Connected, ConnectionState::Connected) => true,
            (ConnectionState::Error(a), ConnectionState::Error(b)) => *a == *b,
            _ => false,
        }
    }
}

impl vstd::std_specs::cmp::PartialEqSpecImpl for ConnectionState {
    open spec fn obeys_eq_spec() -> bool {
        true
    }

    open spec fn eq_spec(&self, other: &Self) -> bool {
        self@ == other@
    }
}

impl Eq for ConnectionState {

}


/// The connection settings as the form and the backend see them: every
/// text as characters.
#[verifier::ext_equal]
pub struct ConnectionSettings {
    pub name: Seq<char>,
    pub server: Seq<char>,
    pub port: Seq<char>,
    pub database: Seq<char>,
    pub user: Seq<char>,
    pub password: Seq<char>,
    pub integrated_security: bool,
    pub encrypt: bool,
    pub trust_server_certificate: bool,
}

/// The fields of the "new connection" dialog.
#[derive(Clone, Debug)]
pub struct ConnectionForm {
    pub name: String,
    pub server: String,
    pub port: String,
    pub database: String,
    pub user: String,
    pub password: String,
    pub integrated_security: bool,
    pub encrypt: bool,
    pub trust_server_certificate: bool,
}

impl View for ConnectionForm {
    type V = ConnectionSettings;

    open spec fn view(&self) -> ConnectionSettings {
        ConnectionSettings {
            name: self.name@,
            server: self.server@,
            port: self.port@,
            database: self.database@,
            user: self.user@,
            password: self.password@,
            integrated_security: self.integrated_security,
            encrypt: self.encrypt,
            trust_server_certificate: self.trust_server_certificate,
        }
    }
}

/// What the dialog holds when it first opens.
pub open spec fn default_settings() -> ConnectionSettings {
    ConnectionSettings {
        name: "Nueva Conexión"@,
        server: "localhost"@,
        port: "1433"@,
        database: Seq::empty(),
        user: Seq::empty(),
        password: Seq::empty(),
        integrated_security: true,
        encrypt: true,
        trust_server_certificate: true,
    }
}

impl Default for ConnectionForm {
    fn default() -> (r: Self)
        ensures
            r@ == default_settings(),
    {
        ConnectionForm {
            name: String::from_str("Nueva Conexión"),
            server: String::from_str("localhost"),
            port: String::from_str("1433"),
            database: String::new(),
            user: String::new(),
            password: String::new(),
            integrated_security: true,
            encrypt: true,
            trust_server_certificate: true,
        }
    }
}

/// Who wrote a chat message.
#[derive(Clone, Copy, Debug, PartialEq, Eq, Structural)]
pub enum ChatRole {
    User,
    Assistant,
}

/// A message of the chat panel.
#[derive(Clone, Debug)]
pub struct ChatMessage {
    pub role: ChatRole,
    pub content: String,
}

impl View for ChatMessage {
    type V = (ChatRole, Seq<char>);

    open spec fn view(&self) -> (ChatRole, Seq<char>) {
        (self.role, self.content@)
    }
}

/// The name shown above a message of the given author.
pub open spec fn role_label_of(role: ChatRole) -> Seq<char> {
    match role {
        ChatRole::User => "Tú"@,
        ChatRole::Assistant => "EditorSQL"@,
    }
}

impl ChatMessage {
    /// A message by `role` with the text `content`.
    pub fn new(role: ChatRole, content: String) -> (r: Self)
        ensures
            r.role == role,
            r.content == content,
    {
        Self { role, content }
    }

    /// The name shown above this message.
    pub fn role_label(&self) -> (r: &str)
        ensures
            r@ == role_label_of(self.role),
    {
        match self.role {
            ChatRole::User => "Tú",
            ChatRole::Assistant => "EditorSQL",
        }
    }
}

} // verus!
