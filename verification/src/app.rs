//! The editor's screen as a state machine. Each user action or answer from
//! the backend is a method that changes the state and, where the screen must
//! call the backend, returns what to send; the caller makes the call and
//! hands the answer back to the matching method.

use vstd::prelude::*;

use crate::api::{
    ConnectParams, ConnectionTest, GeneratedSqlAndAnswer, QueryResult, QueryTable,
    TestConnectionResult,
};
use crate::state::{
    default_settings, ChatMessage, ChatRole, ConnectionForm, ConnectionSettings, ConnectionState,
    ConnectionStateView,
};
use crate::text::{decimal, format_u64, is_blank, is_blank_seq, texts, trim, trimmed};

verus! {

/// Everything the screen keeps between two events.
#[derive(Debug)]
pub struct AppState {
    pub connection_form: ConnectionForm,
    pub connection_state: ConnectionState,
    pub server_databases: Vec<String>,
    pub chat_messages: Vec<ChatMessage>,
    pub chat_input: String,
    pub last_result: Option<QueryResult>,
    pub last_generated_sql: Option<String>,
    pub connection_modal_open: bool,
    pub chat_panel_open: bool,
    pub sql_editor_content: String,
    pub tree_expanded: bool,
    pub test_message: Option<String>,
    pub is_testing: bool,
}

/// The model of an [`AppState`].
#[verifier::ext_equal]
pub struct AppView {
    pub form: ConnectionSettings,
    pub connection: ConnectionStateView,
    pub server_databases: Seq<Seq<char>>,
    pub chat_messages: Seq<(ChatRole, Seq<char>)>,
    pub chat_input: Seq<char>,
    pub last_result: Option<QueryTable>,
    pub last_generated_sql: Option<Seq<char>>,
    pub modal_open: bool,
    pub chat_open: bool,
    pub sql_editor: Seq<char>,
    pub tree_expanded: bool,
    pub test_message: Option<Seq<char>>,
    pub is_testing: bool,
}

/// An optional text as characters.
pub open spec fn opt_text(o: Option<String>) -> Option<Seq<char>> {
    match o {
        Some(s) => Some(s@),
        None => None,
    }
}

/// The chat messages, each as its author and its characters.
pub open spec fn messages(v: Seq<ChatMessage>) -> Seq<(ChatRole, Seq<char>)> {
    v.map_values(|m: ChatMessage| m@)
}

impl View for AppState {
    type V = AppView;

    open spec fn view(&self) -> AppView {
        AppView {
            form: self.connection_form@,
            connection: self.connection_state@,
            server_databases: texts(self.server_databases@),
            chat_messages: messages(self.chat_messages@),
            chat_input: self.chat_input@,
            last_result: match self.last_result {
                Some(r) => Some(r@),
                None => None,
            },
            last_generated_sql: opt_text(self.last_generated_sql),
            modal_open: self.connection_modal_open,
            chat_open: self.chat_panel_open,
            sql_editor: self.sql_editor_content@,
            tree_expanded: self.tree_expanded,
            test_message: opt_text(self.test_message),
            is_testing: self.is_testing,
        }
    }
}

/// The screen when the editor starts: the default form, no connection, an
/// empty chat and editor, the chat panel and the tree open, the dialog shut.
pub open spec fn initial_view() -> AppView {
    AppView {
        form: default_settings(),
        connection: ConnectionStateView::Disconnected,
        server_databases: Seq::empty(),
        chat_messages: Seq::empty(),
        chat_input: Seq::empty(),
        last_result: None,
        last_generated_sql: None,
        modal_open: false,
        chat_open: true,
        sql_editor: Seq::empty(),
        tree_expanded: true,
        test_message: None,
        is_testing: false,
    }
}

/// Opening the dialog clears the message of the last connection test.
pub open spec fn after_open_modal(v: AppView) -> AppView {
    AppView { test_message: None, modal_open: true, ..v }
}

/// Closing the dialog.
pub open spec fn after_close_modal(v: AppView) -> AppView {
    AppView { modal_open: false, ..v }
}

/// Showing or hiding the chat panel.
pub open spec fn after_toggle_chat(v: AppView) -> AppView {
    AppView { chat_open: !v.chat_open, ..v }
}

/// Unfolding or folding the tree of connections.
pub open spec fn after_toggle_tree(v: AppView) -> AppView {
    AppView { tree_expanded: !v.tree_expanded, ..v }
}

/// The message shown when the dialog is tested with no server.
pub open spec fn server_required_test_text() -> Seq<char> {
    "Error: El servidor es obligatorio."@
}

/// The error shown when a connection is asked for with no server.
pub open spec fn server_required_text() -> Seq<char> {
    "Servidor obligatorio."@
}

/// Testing the connection: with a blank server the dialog says so and
/// nothing is sent; else the test starts and the last message is cleared.
pub open spec fn after_test_click(v: AppView) -> AppView {
    if is_blank_seq(v.form.server) {
        AppView { test_message: Some(server_required_test_text()), ..v }
    } else {
        AppView { is_testing: true, test_message: None, ..v }
    }
}

/// A connection test's answer, by its model.
pub open spec fn test_outcome(o: Result<TestConnectionResult, String>) -> Result<
    ConnectionTest,
    Seq<char>,
> {
    match o {
        Ok(t) => Ok(t@),
        Err(e) => Err(e@),
    }
}

/// The answer to a connection test arrives: on success the dialog lists the
/// server's databases and shows `✓` and the backend's message; an
/// unsuccessful answer shows `✗` and the message; an error shows `Error: `
/// and the error. The test is over in every case.
pub open spec fn after_test_outcome(v: AppView, o: Result<ConnectionTest, Seq<char>>) -> AppView {
    match o {
        Ok(t) => if t.success {
            AppView {
                server_databases: t.databases,
                test_message: Some("✓ "@ + t.message),
                is_testing: false,
                ..v
            }
        } else {
            AppView { test_message: Some("✗ "@ + t.message), is_testing: false, ..v }
        },
        Err(e) => AppView { test_message: Some("Error: "@ + e), is_testing: false, ..v },
    }
}

/// Connecting: with a blank server the connection shows an error and nothing
/// is sent; else the screen waits for the connection.
pub open spec fn after_connect_click(v: AppView) -> AppView {
    if is_blank_seq(v.form.server) {
        AppView { connection: ConnectionStateView::Error(server_required_text()), ..v }
    } else {
        AppView { connection: ConnectionStateView::Connecting, ..v }
    }
}

/// The answer to a connection request arrives: connected, the dialog
/// closes, and the tree lists the databases of the server just connected to;
/// or the error.
pub open spec fn after_connect_outcome(v: AppView, o: Result<ConnectionTest, Seq<char>>) -> AppView {
    match o {
        Ok(t) => AppView {
            connection: ConnectionStateView::Connected,
            modal_open: false,
            server_databases: t.databases,
            ..v
        },
        Err(e) => AppView { connection: ConnectionStateView::Error(e), ..v },
    }
}

/// Sending the chat input: a blank input changes nothing; else the trimmed
/// input becomes the user's message, the input empties and the SQL of the
/// last answer is forgotten.
pub open spec fn after_send_chat(v: AppView) -> AppView {
    let content = trimmed(v.chat_input);
    if content.len() == 0 {
        v
    } else {
        AppView {
            chat_messages: v.chat_messages.push((ChatRole::User, content)),
            chat_input: Seq::empty(),
            last_generated_sql: None,
            ..v
        }
    }
}

/// The assistant's message for an answer with text `answer` and query `sql`.
pub open spec fn assistant_reply(answer: Seq<char>, sql: Seq<char>) -> Seq<char> {
    answer + "\n\nSQL generado:\n```sql\n"@ + sql + "\n```"@
}

/// A chat answer, by its model.
pub open spec fn chat_outcome(o: Result<GeneratedSqlAndAnswer, String>) -> Result<
    (Seq<char>, Seq<char>),
    Seq<char>,
> {
    match o {
        Ok(a) => Ok(a@),
        Err(e) => Err(e@),
    }
}

/// The assistant's answer arrives: its text and query become the assistant's
/// message, and the query is kept and put in the editor; an error becomes
/// the assistant's message `Error: ` and the error.
pub open spec fn after_chat_outcome(v: AppView, o: Result<(Seq<char>, Seq<char>), Seq<char>>) -> AppView {
    match o {
        Ok(a) => AppView {
            chat_messages: v.chat_messages.push((ChatRole::Assistant, assistant_reply(a.0, a.1))),
            last_generated_sql: Some(a.1),
            sql_editor: a.1,
            ..v
        },
        Err(e) => AppView {
            chat_messages: v.chat_messages.push((ChatRole::Assistant, "Error: "@ + e)),
            ..v
        },
    }
}

/// The query to run from the editor: its trimmed text, when not empty.
pub open spec fn sql_to_run(v: AppView) -> Option<Seq<char>> {
    let sql = trimmed(v.sql_editor);
    if sql.len() == 0 {
        None
    } else {
        Some(sql)
    }
}

/// A query's answer, by its model.
pub open spec fn query_outcome_view(o: Result<QueryResult, String>) -> Result<QueryTable, Seq<char>> {
    match o {
        Ok(r) => Ok(r@),
        Err(e) => Err(e@),
    }
}

/// A query's answer arrives: a table replaces the last one; an error is
/// dropped.
pub open spec fn after_query_outcome(v: AppView, o: Result<QueryTable, Seq<char>>) -> AppView {
    match o {
        Ok(t) => AppView { last_result: Some(t), ..v },
        Err(_) => v,
    }
}

/// Putting the SQL of the last answer in the editor, when there is one.
pub open spec fn after_use_generated_sql(v: AppView) -> AppView {
    match v.last_generated_sql {
        Some(sql) => AppView { sql_editor: sql, ..v },
        None => v,
    }
}

/// A text field of the connection dialog.
#[derive(Clone, Copy, Debug, PartialEq, Eq, Structural)]
pub enum FormField {
    Name,
    Server,
    Port,
    Database,
    User,
    Password,
}

/// A check box of the connection dialog.
#[derive(Clone, Copy, Debug, PartialEq, Eq, Structural)]
pub enum FormOption {
    IntegratedSecurity,
    Encrypt,
    TrustServerCertificate,
}

/// The settings with the field `field` set to `value`.
pub open spec fn with_field(f: ConnectionSettings, field: FormField, value: Seq<char>) -> ConnectionSettings {
    match field {
        FormField::Name => ConnectionSettings { name: value, ..f },
        FormField::Server => ConnectionSettings { server: value, ..f },
        FormField::Port => ConnectionSettings { port: value, ..f },
        FormField::Database => ConnectionSettings { database: value, ..f },
        FormField::User => ConnectionSettings { user: value, ..f },
        FormField::Password => ConnectionSettings { password: value, ..f },
    }
}

/// The settings with the check box `option` flipped.
pub open spec fn with_option_flipped(f: ConnectionSettings, option: FormOption) -> ConnectionSettings {
    match option {
        FormOption::IntegratedSecurity => ConnectionSettings {
            integrated_security: !f.integrated_security,
            ..f
        },
        FormOption::Encrypt => ConnectionSettings { encrypt: !f.encrypt, ..f },
        FormOption::TrustServerCertificate => ConnectionSettings {
            trust_server_certificate: !f.trust_server_certificate,
            ..f
        },
    }
}

/// The style class of a chat message by its author.
pub open spec fn message_class(role: ChatRole) -> Seq<char> {
    match role {
        ChatRole::User => "message user"@,
        ChatRole::Assistant => "message assistant"@,
    }
}

/// The text of the status bar: the number of rows of the last result, or
/// that the editor is ready.
pub open spec fn status_text_of(v: AppView) -> Seq<char> {
    match v.last_result {
        Some(t) => "✓ "@ + decimal(t.rows.len()) + " filas"@,
        None => "Listo."@,
    }
}

/// The style class of the connection test's message: success when it starts
/// with `✓`.
pub open spec fn test_message_class_of(msg: Seq<char>) -> Seq<char> {
    if msg.len() > 0 && msg[0] == '✓' {
        "test-success"@
    } else {
        "test-error"@
    }
}

/// The style class of a chat message by its author.
pub fn chat_message_class(role: &ChatRole) -> (r: &'static str)
    ensures
        r@ == message_class(*role),
{
    match role {
        ChatRole::User => "message user",
        ChatRole::Assistant => "message assistant",
    }
}

/// The style class of the connection test's message.
pub fn test_message_class(msg: &str) -> (r: &'static str)
    ensures
        r@ == test_message_class_of(msg@),
{
    let chars = crate::text::chars_of(msg);
    if chars.len() > 0 && chars[0] == '✓' {
        "test-success"
    } else {
        "test-error"
    }
}

impl AppState {
    /// The screen when the editor starts.
    pub fn new() -> (r: Self)
        ensures
            r@ == initial_view(),
    {
        AppState {
            connection_form: ConnectionForm::default(),
            connection_state: ConnectionState::Disconnected,
            server_databases: Vec::new(),
            chat_messages: Vec::new(),
            chat_input: String::new(),
            last_result: None,
            last_generated_sql: None,
            connection_modal_open: false,
            chat_panel_open: true,
            sql_editor_content: String::new(),
            tree_expanded: true,
            test_message: None,
            is_testing: false,
        }
    }

    /// The user opens the "new connection" dialog.
    pub fn open_connection_modal(&mut self)
        ensures
            final(self)@ == after_open_modal(old(self)@),
    {
        self.test_message = None;
        self.connection_modal_open = true;
    }

    /// The user closes the dialog.
    pub fn close_connection_modal(&mut self)
        ensures
            final(self)@ == after_close_modal(old(self)@),
    {
        self.connection_modal_open = false;
    }

    /// The user shows or hides the chat panel.
    pub fn toggle_chat_panel(&mut self)
        ensures
            final(self)@ == after_toggle_chat(old(self)@),
    {
        self.chat_panel_open = !self.chat_panel_open;
    }

    /// The user unfolds or folds the tree of connections.
    pub fn toggle_tree(&mut self)
        ensures
            final(self)@ == after_toggle_tree(old(self)@),
    {
        self.tree_expanded = !self.tree_expanded;
    }

    /// The connection settings that the form holds.
    pub fn connect_params(&self) -> (r: ConnectParams)
        ensures
            r@ == self@.form,
    {
        let f = &self.connection_form;
        ConnectParams {
            name: f.name.clone(),
            server: f.server.clone(),
            port: f.port.clone(),
            database: f.database.clone(),
            user: f.user.clone(),
            password: f.password.clone(),
            integrated_security: f.integrated_security,
            encrypt: f.encrypt,
            trust_server_certificate: f.trust_server_certificate,
        }
    }

    /// The user tests the connection. Returns the settings to test, or
    /// `None` when the server is blank and nothing is to be sent.
    pub fn begin_test_connection(&mut self) -> (r: Option<ConnectParams>)
        ensures
            final(self)@ == after_test_click(old(self)@),
            r is Some <==> !is_blank_seq(old(self)@.form.server),
            r matches Some(p) ==> p@ == old(self)@.form,
    {
        if is_blank(self.connection_form.server.as_str()) {
            self.test_message = Some(String::from_str("Error: El servidor es obligatorio."));
            return None;
        }
        self.is_testing = true;
        self.test_message = None;
        Some(self.connect_params())
    }

    /// The backend answered a connection test.
    pub fn finish_test_connection(&mut self, outcome: Result<TestConnectionResult, String>)
        ensures
            final(self)@ == after_test_outcome(old(self)@, test_outcome(outcome)),
    {
        match outcome {
            Ok(res) => {
                if res.success {
                    self.server_databases = res.databases;
                    self.test_message = Some(String::from_str("✓ ").concat(res.message.as_str()));
                } else {
                    self.test_message = Some(String::from_str("✗ ").concat(res.message.as_str()));
                }
            },
            Err(e) => {
                self.test_message = Some(String::from_str("Error: ").concat(e.as_str()));
            },
        }
        self.is_testing = false;
    }

    /// The user asks to connect. Returns the settings to connect with, or
    /// `None` when the server is blank and nothing is to be sent.
    pub fn begin_connect(&mut self) -> (r: Option<ConnectParams>)
        ensures
            final(self)@ == after_connect_click(old(self)@),
            r is Some <==> !is_blank_seq(old(self)@.form.server),
            r matches Some(p) ==> p@ == old(self)@.form,
    {
        if is_blank(self.connection_form.server.as_str()) {
            self.connection_state = ConnectionState::Error(String::from_str("Servidor obligatorio."));
            return None;
        }
        self.connection_state = ConnectionState::Connecting;
        Some(self.connect_params())
    }

    /// The backend answered a connection request, with the databases of the
    /// server it connected to.
    pub fn finish_connect(&mut self, outcome: Result<TestConnectionResult, String>)
        ensures
            final(self)@ == after_connect_outcome(old(self)@, test_outcome(outcome)),
    {
        match outcome {
            Ok(res) => {
                self.connection_state = ConnectionState::Connected;
                self.connection_modal_open = false;
                self.server_databases = res.databases;
            },
            Err(e) => {
                self.connection_state = ConnectionState::Error(e);
            },
        }
    }

    /// The user sends the chat input. Returns the prompt to send to the
    /// assistant, or `None` when the input is blank.
    pub fn send_chat_message(&mut self) -> (r: Option<String>)
        ensures
            final(self)@ == after_send_chat(old(self)@),
            match r {
                Some(p) => p@ == trimmed(old(self)@.chat_input) && p@.len() > 0,
                None => trimmed(old(self)@.chat_input).len() == 0,
            },
    {
        let content = trim(self.chat_input.as_str());
        if content.as_str().is_empty() {
            return None;
        }
        let ghost before = self.chat_messages@;
        self.chat_messages.push(ChatMessage::new(ChatRole::User, content.clone()));
        assert(messages(self.chat_messages@) =~= messages(before).push((ChatRole::User, content@)));
        self.chat_input = String::new();
        self.last_generated_sql = None;
        Some(content)
    }

    /// The assistant answered.
    pub fn receive_chat_answer(&mut self, outcome: Result<GeneratedSqlAndAnswer, String>)
        ensures
            final(self)@ == after_chat_outcome(old(self)@, chat_outcome(outcome)),
            outcome matches Ok(a) ==> final(self).sql_editor_content@ == a.sql@ && opt_text(
                final(self).last_generated_sql,
            ) == Some(a.sql@),
    {
        proof {
            if outcome is Ok {
                lemma_chat_answer_reaches_editor(old(self)@, outcome->Ok_0@);
            }
        }
        let ghost before = self.chat_messages@;
        match outcome {
            Ok(resp) => {
                let text = resp.answer.concat("\n\nSQL generado:\n```sql\n").concat(
                    resp.sql.as_str(),
                ).concat("\n```");
                let ghost text_view = text@;
                self.chat_messages.push(ChatMessage::new(ChatRole::Assistant, text));
                assert(messages(self.chat_messages@) =~= messages(before).push(
                    (ChatRole::Assistant, text_view),
                ));
                self.last_generated_sql = Some(resp.sql.clone());
                self.sql_editor_content = resp.sql;
            },
            Err(e) => {
                let text = String::from_str("Error: ").concat(e.as_str());
                let ghost text_view = text@;
                self.chat_messages.push(ChatMessage::new(ChatRole::Assistant, text));
                assert(messages(self.chat_messages@) =~= messages(before).push(
                    (ChatRole::Assistant, text_view),
                ));
            },
        }
    }

    /// The user runs the editor's query. Returns the query to send, or
    /// `None` when the editor is blank.
    pub fn begin_run_sql(&self) -> (r: Option<String>)
        ensures
            opt_text(r) == sql_to_run(self@),
            r is None <==> is_blank_seq(self.sql_editor_content@),
            r matches Some(q) ==> q@ == trimmed(self.sql_editor_content@),
    {
        proof {
            lemma_run_sql_sends_trimmed_editor(self@);
        }
        let sql = trim(self.sql_editor_content.as_str());
        if sql.as_str().is_empty() {
            None
        } else {
            Some(sql)
        }
    }

    /// The backend answered a query.
    pub fn finish_run_sql(&mut self, outcome: Result<QueryResult, String>)
        ensures
            final(self)@ == after_query_outcome(old(self)@, query_outcome_view(outcome)),
    {
        match outcome {
            Ok(result) => {
                self.last_result = Some(result);
            },
            Err(_) => {},
        }
    }

    /// The user puts the SQL of the last answer in the editor.
    pub fn use_generated_sql(&mut self)
        ensures
            final(self)@ == after_use_generated_sql(old(self)@),
    {
        match &self.last_generated_sql {
            Some(sql) => {
                self.sql_editor_content = sql.clone();
            },
            None => {},
        }
    }

    /// The user types `value` into the dialog's field `field`.
    pub fn edit_form_field(&mut self, field: FormField, value: String)
        ensures
            final(self)@ == (AppView { form: with_field(old(self)@.form, field, value@), ..old(self)@ }),
    {
        match field {
            FormField::Name => self.connection_form.name = value,
            FormField::Server => self.connection_form.server = value,
            FormField::Port => self.connection_form.port = value,
            FormField::Database => self.connection_form.database = value,
            FormField::User => self.connection_form.user = value,
            FormField::Password => self.connection_form.password = value,
        }
    }

    /// The user flips the dialog's check box `option`.
    pub fn toggle_form_option(&mut self, option: FormOption)
        ensures
            final(self)@ == (AppView { form: with_option_flipped(old(self)@.form, option), ..old(self)@ }),
    {
        match option {
            FormOption::IntegratedSecurity => {
                self.connection_form.integrated_security = !self.connection_form.integrated_security;
            },
            FormOption::Encrypt => {
                self.connection_form.encrypt = !self.connection_form.encrypt;
            },
            FormOption::TrustServerCertificate => {
                self.connection_form.trust_server_certificate = !self.connection_form.trust_server_certificate;
            },
        }
    }

    /// The user types `value` into the SQL editor.
    pub fn edit_sql(&mut self, value: String)
        ensures
            final(self)@ == (AppView { sql_editor: value@, ..old(self)@ }),
    {
        self.sql_editor_content = value;
    }

    /// The user types `value` into the chat input.
    pub fn edit_chat_input(&mut self, value: String)
        ensures
            final(self)@ == (AppView { chat_input: value@, ..old(self)@ }),
    {
        self.chat_input = value;
    }

    /// The text of the status bar.
    pub fn status_text(&self) -> (r: String)
        ensures
            r@ == status_text_of(self@),
    {
        match &self.last_result {
            Some(result) => {
                let count = format_u64(result.rows.len() as u64);
                String::from_str("✓ ").concat(count.as_str()).concat(" filas")
            },
            None => String::from_str("Listo."),
        }
    }

    /// The arrow in front of the tree of connections.
    pub fn tree_chevron(&self) -> (r: &'static str)
        ensures
            r@ == (if self.tree_expanded {
                "▼"@
            } else {
                "▶"@
            }),
    {
        if self.tree_expanded {
            "▼"
        } else {
            "▶"
        }
    }

    /// The style class of the button that shows the chat panel.
    pub fn chat_button_class(&self) -> (r: &'static str)
        ensures
            r@ == (if self.chat_panel_open {
                "icon-btn active"@
            } else {
                "icon-btn"@
            }),
    {
        if self.chat_panel_open {
            "icon-btn active"
        } else {
            "icon-btn"
        }
    }

    /// The label of the dialog's test button.
    pub fn test_button_label(&self) -> (r: &'static str)
        ensures
            r@ == (if self.is_testing {
                "Probando..."@
            } else {
                "Probar Conexión"@
            }),
    {
        if self.is_testing {
            "Probando..."
        } else {
            "Probar Conexión"
        }
    }
}

/// Showing the chat panel twice leaves the screen as it was.
pub proof fn lemma_toggle_chat_twice(v: AppView)
    ensures
        after_toggle_chat(after_toggle_chat(v)) == v,
{
}

/// Folding the tree twice leaves the screen as it was.
pub proof fn lemma_toggle_tree_twice(v: AppView)
    ensures
        after_toggle_tree(after_toggle_tree(v)) == v,
{
}

/// Opening the dialog always clears the message of the last test.
pub proof fn lemma_open_modal_clears_test_message(v: AppView)
    ensures
        after_open_modal(v).modal_open,
        after_open_modal(v).test_message is None,
{
}

/// Whatever the backend answers, a connection test is over once its answer
/// has arrived.
pub proof fn lemma_test_always_ends(v: AppView, o: Result<ConnectionTest, Seq<char>>)
    ensures
        !after_test_outcome(v, o).is_testing,
{
}

/// With a server filled in, asking to connect and being answered with
/// success leaves the screen connected, with the dialog shut and the tree
/// listing the databases that came with the answer; with a blank server the
/// screen shows the error and nothing is sent.
pub proof fn lemma_connect_flow(v: AppView, t: ConnectionTest)
    ensures
        !is_blank_seq(v.form.server) ==> {
            let w = after_connect_outcome(after_connect_click(v), Ok(t));
            &&& w.connection == ConnectionStateView::Connected
            &&& !w.modal_open
            &&& w.server_databases == t.databases
        },
        is_blank_seq(v.form.server) ==> after_connect_click(v).connection
            == ConnectionStateView::Error(server_required_text()),
{
}

/// Sending twice in a row sends once: the input is empty after the first.
pub proof fn lemma_send_chat_twice(v: AppView)
    ensures
        after_send_chat(after_send_chat(v)) == after_send_chat(v),
{
    let w = after_send_chat(v);
    if trimmed(v.chat_input).len() != 0 {
        assert(trimmed(w.chat_input) =~= Seq::<char>::empty());
    }
}

/// An exchange with the assistant adds two messages: the user's trimmed
/// input, then the assistant's answer or error.
pub proof fn lemma_chat_exchange(v: AppView, o: Result<(Seq<char>, Seq<char>), Seq<char>>)
    requires
        trimmed(v.chat_input).len() > 0,
    ensures
        after_chat_outcome(after_send_chat(v), o).chat_messages.len() == v.chat_messages.len()
            + 2,
        after_chat_outcome(after_send_chat(v), o).chat_messages[v.chat_messages.len() as int]
            == (ChatRole::User, trimmed(v.chat_input)),
        after_chat_outcome(after_send_chat(v), o).chat_messages.last().0 == ChatRole::Assistant,
{
}

/// After an answer from the assistant, its query is already in the editor:
/// using it changes nothing.
pub proof fn lemma_generated_sql_in_editor(v: AppView, a: (Seq<char>, Seq<char>))
    ensures
        after_use_generated_sql(after_chat_outcome(v, Ok(a))) == after_chat_outcome(v, Ok(a)),
{
}

/// Running the editor's query sends exactly the editor's text without its
/// surrounding whitespace, whatever it holds (several lines included), and
/// sends nothing only when the editor is blank; what is sent neither starts
/// nor ends with whitespace.
pub proof fn lemma_run_sql_sends_trimmed_editor(v: AppView)
    ensures
        sql_to_run(v) is None <==> is_blank_seq(v.sql_editor),
        !is_blank_seq(v.sql_editor) ==> sql_to_run(v) == Some(trimmed(v.sql_editor)),
        sql_to_run(v) matches Some(q) ==> q.len() > 0 && !crate::text::is_white_space(q[0])
            && !crate::text::is_white_space(q.last()),
{
    crate::text::lemma_trimmed_shape(v.sql_editor);
}

/// After a successful answer from the assistant, the editor holds the
/// answer's query and so does the last generated query, whatever the editor
/// held before; the answer is added to the chat as the assistant's message.
pub proof fn lemma_chat_answer_reaches_editor(v: AppView, a: (Seq<char>, Seq<char>))
    ensures
        after_chat_outcome(v, Ok(a)).sql_editor == a.1,
        after_chat_outcome(v, Ok(a)).last_generated_sql == Some(a.1),
        after_chat_outcome(v, Ok(a)).chat_messages == v.chat_messages.push(
            (ChatRole::Assistant, a.0 + "\n\nSQL generado:\n```sql\n"@ + a.1 + "\n```"@),
        ),
{
}

} // verus!
