//! The backend's decisions: how a connection is configured, which
//! connection attempts are refused, and how the rows that the server sends
//! become the lists and tables that the screen shows.

use vstd::prelude::*;

use tiberius::{AuthMethod, Config, EncryptionLevel};

use crate::api::{QueryTable, ConnectParams, GeneratedSqlAndAnswer, QueryResult, TestConnectionResult};
use crate::text::{format_i32, is_blank, is_blank_seq, parse_port, parse_u16_seq, signed_decimal, texts};

verus! {

/// Encryption that a connection asks for.
#[derive(Clone, Copy, Debug, PartialEq, Eq, Structural)]
pub enum Encryption {
    /// Encrypt everything, and fail when the server cannot.
    Required,
    /// Encrypt nothing.
    NotSupported,
}

/// How a connection logs in to the server.
#[derive(Debug)]
pub enum LoginPlan {
    /// Integrated Windows login, as the user running the editor.
    Windows,
    /// SQL Server login with this user and this password.
    SqlServer { user: String, password: String },
}

/// The model of a [`LoginPlan`].
#[verifier::ext_equal]
pub enum LoginPlanView {
    Windows,
    SqlServer(Seq<char>, Seq<char>),
}

impl View for LoginPlan {
    type V = LoginPlanView;

    open spec fn view(&self) -> LoginPlanView {
        match self {
            LoginPlan::Windows => LoginPlanView::Windows,
            LoginPlan::SqlServer { user, password } => LoginPlanView::SqlServer(user@, password@),
        }
    }
}

/// Everything the backend decides about a connection before it is made.
#[derive(Debug)]
pub struct ConfigPlan {
    pub host: String,
    pub port: Option<u16>,
    pub database: Option<String>,
    pub login: LoginPlan,
    pub encryption: Encryption,
    pub trust_cert: bool,
}

/// The model of a [`ConfigPlan`].
#[verifier::ext_equal]
pub struct ConfigPlanView {
    pub host: Seq<char>,
    pub port: Option<u16>,
    pub database: Option<Seq<char>>,
    pub login: LoginPlanView,
    pub encryption: Encryption,
    pub trust_cert: bool,
}

impl View for ConfigPlan {
    type V = ConfigPlanView;

    open spec fn view(&self) -> ConfigPlanView {
        ConfigPlanView {
            host: self.host@,
            port: self.port,
            database: match self.database {
                Some(d) => Some(d@),
                None => None,
            },
            login: self.login@,
            encryption: self.encryption,
            trust_cert: self.trust_cert,
        }
    }
}

/// The configuration that the settings `p` call for: the server as host;
/// the port only when it reads as a 16-bit number; the database only when it
/// is not blank; integrated Windows login under integrated security, else SQL
/// Server login with the user and password as typed; encryption required or
/// not supported;
/// and trust in the server's certificate when asked.
pub open spec fn config_plan(p: crate::state::ConnectionSettings) -> ConfigPlanView {
    ConfigPlanView {
        host: p.server,
        port: parse_u16_seq(p.port),
        database: if is_blank_seq(p.database) {
            None
        } else {
            Some(p.database)
        },
        login: if p.integrated_security {
            LoginPlanView::Windows
        } else {
            LoginPlanView::SqlServer(p.user, p.password)
        },
        encryption: if p.encrypt {
            Encryption::Required
        } else {
            Encryption::NotSupported
        },
        trust_cert: p.trust_server_certificate,
    }
}

/// Decides the configuration of a connection with the settings `params`.
pub fn plan_config(params: &ConnectParams) -> (r: ConfigPlan)
    ensures
        r@ == config_plan(params@),
{
    let port = parse_port(params.port.as_str());
    let database = if is_blank(params.database.as_str()) {
        None
    } else {
        Some(params.database.clone())
    };
    let login = if params.integrated_security {
        LoginPlan::Windows
    } else {
        LoginPlan::SqlServer { user: params.user.clone(), password: params.password.clone() }
    };
    let encryption = if params.encrypt {
        Encryption::Required
    } else {
        Encryption::NotSupported
    };
    ConfigPlan {
        host: params.server.clone(),
        port,
        database,
        login,
        encryption,
        trust_cert: params.trust_server_certificate,
    }
}


#[verifier::external_type_specification]
#[verifier::external_body]
pub struct ExConfig(Config);

#[verifier::external_type_specification]
#[verifier::external_body]
pub struct ExAuthMethod(AuthMethod);

/// The login that a configuration carries, as tiberius's `AuthMethod`
/// records it.
#[verifier::ext_equal]
pub enum LoginModel {
    /// No login chosen: tiberius's default, `AuthMethod::None`.
    NoLogin,
    /// SQL Server login with this user and this password.
    SqlServer(Seq<char>, Seq<char>),
}

/// How a configuration treats the server's certificate, as tiberius's
/// private `TrustConfig` records it.
#[derive(PartialEq, Eq, Structural)]
pub enum TrustModel {
    /// Checked against the system's certificate store (tiberius's default).
    SystemStore,
    /// Accepted without any check (`trust_cert`).
    TrustAll,
    /// Checked against a given certificate authority (`trust_cert_ca`).
    CaCertificate,
}

/// What a tiberius `Config` holds, field by field, as config.rs declares
/// it: host, port, database, whether a named instance is set, the login, the
/// encryption level when one was chosen, and the trust in certificates.
#[verifier::ext_equal]
pub struct ConfigModel {
    pub host: Option<Seq<char>>,
    pub port: Option<u16>,
    pub database: Option<Seq<char>>,
    pub named_instance: bool,
    pub login: LoginModel,
    pub encryption: Option<Encryption>,
    pub trust: TrustModel,
}

/// A tiberius configuration together with the model of what it holds.
pub struct SqlConfig {
    inner: Config,
    model: Ghost<ConfigModel>,
}

impl View for SqlConfig {
    type V = ConfigModel;

    closed spec fn view(&self) -> ConfigModel {
        self.model@
    }
}

/// A tiberius login method together with the model of what it holds.
pub struct SqlLogin {
    inner: AuthMethod,
    model: Ghost<LoginModel>,
}

impl View for SqlLogin {
    type V = LoginModel;

    closed spec fn view(&self) -> LoginModel {
        self.model@
    }
}

/// What `Config::new` holds: nothing set, no login, the system's
/// certificate store.
pub open spec fn fresh_config() -> ConfigModel {
    ConfigModel {
        host: None,
        port: None,
        database: None,
        named_instance: false,
        login: LoginModel::NoLogin,
        encryption: None,
        trust: TrustModel::SystemStore,
    }
}

/// The host that `Config::get_addr` uses: the one set, unless it is absent
/// or `.`, in which case `localhost`.
pub open spec fn addr_host(m: ConfigModel) -> Seq<char> {
    match m.host {
        Some(h) => if h == "."@ {
            "localhost"@
        } else {
            h
        },
        None => "localhost"@,
    }
}

/// The port that `Config::get_addr` uses: the one set; else 1434 for a named
/// instance; else 1433.
pub open spec fn addr_port(m: ConfigModel) -> u16 {
    match m.port {
        Some(p) => p,
        None => if m.named_instance {
            1434
        } else {
            1433
        },
    }
}

/// What `Config::get_addr` answers: host, `:`, and port in decimal.
pub open spec fn config_addr_text(m: ConfigModel) -> Seq<char> {
    addr_host(m) + ":"@ + crate::text::decimal(addr_port(m) as nat)
}

/// Calls `tiberius::Config::new`; per config.rs its fields start unset, with
/// no login and the system's certificate store. The encryption level it
/// starts with depends on tiberius's TLS features and is not stated.
#[verifier::external_body]
fn config_new() -> (c: SqlConfig)
    ensures
        c@ == fresh_config(),
{
    SqlConfig { inner: Config::new(), model: Ghost(fresh_config()) }
}

/// Calls `tiberius::Config::host`, which records `host` as the host.
#[verifier::external_body]
fn config_host(c: &mut SqlConfig, host: &str)
    ensures
        final(c)@ == (ConfigModel { host: Some(host@), ..old(c)@ }),
{
    c.inner.host(host)
}

/// Calls `tiberius::Config::port`, which records `port` as the port.
#[verifier::external_body]
fn config_port(c: &mut SqlConfig, port: u16)
    ensures
        final(c)@ == (ConfigModel { port: Some(port), ..old(c)@ }),
{
    c.inner.port(port)
}

/// Calls `tiberius::Config::database`, which records the database to open.
#[verifier::external_body]
fn config_database(c: &mut SqlConfig, database: &str)
    ensures
        final(c)@ == (ConfigModel { database: Some(database@), ..old(c)@ }),
{
    c.inner.database(database)
}

/// Calls `tiberius::AuthMethod::sql_server`, a SQL Server login that keeps
/// `user` and `password` as they are.
#[verifier::external_body]
fn auth_sql_server(user: &str, password: &str) -> (a: SqlLogin)
    ensures
        a@ == LoginModel::SqlServer(user@, password@),
{
    SqlLogin { inner: AuthMethod::sql_server(user, password), model: Ghost(LoginModel::SqlServer(user@, password@)) }
}

/// Calls `tiberius::Config::authentication`, which records the login.
#[verifier::external_body]
fn config_authentication(c: &mut SqlConfig, auth: SqlLogin)
    ensures
        final(c)@ == (ConfigModel { login: auth@, ..old(c)@ }),
{
    c.inner.authentication(auth.inner)
}

/// Calls `tiberius::Config::encryption` with the `tiberius::EncryptionLevel`
/// of the same name as `level`, which it records.
#[verifier::external_body]
fn config_encryption(c: &mut SqlConfig, level: Encryption)
    ensures
        final(c)@ == (ConfigModel { encryption: Some(level), ..old(c)@ }),
{
    c.inner.encryption(
        match level {
            Encryption::Required => EncryptionLevel::Required,
            Encryption::NotSupported => EncryptionLevel::NotSupported,
        },
    )
}

/// Calls `tiberius::Config::trust_cert`, which accepts the server's
/// certificate without checking it. It panics on a configuration that was
/// given a certificate authority, which `requires` leaves out.
#[verifier::external_body]
fn config_trust_cert(c: &mut SqlConfig)
    requires
        old(c)@.trust != TrustModel::CaCertificate,
    ensures
        final(c)@ == (ConfigModel { trust: TrustModel::TrustAll, ..old(c)@ }),
{
    c.inner.trust_cert()
}

/// Calls `tiberius::Config::get_addr`, which per config.rs writes the host
/// (`localhost` when unset or `.`), a colon and the port (1433 when unset
/// and no named instance is set).
#[verifier::external_body]
fn config_addr(c: &SqlConfig) -> (r: String)
    ensures
        r@ == config_addr_text(c@),
{
    c.inner.get_addr()
}

impl SqlConfig {
    /// The address to connect to: host and port, as tiberius writes them.
    pub fn addr(&self) -> (r: String)
        ensures
            r@ == config_addr_text(self@),
    {
        config_addr(self)
    }

    /// The tiberius configuration itself, to connect with.
    pub fn into_inner(self) -> Config {
        self.inner
    }
}

/// The configuration that carries out `plan`: its host; its port and
/// database where it has them; its SQL Server login, with its user and
/// password; its encryption; and trust in any certificate where it asks. A
/// Windows login is not among what tiberius offers on every platform, so the
/// configuration is left without a login for the caller to set it, where
/// tiberius offers it (`AuthMethod::Integrated`).
pub open spec fn configured(plan: ConfigPlanView) -> ConfigModel {
    ConfigModel {
        host: Some(plan.host),
        port: plan.port,
        database: plan.database,
        named_instance: false,
        login: match plan.login {
            LoginPlanView::SqlServer(user, password) => LoginModel::SqlServer(user, password),
            LoginPlanView::Windows => LoginModel::NoLogin,
        },
        encryption: Some(plan.encryption),
        trust: if plan.trust_cert {
            TrustModel::TrustAll
        } else {
            TrustModel::SystemStore
        },
    }
}

/// The tiberius configuration for the settings `params`: the one that
/// [`plan_config`] decides, applied to a fresh configuration.
pub fn create_config(params: &ConnectParams) -> (r: SqlConfig)
    ensures
        r@ == configured(config_plan(params@)),
        !params.integrated_security ==> r@.login == LoginModel::SqlServer(
            params.user@,
            params.password@,
        ),
        r@.host == Some(params.server@),
{
    proof {
        lemma_created_config_follows_form(params@);
    }
    let plan = plan_config(params);
    apply_plan(&plan)
}

/// A fresh tiberius configuration with `plan` applied to it: host, then port
/// and database where the plan has them, then login, encryption, and trust in
/// the certificate where the plan asks for it.
pub fn apply_plan(plan: &ConfigPlan) -> (r: SqlConfig)
    ensures
        r@ == configured(plan@),
{
    let mut config = config_new();
    config_host(&mut config, plan.host.as_str());
    match &plan.port {
        Some(port) => config_port(&mut config, *port),
        None => {},
    }
    match &plan.database {
        Some(db) => config_database(&mut config, db.as_str()),
        None => {},
    }
    match &plan.login {
        LoginPlan::SqlServer { user, password } => {
            let auth = auth_sql_server(user.as_str(), password.as_str());
            config_authentication(&mut config, auth);
        },
        LoginPlan::Windows => {},
    }
    config_encryption(&mut config, plan.encryption);
    if plan.trust_cert {
        config_trust_cert(&mut config);
    }
    config
}


/// Why a backend command failed.
#[derive(Debug)]
pub enum BackendFailure {
    /// Integrated (Windows) login was asked for on a platform where tiberius
    /// does not offer it.
    IntegratedSecurityUnsupported,
    /// The server could not be reached.
    Network(String),
    /// The network connection could not be set up.
    Socket(String),
    /// The server refused the login.
    Login(String),
    /// The list of databases could not be asked for.
    DatabaseList(String),
    /// A row of the list of databases could not be read.
    DatabaseRow(String),
    /// No connection has been made yet.
    NoActiveConnection,
    /// The query could not be run.
    Query(String),
    /// A part of the query's result could not be read.
    QueryResult(String),
}

/// The text that the screen shows for a failure.
pub open spec fn failure_text(f: BackendFailure) -> Seq<char> {
    match f {
        BackendFailure::IntegratedSecurityUnsupported => "La autenticación integrada no está soportada en esta compilación. Por favor usa Usuario y Contraseña."@,
        BackendFailure::Network(e) => "Error de red (verifica IP/Puerto): "@ + e@,
        BackendFailure::Socket(e) => e@,
        BackendFailure::Login(e) => "Error de conexión SQL (verifica usuario/password): "@ + e@,
        BackendFailure::DatabaseList(e) => "Error consultando bases de datos: "@ + e@,
        BackendFailure::DatabaseRow(e) => "Error en fila: "@ + e@,
        BackendFailure::NoActiveConnection => "No hay una conexión activa."@,
        BackendFailure::Query(e) => "Error ejecutando consulta: "@ + e@,
        BackendFailure::QueryResult(e) => "Error en resultado: "@ + e@,
    }
}

/// `prefix` followed by `detail`.
fn prefixed(prefix: &str, detail: &str) -> (r: String)
    ensures
        r@ == prefix@ + detail@,
{
    String::from_str(prefix).concat(detail)
}

impl BackendFailure {
    /// The text that the screen shows for this failure.
    pub fn message(&self) -> (r: String)
        ensures
            r@ == failure_text(*self),
    {
        match self {
            BackendFailure::IntegratedSecurityUnsupported => String::from_str(
                "La autenticación integrada no está soportada en esta compilación. Por favor usa Usuario y Contraseña.",
            ),
            BackendFailure::Network(e) => prefixed(
                "Error de red (verifica IP/Puerto): ",
                e.as_str(),
            ),
            BackendFailure::Socket(e) => e.clone(),
            BackendFailure::Login(e) => prefixed(
                "Error de conexión SQL (verifica usuario/password): ",
                e.as_str(),
            ),
            BackendFailure::DatabaseList(e) => prefixed(
                "Error consultando bases de datos: ",
                e.as_str(),
            ),
            BackendFailure::DatabaseRow(e) => prefixed("Error en fila: ", e.as_str()),
            BackendFailure::NoActiveConnection => String::from_str("No hay una conexión activa."),
            BackendFailure::Query(e) => prefixed("Error ejecutando consulta: ", e.as_str()),
            BackendFailure::QueryResult(e) => prefixed("Error en resultado: ", e.as_str()),
        }
    }
}

/// An item of the stream that the server answers a query with.
#[derive(Debug)]
pub enum QueryItem<R> {
    /// A row, as the backend read it.
    Row(R),
    /// The description of the columns that follow.
    Metadata,
    /// An error in the stream.
    Error(String),
}

/// The text of the first error among `items`, if there is one.
pub open spec fn first_error<R>(items: Seq<QueryItem<R>>) -> Option<Seq<char>>
    decreases items.len(),
{
    if items.len() == 0 {
        None
    } else {
        match first_error(items.drop_last()) {
            Some(e) => Some(e),
            None => match items.last() {
                QueryItem::Error(e) => Some(e@),
                _ => None,
            },
        }
    }
}

/// The names that the rows among `items` hold, in order; a row whose name
/// could not be read as text adds none.
pub open spec fn database_names(items: Seq<QueryItem<Option<String>>>) -> Seq<Seq<char>>
    decreases items.len(),
{
    if items.len() == 0 {
        Seq::empty()
    } else {
        let before = database_names(items.drop_last());
        match items.last() {
            QueryItem::Row(Some(name)) => before.push(name@),
            _ => before,
        }
    }
}

/// What a connection test answers when the server listed the databases in
/// `items`: the first error in the list, or success with `master` followed by
/// the names that the list holds.
pub open spec fn database_list_outcome(items: Seq<QueryItem<Option<String>>>) -> Result<
    crate::api::ConnectionTest,
    Seq<char>,
> {
    match first_error(items) {
        Some(e) => Err("Error en fila: "@ + e),
        None => Ok(
            crate::api::ConnectionTest {
                success: true,
                databases: seq!["master"@] + database_names(items),
                message: "Conexión exitosa."@,
            },
        ),
    }
}

/// The answer to a connection test, from the list of databases that the
/// server sent back (the user databases, read by name from the first column).
pub fn collect_databases(items: &Vec<QueryItem<Option<String>>>) -> (r: Result<
    TestConnectionResult,
    String,
>)
    ensures
        match (r, database_list_outcome(items@)) {
            (Ok(res), Ok(t)) => res@ == t,
            (Err(e), Err(t)) => e@ == t,
            _ => false,
        },
        (forall|k: int|
            0 <= k < items@.len() ==> (#[trigger] items@[k] matches QueryItem::Row(Some(_))))
            ==> (r matches Ok(res) && res.databases@.len() == items@.len() + 1),
{
    proof {
        if forall|k: int|
            0 <= k < items@.len() ==> (#[trigger] items@[k] matches QueryItem::Row(Some(_))) {
            lemma_every_named_row_listed(items@);
        }
    }
    let mut databases: Vec<String> = Vec::new();
    databases.push(String::from_str("master"));
    let n = items.len();
    for i in 0..n
        invariant
            n == items@.len(),
            first_error(items@.take(i as int)) is None,
            texts(databases@) == seq!["master"@] + database_names(items@.take(i as int)),
    {
        let ghost prefix = items@.take(i as int);
        let ghost next = items@.take(i + 1);
        assert(next.drop_last() =~= prefix);
        assert(next.last() == items@[i as int]);
        let ghost before = databases@;
        match &items[i] {
            QueryItem::Row(Some(name)) => {
                databases.push(name.clone());
                assert(texts(databases@) =~= texts(before).push(name@));
                assert(texts(databases@) =~= seq!["master"@] + database_names(next));
            },
            QueryItem::Row(None) => {},
            QueryItem::Metadata => {},
            QueryItem::Error(e) => {
                proof {
                    assert(first_error(items@) == first_error(next)) by {
                        lemma_first_error_prefix(items@, i + 1);
                    }
                }
                return Err(BackendFailure::DatabaseRow(e.clone()).message());
            },
        }
    }
    assert(items@.take(n as int) =~= items@);
    Ok(
        TestConnectionResult {
            success: true,
            databases,
            message: String::from_str("Conexión exitosa."),
        },
    )
}

/// Once an error has come, later items do not change which error came first.
proof fn lemma_first_error_prefix<R>(items: Seq<QueryItem<R>>, k: int)
    requires
        0 <= k <= items.len(),
        first_error(items.take(k)) is Some,
    ensures
        first_error(items) == first_error(items.take(k)),
    decreases items.len() - k,
{
    if k < items.len() {
        let next = items.take(k + 1);
        assert(next.drop_last() =~= items.take(k));
        lemma_first_error_prefix(items, k + 1);
    } else {
        assert(items.take(k) =~= items);
    }
}


/// What the backend could read from one cell of a row: the cell as text, as
/// a 32-bit integer, as a floating-point number already written out as text,
/// and, for a value of any other type, that value written out as text. Each
/// is `None` where the cell is not of that kind or is SQL `NULL`, so all are
/// `None` exactly when the cell is `NULL`.
#[derive(Debug)]
pub struct SqlCell {
    pub text: Option<String>,
    pub int: Option<i32>,
    pub float: Option<String>,
    pub other: Option<String>,
}

/// A row of a query's result: the names of its columns and its cells.
#[derive(Debug)]
pub struct SqlRow {
    pub columns: Vec<String>,
    pub cells: Vec<SqlCell>,
}

/// How the result table shows a cell: its text if it is text, else its
/// integer in decimal, else its floating-point number, else its value of
/// another type, else (for SQL `NULL`) `NULL`.
pub open spec fn cell_display(c: SqlCell) -> Seq<char> {
    match c.text {
        Some(t) => t@,
        None => match c.int {
            Some(n) => signed_decimal(n as int),
            None => match c.float {
                Some(f) => f@,
                None => match c.other {
                    Some(o) => o@,
                    None => "NULL"@,
                },
            },
        },
    }
}

/// How the result table shows a cell.
pub fn cell_text(c: &SqlCell) -> (r: String)
    ensures
        r@ == cell_display(*c),
        c.text is None && c.int is Some ==> r@ == signed_decimal(c.int->0 as int) && r@ != "NULL"@,
{
    proof {
        if c.text is None {
            if let Some(n) = c.int {
                lemma_integer_cell_shown_in_decimal(*c, n);
            }
        }
    }
    match &c.text {
        Some(t) => t.clone(),
        None => match c.int {
            Some(n) => format_i32(n),
            None => match &c.float {
                Some(f) => f.clone(),
                None => match &c.other {
                    Some(o) => o.clone(),
                    None => String::from_str("NULL"),
                },
            },
        },
    }
}

/// The texts of a row in a table `width` columns wide: one per column, `NULL`
/// where the row has no cell.
pub open spec fn row_display(r: SqlRow, width: nat) -> Seq<Seq<char>> {
    Seq::new(
        width,
        |i: int|
            if i < r.cells@.len() {
                cell_display(r.cells@[i])
            } else {
                "NULL"@
            },
    )
}

/// The texts of `row` in a table `width` columns wide.
pub fn row_texts(row: &SqlRow, width: usize) -> (r: Vec<String>)
    ensures
        texts(r@) == row_display(*row, width as nat),
{
    let mut out: Vec<String> = Vec::new();
    for i in 0..width
        invariant
            texts(out@) == row_display(*row, width as nat).take(i as int),
    {
        let t = if i < row.cells.len() {
            cell_text(&row.cells[i])
        } else {
            String::from_str("NULL")
        };
        let ghost before = out@;
        out.push(t);
        assert(texts(out@) =~= texts(before).push(t@));
        assert(texts(out@) =~= row_display(*row, width as nat).take(i + 1));
    }
    assert(row_display(*row, width as nat).take(width as int) =~= row_display(
        *row,
        width as nat,
    ));
    out
}

/// Whether a row is among `items`.
pub open spec fn seen_row<R>(items: Seq<QueryItem<R>>) -> bool
    decreases items.len(),
{
    items.len() > 0 && (seen_row(items.drop_last()) || items.last() is Row)
}

/// The columns of a query's result: those of its first row, or none.
pub open spec fn query_columns(items: Seq<QueryItem<SqlRow>>) -> Seq<Seq<char>>
    decreases items.len(),
{
    if items.len() == 0 {
        Seq::empty()
    } else if seen_row(items.drop_last()) {
        query_columns(items.drop_last())
    } else {
        match items.last() {
            QueryItem::Row(r) => texts(r.columns@),
            _ => Seq::empty(),
        }
    }
}

/// The rows of a query's result, each in a table `width` columns wide.
pub open spec fn query_rows(items: Seq<QueryItem<SqlRow>>, width: nat) -> Seq<Seq<Seq<char>>>
    decreases items.len(),
{
    if items.len() == 0 {
        Seq::empty()
    } else {
        let before = query_rows(items.drop_last(), width);
        match items.last() {
            QueryItem::Row(r) => before.push(row_display(r, width)),
            _ => before,
        }
    }
}

/// What running a query answers when the server sent `items`: the first
/// error among them, or the table whose columns are those of the first row
/// and which has every row in that many columns.
pub open spec fn query_outcome(items: Seq<QueryItem<SqlRow>>) -> Result<QueryTable, Seq<char>> {
    match first_error(items) {
        Some(e) => Err("Error en resultado: "@ + e),
        None => Ok(
            QueryTable {
                columns: query_columns(items),
                rows: query_rows(items, query_columns(items).len()),
            },
        ),
    }
}

/// Before the first row, there are neither columns nor rows.
proof fn lemma_no_row_yet(items: Seq<QueryItem<SqlRow>>, width: nat)
    requires
        !seen_row(items),
    ensures
        query_columns(items) == Seq::<Seq<char>>::empty(),
        query_rows(items, width) == Seq::<Seq<Seq<char>>>::empty(),
    decreases items.len(),
{
    if items.len() > 0 {
        lemma_no_row_yet(items.drop_last(), width);
    }
}

/// Every row of a query's result has as many texts as the table is wide.
pub proof fn lemma_query_rows_width(items: Seq<QueryItem<SqlRow>>, width: nat)
    ensures
        forall|i: int|
            0 <= i < query_rows(items, width).len() ==> #[trigger] query_rows(
                items,
                width,
            )[i].len() == width,
    decreases items.len(),
{
    if items.len() > 0 {
        lemma_query_rows_width(items.drop_last(), width);
        let before = query_rows(items.drop_last(), width);
        let all = query_rows(items, width);
        assert forall|i: int| 0 <= i < all.len() implies #[trigger] all[i].len() == width by {
            if i < before.len() {
                assert(all[i] == before[i]);
            }
        }
    }
}

/// Copies of the texts in `v`.
fn clone_texts(v: &Vec<String>) -> (r: Vec<String>)
    ensures
        texts(r@) == texts(v@),
{
    let mut out: Vec<String> = Vec::new();
    for i in 0..v.len()
        invariant
            texts(out@) == texts(v@).take(i as int),
    {
        let ghost before = out@;
        out.push(v[i].clone());
        assert(texts(out@) =~= texts(before).push(v@[i as int]@));
        assert(texts(out@) =~= texts(v@).take(i + 1));
    }
    assert(texts(v@).take(v@.len() as int) =~= texts(v@));
    out
}

/// The answer to a query, from the items that the server sent back.
pub fn build_query_result(items: &Vec<QueryItem<SqlRow>>) -> (r: Result<QueryResult, String>)
    ensures
        match (r, query_outcome(items@)) {
            (Ok(res), Ok(t)) => res@ == t,
            (Err(e), Err(t)) => e@ == t,
            _ => false,
        },
{
    let mut columns: Vec<String> = Vec::new();
    let mut rows: Vec<Vec<String>> = Vec::new();
    let mut first_row = true;
    let n = items.len();
    for i in 0..n
        invariant
            n == items@.len(),
            first_error(items@.take(i as int)) is None,
            first_row == !seen_row(items@.take(i as int)),
            texts(columns@) == query_columns(items@.take(i as int)),
            rows@.map_values(|r: Vec<String>| texts(r@)) == query_rows(
                items@.take(i as int),
                columns@.len() as nat,
            ),
    {
        let ghost prefix = items@.take(i as int);
        let ghost next = items@.take(i + 1);
        assert(next.drop_last() =~= prefix);
        assert(next.last() == items@[i as int]);
        match &items[i] {
            QueryItem::Row(row) => {
                if first_row {
                    proof {
                        lemma_no_row_yet(prefix, row.columns@.len() as nat);
                        lemma_no_row_yet(prefix, columns@.len() as nat);
                    }
                    columns = clone_texts(&row.columns);
                }
                let ghost before = rows@;
                let width = columns.len();
                let texts_of_row = row_texts(row, width);
                rows.push(texts_of_row);
                assert(query_columns(next) == texts(columns@));
                assert(query_rows(next, width as nat) == query_rows(prefix, width as nat).push(
                    row_display(*row, width as nat),
                ));
                assert(rows@.map_values(|r: Vec<String>| texts(r@)) =~= before.map_values(
                    |r: Vec<String>| texts(r@),
                ).push(texts(texts_of_row@)));
                first_row = false;
            },
            QueryItem::Metadata => {
                assert(query_rows(next, columns@.len() as nat) == query_rows(
                    prefix,
                    columns@.len() as nat,
                ));
            },
            QueryItem::Error(e) => {
                proof {
                    assert(first_error(items@) == first_error(next)) by {
                        lemma_first_error_prefix(items@, i + 1);
                    }
                }
                return Err(BackendFailure::QueryResult(e.clone()).message());
            },
        }
    }
    assert(items@.take(n as int) =~= items@);
    Ok(QueryResult { columns, rows })
}


/// Under integrated security the plan logs in as the Windows user and uses
/// neither the user nor the password of the form; without it, it logs in to
/// SQL Server with the form's user and password, as typed.
pub proof fn lemma_integrated_security_login(p: crate::state::ConnectionSettings)
    ensures
        p.integrated_security ==> config_plan(p).login == LoginPlanView::Windows,
        p.integrated_security ==> forall|u: Seq<char>, w: Seq<char>|
            config_plan(p) == config_plan(
                crate::state::ConnectionSettings { user: u, password: w, ..p },
            ),
        !p.integrated_security ==> config_plan(p).login == LoginPlanView::SqlServer(
            p.user,
            p.password,
        ),
{
}

/// A cell that holds an integer (and no text) shows that integer's decimal
/// text, which reads back as the integer, and never `NULL`; zero included.
pub proof fn lemma_integer_cell_shown_in_decimal(c: SqlCell, n: i32)
    requires
        c.text is None,
        c.int == Some(n),
    ensures
        cell_display(c) == signed_decimal(n as int),
        n >= 0 ==> crate::text::digits_value(cell_display(c)) == n,
        n < 0 ==> cell_display(c)[0] == '-' && crate::text::digits_value(cell_display(c).drop_first())
            == -n,
        cell_display(c) != "NULL"@,
{
    crate::text::lemma_signed_decimal_reads_back(n as int);
    reveal_strlit("NULL");
    assert("NULL"@[0] == 'N');
}

/// A cell without text shows `NULL` only when it holds no integer either:
/// `NULL` never stands for an integer, zero included.
pub proof fn lemma_null_only_without_value(c: SqlCell)
    requires
        cell_display(c) == "NULL"@,
    ensures
        c.text is None ==> c.int is None,
{
    if c.text is None {
        if let Some(n) = c.int {
            lemma_integer_cell_shown_in_decimal(c, n);
        }
    }
}

/// In the result of a query with one row, each integer cell of a column
/// shows as the integer's decimal text.
pub proof fn lemma_one_row_integer_cells(r: SqlRow, j: int, n: i32)
    requires
        0 <= j < r.columns@.len(),
        j < r.cells@.len(),
        r.cells@[j].text is None,
        r.cells@[j].int == Some(n),
    ensures
        query_outcome(seq![QueryItem::Row(r)]) matches Ok(t) && t.rows.len() == 1
            && t.rows[0][j] == signed_decimal(n as int) && t.rows[0][j] != "NULL"@,
{
    let items = seq![QueryItem::Row(r)];
    let empty = Seq::<QueryItem<SqlRow>>::empty();
    assert(items.len() == 1);
    assert(items.drop_last() =~= empty);
    assert(items.last() == QueryItem::Row(r));
    assert(first_error(empty) is None);
    assert(first_error(items) is None);
    let w = texts(r.columns@).len();
    assert(query_rows(empty, w) == Seq::<Seq<Seq<char>>>::empty());
    assert(query_rows(items, w) == seq![row_display(r, w)]);
    assert(!seen_row(items.drop_last()));
    assert(query_columns(items) == texts(r.columns@));
    lemma_integer_cell_shown_in_decimal(r.cells@[j], n);
}

/// Without integrated security, the configuration built from the form logs
/// in to SQL Server with the form's user as user and the form's password as
/// password; in every case it connects to the form's server, on the form's
/// port when that reads as a number, to the form's database unless blank,
/// with the encryption and certificate trust that the form asks for.
pub proof fn lemma_created_config_follows_form(p: crate::state::ConnectionSettings)
    ensures
        !p.integrated_security ==> configured(config_plan(p)).login == LoginModel::SqlServer(
            p.user,
            p.password,
        ),
        configured(config_plan(p)).host == Some(p.server),
        configured(config_plan(p)).port == parse_u16_seq(p.port),
        configured(config_plan(p)).database is None <==> is_blank_seq(p.database),
        !is_blank_seq(p.database) ==> configured(config_plan(p)).database == Some(p.database),
        configured(config_plan(p)).encryption == Some(
            if p.encrypt {
                Encryption::Required
            } else {
                Encryption::NotSupported
            },
        ),
        (configured(config_plan(p)).trust == TrustModel::TrustAll) == p.trust_server_certificate,
{
}

/// When every item is a row with a name, the databases listed are `master`
/// and then every one of those names, in order: one per row, none dropped.
pub proof fn lemma_every_named_row_listed(items: Seq<QueryItem<Option<String>>>)
    requires
        forall|k: int| 0 <= k < items.len() ==> (#[trigger] items[k] matches QueryItem::Row(Some(_))),
    ensures
        database_list_outcome(items) matches Ok(t) && t.databases.len() == items.len() + 1
            && t.databases[0] == "master"@ && forall|k: int|
            0 <= k < items.len() ==> (#[trigger] items[k] matches QueryItem::Row(Some(name))
                && t.databases[k + 1] == name@),
    decreases items.len(),
{
    lemma_named_rows(items);
}

/// The names and the absence of errors of a list of named rows.
proof fn lemma_named_rows(items: Seq<QueryItem<Option<String>>>)
    requires
        forall|k: int| 0 <= k < items.len() ==> (#[trigger] items[k] matches QueryItem::Row(Some(_))),
    ensures
        first_error(items) is None,
        database_names(items).len() == items.len(),
        forall|k: int|
            0 <= k < items.len() ==> (items[k] matches QueryItem::Row(Some(name))
                && #[trigger] database_names(items)[k] == name@),
    decreases items.len(),
{
    if items.len() > 0 {
        let before = items.drop_last();
        assert forall|k: int| 0 <= k < before.len() implies (#[trigger] before[k] matches QueryItem::Row(Some(_))) by {
            assert(before[k] == items[k]);
        }
        lemma_named_rows(before);
        assert(items[items.len() - 1] matches QueryItem::Row(Some(_)));
        assert forall|k: int| 0 <= k < items.len() implies (items[k] matches QueryItem::Row(Some(name))
                && #[trigger] database_names(items)[k] == name@) by {
            if k < before.len() {
                assert(before[k] == items[k]);
            }
        }
    }
}

/// A query's result, when there is one, is a table: every row has one text
/// per column.
pub proof fn lemma_query_outcome_rectangular(items: Seq<QueryItem<SqlRow>>)
    ensures
        query_outcome(items) matches Ok(t) ==> forall|i: int|
            0 <= i < t.rows.len() ==> #[trigger] t.rows[i].len() == t.columns.len(),
{
    lemma_query_rows_width(items, query_columns(items).len());
}

/// A successful connection test always lists `master` first, and then one
/// database per row that holds a name.
pub proof fn lemma_database_list_starts_with_master(items: Seq<QueryItem<Option<String>>>)
    ensures
        database_list_outcome(items) matches Ok(t) ==> t.success && t.databases.len()
            == 1 + database_names(items).len() && t.databases[0] == "master"@,
{
}

/// What a chat request asks for, as the assistant recognises it.
#[derive(Clone, Copy, Debug, PartialEq, Eq, Structural)]
pub enum ChatIntent {
    /// The columns of the tables ("columna").
    Columns,
    /// The server's databases ("base").
    Databases,
    /// The views ("vista").
    Views,
    /// The stored procedures ("procedimiento").
    Procedures,
    /// The tables ("tabla").
    Tables,
    /// Nothing the assistant recognises.
    Unknown,
}

/// What a request asks for: the first of these words that it holds, with
/// capitals read as small letters: "columna", "base", "vista",
/// "procedimiento", "tabla".
pub open spec fn chat_intent(prompt: Seq<char>) -> ChatIntent {
    let p = crate::text::ascii_lowered(prompt);
    if crate::text::contains_seq(p, "columna"@) {
        ChatIntent::Columns
    } else if crate::text::contains_seq(p, "base"@) {
        ChatIntent::Databases
    } else if crate::text::contains_seq(p, "vista"@) {
        ChatIntent::Views
    } else if crate::text::contains_seq(p, "procedimiento"@) {
        ChatIntent::Procedures
    } else if crate::text::contains_seq(p, "tabla"@) {
        ChatIntent::Tables
    } else {
        ChatIntent::Unknown
    }
}

/// The assistant's explanation for a request.
pub open spec fn intent_answer(i: ChatIntent) -> Seq<char> {
    match i {
        ChatIntent::Columns => "Columnas de cada tabla, con su tipo de dato."@,
        ChatIntent::Databases => "Bases de datos del servidor."@,
        ChatIntent::Views => "Vistas de la base de datos actual."@,
        ChatIntent::Procedures => "Procedimientos almacenados de la base de datos actual."@,
        ChatIntent::Tables => "Tablas de la base de datos actual."@,
        ChatIntent::Unknown => "Simulación: Analizando esquema real..."@,
    }
}

/// The query that carries out a request.
pub open spec fn intent_sql(i: ChatIntent) -> Seq<char> {
    match i {
        ChatIntent::Columns => "SELECT TABLE_NAME, COLUMN_NAME, DATA_TYPE FROM INFORMATION_SCHEMA.COLUMNS ORDER BY TABLE_NAME, ORDINAL_POSITION;"@,
        ChatIntent::Databases => "SELECT name FROM sys.databases ORDER BY name;"@,
        ChatIntent::Views => "SELECT TABLE_SCHEMA, TABLE_NAME FROM INFORMATION_SCHEMA.VIEWS ORDER BY TABLE_SCHEMA, TABLE_NAME;"@,
        ChatIntent::Procedures => "SELECT ROUTINE_SCHEMA, ROUTINE_NAME FROM INFORMATION_SCHEMA.ROUTINES WHERE ROUTINE_TYPE = 'PROCEDURE' ORDER BY ROUTINE_SCHEMA, ROUTINE_NAME;"@,
        ChatIntent::Tables => "SELECT TABLE_SCHEMA, TABLE_NAME FROM INFORMATION_SCHEMA.TABLES WHERE TABLE_TYPE = 'BASE TABLE' ORDER BY TABLE_SCHEMA, TABLE_NAME;"@,
        ChatIntent::Unknown => "SELECT TOP (10) * FROM sys.tables;"@,
    }
}

/// Whether the request `p` (already in small letters) holds `word`.
fn holds_word(p: &Vec<char>, word: &str) -> (r: bool)
    ensures
        r == crate::text::contains_seq(p@, word@),
{
    let w = crate::text::chars_of(word);
    crate::text::contains_chars(p, &w)
}

/// What the request `prompt` asks for.
pub fn recognise_intent(prompt: &str) -> (r: ChatIntent)
    ensures
        r == chat_intent(prompt@),
{
    let p = crate::text::lower_chars(&crate::text::chars_of(prompt));
    if holds_word(&p, "columna") {
        ChatIntent::Columns
    } else if holds_word(&p, "base") {
        ChatIntent::Databases
    } else if holds_word(&p, "vista") {
        ChatIntent::Views
    } else if holds_word(&p, "procedimiento") {
        ChatIntent::Procedures
    } else if holds_word(&p, "tabla") {
        ChatIntent::Tables
    } else {
        ChatIntent::Unknown
    }
}

/// The assistant's answer to a chat message: the query that carries out
/// what the message asks for, with an explanation.
pub fn send_chat_message(prompt: String) -> (r: Result<GeneratedSqlAndAnswer, String>)
    ensures
        r matches Ok(a) && a@ == (
            intent_answer(chat_intent(prompt@)),
            intent_sql(chat_intent(prompt@)),
        ),
{
    let intent = recognise_intent(prompt.as_str());
    let (answer, sql) = match intent {
        ChatIntent::Columns => (
            "Columnas de cada tabla, con su tipo de dato.",
            "SELECT TABLE_NAME, COLUMN_NAME, DATA_TYPE FROM INFORMATION_SCHEMA.COLUMNS ORDER BY TABLE_NAME, ORDINAL_POSITION;",
        ),
        ChatIntent::Databases => (
            "Bases de datos del servidor.",
            "SELECT name FROM sys.databases ORDER BY name;",
        ),
        ChatIntent::Views => (
            "Vistas de la base de datos actual.",
            "SELECT TABLE_SCHEMA, TABLE_NAME FROM INFORMATION_SCHEMA.VIEWS ORDER BY TABLE_SCHEMA, TABLE_NAME;",
        ),
        ChatIntent::Procedures => (
            "Procedimientos almacenados de la base de datos actual.",
            "SELECT ROUTINE_SCHEMA, ROUTINE_NAME FROM INFORMATION_SCHEMA.ROUTINES WHERE ROUTINE_TYPE = 'PROCEDURE' ORDER BY ROUTINE_SCHEMA, ROUTINE_NAME;",
        ),
        ChatIntent::Tables => (
            "Tablas de la base de datos actual.",
            "SELECT TABLE_SCHEMA, TABLE_NAME FROM INFORMATION_SCHEMA.TABLES WHERE TABLE_TYPE = 'BASE TABLE' ORDER BY TABLE_SCHEMA, TABLE_NAME;",
        ),
        ChatIntent::Unknown => (
            "Simulación: Analizando esquema real...",
            "SELECT TOP (10) * FROM sys.tables;",
        ),
    };
    Ok(GeneratedSqlAndAnswer { answer: String::from_str(answer), sql: String::from_str(sql) })
}

/// Requests for different things get different queries.
pub proof fn lemma_distinct_requests_distinct_queries(a: ChatIntent, b: ChatIntent)
    ensures
        a != b ==> intent_sql(a) != intent_sql(b),
{
    reveal_strlit(
        "SELECT TABLE_NAME, COLUMN_NAME, DATA_TYPE FROM INFORMATION_SCHEMA.COLUMNS ORDER BY TABLE_NAME, ORDINAL_POSITION;",
    );
    reveal_strlit("SELECT name FROM sys.databases ORDER BY name;");
    reveal_strlit(
        "SELECT TABLE_SCHEMA, TABLE_NAME FROM INFORMATION_SCHEMA.VIEWS ORDER BY TABLE_SCHEMA, TABLE_NAME;",
    );
    reveal_strlit(
        "SELECT ROUTINE_SCHEMA, ROUTINE_NAME FROM INFORMATION_SCHEMA.ROUTINES WHERE ROUTINE_TYPE = 'PROCEDURE' ORDER BY ROUTINE_SCHEMA, ROUTINE_NAME;",
    );
    reveal_strlit(
        "SELECT TABLE_SCHEMA, TABLE_NAME FROM INFORMATION_SCHEMA.TABLES WHERE TABLE_TYPE = 'BASE TABLE' ORDER BY TABLE_SCHEMA, TABLE_NAME;",
    );
    reveal_strlit("SELECT TOP (10) * FROM sys.tables;");
    assert(intent_sql(ChatIntent::Columns).len() == 112);
    assert(intent_sql(ChatIntent::Databases).len() == 45);
    assert(intent_sql(ChatIntent::Views).len() == 96);
    assert(intent_sql(ChatIntent::Procedures).len() == 140);
    assert(intent_sql(ChatIntent::Tables).len() == 129);
    assert(intent_sql(ChatIntent::Unknown).len() == 34);
}

} // verus!
