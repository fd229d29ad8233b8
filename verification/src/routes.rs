//! The route table: which path leads to which handler, and which routes
//! are protected.
//!
//! Everything under `/api/v1` is protected but for `/api/v1/auth`, where
//! callers log in and out, and so are the files under `/secure`. The health
//! check and the public files are open to all.

use vstd::prelude::*;
use vstd::string::*;

verus! {

/// The method of a request.
#[derive(Clone, Copy, Debug, PartialEq, Eq, Structural)]
pub enum Method {
    Get,
    Post,
    Put,
    Delete,
}

/// What answers a request.
#[derive(Clone, Copy, Debug, PartialEq, Eq, Structural)]
pub enum Handler {
    GetHealth,
    Login,
    Logout,
    CheckAuth,
    GetUser,
    UpdateUser,
    DeleteUser,
    GetUsers,
    CreateUser,
    GetCliente,
    UpdateCliente,
    DeleteCliente,
    GetClientes,
    CreateCliente,
    GetProduto,
    UpdateProduto,
    DeleteProduto,
    GetProdutos,
    CreateProduto,
    GetOrcamento,
    DeleteOrcamento,
    CreateOrcamento,
    /// Files from the folder `./static-secure`.
    SecureFiles,
    /// Files from the folder `./static`.
    PublicFiles,
}

/// One line of the route table.
#[derive(Clone, Copy, Debug, PartialEq, Eq)]
pub struct Route {
    pub method: Method,
    /// The path, with `{id}` where an id stands. For files it is the
    /// folder's mount point.
    pub path: &'static str,
    pub handler: Handler,
    /// Whether the auth gate stands before the handler.
    pub protected: bool,
}

/// Whether the path lies in the scope: it is the scope itself, or goes on
/// after it with a slash.
pub open spec fn under(path: Seq<char>, scope: Seq<char>) -> bool {
    &&& path.len() >= scope.len()
    &&& path.subrange(0, scope.len() as int) == scope
    &&& (path.len() == scope.len() || path[scope.len() as int] == '/')
}

/// Whether a path is protected.
pub open spec fn protected_path(path: Seq<char>) -> bool {
    (under(path, "/api/v1"@) && !under(path, "/api/v1/auth"@)) || under(path, "/secure"@)
}

/// Whether the path lies in the scope.
pub fn is_under(path: &str, scope: &str) -> (yes: bool)
    ensures
        yes == under(path@, scope@),
{
    let n: usize = scope.unicode_len();
    let m: usize = path.unicode_len();
    if m < n {
        return false;
    }
    let mut i: usize = 0;
    while i < n
        invariant
            n == scope@.len(),
            m == path@.len(),
            n <= m,
            i <= n,
            forall|k: int| 0 <= k < i ==> path@[k] == scope@[k],
        decreases n - i,
    {
        if path.get_char(i) != scope.get_char(i) {
            assert(path@.subrange(0, n as int)[i as int] != scope@[i as int]);
            return false;
        }
        i += 1;
    }
    assert(path@.subrange(0, n as int) =~= scope@);
    m == n || path.get_char(n) == '/'
}

/// Whether a path is protected.
pub fn is_protected(path: &str) -> (yes: bool)
    ensures
        yes == protected_path(path@),
{
    (is_under(path, "/api/v1") && !is_under(path, "/api/v1/auth")) || is_under(path, "/secure")
}

/// One line of the table, with the protection its path calls for.
fn route(method: Method, path: &'static str, handler: Handler) -> (r: Route)
    ensures
        line(r) == entry(method, path@, handler),
{
    Route { method, path, handler, protected: is_protected(path) }
}

/// What a line of the table says.
pub open spec fn line(r: Route) -> (Method, Seq<char>, Handler, bool) {
    (r.method, r.path@, r.handler, r.protected)
}

/// A line of the table: the method, the path, the handler, and whether
/// the path is protected.
pub open spec fn entry(method: Method, path: Seq<char>, handler: Handler) -> (
    Method,
    Seq<char>,
    Handler,
    bool,
) {
    (method, path, handler, protected_path(path))
}

/// The lines of the table, in the order in which they are tried.
pub open spec fn table() -> Seq<(Method, Seq<char>, Handler, bool)> {
    seq![
        entry(Method::Get, "/health"@, Handler::GetHealth),
        entry(Method::Post, "/api/v1/auth/login"@, Handler::Login),
        entry(Method::Get, "/api/v1/auth/logout"@, Handler::Logout),
        entry(Method::Post, "/api/v1/check-auth"@, Handler::CheckAuth),
        entry(Method::Get, "/api/v1/user/{id}"@, Handler::GetUser),
        entry(Method::Put, "/api/v1/user/{id}"@, Handler::UpdateUser),
        entry(Method::Delete, "/api/v1/user/{id}"@, Handler::DeleteUser),
        entry(Method::Get, "/api/v1/user"@, Handler::GetUsers),
        entry(Method::Post, "/api/v1/user"@, Handler::CreateUser),
        entry(Method::Get, "/api/v1/cliente/{id}"@, Handler::GetCliente),
        entry(Method::Put, "/api/v1/cliente/{id}"@, Handler::UpdateCliente),
        entry(Method::Delete, "/api/v1/cliente/{id}"@, Handler::DeleteCliente),
        entry(Method::Get, "/api/v1/cliente"@, Handler::GetClientes),
        entry(Method::Post, "/api/v1/cliente"@, Handler::CreateCliente),
        entry(Method::Get, "/api/v1/produto/{id}"@, Handler::GetProduto),
        entry(Method::Put, "/api/v1/produto/{id}"@, Handler::UpdateProduto),
        entry(Method::Delete, "/api/v1/produto/{id}"@, Handler::DeleteProduto),
        entry(Method::Get, "/api/v1/produto"@, Handler::GetProdutos),
        entry(Method::Post, "/api/v1/produto"@, Handler::CreateProduto),
        entry(Method::Get, "/api/v1/orcamento/{id}"@, Handler::GetOrcamento),
        entry(Method::Delete, "/api/v1/orcamento/{id}"@, Handler::DeleteOrcamento),
        entry(Method::Post, "/api/v1/orcamento"@, Handler::CreateOrcamento),
        entry(Method::Get, "/secure"@, Handler::SecureFiles),
        entry(Method::Get, ""@, Handler::PublicFiles),
    ]
}

/// The route table. Each line is protected exactly if its path is.
pub fn routes() -> (lines: Vec<Route>)
    ensures
        lines@.len() == table().len(),
        forall|i: int| 0 <= i < lines@.len() ==> line(#[trigger] lines@[i]) == table()[i],
{
    let mut lines: Vec<Route> = Vec::new();
    lines.push(route(Method::Get, "/health", Handler::GetHealth));
    lines.push(route(Method::Post, "/api/v1/auth/login", Handler::Login));
    lines.push(route(Method::Get, "/api/v1/auth/logout", Handler::Logout));
    lines.push(route(Method::Post, "/api/v1/check-auth", Handler::CheckAuth));
    lines.push(route(Method::Get, "/api/v1/user/{id}", Handler::GetUser));
    lines.push(route(Method::Put, "/api/v1/user/{id}", Handler::UpdateUser));
    lines.push(route(Method::Delete, "/api/v1/user/{id}", Handler::DeleteUser));
    lines.push(route(Method::Get, "/api/v1/user", Handler::GetUsers));
    lines.push(route(Method::Post, "/api/v1/user", Handler::CreateUser));
    lines.push(route(Method::Get, "/api/v1/cliente/{id}", Handler::GetCliente));
    lines.push(route(Method::Put, "/api/v1/cliente/{id}", Handler::UpdateCliente));
    lines.push(route(Method::Delete, "/api/v1/cliente/{id}", Handler::DeleteCliente));
    lines.push(route(Method::Get, "/api/v1/cliente", Handler::GetClientes));
    lines.push(route(Method::Post, "/api/v1/cliente", Handler::CreateCliente));
    lines.push(route(Method::Get, "/api/v1/produto/{id}", Handler::GetProduto));
    lines.push(route(Method::Put, "/api/v1/produto/{id}", Handler::UpdateProduto));
    lines.push(route(Method::Delete, "/api/v1/produto/{id}", Handler::DeleteProduto));
    lines.push(route(Method::Get, "/api/v1/produto", Handler::GetProdutos));
    lines.push(route(Method::Post, "/api/v1/produto", Handler::CreateProduto));
    lines.push(route(Method::Get, "/api/v1/orcamento/{id}", Handler::GetOrcamento));
    lines.push(route(Method::Delete, "/api/v1/orcamento/{id}", Handler::DeleteOrcamento));
    lines.push(route(Method::Post, "/api/v1/orcamento", Handler::CreateOrcamento));
    lines.push(route(Method::Get, "/secure", Handler::SecureFiles));
    lines.push(route(Method::Get, "", Handler::PublicFiles));
    lines
}

/// Every line of the table is protected exactly if its path is.
pub proof fn lemma_table_follows_the_rule(i: int)
    requires
        0 <= i < table().len(),
    ensures
        table()[i].3 == protected_path(table()[i].1),
{
}

/// Nothing under `/api/v1/auth` is protected: callers log in and out
/// without passing the auth gate.
pub proof fn lemma_login_scope_is_open(path: Seq<char>)
    requires
        under(path, "/api/v1/auth"@),
    ensures
        !protected_path(path),
{
    reveal_strlit("/api/v1/auth");
    reveal_strlit("/secure");
    assert(path.subrange(0, 12)[1] == 'a');
    if under(path, "/secure"@) {
        assert(path.subrange(0, 7)[1] == 's');
    }
}

/// A path outside `/api/v1` and `/secure` is not protected.
pub proof fn lemma_outside_is_open(path: Seq<char>)
    requires
        !under(path, "/api/v1"@),
        !under(path, "/secure"@),
    ensures
        !protected_path(path),
{
}

} // verus!
