//! What the handlers decide: which requests are valid, which rows they
//! ask for, and how rows are shown.

pub mod auth;
pub mod cliente;
pub mod orcamento;
pub mod orcamento_produto;
pub mod produto;
pub mod user;
