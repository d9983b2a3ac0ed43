//! Who a request comes from: credentials, tokens and the verified identity.

pub mod jwt;
pub mod password;

use vstd::prelude::*;

verus! {

/// The verified identity that travels with a request: who the caller is
/// and whether they administer the forum.
#[derive(Debug, Clone, PartialEq, Eq)]
pub struct AuthPayload {
    pub user_id: u128,
    pub username: String,
    pub is_admin: bool,
}

/// The mathematical value of an [`AuthPayload`].
pub struct AuthPayloadView {
    pub user_id: u128,
    pub username: Seq<char>,
    pub is_admin: bool,
}

impl View for AuthPayload {
    type V = AuthPayloadView;

    open spec fn view(&self) -> AuthPayloadView {
        AuthPayloadView { user_id: self.user_id, username: self.username@, is_admin: self.is_admin }
    }
}

} // verus!
