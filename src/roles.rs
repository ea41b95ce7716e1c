//! What a member of an organization may do, by role.

use vstd::prelude::*;

verus! {

/// A member's role in an organization.
#[derive(Clone, Copy, Debug, PartialEq, Eq, Structural)]
pub enum OrganizationRole {
    Owner,
    Admin,
    Developer,
    Member,
}

/// A signed-in user, checked to be a member of the organization in question.
#[derive(Debug)]
pub struct AuthorizedOrganizationUser {
    pub user_id: u128,
    pub email: String,
    pub organization_id: u128,
    pub role: OrganizationRole,
}

impl AuthorizedOrganizationUser {
    pub fn is_admin(&self) -> (r: bool)
        ensures
            r == (self.role is Owner || self.role is Admin),
    {
        match self.role {
            OrganizationRole::Owner | OrganizationRole::Admin => true,
            _ => false,
        }
    }

    pub fn can_manage_api_keys(&self) -> (r: bool)
        ensures
            r == (self.role is Owner || self.role is Admin || self.role is Developer),
    {
        match self.role {
            OrganizationRole::Owner | OrganizationRole::Admin | OrganizationRole::Developer => true,
            _ => false,
        }
    }

    pub fn is_owner(&self) -> (r: bool)
        ensures
            r == (self.role is Owner),
    {
        match self.role {
            OrganizationRole::Owner => true,
            _ => false,
        }
    }
}

} // verus!
