//! The data a command-line invocation carries, in its validated form.
//! Argument grammar and parsing stay outside the library; a presentation
//! layer fills these types and hands them over.

use vstd::prelude::*;

use crate::selector::TargetSelector;
use crate::text::EmptyTextError;
use crate::text::TrimmedNonEmptyText;
use crate::text::trim_spec;

verus! {

/// One-line description of the tool.
pub fn short_about() -> (r: &'static str)
    ensures
        r@ == "Simultaneous user management for Slurm and LDAP"@,
{
    "Simultaneous user management for Slurm and LDAP"
}

/// A full invocation: the command to run and an optional path to a
/// configuration file, kept as plain text.
#[derive(Debug)]
pub struct GeneralArgs {
    pub command: Commands,
    pub config_file: Option<String>,
}

/// The operation to conduct on a user: add, modify, delete or list, each
/// with the backends it should touch.
#[derive(Debug)]
pub enum Commands {
    /// Add a user to the selected backends.
    Add { to_add: UserToAdd, on_which_sys: TargetSelector },
    /// Modify a user on the selected backends.
    Modify { data: Modifiable, on_which_sys: TargetSelector },
    /// Delete a user from the selected backends.
    Delete { user: TrimmedNonEmptyText, on_which_sys: TargetSelector },
    /// List users of the selected backends.
    List { on_which_sys: TargetSelector, simple_output_for_ldap: Option<bool> },
    /// Write a default configuration out.
    GenerateConfig,
}

/// The fields a modification may change; absent fields stay untouched.
#[derive(Clone, Debug)]
pub struct Modifiable {
    pub firstname: Option<TrimmedNonEmptyText>,
    pub lastname: Option<TrimmedNonEmptyText>,
    pub common_user_fields: CommonUserFields,
}

impl Modifiable {
    /// A modification of `username` that changes nothing yet.
    pub fn new(username: TrimmedNonEmptyText) -> (r: Self)
        ensures
            r.firstname is None,
            r.lastname is None,
            r.common_user_fields.username == username,
            r.common_user_fields.group is None,
            r.common_user_fields.mail is None,
            r.common_user_fields.default_qos is None,
            r.common_user_fields.publickey is None,
            r.common_user_fields.qos@.len() == 0,
    {
        Self {
            firstname: None,
            lastname: None,
            common_user_fields: CommonUserFields::new(username),
        }
    }
}

/// Everything a new user needs.
#[derive(Clone, Debug)]
pub struct UserToAdd {
    pub firstname: TrimmedNonEmptyText,
    pub lastname: TrimmedNonEmptyText,
    pub common_user_fields: CommonUserFields,
}

impl UserToAdd {
    /// Bundles the validated fields of a new user.
    pub fn new(
        firstname: TrimmedNonEmptyText,
        lastname: TrimmedNonEmptyText,
        common_user_fields: CommonUserFields,
    ) -> (r: Self)
        ensures
            r.firstname == firstname,
            r.lastname == lastname,
            r.common_user_fields == common_user_fields,
    {
        Self { firstname, lastname, common_user_fields }
    }

    /// The fields shared with the other user operations.
    pub fn common_user_fields(&self) -> (r: &CommonUserFields)
        ensures
            r == &self.common_user_fields,
    {
        &self.common_user_fields
    }
}

/// The fields every user operation shares.
#[derive(Clone, Debug)]
pub struct CommonUserFields {
    /// The username the operation is about.
    pub username: TrimmedNonEmptyText,
    /// Unix group the user belongs to.
    pub group: Option<TrimmedNonEmptyText>,
    /// The user's e-mail address.
    pub mail: Option<TrimmedNonEmptyText>,
    /// Default quality-of-service entry for the user.
    pub default_qos: Option<TrimmedNonEmptyText>,
    /// Path to the user's public SSH key.
    pub publickey: Option<TrimmedNonEmptyText>,
    /// Quality-of-service entries assigned to the user.
    pub qos: Vec<String>,
}

impl CommonUserFields {
    /// The fields for `username`, everything else left empty.
    pub fn new(username: TrimmedNonEmptyText) -> (r: Self)
        ensures
            r.username == username,
            r.group is None,
            r.mail is None,
            r.default_qos is None,
            r.publickey is None,
            r.qos@.len() == 0,
    {
        Self {
            username,
            group: None,
            mail: None,
            default_qos: None,
            publickey: None,
            qos: Vec::new(),
        }
    }
}

/// Validates one argument: trims it and refuses blank input.
pub fn trimmed_non_empty(s: &str) -> (r: Result<TrimmedNonEmptyText, EmptyTextError>)
    ensures
        r is Ok <==> trim_spec(s@).len() > 0,
        r matches Ok(t) ==> t@ == trim_spec(s@) && t.wf(),
{
    TrimmedNonEmptyText::try_new(s)
}

} // verus!
