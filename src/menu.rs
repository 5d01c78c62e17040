//! The choices of the interactive menu: which operation to run and how to
//! authenticate, read from the label the user picked.
use vstd::prelude::*;
use vstd::string::*;

verus! {

/// An operation of the main menu.
#[derive(Debug, Clone, Copy, PartialEq, Eq, Structural)]
pub enum Operation {
    CleanupBucket,
    CreateObjects,
    CreateBucket,
    DeleteBucket,
    Quit,
}

/// The operation that a menu answer names, if any.
pub open spec fn operation_of(s: Seq<char>) -> Option<Operation> {
    if s == "Cleanup bucket"@ {
        Some(Operation::CleanupBucket)
    } else if s == "Create objects"@ {
        Some(Operation::CreateObjects)
    } else if s == "Create bucket"@ {
        Some(Operation::CreateBucket)
    } else if s == "Delete bucket"@ {
        Some(Operation::DeleteBucket)
    } else if s == "q"@ || s == "quit"@ || s == "exit"@ {
        Some(Operation::Quit)
    } else {
        None
    }
}

/// The operations offered by the main menu, in the order shown.
pub fn operation_labels() -> (r: Vec<String>)
    ensures
        r@.len() == 4,
        operation_of(r@[0]@) == Some(Operation::CleanupBucket),
        operation_of(r@[1]@) == Some(Operation::CreateObjects),
        operation_of(r@[2]@) == Some(Operation::CreateBucket),
        operation_of(r@[3]@) == Some(Operation::DeleteBucket),
{
    proof {
        reveal_strlit("Cleanup bucket");
        reveal_strlit("Create objects");
        reveal_strlit("Create bucket");
        reveal_strlit("Delete bucket");
        reveal_strlit("q");
        reveal_strlit("quit");
        reveal_strlit("exit");
        assert("Cleanup bucket"@[1] != "Create objects"@[1]);
        assert("Cleanup bucket"@.len() != "Create bucket"@.len());
        assert("Cleanup bucket"@.len() != "Delete bucket"@.len());
        assert("Cleanup bucket"@.len() != "q"@.len());
        assert("Cleanup bucket"@.len() != "quit"@.len());
        assert("Cleanup bucket"@.len() != "exit"@.len());
        assert("Create objects"@.len() != "Create bucket"@.len());
        assert("Create objects"@.len() != "Delete bucket"@.len());
        assert("Create objects"@.len() != "q"@.len());
        assert("Create objects"@.len() != "quit"@.len());
        assert("Create objects"@.len() != "exit"@.len());
        assert("Create bucket"@[0] != "Delete bucket"@[0]);
        assert("Create bucket"@.len() != "q"@.len());
        assert("Create bucket"@.len() != "quit"@.len());
        assert("Create bucket"@.len() != "exit"@.len());
        assert("Delete bucket"@.len() != "q"@.len());
        assert("Delete bucket"@.len() != "quit"@.len());
        assert("Delete bucket"@.len() != "exit"@.len());
        assert("q"@.len() != "quit"@.len());
        assert("q"@.len() != "exit"@.len());
        assert("quit"@[0] != "exit"@[0]);
    }
    let mut r: Vec<String> = Vec::new();
    r.push(String::from_str("Cleanup bucket"));
    r.push(String::from_str("Create objects"));
    r.push(String::from_str("Create bucket"));
    r.push(String::from_str("Delete bucket"));
    r
}

fn is_label(s: &String, label: &str) -> (r: bool)
    ensures
        r == (s@ == label@),
{
    *s == String::from_str(label)
}

/// The operation that the menu answer `s` names; `None` for any other text.
pub fn operation_from_label(s: &String) -> (r: Option<Operation>)
    ensures
        r == operation_of(s@),
{
    if is_label(s, "Cleanup bucket") {
        Some(Operation::CleanupBucket)
    } else if is_label(s, "Create objects") {
        Some(Operation::CreateObjects)
    } else if is_label(s, "Create bucket") {
        Some(Operation::CreateBucket)
    } else if is_label(s, "Delete bucket") {
        Some(Operation::DeleteBucket)
    } else if is_label(s, "q") || is_label(s, "quit") || is_label(s, "exit") {
        Some(Operation::Quit)
    } else {
        None
    }
}

/// Where the credentials come from.
#[derive(Debug, Clone, Copy, PartialEq, Eq, Structural)]
pub enum AuthMethod {
    /// The default provider chain.
    Default,
    /// The default chain, after loading a `.env` file into the environment.
    EnvironmentVariables,
    /// A named profile of the shared configuration files.
    Profile,
    /// A named single-sign-on session of the shared configuration files.
    Sso,
}

/// The method that an authentication answer names; any other text falls
/// back to the default chain.
pub open spec fn auth_of(s: Seq<char>) -> AuthMethod {
    if s == "Profile"@ {
        AuthMethod::Profile
    } else if s == "SSO"@ {
        AuthMethod::Sso
    } else if s == "Environment Variables"@ {
        AuthMethod::EnvironmentVariables
    } else {
        AuthMethod::Default
    }
}

/// The authentication options offered, in the order shown.
pub fn auth_labels() -> (r: Vec<String>)
    ensures
        r@.len() == 4,
        auth_of(r@[0]@) == AuthMethod::Default,
        auth_of(r@[1]@) == AuthMethod::EnvironmentVariables,
        auth_of(r@[2]@) == AuthMethod::Profile,
        auth_of(r@[3]@) == AuthMethod::Sso,
{
    proof {
        reveal_strlit("Default");
        reveal_strlit("Environment Variables");
        reveal_strlit("Profile");
        reveal_strlit("SSO");
        assert("Default"@.len() != "Environment Variables"@.len());
        assert("Default"@[0] != "Profile"@[0]);
        assert("Default"@.len() != "SSO"@.len());
        assert("Environment Variables"@.len() != "Profile"@.len());
        assert("Environment Variables"@.len() != "SSO"@.len());
        assert("Profile"@.len() != "SSO"@.len());
    }
    let mut r: Vec<String> = Vec::new();
    r.push(String::from_str("Default"));
    r.push(String::from_str("Environment Variables"));
    r.push(String::from_str("Profile"));
    r.push(String::from_str("SSO"));
    r
}

/// The authentication method that the answer `s` names.
pub fn auth_from_label(s: &String) -> (r: AuthMethod)
    ensures
        r == auth_of(s@),
{
    if is_label(s, "Profile") {
        AuthMethod::Profile
    } else if is_label(s, "SSO") {
        AuthMethod::Sso
    } else if is_label(s, "Environment Variables") {
        AuthMethod::EnvironmentVariables
    } else {
        AuthMethod::Default
    }
}

} // verus!
