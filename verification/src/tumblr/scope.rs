//! Permission scopes that an access token can carry.

use crate::text::str_eq;
use vstd::prelude::*;

verus! {

/// A permission scope granted to an access token.
#[derive(Debug, Clone, Copy, PartialEq, Eq, Structural)]
pub enum Scope {
    Basic,
    Write,
    OfflineAccess,
}

/// The name given for a scope is none of the known ones.
#[derive(Debug, Clone, Copy, PartialEq, Eq, Structural)]
pub struct InvalidScope;

/// The scope that a name stands for, if any.
pub open spec fn scope_of_name(name: Seq<char>) -> Option<Scope> {
    if name == "basic"@ {
        Some(Scope::Basic)
    } else if name == "write"@ {
        Some(Scope::Write)
    } else if name == "offline_access"@ {
        Some(Scope::OfflineAccess)
    } else {
        None
    }
}

/// The wire name of a scope.
pub open spec fn name_of_scope(scope: Scope) -> Seq<char> {
    match scope {
        Scope::Basic => "basic"@,
        Scope::Write => "write"@,
        Scope::OfflineAccess => "offline_access"@,
    }
}

impl Scope {
    /// Reads a scope from its wire name: `basic`, `write` or
    /// `offline_access`. Any other text is refused.
    pub fn from_str(s: &str) -> (parsed: Result<Scope, InvalidScope>)
        ensures
            parsed == match scope_of_name(s@) {
                Some(scope) => Ok::<Scope, InvalidScope>(scope),
                None => Err::<Scope, InvalidScope>(InvalidScope),
            },
    {
        if str_eq(s, "basic") {
            Ok(Scope::Basic)
        } else if str_eq(s, "write") {
            Ok(Scope::Write)
        } else if str_eq(s, "offline_access") {
            Ok(Scope::OfflineAccess)
        } else {
            Err(InvalidScope)
        }
    }

    /// The wire name of this scope.
    pub fn name(&self) -> (name: &'static str)
        ensures
            name@ == name_of_scope(*self),
    {
        match self {
            Scope::Basic => "basic",
            Scope::Write => "write",
            Scope::OfflineAccess => "offline_access",
        }
    }
}

impl std::str::FromStr for Scope {
    type Err = InvalidScope;

    /// Reads a scope from its wire name, as the inherent function of the
    /// same name does.
    fn from_str(s: &str) -> (parsed: Result<Scope, InvalidScope>)
        ensures
            parsed == match scope_of_name(s@) {
                Some(scope) => Ok::<Scope, InvalidScope>(scope),
                None => Err::<Scope, InvalidScope>(InvalidScope),
            },
    {
        Scope::from_str(s)
    }
}

/// Reading a scope's own wire name gives that scope back.
pub proof fn scope_name_round_trip(scope: Scope)
    ensures
        scope_of_name(name_of_scope(scope)) == Some(scope),
{
    reveal_strlit("basic");
    reveal_strlit("write");
    reveal_strlit("offline_access");
    assert("basic"@[0] == 'b');
    assert("write"@[0] == 'w');
}

} // verus!
