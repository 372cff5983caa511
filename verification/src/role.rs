use vstd::prelude::*;

verus! {

/// A conversation participant. Used as a tag on messages and on content
/// audiences; the wire protocol writes it as a lowercase string.
#[derive(Clone, Copy, Debug, PartialEq, Eq, Structural)]
pub enum Role {
    User,
    Assistant,
    System,
}

/// The lowercase name a role carries in a wire message's `role` field.
pub open spec fn spec_role_name(r: Role) -> Seq<char> {
    match r {
        Role::User => "user"@,
        Role::Assistant => "assistant"@,
        Role::System => "system"@,
    }
}

impl Role {
    /// The lowercase name used on the wire.
    pub fn wire_name(&self) -> (r: String)
        ensures
            r@ == spec_role_name(*self),
    {
        match self {
            Role::User => String::from_str("user"),
            Role::Assistant => String::from_str("assistant"),
            Role::System => String::from_str("system"),
        }
    }
}

/// True iff the role list names `r`.
pub fn roles_include(roles: &Vec<Role>, r: Role) -> (b: bool)
    ensures
        b == roles@.contains(r),
{
    let mut i: usize = 0;
    while i < roles.len()
        invariant
            i <= roles@.len(),
            forall|j: int| 0 <= j < i ==> roles@[j] != r,
        decreases roles@.len() - i,
    {
        if roles[i] == r {
            return true;
        }
        i = i + 1;
    }
    false
}

} // verus!
