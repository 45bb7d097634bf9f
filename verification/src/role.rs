//! Who wrote a message.

use crate::error::{view_ok, SchemaError};
use crate::json::{Json, JsonView};
use vstd::prelude::*;

verus! {

/// The author of a message.
#[derive(Clone, Copy, Debug, PartialEq, Eq, Structural)]
pub enum Role {
    Owner,
    Assistant,
}

impl View for Role {
    type V = Role;

    open spec fn view(&self) -> Role {
        *self
    }
}

impl DeepView for Role {
    type V = Role;

    open spec fn deep_view(&self) -> Role {
        *self
    }
}

impl Role {
    /// The role's name on the wire.
    pub open spec fn name(self) -> Seq<char> {
        match self {
            Role::Owner => "owner"@,
            Role::Assistant => "assistant"@,
        }
    }

    /// The role as a JSON value: the string of its name.
    pub open spec fn json(self) -> JsonView {
        JsonView::String(self.name())
    }

    /// The role that a JSON value names.
    pub open spec fn of_json(json: JsonView) -> Result<Role, SchemaError> {
        match json {
            JsonView::String(name) => if name == "owner"@ {
                Ok(Role::Owner)
            } else if name == "assistant"@ {
                Ok(Role::Assistant)
            } else {
                Err(SchemaError::UnknownVariant)
            },
            _ => Err(SchemaError::TypeMismatch),
        }
    }

    pub fn as_str(&self) -> (name: &str)
        ensures
            name@ == self.name(),
    {
        match self {
            Role::Owner => "owner",
            Role::Assistant => "assistant",
        }
    }

    pub fn to_json(&self) -> (json: Json)
        ensures
            json@ == self.json(),
    {
        Json::String(String::from_str(self.as_str()))
    }

    pub fn from_json(json: &Json) -> (result: Result<Role, SchemaError>)
        ensures
            view_ok(result) == Role::of_json(json@),
    {
        match json {
            Json::String(name) => {
                if *name == String::from_str("owner") {
                    Ok(Role::Owner)
                } else if *name == String::from_str("assistant") {
                    Ok(Role::Assistant)
                } else {
                    Err(SchemaError::UnknownVariant)
                }
            },
            _ => Err(SchemaError::TypeMismatch),
        }
    }
}

/// The two names, letter by letter.
pub proof fn lemma_role_names()
    ensures
        Role::Owner.name() == seq!['o', 'w', 'n', 'e', 'r'],
        Role::Assistant.name() == seq!['a', 's', 's', 'i', 's', 't', 'a', 'n', 't'],
        Role::Owner.name() != Role::Assistant.name(),
{
    reveal_strlit("owner");
    reveal_strlit("assistant");
    assert(Role::Owner.name() =~= seq!['o', 'w', 'n', 'e', 'r']);
    assert(Role::Assistant.name() =~= seq!['a', 's', 's', 'i', 's', 't', 'a', 'n', 't']);
}

/// A role is written as the string of its name, and read back as itself; a
/// string that is neither name is refused as an unknown variant, and a value
/// that is no string as a type mismatch.
pub proof fn lemma_role_round_trip(role: Role)
    ensures
        Role::of_json(role.json()) == Ok::<Role, SchemaError>(role),
        forall|name: Seq<char>|
            name != Role::Owner.name() && name != Role::Assistant.name()
                ==> #[trigger] Role::of_json(JsonView::String(name)) == Err::<Role, SchemaError>(
                SchemaError::UnknownVariant,
            ),
        forall|json: JsonView|
            !(json is String) ==> #[trigger] Role::of_json(json) == Err::<Role, SchemaError>(
                SchemaError::TypeMismatch,
            ),
{
    lemma_role_names();
}

} // verus!
