//! Input fields of a GraphQL input object, rendered to SDL text.
//!
//! An input field is a name with a type and, optionally, a description and a
//! default value.  Rendering is specified character by character: a field
//! renders as its description block, then two spaces, the name, a colon and a
//! space, the type, and ` = ` with the default when one is set.

use vstd::prelude::*;
use vstd::string::StrSliceExecFns;
use vstd::string::StringExecFns;

verus! {

/// A GraphQL type reference: a named type, a list of a type, or a non-null
/// wrapper.
#[derive(Debug, PartialEq, Eq)]
pub enum Type_ {
    NamedType { name: String },
    List { ty: Box<Type_> },
    NonNull { ty: Box<Type_> },
}

/// A description attached to a field.
#[derive(Debug, PartialEq, Eq)]
pub enum Description {
    Field { source: Option<String> },
}

/// How a type reference renders: the name, `[inner]`, or `inner!`.
pub open spec fn type_text(t: Type_) -> Seq<char>
    decreases t,
{
    match t {
        Type_::NamedType { name } => name@,
        Type_::List { ty } => seq!['['] + type_text(*ty) + seq![']'],
        Type_::NonNull { ty } => type_text(*ty) + seq!['!'],
    }
}

/// How a field description renders: nothing when absent, and an indented
/// triple-quoted line when present.
pub open spec fn description_text(d: Description) -> Seq<char> {
    match d {
        Description::Field { source } => match source {
            None => Seq::empty(),
            Some(s) => seq![' ', ' ', '"', '"', '"'] + s@ + seq!['"', '"', '"', '\n'],
        },
    }
}

/// How an input field renders.
pub open spec fn input_field_text(f: InputField) -> Seq<char> {
    description_text(f.description) + seq![' ', ' '] + f.name@ + seq![':', ' '] + type_text(
        f.type_,
    ) + (match f.default_value {
        None => Seq::<char>::empty(),
        Some(d) => seq![' ', '=', ' '] + d@,
    })
}

impl Type_ {
    /// Renders the type reference.
    pub fn encode(&self) -> (r: String)
        ensures
            r@ == type_text(*self),
        decreases *self,
    {
        match self {
            Type_::NamedType { name } => name.clone(),
            Type_::List { ty } => {
                let mut s = String::from_str("[");
                let inner = ty.encode();
                s.append(inner.as_str());
                s.append("]");
                proof {
                    reveal_strlit("[");
                    reveal_strlit("]");
                    assert(s@ =~= type_text(*self));
                }
                s
            }
            Type_::NonNull { ty } => {
                let mut s = ty.encode();
                s.append("!");
                proof {
                    reveal_strlit("!");
                    assert(s@ =~= type_text(*self));
                }
                s
            }
        }
    }
}

impl Description {
    /// Renders the description block.
    pub fn encode(&self) -> (r: String)
        ensures
            r@ == description_text(*self),
    {
        match self {
            Description::Field { source } => match source {
                None => {
                    let s = String::new();
                    proof {
                        assert(s@ =~= description_text(*self));
                    }
                    s
                }
                Some(text) => {
                    let mut s = String::from_str("  \"\"\"");
                    s.append(text.as_str());
                    s.append("\"\"\"\n");
                    proof {
                        reveal_strlit("  \"\"\"");
                        reveal_strlit("\"\"\"\n");
                        assert("  \"\"\""@ =~= seq![' ', ' ', '"', '"', '"']);
                        assert("\"\"\"\n"@ =~= seq!['"', '"', '"', '\n']);
                        assert(s@ =~= description_text(*self));
                    }
                    s
                }
            },
        }
    }
}

/// An input field of a GraphQL input object: a scalar, enum or input-object
/// field, like an output field but with an optional default value.
#[derive(Debug, PartialEq, Eq)]
pub struct InputField {
    /// The field's name.
    pub name: String,
    /// The field's description, when one was set.
    pub description: Description,
    /// The type of value this field holds.
    pub type_: Type_,
    /// The field's default value, when one was set.
    pub default_value: Option<String>,
}

impl InputField {
    /// Creates a new input field with no description and no default.
    pub fn new(name: String, type_: Type_) -> (r: InputField)
        ensures
            r == (InputField {
                name,
                description: Description::Field { source: None },
                type_,
                default_value: None,
            }),
    {
        InputField {
            description: Description::Field { source: None },
            name,
            type_,
            default_value: None,
        }
    }

    /// Sets the field's description.
    pub fn description(&mut self, description: Option<String>)
        ensures
            *final(self) == (InputField {
                description: Description::Field { source: description },
                ..*old(self)
            }),
    {
        self.description = Description::Field { source: description };
    }

    /// Sets the field's default value.
    pub fn default(&mut self, default: Option<String>)
        ensures
            *final(self) == (InputField { default_value: default, ..*old(self) }),
    {
        self.default_value = default;
    }

    /// Renders the field to SDL text.
    pub fn encode(&self) -> (r: String)
        ensures
            r@ == input_field_text(*self),
    {
        let mut s = self.description.encode();
        s.append("  ");
        s.append(self.name.as_str());
        s.append(": ");
        let ty = self.type_.encode();
        s.append(ty.as_str());
        match &self.default_value {
            Some(d) => {
                s.append(" = ");
                s.append(d.as_str());
            }
            None => {}
        }
        proof {
            reveal_strlit("  ");
            reveal_strlit(": ");
            reveal_strlit(" = ");
            assert("  "@ =~= seq![' ', ' ']);
            assert(": "@ =~= seq![':', ' ']);
            assert(" = "@ =~= seq![' ', '=', ' ']);
            assert(s@ =~= input_field_text(*self));
        }
        s
    }
}

} // verus!
