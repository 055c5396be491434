//! The type universe of the checked language, with structural equality and
//! canonical textual rendering.

use vstd::prelude::*;

verus! {

/// A type of the checked language: `Int`, `Bool`, or a function (arrow) type
/// from an argument type to a result type. Values are immutable; equality is
/// structural.
pub enum Type {
    Int,
    Bool,
    Arrow(Box<Type>, Box<Type>),
}

impl Type {
    /// Builds the function type `arg -> ret`.
    pub fn arrow(arg: Type, ret: Type) -> (t: Type)
        ensures
            (t matches Type::Arrow(a, r) && *a == arg && *r == ret),
    {
        Type::Arrow(Box::new(arg), Box::new(ret))
    }

    /// Builds the function type `self -> other`.
    pub fn maps_to(self, other: Type) -> (t: Type)
        ensures
            (t matches Type::Arrow(a, r) && *a == self && *r == other),
    {
        Type::Arrow(Box::new(self), Box::new(other))
    }
}

impl Clone for Type {
    /// Deep structural copy: the clone is equal to the original.
    fn clone(&self) -> (t: Type)
        ensures
            t == *self,
        decreases *self,
    {
        match self {
            Type::Int => Type::Int,
            Type::Bool => Type::Bool,
            Type::Arrow(a, r) => Type::Arrow(Box::new((**a).clone()), Box::new((**r).clone())),
        }
    }
}

impl PartialEq for Type {
    /// Structural equality: two arrows are equal iff both components are.
    fn eq(&self, other: &Type) -> (r: bool)
        decreases *self,
    {
        match (self, other) {
            (Type::Int, Type::Int) => true,
            (Type::Bool, Type::Bool) => true,
            (Type::Arrow(a1, r1), Type::Arrow(a2, r2)) => **a1 == **a2 && **r1 == **r2,
            _ => false,
        }
    }
}

impl vstd::std_specs::cmp::PartialEqSpecImpl for Type {
    open spec fn obeys_eq_spec() -> bool {
        true
    }

    open spec fn eq_spec(&self, other: &Type) -> bool {
        *self == *other
    }
}

impl Eq for Type {

}

/// The canonical text of a type: `Int` renders as `int`, `Bool` as `bool`,
/// and `Arrow(a, r)` as `a -> r`, with `a` parenthesized exactly when it is
/// itself an arrow (arrows associate to the right).
pub open spec fn type_text(t: Type) -> Seq<char>
    decreases t,
{
    match t {
        Type::Int => "int"@,
        Type::Bool => "bool"@,
        Type::Arrow(a, r) => {
            if *a matches Type::Arrow(_, _) {
                "("@ + type_text(*a) + ")"@ + " -> "@ + type_text(*r)
            } else {
                type_text(*a) + " -> "@ + type_text(*r)
            }
        },
    }
}

impl Type {
    /// Renders the type in its canonical text form.
    pub fn render(&self) -> (s: String)
        ensures
            s@ == type_text(*self),
        decreases *self,
    {
        match self {
            Type::Int => String::from_str("int"),
            Type::Bool => String::from_str("bool"),
            Type::Arrow(a, r) => {
                let rs = r.render();
                let left = match &**a {
                    Type::Arrow(_, _) => String::from_str("(").concat(a.render().as_str()).concat(
                        ")",
                    ),
                    _ => a.render(),
                };
                left.concat(" -> ").concat(rs.as_str())
            },
        }
    }
}

} // verus!
