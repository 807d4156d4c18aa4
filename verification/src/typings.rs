//! The static type model: a closed set of type tags and the assignability
//! relation between them.

use vstd::prelude::*;
use vstd::string::*;

verus! {

/// Index of a function in the table owned by the compilation unit.
/// The type model never resolves it.
#[derive(Debug, Clone, Copy, PartialEq, Eq, Structural)]
pub struct FunctionIdx {
    pub index: usize,
}

/// Static type of an expression, or declared type of a parameter.
#[derive(Debug, Clone, Copy, PartialEq, Eq, Structural)]
pub enum Type {
    Int,
    Bool,
    Void,
    Function(FunctionIdx),
    /// Placeholder before a type has been assigned.
    Unresolved,
    /// Type of an expression whose type could not be determined.
    Error,
}

/// Assignability of a value of type `source` to a place of type `target`.
///
/// `Int` goes to `Int`, `Bool` goes to `Bool`, and `Error` absorbs on
/// either side. Nothing else is assignable.
pub open spec fn is_assignable(source: Type, target: Type) -> bool {
    ||| source is Int && target is Int
    ||| source is Bool && target is Bool
    ||| source is Error
    ||| target is Error
}

/// The type named by a source spelling, if it names a built-in type.
pub open spec fn parse_type_name(literal: Seq<char>) -> Option<Type> {
    if literal == "int"@ {
        Some(Type::Int)
    } else if literal == "bool"@ {
        Some(Type::Bool)
    } else if literal == "void"@ {
        Some(Type::Void)
    } else {
        None
    }
}

/// The one-word rendering of a type tag. It does not depend on the
/// function index.
pub open spec fn type_spelling(ty: Type) -> Seq<char> {
    match ty {
        Type::Int => "int"@,
        Type::Bool => "bool"@,
        Type::Void => "void"@,
        Type::Function(_) => "function"@,
        Type::Unresolved => "unresolved"@,
        Type::Error => "?"@,
    }
}

/// Whether two string slices hold the same characters.
fn same_text(a: &str, b: &str) -> (same: bool)
    ensures
        same == (a@ == b@),
{
    let n = a.unicode_len();
    if n != b.unicode_len() {
        return false;
    }
    let mut i: usize = 0;
    while i < n
        invariant
            n == a@.len(),
            n == b@.len(),
            i <= n,
            forall|j: int| 0 <= j < i ==> a@[j] == b@[j],
        decreases n - i,
    {
        if a.get_char(i) != b.get_char(i) {
            return false;
        }
        i += 1;
    }
    assert(a@ =~= b@);
    true
}

impl Type {
    pub fn is_assignable_to(&self, other: &Type) -> (assignable: bool)
        ensures
            assignable == is_assignable(*self, *other),
    {
        match (self, other) {
            (Type::Int, Type::Int) => true,
            (Type::Bool, Type::Bool) => true,
            (Type::Error, _) => true,
            (_, Type::Error) => true,
            _ => false,
        }
    }

    pub fn from_str(s: &str) -> (ty: Option<Type>)
        ensures
            ty == parse_type_name(s@),
    {
        if same_text(s, "int") {
            Some(Type::Int)
        } else if same_text(s, "bool") {
            Some(Type::Bool)
        } else if same_text(s, "void") {
            Some(Type::Void)
        } else {
            None
        }
    }

    /// The one-word rendering of the tag.
    pub fn to_string(&self) -> (name: String)
        ensures
            name@ == type_spelling(*self),
    {
        let name = match self {
            Type::Int => "int",
            Type::Bool => "bool",
            Type::Unresolved => "unresolved",
            Type::Void => "void",
            Type::Function(_) => "function",
            Type::Error => "?",
        };
        String::from_str(name)
    }
}

/// `Error` is assignable to every type, and every type to `Error`.
pub proof fn lemma_error_absorbs(other: Type)
    ensures
        is_assignable(Type::Error, other),
        is_assignable(other, Type::Error),
{
}

/// Apart from `Error`, the only assignable pairs are `Int` to `Int` and
/// `Bool` to `Bool`.
pub proof fn lemma_assignable_without_error(source: Type, target: Type)
    requires
        !(source is Error),
        !(target is Error),
    ensures
        is_assignable(source, target) <==> source == target && (source is Int || source is Bool),
{
}

/// Parsing the name of a built-in type gives that type back, and a
/// spelling parses to a type only if it is that type's name.
pub proof fn lemma_spelling_round_trip(ty: Type, literal: Seq<char>)
    ensures
        ty is Int || ty is Bool || ty is Void ==> parse_type_name(type_spelling(ty)) == Some(ty),
        parse_type_name(literal) == Some(ty) ==> type_spelling(ty) == literal && (ty is Int || ty is Bool
            || ty is Void),
{
    reveal_strlit("int");
    reveal_strlit("bool");
    reveal_strlit("void");
    assert("int"@.len() == 3 && "bool"@.len() == 4 && "void"@.len() == 4);
    assert("bool"@[0] == 'b' && "void"@[0] == 'v');
}

} // verus!
