//! References to types as they are written in SourcePawn declarations.

use vstd::prelude::*;

use crate::item_tree::Name;
use crate::syntax_kind::TSKind;

verus! {

/// A type as a declaration writes it.
#[derive(Debug, Clone, Eq, PartialEq, Hash)]
pub enum TypeRef {
    /// Reference to a type definition (e.g. enum struct, enum, methodmap, etc.)
    Name(Name),
    /// int
    Int,
    /// bool
    Bool,
    /// float
    Float,
    /// char
    Char,
    /// void
    Void,
    /// any
    Any,
    /// String
    OldString,
    /// Float
    OldFloat,
}

impl TypeRef {
    /// The text of the type, as SourcePawn spells it.
    pub open spec fn spec_text(self) -> Seq<char> {
        match self {
            TypeRef::Name(name) => name.0@,
            TypeRef::Int => seq!['i', 'n', 't'],
            TypeRef::Bool => seq!['b', 'o', 'o', 'l'],
            TypeRef::Float => seq!['f', 'l', 'o', 'a', 't'],
            TypeRef::Char => seq!['c', 'h', 'a', 'r'],
            TypeRef::Void => seq!['v', 'o', 'i', 'd'],
            TypeRef::Any => seq!['a', 'n', 'y'],
            TypeRef::OldString => seq!['S', 't', 'r', 'i', 'n', 'g'],
            TypeRef::OldFloat => seq!['F', 'l', 'o', 'a', 't'],
        }
    }

    /// The built-in type that a keyword node of kind `kind` writes; `None` for
    /// every other kind, whose nodes write a named type.
    pub open spec fn spec_keyword(kind: TSKind) -> Option<TypeRef> {
        match kind {
            TSKind::anon_int => Some(TypeRef::Int),
            TSKind::anon_bool => Some(TypeRef::Bool),
            TSKind::anon_float => Some(TypeRef::Float),
            TSKind::anon_char => Some(TypeRef::Char),
            TSKind::anon_void => Some(TypeRef::Void),
            TSKind::any_type => Some(TypeRef::Any),
            TSKind::anon_String => Some(TypeRef::OldString),
            TSKind::anon_Float => Some(TypeRef::OldFloat),
            _ => None,
        }
    }

    /// `r` is the type that a node of kind `kind` whose text is `text` writes:
    /// the built-in type of a keyword kind, else the type named by the text.
    pub open spec fn is_from_kind(r: TypeRef, kind: TSKind, text: Seq<char>) -> bool {
        match Self::spec_keyword(kind) {
            Some(t) => r == t,
            None => r matches TypeRef::Name(n) && n.0@ == text,
        }
    }

    /// The built-in type that a keyword node of kind `kind` writes, if any.
    pub fn keyword(kind: TSKind) -> (r: Option<TypeRef>)
        ensures
            r == Self::spec_keyword(kind),
    {
        match kind {
            TSKind::anon_int => Some(TypeRef::Int),
            TSKind::anon_bool => Some(TypeRef::Bool),
            TSKind::anon_float => Some(TypeRef::Float),
            TSKind::anon_char => Some(TypeRef::Char),
            TSKind::anon_void => Some(TypeRef::Void),
            TSKind::any_type => Some(TypeRef::Any),
            TSKind::anon_String => Some(TypeRef::OldString),
            TSKind::anon_Float => Some(TypeRef::OldFloat),
            _ => None,
        }
    }

    /// The type that a node of kind `kind` whose text is `text` writes.
    pub fn from_kind(kind: TSKind, text: &str) -> (r: TypeRef)
        ensures
            Self::is_from_kind(r, kind, text@),
    {
        match kind {
            TSKind::anon_int => TypeRef::Int,
            TSKind::anon_bool => TypeRef::Bool,
            TSKind::anon_float => TypeRef::Float,
            TSKind::anon_char => TypeRef::Char,
            TSKind::anon_void => TypeRef::Void,
            TSKind::any_type => TypeRef::Any,
            TSKind::anon_String => TypeRef::OldString,
            TSKind::anon_Float => TypeRef::OldFloat,
            _ => TypeRef::Name(Name::from_str(text)),
        }
    }

    /// A copy of this type reference.
    pub fn duplicate(&self) -> (r: TypeRef)
        ensures
            r == *self,
    {
        match self {
            TypeRef::Name(name) => TypeRef::Name(name.duplicate()),
            TypeRef::Int => TypeRef::Int,
            TypeRef::Bool => TypeRef::Bool,
            TypeRef::Float => TypeRef::Float,
            TypeRef::Char => TypeRef::Char,
            TypeRef::Void => TypeRef::Void,
            TypeRef::Any => TypeRef::Any,
            TypeRef::OldString => TypeRef::OldString,
            TypeRef::OldFloat => TypeRef::OldFloat,
        }
    }

    /// The text of the type, as SourcePawn spells it.
    pub fn to_str(&self) -> (r: String)
        ensures
            r@ == self.spec_text(),
    {
        match self {
            TypeRef::Name(name) => name.0.clone(),
            TypeRef::Int => {
                proof {
                    reveal_strlit("int");
                }
                String::from_str("int")
            },
            TypeRef::Bool => {
                proof {
                    reveal_strlit("bool");
                }
                String::from_str("bool")
            },
            TypeRef::Float => {
                proof {
                    reveal_strlit("float");
                }
                String::from_str("float")
            },
            TypeRef::Char => {
                proof {
                    reveal_strlit("char");
                }
                String::from_str("char")
            },
            TypeRef::Void => {
                proof {
                    reveal_strlit("void");
                }
                String::from_str("void")
            },
            TypeRef::Any => {
                proof {
                    reveal_strlit("any");
                }
                String::from_str("any")
            },
            TypeRef::OldString => {
                proof {
                    reveal_strlit("String");
                }
                String::from_str("String")
            },
            TypeRef::OldFloat => {
                proof {
                    reveal_strlit("Float");
                }
                String::from_str("Float")
            },
        }
    }
}

/// A keyword node's type prints as the keyword itself: `int`, `bool`,
/// `float`, `char`, `void`, `any`, `String` and `Float` give the types whose
/// text is that keyword, and no other kind is a keyword.
pub proof fn lemma_keyword_text(kind: TSKind)
    ensures
        TypeRef::spec_keyword(kind) is Some <==> (kind == TSKind::anon_int || kind
            == TSKind::anon_bool || kind == TSKind::anon_float || kind == TSKind::anon_char || kind
            == TSKind::anon_void || kind == TSKind::any_type || kind == TSKind::anon_String || kind
            == TSKind::anon_Float),
        kind == TSKind::anon_int ==> TypeRef::spec_keyword(kind)->0.spec_text() == seq![
            'i',
            'n',
            't',
        ],
        kind == TSKind::anon_bool ==> TypeRef::spec_keyword(kind)->0.spec_text() == seq![
            'b',
            'o',
            'o',
            'l',
        ],
        kind == TSKind::anon_float ==> TypeRef::spec_keyword(kind)->0.spec_text() == seq![
            'f',
            'l',
            'o',
            'a',
            't',
        ],
        kind == TSKind::anon_char ==> TypeRef::spec_keyword(kind)->0.spec_text() == seq![
            'c',
            'h',
            'a',
            'r',
        ],
        kind == TSKind::anon_void ==> TypeRef::spec_keyword(kind)->0.spec_text() == seq![
            'v',
            'o',
            'i',
            'd',
        ],
        kind == TSKind::any_type ==> TypeRef::spec_keyword(kind)->0.spec_text() == seq![
            'a',
            'n',
            'y',
        ],
        kind == TSKind::anon_String ==> TypeRef::spec_keyword(kind)->0.spec_text() == seq![
            'S',
            't',
            'r',
            'i',
            'n',
            'g',
        ],
        kind == TSKind::anon_Float ==> TypeRef::spec_keyword(kind)->0.spec_text() == seq![
            'F',
            'l',
            'o',
            'a',
            't',
        ],
        TypeRef::spec_keyword(kind) matches Some(t) ==> t !is Name,
{
}

} // verus!
