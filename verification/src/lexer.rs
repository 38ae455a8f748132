//! The tokens that the lexer hands to the parser.

use vstd::prelude::*;
use vstd::string::StringExecFns;
use crate::common::{NameId, LiteralId, SpanId};

verus! {

/// Keywords that may also be used as names.
#[derive(Clone, Copy, PartialEq, Eq, Structural, Debug)]
pub enum WeakKeyword {
    Assign,
    Associativity,
    Distinct,
    Flag,
    Get,
    HigherThan,
    Infix,
    Invar,
    Lib,
    LowerThan,
    Op,
    Opaque,
    Package,
    Postfix,
    Precedence,
    Prefix,
    Property,
    Record,
    Sealed,
    Setter,
    Super,
    Tls,
}

/// Number of weak keywords.
pub const WEAK_KEYWORD_COUNT: usize = 22;

/// Reserved keywords.
#[derive(Clone, Copy, PartialEq, Eq, Structural, Debug)]
pub enum StrongKeyword {
    As,
    AsExclaim,
    AsQuestion,
    Bitfield,
    Break,
    Const,
    Continue,
    Defer,
    Do,
    Dyn,
    Else,
    Enum,
    ErrDefer,
    ExclaimIn,
    ExclaimIs,
    Extern,
    Fallthrough,
    False,
    Fn,
    For,
    If,
    Impl,
    In,
    Is,
    Let,
    Loop,
    Match,
    Mod,
    Move,
    Mut,
    Pub,
    Ref,
    Return,
    SelfName,
    SelfTy,
    Static,
    Struct,
    Throw,
    Trait,
    True,
    Try,
    TryExclaim,
    Type,
    Union,
    Unsafe,
    Use,
    When,
    Where,
    While,
    U8,
    U16,
    U32,
    U64,
    U128,
    Usize,
    I8,
    I16,
    I32,
    I64,
    I128,
    Isize,
    F16,
    F32,
    F64,
    F128,
    Bool,
    B8,
    B16,
    B32,
    B64,
    Char,
    Char7,
    Char8,
    Char16,
    Char32,
    Str,
    Str7,
    Str8,
    Str16,
    Str32,
    CStr,
}

/// Number of strong keywords that name a primitive or string slice type.
pub const PRIMITIVE_KEYWORD_COUNT: usize = 32;

impl WeakKeyword {
    /// Position of the keyword in the table of weak-keyword names.
    pub open spec fn spec_index(self) -> nat {
        match self {
            WeakKeyword::Assign => 0,
            WeakKeyword::Associativity => 1,
            WeakKeyword::Distinct => 2,
            WeakKeyword::Flag => 3,
            WeakKeyword::Get => 4,
            WeakKeyword::HigherThan => 5,
            WeakKeyword::Infix => 6,
            WeakKeyword::Invar => 7,
            WeakKeyword::Lib => 8,
            WeakKeyword::LowerThan => 9,
            WeakKeyword::Op => 10,
            WeakKeyword::Opaque => 11,
            WeakKeyword::Package => 12,
            WeakKeyword::Postfix => 13,
            WeakKeyword::Precedence => 14,
            WeakKeyword::Prefix => 15,
            WeakKeyword::Property => 16,
            WeakKeyword::Record => 17,
            WeakKeyword::Sealed => 18,
            WeakKeyword::Setter => 19,
            WeakKeyword::Super => 20,
            WeakKeyword::Tls => 21,
        }
    }

    pub fn index(self) -> (r: usize)
        ensures
            r == self.spec_index(),
            r < WEAK_KEYWORD_COUNT,
    {
        match self {
            WeakKeyword::Assign => 0,
            WeakKeyword::Associativity => 1,
            WeakKeyword::Distinct => 2,
            WeakKeyword::Flag => 3,
            WeakKeyword::Get => 4,
            WeakKeyword::HigherThan => 5,
            WeakKeyword::Infix => 6,
            WeakKeyword::Invar => 7,
            WeakKeyword::Lib => 8,
            WeakKeyword::LowerThan => 9,
            WeakKeyword::Op => 10,
            WeakKeyword::Opaque => 11,
            WeakKeyword::Package => 12,
            WeakKeyword::Postfix => 13,
            WeakKeyword::Precedence => 14,
            WeakKeyword::Prefix => 15,
            WeakKeyword::Property => 16,
            WeakKeyword::Record => 17,
            WeakKeyword::Sealed => 18,
            WeakKeyword::Setter => 19,
            WeakKeyword::Super => 20,
            WeakKeyword::Tls => 21,
        }
    }
}

impl StrongKeyword {
    /// Position of the keyword in the table of primitive-type names, where it names such a type.
    pub open spec fn spec_primitive_index(self) -> Option<nat> {
        match self {
            StrongKeyword::U8 => Some(0),
            StrongKeyword::U16 => Some(1),
            StrongKeyword::U32 => Some(2),
            StrongKeyword::U64 => Some(3),
            StrongKeyword::U128 => Some(4),
            StrongKeyword::Usize => Some(5),
            StrongKeyword::I8 => Some(6),
            StrongKeyword::I16 => Some(7),
            StrongKeyword::I32 => Some(8),
            StrongKeyword::I64 => Some(9),
            StrongKeyword::I128 => Some(10),
            StrongKeyword::Isize => Some(11),
            StrongKeyword::F16 => Some(12),
            StrongKeyword::F32 => Some(13),
            StrongKeyword::F64 => Some(14),
            StrongKeyword::F128 => Some(15),
            StrongKeyword::Bool => Some(16),
            StrongKeyword::B8 => Some(17),
            StrongKeyword::B16 => Some(18),
            StrongKeyword::B32 => Some(19),
            StrongKeyword::B64 => Some(20),
            StrongKeyword::Char => Some(21),
            StrongKeyword::Char7 => Some(22),
            StrongKeyword::Char8 => Some(23),
            StrongKeyword::Char16 => Some(24),
            StrongKeyword::Char32 => Some(25),
            StrongKeyword::Str => Some(26),
            StrongKeyword::Str7 => Some(27),
            StrongKeyword::Str8 => Some(28),
            StrongKeyword::Str16 => Some(29),
            StrongKeyword::Str32 => Some(30),
            StrongKeyword::CStr => Some(31),
            _ => None,
        }
    }

    pub fn primitive_index(self) -> (r: Option<usize>)
        ensures
            r matches Some(i) ==> self.spec_primitive_index() == Some(i as nat) && i < PRIMITIVE_KEYWORD_COUNT,
            r is None ==> self.spec_primitive_index() is None,
    {
        match self {
            StrongKeyword::U8 => Some(0),
            StrongKeyword::U16 => Some(1),
            StrongKeyword::U32 => Some(2),
            StrongKeyword::U64 => Some(3),
            StrongKeyword::U128 => Some(4),
            StrongKeyword::Usize => Some(5),
            StrongKeyword::I8 => Some(6),
            StrongKeyword::I16 => Some(7),
            StrongKeyword::I32 => Some(8),
            StrongKeyword::I64 => Some(9),
            StrongKeyword::I128 => Some(10),
            StrongKeyword::Isize => Some(11),
            StrongKeyword::F16 => Some(12),
            StrongKeyword::F32 => Some(13),
            StrongKeyword::F64 => Some(14),
            StrongKeyword::F128 => Some(15),
            StrongKeyword::Bool => Some(16),
            StrongKeyword::B8 => Some(17),
            StrongKeyword::B16 => Some(18),
            StrongKeyword::B32 => Some(19),
            StrongKeyword::B64 => Some(20),
            StrongKeyword::Char => Some(21),
            StrongKeyword::Char7 => Some(22),
            StrongKeyword::Char8 => Some(23),
            StrongKeyword::Char16 => Some(24),
            StrongKeyword::Char32 => Some(25),
            StrongKeyword::Str => Some(26),
            StrongKeyword::Str7 => Some(27),
            StrongKeyword::Str8 => Some(28),
            StrongKeyword::Str16 => Some(29),
            StrongKeyword::Str32 => Some(30),
            StrongKeyword::CStr => Some(31),
            _ => None,
        }
    }

    /// Whether the keyword names a primitive or string slice type.
    pub fn is_primitive_type(self) -> (r: bool)
        ensures
            r == self.spec_primitive_index() is Some,
    {
        self.primitive_index().is_some()
    }
}

/// Id of a user-defined punctuation in a [`PuncutationTable`].
#[derive(Clone, Copy, PartialEq, Eq, Structural, Debug)]
pub struct PunctuationId(pub u32);

impl PunctuationId {
    /// The id that names nothing.
    pub fn invalid() -> (r: PunctuationId)
        ensures
            r.0 == 0xFFFF_FFFFu32,
    {
        PunctuationId(0xFFFF_FFFFu32)
    }
}

/// Punctuation, either builtin or user-defined.
#[derive(Clone, Copy, PartialEq, Eq, Structural, Debug)]
pub enum Punctuation {
    Ampersand,
    AndAnd,
    Asterisk,
    At,
    AtExclaim,
    Caret,
    Colon,
    ColonEquals,
    Comma,
    Contains,
    Dot,
    DotDot,
    DotDotDot,
    DotDotEquals,
    DoubleArrow,
    Equals,
    Exclaim,
    NotContains,
    Or,
    Question,
    QuestionDot,
    Semicolon,
    SingleArrowL,
    SingleArrowR,
    Custom(PunctuationId),
}

/// The text of user-defined punctuation, indexed by [`PunctuationId`].
pub struct PuncutationTable {
    pub puncts: Vec<String>,
}

impl Punctuation {
    /// The text of the punctuation; user-defined punctuation missing from the table has none.
    pub open spec fn spec_as_str(self, puncts: &PuncutationTable) -> Seq<char> {
        match self {
            Punctuation::Ampersand => "&"@,
            Punctuation::AndAnd => "&&"@,
            Punctuation::Asterisk => "*"@,
            Punctuation::At => "@"@,
            Punctuation::AtExclaim => "@!"@,
            Punctuation::Caret => "^"@,
            Punctuation::Colon => ":"@,
            Punctuation::ColonEquals => ":="@,
            Punctuation::Comma => ","@,
            Punctuation::Contains => "in"@,
            Punctuation::Dot => "."@,
            Punctuation::DotDot => ".."@,
            Punctuation::DotDotDot => "..."@,
            Punctuation::DotDotEquals => "..="@,
            Punctuation::DoubleArrow => "=>"@,
            Punctuation::Equals => "="@,
            Punctuation::Exclaim => "!"@,
            Punctuation::NotContains => "!in"@,
            Punctuation::Or => "|"@,
            Punctuation::Question => "?"@,
            Punctuation::QuestionDot => "?."@,
            Punctuation::Semicolon => ";"@,
            Punctuation::SingleArrowL => "<-"@,
            Punctuation::SingleArrowR => "->"@,
            Punctuation::Custom(id) => if (id.0 as int) < puncts.puncts@.len() {
                puncts.puncts@[id.0 as int]@
            } else {
                Seq::empty()
            },
        }
    }

    /// The text of the punctuation.
    pub fn as_str(self, puncts: &PuncutationTable) -> (r: String)
        ensures
            r@ == self.spec_as_str(puncts),
    {
        match self {
            Punctuation::Ampersand => String::from_str("&"),
            Punctuation::AndAnd => String::from_str("&&"),
            Punctuation::Asterisk => String::from_str("*"),
            Punctuation::At => String::from_str("@"),
            Punctuation::AtExclaim => String::from_str("@!"),
            Punctuation::Caret => String::from_str("^"),
            Punctuation::Colon => String::from_str(":"),
            Punctuation::ColonEquals => String::from_str(":="),
            Punctuation::Comma => String::from_str(","),
            Punctuation::Contains => String::from_str("in"),
            Punctuation::Dot => String::from_str("."),
            Punctuation::DotDot => String::from_str(".."),
            Punctuation::DotDotDot => String::from_str("..."),
            Punctuation::DotDotEquals => String::from_str("..="),
            Punctuation::DoubleArrow => String::from_str("=>"),
            Punctuation::Equals => String::from_str("="),
            Punctuation::Exclaim => String::from_str("!"),
            Punctuation::NotContains => String::from_str("!in"),
            Punctuation::Or => String::from_str("|"),
            Punctuation::Question => String::from_str("?"),
            Punctuation::QuestionDot => String::from_str("?."),
            Punctuation::Semicolon => String::from_str(";"),
            Punctuation::SingleArrowL => String::from_str("<-"),
            Punctuation::SingleArrowR => String::from_str("->"),
            Punctuation::Custom(id) => if (id.0 as usize) < puncts.puncts.len() {
                puncts.puncts[id.0 as usize].clone()
            } else {
                String::new()
            },
        }
    }
}

/// Opening and closing delimiters.
#[derive(Clone, Copy, PartialEq, Eq, Structural, Debug)]
pub enum OpenCloseSymbol {
    Paren,
    Bracket,
    Brace,
}

#[derive(Clone, Copy, PartialEq, Eq, Structural, Debug)]
pub enum Token {
    Name(NameId),
    WeakKw(WeakKeyword),
    StrongKw(StrongKeyword),
    Literal(LiteralId),
    Punctuation(Punctuation),
    OpenSymbol(OpenCloseSymbol),
    CloseSymbol(OpenCloseSymbol),
    Underscore,
}

/// What the lexer saw between a token and the one before it.
#[derive(Clone, Copy, PartialEq, Eq, Structural, Debug)]
pub enum MetaElem {
    Whitespace,
    Newline,
    Comment,
}

pub struct TokenMetadata {
    pub span_id:    SpanId,
    pub meta_elems: Vec<MetaElem>,
}

/// The lexer's output: the tokens, their metadata, and the names that
/// keywords stand for where they are used as names.
pub struct TokenStore {
    pub tokens:        Vec<Token>,
    pub metadata:      Vec<TokenMetadata>,
    pub weak_kw_names: Vec<NameId>,
    pub prim_ty_names: Vec<NameId>,
}

impl TokenStore {
    /// Every token has metadata, the keyword tables are complete, and a
    /// token position fits the `u32` positions kept in node metadata.
    pub open spec fn wf(&self) -> bool {
        &&& self.metadata@.len() == self.tokens@.len()
        &&& self.weak_kw_names@.len() == WEAK_KEYWORD_COUNT
        &&& self.prim_ty_names@.len() == PRIMITIVE_KEYWORD_COUNT
        &&& self.tokens@.len() <= 0xFFFF_0000
    }

    /// A store without tokens.
    pub fn new_dummy() -> (r: TokenStore)
        ensures
            r.tokens@.len() == 0,
            r.metadata@.len() == 0,
            r.weak_kw_names@.len() == 0,
            r.prim_ty_names@.len() == 0,
    {
        TokenStore { tokens: Vec::new(), metadata: Vec::new(), weak_kw_names: Vec::new(), prim_ty_names: Vec::new() }
    }

    pub open spec fn spec_weak_kw_name(&self, kw: WeakKeyword) -> NameId {
        self.weak_kw_names@[kw.spec_index() as int]
    }

    /// The name that a weak keyword stands for when used as a name.
    pub fn get_name_from_weak_keyword(&self, kw: WeakKeyword) -> (r: NameId)
        requires
            self.wf(),
        ensures
            r == self.spec_weak_kw_name(kw),
    {
        self.weak_kw_names[kw.index()]
    }

    pub open spec fn spec_prim_ty_name(&self, kw: StrongKeyword) -> Option<NameId> {
        match kw.spec_primitive_index() {
            Some(i) => Some(self.prim_ty_names@[i as int]),
            None => None,
        }
    }

    /// The name of a primitive type keyword; `None` for other strong keywords.
    pub fn get_name_from_prim_ty(&self, kw: StrongKeyword) -> (r: Option<NameId>)
        requires
            self.wf(),
        ensures
            r == self.spec_prim_ty_name(kw),
    {
        match kw.primitive_index() {
            Some(i) => Some(self.prim_ty_names[i]),
            None => None,
        }
    }
}

} // verus!
