//! Expression nodes, their static types and the checked append of array
//! literals.

use vstd::prelude::*;
use crate::error::{CodegenError, ExpressionKind};
use crate::types::{get_char_ptr_type, CType};

verus! {

/// An integer literal: `21`.
#[derive(Debug)]
pub struct CNumberExpression {
    pub cvalue: i32,
}

/// A string literal: `"Hello"`. `length` is the length of the text in bytes.
#[derive(Debug)]
pub struct CStringExpression {
    pub cvalue: String,
    pub length: usize,
}

/// An identifier: `x`.
#[derive(Debug)]
pub struct CIdentifierExpression {
    pub cvalue: String,
}

/// A decimal literal whose type, float or double, the caller chooses.
#[derive(Debug)]
pub struct CDecimalExpression {
    pub cvalue: i32,
    pub ctype: CType,
}

/// An array literal with a declared element type. `length` counts the
/// elements and `capacity` is a hint that stays one ahead of it.
#[derive(Debug)]
pub struct CArrayExpression {
    pub cvalue: Vec<CExpression>,
    pub ctype: CType,
    pub length: usize,
    pub capacity: usize,
}

/// A character literal: `'x'`.
#[derive(Debug)]
pub struct CCharExpression {
    pub cvalue: char,
}

/// A boolean literal.
#[derive(Debug)]
pub struct CBooleanExpression {
    pub cvalue: char,
}

/// A call of a named function with its arguments in order, used both as an
/// expression and as a statement.
#[derive(Debug)]
pub struct CFunctionCallStatement {
    pub function: String,
    pub args: Vec<CExpression>,
}

/// An expression node.
#[derive(Debug)]
pub enum CExpression {
    NumberExpression(CNumberExpression),
    StringExpression(CStringExpression),
    IdentifierExpression(CIdentifierExpression),
    DecimalExpression(CDecimalExpression),
    ArrayExpression(CArrayExpression),
    CharExpression(CCharExpression),
    BooleanExpression(CBooleanExpression),
    HexExpression(CNumberExpression),
    OctalExpression(CNumberExpression),
    TernaryExpression,
    CastExpression,
    StructExpression,
    BinaryExpression,
    LogicalExpression,
    MemberExpression,
    IndexExpression,
    PointerExpression,
    FunctionCallExpression(CFunctionCallStatement),
}

impl CExpression {
    /// The category of this node.
    pub open spec fn spec_kind(self) -> ExpressionKind {
        match self {
            CExpression::NumberExpression(_) => ExpressionKind::Number,
            CExpression::StringExpression(_) => ExpressionKind::String,
            CExpression::IdentifierExpression(_) => ExpressionKind::Identifier,
            CExpression::DecimalExpression(_) => ExpressionKind::Decimal,
            CExpression::ArrayExpression(_) => ExpressionKind::Array,
            CExpression::CharExpression(_) => ExpressionKind::Char,
            CExpression::BooleanExpression(_) => ExpressionKind::Boolean,
            CExpression::HexExpression(_) => ExpressionKind::Hex,
            CExpression::OctalExpression(_) => ExpressionKind::Octal,
            CExpression::TernaryExpression => ExpressionKind::Ternary,
            CExpression::CastExpression => ExpressionKind::Cast,
            CExpression::StructExpression => ExpressionKind::Struct,
            CExpression::BinaryExpression => ExpressionKind::Binary,
            CExpression::LogicalExpression => ExpressionKind::Logical,
            CExpression::MemberExpression => ExpressionKind::Member,
            CExpression::IndexExpression => ExpressionKind::Index,
            CExpression::PointerExpression => ExpressionKind::Pointer,
            CExpression::FunctionCallExpression(_) => ExpressionKind::FunctionCall,
        }
    }

    /// The category of this node.
    pub fn kind(&self) -> (kind: ExpressionKind)
        ensures
            kind == self.spec_kind(),
    {
        match self {
            CExpression::NumberExpression(_) => ExpressionKind::Number,
            CExpression::StringExpression(_) => ExpressionKind::String,
            CExpression::IdentifierExpression(_) => ExpressionKind::Identifier,
            CExpression::DecimalExpression(_) => ExpressionKind::Decimal,
            CExpression::ArrayExpression(_) => ExpressionKind::Array,
            CExpression::CharExpression(_) => ExpressionKind::Char,
            CExpression::BooleanExpression(_) => ExpressionKind::Boolean,
            CExpression::HexExpression(_) => ExpressionKind::Hex,
            CExpression::OctalExpression(_) => ExpressionKind::Octal,
            CExpression::TernaryExpression => ExpressionKind::Ternary,
            CExpression::CastExpression => ExpressionKind::Cast,
            CExpression::StructExpression => ExpressionKind::Struct,
            CExpression::BinaryExpression => ExpressionKind::Binary,
            CExpression::LogicalExpression => ExpressionKind::Logical,
            CExpression::MemberExpression => ExpressionKind::Member,
            CExpression::IndexExpression => ExpressionKind::Index,
            CExpression::PointerExpression => ExpressionKind::Pointer,
            CExpression::FunctionCallExpression(_) => ExpressionKind::FunctionCall,
        }
    }

    /// The type that is statically known of an expression, or `None` where it
    /// is not known yet. Integer, hexadecimal and octal literals are `int`; a
    /// string literal is pointer to `char`; a character literal is `char`; a
    /// boolean literal is `_Bool`; decimal and array literals have the type
    /// stored on the node. Nothing is known of any other category.
    pub open spec fn static_type(self) -> Option<CType> {
        match self {
            CExpression::NumberExpression(_) => Some(CType::Int),
            CExpression::HexExpression(_) => Some(CType::Int),
            CExpression::OctalExpression(_) => Some(CType::Int),
            CExpression::StringExpression(_) => Some(CType::Pointer(Box::new(CType::Char))),
            CExpression::CharExpression(_) => Some(CType::Char),
            CExpression::BooleanExpression(_) => Some(CType::_Bool),
            CExpression::DecimalExpression(decimal) => Some(decimal.ctype),
            CExpression::ArrayExpression(array) => Some(array.ctype),
            _ => None,
        }
    }

    /// Infers the static type of the expression.
    pub fn get_type(&self) -> (inferred: Option<CType>)
        ensures
            inferred == self.static_type(),
    {
        match self {
            CExpression::NumberExpression(_) => Some(CType::Int),
            CExpression::StringExpression(_) => Some(get_char_ptr_type()),
            CExpression::IdentifierExpression(_) => None,
            CExpression::DecimalExpression(decimal) => Some(decimal.ctype.clone()),
            CExpression::ArrayExpression(array) => Some(array.ctype.clone()),
            CExpression::CharExpression(_) => Some(CType::Char),
            CExpression::BooleanExpression(_) => Some(CType::_Bool),
            CExpression::HexExpression(_) => Some(CType::Int),
            CExpression::OctalExpression(_) => Some(CType::Int),
            CExpression::TernaryExpression => None,
            CExpression::CastExpression => None,
            CExpression::StructExpression => None,
            CExpression::BinaryExpression => None,
            CExpression::LogicalExpression => None,
            CExpression::MemberExpression => None,
            CExpression::IndexExpression => None,
            CExpression::PointerExpression => None,
            CExpression::FunctionCallExpression(_) => None,
        }
    }

    /// Whether a value of this expression may stand where `declared` is
    /// expected: its type is not known yet, or is structurally equal to
    /// `declared`.
    pub open spec fn fits(self, declared: CType) -> bool {
        match self.static_type() {
            Some(found) => found@ == declared@,
            None => true,
        }
    }

    /// Checks the expression against a declared type. An expression whose
    /// type is not known passes unchecked.
    pub fn check_type(&self, declared: &CType) -> (outcome: Result<(), CodegenError>)
        ensures
            self.fits(*declared) ==> outcome == Ok::<(), CodegenError>(()),
            !self.fits(*declared) ==> outcome == Err::<(), CodegenError>(
                CodegenError::TypeMismatch {
                    expected: *declared,
                    found: self.static_type()->0,
                },
            ),
    {
        match self.get_type() {
            Some(found) => {
                if found.same_as(declared) {
                    Ok(())
                } else {
                    Err(CodegenError::TypeMismatch { expected: declared.clone(), found })
                }
            },
            None => Ok(()),
        }
    }
}

impl CNumberExpression {
    pub fn new(number: i32) -> (expr: Self)
        ensures
            expr.cvalue == number,
    {
        Self { cvalue: number }
    }
}

impl CStringExpression {
    pub fn new(string: &str) -> (expr: Self)
        ensures
            expr.cvalue@ == string@,
            expr.length == string.len(),
    {
        Self { cvalue: string.to_owned(), length: string.len() }
    }
}

impl CIdentifierExpression {
    pub fn new(identifier: &str) -> (expr: Self)
        ensures
            expr.cvalue@ == identifier@,
    {
        Self { cvalue: identifier.to_owned() }
    }
}

impl CDecimalExpression {
    pub fn new(decimal: i32, ctype: CType) -> (expr: Self)
        ensures
            expr.cvalue == decimal,
            expr.ctype == ctype,
    {
        Self { cvalue: decimal, ctype }
    }
}

impl CCharExpression {
    pub fn new(char: char) -> (expr: Self)
        ensures
            expr.cvalue == char,
    {
        Self { cvalue: char }
    }
}

impl CArrayExpression {
    /// The counters agree with the contents: `length` is the number of
    /// elements and `capacity` is one more.
    pub open spec fn wf(self) -> bool {
        &&& self.length == self.cvalue@.len()
        &&& self.capacity == self.length + 1
    }

    /// Every element whose type is known has the declared element type.
    pub open spec fn homogeneous(self) -> bool {
        forall|i: int| 0 <= i < self.cvalue@.len() ==> (#[trigger] self.cvalue@[i]).fits(self.ctype)
    }

    pub fn new(value: Vec<CExpression>, ctype: CType) -> (array: Self)
        requires
            value.len() < usize::MAX,
        ensures
            array.cvalue == value,
            array.ctype == ctype,
            array.wf(),
    {
        let len = value.len();
        Self { cvalue: value, ctype, length: len, capacity: len + 1 }
    }

    /// Appends `item` if it fits the declared element type. An item of a
    /// known, different type is refused and the array stays as it was; an
    /// item whose type is not known is appended unchecked.
    pub fn push(&mut self, item: CExpression) -> (outcome: Result<(), CodegenError>)
        requires
            old(self).length < usize::MAX,
            old(self).capacity < usize::MAX,
        ensures
            item.fits(old(self).ctype) ==> ({
                &&& outcome == Ok::<(), CodegenError>(())
                &&& final(self).cvalue@ == old(self).cvalue@.push(item)
                &&& final(self).ctype == old(self).ctype
                &&& final(self).length == old(self).length + 1
                &&& final(self).capacity == old(self).capacity + 1
                &&& old(self).wf() ==> final(self).wf()
                &&& old(self).homogeneous() ==> final(self).homogeneous()
            }),
            !item.fits(old(self).ctype) ==> ({
                &&& outcome == Err::<(), CodegenError>(
                    CodegenError::TypeMismatch {
                        expected: old(self).ctype,
                        found: item.static_type()->0,
                    },
                )
                &&& *final(self) == *old(self)
            }),
    {
        match item.check_type(&self.ctype) {
            Ok(()) => {},
            Err(mismatch) => {
                return Err(mismatch);
            },
        }
        self.cvalue.push(item);
        self.length = self.length + 1;
        self.capacity = self.capacity + 1;
        Ok(())
    }
}

} // verus!
