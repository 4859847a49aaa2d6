//! The C type model: a recursive description of a C type, its structural
//! equality and its textual form.

use vstd::prelude::*;
use vstd::std_specs::cmp::PartialEqSpecImpl;
use vstd::string::StringExecFns;

verus! {

/// A C type. Derived and qualifier kinds own exactly one nested type; named
/// kinds hold a name that is not resolved against any declaration.
#[derive(Debug)]
pub enum CType {
    Int,
    Char,
    Float,
    Double,
    Void,
    _Bool,
    _Complex,
    _Imaginary,
    Pointer(Box<CType>),
    Array(Box<CType>),
    Const(Box<CType>),
    Volatile(Box<CType>),
    Restrict(Box<CType>),
    Short(Box<CType>),
    Long(Box<CType>),
    Unsigned(Box<CType>),
    Signed(Box<CType>),
    CustomTypedefType(String),
    CustomStructType(String),
    CustomEnumType(String),
    CustomUnionType(String),
}

/// The mathematical shape of a [`CType`]: the same tree, with every name
/// given as its sequence of characters. Two types are structurally equal
/// exactly when their shapes are equal.
pub enum CTypeView {
    Int,
    Char,
    Float,
    Double,
    Void,
    _Bool,
    _Complex,
    _Imaginary,
    Pointer(Box<CTypeView>),
    Array(Box<CTypeView>),
    Const(Box<CTypeView>),
    Volatile(Box<CTypeView>),
    Restrict(Box<CTypeView>),
    Short(Box<CTypeView>),
    Long(Box<CTypeView>),
    Unsigned(Box<CTypeView>),
    Signed(Box<CTypeView>),
    CustomTypedefType(Seq<char>),
    CustomStructType(Seq<char>),
    CustomEnumType(Seq<char>),
    CustomUnionType(Seq<char>),
}

impl View for CType {
    type V = CTypeView;

    open spec fn view(&self) -> CTypeView
        decreases self,
    {
        match self {
            CType::Int => CTypeView::Int,
            CType::Char => CTypeView::Char,
            CType::Float => CTypeView::Float,
            CType::Double => CTypeView::Double,
            CType::Void => CTypeView::Void,
            CType::_Bool => CTypeView::_Bool,
            CType::_Complex => CTypeView::_Complex,
            CType::_Imaginary => CTypeView::_Imaginary,
            CType::Pointer(inner) => CTypeView::Pointer(Box::new((**inner).view())),
            CType::Array(inner) => CTypeView::Array(Box::new((**inner).view())),
            CType::Const(inner) => CTypeView::Const(Box::new((**inner).view())),
            CType::Volatile(inner) => CTypeView::Volatile(Box::new((**inner).view())),
            CType::Restrict(inner) => CTypeView::Restrict(Box::new((**inner).view())),
            CType::Short(inner) => CTypeView::Short(Box::new((**inner).view())),
            CType::Long(inner) => CTypeView::Long(Box::new((**inner).view())),
            CType::Unsigned(inner) => CTypeView::Unsigned(Box::new((**inner).view())),
            CType::Signed(inner) => CTypeView::Signed(Box::new((**inner).view())),
            CType::CustomTypedefType(name) => CTypeView::CustomTypedefType(name@),
            CType::CustomStructType(name) => CTypeView::CustomStructType(name@),
            CType::CustomEnumType(name) => CTypeView::CustomEnumType(name@),
            CType::CustomUnionType(name) => CTypeView::CustomUnionType(name@),
        }
    }
}

/// The canonical C text of a type: scalars are their keyword, a pointer is
/// `{inner}*`, an array `{inner}[]`, a qualifier `{keyword} {inner}`, and a
/// named type is its name.
pub open spec fn type_text(t: CTypeView) -> Seq<char>
    decreases t,
{
    match t {
        CTypeView::Int => "int"@,
        CTypeView::Char => "char"@,
        CTypeView::Float => "float"@,
        CTypeView::Double => "double"@,
        CTypeView::Void => "void"@,
        CTypeView::_Bool => "_Bool"@,
        CTypeView::_Complex => "_Complex"@,
        CTypeView::_Imaginary => "_Imaginary"@,
        CTypeView::Pointer(inner) => type_text(*inner) + "*"@,
        CTypeView::Array(inner) => type_text(*inner) + "[]"@,
        CTypeView::Const(inner) => "const "@ + type_text(*inner),
        CTypeView::Volatile(inner) => "volatile "@ + type_text(*inner),
        CTypeView::Restrict(inner) => "restrict "@ + type_text(*inner),
        CTypeView::Short(inner) => "short "@ + type_text(*inner),
        CTypeView::Long(inner) => "long "@ + type_text(*inner),
        CTypeView::Unsigned(inner) => "unsigned "@ + type_text(*inner),
        CTypeView::Signed(inner) => "signed "@ + type_text(*inner),
        CTypeView::CustomTypedefType(name) => name,
        CTypeView::CustomStructType(name) => name,
        CTypeView::CustomEnumType(name) => name,
        CTypeView::CustomUnionType(name) => name,
    }
}

impl Clone for CType {
    /// A deep copy, equal to its source in every field.
    fn clone(&self) -> (copy: Self)
        ensures
            copy == *self,
        decreases self,
    {
        match self {
            CType::Int => CType::Int,
            CType::Char => CType::Char,
            CType::Float => CType::Float,
            CType::Double => CType::Double,
            CType::Void => CType::Void,
            CType::_Bool => CType::_Bool,
            CType::_Complex => CType::_Complex,
            CType::_Imaginary => CType::_Imaginary,
            CType::Pointer(inner) => CType::Pointer(Box::new((&**inner).clone())),
            CType::Array(inner) => CType::Array(Box::new((&**inner).clone())),
            CType::Const(inner) => CType::Const(Box::new((&**inner).clone())),
            CType::Volatile(inner) => CType::Volatile(Box::new((&**inner).clone())),
            CType::Restrict(inner) => CType::Restrict(Box::new((&**inner).clone())),
            CType::Short(inner) => CType::Short(Box::new((&**inner).clone())),
            CType::Long(inner) => CType::Long(Box::new((&**inner).clone())),
            CType::Unsigned(inner) => CType::Unsigned(Box::new((&**inner).clone())),
            CType::Signed(inner) => CType::Signed(Box::new((&**inner).clone())),
            CType::CustomTypedefType(name) => CType::CustomTypedefType(name.clone()),
            CType::CustomStructType(name) => CType::CustomStructType(name.clone()),
            CType::CustomEnumType(name) => CType::CustomEnumType(name.clone()),
            CType::CustomUnionType(name) => CType::CustomUnionType(name.clone()),
        }
    }
}

impl CType {
    /// Structural comparison: the same variant at every level and the same
    /// characters in every name.
    pub fn same_as(&self, other: &CType) -> (same: bool)
        ensures
            same == (self@ == other@),
        decreases self,
    {
        match self {
            CType::Int => matches!(other, CType::Int),
            CType::Char => matches!(other, CType::Char),
            CType::Float => matches!(other, CType::Float),
            CType::Double => matches!(other, CType::Double),
            CType::Void => matches!(other, CType::Void),
            CType::_Bool => matches!(other, CType::_Bool),
            CType::_Complex => matches!(other, CType::_Complex),
            CType::_Imaginary => matches!(other, CType::_Imaginary),
            CType::Pointer(a) => match other {
                CType::Pointer(b) => a.same_as(b),
                _ => false,
            },
            CType::Array(a) => match other {
                CType::Array(b) => a.same_as(b),
                _ => false,
            },
            CType::Const(a) => match other {
                CType::Const(b) => a.same_as(b),
                _ => false,
            },
            CType::Volatile(a) => match other {
                CType::Volatile(b) => a.same_as(b),
                _ => false,
            },
            CType::Restrict(a) => match other {
                CType::Restrict(b) => a.same_as(b),
                _ => false,
            },
            CType::Short(a) => match other {
                CType::Short(b) => a.same_as(b),
                _ => false,
            },
            CType::Long(a) => match other {
                CType::Long(b) => a.same_as(b),
                _ => false,
            },
            CType::Unsigned(a) => match other {
                CType::Unsigned(b) => a.same_as(b),
                _ => false,
            },
            CType::Signed(a) => match other {
                CType::Signed(b) => a.same_as(b),
                _ => false,
            },
            CType::CustomTypedefType(a) => match other {
                CType::CustomTypedefType(b) => *a == *b,
                _ => false,
            },
            CType::CustomStructType(a) => match other {
                CType::CustomStructType(b) => *a == *b,
                _ => false,
            },
            CType::CustomEnumType(a) => match other {
                CType::CustomEnumType(b) => *a == *b,
                _ => false,
            },
            CType::CustomUnionType(a) => match other {
                CType::CustomUnionType(b) => *a == *b,
                _ => false,
            },
        }
    }

    /// Renders the type as C text.
    pub fn to_string(&self) -> (text: String)
        ensures
            text@ == type_text(self@),
        decreases self, 0nat,
    {
        match self {
            CType::Int => String::from_str("int"),
            CType::Char => String::from_str("char"),
            CType::Float => String::from_str("float"),
            CType::Double => String::from_str("double"),
            CType::Void => String::from_str("void"),
            CType::_Bool => String::from_str("_Bool"),
            CType::_Complex => String::from_str("_Complex"),
            CType::_Imaginary => String::from_str("_Imaginary"),
            CType::Pointer(inner) => inner.to_string().concat("*"),
            CType::Array(inner) => inner.to_string().concat("[]"),
            CType::Const(inner) => inner.qualified("const "),
            CType::Volatile(inner) => inner.qualified("volatile "),
            CType::Restrict(inner) => inner.qualified("restrict "),
            CType::Short(inner) => inner.qualified("short "),
            CType::Long(inner) => inner.qualified("long "),
            CType::Unsigned(inner) => inner.qualified("unsigned "),
            CType::Signed(inner) => inner.qualified("signed "),
            CType::CustomTypedefType(name) => name.clone(),
            CType::CustomStructType(name) => name.clone(),
            CType::CustomEnumType(name) => name.clone(),
            CType::CustomUnionType(name) => name.clone(),
        }
    }

    /// The text of this type behind a qualifier keyword (which ends in a space).
    fn qualified(&self, keyword: &str) -> (text: String)
        ensures
            text@ == keyword@ + type_text(self@),
        decreases self, 1nat,
    {
        let inner = self.to_string();
        String::from_str(keyword).concat(inner.as_str())
    }
}

impl PartialEq for CType {
    fn eq(&self, other: &Self) -> (same: bool) {
        self.same_as(other)
    }
}

impl PartialEqSpecImpl for CType {
    open spec fn obeys_eq_spec() -> bool {
        true
    }

    open spec fn eq_spec(&self, other: &Self) -> bool {
        self@ == other@
    }
}

/// The type of a string literal: pointer to `char`. Every call builds the
/// same value; nothing is shared between callers.
pub fn get_char_ptr_type() -> (t: CType)
    ensures
        t == CType::Pointer(Box::new(CType::Char)),
{
    CType::Pointer(Box::new(CType::Char))
}

} // verus!
