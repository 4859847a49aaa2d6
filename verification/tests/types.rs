use jasmine_codegen::types::{get_char_ptr_type, CType};

fn boxed(inner: CType) -> Box<CType> {
    Box::new(inner)
}

#[test]
fn scalar_types_render_to_their_keyword() {
    assert_eq!(CType::Int.to_string(), "int");
    assert_eq!(CType::Char.to_string(), "char");
    assert_eq!(CType::Float.to_string(), "float");
    assert_eq!(CType::Double.to_string(), "double");
    assert_eq!(CType::Void.to_string(), "void");
    assert_eq!(CType::_Bool.to_string(), "_Bool");
    assert_eq!(CType::_Complex.to_string(), "_Complex");
    assert_eq!(CType::_Imaginary.to_string(), "_Imaginary");
}

#[test]
fn derived_types_render_after_their_inner_type() {
    assert_eq!(CType::Pointer(boxed(CType::Int)).to_string(), "int*");
    assert_eq!(CType::Array(boxed(CType::Char)).to_string(), "char[]");
    assert_eq!(CType::Pointer(boxed(CType::Pointer(boxed(CType::Void)))).to_string(), "void**");
    assert_eq!(CType::Array(boxed(CType::Pointer(boxed(CType::Char)))).to_string(), "char*[]");
}

#[test]
fn qualifiers_render_before_their_inner_type() {
    assert_eq!(CType::Const(boxed(CType::Int)).to_string(), "const int");
    assert_eq!(CType::Volatile(boxed(CType::Int)).to_string(), "volatile int");
    assert_eq!(CType::Restrict(boxed(CType::Int)).to_string(), "restrict int");
    assert_eq!(CType::Short(boxed(CType::Int)).to_string(), "short int");
    assert_eq!(CType::Long(boxed(CType::Int)).to_string(), "long int");
    assert_eq!(CType::Unsigned(boxed(CType::Int)).to_string(), "unsigned int");
    assert_eq!(CType::Signed(boxed(CType::Char)).to_string(), "signed char");
    assert_eq!(
        CType::Unsigned(boxed(CType::Long(boxed(CType::Long(boxed(CType::Int)))))).to_string(),
        "unsigned long long int"
    );
}

#[test]
fn named_types_render_to_their_name() {
    assert_eq!(CType::CustomTypedefType("size_t".to_string()).to_string(), "size_t");
    assert_eq!(CType::CustomStructType("point".to_string()).to_string(), "point");
    assert_eq!(CType::CustomEnumType("color".to_string()).to_string(), "color");
    assert_eq!(CType::CustomUnionType("value".to_string()).to_string(), "value");
    assert_eq!(CType::CustomTypedefType(String::new()).to_string(), "");
}

#[test]
fn qualifier_and_pointer_nest_in_the_order_given() {
    let pointer_to_const = CType::Pointer(boxed(CType::Const(boxed(CType::Int))));
    let const_pointer = CType::Const(boxed(CType::Pointer(boxed(CType::Int))));
    assert_eq!(pointer_to_const.to_string(), "const int*");
    assert_eq!(const_pointer.to_string(), "const int*");
    assert_ne!(pointer_to_const, const_pointer);
}

#[test]
fn equality_is_structural() {
    assert_eq!(CType::Int, CType::Int);
    assert_ne!(CType::Int, CType::Char);
    assert_ne!(CType::Float, CType::Double);
    assert_eq!(CType::Pointer(boxed(CType::Char)), CType::Pointer(boxed(CType::Char)));
    assert_ne!(CType::Pointer(boxed(CType::Char)), CType::Pointer(boxed(CType::Int)));
    assert_ne!(CType::Pointer(boxed(CType::Char)), CType::Array(boxed(CType::Char)));
    assert_ne!(CType::Pointer(boxed(CType::Char)), CType::Char);
    assert_ne!(CType::Short(boxed(CType::Int)), CType::Long(boxed(CType::Int)));
    assert_ne!(CType::Signed(boxed(CType::Int)), CType::Unsigned(boxed(CType::Int)));
    assert_ne!(CType::Const(boxed(CType::Int)), CType::Volatile(boxed(CType::Int)));
    assert_ne!(CType::Restrict(boxed(CType::Int)), CType::Const(boxed(CType::Int)));
}

#[test]
fn named_types_are_equal_by_kind_and_name() {
    let typedef = CType::CustomTypedefType("t".to_string());
    assert_eq!(typedef, CType::CustomTypedefType("t".to_string()));
    assert_ne!(typedef, CType::CustomTypedefType("u".to_string()));
    assert_ne!(typedef, CType::CustomStructType("t".to_string()));
    assert_ne!(CType::CustomStructType("t".to_string()), CType::CustomEnumType("t".to_string()));
    assert_ne!(CType::CustomEnumType("t".to_string()), CType::CustomUnionType("t".to_string()));
    assert_eq!(CType::CustomUnionType("t".to_string()), CType::CustomUnionType("t".to_string()));
    assert_ne!(CType::CustomTypedefType("int".to_string()), CType::Int);
}

#[test]
fn same_as_agrees_with_equality() {
    let a = CType::Array(boxed(CType::Const(boxed(CType::CustomStructType("s".to_string())))));
    let b = CType::Array(boxed(CType::Const(boxed(CType::CustomStructType("s".to_string())))));
    let c = CType::Array(boxed(CType::Const(boxed(CType::CustomStructType("r".to_string())))));
    assert!(a.same_as(&b));
    assert!(b.same_as(&a));
    assert!(!a.same_as(&c));
    assert!(a == b);
    assert!(a != c);
}

#[test]
fn a_clone_is_equal_to_its_source() {
    let source = CType::Pointer(boxed(CType::Unsigned(boxed(CType::CustomTypedefType(
        "word".to_string(),
    )))));
    let copy = source.clone();
    assert_eq!(copy, source);
    assert_eq!(copy.to_string(), "unsigned word*");
}

#[test]
fn char_pointer_type_is_the_same_on_every_call() {
    let first = get_char_ptr_type();
    assert_eq!(first, CType::Pointer(boxed(CType::Char)));
    assert_eq!(first.to_string(), "char*");
    for _ in 0..100 {
        assert_eq!(get_char_ptr_type(), first);
    }
}
