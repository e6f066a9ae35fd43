use gx_md::parser::{
    home_file_name, parse_cstruct, parse_function, parse_inc, parse_ty_struct, parse_typedef,
    Malformed,
};
use gx_md::utils::c_function::CFunction;
use gx_md::utils::c_function_param::CFunctionParams;
use gx_md::utils::c_includes::CIncludes;
use gx_md::utils::c_object::c_variable_field::CVariableField;
use gx_md::utils::c_object::{CObject, CObjectType};

fn object(kind: CObjectType, name: &str, fields: &[(&str, &str)], alias: Option<&str>) -> CObject {
    CObject {
        obj_type: kind,
        name: name.to_string(),
        fields: fields.iter().map(|(unit, name)| CVariableField::new(name, unit)).collect(),
        alias: alias.map(|a| a.to_string()),
    }
}

fn function(unit: &str, name: &str, params: &[(&str, Option<&str>)]) -> CFunction {
    CFunction {
        unit: unit.to_string(),
        name: name.to_string(),
        parameters: params
            .iter()
            .map(|(unit, name)| CFunctionParams::new(unit, name.map(|n| n.to_string())))
            .collect(),
    }
}

fn header_of(name: &str, url: &str) -> CIncludes {
    CIncludes { name: name.to_string(), url: url.to_string() }
}

fn bad<T>(text: &str) -> Result<T, Malformed> {
    Err(Malformed { buffer: text.to_string() })
}

#[test]
fn struct_with_fields() {
    assert_eq!(
        parse_cstruct("struct Point { int x; char y; };"),
        Ok(object(CObjectType::Struct, "Point", &[("int", "x"), ("char", "y")], None))
    );
    assert_eq!(
        parse_cstruct("  struct Point{int x;};  "),
        Ok(object(CObjectType::Struct, "Point", &[("int", "x")], None))
    );
    assert_eq!(
        parse_cstruct("struct Point {  int x;\tdouble   y ;  };"),
        Ok(object(CObjectType::Struct, "Point", &[("int", "x"), ("double", "y")], None))
    );
}

#[test]
fn struct_without_name() {
    assert_eq!(
        parse_cstruct("struct { int x; };"),
        Ok(object(CObjectType::Struct, "", &[("int", "x")], None))
    );
}

#[test]
fn struct_field_takes_first_two_words() {
    assert_eq!(
        parse_cstruct("struct S { unsigned int x; char *p; };"),
        Ok(object(CObjectType::Struct, "S", &[("unsigned", "int"), ("char", "*p")], None))
    );
}

#[test]
fn struct_ends_at_last_closing_brace() {
    assert_eq!(
        parse_cstruct("struct S { int a; } b; };"),
        Ok(object(CObjectType::Struct, "S", &[("int", "a"), ("}", "b")], None))
    );
}

#[test]
fn malformed_structs_are_handed_back() {
    for text in [
        "",
        "struct",
        "struct Point",
        "struct Point;",
        "struct Point { int x; }",
        "struct Point { int x };",
        "struct Point { int; };",
        "struct Point { int x;; char y; };",
        "struct Point {};",
        "struct Point { };",
        "struct Point };",
        "union Point { int x; };",
        "typedef struct Point { int x; };",
        "struct Point };{",
    ] {
        assert_eq!(parse_cstruct(text), bad(text), "{:?}", text);
    }
}

#[test]
fn typedef_struct_with_alias() {
    assert_eq!(
        parse_ty_struct("typedef struct { int x; char y; } Point;"),
        Ok(object(CObjectType::Struct, "", &[("int", "x"), ("char", "y")], Some("Point")))
    );
    assert_eq!(
        parse_ty_struct(" typedef   struct  Foo {int x;}Point ; "),
        Ok(object(CObjectType::Struct, "Foo", &[("int", "x")], Some("Point")))
    );
    assert_eq!(
        parse_ty_struct("typedef struct Foo {  int x;} Point;"),
        Ok(object(CObjectType::Struct, "Foo", &[("int", "x")], Some("Point")))
    );
}

#[test]
fn typedef_struct_fields_end_at_first_closing_brace() {
    assert_eq!(
        parse_ty_struct("typedef struct { int x; } A } B;"),
        Ok(object(CObjectType::Struct, "", &[("int", "x")], Some("A } B")))
    );
}

#[test]
fn malformed_typedef_structs_are_handed_back() {
    for text in [
        "",
        "typedef",
        "typedef struct",
        "typedef struct Foo",
        "typedef struct { int x; } Point",
        "typedef struct { int x; };",
        "typedef struct { int x; } ;",
        "typedef struct { int x } Point;",
        "typedef struct { } Point;",
        "typedef struct { int x; Point;",
        "typedef struct int x; } Point;",
        "typedef union { int x; } Point;",
        "struct { int x; } Point;",
        "typedef struct { int; } Point;",
    ] {
        assert_eq!(parse_ty_struct(text), bad(text), "{:?}", text);
    }
}

#[test]
fn typedef_of_a_type() {
    assert_eq!(
        parse_typedef("typedef int myint;"),
        Ok(object(CObjectType::Alias, "int", &[], Some("myint")))
    );
    assert_eq!(
        parse_typedef("  typedef\tint   myint ;  "),
        Ok(object(CObjectType::Alias, "int", &[], Some("myint")))
    );
    assert_eq!(
        parse_typedef("typedef unsigned int uint;"),
        Ok(object(CObjectType::Alias, "unsigned", &[], Some("int")))
    );
    assert_eq!(
        parse_typedef("typedef struct Foo;"),
        Ok(object(CObjectType::Alias, "struct", &[], Some("Foo")))
    );
    assert_eq!(
        parse_typedef("typedef structure_t other;"),
        Ok(object(CObjectType::Alias, "structure_t", &[], Some("other")))
    );
}

#[test]
fn typedef_of_a_struct_without_fields() {
    assert_eq!(
        parse_typedef("typedef struct Foo Bar;"),
        Ok(object(CObjectType::Struct, "Foo", &[], Some("Bar")))
    );
    assert_eq!(
        parse_typedef("typedef struct Foo Bar Baz;"),
        Ok(object(CObjectType::Struct, "Foo", &[], Some("Bar")))
    );
}

#[test]
fn malformed_typedefs_are_handed_back() {
    for text in ["", "typedef", "typedef;", "typedef int;", "typedef int myint", "int myint;",
        "typedef ;", "typedef int myint; // x"]
    {
        assert_eq!(parse_typedef(text), bad(text), "{:?}", text);
    }
}

#[test]
fn function_with_parameters() {
    assert_eq!(
        parse_function("int add(int a,int b);"),
        Ok(function("int", "add", &[("int", Some("a")), ("int", Some("b"))]))
    );
    assert_eq!(
        parse_function("  void\trun ( int , char  c );"),
        Ok(function("void", "run", &[("int", None), ("char", Some("c"))]))
    );
    assert_eq!(
        parse_function("float scale(unsigned int factor);"),
        Ok(function("float", "scale", &[("unsigned", Some("int"))]))
    );
}

#[test]
fn function_without_parameters() {
    assert_eq!(parse_function("int now();"), Ok(function("int", "now", &[])));
    assert_eq!(parse_function("int now(  );"), Ok(function("int", "now", &[])));
    assert_eq!(parse_function("int now(void);"), Ok(function("int", "now", &[("void", None)])));
}

#[test]
fn function_name_is_all_before_the_parenthesis() {
    assert_eq!(
        parse_function("static inline int f(int a);"),
        Ok(function("static", "inline int f", &[("int", Some("a"))]))
    );
}

#[test]
fn malformed_functions_are_handed_back() {
    for text in [
        "",
        "int",
        "int add",
        "int add;",
        "intadd(int a);",
        "int add(int a)",
        "int add(int a); // adds",
        "int add int a);",
        "int add(int a,);",
        "int add(,int a);",
        "int add(int a,,int b);",
        "int (int a);",
        "void (*cb)(int);",
        "int add);(",
    ] {
        assert_eq!(parse_function(text), bad(text), "{:?}", text);
    }
}

#[test]
fn include_of_the_home_header() {
    assert_eq!(parse_inc("#include \"foo.h\"", "foo.h"), Ok(header_of("foo.h", "Home")));
    assert_eq!(parse_inc("#include \"foo.h\"", "src/lib/foo.h"), Ok(header_of("foo.h", "Home")));
    assert_eq!(parse_inc("#include \"foo.h\"", "src\\foo.h"), Ok(header_of("foo.h", "Home")));
    assert_eq!(parse_inc(" #include   \"foo.h\"  ", "/foo.h"), Ok(header_of("foo.h", "Home")));
    assert_eq!(parse_inc("#include foo.h", "foo.h"), Ok(header_of("foo.h", "Home")));
    assert_eq!(parse_inc("#include \"a b\"", "a b"), Ok(header_of("a b", "Home")));
}

#[test]
fn include_of_another_header() {
    assert_eq!(parse_inc("#include \"bar.h\"", "foo.h"), Ok(header_of("bar.h", "Bar")));
    assert_eq!(parse_inc("#include \"bar.h\"", ""), Ok(header_of("bar.h", "Bar")));
    assert_eq!(parse_inc("#include \"sub/bar.h\"", "bar.h"), Ok(header_of("sub/bar.h", "Sub/bar")));
    assert_eq!(parse_inc("#include\"Bar.h\"", "a/b\\bar.h"), Ok(header_of("Bar.h", "Bar")));
    assert_eq!(parse_inc("#include \"x.h.h\"", "foo.h"), Ok(header_of("x.h.h", "X.md")));
    assert_eq!(parse_inc("#include \"élan.h\"", "foo.h"), Ok(header_of("élan.h", "élan")));
}

#[test]
fn malformed_includes_are_handed_back() {
    for text in [
        "",
        "#include",
        "#include \"\"",
        "#include \"bar.hpp\"",
        "#include \"bar\"",
        "include \"bar.h\"",
        "int x; #include \"bar.h\"",
    ] {
        assert_eq!(parse_inc(text, "foo.h"), bad(text), "{:?}", text);
    }
    assert_eq!(parse_inc("#include \"\"", ""), bad("#include \"\""));
}

#[test]
fn home_file_is_last_part_of_path() {
    let cs = |s: &str| s.chars().collect::<Vec<char>>();
    assert_eq!(home_file_name("foo.h"), cs("foo.h"));
    assert_eq!(home_file_name("a/b/foo.h"), cs("foo.h"));
    assert_eq!(home_file_name("a\\b\\foo.h"), cs("foo.h"));
    assert_eq!(home_file_name("a\\b/foo.h"), cs("foo.h"));
    assert_eq!(home_file_name("a/b\\foo.h"), cs("b\\foo.h"));
    assert_eq!(home_file_name("a/"), cs(""));
    assert_eq!(home_file_name(""), cs(""));
}
