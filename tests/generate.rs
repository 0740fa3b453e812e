use efbuilder::naming::{builder_name, flag_name, is_legal_ident};
use efbuilder::typestate::{applies, flags_after};
use efbuilder::{derive_builder, plan_builder, FieldDef, FlagArg, GenError, Schema, ScopeParam, TypeParam};

fn field(name: &str, ty: &str, docs: &[&str]) -> FieldDef {
    FieldDef {
        name: name.to_string(),
        ty: ty.to_string(),
        docs: docs.iter().map(|d| d.to_string()).collect(),
    }
}

fn record(name: &str, fields: Vec<FieldDef>) -> Schema {
    Schema {
        name: name.to_string(),
        vis: String::new(),
        scope_params: Vec::new(),
        type_params: Vec::new(),
        where_clause: String::new(),
        fields,
    }
}

fn struct1() -> Schema {
    Schema {
        name: "Struct1".to_string(),
        vis: "pub".to_string(),
        scope_params: vec![
            ScopeParam { name: "'a".to_string(), bounds: vec![] },
            ScopeParam { name: "'b".to_string(), bounds: vec!["'a".to_string()] },
        ],
        type_params: vec![
            TypeParam { name: "T".to_string(), bounds: vec![] },
            TypeParam { name: "M".to_string(), bounds: vec!["Default".to_string()] },
        ],
        where_clause: "where T: Debug".to_string(),
        fields: vec![
            field("field_1", "f64", &["#[doc = \" Field 1.\"]"]),
            field("field_2", "Vec<T>", &["#[doc = \" Field 2.\"]"]),
            field("field_3", "Vec<M>", &["#[doc = \" Field 3.\"]"]),
            field("field_4", "F64", &["#[doc = \" Field 4.\"]"]),
            field("field_5", "&'a f64", &["#[doc = \" Field 5.\"]"]),
            field("field_6", "&'b f64", &["#[doc = \" Field 6.\"]"]),
        ],
    }
}

/// Runs the setters of `order` from `new`, checking that each is defined
/// where it is called, and returns the final flags.
fn run_setters(s: &Schema, order: &[usize]) -> Vec<bool> {
    let plan = plan_builder(s).unwrap();
    let mut flags = vec![false; s.fields.len()];
    assert!(applies(&plan.constructor, &flags));
    for &i in order {
        let st = &plan.setters[i];
        assert!(applies(&st.receiver, &flags));
        flags = flags_after(&st.result, &flags);
        assert!(!applies(&st.receiver, &flags));
    }
    flags
}

#[test]
fn single_field_record_text() {
    let s = record("Struct3", vec![field("a", "f64", &[])]);
    let text = derive_builder(&s).unwrap();
    let expected = [
        " struct Struct3Builder<const A_INIT: bool, >  {\n",
        "    a: ::core::option::Option<f64>,\n",
        "}\n",
        "impl<> Struct3Builder<false, >  {\n",
        "    pub fn new() -> Self {\n",
        "        Struct3Builder { a: ::core::option::Option::None, }\n",
        "    }\n",
        "}\n",
        "impl<> Struct3Builder<true, >  {\n",
        "    pub fn build(self) -> Struct3<> {\n",
        "        Struct3 { a: self.a.unwrap(), }\n",
        "    }\n",
        "}\n",
        "impl<> Struct3Builder<false, >  {\n",
        "    pub fn a(self, value: f64) -> Struct3Builder<true, > {\n",
        "        Struct3Builder { a: ::core::option::Option::Some(value), }\n",
        "    }\n",
        "}\n",
    ].concat();
    assert_eq!(text, expected);
}

#[test]
fn single_field_needs_one_call() {
    let s = record("Struct3", vec![field("a", "f64", &[])]);
    let plan = plan_builder(&s).unwrap();
    assert!(!applies(&plan.finalizer, &vec![false]));
    let flags = run_setters(&s, &[0]);
    assert_eq!(flags, vec![true]);
    assert!(applies(&plan.finalizer, &flags));
}

#[test]
fn empty_record_text() {
    let s = record("Struct2", vec![]);
    let text = derive_builder(&s).unwrap();
    let expected = [
        " struct Struct2Builder<>  {\n",
        "}\n",
        "impl<> Struct2Builder<>  {\n",
        "    pub fn new() -> Self {\n",
        "        Struct2Builder { }\n",
        "    }\n",
        "}\n",
        "impl<> Struct2Builder<>  {\n",
        "    pub fn build(self) -> Struct2<> {\n",
        "        Struct2 { }\n",
        "    }\n",
        "}\n",
    ].concat();
    assert_eq!(text, expected);
}

#[test]
fn empty_record_builds_at_once() {
    let s = record("Struct2", vec![]);
    let plan = plan_builder(&s).unwrap();
    let start = flags_after(&plan.constructor, &vec![]);
    assert!(start.is_empty());
    assert!(applies(&plan.finalizer, &start));
    assert!(plan.setters.is_empty());
}

#[test]
fn mixed_schema_setter_text() {
    let text = derive_builder(&struct1()).unwrap();
    assert!(text.starts_with(&[
        "pub struct Struct1Builder<'a, 'b: 'a, const FIELD_1_INIT: bool, const FIELD_2_INIT: bool, ",
        "const FIELD_3_INIT: bool, const FIELD_4_INIT: bool, const FIELD_5_INIT: bool, ",
        "const FIELD_6_INIT: bool, T, M: Default, > where T: Debug {\n",
        "    field_1: ::core::option::Option<f64>,\n",
    ].concat()));
    let setter_5 = [
        "impl<'a, 'b: 'a, const FIELD_1_INIT: bool, const FIELD_2_INIT: bool, const FIELD_3_INIT: bool, ",
        "const FIELD_4_INIT: bool, const FIELD_6_INIT: bool, T, M: Default, > ",
        "Struct1Builder<'a, 'b, FIELD_1_INIT, FIELD_2_INIT, FIELD_3_INIT, FIELD_4_INIT, false, FIELD_6_INIT, T, M, > ",
        "where T: Debug {\n",
        "    #[doc = \" Field 5.\"]\n",
        "    pub fn field_5(self, value: &'a f64) -> ",
        "Struct1Builder<'a, 'b, FIELD_1_INIT, FIELD_2_INIT, FIELD_3_INIT, FIELD_4_INIT, true, FIELD_6_INIT, T, M, > {\n",
        "        Struct1Builder { field_1: self.field_1, field_2: self.field_2, field_3: self.field_3, ",
        "field_4: self.field_4, field_5: ::core::option::Option::Some(value), field_6: self.field_6, }\n",
        "    }\n",
        "}\n",
    ].concat();
    assert!(text.contains(&setter_5));
    let build = [
        "Struct1Builder<'a, 'b, true, true, true, true, true, true, T, M, > where T: Debug {\n",
        "    pub fn build(self) -> Struct1<'a, 'b, T, M, > {\n",
        "        Struct1 { field_1: self.field_1.unwrap(), field_2: self.field_2.unwrap(), ",
        "field_3: self.field_3.unwrap(), field_4: self.field_4.unwrap(), ",
        "field_5: self.field_5.unwrap(), field_6: self.field_6.unwrap(), }\n",
    ].concat();
    assert!(text.contains(&build));
}

#[test]
fn mixed_schema_declared_order_completes() {
    let s = struct1();
    let plan = plan_builder(&s).unwrap();
    let flags = run_setters(&s, &[0, 1, 2, 3, 4, 5]);
    assert_eq!(flags, vec![true; 6]);
    assert!(applies(&plan.finalizer, &flags));
}

#[test]
fn any_order_completes() {
    let s = struct1();
    let plan = plan_builder(&s).unwrap();
    for order in [[5, 4, 3, 2, 1, 0], [2, 0, 5, 1, 4, 3], [1, 3, 5, 0, 2, 4]] {
        let flags = run_setters(&s, &order);
        assert_eq!(flags, vec![true; 6]);
        assert!(applies(&plan.finalizer, &flags));
    }
}

#[test]
fn partial_state_cannot_build() {
    let s = struct1();
    let plan = plan_builder(&s).unwrap();
    let flags = run_setters(&s, &[0, 2, 4]);
    assert_eq!(flags, vec![true, false, true, false, true, false]);
    assert!(!applies(&plan.finalizer, &flags));
    for mask in 0u32..63 {
        let flags: Vec<bool> = (0..6).map(|k| mask & (1 << k) != 0).collect();
        assert!(!applies(&plan.finalizer, &flags));
    }
    assert!(applies(&plan.finalizer, &vec![true; 6]));
}

#[test]
fn setter_not_callable_twice() {
    let s = record("Pair", vec![field("x", "u8", &[]), field("y", "u8", &[])]);
    let plan = plan_builder(&s).unwrap();
    let after_x = flags_after(&plan.setters[0].result, &vec![false, false]);
    assert_eq!(after_x, vec![true, false]);
    assert!(!applies(&plan.setters[0].receiver, &after_x));
    assert!(applies(&plan.setters[1].receiver, &after_x));
}

#[test]
fn setter_patterns() {
    let s = record("Pair", vec![field("x", "u8", &[]), field("y", "u8", &[]), field("z", "u8", &[])]);
    let plan = plan_builder(&s).unwrap();
    let st = &plan.setters[1];
    assert_eq!(st.field, 1);
    assert_eq!(st.generic_flags, vec![0, 2]);
    assert_eq!(st.receiver, vec![FlagArg::Param(0), FlagArg::Fixed(false), FlagArg::Param(2)]);
    assert_eq!(st.result, vec![FlagArg::Param(0), FlagArg::Fixed(true), FlagArg::Param(2)]);
    assert_eq!(plan.constructor, vec![FlagArg::Fixed(false); 3]);
    assert_eq!(plan.finalizer, vec![FlagArg::Fixed(true); 3]);
    assert_eq!(plan.flags, vec!["X_INIT".to_string(), "Y_INIT".to_string(), "Z_INIT".to_string()]);
    assert_eq!(plan.builder_name, "PairBuilder");
}

#[test]
fn docs_carried_verbatim() {
    let docs = ["#[doc = \" First line.\"]", "#[doc = \"   indented  \"]"];
    let s = record("Doc", vec![field("a", "u8", &docs), field("b", "u8", &[])]);
    let text = derive_builder(&s).unwrap();
    let expected = "    #[doc = \" First line.\"]\n    #[doc = \"   indented  \"]\n    pub fn a(self, value: u8)";
    assert!(text.contains(expected));
    assert!(text.contains("impl<const A_INIT: bool, > DocBuilder<A_INIT, false, >  {\n    pub fn b(self, value: u8)"));
}

#[test]
fn illegal_builder_name() {
    let s = record("1x", vec![field("a", "u8", &[])]);
    assert_eq!(derive_builder(&s), Err(GenError::IllegalBuilderName));
    let s = record("a b", vec![]);
    assert_eq!(derive_builder(&s), Err(GenError::IllegalBuilderName));
}

#[test]
fn duplicate_field() {
    let s = record("R", vec![field("a", "u8", &[]), field("b", "u8", &[]), field("a", "u16", &[])]);
    assert_eq!(derive_builder(&s), Err(GenError::DuplicateField(2)));
}

#[test]
fn illegal_flag_name() {
    let s = record("R", vec![field("a", "u8", &[]), field("r#type", "u8", &[])]);
    assert_eq!(derive_builder(&s), Err(GenError::IllegalFlagName(1)));
}

#[test]
fn flag_collision() {
    let s = record("R", vec![field("a", "u8", &[]), field("A", "u8", &[])]);
    assert_eq!(derive_builder(&s), Err(GenError::FlagCollision(1)));
    let mut s = record("R", vec![field("b", "u8", &[])]);
    s.type_params.push(TypeParam { name: "B_INIT".to_string(), bounds: vec![] });
    assert_eq!(derive_builder(&s), Err(GenError::FlagCollision(0)));
}

#[test]
fn first_fault_wins() {
    let s = record("R", vec![field("a", "u8", &[]), field("a", "u8", &[]), field("r#fn", "u8", &[])]);
    assert_eq!(plan_builder(&s).err(), Some(GenError::DuplicateField(1)));
    let s = record("1x", vec![field("a", "u8", &[]), field("a", "u8", &[])]);
    assert_eq!(plan_builder(&s).err(), Some(GenError::IllegalBuilderName));
}

#[test]
fn names_derived() {
    assert_eq!(builder_name(&"Struct1".to_string()), "Struct1Builder");
    assert_eq!(flag_name(&"field_1".to_string()), "FIELD_1_INIT");
    assert_eq!(flag_name(&"é".to_string()), "É_INIT");
}

#[test]
fn identifier_legality() {
    assert!(is_legal_ident(&"Struct1Builder".to_string()));
    assert!(is_legal_ident(&"FIELD_1_INIT".to_string()));
    assert!(!is_legal_ident(&"fn".to_string()));
    assert!(!is_legal_ident(&"1xBuilder".to_string()));
    assert!(!is_legal_ident(&"a b".to_string()));
    assert!(!is_legal_ident(&"".to_string()));
}
