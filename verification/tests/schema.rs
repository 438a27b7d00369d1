use error_code::{Attr, SchemaError, Taxonomy, TaxonomyDecl, VariantDecl};

fn attr(key: &str, value: &str) -> Attr {
    Attr { key: key.to_string(), value: value.to_string() }
}

fn variant(name: &str, attrs: Vec<Attr>) -> VariantDecl {
    VariantDecl { name: name.to_string(), attrs }
}

fn my_error() -> TaxonomyDecl {
    TaxonomyDecl {
        name: "MyError".to_string(),
        attrs: vec![attr("app_type", "http::StatusCode"), attr("prefix", "01")],
        variants: vec![
            variant("InvalidCommand", vec![attr("code", "IC"), attr("app_code", "400")]),
            variant("InvalidArgument", vec![attr("code", "IA"), attr("app_code", "400")]),
            variant(
                "RespError",
                vec![attr("code", "RE"), attr("app_code", "500"), attr("client_msg", "try later")],
            ),
        ],
    }
}

fn defect_of(decl: &TaxonomyDecl) -> SchemaError {
    match Taxonomy::parse(decl) {
        Ok(_) => panic!("the declaration was taken"),
        Err(e) => e,
    }
}

#[test]
fn a_full_declaration_resolves() {
    let taxonomy = match Taxonomy::parse(&my_error()) {
        Ok(t) => t,
        Err(e) => panic!("unexpected {:?}", e),
    };
    assert_eq!(taxonomy.name, "MyError");
    assert_eq!(taxonomy.app_code_type, "http::StatusCode");
    assert_eq!(taxonomy.prefix, "01");
    assert_eq!(taxonomy.variants.len(), 3);
    let names: Vec<&str> = taxonomy.variants.iter().map(|v| v.name.as_str()).collect();
    assert_eq!(names, ["InvalidCommand", "InvalidArgument", "RespError"]);
    let codes: Vec<&str> = taxonomy.variants.iter().map(|v| v.short_code.as_str()).collect();
    assert_eq!(codes, ["IC", "IA", "RE"]);
    let app_codes: Vec<&str> = taxonomy.variants.iter().map(|v| v.app_code.as_str()).collect();
    assert_eq!(app_codes, ["400", "400", "500"]);
    let messages: Vec<&str> = taxonomy.variants.iter().map(|v| v.client_msg.as_str()).collect();
    assert_eq!(messages, ["", "", "try later"]);
}

#[test]
fn every_valid_variant_has_a_short_code() {
    let taxonomy = Taxonomy::parse(&my_error()).unwrap();
    assert!(!taxonomy.variants.is_empty());
    assert!(taxonomy.variants.iter().all(|v| !v.short_code.is_empty()));
}

#[test]
fn prefix_defaults_to_empty() {
    let mut decl = my_error();
    decl.attrs.remove(1);
    let taxonomy = Taxonomy::parse(&decl).unwrap();
    assert_eq!(taxonomy.prefix, "");
    assert_eq!(taxonomy.app_code_type, "http::StatusCode");
}

#[test]
fn entries_may_come_in_any_order() {
    let decl = TaxonomyDecl {
        name: "E".to_string(),
        attrs: vec![attr("prefix", "09"), attr("app_type", "u16")],
        variants: vec![variant(
            "Only",
            vec![attr("client_msg", "oops"), attr("app_code", "503"), attr("code", "ON")],
        )],
    };
    let taxonomy = Taxonomy::parse(&decl).unwrap();
    assert_eq!(taxonomy.prefix, "09");
    assert_eq!(taxonomy.app_code_type, "u16");
    assert_eq!(taxonomy.variants[0].short_code, "ON");
    assert_eq!(taxonomy.variants[0].app_code, "503");
    assert_eq!(taxonomy.variants[0].client_msg, "oops");
}

#[test]
fn app_code_text_is_not_looked_into() {
    let mut decl = my_error();
    decl.variants[0].attrs[1] = attr("app_code", "not a number");
    decl.variants[1].attrs[1] = attr("app_code", "");
    let taxonomy = Taxonomy::parse(&decl).unwrap();
    assert_eq!(taxonomy.variants[0].app_code, "not a number");
    assert_eq!(taxonomy.variants[1].app_code, "");
}

#[test]
fn missing_app_type_is_a_defect() {
    let mut decl = my_error();
    decl.attrs.remove(0);
    let e = defect_of(&decl);
    assert_eq!(e, SchemaError::MissingAppType);
    assert_eq!(e.variant(), None);
    assert_eq!(e.attr(), None);
    assert_eq!(e.describe(&decl), Some("MyError: missing `app_type`".to_string()));
}

#[test]
fn no_variants_is_a_defect() {
    let mut decl = my_error();
    decl.variants.clear();
    let e = defect_of(&decl);
    assert_eq!(e, SchemaError::NoVariants);
    assert_eq!(e.describe(&decl), Some("MyError: no variants".to_string()));
}

#[test]
fn missing_code_names_the_variant() {
    let mut decl = my_error();
    decl.variants[1].attrs.remove(0);
    let e = defect_of(&decl);
    assert_eq!(e, SchemaError::MissingCode { variant: 1 });
    assert_eq!(e.variant(), Some(1));
    assert_eq!(e.describe(&decl), Some("MyError::InvalidArgument: missing `code`".to_string()));
}

#[test]
fn empty_code_names_the_variant() {
    let mut decl = my_error();
    decl.variants[2].attrs[0] = attr("code", "");
    let e = defect_of(&decl);
    assert_eq!(e, SchemaError::EmptyCode { variant: 2 });
    assert_eq!(e.describe(&decl), Some("MyError::RespError: empty `code`".to_string()));
}

#[test]
fn missing_app_code_names_the_variant() {
    let mut decl = my_error();
    decl.variants[0].attrs.remove(1);
    let e = defect_of(&decl);
    assert_eq!(e, SchemaError::MissingAppCode { variant: 0 });
    assert_eq!(e.describe(&decl), Some("MyError::InvalidCommand: missing `app_code`".to_string()));
}

#[test]
fn a_bare_variant_misses_its_code_first() {
    let mut decl = my_error();
    decl.variants[0].attrs.clear();
    assert_eq!(defect_of(&decl), SchemaError::MissingCode { variant: 0 });
}

#[test]
fn unknown_key_on_the_type() {
    let mut decl = my_error();
    decl.attrs.push(attr("app_typ", "u16"));
    let e = defect_of(&decl);
    assert_eq!(e, SchemaError::UnknownTaxonomyKey { attr: 2 });
    assert_eq!(e.attr(), Some(2));
    assert_eq!(e.describe(&decl), Some("MyError: unknown key `app_typ`".to_string()));
}

#[test]
fn a_variant_key_on_the_type_is_unknown() {
    let mut decl = my_error();
    decl.attrs.insert(0, attr("code", "IC"));
    assert_eq!(defect_of(&decl), SchemaError::UnknownTaxonomyKey { attr: 0 });
}

#[test]
fn duplicate_key_on_the_type() {
    let mut decl = my_error();
    decl.attrs.push(attr("prefix", "02"));
    let e = defect_of(&decl);
    assert_eq!(e, SchemaError::DuplicateTaxonomyKey { attr: 2 });
    assert_eq!(e.describe(&decl), Some("MyError: duplicate key `prefix`".to_string()));
}

#[test]
fn unknown_key_on_a_variant() {
    let mut decl = my_error();
    decl.variants[2].attrs.insert(1, attr("client_message", "x"));
    let e = defect_of(&decl);
    assert_eq!(e, SchemaError::UnknownVariantKey { variant: 2, attr: 1 });
    assert_eq!(e.variant(), Some(2));
    assert_eq!(e.attr(), Some(1));
    assert_eq!(e.describe(&decl), Some("MyError::RespError: unknown key `client_message`".to_string()));
}

#[test]
fn a_type_key_on_a_variant_is_unknown() {
    let mut decl = my_error();
    decl.variants[0].attrs.push(attr("prefix", "01"));
    assert_eq!(defect_of(&decl), SchemaError::UnknownVariantKey { variant: 0, attr: 2 });
}

#[test]
fn duplicate_key_on_a_variant() {
    let mut decl = my_error();
    decl.variants[1].attrs.push(attr("code", "IB"));
    let e = defect_of(&decl);
    assert_eq!(e, SchemaError::DuplicateVariantKey { variant: 1, attr: 2 });
    assert_eq!(e.describe(&decl), Some("MyError::InvalidArgument: duplicate key `code`".to_string()));
}

#[test]
fn the_first_defect_is_the_one_reported() {
    let mut decl = my_error();
    decl.variants[2].attrs.remove(0);
    decl.variants[1].attrs.remove(1);
    assert_eq!(defect_of(&decl), SchemaError::MissingAppCode { variant: 1 });
    decl.attrs.remove(0);
    assert_eq!(defect_of(&decl), SchemaError::MissingAppType);
    decl.attrs.push(attr("bogus", ""));
    assert_eq!(defect_of(&decl), SchemaError::UnknownTaxonomyKey { attr: 1 });
}

#[test]
fn an_entry_at_fault_comes_before_a_missing_key() {
    let decl = TaxonomyDecl {
        name: "E".to_string(),
        attrs: vec![attr("app_type", "u16")],
        variants: vec![variant("A", vec![attr("app_code", "1"), attr("app_code", "2")])],
    };
    assert_eq!(defect_of(&decl), SchemaError::DuplicateVariantKey { variant: 0, attr: 1 });
}

#[test]
fn unknown_is_told_before_duplicate_at_the_same_entry() {
    let decl = TaxonomyDecl {
        name: "E".to_string(),
        attrs: vec![attr("app_type", "u16"), attr("x", "1"), attr("x", "2")],
        variants: vec![],
    };
    assert_eq!(defect_of(&decl), SchemaError::UnknownTaxonomyKey { attr: 1 });
}

#[test]
fn keys_are_matched_exactly() {
    let mut decl = my_error();
    decl.variants[0].attrs[0] = attr("Code", "IC");
    assert_eq!(defect_of(&decl), SchemaError::UnknownVariantKey { variant: 0, attr: 0 });
    let mut decl = my_error();
    decl.variants[0].attrs[0] = attr("code ", "IC");
    assert_eq!(defect_of(&decl), SchemaError::UnknownVariantKey { variant: 0, attr: 0 });
    let mut decl = my_error();
    decl.variants[0].attrs[0] = attr("", "IC");
    assert_eq!(defect_of(&decl), SchemaError::UnknownVariantKey { variant: 0, attr: 0 });
}

#[test]
fn a_defect_of_another_declaration_gets_no_line() {
    let decl = my_error();
    assert_eq!(SchemaError::MissingCode { variant: 3 }.describe(&decl), None);
    assert_eq!(SchemaError::UnknownTaxonomyKey { attr: 2 }.describe(&decl), None);
    assert_eq!(SchemaError::DuplicateVariantKey { variant: 0, attr: 2 }.describe(&decl), None);
    assert_eq!(SchemaError::UnknownVariantKey { variant: 3, attr: 0 }.describe(&decl), None);
    assert_eq!(
        SchemaError::MissingCode { variant: 2 }.describe(&decl),
        Some("MyError::RespError: missing `code`".to_string())
    );
    assert_eq!(
        SchemaError::DuplicateVariantKey { variant: 0, attr: 1 }.describe(&decl),
        Some("MyError::InvalidCommand: duplicate key `app_code`".to_string())
    );
}

#[test]
fn equal_short_codes_are_taken() {
    let mut decl = my_error();
    decl.variants[1].attrs[0] = attr("code", "IC");
    let taxonomy = Taxonomy::parse(&decl).unwrap();
    assert_eq!(taxonomy.variants[0].short_code, "IC");
    assert_eq!(taxonomy.variants[1].short_code, "IC");
}

#[test]
fn a_single_variant_is_enough() {
    let decl = TaxonomyDecl {
        name: "E".to_string(),
        attrs: vec![attr("app_type", "u16")],
        variants: vec![variant("A", vec![attr("code", "A"), attr("app_code", "1")])],
    };
    let taxonomy = Taxonomy::parse(&decl).unwrap();
    assert_eq!(taxonomy.variants.len(), 1);
    assert_eq!(taxonomy.variants[0].name, "A");
    assert_eq!(taxonomy.variants[0].client_msg, "");
}
