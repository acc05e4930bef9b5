use easysales::errors::{Outcome, SchemaError};
use easysales::schema::{check_schema, has_field, is_data_type_ok, is_schema_ok, is_schema_pv_ok};
use std::time::Instant;

#[test]
fn run_schema_ok() {
    let perf = Instant::now();
    let stores = vec!["Child".to_string(), "Job".to_string()];
    let schema = r#"
            {
                "name":"Person",
                "primaryKey":"id",
                "properties":{
                    "id":"string",
                    "name":"string",
                    "age":"number",
                    "dob":"date",
                    "children":{
                        "type":"list",
                        "linkingObject":"Child"
                    },
                    "employment":{
                        "type":"object",
                        "linkingObject":"Job"
                    },
                    "profilePic":"image",
                    "bio":"blob"
                }
            }
        "#;
    assert_eq!(is_schema_ok(schema, &stores).unwrap(), ());
    assert_eq!(is_schema_ok(schema, &stores).is_err(), false);
    assert_eq!(is_schema_ok("hello", &stores).is_err(), true);
    println!("{}", format!("run_schema_ok:: {:?}", perf.elapsed()));
}

fn schema(properties: &str) -> String {
    format!(r#"{{"name":"person","primaryKey":"id","properties":{}}}"#, properties)
}

#[test]
fn schema_faults() {
    let none: Vec<String> = Vec::new();
    assert_eq!(
        is_schema_ok("hello", &none),
        Err(SchemaError::InvalidSchema("hello".to_string()))
    );
    assert_eq!(is_schema_ok("[1,2]", &none), Err(SchemaError::MalformedSchema));
    assert_eq!(
        is_schema_ok(r#"{"name":"a","primaryKey":"b"}"#, &none),
        Err(SchemaError::MalformedSchema)
    );
    assert_eq!(
        is_schema_ok(r#"{"name":"a","primaryKey":"b","properties":{},"extra":1}"#, &none),
        Ok(())
    );
    assert_eq!(
        is_schema_ok(r#"{"name":"a","name":"b","primaryKey":"id"}"#, &none),
        Err(SchemaError::MalformedSchema)
    );
    assert_eq!(
        is_schema_ok(r#"{"name":"a","primaryKey":"id","properties":{"x":"string"},"name":"9b"}"#, &none),
        Err(SchemaError::InvalidPropNaming {
            expected: "a-Z".to_string(),
            found: "cannot start with 9".to_string()
        })
    );
    assert_eq!(
        is_schema_ok(&schema("[]"), &none),
        Err(SchemaError::MalformedPropertyDeclaration)
    );
    assert_eq!(
        is_schema_ok(&schema(r#"{"age":5}"#), &none),
        Err(SchemaError::TypeDeclarationWrong("5".to_string()))
    );
    assert_eq!(
        is_schema_ok(&schema(r#"{"age":1.50}"#), &none),
        Err(SchemaError::TypeDeclarationWrong("1.5".to_string()))
    );
    assert_eq!(
        is_schema_ok(&schema(r#"{"age":[ "list" ]}"#), &none),
        Err(SchemaError::TypeDeclarationWrong(r#"["list"]"#.to_string()))
    );
    assert_eq!(
        is_schema_ok(&schema(r#"{"age":"float"}"#), &none),
        Err(SchemaError::TypeDeclarationWrong("\"float\"".to_string()))
    );
    assert_eq!(
        is_schema_ok(&schema(r#"{"kids":{"type":"set"}}"#), &none),
        Err(SchemaError::TypeDeclarationWrong("type".to_string()))
    );
    assert_eq!(
        is_schema_ok(&schema(r#"{"kids":{"type":["list"]}}"#), &none),
        Err(SchemaError::TypeDeclarationWrong("type".to_string()))
    );
    assert_eq!(
        is_schema_ok(&schema(r#"{"kids":{"linkingObject":"Kid"}}"#), &none),
        Err(SchemaError::UnknownObject("Kid".to_string()))
    );
    assert_eq!(
        is_schema_ok(&schema(r#"{"9lives":"number"}"#), &none),
        Err(SchemaError::InvalidPropNaming {
            expected: "a-Z".to_string(),
            found: "cannot start with 9".to_string()
        })
    );
    assert_eq!(
        is_schema_ok(r#"{"name":"per son","primaryKey":"id","properties":{}}"#, &none),
        Err(SchemaError::InvalidPropNaming {
            expected: "alphanumeric only".to_string(),
            found: "per son".to_string()
        })
    );
    assert_eq!(
        is_schema_ok(r#"{"name":"  ","primaryKey":"id","properties":{}}"#, &none),
        Err(SchemaError::InvalidPropNaming { expected: "a-Z".to_string(), found: "".to_string() })
    );
}

#[test]
fn non_string_names_abort() {
    let none: Vec<String> = Vec::new();
    assert!(matches!(
        check_schema(r#"{"name":null,"primaryKey":"id","properties":{}}"#, &none),
        Outcome::Aborted
    ));
    assert!(matches!(
        check_schema(r#"{"name":"a","primaryKey":7,"properties":{}}"#, &none),
        Outcome::Aborted
    ));
    assert!(matches!(
        check_schema(r#"{"name":"a b","primaryKey":7,"properties":{}}"#, &none),
        Outcome::Done(Err(SchemaError::InvalidPropNaming { .. }))
    ));
}

#[test]
fn naming_rules() {
    assert_eq!(is_schema_pv_ok("profile-pic_2"), Ok(()));
    assert_eq!(
        is_schema_pv_ok(""),
        Err(SchemaError::InvalidPropNaming { expected: "a-Z".to_string(), found: "".to_string() })
    );
    assert_eq!(
        is_schema_pv_ok("_id"),
        Err(SchemaError::InvalidPropNaming {
            expected: "a-Z".to_string(),
            found: "cannot start with _".to_string()
        })
    );
    assert_eq!(
        is_schema_pv_ok("né"),
        Err(SchemaError::InvalidPropNaming {
            expected: "alphanumeric only".to_string(),
            found: "né".to_string()
        })
    );
}

#[test]
fn data_types_and_fields() {
    for dt in ["string", "number", "date", "list", "object", "image", "blob"] {
        assert!(is_data_type_ok(dt));
    }
    assert!(!is_data_type_ok("String"));
    assert!(!is_data_type_ok(""));
    for f in ["name", "primaryKey", "properties"] {
        assert!(has_field(f));
    }
    assert!(!has_field("primarykey"));
}

#[test]
fn schema_error_messages() {
    assert_eq!(
        SchemaError::InvalidSchema("x".to_string()).message(),
        "invalid schema provided `x`"
    );
    assert_eq!(SchemaError::MalformedSchema.message(), "malformed schema");
    assert_eq!(
        SchemaError::InvalidPropNaming { expected: "a-Z".to_string(), found: "say \"hi\"".to_string() }
            .message(),
        "invalid naming (expected \"a-Z\", outcome \"say \\\"hi\\\"\")"
    );
    assert_eq!(
        SchemaError::TypeDeclarationWrong("f".to_string()).message(),
        "invalid type declaration for field `f`"
    );
    assert_eq!(
        SchemaError::MalformedPropertyDeclaration.message(),
        "invalid declaration of properties"
    );
    assert_eq!(SchemaError::UnknownObject("o".to_string()).message(), "unknown object `o`");
}

#[test]
fn missing_fields_are_malformed() {
    let none: Vec<String> = Vec::new();
    for sc in [
        r#"{"name":"a","primaryKey":"id"}"#,
        r#"{"name":"a","properties":{}}"#,
        r#"{"primaryKey":"id","properties":{},"other":3}"#,
        r#"{}"#,
        r#""text""#,
    ] {
        assert_eq!(is_schema_ok(sc, &none), Err(SchemaError::MalformedSchema));
    }
    assert_eq!(
        is_schema_ok(r#"{"name":"a","name":"b","primaryKey":"id"}"#, &none),
        Err(SchemaError::MalformedSchema)
    );
}

#[test]
fn sound_schemas_pass() {
    let stores = vec!["Job".to_string()];
    assert_eq!(
        is_schema_ok(
            r#"{"properties":{"a":"date","b":{"type":"object","linkingObject":"Job","x":"y"}},"primaryKey":"k-1","name":"N_2"}"#,
            &stores
        ),
        Ok(())
    );
    assert!(is_schema_ok(r#"{"name":"a","primaryKey":"id","properties":{"b":{"type":1}}}"#, &stores).is_err());
}
