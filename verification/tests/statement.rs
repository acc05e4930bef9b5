use easysales::errors::{Outcome, StatementError};
use easysales::statement::{check_stmt, parse_stmt, parse_tokens, StatementType};
use std::time::Instant;

fn no_stores() -> Vec<String> {
    Vec::new()
}

#[test]
fn run_statement_ok() {
    let perf = Instant::now();
    let stores = no_stores();
    // Test-1
    let t1 = parse_stmt("DROP :moss", &stores).unwrap();
    assert_eq!(t1.cmd.unwrap(), StatementType::DropDb);
    // Test-2
    let t2 = parse_stmt("DROP :moss {}", &stores);
    assert_eq!(t2.is_err(), true);
    println!("Test-2 :: {}", t2.err().unwrap().message());
    // Test-3
    let schema = r#"{
                "name":"Person",
                "primaryKey":"id",
                "properties":{
                    "id":"string",
                    "name":"string",
                    "age":"number",
                    "dob":"date",
                    "children":{
                        "type":"list",
                        "linkingObject":"Child"
                    },
                    "employment":{
                        "type":"object",
                        "linkingObject":"Job"
                    },
                    "profilePic":"image",
                    "bio":"blob"
                }
            }"#;
    let create_store = format!("CREATE :moss {}", schema);
    let t3 = parse_stmt(create_store.as_str(), &stores);
    assert_eq!(t3.is_err(), true);
    println!("Test-3 :: {}", t3.err().unwrap().message());

    println!("{}", format!("run_statement_ok:: {:?}", perf.elapsed()));
}

#[test]
fn readme_show_databases() {
    let p = parse_stmt("SHOW :*", &no_stores()).unwrap();
    assert_eq!(p.cmd, Some(StatementType::DbList));
    assert_eq!(p.db, "*");
    assert_eq!(p.store, "");
    assert_eq!(p.pbs_data, "");
}

#[test]
fn readme_get_forms() {
    let p = parse_stmt("GET :moss:product {}", &no_stores()).unwrap();
    assert_eq!(p.cmd, Some(StatementType::Get));
    assert_eq!(p.db, "moss");
    assert_eq!(p.store, "product");
    assert_eq!(p.pbs_data, "{}");

    let p = parse_stmt(r#"GET :moss:product {"$limit":100,"$offset":0}"#, &no_stores()).unwrap();
    assert_eq!(p.pbs_data, r#"{"$limit":100,"$offset":0}"#);

    let p = parse_stmt(r#"GET :moss:product {"product_code":"A001"}"#, &no_stores()).unwrap();
    assert_eq!(p.pbs_data, r#"{"product_code":"A001"}"#);

    let p = parse_stmt(
        r#"GET :moss:product {"product_available_qty":{"$bt":[10,100]}}"#,
        &no_stores(),
    )
    .unwrap();
    assert_eq!(p.cmd, Some(StatementType::Get));
    assert_eq!(p.pbs_data, r#"{"product_available_qty":{"$bt":[10,100]}}"#);
}

#[test]
fn readme_upsert_into_database() {
    let p = parse_stmt(r#"UPSERT :moss {"cf":"product"}"#, &no_stores()).unwrap();
    assert_eq!(p.cmd, Some(StatementType::Upsert));
    assert_eq!(p.db, "moss");
    assert_eq!(p.store, "");
    assert_eq!(p.pbs_data, r#"{"cf":"product"}"#);
}

#[test]
fn readme_delete_records() {
    let p = parse_stmt(r#"DELETE :moss:product {"product_code":"A001"}"#, &no_stores()).unwrap();
    assert_eq!(p.cmd, Some(StatementType::Delete));
    assert_eq!(p.store, "product");
}

#[test]
fn readme_create_database() {
    let p = parse_stmt("CREATE :moss", &no_stores()).unwrap();
    assert_eq!(p.cmd, Some(StatementType::CreateDb));
    assert_eq!(p.db, "moss");
}

#[test]
fn readme_create_store() {
    let st = r#"CREATE :moss {
                 "name":"person",
                 "primaryKey":"id",
                 "properties":{
                     "id":"string",
                     "name":"string",
                     "age":"number",
                     "dob":"date",
                     "profile-pic":"image",
                     "bio":"blob"
                 }
             }"#;
    let p = parse_stmt(st, &no_stores()).unwrap();
    assert_eq!(p.cmd, Some(StatementType::Create));
    assert_eq!(p.db, "moss");
    assert!(p.pbs_data.starts_with("{ "));
    assert!(p.pbs_data.ends_with(" }"));
    assert!(!p.pbs_data.contains('\n'));
}

#[test]
fn readme_drop_and_truncate() {
    let p = parse_stmt("DROP :moss:product", &no_stores()).unwrap();
    assert_eq!(p.cmd, Some(StatementType::Drop));
    assert_eq!(p.store, "product");
    let p = parse_stmt("TRUNCATE :moss:product", &no_stores()).unwrap();
    assert_eq!(p.cmd, Some(StatementType::Truncate));
}

#[test]
fn refused_statements() {
    let s = no_stores();
    assert_eq!(parse_stmt("", &s).err(), Some(StatementError::InvalidStatement("".to_string())));
    assert_eq!(
        parse_stmt("FETCH :moss:product {}", &s).err(),
        Some(StatementError::UnknownCommand("FETCH".to_string()))
    );
    assert_eq!(
        parse_stmt("get\n :moss", &s).err(),
        Some(StatementError::UnknownCommand("get\n".to_string()))
    );
    assert_eq!(parse_stmt("GET", &s).err(), Some(StatementError::NoDatabaseSelected));
    assert_eq!(parse_stmt("GET :", &s).err(), Some(StatementError::NoDatabaseSelected));
    assert_eq!(parse_stmt("GET :moss {}", &s).err(), Some(StatementError::NoStoreSelected));
    assert_eq!(parse_stmt("GET :moss:product", &s).err(), Some(StatementError::NoArgumentWhileGet));
    assert_eq!(parse_stmt("DELETE :moss:product", &s).err(), Some(StatementError::NoArgumentWhileGet));
    assert_eq!(
        parse_stmt("CREATE :moss:product", &s).err(),
        Some(StatementError::NoStoreSchemaProvided("product".to_string()))
    );
    assert_eq!(parse_stmt("UPSERT :moss", &s).err(), Some(StatementError::NoStoreSelected));
    assert_eq!(parse_stmt("TRUNCATE :moss", &s).err(), Some(StatementError::NoStoreSelected));
    assert_eq!(
        parse_stmt("TRUNCATE :moss:product now", &s).err(),
        Some(StatementError::UnknownCommand("now".to_string()))
    );
    assert_eq!(
        parse_stmt("SHOW :moss:product", &s).err(),
        Some(StatementError::UnknownCommand("product".to_string()))
    );
    assert_eq!(
        parse_stmt("SHOW :* all", &s).err(),
        Some(StatementError::UnknownCommand("all".to_string()))
    );
    assert_eq!(
        parse_stmt("CREATE-DB :moss:product", &s).err(),
        Some(StatementError::UnknownCommand("".to_string()))
    );
    assert_eq!(
        parse_stmt("CREATE-DB :moss {\"a\":1}", &s).err(),
        Some(StatementError::UnknownCommand("".to_string()))
    );
}

#[test]
fn schema_errors_reach_statements() {
    let p = parse_stmt("CREATE :moss {\"name\":\"x\"}", &no_stores());
    assert_eq!(
        p.err(),
        Some(StatementError::SchemaError("malformed schema".to_string()))
    );
    let p = parse_stmt("CREATE :moss nope", &no_stores());
    assert_eq!(
        p.err(),
        Some(StatementError::SchemaError("invalid schema provided `nope`".to_string()))
    );
}

#[test]
fn unhandled_statements_abort() {
    assert!(matches!(check_stmt("UPSERT :moss:product", &no_stores()), Outcome::Aborted));
    assert!(matches!(
        check_stmt(
            r#"CREATE :moss {"name":5,"primaryKey":"id","properties":{}}"#,
            &no_stores()
        ),
        Outcome::Aborted
    ));
    assert!(matches!(
        check_stmt("UPSERT :moss:product {}", &no_stores()),
        Outcome::Done(Ok(_))
    ));
}

#[test]
fn tokens_are_trimmed_and_joined() {
    let p = parse_tokens(vec![" GET ", " :moss : product ", "{\"a\":", "", " 1}"]);
    assert_eq!(p.cmd, Some(StatementType::Get));
    assert_eq!(p.db, "moss");
    assert_eq!(p.store, "product");
    assert_eq!(p.pbs_data, "{\"a\":  1}");

    let p = parse_tokens(vec!["\u{3000}DROP\t", ":moss"]);
    assert_eq!(p.cmd, Some(StatementType::DropDb));

    let p = parse_tokens(vec!["CREATE-DB", ":a:b:c"]);
    assert_eq!(p.cmd, Some(StatementType::CreateDb));
    assert_eq!(p.store, "b");

    let p = parse_tokens(vec![]);
    assert_eq!(p.cmd, None);
    assert_eq!(p.db, "");
}

#[test]
fn stores_matter_only_to_create() {
    let none = no_stores();
    let some = vec!["product".to_string()];
    for st in ["GET :moss:product {}", "DROP :moss", "UPSERT :moss", "SHOW :*"] {
        assert_eq!(
            parse_stmt(st, &none).map(|p| p.cmd),
            parse_stmt(st, &some).map(|p| p.cmd)
        );
    }
    let st = r#"CREATE :moss {"name":"a","primaryKey":"id","properties":{"p":{"linkingObject":"product"}}}"#;
    assert!(parse_stmt(st, &none).is_err());
    assert!(parse_stmt(st, &some).is_ok());
}

#[test]
fn statement_error_messages() {
    assert_eq!(
        StatementError::InvalidStatement("x".to_string()).message(),
        "invalid statement provided `x`"
    );
    assert_eq!(StatementError::UnknownCommand("X".to_string()).message(), "unknown command `X`");
    assert_eq!(StatementError::NoDatabaseSelected.message(), "no database selected");
    assert_eq!(StatementError::NoStoreSelected.message(), "no store selected");
    assert_eq!(
        StatementError::NoStoreSchemaProvided("s".to_string()).message(),
        "no store schema provided for `s`"
    );
    assert_eq!(
        StatementError::DatabaseExists("d".to_string()).message(),
        "database already exists `d`"
    );
    assert_eq!(
        StatementError::StoreExists("s".to_string()).message(),
        "store already exists `s`"
    );
    assert_eq!(StatementError::SchemaError("e".to_string()).message(), "schema error e");
    assert_eq!(
        StatementError::NoArgumentWhileGet.message(),
        "no argument is provided. must be a type of keyValue pair where key is either command or store prop"
    );
}

#[test]
fn accepted_statements_have_their_parts() {
    let s = no_stores();
    for st in [
        "SHOW :*",
        "GET :moss:product {}",
        "UPSERT :moss {}",
        "DELETE :moss:product {\"a\":1}",
        "CREATE :moss",
        "CREATE-DB :moss:product {\"a\":1}",
        "CREATE :moss {\"name\":\"a\",\"primaryKey\":\"id\",\"properties\":{}}",
        "DROP :moss",
        "DROP :moss:product",
        "TRUNCATE :moss:product",
    ] {
        let p = parse_stmt(st, &s).unwrap();
        assert!(!p.db.is_empty());
        assert_eq!(p.db.trim(), p.db);
        assert_eq!(p.store.trim(), p.store);
        match p.cmd.unwrap() {
            StatementType::Create => assert!(!p.pbs_data.is_empty()),
            StatementType::Get | StatementType::Delete => {
                assert!(!p.store.is_empty() && !p.pbs_data.is_empty())
            }
            StatementType::Upsert => assert!(!p.pbs_data.is_empty()),
            StatementType::Drop | StatementType::Truncate => {
                assert!(!p.store.is_empty() && p.pbs_data.is_empty())
            }
            StatementType::CreateDb => assert_eq!(p.store.is_empty(), p.pbs_data.is_empty()),
            StatementType::DropDb | StatementType::DbList => {
                assert!(p.store.is_empty() && p.pbs_data.is_empty())
            }
        }
    }
}

#[test]
fn explicit_create_db_with_store_and_data() {
    let p = parse_stmt("CREATE-DB :moss:product {\"a\":1}", &no_stores()).unwrap();
    assert_eq!(p.cmd, Some(StatementType::CreateDb));
    assert_eq!(p.store, "product");
    assert_eq!(p.pbs_data, "{\"a\":1}");
}

#[test]
fn trailing_newline_changes_nothing() {
    let s = no_stores();
    for st in ["DROP :moss", "GET :moss:product {}", "SHOW :*", "TRUNCATE :moss:product", "CREATE :moss"] {
        let p = parse_stmt(st, &s).unwrap();
        let q = parse_stmt(&format!("{}\n", st), &s).unwrap();
        assert_eq!((p.cmd, p.db, p.store, p.pbs_data), (q.cmd, q.db, q.store, q.pbs_data));
    }
    assert_eq!(
        parse_stmt("GET :moss:product\n", &s).err(),
        Some(StatementError::NoArgumentWhileGet)
    );
}
