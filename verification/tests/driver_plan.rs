use std::collections::HashSet;
use surrealdb_bench::driver::clear_statement;
use surrealdb_bench::driver::declare_schemas;
use surrealdb_bench::driver::definition_statements;
use surrealdb_bench::driver::generate_random;
use surrealdb_bench::driver::identifier_of;
use surrealdb_bench::driver::scenario_step;
use surrealdb_bench::driver::scenario_updates;
use surrealdb_bench::driver::Kind;
use surrealdb_bench::driver::Record;
use surrealdb_bench::driver::RecordError;
use surrealdb_bench::records::Large;
use surrealdb_bench::records::Medium;
use surrealdb_bench::records::Small;

#[test]
fn small_definition_statements_are_exact() {
    let statements = definition_statements(Kind::Small);
    assert_eq!(
        statements,
        vec![
            "DEFINE TABLE small SCHEMAFULL",
            "DEFINE FIELD int ON TABLE small TYPE int",
            "DEFINE FIELD string ON TABLE small TYPE string",
        ]
    );
    assert_eq!(statements, Small::define_statements());
}

#[test]
fn medium_definition_statements_are_exact() {
    let statements = definition_statements(Kind::Medium);
    assert_eq!(
        statements,
        vec![
            "DEFINE TABLE medium SCHEMAFULL",
            "DEFINE FIELD nested_smalls ON TABLE medium TYPE array",
            "DEFINE FIELD array ON TABLE medium TYPE array",
            "DEFINE FIELD opt_string ON TABLE medium TYPE string",
            "DEFINE FIELD opt_int ON TABLE medium TYPE int",
            "DEFINE FIELD opt_vec ON TABLE medium TYPE array",
            "DEFINE FIELD linked_thing ON TABLE medium TYPE record (small)",
        ]
    );
    assert_eq!(statements, Medium::define_statements());
}

#[test]
fn large_definition_statements_are_exact() {
    let statements = definition_statements(Kind::Large);
    assert_eq!(statements.len(), 32);
    assert_eq!(statements[0], "DEFINE TABLE large SCHEMAFULL");
    assert_eq!(statements[1], "DEFINE FIELD nested_mediums ON TABLE large TYPE array");
    assert_eq!(statements[2], "DEFINE FIELD opt_object ON TABLE large TYPE object");
    assert_eq!(
        statements[3],
        "DEFINE FIELD nested_array_in_object ON TABLE large TYPE object"
    );
    for field in ["int1", "int2", "int3", "int5", "int6", "int7", "opt_int"] {
        let expected = format!("DEFINE FIELD {} ON TABLE large TYPE int", field);
        assert!(statements.contains(&expected.as_str()), "missing {}", expected);
    }
    for i in 1..=20usize {
        let expected = format!("DEFINE FIELD string{} ON TABLE large TYPE string", i);
        assert!(statements.contains(&expected.as_str()), "missing {}", expected);
    }
    assert_eq!(statements[31], "DEFINE FIELD opt_string ON TABLE large TYPE string");
    assert_eq!(statements, Large::define_statements());
}

#[test]
fn definition_statements_are_idempotent() {
    for kind in [Kind::Small, Kind::Medium, Kind::Large] {
        assert_eq!(definition_statements(kind), definition_statements(kind));
    }
}

#[test]
fn declare_schemas_concatenates_in_order() {
    let statements = declare_schemas(&vec![Kind::Medium]);
    assert_eq!(statements, Medium::define_statements());

    let statements = declare_schemas(&vec![Kind::Small, Kind::Large]);
    let mut expected = Small::define_statements();
    expected.extend(Large::define_statements());
    assert_eq!(statements, expected);

    assert_eq!(declare_schemas(&vec![]), Vec::<&'static str>::new());
}

#[test]
fn clear_statement_removes_the_three_tables() {
    assert_eq!(
        clear_statement(),
        "REMOVE TABLE small; REMOVE TABLE medium; REMOVE TABLE large;"
    );
}

#[test]
fn identifier_of_returns_the_assigned_identifier() {
    let record = generate_random(Kind::Medium);
    let id = identifier_of(&record).unwrap();
    match &record {
        Record::Medium(medium) => assert_eq!(&id, medium.id.as_ref().unwrap()),
        _ => panic!("generated record has the wrong kind"),
    }
}

#[test]
fn identifier_of_fails_only_without_an_identifier() {
    let record = Record::Small(Small {
        id: None,
        int: 7,
        string: "payload".to_string(),
    });
    assert_eq!(identifier_of(&record), Err(RecordError::MissingIdentifier));
}

#[test]
fn scenario_step_addresses_the_update_by_the_record_identifier() {
    let update = scenario_step(Kind::Small);
    assert_eq!(update.table, "small");
    assert_eq!(update.key.len(), 20);
    assert!(update.key.chars().all(|c| c.is_ascii_alphanumeric()));
    let id = identifier_of(&update.record).unwrap();
    assert_eq!(format!("{}:{}", update.table, update.key), id);
    match update.record {
        Record::Small(small) => {
            let _int: u32 = small.int;
            assert!(!small.string.is_empty());
        }
        _ => panic!("scenario step generated the wrong kind"),
    }
}

#[test]
fn large_scenario_plans_distinct_fresh_records() {
    let plan = scenario_updates(Kind::Large, 100);
    assert_eq!(plan.len(), 100);
    let mut ids = HashSet::new();
    for update in &plan {
        assert_eq!(update.table, "large");
        let id = identifier_of(&update.record).unwrap();
        assert_eq!(format!("{}:{}", update.table, update.key), id);
        ids.insert(id);
        match &update.record {
            Record::Large(large) => {
                assert_eq!(large.nested_mediums.len(), 20);
                assert!(large.opt_object.as_ref().unwrap().len() <= 255);
                assert!(large.nested_array_in_object.len() <= 255);
                assert!(large.opt_int.is_some());
                assert!(large.opt_string.is_some());
            }
            _ => panic!("scenario planned the wrong kind"),
        }
    }
    assert_eq!(ids.len(), 100);
}

#[test]
fn empty_scenario_plans_nothing() {
    assert_eq!(scenario_updates(Kind::Medium, 0).len(), 0);
}
