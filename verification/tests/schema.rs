use stempelkarten::schema::{
    read_flag, read_optional_flag, read_text, read_texts, Field, SchemaFault,
};
use stempelkarten::volunteers::Volunteer;
use toml::{Table, Value};

fn texts(labels: &[&str]) -> Value {
    Value::Array(labels.iter().map(|label| Value::String(label.to_string())).collect())
}

fn complete() -> Table {
    let mut table = Table::new();
    table.insert(String::from("first_name"), Value::String(String::from("Ada")));
    table.insert(String::from("last_name"), Value::String(String::from("Lovelace")));
    table.insert(String::from("barcode"), Value::String(String::from("V-0001")));
    table.insert(String::from("qualified"), Value::Boolean(true));
    table.insert(String::from("picture"), Value::String(String::from("ada.png")));
    table.insert(String::from("deployment"), texts(&["A", "B", "C"]));
    table.insert(String::from("licenses"), texts(&["B", "C1"]));
    table.insert(String::from("qualifications"), texts(&[]));
    table
}

#[test]
fn complete_table_is_read() {
    let volunteer = Volunteer::from_table(&complete()).unwrap();
    assert_eq!(volunteer.first_name, "Ada");
    assert_eq!(volunteer.last_name, "Lovelace");
    assert_eq!(volunteer.barcode, "V-0001");
    assert!(volunteer.qualified);
    assert_eq!(volunteer.picture, "ada.png");
    assert_eq!(volunteer.deployment, vec!["A", "B", "C"]);
    assert_eq!(volunteer.licenses, vec!["B", "C1"]);
    assert!(volunteer.qualifications.is_empty());
    assert_eq!(volunteer.hide_indicator, None);
}

#[test]
fn hide_indicator_is_kept_when_present() {
    let mut table = complete();
    table.insert(String::from("hide_indicator"), Value::Boolean(true));
    assert_eq!(Volunteer::from_table(&table).unwrap().hide_indicator, Some(true));
    table.insert(String::from("hide_indicator"), Value::Boolean(false));
    assert_eq!(Volunteer::from_table(&table).unwrap().hide_indicator, Some(false));
}

#[test]
fn unknown_keys_are_passed_over() {
    let mut table = complete();
    table.insert(String::from("shoe_size"), Value::Integer(43));
    assert_eq!(Volunteer::from_table(&table).unwrap().first_name, "Ada");
}

#[test]
fn each_required_field_is_missed() {
    let required = [
        ("first_name", Field::FirstName),
        ("last_name", Field::LastName),
        ("barcode", Field::Barcode),
        ("qualified", Field::Qualified),
        ("picture", Field::Picture),
        ("deployment", Field::Deployment),
        ("licenses", Field::Licenses),
        ("qualifications", Field::Qualifications),
    ];
    for (key, field) in required {
        let mut table = complete();
        table.remove(key);
        assert_eq!(
            Volunteer::from_table(&table).unwrap_err(),
            SchemaFault::Missing(field)
        );
    }
}

#[test]
fn first_fault_in_record_order_is_reported() {
    let mut table = complete();
    table.remove("picture");
    table.remove("last_name");
    table.insert(String::from("barcode"), Value::Integer(7));
    assert_eq!(
        Volunteer::from_table(&table).unwrap_err(),
        SchemaFault::Missing(Field::LastName)
    );
}

#[test]
fn wrong_types_are_refused() {
    let mut table = complete();
    table.insert(String::from("first_name"), Value::Integer(1));
    assert_eq!(
        Volunteer::from_table(&table).unwrap_err(),
        SchemaFault::Mistyped(Field::FirstName)
    );

    let mut table = complete();
    table.insert(String::from("qualified"), Value::String(String::from("yes")));
    assert_eq!(
        Volunteer::from_table(&table).unwrap_err(),
        SchemaFault::Mistyped(Field::Qualified)
    );

    let mut table = complete();
    table.insert(String::from("deployment"), Value::String(String::from("A")));
    assert_eq!(
        Volunteer::from_table(&table).unwrap_err(),
        SchemaFault::Mistyped(Field::Deployment)
    );

    let mut table = complete();
    table.insert(String::from("hide_indicator"), Value::Integer(0));
    assert_eq!(
        Volunteer::from_table(&table).unwrap_err(),
        SchemaFault::Mistyped(Field::HideIndicator)
    );
}

#[test]
fn list_with_a_foreign_element_is_refused() {
    let mut table = complete();
    table.insert(
        String::from("licenses"),
        Value::Array(vec![
            Value::String(String::from("B")),
            Value::Integer(3),
            Value::String(String::from("C")),
        ]),
    );
    assert_eq!(
        Volunteer::from_table(&table).unwrap_err(),
        SchemaFault::Mistyped(Field::Licenses)
    );
}

#[test]
fn single_fields_are_read() {
    let table = complete();
    assert_eq!(read_text(&table, Field::Barcode).unwrap(), "V-0001");
    assert_eq!(read_flag(&table, Field::Qualified), Ok(true));
    assert_eq!(read_optional_flag(&table, Field::HideIndicator), Ok(None));
    assert_eq!(read_texts(&table, Field::Deployment).unwrap(), vec!["A", "B", "C"]);
    assert_eq!(
        read_text(&table, Field::Qualified),
        Err(SchemaFault::Mistyped(Field::Qualified))
    );
    assert_eq!(
        read_flag(&table, Field::HideIndicator),
        Err(SchemaFault::Missing(Field::HideIndicator))
    );
}

#[test]
fn faults_are_described() {
    assert_eq!(
        SchemaFault::Missing(Field::Barcode).describe(),
        "missing field `barcode`"
    );
    assert_eq!(
        SchemaFault::Mistyped(Field::Qualified).describe(),
        "invalid type for field `qualified`, expected a boolean"
    );
    assert_eq!(
        SchemaFault::Mistyped(Field::Picture).describe(),
        "invalid type for field `picture`, expected a string"
    );
    assert_eq!(
        SchemaFault::Mistyped(Field::Licenses).describe(),
        "invalid type for field `licenses`, expected an array of strings"
    );
}

#[test]
fn fields_have_their_keys() {
    assert_eq!(Field::FirstName.key(), "first_name");
    assert_eq!(Field::LastName.key(), "last_name");
    assert_eq!(Field::Barcode.key(), "barcode");
    assert_eq!(Field::Qualified.key(), "qualified");
    assert_eq!(Field::Picture.key(), "picture");
    assert_eq!(Field::Deployment.key(), "deployment");
    assert_eq!(Field::Licenses.key(), "licenses");
    assert_eq!(Field::Qualifications.key(), "qualifications");
    assert_eq!(Field::HideIndicator.key(), "hide_indicator");
}
