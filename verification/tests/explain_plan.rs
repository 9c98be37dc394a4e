use trino_codegen::explain::{
    nan_as_none, nan_text, parse, read_outputs, Child, ChildDescriptor, Descriptor, Detail,
    Estimate, ExplainRoot, Output, SchemaParseError,
};
use trino_codegen::json::{parse_json, Json};
use trino_codegen::utils::generate_struct;

const EXPLAIN: &str = r#"
{
  "id": "6",
  "name": "Output",
  "descriptor": { "columnNames": "[nationkey, name, regionkey, comment]" },
  "outputs": [
    { "symbol": "nationkey", "type": "bigint" },
    { "symbol": "name", "type": "varchar(25)" },
    { "symbol": "regionkey", "type": "bigint" },
    { "symbol": "comment", "type": "varchar(152)" }
  ],
  "details": [],
  "estimates": [
    {
      "outputRowCount": 25.0,
      "outputSizeInBytes": 2734.0,
      "cpuCost": 2734.0,
      "memoryCost": 0.0,
      "networkCost": "NaN"
    }
  ],
  "children": [
    {
      "id": "0",
      "name": "TableScan",
      "descriptor": { "table": "tpch:tiny:nation" },
      "outputs": [
        { "symbol": "nationkey", "type": "bigint" },
        { "symbol": "name", "type": "varchar(25)" }
      ],
      "details": [ "nationkey := tpch:nationkey", "name := tpch:name" ],
      "estimates": [],
      "children": []
    }
  ]
}
"#;

const EXPLAIN2: &str = r#"
{
  "id": "0",
  "name": "Output",
  "descriptor": {
    "columnNames": "[_col0, _col1, _col2, _col3, _col4, _col5, _col6, _col7, _col8, _col9, _col10, _col11, _col12, _col13, _col14, _col15, map, _col17]"
  },
  "outputs": [
    { "symbol": "expr", "type": "integer" },
    { "symbol": "expr_0", "type": "smallint" },
    { "symbol": "expr_1", "type": "tinyint" },
    { "symbol": "expr_2", "type": "decimal(11,0)" },
    { "symbol": "expr_3", "type": "real" },
    { "symbol": "expr_4", "type": "double" },
    { "symbol": "expr_5", "type": "boolean" },
    { "symbol": "expr_6", "type": "date" },
    { "symbol": "expr_7", "type": "timestamp(3)" },
    { "symbol": "expr_8", "type": "timestamp(3) with time zone" },
    { "symbol": "expr_9", "type": "time(3)" },
    { "symbol": "expr_10", "type": "char(1)" },
    { "symbol": "expr_11", "type": "varchar(24)" },
    { "symbol": "expr_12", "type": "varbinary" },
    { "symbol": "expr_13", "type": "json" },
    { "symbol": "expr_14", "type": "array(integer)" },
    { "symbol": "map", "type": "map(varchar(4), integer)" },
    { "symbol": "expr_15", "type": "uuid" }
  ],
  "details": [ "_col0 := expr" ],
  "estimates": [
    {
      "outputRowCount": 1.0,
      "outputSizeInBytes": "NaN",
      "cpuCost": 0.0,
      "memoryCost": 0.0,
      "networkCost": 0.0
    }
  ],
  "children": [
    {
      "id": "1",
      "name": "Values",
      "descriptor": {},
      "outputs": [ { "symbol": "expr", "type": "integer" } ],
      "details": [ "(1)" ]
    }
  ]
}
"#;

fn column(symbol: &str, raw_type: &str) -> Output {
    Output { symbol: symbol.to_string(), raw_type: raw_type.to_string() }
}

#[test]
fn test_deserialize() {
    let data: String = EXPLAIN.to_string();
    let _root: ExplainRoot = ExplainRoot::from_text(&data).expect("Fail to deserialize");
}

#[test]
fn test_deserialize2() {
    let data: String = EXPLAIN2.to_string();
    let _root: ExplainRoot = ExplainRoot::from_text(&data).expect("Fail to deserialize");
}

#[test]
fn the_whole_root_is_read() {
    let root = ExplainRoot::from_text(EXPLAIN).unwrap();
    let expected = ExplainRoot {
        id: "6".to_string(),
        name: "Output".to_string(),
        descriptor: Descriptor {
            column_names: "[nationkey, name, regionkey, comment]".to_string(),
        },
        outputs: vec![
            column("nationkey", "bigint"),
            column("name", "varchar(25)"),
            column("regionkey", "bigint"),
            column("comment", "varchar(152)"),
        ],
        details: vec![],
        estimates: vec![Estimate {
            output_row_count: Some("25.0".to_string()),
            output_size_in_bytes: Some("2734.0".to_string()),
            cpu_cost: Some("2734.0".to_string()),
            memory_cost: Some("0.0".to_string()),
            network_cost: None,
        }],
        children: vec![Child {
            id: "0".to_string(),
            name: "TableScan".to_string(),
            descriptor: ChildDescriptor { table: Some("tpch:tiny:nation".to_string()) },
            outputs: vec![column("nationkey", "bigint"), column("name", "varchar(25)")],
            details: vec![
                "nationkey := tpch:nationkey".to_string(),
                "name := tpch:name".to_string(),
            ],
        }],
    };
    assert_eq!(root, expected);
}

#[test]
fn details_and_missing_tables_are_read() {
    let root = ExplainRoot::from_text(EXPLAIN2).unwrap();
    assert_eq!(root.details, vec![Detail::String("_col0 := expr".to_string())]);
    assert_eq!(root.children.len(), 1);
    assert_eq!(root.children[0].descriptor, ChildDescriptor { table: None });
    assert_eq!(root.estimates[0].output_size_in_bytes, None);
    assert_eq!(root.estimates[0].output_row_count, Some("1.0".to_string()));
    assert_eq!(root.outputs.len(), 18);
}

#[test]
fn columns_come_in_declaration_order() {
    let columns = parse(EXPLAIN).unwrap();
    assert_eq!(
        columns,
        vec![
            column("nationkey", "bigint"),
            column("name", "varchar(25)"),
            column("regionkey", "bigint"),
            column("comment", "varchar(152)"),
        ]
    );
    assert_eq!(parse(EXPLAIN2).unwrap().len(), 18);
    assert_eq!(parse(EXPLAIN2).unwrap()[16], column("map", "map(varchar(4), integer)"));
}

#[test]
fn only_the_outputs_are_needed_for_the_columns() {
    let columns = parse(r#"{"outputs": [{"type": "date", "symbol": "d", "extra": 1}]}"#).unwrap();
    assert_eq!(columns, vec![column("d", "date")]);
    assert_eq!(parse(r#"{"outputs": []}"#), Ok(vec![]));
}

#[test]
fn malformed_json_is_reported() {
    assert_eq!(parse(""), Err(SchemaParseError::MalformedJson));
    assert_eq!(parse("{"), Err(SchemaParseError::MalformedJson));
    assert_eq!(parse("{\"outputs\": [}"), Err(SchemaParseError::MalformedJson));
    assert_eq!(parse("not json"), Err(SchemaParseError::MalformedJson));
    assert_eq!(ExplainRoot::from_text("[1, 2"), Err(SchemaParseError::MalformedJson));
}

#[test]
fn missing_outputs_are_reported() {
    assert_eq!(parse("{}"), Err(SchemaParseError::MissingOutputs));
    assert_eq!(parse("[]"), Err(SchemaParseError::MissingOutputs));
    assert_eq!(parse("null"), Err(SchemaParseError::MissingOutputs));
    assert_eq!(parse("3"), Err(SchemaParseError::MissingOutputs));
    assert_eq!(parse(r#"{"Outputs": []}"#), Err(SchemaParseError::MissingOutputs));
    assert_eq!(ExplainRoot::from_text("{}"), Err(SchemaParseError::MissingOutputs));
}

#[test]
fn malformed_outputs_are_reported() {
    assert_eq!(parse(r#"{"outputs": null}"#), Err(SchemaParseError::MalformedOutputs));
    assert_eq!(parse(r#"{"outputs": {}}"#), Err(SchemaParseError::MalformedOutputs));
    assert_eq!(parse(r#"{"outputs": [1]}"#), Err(SchemaParseError::MalformedOutputs));
    assert_eq!(
        parse(r#"{"outputs": [{"symbol": "a"}]}"#),
        Err(SchemaParseError::MalformedOutputs)
    );
    assert_eq!(
        parse(r#"{"outputs": [{"symbol": "a", "type": 1}]}"#),
        Err(SchemaParseError::MalformedOutputs)
    );
    assert_eq!(
        parse(r#"{"outputs": [{"symbol": "a", "type": "date"}, {"type": "date"}]}"#),
        Err(SchemaParseError::MalformedOutputs)
    );
    assert_eq!(
        ExplainRoot::from_text(r#"{"outputs": 1, "id": "x"}"#),
        Err(SchemaParseError::MalformedOutputs)
    );
}

#[test]
fn a_malformed_plan_is_reported() {
    assert_eq!(ExplainRoot::from_text(r#"{"outputs": []}"#), Err(SchemaParseError::MalformedPlan));
    let without_estimate_member = r#"
        {"id": "1", "name": "n", "descriptor": {"columnNames": "[]"}, "outputs": [],
         "details": [], "estimates": [{"outputRowCount": 1}], "children": []}"#;
    assert_eq!(
        ExplainRoot::from_text(without_estimate_member),
        Err(SchemaParseError::MalformedPlan)
    );
    let with_numeric_id = r#"
        {"id": 1, "name": "n", "descriptor": {"columnNames": "[]"}, "outputs": [],
         "details": [], "estimates": [], "children": []}"#;
    assert_eq!(ExplainRoot::from_text(with_numeric_id), Err(SchemaParseError::MalformedPlan));
    let with_bad_child = r#"
        {"id": "1", "name": "n", "descriptor": {"columnNames": "[]"}, "outputs": [],
         "details": [], "estimates": [], "children": [{"id": "2"}]}"#;
    assert_eq!(ExplainRoot::from_text(with_bad_child), Err(SchemaParseError::MalformedPlan));
    let with_bad_table = r#"
        {"id": "1", "name": "n", "descriptor": {"columnNames": "[]"}, "outputs": [],
         "details": [], "estimates": [], "children": [
           {"id": "2", "name": "c", "descriptor": {"table": 5}, "outputs": [], "details": []}]}"#;
    assert_eq!(ExplainRoot::from_text(with_bad_table), Err(SchemaParseError::MalformedPlan));
    let minimal = r#"
        {"id": "1", "name": "n", "descriptor": {"columnNames": "[]"}, "outputs": [],
         "details": [], "estimates": [], "children": []}"#;
    assert!(ExplainRoot::from_text(minimal).is_ok());
}

#[test]
fn outputs_of_a_document() {
    let doc = parse_json(r#"{"outputs": [{"symbol": "a", "type": "integer"}]}"#).unwrap();
    assert_eq!(read_outputs(&doc), Ok(vec![column("a", "integer")]));
    assert_eq!(read_outputs(&Json::Null), Err(SchemaParseError::MissingOutputs));
    assert_eq!(ExplainRoot::from_json(&Json::Null), Err(SchemaParseError::MissingOutputs));
}

#[test]
fn nan_means_not_computed() {
    assert_eq!(nan_as_none(&Json::String("NaN".to_string())), None);
    assert_eq!(nan_as_none(&Json::String("nan".to_string())), None);
    assert_eq!(nan_as_none(&Json::String("NAN".to_string())), None);
    assert_eq!(nan_as_none(&Json::Number("NaN".to_string())), None);
    assert_eq!(nan_as_none(&Json::Null), None);
    assert_eq!(nan_as_none(&Json::String("abc".to_string())), None);
    assert_eq!(nan_as_none(&Json::Bool(true)), None);
    let present = nan_as_none(&parse_json("3.14").unwrap());
    assert_eq!(present, Some("3.14".to_string()));
    assert_eq!(present.unwrap().parse::<f64>().unwrap(), 3.14);
    assert_eq!(nan_as_none(&parse_json("25").unwrap()), Some("25".to_string()));
    assert_eq!(nan_as_none(&parse_json("-1e3").unwrap()).unwrap().parse::<f64>().unwrap(), -1000.0);
}

#[test]
fn nan_texts() {
    assert!(nan_text("nan"));
    assert!(nan_text("NaN"));
    assert!(nan_text("nAN"));
    assert!(!nan_text("na"));
    assert!(!nan_text("nans"));
    assert!(!nan_text(" nan"));
    assert!(!nan_text("non"));
    assert!(!nan_text(""));
}

#[test]
fn test_generate_struct() {
    let file = "file";

    let root: ExplainRoot = ExplainRoot::from_text(EXPLAIN2).unwrap();

    let root_columns = &root.outputs;

    let generated_struct = generate_struct(root_columns, file).unwrap();

    println!("{generated_struct:#?}");
    assert!(generated_struct
        .starts_with("#[derive(Debug, Deserialize)]\npub struct FileQueryResult {\n"));
    assert_eq!(generated_struct.lines().count(), 26);
}
