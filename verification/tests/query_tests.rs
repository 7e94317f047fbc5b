use goobie_mysql::query::{parse_params, HostValue, Param, Query, QueryOpts, QueryType};
use goobie_mysql::result::QueryResult;

#[test]
fn bindable_scalars_become_params_in_order() {
    let values = vec![
        HostValue::Bool(true),
        HostValue::Number(2.5f64.to_bits()),
        HostValue::String(b"name".to_vec()),
    ];
    let params = parse_params(&values).unwrap();
    assert_eq!(
        params,
        vec![
            Param::Bool(true),
            Param::Number(2.5f64.to_bits()),
            Param::String(b"name".to_vec()),
        ]
    );
}

#[test]
fn empty_param_list_is_fine() {
    assert_eq!(parse_params(&Vec::new()).unwrap(), Vec::new());
}

#[test]
fn the_first_unbindable_scalar_fails_with_its_position() {
    let values = vec![
        HostValue::Bool(false),
        HostValue::Other { kind_name: String::from("function") },
        HostValue::Other { kind_name: String::from("table") },
    ];
    let err = parse_params(&values).unwrap_err();
    assert_eq!(err, "unsupported parameter type 2: function");
}

#[test]
fn query_defaults_without_options() {
    let q = Query::new(String::from("SELECT 1"), QueryType::Run, false, None).unwrap();
    assert_eq!(q.query, "SELECT 1");
    assert!(matches!(q.qtype, QueryType::Run));
    assert!(!q.raw);
    assert!(!q.has_callback);
    assert!(!q.has_on_error);
    assert!(q.params.is_empty());
    assert_eq!(q.trace, None);
    assert!(matches!(q.result, Ok(QueryResult::Run)));
}

#[test]
fn query_takes_its_options() {
    let opts = QueryOpts {
        raw: Some(true),
        has_callback: true,
        trace: Some(String::from("stack here")),
        params: Some(vec![HostValue::Number(1.0f64.to_bits())]),
    };
    let q = Query::new(String::from("SELECT ?"), QueryType::FetchAll, true, Some(opts)).unwrap();
    assert!(q.raw);
    assert!(q.has_callback);
    assert!(q.has_on_error);
    assert_eq!(q.trace, Some(String::from("stack here")));
    assert_eq!(q.params, vec![Param::Number(1.0f64.to_bits())]);
}

#[test]
fn query_construction_fails_on_unbindable_params() {
    let opts = QueryOpts {
        raw: None,
        has_callback: false,
        trace: None,
        params: Some(vec![HostValue::Other { kind_name: String::from("userdata") }]),
    };
    let err = Query::new(String::from("SELECT ?"), QueryType::Execute, false, Some(opts))
        .unwrap_err();
    assert_eq!(err, "unsupported parameter type 1: userdata");
}
