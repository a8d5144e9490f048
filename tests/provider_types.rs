use wasm_watchdog::{
    decimal_string, parse_command, CommandError, ReplicaFuncStatus, ScaleParseError,
    ScaleServiceRequest, AVAILABLE_REPLICAS_KEY, ENV_VARS_KEY, INVOCATION_COUNT_KEY,
    NAMESPACE_KEY, NAME_KEY, REPLICAS_COUNT_KEY,
};

#[test]
fn test_to_json() {
    let replicas = 0123;
    let available_replicas = 456;
    let invoke_count = 789;
    let mut p = ReplicaFuncStatus::new(replicas, available_replicas, invoke_count);

    assert_eq!(
        p.clone().into_json(),
        format!(
            "{{{}:{},{}:{},{}:{}}}",
            REPLICAS_COUNT_KEY,
            p._replicas,
            AVAILABLE_REPLICAS_KEY,
            p._available_replicas,
            INVOCATION_COUNT_KEY,
            p._invocation_count
        )
    );

    p._name = Some("name".to_string());
    p._namespace = Some("namespace".to_string());
    p._env_vars = Some(vec![(String::from("k1"), String::from("v1"))]);

    assert_eq!(
        p.clone().into_json(),
        format!(
            "{{{}:\"{}\",{}:\"{}\",{}:[k1:\"v1\"],{}:{},{}:{},{}:{}}}",
            NAME_KEY,
            p._name.as_ref().unwrap(),
            NAMESPACE_KEY,
            p._namespace.as_ref().unwrap(),
            ENV_VARS_KEY,
            REPLICAS_COUNT_KEY,
            p._replicas,
            AVAILABLE_REPLICAS_KEY,
            p._available_replicas,
            INVOCATION_COUNT_KEY,
            p._invocation_count
        )
    );
}

#[test]
fn json_escapes_and_orders_fields() {
    let mut p = ReplicaFuncStatus::new(1, 4095, 7);
    assert_eq!(p.clone().into_json(), "{\"replicas\":1,\"availableReplicas\":4095,\"invocationCount\":7}");
    p._image = Some("img\"x\ny".to_string());
    p._env_process = Some("run".to_string());
    p._env_vars = Some(vec![
        ("a".to_string(), "1".to_string()),
        ("b".to_string(), "2".to_string()),
    ]);
    assert_eq!(
        p.into_json(),
        "{\"image\":\"img\\\"x\\\ny\",\"envProcess\":\"run\",\"envVars\":[a:\"1\",b:\"2\"],\"replicas\":1,\"availableReplicas\":4095,\"invocationCount\":7}"
    );
    let mut s = String::from("<");
    ReplicaFuncStatus::push_escape_str(&mut s, "q\"\n");
    assert_eq!(s, "<q\\\"\\\n");
}

#[test]
fn test_scale_service_request() {
    assert!(ScaleServiceRequest::from_json(Err(String::new())).is_err());
    assert!(ScaleServiceRequest::from_json(Ok("{{}}".to_string())).is_err());

    let str1 = format!("{{{}:123}}", REPLICAS_COUNT_KEY);
    assert_eq!(ScaleServiceRequest::from_json(Ok(str1)).unwrap()._replicas, 123);

    let str2 = format!("{{{} \n\t  :  \t 12366666}}", REPLICAS_COUNT_KEY);
    assert_eq!(ScaleServiceRequest::from_json(Ok(str2)).unwrap()._replicas, 12366666);
}

#[test]
fn scale_request_errors() {
    let e = ScaleServiceRequest::from_json(Ok("{}".to_string())).err().unwrap();
    assert!(matches!(e, ScaleParseError::MissingKey));
    let e = ScaleServiceRequest::from_json(Ok("{\"replicas\" 5}".to_string())).err().unwrap();
    assert!(matches!(e, ScaleParseError::MissingColon));
    let e = ScaleServiceRequest::from_json(Ok("{\"replicas\": x5}".to_string())).err().unwrap();
    assert!(matches!(e, ScaleParseError::UnexpectedChar(b'x')));
    assert_eq!(e.message(), "Unexpected character ascii=`120`");
    let e = ScaleServiceRequest::from_json(Ok("{\"replicas\":  ".to_string())).err().unwrap();
    assert!(matches!(e, ScaleParseError::UnexpectedEof));
    let e = ScaleServiceRequest::from_json(Err("bad body".to_string())).err().unwrap();
    assert_eq!(e.message(), "bad body");
    let q = ScaleServiceRequest::from_json(Ok("{\"serviceName\":\"f\",\"replicas\":42,\"replicas\":7}".to_string()))
        .ok()
        .unwrap();
    assert_eq!(q._replicas, 42);
    assert!(q._service_name.is_none());
    let q = ScaleServiceRequest::from_json(Ok("{\"replicas\":18446744073709551615}".to_string())).ok().unwrap();
    assert_eq!(q._replicas, u64::MAX);
    let e = ScaleServiceRequest::from_json(Ok("{\"replicas\":18446744073709551616}".to_string())).err().unwrap();
    assert!(matches!(e, ScaleParseError::TooLarge));
    let e = ScaleServiceRequest::from_json(Ok("{\"replicas\":99999999999999999999999}".to_string())).err().unwrap();
    assert!(matches!(e, ScaleParseError::TooLarge));
}

#[test]
fn command_split() {
    assert_eq!(
        parse_command(&"mod.wasm a  b".to_string()).unwrap(),
        vec!["mod.wasm", "a", "", "b"]
    );
    assert_eq!(parse_command(&"x".to_string()).unwrap(), vec!["x"]);
    assert_eq!(parse_command(&"".to_string()).unwrap_err(), CommandError::EmptyFunctionName);
    assert_eq!(parse_command(&" x".to_string()).unwrap_err(), CommandError::EmptyFunctionName);
}

#[test]
fn decimal_text() {
    assert_eq!(decimal_string(0), "0");
    assert_eq!(decimal_string(1200), "1200");
    assert_eq!(decimal_string(u64::MAX), "18446744073709551615");
}
