use course_system_tester::config::{
    get_json_value, get_json_value_as_string, get_json_value_as_u64, parse_store_server_args, parse_web_server_args,
    read_store_server_args, ConfigError, StoresParse,
};
use course_system_tester::json::{Json, Number};
use course_system_tester::text::decimal;

fn s(text: &str) -> Json {
    Json::String(text.to_string())
}

fn n(value: u64) -> Json {
    Json::Number(Number::PosInt(value))
}

fn arr(items: Vec<Json>) -> Json {
    Json::Array(items)
}

fn obj(members: Vec<(&str, Json)>) -> Json {
    Json::Object(members.into_iter().map(|(k, v)| (k.to_string(), v)).collect())
}

fn web_config() -> Json {
    obj(vec![
        ("directory", s("/home/user/projects/course-system")),
        ("build", s("make")),
        ("clean", s("make clean")),
        (
            "web",
            obj(vec![
                ("bin", s("./bin/web-server")),
                (
                    "arguments",
                    obj(vec![("ip", s("127.0.0.1")), ("port", n(8080)), ("config_path", s("./configs/web/stores.conf"))]),
                ),
            ]),
        ),
    ])
}

fn stores_config() -> Json {
    obj(vec![(
        "stores",
        arr(vec![
            obj(vec![
                ("bin", s("./bin/2pc/store-server")),
                (
                    "arguments",
                    arr(vec![
                        s("./configs/store/cluster-0/coordinator.conf"),
                        s("./configs/store/cluster-0/participant-0.conf"),
                    ]),
                ),
                ("vnics", arr(vec![s("192.168.22.101/24"), s("192.168.22.102/24")])),
            ]),
            obj(vec![
                ("bin", s("./bin/raft/store-server")),
                ("arguments", arr(vec![s("./configs/store/cluster-1/participant-0.conf")])),
                ("vnics", arr(vec![s("192.168.22.201/24")])),
            ]),
        ]),
    )])
}

#[test]
fn decimal_writes_numbers_as_display_does() {
    assert_eq!(decimal(0), "0");
    assert_eq!(decimal(7), "7");
    assert_eq!(decimal(10), "10");
    assert_eq!(decimal(8080), "8080");
    assert_eq!(decimal(u64::MAX), u64::MAX.to_string());
}

#[test]
fn json_lookup_finds_members_of_objects_only() {
    let config = web_config();
    assert_eq!(config.get("build"), Some(&s("make")));
    assert_eq!(config.get("missing"), None);
    assert_eq!(s("x").get("build"), None);
    assert_eq!(n(3).as_u64(), Some(3));
    assert_eq!(Json::Number(Number::NegInt(-3)).as_u64(), None);
    assert_eq!(Json::Number(Number::Float("1.5".to_string())).as_u64(), None);
    assert_eq!(s("abc").as_str(), Some(&"abc".to_string()));
    assert_eq!(n(1).as_str(), None);
    assert_eq!(arr(vec![n(1)]).as_array(), Some(&vec![n(1)]));
    assert_eq!(Json::Null.as_array(), None);
}

#[test]
fn duplicate_copies_deeply() {
    let config = web_config();
    assert_eq!(config.duplicate(), config);
}

#[test]
fn get_json_value_returns_a_copy_or_key_not_found() {
    let config = web_config();
    assert_eq!(get_json_value(&config, "build"), Ok(s("make")));
    assert_eq!(
        get_json_value(&config, "stores"),
        Err(ConfigError::KeyNotFound { key: "stores".to_string() })
    );
}

#[test]
fn get_json_value_as_u64_reads_unsigned_integers() {
    let config = obj(vec![("port", n(8080)), ("neg", Json::Number(Number::NegInt(-1))), ("name", s("x"))]);
    assert_eq!(get_json_value_as_u64(&config, "port"), Ok(8080));
    assert_eq!(
        get_json_value_as_u64(&config, "missing"),
        Err(ConfigError::MissingKey { key: "missing".to_string() })
    );
    assert_eq!(
        get_json_value_as_u64(&config, "neg"),
        Err(ConfigError::NotUnsigned { key: "neg".to_string(), value: Json::Number(Number::NegInt(-1)) })
    );
    assert_eq!(
        get_json_value_as_u64(&config, "name"),
        Err(ConfigError::NotUnsigned { key: "name".to_string(), value: s("x") })
    );
}

#[test]
fn get_json_value_as_string_reads_strings() {
    let config = obj(vec![("bin", s("./bin/web-server")), ("port", n(1))]);
    assert_eq!(get_json_value_as_string(&config, "bin"), Ok("./bin/web-server".to_string()));
    assert_eq!(
        get_json_value_as_string(&config, "nope"),
        Err(ConfigError::MissingKey { key: "nope".to_string() })
    );
    assert_eq!(
        get_json_value_as_string(&config, "port"),
        Err(ConfigError::NotString { key: "port".to_string(), value: n(1) })
    );
}

#[test]
fn web_server_args_follow_the_readme() {
    let (command, base_url) = parse_web_server_args(&web_config()).unwrap();
    assert_eq!(command, "./bin/web-server --ip 127.0.0.1 --port 8080 --config_path ./configs/web/stores.conf");
    assert_eq!(base_url, "http://127.0.0.1:8080");
}

#[test]
fn web_server_args_report_the_first_problem() {
    assert_eq!(
        parse_web_server_args(&obj(vec![])),
        Err(ConfigError::KeyNotFound { key: "web".to_string() })
    );
    let no_port = obj(vec![(
        "web",
        obj(vec![
            ("bin", s("./bin/web-server")),
            ("arguments", obj(vec![("ip", s("127.0.0.1")), ("port", s("8080"))])),
        ]),
    )]);
    assert_eq!(
        parse_web_server_args(&no_port),
        Err(ConfigError::NotUnsigned { key: "port".to_string(), value: s("8080") })
    );
}

#[test]
fn store_server_args_follow_the_readme() {
    let (cmds, vnics) = parse_store_server_args(&stores_config()).unwrap();
    assert_eq!(
        cmds,
        vec![
            vec![
                "./bin/2pc/store-server --config_path ./configs/store/cluster-0/coordinator.conf".to_string(),
                "./bin/2pc/store-server --config_path ./configs/store/cluster-0/participant-0.conf".to_string(),
            ],
            vec!["./bin/raft/store-server --config_path ./configs/store/cluster-1/participant-0.conf".to_string()],
        ]
    );
    assert_eq!(
        vnics,
        vec![
            vec![("192.168.22.101/24".to_string(), false), ("192.168.22.102/24".to_string(), false)],
            vec![("192.168.22.201/24".to_string(), false)],
        ]
    );
}

#[test]
fn store_server_args_errors() {
    assert_eq!(
        parse_store_server_args(&obj(vec![])),
        Err(ConfigError::KeyNotFound { key: "stores".to_string() })
    );
    assert_eq!(
        parse_store_server_args(&obj(vec![("stores", n(1))])),
        Err(ConfigError::NotArray { what: "stores".to_string(), value: n(1) })
    );
    let bad_arguments = obj(vec![("stores", arr(vec![obj(vec![("bin", s("b")), ("arguments", s("a"))])]))]);
    assert_eq!(
        parse_store_server_args(&bad_arguments),
        Err(ConfigError::NotArray { what: "arguments".to_string(), value: s("a") })
    );
    // When `vnics` is not an array, the error shows `arguments`.
    let bad_vnics = obj(vec![(
        "stores",
        arr(vec![obj(vec![("bin", s("b")), ("arguments", arr(vec![s("c")])), ("vnics", s("v"))])]),
    )]);
    assert_eq!(
        parse_store_server_args(&bad_vnics),
        Err(ConfigError::NotArray { what: "arguments".to_string(), value: arr(vec![s("c")]) })
    );
    let no_bin = obj(vec![("stores", arr(vec![obj(vec![])]))]);
    assert_eq!(
        parse_store_server_args(&no_bin),
        Err(ConfigError::MissingKey { key: "bin".to_string() })
    );
}

#[test]
fn store_server_args_with_non_string_entries_are_unreadable() {
    let config = obj(vec![(
        "stores",
        arr(vec![obj(vec![("bin", s("b")), ("arguments", arr(vec![n(1)])), ("vnics", arr(vec![]))])]),
    )]);
    assert_eq!(read_store_server_args(&config), StoresParse::Unreadable);
    let config = obj(vec![(
        "stores",
        arr(vec![obj(vec![("bin", s("b")), ("arguments", arr(vec![])), ("vnics", arr(vec![Json::Null]))])]),
    )]);
    assert_eq!(read_store_server_args(&config), StoresParse::Unreadable);
}

#[test]
fn an_earlier_store_error_comes_before_a_later_unreadable_store() {
    let config = obj(vec![(
        "stores",
        arr(vec![
            obj(vec![("arguments", arr(vec![]))]),
            obj(vec![("bin", s("b")), ("arguments", arr(vec![n(1)])), ("vnics", arr(vec![]))]),
        ]),
    )]);
    assert_eq!(
        read_store_server_args(&config),
        StoresParse::Failed(ConfigError::MissingKey { key: "bin".to_string() })
    );
}

#[test]
fn typed_lookups_agree_with_plain_lookup() {
    let config = obj(vec![("port", n(8080)), ("bin", s("./bin/x"))]);
    assert_eq!(get_json_value(&config, "port"), Ok(n(8080)));
    assert_eq!(get_json_value_as_u64(&config, "port"), Ok(8080));
    assert_eq!(get_json_value(&config, "bin"), Ok(s("./bin/x")));
    assert_eq!(get_json_value_as_string(&config, "bin"), Ok("./bin/x".to_string()));
    assert!(get_json_value(&config, "gone").is_err());
    assert_eq!(
        get_json_value_as_u64(&config, "gone"),
        Err(ConfigError::MissingKey { key: "gone".to_string() })
    );
    assert_eq!(
        get_json_value_as_string(&config, "gone"),
        Err(ConfigError::MissingKey { key: "gone".to_string() })
    );
}
