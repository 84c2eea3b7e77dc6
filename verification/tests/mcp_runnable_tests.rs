use ai_core::json::{args_or_empty_object, normalize_args};
use ai_core::mcp::{
    call_output, call_output_from, default_server_label, describe_tool, load_report, namespaced_tool_name,
    prepare_server, rpc_outcome, sanitize_server_label, McpCallOutput, McpToolInfo, McpToolSpec,
};
use ai_core::runnable::{finish_fan_out, gather_outputs};
use ai_core::tool::unknown_tool_error;
use ai_core::{ApiKeyAuth, BearerAuth, Error, NoAuth, ToolDef, ToolRegistry};

fn info(name: &str, description: &str) -> McpToolInfo {
    McpToolInfo {
        name: name.to_string(),
        description: description.to_string(),
        input_schema: "{\"type\":\"object\"}".to_string(),
    }
}

#[test]
fn load_mcp_tools_namespaces_multiple_servers_and_preserves_descriptions() {
    let mut registry = ToolRegistry::new();
    let mut reports = Vec::new();
    for (label, url, description) in [
        ("server-a", "http://a/", "Weather from server A."),
        ("server b", "http://b/", "Weather from server B."),
    ] {
        let (label, url) = prepare_server(label, url);
        let (report, specs) = load_report(label, url, Ok(vec![info("get_weather", description)]));
        for spec in specs {
            registry.add(spec.def);
        }
        reports.push(report);
    }

    assert_eq!(reports.len(), 2);
    assert!(reports.iter().all(|report| report.error.is_none()));
    assert!(registry.position("server_a_get_weather").is_some());
    assert!(registry.position("server_b_get_weather").is_some());

    let defs = registry.defs();
    let def_a = &defs[registry.position("server_a_get_weather").unwrap()];
    assert!(def_a.description.contains("server_a"));
    assert!(def_a.description.contains("get_weather"));
    assert!(def_a.description.contains("Weather from server A."));

    let result_a = call_output(vec![Some("{\"source\":\"a\"}".to_string())]);
    let result_b = call_output(vec![None, Some("{\"source\":\"b\"}".to_string())]);
    assert_eq!(result_a, McpCallOutput::Json("{\"source\":\"a\"}".to_string()));
    assert_eq!(result_b, McpCallOutput::Json("{\"source\":\"b\"}".to_string()));
}

#[test]
fn load_mcp_tools_keeps_successful_servers_when_one_fails() {
    let mut registry = ToolRegistry::new();
    let mut reports = Vec::new();
    let (label, url) = prepare_server("good", " http://good ");
    let (report, specs) = load_report(label, url, Ok(vec![info("ping", "")]));
    for spec in specs {
        registry.add(spec.def);
    }
    reports.push(report);
    let (label, url) = prepare_server("bad", "http://127.0.0.1:9");
    let (report, specs) = load_report(label, url, Err("http error: connection refused".to_string()));
    assert!(specs.is_empty());
    reports.push(report);

    assert_eq!(reports.len(), 2);
    assert!(reports
        .iter()
        .any(|report| report.label == "good" && report.error.is_none()));
    assert!(reports
        .iter()
        .any(|report| report.label == "bad" && report.error.is_some()));
    assert!(registry.position("good_ping").is_some());
    assert_eq!(reports[0].url, "http://good");
    assert_eq!(reports[0].tool_names, vec!["good_ping".to_string()]);
}

#[test]
fn mcp_jsonrpc_error_maps_to_tool_error() {
    let err = rpc_outcome(Some("{\"code\":-32000,\"message\":\"boom\"}".to_string()), None)
        .err()
        .unwrap();
    assert!(matches!(err, Error::Tool(_)));
    assert!(err.to_string().contains("boom"));
    assert_eq!(rpc_outcome(None, None).unwrap(), "null");
    assert_eq!(rpc_outcome(None, Some("{\"tools\":[]}".to_string())).unwrap(), "{\"tools\":[]}");
}

#[test]
fn call_output_keeps_plain_text() {
    assert_eq!(
        call_output(vec![Some("sunny, ".to_string()), None, Some("72F".to_string())]),
        McpCallOutput::Text("sunny, 72F".to_string())
    );
    assert_eq!(call_output(vec![]), McpCallOutput::Text(String::new()));
}

#[test]
fn labels_and_names() {
    assert_eq!(sanitize_server_label("  my server!  "), "my_server");
    assert_eq!(sanitize_server_label("__x__"), "x");
    assert_eq!(sanitize_server_label("!!!"), "mcp");
    assert_eq!(sanitize_server_label(""), "mcp");
    assert_eq!(sanitize_server_label("café"), "caf");
    assert_eq!(default_server_label(0), "mcp1");
    assert_eq!(default_server_label(9), "mcp10");
    assert_eq!(namespaced_tool_name("server-a", "get"), "server_a_get");
    assert_eq!(
        describe_tool("s", "t", "  does t  "),
        "Source server `s`; original MCP tool `t`. does t"
    );
    assert_eq!(
        describe_tool("s", "t", "   "),
        "Source server `s`; original MCP tool `t`."
    );
    let spec = McpToolSpec::from_info("srv", info("echo", "Echo."));
    assert_eq!(spec.remote_name, "echo");
    assert_eq!(spec.def.name, "srv_echo");
    assert_eq!(spec.def.parameters, "{\"type\":\"object\"}");
    let spec = McpToolSpec::new("local", "remote", "d", "{}");
    assert_eq!(spec.def.name, "local");
    assert_eq!(spec.remote_name, "remote");
}

#[test]
fn erased_parallel_map_collects_a_json_object() {
    let out = gather_outputs(vec![
        ("length".to_string(), "5".to_string()),
        ("upper".to_string(), "\"HELLO\"".to_string()),
    ])
    .unwrap();
    assert_eq!(out.len(), 2);
    assert_eq!(out[0], ("length".to_string(), "5".to_string()));
    assert_eq!(out[1], ("upper".to_string(), "\"HELLO\"".to_string()));
}

#[test]
fn parallel_map_refuses_duplicate_keys() {
    let err = gather_outputs(vec![
        ("a".to_string(), "1".to_string()),
        ("b".to_string(), "2".to_string()),
        ("a".to_string(), "3".to_string()),
        ("b".to_string(), "4".to_string()),
    ])
    .unwrap_err();
    assert_eq!(
        err,
        Error::InvalidRequest("duplicate parallel_map branch key `a`".to_string())
    );
    assert!(gather_outputs(vec![]).unwrap().is_empty());
}

#[test]
fn registry_replaces_by_name() {
    let mut registry = ToolRegistry::new();
    assert!(registry.is_empty());
    assert_eq!(registry.add(ToolDef::new("a", "first", "{}")), (0, true));
    assert_eq!(registry.add(ToolDef::new("b", "", "{}")), (1, true));
    assert_eq!(registry.add(ToolDef::new("a", "second", "{}")), (0, false));
    assert_eq!(registry.len(), 2);
    assert_eq!(registry.defs()[0].description, "second");
    assert_eq!(registry.position("c"), None);
    assert_eq!(
        unknown_tool_error("c"),
        Error::Tool("unknown tool `c`".to_string())
    );
}

#[test]
fn auth_headers() {
    assert_eq!(NoAuth.header(), None);
    assert_eq!(
        BearerAuth("k".to_string()).header(),
        Some(("authorization".to_string(), "Bearer k".to_string()))
    );
    let auth = ApiKeyAuth::new("x-api-key", "v");
    assert_eq!(auth.header, "x-api-key");
    assert_eq!(auth.value, "v");
    assert_eq!(auth.header(), Some(("x-api-key".to_string(), "v".to_string())));
}

#[test]
fn outcomes_after_reencoding() {
    assert_eq!(
        call_output_from("1.0".to_string(), Some("1.0".to_string())),
        McpCallOutput::Json("1.0".to_string())
    );
    assert_eq!(
        call_output_from("oops".to_string(), None),
        McpCallOutput::Text("oops".to_string())
    );
    assert_eq!(args_or_empty_object(None), "{}");
    assert_eq!(args_or_empty_object(Some("[1]".to_string())), "[1]");
    assert_eq!(normalize_args(" [ 1 , 2 ] "), "[1,2]");
    assert_eq!(normalize_args("nope"), "{}");
}

#[test]
fn dispatch_finds_slots_or_reports_unknown_tools() {
    let mut registry = ToolRegistry::new();
    registry.add(ToolDef::new("a", "", "{}"));
    registry.add(ToolDef::new("b", "", "{}"));
    assert_eq!(registry.dispatch("b"), Ok(1));
    assert_eq!(
        registry.dispatch("zz"),
        Err(Error::Tool("unknown tool `zz`".to_string()))
    );
}

#[test]
fn fan_out_fails_first_then_gathers() {
    let failed = finish_fan_out(Err(Error::tool("branch broke")));
    assert_eq!(failed, Err(Error::Tool("branch broke".to_string())));
    let ok = finish_fan_out(Ok(vec![("k".to_string(), "1".to_string())])).unwrap();
    assert_eq!(ok, vec![("k".to_string(), "1".to_string())]);
    let dup = finish_fan_out(Ok(vec![
        ("k".to_string(), "1".to_string()),
        ("k".to_string(), "2".to_string()),
    ]));
    assert_eq!(
        dup,
        Err(Error::InvalidRequest("duplicate parallel_map branch key `k`".to_string()))
    );
}

#[test]
fn sanitizing_twice_changes_nothing() {
    for label in ["  my server!  ", "__x__", "!!!", "a-b c", "ok"] {
        let once = sanitize_server_label(label);
        assert_eq!(sanitize_server_label(&once), once);
    }
}
