use ctx_hub::domain::record::RecordInput;
use ctx_hub::domain::tags::tag_count;
use ctx_hub::error::CtxError;
use ctx_hub::mcp::{
    normalized_limit, plan_json_rpc, tags_from_text, tool_failure, tool_kind, ReadOnlyMcp,
    RpcPlan, RpcRequest, ToolCall, ToolKind, ToolOutput, GET_CONTEXT_BY_KEY, GET_SERVICE_CONTEXT,
    INVALID_PARAMS, INVALID_REQUEST, LIST_TAGS, METHOD_NOT_FOUND, SEARCH_CONTEXT,
};
use ctx_hub::storage::sqlite::SqliteStorage;

fn open_storage() -> Result<SqliteStorage, CtxError> {
    let storage = SqliteStorage::open(":memory:")?;
    storage.init()?;
    Ok(storage)
}

fn insert_record(
    storage: &SqliteStorage,
    key: &str,
    title: &str,
    content: &str,
    tags: &[&str],
    service: Option<&str>,
) -> Result<(), CtxError> {
    let record = RecordInput::new(
        title.to_string(),
        content.to_string(),
        Some(key.to_string()),
        tags.iter().map(|tag| (*tag).to_string()).collect(),
        service.map(str::to_string),
        Some("test".to_string()),
        Some("search test".to_string()),
    )?;
    storage.insert_record(&record)
}

fn rpc(method: Option<&str>, tool_name: Option<&str>) -> RpcRequest {
    RpcRequest {
        has_id: true,
        method: method.map(str::to_string),
        tool_name: tool_name.map(str::to_string),
    }
}

#[test]
fn mcp_exposes_only_read_only_tools() -> Result<(), CtxError> {
    let storage = open_storage()?;
    let mcp = ReadOnlyMcp::new(&storage);

    let names = mcp
        .tools()
        .into_iter()
        .map(|tool| tool.name)
        .collect::<Vec<_>>();

    assert_eq!(
        names,
        vec![
            SEARCH_CONTEXT,
            GET_CONTEXT_BY_KEY,
            LIST_TAGS,
            GET_SERVICE_CONTEXT
        ]
    );
    assert!(!names.iter().any(|name| {
        matches!(
            *name,
            "add_context" | "update_context" | "delete_context" | "import_context"
        )
    }));

    Ok(())
}

#[test]
fn mcp_tools_read_context_without_mutating_storage() -> Result<(), CtxError> {
    let storage = open_storage()?;

    insert_record(
        &storage,
        "runbook.payment.failed",
        "支付失败排查规则",
        "支付失败时先查询 payment_callback_log，再查询 payment-service 日志。",
        &["payment", "runbook"],
        Some("payment-service"),
    )?;
    insert_record(
        &storage,
        "command.order.build",
        "order-service 构建命令",
        "mvn clean package -DskipTests -Ptest",
        &["build"],
        Some("order-service"),
    )?;

    let count_before = storage.record_count()?;
    let mcp = ReadOnlyMcp::new(&storage);

    let search = mcp.call_tool(ToolCall::SearchContext {
        query: "payment_callback_log".to_string(),
        limit: None,
    })?;
    match search {
        ToolOutput::Results(results) => {
            assert_eq!(results[0].key.as_deref(), Some("runbook.payment.failed"));
        }
        other => panic!("unexpected output {other:?}"),
    }

    let detail = mcp.call_tool(ToolCall::GetContextByKey {
        key: "runbook.payment.failed".to_string(),
    })?;
    match detail {
        ToolOutput::Record(Some(record)) => {
            assert_eq!(record.title, "支付失败排查规则");
            assert_eq!(
                record.content,
                "支付失败时先查询 payment_callback_log，再查询 payment-service 日志。"
            );
        }
        other => panic!("unexpected output {other:?}"),
    }

    let tags = mcp.call_tool(ToolCall::ListTags)?;
    match tags {
        ToolOutput::Tags(table) => {
            assert_eq!(tag_count(&table, "payment"), Some(1));
            assert_eq!(tag_count(&table, "build"), Some(1));
        }
        other => panic!("unexpected output {other:?}"),
    }

    let service = mcp.call_tool(ToolCall::GetServiceContext {
        service: "payment-service".to_string(),
        limit: Some(10),
    })?;
    let service_results = match service {
        ToolOutput::Results(results) => results,
        other => panic!("unexpected output {other:?}"),
    };
    assert_eq!(service_results.len(), 1);
    assert_eq!(
        service_results[0].key.as_deref(),
        Some("runbook.payment.failed")
    );
    assert_eq!(
        service_results[0].service.as_deref(),
        Some("payment-service")
    );

    assert_eq!(storage.record_count()?, count_before);
    Ok(())
}

#[test]
fn mcp_json_rpc_lists_and_calls_tools() -> Result<(), CtxError> {
    let storage = open_storage()?;

    insert_record(
        &storage,
        "runbook.payment.failed",
        "Payment failure runbook",
        "Check payment_callback_log before retrying.",
        &["payment", "runbook"],
        Some("payment-service"),
    )?;

    let mcp = ReadOnlyMcp::new(&storage);
    assert_eq!(plan_json_rpc(rpc(Some("tools/list"), None)), RpcPlan::ListTools);
    assert_eq!(mcp.tools().len(), 4);

    let plan = plan_json_rpc(rpc(Some("tools/call"), Some(SEARCH_CONTEXT)));
    let name = match plan {
        RpcPlan::CallTool(name) => name,
        other => panic!("unexpected plan {other:?}"),
    };
    assert_eq!(tool_kind(&name)?, ToolKind::SearchContext);
    let call = mcp.call_tool(ToolCall::SearchContext {
        query: "payment_callback_log".to_string(),
        limit: None,
    })?;
    let results = match call {
        ToolOutput::Results(results) => results,
        other => panic!("unexpected output {other:?}"),
    };
    assert_eq!(results[0].key.as_deref(), Some("runbook.payment.failed"));
    assert!(results[0].snippet.contains("payment_callback_log"));

    Ok(())
}

#[test]
fn json_rpc_plans_follow_the_method() {
    let notification = RpcRequest {
        has_id: false,
        method: Some("tools/list".to_string()),
        tool_name: None,
    };
    assert_eq!(plan_json_rpc(notification), RpcPlan::NoReply);
    assert_eq!(plan_json_rpc(rpc(Some("initialize"), None)), RpcPlan::Initialize);
    assert_eq!(plan_json_rpc(rpc(Some("shutdown"), None)), RpcPlan::Shutdown);
    assert_eq!(
        plan_json_rpc(rpc(None, None)),
        RpcPlan::Fail {
            code: INVALID_REQUEST,
            message: "JSON-RPC request missing method".to_string()
        }
    );
    assert_eq!(
        plan_json_rpc(rpc(Some("tools/call"), None)),
        RpcPlan::Fail {
            code: INVALID_PARAMS,
            message: "tools/call missing tool name".to_string()
        }
    );
    assert_eq!(
        plan_json_rpc(rpc(Some("resources/list"), None)),
        RpcPlan::Fail {
            code: METHOD_NOT_FOUND,
            message: "method not found: resources/list".to_string()
        }
    );
}

#[test]
fn unknown_tools_are_refused() {
    assert_eq!(tool_kind(GET_CONTEXT_BY_KEY), Ok(ToolKind::GetContextByKey));
    assert_eq!(tool_kind(LIST_TAGS), Ok(ToolKind::ListTags));
    assert_eq!(tool_kind(GET_SERVICE_CONTEXT), Ok(ToolKind::GetServiceContext));
    let err = tool_kind("add_context").unwrap_err();
    assert_eq!(err, CtxError::UnknownTool("add_context".to_string()));
    assert_eq!(tool_failure(&err), (INVALID_PARAMS, "unknown MCP tool: add_context".to_string()));
}

#[test]
fn limits_are_normalized() {
    assert_eq!(normalized_limit(None), 10);
    assert_eq!(normalized_limit(Some(0)), 1);
    assert_eq!(normalized_limit(Some(1)), 1);
    assert_eq!(normalized_limit(Some(25)), 25);
    assert_eq!(normalized_limit(Some(50)), 50);
    assert_eq!(normalized_limit(Some(51)), 50);
    assert_eq!(normalized_limit(Some(usize::MAX)), 50);
}

#[test]
fn tags_text_splits_into_list() {
    assert_eq!(tags_from_text("payment  runbook"), vec!["payment", "runbook"]);
    assert!(tags_from_text("   ").is_empty());
}

#[test]
fn missing_record_gives_empty_record_output() -> Result<(), CtxError> {
    let storage = open_storage()?;
    let mcp = ReadOnlyMcp::new(&storage);
    match mcp.call_tool(ToolCall::GetContextByKey { key: "nope".to_string() })? {
        ToolOutput::Record(None) => {}
        other => panic!("unexpected output {other:?}"),
    }
    Ok(())
}

#[test]
fn search_tool_caps_results_at_the_limit() -> Result<(), CtxError> {
    let storage = open_storage()?;
    for i in 0..5 {
        insert_record(&storage, &format!("note.{i}"), "Note", "shared words here", &["x"], None)?;
    }
    let mcp = ReadOnlyMcp::new(&storage);
    match mcp.call_tool(ToolCall::SearchContext { query: "shared".to_string(), limit: Some(2) })? {
        ToolOutput::Results(results) => assert_eq!(results.len(), 2),
        other => panic!("unexpected output {other:?}"),
    }
    Ok(())
}

#[test]
fn tools_accept_no_extra_arguments() -> Result<(), CtxError> {
    let storage = open_storage()?;
    let mcp = ReadOnlyMcp::new(&storage);
    assert!(mcp.tools().iter().all(|t| !t.additional_properties));
    Ok(())
}
