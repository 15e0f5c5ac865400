//! The read-only MCP tool set: which tools exist, what each call reads
//! from the store, and how JSON-RPC requests are answered.
use vstd::prelude::*;
use vstd::string::*;

use crate::error::{error_text, CtxError};
use crate::domain::record::{opt_view, RecordDetail};
use crate::domain::search::SearchResult;
use crate::storage::Storage;
use crate::domain::tags::{has_tag_spec, is_tag_table, TagCount};
use crate::domain::text::{split_whitespace, str_equal, views, words};

verus! {

/// Searches records by keyword or phrase.
pub const SEARCH_CONTEXT: &'static str = "search_context";

/// Reads one record in full by key or id.
pub const GET_CONTEXT_BY_KEY: &'static str = "get_context_by_key";

/// Lists the known tags with their counts.
pub const LIST_TAGS: &'static str = "list_tags";

/// Reads the records of one service.
pub const GET_SERVICE_CONTEXT: &'static str = "get_service_context";

/// The number of results when a call gives no limit.
pub const DEFAULT_LIMIT: usize = 10;

/// The MCP protocol version this server speaks.
pub const PROTOCOL_VERSION: &'static str = "2024-11-05";

/// The server name reported on `initialize`.
pub const SERVER_NAME: &'static str = "ctx-hub";

/// The server version reported by `initialize`: the package version.
pub const SERVER_VERSION: &'static str = "0.1.0";

/// JSON-RPC: the request has no method.
pub const INVALID_REQUEST: i64 = -32600;

/// JSON-RPC: the method is not known.
pub const METHOD_NOT_FOUND: i64 = -32601;

/// JSON-RPC: the parameters of a tool call are wrong, or the call failed.
pub const INVALID_PARAMS: i64 = -32602;

/// JSON-RPC: a line is not JSON.
pub const PARSE_ERROR: i64 = -32700;

/// The type of a tool argument.
#[derive(Debug, Clone, Copy, PartialEq, Eq)]
pub enum PropertyType {
    /// A JSON string.
    Text,
    /// A JSON integer within the given bounds.
    Integer { minimum: u64, maximum: u64 },
}

/// One named argument of a tool.
#[derive(Debug, Clone, Copy, PartialEq, Eq)]
pub struct ToolProperty {
    pub name: &'static str,
    pub kind: PropertyType,
}

/// An MCP tool: its name, description, arguments, required arguments,
/// and whether arguments other than the listed ones are accepted.
#[derive(Debug)]
pub struct McpTool {
    pub name: &'static str,
    pub description: &'static str,
    pub properties: Vec<ToolProperty>,
    pub required: Vec<&'static str>,
    pub additional_properties: bool,
}

/// The names of the read-only tools, in the order they are listed.
pub open spec fn read_only_tool_names() -> Seq<Seq<char>> {
    seq![
        "search_context"@,
        "get_context_by_key"@,
        "list_tags"@,
        "get_service_context"@,
    ]
}

/// The tool a name stands for.
#[derive(Debug, Clone, Copy, PartialEq, Eq)]
pub enum ToolKind {
    SearchContext,
    GetContextByKey,
    ListTags,
    GetServiceContext,
}

/// A tool call with its arguments.
#[derive(Debug)]
pub enum ToolCall {
    SearchContext { query: String, limit: Option<usize> },
    GetContextByKey { key: String },
    ListTags,
    GetServiceContext { service: String, limit: Option<usize> },
}

/// A search hit as the tools return it: the tags as a list.
#[derive(Debug)]
pub struct McpSearchResult {
    pub key: Option<String>,
    pub title: String,
    pub tags: Vec<String>,
    pub service: Option<String>,
    pub env: Option<String>,
    pub snippet: String,
    pub match_kind: String,
}

/// A full record as the tools return it: the tags as a list.
#[derive(Debug)]
pub struct McpRecordDetail {
    pub id: String,
    pub key: Option<String>,
    pub title: String,
    pub content: String,
    pub tags: Vec<String>,
    pub service: Option<String>,
    pub env: Option<String>,
    pub source: Option<String>,
    pub created_at: String,
    pub updated_at: String,
}

/// What a tool call returns.
#[derive(Debug)]
pub enum ToolOutput {
    /// The hits of `search_context` or `get_service_context`.
    Results(Vec<McpSearchResult>),
    /// The record of `get_context_by_key`, if there is one.
    Record(Option<McpRecordDetail>),
    /// The tag table of `list_tags`.
    Tags(Vec<TagCount>),
}

/// `m` is the tool form of the hit `r`: the same fields, the tag text
/// split into a list.
pub open spec fn hit_response(m: McpSearchResult, r: SearchResult) -> bool {
    &&& m.key == r.key
    &&& m.title == r.title
    &&& views(m.tags@) == words(r.tags_text@)
    &&& m.service == r.service
    &&& m.env == r.env
    &&& m.snippet == r.snippet
    &&& m.match_kind == r.match_kind
}

/// `v` is the tool form of the hits `rs`, item by item.
pub open spec fn is_response(v: Seq<McpSearchResult>, rs: Seq<SearchResult>) -> bool {
    &&& v.len() == rs.len()
    &&& forall|i: int| 0 <= i < v.len() ==> #[trigger] hit_response(v[i], rs[i])
}

/// `m` is the tool form of the record `r`: the same fields, the tag text
/// split into a list.
pub open spec fn record_response(m: McpRecordDetail, r: RecordDetail) -> bool {
    &&& m.id == r.id
    &&& m.key == r.key
    &&& m.title == r.title
    &&& m.content == r.content
    &&& views(m.tags@) == words(r.tags_text@)
    &&& m.service == r.service
    &&& m.env == r.env
    &&& m.source == r.source
    &&& m.created_at == r.created_at
    &&& m.updated_at == r.updated_at
}

/// `d` is the tool form of the lookup answer `x`.
pub open spec fn lookup_response(d: Option<McpRecordDetail>, x: Option<RecordDetail>) -> bool {
    match (d, x) {
        (None, None) => true,
        (Some(m), Some(r)) => record_response(m, r),
        _ => false,
    }
}

/// The limit used for a call: the given one (10 where none is given),
/// kept within 1 to 50.
pub open spec fn normalized_limit_spec(limit: Option<usize>) -> usize {
    let l = match limit {
        Some(l) => l,
        None => 10usize,
    };
    if l < 1 {
        1
    } else if l > 50 {
        50
    } else {
        l
    }
}

/// The limit used for a call: the given one (10 where none is given),
/// kept within 1 to 50.
pub fn normalized_limit(limit: Option<usize>) -> (r: usize)
    ensures
        r == normalized_limit_spec(limit),
        1 <= r <= 50,
{
    let l = match limit {
        Some(l) => l,
        None => DEFAULT_LIMIT,
    };
    if l < 1 {
        1
    } else if l > 50 {
        50
    } else {
        l
    }
}

/// The tags of a space-separated tag text, as a list.
pub fn tags_from_text(tags_text: &str) -> (r: Vec<String>)
    ensures
        views(r@) == words(tags_text@),
{
    split_whitespace(tags_text)
}

impl McpSearchResult {
    /// The tool form of a search hit.
    pub fn from_search_result(result: SearchResult) -> (r: McpSearchResult)
        ensures
            r.key == result.key,
            r.title == result.title,
            views(r.tags@) == words(result.tags_text@),
            r.service == result.service,
            r.env == result.env,
            r.snippet == result.snippet,
            r.match_kind == result.match_kind,
    {
        let tags = tags_from_text(result.tags_text.as_str());
        McpSearchResult {
            key: result.key,
            title: result.title,
            tags,
            service: result.service,
            env: result.env,
            snippet: result.snippet,
            match_kind: result.match_kind,
        }
    }
}

impl McpRecordDetail {
    /// The tool form of a full record.
    pub fn from_record(record: RecordDetail) -> (r: McpRecordDetail)
        ensures
            record_response(r, record),
            r.id == record.id,
            r.key == record.key,
            r.title == record.title,
            r.content == record.content,
            views(r.tags@) == words(record.tags_text@),
            r.service == record.service,
            r.env == record.env,
            r.source == record.source,
            r.created_at == record.created_at,
            r.updated_at == record.updated_at,
    {
        let tags = tags_from_text(record.tags_text.as_str());
        McpRecordDetail {
            id: record.id,
            key: record.key,
            title: record.title,
            content: record.content,
            tags,
            service: record.service,
            env: record.env,
            source: record.source,
            created_at: record.created_at,
            updated_at: record.updated_at,
        }
    }
}

/// The tool forms of a list of hits, in order.
pub fn search_response(results: Vec<SearchResult>) -> (r: Vec<McpSearchResult>)
    ensures
        is_response(r@, results@),
{
    let ghost all = results@;
    let mut out: Vec<McpSearchResult> = Vec::new();
    for item in it: results
        invariant
            it.seq() == all,
            out@.len() == it.index(),
            forall|i: int|
                0 <= i < out@.len() ==> {
                    &&& (#[trigger] out@[i]).key == all[i].key
                    &&& out@[i].title == all[i].title
                    &&& views(out@[i].tags@) == words(all[i].tags_text@)
                    &&& out@[i].service == all[i].service
                    &&& out@[i].env == all[i].env
                    &&& out@[i].snippet == all[i].snippet
                    &&& out@[i].match_kind == all[i].match_kind
                },
    {
        assert(all[it.index() as int] == item);
        out.push(McpSearchResult::from_search_result(item));
    }
    assert forall|i: int| 0 <= i < out@.len() implies #[trigger] hit_response(out@[i], all[i]) by {
        assert(out@[i].key == all[i].key);
    }
    out
}

/// The tool a name stands for; a name outside the four read-only tools
/// is refused.
pub fn tool_kind(name: &str) -> (r: Result<ToolKind, CtxError>)
    ensures
        r == Ok::<ToolKind, CtxError>(ToolKind::SearchContext) <==> name@ == "search_context"@,
        r == Ok::<ToolKind, CtxError>(ToolKind::GetContextByKey) <==> name@ == "get_context_by_key"@,
        r == Ok::<ToolKind, CtxError>(ToolKind::ListTags) <==> name@ == "list_tags"@,
        r == Ok::<ToolKind, CtxError>(ToolKind::GetServiceContext) <==> name@ == "get_service_context"@,
        r is Err <==> !read_only_tool_names().contains(name@),
        r matches Err(e) ==> (e matches CtxError::UnknownTool(n) && n@ == name@),
{
    proof {
        reveal_strlit("search_context");
        reveal_strlit("get_context_by_key");
        reveal_strlit("list_tags");
        reveal_strlit("get_service_context");
        assert("search_context"@.len() == 14);
        assert("get_context_by_key"@.len() == 18);
        assert("list_tags"@.len() == 9);
        assert("get_service_context"@.len() == 19);
    }
    let ghost names = read_only_tool_names();
    if str_equal(name, SEARCH_CONTEXT) {
        Ok(ToolKind::SearchContext)
    } else if str_equal(name, GET_CONTEXT_BY_KEY) {
        Ok(ToolKind::GetContextByKey)
    } else if str_equal(name, LIST_TAGS) {
        Ok(ToolKind::ListTags)
    } else if str_equal(name, GET_SERVICE_CONTEXT) {
        Ok(ToolKind::GetServiceContext)
    } else {
        proof {
            if names.contains(name@) {
                let i = choose|i: int| 0 <= i < names.len() && names[i] == name@;
            }
        }
        Err(CtxError::UnknownTool(String::from_str(name)))
    }
}

/// The read-only tool list: `search_context` (a `query` and an optional
/// `limit` from 1 to 50), `get_context_by_key` (a `key`), `list_tags` (no
/// argument) and `get_service_context` (a `service` and an optional
/// `limit` from 1 to 50), with their descriptions, in this order.
pub open spec fn is_read_only_tool_list(r: Seq<McpTool>) -> bool {
    &&& r.len() == 4
    &&& forall|i: int| 0 <= i < 4 ==> (#[trigger] r[i]).name@ == read_only_tool_names()[i]
    &&& forall|i: int| 0 <= i < 4 ==> !(#[trigger] r[i]).additional_properties
    &&& r[0].description@ == "Search context records by keyword or phrase."@
    &&& r[1].description@ == "Get one full context record by key or id."@
    &&& r[2].description@ == "List known tags with record counts."@
    &&& r[3].description@ == "Get records associated with an exact service name."@
    &&& r[0].properties@ == seq![
        ToolProperty { name: "query", kind: PropertyType::Text },
        ToolProperty { name: "limit", kind: PropertyType::Integer { minimum: 1, maximum: 50 } },
    ]
    &&& r[0].required@ == seq!["query"]
    &&& r[1].properties@ == seq![ToolProperty { name: "key", kind: PropertyType::Text }]
    &&& r[1].required@ == seq!["key"]
    &&& r[2].properties@.len() == 0
    &&& r[2].required@.len() == 0
    &&& r[3].properties@ == seq![
        ToolProperty { name: "service", kind: PropertyType::Text },
        ToolProperty { name: "limit", kind: PropertyType::Integer { minimum: 1, maximum: 50 } },
    ]
    &&& r[3].required@ == seq!["service"]
}

/// The read-only tools, in this order: `search_context` (a `query` and an
/// optional `limit` from 1 to 50), `get_context_by_key` (a `key`),
/// `list_tags` (no argument) and `get_service_context` (a `service` and an
/// optional `limit` from 1 to 50).
pub fn read_only_tools() -> (r: Vec<McpTool>)
    ensures
        is_read_only_tool_list(r@),
{
    let limit = ToolProperty { name: "limit", kind: PropertyType::Integer { minimum: 1, maximum: 50 } };
    let mut search_props: Vec<ToolProperty> = Vec::new();
    search_props.push(ToolProperty { name: "query", kind: PropertyType::Text });
    search_props.push(limit);
    let mut search_req: Vec<&'static str> = Vec::new();
    search_req.push("query");
    let mut key_props: Vec<ToolProperty> = Vec::new();
    key_props.push(ToolProperty { name: "key", kind: PropertyType::Text });
    let mut key_req: Vec<&'static str> = Vec::new();
    key_req.push("key");
    let mut service_props: Vec<ToolProperty> = Vec::new();
    service_props.push(ToolProperty { name: "service", kind: PropertyType::Text });
    service_props.push(limit);
    let mut service_req: Vec<&'static str> = Vec::new();
    service_req.push("service");
    let mut tools: Vec<McpTool> = Vec::new();
    tools.push(
        McpTool {
            name: SEARCH_CONTEXT,
            description: "Search context records by keyword or phrase.",
            properties: search_props,
            required: search_req,
            additional_properties: false,
        },
    );
    tools.push(
        McpTool {
            name: GET_CONTEXT_BY_KEY,
            description: "Get one full context record by key or id.",
            properties: key_props,
            required: key_req,
            additional_properties: false,
        },
    );
    tools.push(
        McpTool {
            name: LIST_TAGS,
            description: "List known tags with record counts.",
            properties: Vec::new(),
            required: Vec::new(),
            additional_properties: false,
        },
    );
    tools.push(
        McpTool {
            name: GET_SERVICE_CONTEXT,
            description: "Get records associated with an exact service name.",
            properties: service_props,
            required: service_req,
            additional_properties: false,
        },
    );
    proof {
        reveal_strlit("search_context");
        reveal_strlit("get_context_by_key");
        reveal_strlit("list_tags");
        reveal_strlit("get_service_context");
        assert(search_props@ =~= seq![
            ToolProperty { name: "query", kind: PropertyType::Text },
            limit,
        ]);
        assert(service_props@ =~= seq![
            ToolProperty { name: "service", kind: PropertyType::Text },
            limit,
        ]);
        assert(key_props@ =~= seq![ToolProperty { name: "key", kind: PropertyType::Text }]);
        assert(search_req@ =~= seq!["query"]);
        assert(key_req@ =~= seq!["key"]);
        assert(service_req@ =~= seq!["service"]);
        assert forall|i: int| 0 <= i < 4 implies (#[trigger] tools@[i]).name@
            == read_only_tool_names()[i] by {
            if i == 0 {
                assert(tools@[0].name@ == "search_context"@);
            } else if i == 1 {
                assert(tools@[1].name@ == "get_context_by_key"@);
            } else if i == 2 {
                assert(tools@[2].name@ == "list_tags"@);
            } else {
                assert(tools@[3].name@ == "get_service_context"@);
            }
        }
    }
    tools
}

/// A server answering MCP tool calls from a store without changing it.
pub struct ReadOnlyMcp<'a, S: Storage> {
    storage: &'a S,
}

impl<'a, S: Storage> ReadOnlyMcp<'a, S> {
    /// A server reading from `storage`.
    pub fn new(storage: &'a S) -> (r: Self)
        ensures
            r.storage() == storage,
    {
        ReadOnlyMcp { storage }
    }

    /// The store this server reads.
    pub closed spec fn storage(&self) -> &'a S {
        self.storage
    }

    /// The tools this server offers: the four read-only tools.
    pub fn tools(&self) -> (r: Vec<McpTool>)
        ensures
            is_read_only_tool_list(r@),
    {
        read_only_tools()
    }

    /// Runs one tool call against the store: a search or a service lookup
    /// with the normalized limit, a record lookup by key or id, or the tag
    /// table.
    pub fn call_tool(&self, call: ToolCall) -> (r: Result<ToolOutput, CtxError>)
        ensures
            r matches Ok(out) ==> match call {
                ToolCall::SearchContext { query, limit } => out matches ToolOutput::Results(v)
                    && v@.len() <= normalized_limit_spec(limit) && exists|rs: Seq<SearchResult>|
                    #[trigger] self.storage().search_answer(
                        query@,
                        normalized_limit_spec(limit) as nat,
                        rs,
                    ) && is_response(v@, rs),
                ToolCall::GetContextByKey { key } => out matches ToolOutput::Record(d) && (exists|
                    x: Option<RecordDetail>,
                | #[trigger] self.storage().record_answer(key@, x) && lookup_response(d, x)) && (
                d matches Some(rec) ==> opt_view(rec.key) == Some(key@) || rec.id@ == key@),
                ToolCall::ListTags => out matches ToolOutput::Tags(v) && is_tag_table(v@)
                    && self.storage().tags_answer(v@),
                ToolCall::GetServiceContext { service, limit } => out matches ToolOutput::Results(v)
                    && v@.len() <= normalized_limit_spec(limit) && (exists|rs: Seq<SearchResult>|
                    #[trigger] self.storage().service_answer(
                        service@,
                        normalized_limit_spec(limit) as nat,
                        rs,
                    ) && is_response(v@, rs)) && forall|i: int|
                    0 <= i < v@.len() ==> opt_view((#[trigger] v@[i]).service) == Some(service@),
            },
    {
        match call {
            ToolCall::SearchContext { query, limit } => {
                let n = normalized_limit(limit);
                let results = self.storage.search_records(query.as_str(), n)?;
                let ghost rv = results@;
                let out = search_response(results);
                assert(self.storage().search_answer(query@, n as nat, rv) && is_response(out@, rv));
                Ok(ToolOutput::Results(out))
            },
            ToolCall::GetContextByKey { key } => {
                let record = self.storage.get_record(key.as_str())?;
                let ghost x = record;
                let detail = match record {
                    Some(d) => Some(McpRecordDetail::from_record(d)),
                    None => None,
                };
                assert(self.storage().record_answer(key@, x) && lookup_response(detail, x));
                Ok(ToolOutput::Record(detail))
            },
            ToolCall::ListTags => {
                let tags = self.storage.list_tags()?;
                Ok(ToolOutput::Tags(tags))
            },
            ToolCall::GetServiceContext { service, limit } => {
                let n = normalized_limit(limit);
                let results = self.storage.search_by_service(service.as_str(), n)?;
                let ghost rv = results@;
                let out = search_response(results);
                assert forall|i: int| 0 <= i < out@.len() implies opt_view(
                    (#[trigger] out@[i]).service,
                ) == Some(service@) by {
                    assert(hit_response(out@[i], rv[i]));
                }
                assert(self.storage().service_answer(service@, n as nat, rv) && is_response(out@, rv));
                Ok(ToolOutput::Results(out))
            },
        }
    }
}

/// What a JSON-RPC request says, as far as routing needs it: whether it
/// has an id, its method where that is a string, and for `tools/call` the
/// tool name where that is a string.
#[derive(Debug)]
pub struct RpcRequest {
    pub has_id: bool,
    pub method: Option<String>,
    pub tool_name: Option<String>,
}

/// How a JSON-RPC request is answered.
#[derive(Debug, PartialEq, Eq)]
pub enum RpcPlan {
    /// A notification (no id): no reply.
    NoReply,
    /// Reply with the protocol version, capabilities and server info.
    Initialize,
    /// Reply with the tool list.
    ListTools,
    /// Run the named tool and reply with its result (or an
    /// `INVALID_PARAMS` error with the failure's message).
    CallTool(String),
    /// Reply with a null result.
    Shutdown,
    /// Reply with this JSON-RPC error.
    Fail { code: i64, message: String },
}

/// The answer to a request, by its method.
pub open spec fn plan_spec(req: RpcRequest, plan: RpcPlan) -> bool {
    if !req.has_id {
        plan == RpcPlan::NoReply
    } else {
        match req.method {
            None => plan matches RpcPlan::Fail { code, message } && code == INVALID_REQUEST
                && message@ == "JSON-RPC request missing method"@,
            Some(m) => if m@ == "initialize"@ {
                plan == RpcPlan::Initialize
            } else if m@ == "tools/list"@ {
                plan == RpcPlan::ListTools
            } else if m@ == "tools/call"@ {
                match req.tool_name {
                    Some(n) => plan matches RpcPlan::CallTool(p) && p@ == n@,
                    None => plan matches RpcPlan::Fail { code, message } && code == INVALID_PARAMS
                        && message@ == "tools/call missing tool name"@,
                }
            } else if m@ == "shutdown"@ {
                plan == RpcPlan::Shutdown
            } else {
                plan matches RpcPlan::Fail { code, message } && code == METHOD_NOT_FOUND
                    && message@ == "method not found: "@ + m@
            },
        }
    }
}

/// Decides how a JSON-RPC request is answered: no reply without an id;
/// `initialize`, `tools/list`, `tools/call` (which needs a tool name) and
/// `shutdown` are served; anything else is a JSON-RPC error.
pub fn plan_json_rpc(request: RpcRequest) -> (r: RpcPlan)
    ensures
        plan_spec(request, r),
{
    if !request.has_id {
        return RpcPlan::NoReply;
    }
    match request.method {
        None => RpcPlan::Fail {
            code: INVALID_REQUEST,
            message: String::from_str("JSON-RPC request missing method"),
        },
        Some(m) => {
            if str_equal(m.as_str(), "initialize") {
                RpcPlan::Initialize
            } else if str_equal(m.as_str(), "tools/list") {
                RpcPlan::ListTools
            } else if str_equal(m.as_str(), "tools/call") {
                match request.tool_name {
                    Some(n) => RpcPlan::CallTool(n),
                    None => RpcPlan::Fail {
                        code: INVALID_PARAMS,
                        message: String::from_str("tools/call missing tool name"),
                    },
                }
            } else if str_equal(m.as_str(), "shutdown") {
                RpcPlan::Shutdown
            } else {
                let mut message = String::from_str("method not found: ");
                message.append(m.as_str());
                RpcPlan::Fail { code: METHOD_NOT_FOUND, message }
            }
        },
    }
}

/// The JSON-RPC error code and message for a failed tool call.
pub fn tool_failure(e: &CtxError) -> (r: (i64, String))
    ensures
        r.0 == INVALID_PARAMS,
        r.1@ == error_text(*e),
{
    (INVALID_PARAMS, e.message())
}

} // verus!
