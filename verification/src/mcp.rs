//! The MCP stdio bridge: which JSON-RPC methods are answered, the protocol
//! version agreed on, the tools offered, and how a tool call becomes a
//! request to the local control API.

use vstd::prelude::*;
use crate::settings::{fps_in_range, is_valid_fps, DEFAULT_FPS};
use crate::text::{spec_strip_prefix, starts_with, str_eq};

verus! {

/// Whether the command line asks for the MCP stdio mode: some argument is
/// exactly "--mcp".
pub fn wants_mcp_mode(args: &[String]) -> (r: bool)
    ensures
        r == exists|i: int| 0 <= i < args@.len() && #[trigger] args@[i]@ == "--mcp"@,
{
    let n = args.len();
    let mut i: usize = 0;
    while i < n
        invariant
            n == args@.len(),
            i <= n,
            forall|j: int| 0 <= j < i ==> #[trigger] args@[j]@ != "--mcp"@,
        decreases n - i,
    {
        if str_eq(args[i].as_str(), "--mcp") {
            assert(args@[i as int]@ == "--mcp"@);
            return true;
        }
        i = i + 1;
    }
    false
}

/// The protocol version offered where the client asks for none, or for
/// one this server does not speak.
pub open spec fn fallback_protocol_version() -> Seq<char> {
    "2024-11-05"@
}

/// The MCP protocol versions this server speaks.
pub open spec fn is_supported_protocol_version(v: Seq<char>) -> bool {
    v == "2024-11-05"@ || v == "2025-03-26"@ || v == "2025-06-18"@ || v == "2025-11-25"@
}

/// The version answered to `initialize`: the requested one where it is
/// supported, else "2024-11-05".
pub open spec fn spec_protocol_version(requested: Option<Seq<char>>) -> Seq<char> {
    match requested {
        Some(v) => if is_supported_protocol_version(v) {
            v
        } else {
            fallback_protocol_version()
        },
        None => fallback_protocol_version(),
    }
}

/// The protocol version to answer a client that asked for `requested`.
pub fn negotiate_protocol_version(requested: Option<&str>) -> (r: String)
    ensures
        r@ == spec_protocol_version(match requested {
            Some(v) => Some(v@),
            None => None,
        }),
{
    match requested {
        Some(v) => {
            if str_eq(v, "2024-11-05") || str_eq(v, "2025-03-26") || str_eq(v, "2025-06-18")
                || str_eq(v, "2025-11-25") {
                v.to_owned()
            } else {
                "2024-11-05".to_owned()
            }
        },
        None => "2024-11-05".to_owned(),
    }
}

/// The answered protocol version is always one this server speaks.
pub proof fn lemma_negotiated_version_is_supported(requested: Option<Seq<char>>)
    ensures
        is_supported_protocol_version(spec_protocol_version(requested)),
{
}

/// How a JSON-RPC method is handled.
#[derive(Clone, Copy, Debug, PartialEq, Eq, Structural)]
pub enum McpMethod {
    /// A notification: nothing is answered.
    Notification,
    Initialize,
    Ping,
    ToolsList,
    ToolsCall,
    /// Answered with error -32601 where the message has an id.
    Unknown,
}

/// The handling of `method`: notifications first, then the four methods
/// by name.
pub open spec fn spec_classify_method(method: Seq<char>) -> McpMethod {
    if spec_strip_prefix(method, "notifications/"@) is Some {
        McpMethod::Notification
    } else if method == "initialize"@ {
        McpMethod::Initialize
    } else if method == "ping"@ {
        McpMethod::Ping
    } else if method == "tools/list"@ {
        McpMethod::ToolsList
    } else if method == "tools/call"@ {
        McpMethod::ToolsCall
    } else {
        McpMethod::Unknown
    }
}

/// How the JSON-RPC method `method` is handled.
pub fn classify_method(method: &str) -> (r: McpMethod)
    ensures
        r == spec_classify_method(method@),
{
    if starts_with(method, "notifications/") {
        McpMethod::Notification
    } else if str_eq(method, "initialize") {
        McpMethod::Initialize
    } else if str_eq(method, "ping") {
        McpMethod::Ping
    } else if str_eq(method, "tools/list") {
        McpMethod::ToolsList
    } else if str_eq(method, "tools/call") {
        McpMethod::ToolsCall
    } else {
        McpMethod::Unknown
    }
}

/// The JSON-RPC error code for a method that is not known.
pub const METHOD_NOT_FOUND: i32 = -32601;

/// The error message for an unknown method.
pub fn unknown_method_message(method: &str) -> (r: String)
    ensures
        r@ == "Unknown method: "@ + method@,
{
    let mut s = "Unknown method: ".to_owned();
    s.append(method);
    s
}

/// The arguments a tool takes.
#[derive(Clone, Copy, Debug, PartialEq, Eq, Structural)]
pub enum ToolInput {
    /// No arguments.
    Nothing,
    /// A required `hwnd`: an integer or null.
    WindowHandle,
    /// An optional `fps` from 10 to 60, 30 by default.
    FrameRate,
}

/// A tool offered to MCP clients.
#[derive(Clone, Copy, Debug, PartialEq, Eq)]
pub struct McpTool {
    pub name: &'static str,
    pub description: &'static str,
    pub input: ToolInput,
}

/// The names of the offered tools, in the order they are listed.
pub open spec fn spec_tool_names() -> Seq<Seq<char>> {
    seq![
        "get_status"@,
        "list_windows"@,
        "select_window"@,
        "take_screenshot"@,
        "start_recording"@,
        "stop_recording"@,
    ]
}

/// The descriptions of the offered tools, in the order they are listed.
pub open spec fn spec_tool_descriptions() -> Seq<Seq<char>> {
    seq![
        "Read the local screen recorder status and output directory."@,
        "List visible app windows that can be selected for capture."@,
        "Lock capture to a window handle returned by list_windows; pass null to capture the whole desktop."@,
        "Capture the selected app window, or the whole Windows desktop, to a PNG file."@,
        "Start recording the selected app window, or whole desktop, to an MP4 file."@,
        "Stop desktop recording and finalize the MP4 file."@,
    ]
}

/// The tools offered to MCP clients.
pub fn mcp_tools() -> (r: Vec<McpTool>)
    ensures
        r@.len() == spec_tool_names().len(),
        forall|i: int| 0 <= i < r@.len() ==> (#[trigger] r@[i]).name@ == spec_tool_names()[i],
        forall|i: int|
            0 <= i < r@.len() ==> (#[trigger] r@[i]).description@ == spec_tool_descriptions()[i],
        r@[2].input == ToolInput::WindowHandle,
        r@[4].input == ToolInput::FrameRate,
        forall|i: int| 0 <= i < r@.len() && i != 2 && i != 4 ==> (#[trigger] r@[i]).input
            == ToolInput::Nothing,
{
    let mut tools: Vec<McpTool> = Vec::new();
    tools.push(
        McpTool {
            name: "get_status",
            description: "Read the local screen recorder status and output directory.",
            input: ToolInput::Nothing,
        },
    );
    tools.push(
        McpTool {
            name: "list_windows",
            description: "List visible app windows that can be selected for capture.",
            input: ToolInput::Nothing,
        },
    );
    tools.push(
        McpTool {
            name: "select_window",
            description: "Lock capture to a window handle returned by list_windows; pass null to capture the whole desktop.",
            input: ToolInput::WindowHandle,
        },
    );
    tools.push(
        McpTool {
            name: "take_screenshot",
            description: "Capture the selected app window, or the whole Windows desktop, to a PNG file.",
            input: ToolInput::Nothing,
        },
    );
    tools.push(
        McpTool {
            name: "start_recording",
            description: "Start recording the selected app window, or whole desktop, to an MP4 file.",
            input: ToolInput::FrameRate,
        },
    );
    tools.push(
        McpTool {
            name: "stop_recording",
            description: "Stop desktop recording and finalize the MP4 file.",
            input: ToolInput::Nothing,
        },
    );
    tools
}

/// The `hwnd` argument of a tool call as given: null or absent, an
/// unsigned integer, or anything else.
#[derive(Clone, Copy, Debug, PartialEq, Eq, Structural)]
pub enum HwndArgument {
    Null,
    Integer(u64),
    Other,
}

/// The HTTP method of a request to the control API.
#[derive(Clone, Copy, Debug, PartialEq, Eq, Structural)]
pub enum HttpMethod {
    Get,
    Post,
}

/// The JSON body of a request to the control API.
#[derive(Clone, Copy, Debug, PartialEq, Eq, Structural)]
pub enum ToolBody {
    /// No body.
    Empty,
    /// `{"hwnd": n}`, or `{"hwnd": null}` for the whole desktop.
    Target(Option<u64>),
    /// `{"fps": n}`.
    Fps(u64),
}

/// A request to the control API that a tool call becomes.
#[derive(Debug, PartialEq, Eq)]
pub struct ToolRequest {
    pub method: HttpMethod,
    pub url: String,
    pub body: ToolBody,
}

/// The URL of `path` on the control API.
pub open spec fn api_url(path: Seq<char>) -> Seq<char> {
    "http://127.0.0.1:17321"@ + path
}

/// The request a call of tool `name` becomes, or why it is refused.
pub open spec fn spec_plan_tool_call(
    name: Option<Seq<char>>,
    hwnd: HwndArgument,
    fps: Option<u64>,
) -> Result<(HttpMethod, Seq<char>, ToolBody), Seq<char>> {
    match name {
        None => Err("tool name is required"@),
        Some(n) => if n == "get_status"@ {
            Ok((HttpMethod::Get, api_url("/api/v1/status"@), ToolBody::Empty))
        } else if n == "list_windows"@ {
            Ok((HttpMethod::Get, api_url("/api/v1/windows"@), ToolBody::Empty))
        } else if n == "select_window"@ {
            match hwnd {
                HwndArgument::Null => Ok(
                    (HttpMethod::Post, api_url("/api/v1/target"@), ToolBody::Target(None)),
                ),
                HwndArgument::Integer(v) => Ok(
                    (HttpMethod::Post, api_url("/api/v1/target"@), ToolBody::Target(Some(v))),
                ),
                HwndArgument::Other => Err(
                    "hwnd must be an integer returned by list_windows, or null"@,
                ),
            }
        } else if n == "take_screenshot"@ {
            Ok((HttpMethod::Post, api_url("/api/v1/screenshot"@), ToolBody::Empty))
        } else if n == "start_recording"@ {
            let f: u64 = match fps {
                Some(f) => f,
                None => DEFAULT_FPS as u64,
            };
            if fps_in_range(f as int) {
                Ok((HttpMethod::Post, api_url("/api/v1/recording/start"@), ToolBody::Fps(f)))
            } else {
                Err("fps must be between 10 and 60"@)
            }
        } else if n == "stop_recording"@ {
            Ok((HttpMethod::Post, api_url("/api/v1/recording/stop"@), ToolBody::Empty))
        } else {
            Err("unknown tool: "@ + n)
        },
    }
}

fn tool_request(method: HttpMethod, path: &str, body: ToolBody) -> (r: ToolRequest)
    ensures
        r.method == method,
        r.url@ == api_url(path@),
        r.body == body,
{
    let mut url = "http://127.0.0.1:17321".to_owned();
    url.append(path);
    ToolRequest { method, url, body }
}

/// Whether a planned tool request is the one `spec` describes.
pub open spec fn plan_matches(
    r: Result<ToolRequest, String>,
    spec: Result<(HttpMethod, Seq<char>, ToolBody), Seq<char>>,
) -> bool {
    match spec {
        Ok((m, u, b)) => r is Ok && r->Ok_0.method == m && r->Ok_0.url@ == u && r->Ok_0.body == b,
        Err(e) => r is Err && r->Err_0@ == e,
    }
}

/// Turns a call of tool `name` with the given `hwnd` and `fps` arguments
/// (`fps` as an unsigned integer, `None` where absent or not one) into a
/// request to the control API.
pub fn plan_tool_call(name: Option<&str>, hwnd: HwndArgument, fps: Option<u64>) -> (r: Result<
    ToolRequest,
    String,
>)
    ensures
        plan_matches(
            r,
            spec_plan_tool_call(
                match name {
                    Some(n) => Some(n@),
                    None => None,
                },
                hwnd,
                fps,
            ),
        ),
{
    let n = match name {
        Some(n) => n,
        None => {
            return Err("tool name is required".to_owned());
        },
    };
    if str_eq(n, "get_status") {
        Ok(tool_request(HttpMethod::Get, "/api/v1/status", ToolBody::Empty))
    } else if str_eq(n, "list_windows") {
        Ok(tool_request(HttpMethod::Get, "/api/v1/windows", ToolBody::Empty))
    } else if str_eq(n, "select_window") {
        match hwnd {
            HwndArgument::Null => Ok(
                tool_request(HttpMethod::Post, "/api/v1/target", ToolBody::Target(None)),
            ),
            HwndArgument::Integer(v) => Ok(
                tool_request(HttpMethod::Post, "/api/v1/target", ToolBody::Target(Some(v))),
            ),
            HwndArgument::Other => Err(
                "hwnd must be an integer returned by list_windows, or null".to_owned(),
            ),
        }
    } else if str_eq(n, "take_screenshot") {
        Ok(tool_request(HttpMethod::Post, "/api/v1/screenshot", ToolBody::Empty))
    } else if str_eq(n, "start_recording") {
        let f: u64 = match fps {
            Some(f) => f,
            None => DEFAULT_FPS as u64,
        };
        if !is_valid_fps(f) {
            return Err("fps must be between 10 and 60".to_owned());
        }
        Ok(tool_request(HttpMethod::Post, "/api/v1/recording/start", ToolBody::Fps(f)))
    } else if str_eq(n, "stop_recording") {
        Ok(tool_request(HttpMethod::Post, "/api/v1/recording/stop", ToolBody::Empty))
    } else {
        let mut message = "unknown tool: ".to_owned();
        message.append(n);
        Err(message)
    }
}

/// Every offered tool can be called without arguments.
pub proof fn lemma_offered_tools_are_callable(i: int)
    requires
        0 <= i < spec_tool_names().len(),
    ensures
        spec_plan_tool_call(Some(spec_tool_names()[i]), HwndArgument::Null, None) is Ok,
{
    reveal_strlit("get_status");
    reveal_strlit("list_windows");
    reveal_strlit("select_window");
    reveal_strlit("take_screenshot");
    reveal_strlit("start_recording");
    reveal_strlit("stop_recording");
}

/// A name that is not among the offered tools is refused as unknown.
pub proof fn lemma_other_names_are_unknown(name: Seq<char>)
    requires
        forall|i: int| 0 <= i < spec_tool_names().len() ==> name != #[trigger] spec_tool_names()[i],
    ensures
        forall|hwnd: HwndArgument, fps: Option<u64>|
            spec_plan_tool_call(Some(name), hwnd, fps) == Err::<
                (HttpMethod, Seq<char>, ToolBody),
                Seq<char>,
            >("unknown tool: "@ + name),
{
    assert(name != spec_tool_names()[0]);
    assert(name != spec_tool_names()[1]);
    assert(name != spec_tool_names()[2]);
    assert(name != spec_tool_names()[3]);
    assert(name != spec_tool_names()[4]);
    assert(name != spec_tool_names()[5]);
}

/// The text and error flag of a tool call's result.
#[derive(Debug, PartialEq, Eq)]
pub struct ToolResult {
    pub text: String,
    pub is_error: bool,
}

/// A tool result that reports an error with `message`.
pub fn mcp_error(message: &str) -> (r: ToolResult)
    ensures
        r.text@ == message@,
        r.is_error,
{
    ToolResult { text: message.to_owned(), is_error: true }
}

/// Whether an HTTP status reports success (200 to 299).
pub open spec fn is_success_status(status: u16) -> bool {
    200 <= status <= 299
}

/// The result of a tool call that the control API answered with `status`;
/// `body` is the response text, or the error that reading it gave.
pub fn tool_response(status: u16, body: Result<String, String>) -> (r: ToolResult)
    ensures
        r.is_error == !is_success_status(status),
        match body {
            Ok(text) => r.text == text,
            Err(e) => r.text@ == "HTTP read error: "@ + e@,
        },
{
    let is_error = !(200 <= status && status <= 299);
    let text = match body {
        Ok(text) => text,
        Err(e) => {
            let mut s = "HTTP read error: ".to_owned();
            s.append(e.as_str());
            s
        },
    };
    ToolResult { text, is_error }
}

/// The result of a tool call that could not reach the control API.
pub fn tool_unavailable(error: &str) -> (r: ToolResult)
    ensures
        r.is_error,
        r.text@ == "RecordScreen is unavailable at 127.0.0.1:17321. Start the desktop app first. ("@
            + error@ + ")"@,
{
    let mut s = "RecordScreen is unavailable at 127.0.0.1:17321. Start the desktop app first. (".to_owned();
    s.append(error);
    s.append(")");
    ToolResult { text: s, is_error: true }
}

/// Names what reading `line` as JSON (`serde_json::from_str`) and taking
/// the string at the JSON pointer `pointer` gives: `None` where the line is
/// not JSON, nothing is at the pointer, or what is there is not a string.
pub uninterp spec fn spec_json_string_at(line: Seq<char>, pointer: Seq<char>) -> Option<Seq<char>>;

/// Calls `serde_json::from_str` on `line` and takes the string at
/// `pointer`; the result is `spec_json_string_at` of the arguments.
#[verifier::external_body]
fn json_string_at(line: &str, pointer: &str) -> (r: Option<String>)
    ensures
        match r {
            Some(s) => spec_json_string_at(line@, pointer@) == Some(s@),
            None => spec_json_string_at(line@, pointer@) is None,
        },
{
    serde_json::from_str::<serde_json::Value>(line).ok()?.pointer(pointer)?.as_str().map(
        str::to_owned,
    )
}

/// Names what reading `line` as JSON (`serde_json::from_str`) and taking
/// the unsigned integer at the JSON pointer `pointer` gives: `None` where
/// the line is not JSON, nothing is at the pointer, or what is there is
/// not an integer that fits in a `u64`.
pub uninterp spec fn spec_json_u64_at(line: Seq<char>, pointer: Seq<char>) -> Option<u64>;

/// Calls `serde_json::from_str` on `line` and takes the unsigned integer at
/// `pointer`; the result is `spec_json_u64_at` of the arguments.
#[verifier::external_body]
fn json_u64_at(line: &str, pointer: &str) -> (r: Option<u64>)
    ensures
        r == spec_json_u64_at(line@, pointer@),
{
    serde_json::from_str::<serde_json::Value>(line).ok()?.pointer(pointer)?.as_u64()
}

/// Names whether, reading `line` as JSON (`serde_json::from_str`), the
/// JSON pointer `pointer` leads to `null` or to nothing (also where the
/// line is not JSON).
pub uninterp spec fn spec_json_null_or_absent(line: Seq<char>, pointer: Seq<char>) -> bool;

/// Calls `serde_json::from_str` on `line` and tells whether `pointer` leads
/// to `null` or to nothing; the result is `spec_json_null_or_absent` of the
/// arguments.
#[verifier::external_body]
fn json_null_or_absent(line: &str, pointer: &str) -> (r: bool)
    ensures
        r == spec_json_null_or_absent(line@, pointer@),
{
    match serde_json::from_str::<serde_json::Value>(line) {
        Ok(v) => v.pointer(pointer).map_or(true, serde_json::Value::is_null),
        Err(_) => true,
    }
}

/// Names what reading `line` as JSON (`serde_json::from_str`) and writing
/// back the value at the JSON pointer `pointer` as compact JSON text gives:
/// `None` where the line is not JSON or nothing is at the pointer.
pub uninterp spec fn spec_json_text_at(line: Seq<char>, pointer: Seq<char>) -> Option<Seq<char>>;

/// Calls `serde_json::from_str` on `line` and writes back the value at
/// `pointer` as JSON text; the result is `spec_json_text_at` of the
/// arguments.
#[verifier::external_body]
fn json_text_at(line: &str, pointer: &str) -> (r: Option<String>)
    ensures
        match r {
            Some(s) => spec_json_text_at(line@, pointer@) == Some(s@),
            None => spec_json_text_at(line@, pointer@) is None,
        },
{
    serde_json::from_str::<serde_json::Value>(line).ok()?.pointer(pointer).map(|v| v.to_string())
}

/// The `hwnd` argument of a tools/call line, as given.
pub open spec fn spec_hwnd_argument(line: Seq<char>) -> HwndArgument {
    if spec_json_null_or_absent(line, "/params/arguments/hwnd"@) {
        HwndArgument::Null
    } else {
        match spec_json_u64_at(line, "/params/arguments/hwnd"@) {
            Some(v) => HwndArgument::Integer(v),
            None => HwndArgument::Other,
        }
    }
}

/// What is answered to a method that needs no outside work.
#[derive(Debug, PartialEq, Eq)]
pub enum McpReply {
    /// The `initialize` result with the agreed protocol version.
    Initialize { protocol_version: String },
    /// The empty `ping` result.
    Pong,
    /// The `tools/list` result: the tools of `mcp_tools`.
    Tools,
}

/// What to do with one line read from standard input. Ids are JSON text.
#[derive(Debug, PartialEq, Eq)]
pub enum McpLineAction {
    /// Nothing is answered.
    Skip,
    /// Answer request `id` with `reply`.
    Reply { id: String, reply: McpReply },
    /// Run the planned tool call (or report why it is refused) and answer
    /// request `id` with its result, where there is an id.
    CallTool { id: Option<String>, plan: Result<ToolRequest, String> },
    /// Answer request `id` with a JSON-RPC error.
    Error { id: String, code: i32, message: String },
}

/// The reply for a request method that needs no outside work.
pub open spec fn reply_matches(r: McpLineAction, id: Seq<char>, reply: McpReply) -> bool {
    r matches McpLineAction::Reply { id: rid, reply: rr } && rid@ == id && rr == reply
}

/// The action for one line: lines that are not JSON or have no string
/// `method`, and notifications, are skipped; `initialize`, `ping` and
/// `tools/list` are answered only where the line has an `id`; `tools/call`
/// is always run, with the plan of `spec_plan_tool_call`; an unknown method
/// with an `id` gets error -32601.
pub open spec fn spec_line_action_ok(line: Seq<char>, r: McpLineAction) -> bool {
    let id = spec_json_text_at(line, "/id"@);
    match spec_json_string_at(line, "/method"@) {
        None => r is Skip,
        Some(m) => match spec_classify_method(m) {
            McpMethod::Notification => r is Skip,
            McpMethod::Initialize => match id {
                None => r is Skip,
                Some(i) => r matches McpLineAction::Reply {
                    id: rid,
                    reply: McpReply::Initialize { protocol_version },
                } && rid@ == i && protocol_version@ == spec_protocol_version(
                    spec_json_string_at(line, "/params/protocolVersion"@),
                ),
            },
            McpMethod::Ping => match id {
                None => r is Skip,
                Some(i) => reply_matches(r, i, McpReply::Pong),
            },
            McpMethod::ToolsList => match id {
                None => r is Skip,
                Some(i) => reply_matches(r, i, McpReply::Tools),
            },
            McpMethod::ToolsCall => r matches McpLineAction::CallTool { id: rid, plan } && (match id {
                None => rid is None,
                Some(i) => rid is Some && rid->0@ == i,
            }) && plan_matches(
                plan,
                spec_plan_tool_call(
                    spec_json_string_at(line, "/params/name"@),
                    spec_hwnd_argument(line),
                    spec_json_u64_at(line, "/params/arguments/fps"@),
                ),
            ),
            McpMethod::Unknown => match id {
                None => r is Skip,
                Some(i) => r matches McpLineAction::Error { id: rid, code, message } && rid@ == i
                    && code == METHOD_NOT_FOUND && message@ == "Unknown method: "@ + m,
            },
        },
    }
}

/// Decides what to do with one line read from standard input.
pub fn mcp_line_action(line: &str) -> (r: McpLineAction)
    ensures
        spec_line_action_ok(line@, r),
{
    let method = match json_string_at(line, "/method") {
        Some(m) => m,
        None => {
            return McpLineAction::Skip;
        },
    };
    let id = json_text_at(line, "/id");
    match classify_method(method.as_str()) {
        McpMethod::Notification => McpLineAction::Skip,
        McpMethod::Initialize => match id {
            None => McpLineAction::Skip,
            Some(id) => {
                let requested = json_string_at(line, "/params/protocolVersion");
                let protocol_version = match &requested {
                    Some(v) => negotiate_protocol_version(Some(v.as_str())),
                    None => negotiate_protocol_version(None),
                };
                McpLineAction::Reply { id, reply: McpReply::Initialize { protocol_version } }
            },
        },
        McpMethod::Ping => match id {
            None => McpLineAction::Skip,
            Some(id) => McpLineAction::Reply { id, reply: McpReply::Pong },
        },
        McpMethod::ToolsList => match id {
            None => McpLineAction::Skip,
            Some(id) => McpLineAction::Reply { id, reply: McpReply::Tools },
        },
        McpMethod::ToolsCall => {
            let name = json_string_at(line, "/params/name");
            let hwnd = if json_null_or_absent(line, "/params/arguments/hwnd") {
                HwndArgument::Null
            } else {
                match json_u64_at(line, "/params/arguments/hwnd") {
                    Some(v) => HwndArgument::Integer(v),
                    None => HwndArgument::Other,
                }
            };
            let fps = json_u64_at(line, "/params/arguments/fps");
            let plan = match &name {
                Some(n) => plan_tool_call(Some(n.as_str()), hwnd, fps),
                None => plan_tool_call(None, hwnd, fps),
            };
            McpLineAction::CallTool { id, plan }
        },
        McpMethod::Unknown => match id {
            None => McpLineAction::Skip,
            Some(id) => McpLineAction::Error {
                id,
                code: METHOD_NOT_FOUND,
                message: unknown_method_message(method.as_str()),
            },
        },
    }
}

} // verus!
