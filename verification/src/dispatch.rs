use vstd::prelude::*;
use crate::encode::{spec_uri_encoded, uri_encode};
use crate::json::{JsonValue, json_doc, json_get, json_get_exec, parse_json, render, render_json};
use crate::session::SessionState;
use crate::text::{append_quoted, spec_quoted};
use crate::{Effect, is_alert, is_console};

verus! {

pub enum Method {
    Post,
    Put,
}

/// One namespace-scoped HTTP request, ready to be sent by the transport.
pub struct HttpRequest {
    pub method: Method,
    pub url: String,
    pub headers: Vec<(String, String)>,
    pub body: String,
}

/// One user action, to be turned into a namespace-scoped HTTP request.
pub enum OutboundActionRequest {
    EvaluateExpression { expr: String },
    InvokeAction {
        action: String,
        arg_type: String,
        arg_value: String,
        env_name: String,
        env_value: String,
    },
}

/// The endpoint both request shapes go to.
pub open spec fn app_endpoint(base: Seq<char>, ns: Seq<char>) -> Seq<char> {
    base + "/app/"@ + ns
}

/// The form body of an expression evaluation.
pub open spec fn evaluate_body(expr: Seq<char>) -> Seq<char> {
    "exp="@ + spec_uri_encoded(expr)
}

/// The JSON body of an action invocation, canonical member order.
pub open spec fn action_body(
    action: Seq<char>,
    arg_type: Seq<char>,
    arg_value: Seq<char>,
    env_name: Seq<char>,
    env_value: Seq<char>,
) -> Seq<char> {
    "{\"action\":"@ + spec_quoted(action) + ",\"args\":{\"arg\":{\"type\":"@ + spec_quoted(arg_type)
        + ",\"value\":"@ + spec_quoted(arg_value) + "}},\"env\":{"@ + spec_quoted(env_name)
        + seq![':'] + spec_quoted(env_value) + "}}"@
}

pub open spec fn header_is(h: (String, String), name: Seq<char>, value: Seq<char>) -> bool {
    h.0@ == name && h.1@ == value
}

/// The headers of an expression evaluation: a form content type, and the
/// XMLHttpRequest marker.
pub open spec fn evaluate_headers(hs: Seq<(String, String)>) -> bool {
    &&& hs.len() == 2
    &&& header_is(hs[0], "Content-Type"@, "application/x-www-form-urlencoded; charset=UTF-8"@)
    &&& header_is(hs[1], "X-Requested-With"@, "XMLHttpRequest"@)
}

/// The headers of an action invocation: a JSON content type, and the
/// XMLHttpRequest marker.
pub open spec fn action_headers(hs: Seq<(String, String)>) -> bool {
    &&& hs.len() == 2
    &&& header_is(hs[0], "Content-Type"@, "application/json"@)
    &&& header_is(hs[1], "X-Requested-With"@, "XMLHttpRequest"@)
}

/// What the one request built for `EvaluateExpression` is.
pub open spec fn is_evaluate_request(
    q: HttpRequest,
    base: Seq<char>,
    ns: Seq<char>,
    expr: Seq<char>,
) -> bool {
    &&& q.method is Post
    &&& q.url@ == app_endpoint(base, ns)
    &&& evaluate_headers(q.headers@)
    &&& q.body@ == evaluate_body(expr)
}

/// What the one request built for `InvokeAction` is.
pub open spec fn is_action_request(
    q: HttpRequest,
    base: Seq<char>,
    ns: Seq<char>,
    action: Seq<char>,
    arg_type: Seq<char>,
    arg_value: Seq<char>,
    env_name: Seq<char>,
    env_value: Seq<char>,
) -> bool {
    &&& q.method is Put
    &&& q.url@ == app_endpoint(base, ns)
    &&& action_headers(q.headers@)
    &&& q.body@ == action_body(action, arg_type, arg_value, env_name, env_value)
}

fn endpoint_url(base_url: &str, namespace: &str) -> (r: String)
    ensures
        r@ == app_endpoint(base_url@, namespace@),
{
    let r = String::from_str(base_url).concat("/app/").concat(namespace);
    proof {
        assert(r@ =~= app_endpoint(base_url@, namespace@));
    }
    r
}

fn header(name: &str, value: &str) -> (h: (String, String))
    ensures
        header_is(h, name@, value@),
{
    (String::from_str(name), String::from_str(value))
}

/// Build the POST that evaluates an expression in the namespace.
pub fn evaluate_request(base_url: &str, namespace: &str, expr: &str) -> (q: HttpRequest)
    ensures
        is_evaluate_request(q, base_url@, namespace@, expr@),
{
    let mut headers: Vec<(String, String)> = Vec::new();
    headers.push(header("Content-Type", "application/x-www-form-urlencoded; charset=UTF-8"));
    headers.push(header("X-Requested-With", "XMLHttpRequest"));
    let mut body = String::from_str("exp=");
    let encoded = uri_encode(expr);
    body.append(encoded.as_str());
    HttpRequest { method: Method::Post, url: endpoint_url(base_url, namespace), headers, body }
}

/// Build the PUT that invokes an action in the namespace.
pub fn action_request(
    base_url: &str,
    namespace: &str,
    action: &str,
    arg_type: &str,
    arg_value: &str,
    env_name: &str,
    env_value: &str,
) -> (q: HttpRequest)
    ensures
        is_action_request(
            q,
            base_url@,
            namespace@,
            action@,
            arg_type@,
            arg_value@,
            env_name@,
            env_value@,
        ),
{
    let mut headers: Vec<(String, String)> = Vec::new();
    headers.push(header("Content-Type", "application/json"));
    headers.push(header("X-Requested-With", "XMLHttpRequest"));
    let mut body = String::from_str("{\"action\":");
    append_quoted(&mut body, action);
    body.append(",\"args\":{\"arg\":{\"type\":");
    append_quoted(&mut body, arg_type);
    body.append(",\"value\":");
    append_quoted(&mut body, arg_value);
    body.append("}},\"env\":{");
    append_quoted(&mut body, env_name);
    body.append(":");
    append_quoted(&mut body, env_value);
    body.append("}}");
    proof {
        reveal_strlit(":");
        assert(":"@ =~= seq![':']);
        assert(body@ =~= action_body(action@, arg_type@, arg_value@, env_name@, env_value@));
    }
    HttpRequest { method: Method::Put, url: endpoint_url(base_url, namespace), headers, body }
}

/// The alert text for an application error: the error member's string
/// content, or a fixed fallback where it is no string.
pub open spec fn error_alert_text(e: JsonValue) -> Seq<char> {
    match e {
        JsonValue::Str(s) => s@,
        _ => "Unknown error"@,
    }
}

/// Interpret a response body. A `result` member surfaces one success line on
/// the console, under the given label; otherwise an `error` member raises one
/// blocking alert; otherwise one unknown-format warning goes to the console.
/// A body that is not JSON is a transport failure: one console notice, never
/// an alert.
pub fn response_effects(body: &str, success_label: &str) -> (efx: Vec<Effect>)
    ensures
        efx@.len() == 1,
        json_doc(body@) is None ==> is_console(efx@[0], "Failed to parse JSON response"@),
        json_doc(body@) matches Some(v) ==> {
            &&& json_get(v, "result"@) matches Some(rv) ==> is_console(
                efx@[0],
                success_label@ + render(rv),
            )
            &&& json_get(v, "result"@) is None ==> (json_get(v, "error"@) matches Some(ev)
                ==> is_alert(efx@[0], error_alert_text(ev)))
            &&& json_get(v, "result"@) is None && json_get(v, "error"@) is None ==> is_console(
                efx@[0],
                "Unknown response format"@,
            )
        },
{
    let mut efx: Vec<Effect> = Vec::new();
    match parse_json(body) {
        None => {
            efx.push(Effect::Console(String::from_str("Failed to parse JSON response")));
        },
        Some(v) => {
            match json_get_exec(&v, "result") {
                Some(rv) => {
                    let mut line = String::from_str(success_label);
                    let rendered = render_json(rv);
                    line.append(rendered.as_str());
                    efx.push(Effect::Console(line));
                },
                None => {
                    match json_get_exec(&v, "error") {
                        Some(ev) => {
                            match ev {
                                JsonValue::Str(s) => {
                                    efx.push(Effect::Alert(s.clone()));
                                },
                                _ => {
                                    efx.push(Effect::Alert(String::from_str("Unknown error")));
                                },
                            }
                        },
                        None => {
                            efx.push(
                                Effect::Console(String::from_str("Unknown response format")),
                            );
                        },
                    }
                },
            }
        },
    }
    efx
}

/// The one local notice when no namespace is set: no request leaves.
pub open spec fn is_no_namespace_notice(efx: Seq<Effect>) -> bool {
    efx.len() == 1 && is_console(efx[0], "Namespace not set."@)
}

/// Turn one user action into its request, or refuse it locally. Without a
/// previously established namespace nothing is sent: the operation aborts
/// with exactly one local notice. With one, exactly the one request of the
/// action's shape is produced, and one console line records the submission.
pub fn dispatch_action(s: &SessionState, base_url: &str, req: &OutboundActionRequest) -> (r: (
    Option<HttpRequest>,
    Vec<Effect>,
))
    ensures
        s.namespace is None ==> r.0 is None && is_no_namespace_notice(r.1@),
        s.namespace matches Some(ns) ==> {
            &&& r.1@.len() == 1
            &&& match *req {
                OutboundActionRequest::EvaluateExpression { expr } => {
                    &&& r.0 matches Some(q) && is_evaluate_request(q, base_url@, ns@, expr@)
                    &&& is_console(r.1@[0], "Sent: "@ + expr@)
                },
                OutboundActionRequest::InvokeAction {
                    action,
                    arg_type,
                    arg_value,
                    env_name,
                    env_value,
                } => {
                    &&& r.0 matches Some(q) && is_action_request(
                        q,
                        base_url@,
                        ns@,
                        action@,
                        arg_type@,
                        arg_value@,
                        env_name@,
                        env_value@,
                    )
                    &&& is_console(r.1@[0], "Action sent: "@ + action@)
                },
            }
        },
{
    let mut efx: Vec<Effect> = Vec::new();
    match &s.namespace {
        None => {
            efx.push(Effect::Console(String::from_str("Namespace not set.")));
            (None, efx)
        },
        Some(ns) => {
            match req {
                OutboundActionRequest::EvaluateExpression { expr } => {
                    let q = evaluate_request(base_url, ns.as_str(), expr.as_str());
                    let mut line = String::from_str("Sent: ");
                    line.append(expr.as_str());
                    efx.push(Effect::Console(line));
                    (Some(q), efx)
                },
                OutboundActionRequest::InvokeAction {
                    action,
                    arg_type,
                    arg_value,
                    env_name,
                    env_value,
                } => {
                    let q = action_request(
                        base_url,
                        ns.as_str(),
                        action.as_str(),
                        arg_type.as_str(),
                        arg_value.as_str(),
                        env_name.as_str(),
                        env_value.as_str(),
                    );
                    let mut line = String::from_str("Action sent: ");
                    line.append(action.as_str());
                    efx.push(Effect::Console(line));
                    (Some(q), efx)
                },
            }
        },
    }
}

} // verus!
