use napture_lua::elements::{element_action, handle_methods, lua_name, ElementAction, ElementKind, ElementOp};
use napture_lua::fetch::{
    fetch_reply, plan_fetch, FetchError, FetchOutcome, FetchParams, FetchPlan, FetchReply,
    HttpMethod, ResponseBody,
};
use napture_lua::printing::{print_output, PrintValue};
use napture_lua::problems::{severity_label_of, ProblemLog};
use napture_lua::script::script_result;
use napture_lua::tags::{get, LookupError, PageTag};
use napture_lua::text::{decimal, same_text, text_or_empty};

fn s(x: &str) -> String {
    x.to_string()
}

fn pair(k: &str, v: &str) -> Option<(String, String)> {
    Some((s(k), s(v)))
}

fn params(url: Option<&str>, method: Option<&str>, headers: Option<Vec<Option<(String, String)>>>, body: Option<&str>) -> FetchParams {
    FetchParams { url: url.map(s), method: method.map(s), headers, body: body.map(s) }
}

// ---- text ----

#[test]
fn decimal_of_integers() {
    assert_eq!(decimal(0), "0");
    assert_eq!(decimal(7), "7");
    assert_eq!(decimal(42), "42");
    assert_eq!(decimal(-42), "-42");
    assert_eq!(decimal(1000), "1000");
    assert_eq!(decimal(i64::MAX), "9223372036854775807");
    assert_eq!(decimal(i64::MIN), "-9223372036854775808");
}

#[test]
fn decimal_reads_back() {
    for i in [0i64, 1, -1, 9, 10, -10, 12345, -987654321, i64::MAX, i64::MIN] {
        assert_eq!(decimal(i).parse::<i64>().unwrap(), i);
    }
}

#[test]
fn text_or_empty_decodes_utf8() {
    assert_eq!(text_or_empty("héllo".as_bytes()), "héllo");
    assert_eq!(text_or_empty(&[0xff, 0x41]), "");
    assert_eq!(text_or_empty(&[]), "");
}

#[test]
fn same_text_compares() {
    assert!(same_text("GET", "GET"));
    assert!(!same_text("GET", "get"));
    assert!(!same_text("", "a"));
}

// ---- printing ----

#[test]
fn print_concatenates_values() {
    let values = vec![
        PrintValue::Text(b"count: ".to_vec()),
        PrintValue::Integer(-3),
        PrintValue::Text(b" ok=".to_vec()),
        PrintValue::Boolean(true),
        PrintValue::Boolean(false),
        PrintValue::Rendered(s("1.5")),
    ];
    assert_eq!(print_output(&values), "count: -3 ok=truefalse1.5");
}

#[test]
fn print_skips_invalid_utf8() {
    let values = vec![PrintValue::Text(vec![b'a', 0xc3]), PrintValue::Text(b"b".to_vec())];
    assert_eq!(print_output(&values), "b");
}

#[test]
fn print_nothing() {
    assert_eq!(print_output(&vec![]), "");
}

#[test]
fn print_is_piecewise() {
    let a = vec![PrintValue::Integer(12), PrintValue::Boolean(false)];
    let b = vec![PrintValue::Text(b"x".to_vec()), PrintValue::Integer(-5)];
    let both: Vec<PrintValue> = vec![
        PrintValue::Integer(12),
        PrintValue::Boolean(false),
        PrintValue::Text(b"x".to_vec()),
        PrintValue::Integer(-5),
    ];
    assert_eq!(print_output(&both), format!("{}{}", print_output(&a), print_output(&b)));
}

// ---- problems ----

#[test]
fn severity_labels() {
    assert_eq!(severity_label_of("error"), "ERROR");
    assert_eq!(severity_label_of("warning"), "WARNING");
    assert_eq!(severity_label_of("Error"), "UNKNOWN");
    assert_eq!(severity_label_of(""), "UNKNOWN");
}

#[test]
fn problem_log_keeps_history() {
    let mut log = ProblemLog::new();
    assert_eq!(log.text(), "");
    log.record("error", "first");
    log.record("warning", "second");
    log.record("other", "third");
    assert_eq!(log.text(), "ERROR: first\nWARNING: second\nUNKNOWN: third\n");
}

// ---- tags ----

fn tag(classes: &[&str]) -> PageTag {
    PageTag { classes: classes.iter().map(|c| s(c)).collect() }
}

#[test]
fn get_finds_first_tag_with_class() {
    let tags = vec![tag(&["a", "b"]), tag(&["c"]), tag(&["b", "c"])];
    assert_eq!(get(&tags, &s("b")), Ok(0));
    assert_eq!(get(&tags, &s("c")), Ok(1));
}

#[test]
fn get_reports_missing_tag() {
    let tags = vec![tag(&["a"]), tag(&[])];
    let r = get(&tags, &s("z"));
    assert_eq!(r, Err(LookupError::TagNotFound));
    assert_eq!(LookupError::TagNotFound.message(), "Tag not found");
    assert_eq!(get(&vec![], &s("a")), Err(LookupError::TagNotFound));
}

#[test]
fn get_matches_whole_class_names() {
    let tags = vec![tag(&["header-main"]), tag(&["header"])];
    assert_eq!(get(&tags, &s("header")), Ok(1));
}

// ---- elements ----

fn warning(kind: ElementKind, op: ElementOp) -> Option<String> {
    match element_action(kind, op) {
        ElementAction::Native => panic!("expected a decline"),
        ElementAction::Decline { warning, reply } => {
            assert_eq!(reply, "");
            warning
        }
    }
}

fn native(kind: ElementKind, op: ElementOp) -> bool {
    matches!(element_action(kind, op), ElementAction::Native)
}

#[test]
fn handle_method_names() {
    let names: Vec<&str> = handle_methods().into_iter().map(lua_name).collect();
    assert_eq!(
        names,
        vec!["get_content", "set_content", "on_click", "on_submit", "on_input", "get_href", "set_href"]
    );
}

#[test]
fn declined_reads_give_empty_text() {
    for (kind, op) in [
        (ElementKind::Text, ElementOp::GetHref),
        (ElementKind::Select, ElementOp::GetContent),
        (ElementKind::Select, ElementOp::GetHref),
        (ElementKind::Input, ElementOp::GetHref),
        (ElementKind::Image, ElementOp::GetHref),
        (ElementKind::Rule, ElementOp::GetContent),
    ] {
        match element_action(kind, op) {
            ElementAction::Decline { reply, .. } => assert_eq!(reply, ""),
            ElementAction::Native => panic!("expected a decline"),
        }
    }
}

#[test]
fn every_element_clicks() {
    for kind in [
        ElementKind::Text, ElementKind::Select, ElementKind::Link, ElementKind::Div,
        ElementKind::TextArea, ElementKind::Rule, ElementKind::Image, ElementKind::Input,
        ElementKind::Button,
    ] {
        assert!(native(kind, ElementOp::OnClick));
    }
}

#[test]
fn text_element_warnings() {
    assert!(native(ElementKind::Text, ElementOp::GetContent));
    assert!(native(ElementKind::Text, ElementOp::SetContent));
    assert_eq!(
        warning(ElementKind::Text, ElementOp::GetHref).unwrap(),
        "Most text-based components do not support the \"get_href\" method. Are you perhaps looking for the \"p\" tag?"
    );
    assert_eq!(
        warning(ElementKind::Text, ElementOp::SetHref).unwrap(),
        "Most text-based components do not support the \"set_href\" method. Are you perhaps looking for the \"p\" tag?"
    );
    assert_eq!(
        warning(ElementKind::Text, ElementOp::OnSubmit).unwrap(),
        "Text-based components do not support the \"submit\" event. Are you perhaps looking for the \"click\" event?"
    );
    assert_eq!(
        warning(ElementKind::Text, ElementOp::OnInput).unwrap(),
        "Text-based components do not support the \"input\" event."
    );
}

#[test]
fn select_element_warnings() {
    assert_eq!(warning(ElementKind::Select, ElementOp::GetContent), None);
    assert_eq!(
        warning(ElementKind::Select, ElementOp::GetHref).unwrap(),
        "\"select\" component does not support the \"get_href\" method."
    );
    assert_eq!(
        warning(ElementKind::Select, ElementOp::SetContent).unwrap(),
        "\"select\" component does not support the \"set_content\" method."
    );
    assert_eq!(
        warning(ElementKind::Select, ElementOp::SetHref).unwrap(),
        "\"select\" component does not support the \"set_href\" method."
    );
    assert_eq!(
        warning(ElementKind::Select, ElementOp::OnSubmit).unwrap(),
        "\"select\" component does not support the \"submit\" event."
    );
    assert_eq!(
        warning(ElementKind::Select, ElementOp::OnInput).unwrap(),
        "\"select\" component does not support the \"input\" event."
    );
}

#[test]
fn link_element() {
    for op in [ElementOp::GetContent, ElementOp::SetContent, ElementOp::GetHref, ElementOp::SetHref, ElementOp::OnClick] {
        assert!(native(ElementKind::Link, op));
    }
    assert_eq!(
        warning(ElementKind::Link, ElementOp::OnSubmit).unwrap(),
        "\"a\" component does not support the \"submit\" event."
    );
    assert_eq!(
        warning(ElementKind::Link, ElementOp::OnInput).unwrap(),
        "\"a\" component does not support the \"input\" event."
    );
}

#[test]
fn contentless_elements() {
    for (kind, tagname) in [
        (ElementKind::Div, "div"),
        (ElementKind::Rule, "hr"),
        (ElementKind::Image, "img"),
    ] {
        assert_eq!(warning(kind, ElementOp::GetContent), None);
        assert_eq!(
            warning(kind, ElementOp::SetContent).unwrap(),
            format!("\"{}\" component does not support the \"set_content\" method.", tagname)
        );
        assert_eq!(
            warning(kind, ElementOp::GetHref).unwrap(),
            format!("\"{}\" component does not support the \"get_href\" method.", tagname)
        );
        assert_eq!(
            warning(kind, ElementOp::OnInput).unwrap(),
            format!("\"{}\" component does not support the \"input\" event.", tagname)
        );
    }
}

#[test]
fn textarea_element() {
    assert!(native(ElementKind::TextArea, ElementOp::GetContent));
    assert!(native(ElementKind::TextArea, ElementOp::SetContent));
    assert!(native(ElementKind::TextArea, ElementOp::OnInput));
    assert_eq!(
        warning(ElementKind::TextArea, ElementOp::OnSubmit).unwrap(),
        "\"textarea\" component does not support the \"submit\" event. Are you perhaps looking for the \"input\" event?"
    );
    assert_eq!(
        warning(ElementKind::TextArea, ElementOp::SetHref).unwrap(),
        "\"textarea\" component does not support the \"set_href\" method."
    );
}

#[test]
fn input_and_button_elements() {
    assert!(native(ElementKind::Input, ElementOp::OnSubmit));
    assert!(native(ElementKind::Input, ElementOp::OnInput));
    assert_eq!(
        warning(ElementKind::Input, ElementOp::GetHref).unwrap(),
        "\"input\" component does not support the \"get_href\" method."
    );
    assert!(native(ElementKind::Button, ElementOp::SetContent));
    assert_eq!(
        warning(ElementKind::Button, ElementOp::OnSubmit).unwrap(),
        "\"button\" component does not support the \"submit\" event."
    );
    assert_eq!(
        warning(ElementKind::Button, ElementOp::OnInput).unwrap(),
        "\"button\" component does not support the \"input\" event."
    );
}

// ---- fetch ----

#[test]
fn fetch_requires_url_method_headers() {
    assert_eq!(plan_fetch(params(None, None, None, None)).err(), Some(FetchError::MissingUrl));
    assert_eq!(plan_fetch(params(None, Some("GET"), Some(vec![]), None)).err(), Some(FetchError::MissingUrl));
    assert_eq!(plan_fetch(params(Some("u"), None, Some(vec![]), None)).err(), Some(FetchError::MissingMethod));
    assert_eq!(plan_fetch(params(Some("u"), Some("GET"), None, None)).err(), Some(FetchError::MissingHeaders));
    assert_eq!(FetchError::MissingUrl.script_message(), Some("url is required"));
    assert_eq!(FetchError::MissingMethod.script_message(), Some("method is required"));
    assert_eq!(FetchError::MissingHeaders.script_message(), Some("headers is required"));
    assert_eq!(FetchError::InvalidHeaderName(0).script_message(), None);
    assert_eq!(FetchError::InvalidHeaderValue(0).script_message(), None);
}

#[test]
fn fetch_get_sends_no_body() {
    let p = params(Some("https://x.y/z"), Some("GET"), Some(vec![pair("Accept", "application/json")]), Some("data"));
    match plan_fetch(p) {
        Ok(FetchPlan::Send(req)) => {
            assert_eq!(req.url, "https://x.y/z");
            assert_eq!(req.method, HttpMethod::Get);
            assert_eq!(req.headers, vec![(s("Accept"), s("application/json"))]);
            assert_eq!(req.body, None);
        }
        _ => panic!("expected a request"),
    }
}

#[test]
fn fetch_post_put_delete_send_body() {
    for (name, m) in [("POST", HttpMethod::Post), ("PUT", HttpMethod::Put), ("DELETE", HttpMethod::Delete)] {
        match plan_fetch(params(Some("u"), Some(name), Some(vec![]), Some("{\"a\":1}"))) {
            Ok(FetchPlan::Send(req)) => {
                assert_eq!(req.method, m);
                assert_eq!(req.body, Some(s("{\"a\":1}")));
            }
            _ => panic!("expected a request"),
        }
        match plan_fetch(params(Some("u"), Some(name), Some(vec![]), None)) {
            Ok(FetchPlan::Send(req)) => assert_eq!(req.body, Some(s("{}"))),
            _ => panic!("expected a request"),
        }
    }
}

#[test]
fn fetch_unsupported_method_replies() {
    match plan_fetch(params(Some("u"), Some("PATCH"), Some(vec![]), None)) {
        Ok(FetchPlan::Reply(text)) => assert_eq!(text, "Unsupported method: PATCH"),
        _ => panic!("expected a reply"),
    }
    match plan_fetch(params(Some("u"), Some("get"), Some(vec![]), None)) {
        Ok(FetchPlan::Reply(text)) => assert_eq!(text, "Unsupported method: get"),
        _ => panic!("expected a reply"),
    }
}

#[test]
fn fetch_checks_headers_in_order() {
    let hs = vec![pair("X-Ok", "1"), pair("Bad Name", "2"), pair("X-Other", "\u{7f}")];
    assert_eq!(
        plan_fetch(params(Some("u"), Some("GET"), Some(hs), None)).err(),
        Some(FetchError::InvalidHeaderName(1))
    );
    let hs = vec![pair("X-Ok", "1"), pair("X-Other", "a\nb")];
    assert_eq!(
        plan_fetch(params(Some("u"), Some("GET"), Some(hs), None)).err(),
        Some(FetchError::InvalidHeaderValue(1))
    );
    let hs = vec![None];
    assert_eq!(
        plan_fetch(params(Some("u"), Some("GET"), Some(hs), None)).err(),
        Some(FetchError::InvalidHeaderName(0))
    );
    let hs = vec![pair("", "v")];
    assert_eq!(
        plan_fetch(params(Some("u"), Some("POST"), Some(hs), None)).err(),
        Some(FetchError::InvalidHeaderName(0))
    );
}

#[test]
fn fetch_checks_headers_before_method() {
    let hs = vec![pair("bad:name", "v")];
    assert_eq!(
        plan_fetch(params(Some("u"), Some("PATCH"), Some(hs), None)).err(),
        Some(FetchError::InvalidHeaderName(0))
    );
}

#[test]
fn fetch_accepts_header_edge_cases() {
    let long = "a".repeat(65535);
    let hs = vec![pair("Content-Type", "text/plain; charset=\"utf-8\""), pair("x~!#$%&'*+.^_`|", "tab\there é"), pair(&long, "")];
    match plan_fetch(params(Some("u"), Some("GET"), Some(hs), None)) {
        Ok(FetchPlan::Send(req)) => assert_eq!(req.headers.len(), 3),
        _ => panic!("expected a request"),
    }
    let too_long = "a".repeat(65536);
    assert_eq!(
        plan_fetch(params(Some("u"), Some("GET"), Some(vec![pair(&too_long, "")]), None)).err(),
        Some(FetchError::InvalidHeaderName(0))
    );
}

#[test]
fn fetch_reply_for_outcomes() {
    let mut log = ProblemLog::new();
    match fetch_reply(FetchOutcome::SendFailed(s("timeout")), &mut log) {
        FetchReply::Message(m) => assert_eq!(m, "Failed to send request: timeout"),
        other => panic!("unexpected {:?}", other),
    }
    assert_eq!(log.text(), "");
    assert!(matches!(
        fetch_reply(FetchOutcome::Responded { status: 200, body: ResponseBody::Json }, &mut log),
        FetchReply::Body
    ));
    assert_eq!(log.text(), "");
    assert!(matches!(
        fetch_reply(FetchOutcome::Responded { status: 404, body: ResponseBody::Unreadable(s("EOF")) }, &mut log),
        FetchReply::Status(404)
    ));
    assert_eq!(log.text(), "ERROR: failed to parse response body: EOF\n");
    assert!(matches!(fetch_reply(FetchOutcome::Lost, &mut log), FetchReply::Null));
    assert_eq!(
        log.text(),
        "ERROR: failed to parse response body: EOF\nERROR: Failed to join request thread at fetch request.\n"
    );
}

// ---- script ----

#[test]
fn script_result_reports_errors() {
    assert!(script_result(None).is_ok());
    let f = script_result(Some(s("boom"))).err().unwrap();
    assert_eq!(f.report, "--------------------------\nerror: boom\n--------------------------------");
    assert_eq!(f.error, "Failed to run script!");
}
