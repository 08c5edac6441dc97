//! What a page script can do with a page element: the methods that an
//! element handle offers, which elements carry each of them out, and the
//! warning that an element gives for a method it does not support.

use vstd::prelude::*;
use vstd::string::*;

verus! {

/// The kinds of page element that scripts can reach.
#[derive(Clone, Copy, Debug, PartialEq, Eq, Structural)]
pub enum ElementKind {
    /// Text: the headings `h1` to `h6` and paragraphs.
    Text,
    /// `select`
    Select,
    /// `a`
    Link,
    /// `div`
    Div,
    /// `textarea`
    TextArea,
    /// `hr`
    Rule,
    /// `img`
    Image,
    /// `input`
    Input,
    /// `button`
    Button,
}

/// The methods of an element handle.
#[derive(Clone, Copy, Debug, PartialEq, Eq, Structural)]
pub enum ElementOp {
    GetContent,
    SetContent,
    OnClick,
    OnSubmit,
    OnInput,
    GetHref,
    SetHref,
}

/// What an element does when a script calls one of its methods.
#[derive(Debug)]
pub enum ElementAction {
    /// The element carries the method out.
    Native,
    /// The element does not carry it out: the warning, if any, goes to the
    /// problem log, and a read (of the content or the link) gives `reply`.
    Decline { warning: Option<String>, reply: String },
}

/// The name under which a method appears in an element handle.
pub open spec fn op_name(op: ElementOp) -> Seq<char> {
    match op {
        ElementOp::GetContent => "get_content"@,
        ElementOp::SetContent => "set_content"@,
        ElementOp::OnClick => "on_click"@,
        ElementOp::OnSubmit => "on_submit"@,
        ElementOp::OnInput => "on_input"@,
        ElementOp::GetHref => "get_href"@,
        ElementOp::SetHref => "set_href"@,
    }
}

/// The tag that warnings name for an element (text elements have their
/// own wording and name none).
pub open spec fn tag_name(kind: ElementKind) -> Seq<char> {
    match kind {
        ElementKind::Text => ""@,
        ElementKind::Select => "select"@,
        ElementKind::Link => "a"@,
        ElementKind::Div => "div"@,
        ElementKind::TextArea => "textarea"@,
        ElementKind::Rule => "hr"@,
        ElementKind::Image => "img"@,
        ElementKind::Input => "input"@,
        ElementKind::Button => "button"@,
    }
}

/// Whether an element carries a method out.
pub open spec fn is_native(kind: ElementKind, op: ElementOp) -> bool {
    match op {
        ElementOp::GetContent | ElementOp::SetContent => match kind {
            ElementKind::Text | ElementKind::Link | ElementKind::TextArea | ElementKind::Input
            | ElementKind::Button => true,
            _ => false,
        },
        ElementOp::OnClick => true,
        ElementOp::OnSubmit => kind == ElementKind::Input,
        ElementOp::OnInput => kind == ElementKind::TextArea || kind == ElementKind::Input,
        ElementOp::GetHref | ElementOp::SetHref => kind == ElementKind::Link,
    }
}

pub open spec fn quoted(s: Seq<char>) -> Seq<char> {
    "\""@ + s + "\""@
}

/// "\"tag\" component does not support the \"method\" method."
pub open spec fn method_warning(tag: Seq<char>, method: Seq<char>) -> Seq<char> {
    quoted(tag) + " component does not support the "@ + quoted(method) + " method."@
}

/// "\"tag\" component does not support the \"event\" event."
pub open spec fn event_warning(tag: Seq<char>, event: Seq<char>) -> Seq<char> {
    quoted(tag) + " component does not support the "@ + quoted(event) + " event."@
}

/// The warning of a text element for a link method.
pub open spec fn text_link_warning(method: Seq<char>) -> Seq<char> {
    "Most text-based components do not support the "@ + quoted(method)
        + " method. Are you perhaps looking for the "@ + quoted("p"@) + " tag?"@
}

/// The warning that an element gives for a method that it does not carry
/// out; none for one it carries out, and none for reading the content of an
/// element that has none.
pub open spec fn warning_text(kind: ElementKind, op: ElementOp) -> Option<Seq<char>> {
    if is_native(kind, op) || op == ElementOp::GetContent {
        None
    } else if kind == ElementKind::Text {
        match op {
            ElementOp::OnSubmit => Some(
                "Text-based components do not support the "@ + quoted("submit"@)
                    + " event. Are you perhaps looking for the "@ + quoted("click"@) + " event?"@,
            ),
            ElementOp::OnInput => Some(
                "Text-based components do not support the "@ + quoted("input"@) + " event."@,
            ),
            _ => Some(text_link_warning(op_name(op))),
        }
    } else {
        match op {
            ElementOp::OnSubmit => if kind == ElementKind::TextArea {
                Some(
                    event_warning(tag_name(kind), "submit"@)
                        + " Are you perhaps looking for the "@ + quoted("input"@) + " event?"@,
                )
            } else {
                Some(event_warning(tag_name(kind), "submit"@))
            },
            ElementOp::OnInput => Some(event_warning(tag_name(kind), "input"@)),
            _ => Some(method_warning(tag_name(kind), op_name(op))),
        }
    }
}

pub open spec fn opt_text(s: Option<String>) -> Option<Seq<char>> {
    match s {
        Some(t) => Some(t@),
        None => None,
    }
}

/// The name under which a method appears in an element handle.
pub fn lua_name(op: ElementOp) -> (r: &'static str)
    ensures
        r@ == op_name(op),
{
    match op {
        ElementOp::GetContent => "get_content",
        ElementOp::SetContent => "set_content",
        ElementOp::OnClick => "on_click",
        ElementOp::OnSubmit => "on_submit",
        ElementOp::OnInput => "on_input",
        ElementOp::GetHref => "get_href",
        ElementOp::SetHref => "set_href",
    }
}

/// The methods of an element handle, in the order the handle is filled.
pub fn handle_methods() -> (r: Vec<ElementOp>)
    ensures
        r@ == seq![
            ElementOp::GetContent,
            ElementOp::SetContent,
            ElementOp::OnClick,
            ElementOp::OnSubmit,
            ElementOp::OnInput,
            ElementOp::GetHref,
            ElementOp::SetHref,
        ],
{
    vec![
        ElementOp::GetContent,
        ElementOp::SetContent,
        ElementOp::OnClick,
        ElementOp::OnSubmit,
        ElementOp::OnInput,
        ElementOp::GetHref,
        ElementOp::SetHref,
    ]
}

fn tag_of(kind: ElementKind) -> (r: &'static str)
    ensures
        r@ == tag_name(kind),
{
    match kind {
        ElementKind::Text => "",
        ElementKind::Select => "select",
        ElementKind::Link => "a",
        ElementKind::Div => "div",
        ElementKind::TextArea => "textarea",
        ElementKind::Rule => "hr",
        ElementKind::Image => "img",
        ElementKind::Input => "input",
        ElementKind::Button => "button",
    }
}

fn push_quoted(out: &mut String, s: &str)
    ensures
        final(out)@ == old(out)@ + quoted(s@),
{
    out.append("\"");
    out.append(s);
    out.append("\"");
    assert(out@ =~= old(out)@ + quoted(s@));
}

fn warning_for(kind: ElementKind, op: ElementOp) -> (r: String)
    requires
        warning_text(kind, op) is Some,
    ensures
        Some(r@) == warning_text(kind, op),
{
    let mut w = String::new();
    if kind == ElementKind::Text {
        match op {
            ElementOp::OnSubmit => {
                w.append("Text-based components do not support the ");
                push_quoted(&mut w, "submit");
                w.append(" event. Are you perhaps looking for the ");
                push_quoted(&mut w, "click");
                w.append(" event?");
            },
            ElementOp::OnInput => {
                w.append("Text-based components do not support the ");
                push_quoted(&mut w, "input");
                w.append(" event.");
            },
            _ => {
                w.append("Most text-based components do not support the ");
                push_quoted(&mut w, lua_name(op));
                w.append(" method. Are you perhaps looking for the ");
                push_quoted(&mut w, "p");
                w.append(" tag?");
            },
        }
    } else {
        push_quoted(&mut w, tag_of(kind));
        w.append(" component does not support the ");
        match op {
            ElementOp::OnSubmit => {
                push_quoted(&mut w, "submit");
                w.append(" event.");
                if kind == ElementKind::TextArea {
                    w.append(" Are you perhaps looking for the ");
                    push_quoted(&mut w, "input");
                    w.append(" event?");
                }
            },
            ElementOp::OnInput => {
                push_quoted(&mut w, "input");
                w.append(" event.");
            },
            _ => {
                push_quoted(&mut w, lua_name(op));
                w.append(" method.");
            },
        }
    }
    assert(Some(w@) =~= warning_text(kind, op));
    w
}

/// What an element does when a script calls one of its methods: it carries
/// it out, or declines with the warning of `warning_text`.
pub fn element_action(kind: ElementKind, op: ElementOp) -> (r: ElementAction)
    ensures
        r is Native <==> is_native(kind, op),
        match r {
            ElementAction::Decline { warning, reply } => {
                &&& opt_text(warning) == warning_text(kind, op)
                &&& reply@ == Seq::<char>::empty()
            },
            ElementAction::Native => true,
        },
{
    let native = match op {
        ElementOp::GetContent | ElementOp::SetContent => match kind {
            ElementKind::Text | ElementKind::Link | ElementKind::TextArea | ElementKind::Input
            | ElementKind::Button => true,
            _ => false,
        },
        ElementOp::OnClick => true,
        ElementOp::OnSubmit => kind == ElementKind::Input,
        ElementOp::OnInput => kind == ElementKind::TextArea || kind == ElementKind::Input,
        ElementOp::GetHref | ElementOp::SetHref => kind == ElementKind::Link,
    };
    if native {
        ElementAction::Native
    } else if op == ElementOp::GetContent {
        ElementAction::Decline { warning: None, reply: String::new() }
    } else {
        ElementAction::Decline { warning: Some(warning_for(kind, op)), reply: String::new() }
    }
}

/// Every element takes click handlers.
pub proof fn law_every_element_clicks(kind: ElementKind)
    ensures
        is_native(kind, ElementOp::OnClick),
        warning_text(kind, ElementOp::OnClick) is None,
{
}

/// An element declines a method silently only when the method reads the
/// content of an element that has none; every other declined method warns.
pub proof fn law_declines_warn(kind: ElementKind, op: ElementOp)
    requires
        !is_native(kind, op),
    ensures
        warning_text(kind, op) is None <==> op == ElementOp::GetContent,
{
}

/// No two methods of an element handle share a name.
pub proof fn law_handle_names_distinct(a: ElementOp, b: ElementOp)
    requires
        a != b,
    ensures
        op_name(a) != op_name(b),
{
    reveal_strlit("get_content");
    reveal_strlit("set_content");
    reveal_strlit("on_click");
    reveal_strlit("on_submit");
    reveal_strlit("on_input");
    reveal_strlit("get_href");
    reveal_strlit("set_href");
    if op_name(a) == op_name(b) {
        assert(op_name(a).len() == op_name(b).len());
        assert(op_name(a)[0] == op_name(b)[0]);
        assert(op_name(a)[3] == op_name(b)[3]);
    }
}

/// The elements that have content (text, links, text areas, inputs and
/// buttons) both read and set it; the others (select, div, hr, img) do
/// neither.
pub proof fn law_content_methods(kind: ElementKind)
    ensures
        is_native(kind, ElementOp::GetContent) == is_native(kind, ElementOp::SetContent),
        is_native(kind, ElementOp::GetContent) <==> !(kind == ElementKind::Select || kind
            == ElementKind::Div || kind == ElementKind::Rule || kind == ElementKind::Image),
{
}

/// Only links have a link to read or set.
pub proof fn law_link_methods(kind: ElementKind)
    ensures
        is_native(kind, ElementOp::GetHref) <==> kind == ElementKind::Link,
        is_native(kind, ElementOp::SetHref) <==> kind == ElementKind::Link,
{
}

/// Only inputs take submit handlers; only text areas and inputs take input
/// handlers.
pub proof fn law_event_methods(kind: ElementKind)
    ensures
        is_native(kind, ElementOp::OnSubmit) <==> kind == ElementKind::Input,
        is_native(kind, ElementOp::OnInput) <==> (kind == ElementKind::TextArea || kind
            == ElementKind::Input),
{
}

/// The names of the handle's methods and of the elements' tags.
pub proof fn law_names()
    ensures
        op_name(ElementOp::GetContent) == "get_content"@,
        op_name(ElementOp::SetContent) == "set_content"@,
        op_name(ElementOp::OnClick) == "on_click"@,
        op_name(ElementOp::OnSubmit) == "on_submit"@,
        op_name(ElementOp::OnInput) == "on_input"@,
        op_name(ElementOp::GetHref) == "get_href"@,
        op_name(ElementOp::SetHref) == "set_href"@,
        tag_name(ElementKind::Select) == "select"@,
        tag_name(ElementKind::Link) == "a"@,
        tag_name(ElementKind::Div) == "div"@,
        tag_name(ElementKind::TextArea) == "textarea"@,
        tag_name(ElementKind::Rule) == "hr"@,
        tag_name(ElementKind::Image) == "img"@,
        tag_name(ElementKind::Input) == "input"@,
        tag_name(ElementKind::Button) == "button"@,
{
}

/// The wording of each warning.
pub proof fn law_warning_wording(kind: ElementKind, op: ElementOp)
    requires
        !is_native(kind, op),
        op != ElementOp::GetContent,
    ensures
        kind == ElementKind::Text && (op == ElementOp::GetHref || op == ElementOp::SetHref)
            ==> warning_text(kind, op) == Some(
            "Most text-based components do not support the \""@ + op_name(op)
                + "\" method. Are you perhaps looking for the \"p\" tag?"@,
        ),
        kind == ElementKind::Text && op == ElementOp::OnSubmit ==> warning_text(kind, op) == Some(
            "Text-based components do not support the \"submit\" event. Are you perhaps looking for the \"click\" event?"@,
        ),
        kind == ElementKind::Text && op == ElementOp::OnInput ==> warning_text(kind, op) == Some(
            "Text-based components do not support the \"input\" event."@,
        ),
        kind != ElementKind::Text && (op == ElementOp::GetHref || op == ElementOp::SetHref || op
            == ElementOp::SetContent) ==> warning_text(kind, op) == Some(
            "\""@ + tag_name(kind) + "\" component does not support the \""@ + op_name(op)
                + "\" method."@,
        ),
        kind != ElementKind::Text && op == ElementOp::OnInput ==> warning_text(kind, op) == Some(
            "\""@ + tag_name(kind) + "\" component does not support the \"input\" event."@,
        ),
        kind != ElementKind::Text && kind != ElementKind::TextArea && op == ElementOp::OnSubmit
            ==> warning_text(kind, op) == Some(
            "\""@ + tag_name(kind) + "\" component does not support the \"submit\" event."@,
        ),
        kind == ElementKind::TextArea && op == ElementOp::OnSubmit ==> warning_text(kind, op)
            == Some(
            "\"textarea\" component does not support the \"submit\" event. Are you perhaps looking for the \"input\" event?"@,
        ),
{
    reveal_strlit("\"");
    reveal_strlit(" component does not support the ");
    reveal_strlit(" method.");
    reveal_strlit(" event.");
    reveal_strlit("submit");
    reveal_strlit("input");
    reveal_strlit("click");
    reveal_strlit("p");
    reveal_strlit("textarea");
    reveal_strlit("Most text-based components do not support the ");
    reveal_strlit(" method. Are you perhaps looking for the ");
    reveal_strlit(" tag?");
    reveal_strlit("Text-based components do not support the ");
    reveal_strlit(" event. Are you perhaps looking for the ");
    reveal_strlit(" event?");
    reveal_strlit(" Are you perhaps looking for the ");
    reveal_strlit("Most text-based components do not support the \"");
    reveal_strlit("\" method. Are you perhaps looking for the \"p\" tag?");
    reveal_strlit("Text-based components do not support the \"submit\" event. Are you perhaps looking for the \"click\" event?");
    reveal_strlit("Text-based components do not support the \"input\" event.");
    reveal_strlit("\" component does not support the \"");
    reveal_strlit("\" method.");
    reveal_strlit("\" component does not support the \"input\" event.");
    reveal_strlit("\" component does not support the \"submit\" event.");
    reveal_strlit("\"textarea\" component does not support the \"submit\" event. Are you perhaps looking for the \"input\" event?");
    let w = warning_text(kind, op)->0;
    if kind == ElementKind::Text {
        if op == ElementOp::GetHref || op == ElementOp::SetHref {
            assert(w =~= "Most text-based components do not support the \""@ + op_name(op)
                + "\" method. Are you perhaps looking for the \"p\" tag?"@);
        } else if op == ElementOp::OnSubmit {
            assert(w =~= "Text-based components do not support the \"submit\" event. Are you perhaps looking for the \"click\" event?"@);
        } else if op == ElementOp::OnInput {
            assert(w =~= "Text-based components do not support the \"input\" event."@);
        }
    } else {
        if op == ElementOp::GetHref || op == ElementOp::SetHref || op == ElementOp::SetContent {
            assert(w =~= "\""@ + tag_name(kind) + "\" component does not support the \""@
                + op_name(op) + "\" method."@);
        } else if op == ElementOp::OnInput {
            assert(w =~= "\""@ + tag_name(kind)
                + "\" component does not support the \"input\" event."@);
        } else if op == ElementOp::OnSubmit {
            if kind == ElementKind::TextArea {
                assert(w =~= "\"textarea\" component does not support the \"submit\" event. Are you perhaps looking for the \"input\" event?"@);
            } else {
                assert(w =~= "\""@ + tag_name(kind)
                    + "\" component does not support the \"submit\" event."@);
            }
        }
    }
}

} // verus!
