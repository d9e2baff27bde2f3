//! The policy gate: whether a tool may run, and whether it must be confirmed.
use vstd::prelude::*;
use crate::protocol::{ArgsView, ToolArgs};
use crate::text::json_quoted;

verus! {

pub struct PolicyDecision {
    pub allowed: bool,
    pub requires_confirmation: bool,
    pub reason: String,
}

pub struct DecisionView {
    pub allowed: bool,
    pub requires_confirmation: bool,
    pub reason: Seq<char>,
}

impl View for PolicyDecision {
    type V = DecisionView;

    open spec fn view(&self) -> DecisionView {
        DecisionView {
            allowed: self.allowed,
            requires_confirmation: self.requires_confirmation,
            reason: self.reason@,
        }
    }
}

/// The tools that the router can run.
pub open spec fn is_catalog_tool(tool: Seq<char>) -> bool {
    tool == "system.status"@ || tool == "file.read"@ || tool == "file.write"@ || tool
        == "shell.exec"@ || tool == "network.get"@
}

/// `"key":"value"` for one field.
pub open spec fn render_field(f: (Seq<char>, Seq<char>)) -> Seq<char> {
    json_quoted(f.0) + seq![':'] + json_quoted(f.1)
}

/// The fields, rendered and separated by commas.
pub open spec fn render_fields(f: ArgsView) -> Seq<char>
    decreases f.len(),
{
    if f.len() == 0 {
        Seq::empty()
    } else if f.len() == 1 {
        render_field(f[0])
    } else {
        render_fields(f.drop_last()) + seq![','] + render_field(f.last())
    }
}

/// The argument document as a compact JSON object, fields in their order.
pub open spec fn render_args(f: ArgsView) -> Seq<char> {
    seq!['{'] + render_fields(f) + seq!['}']
}

/// The decision for `tool`; only an unknown tool's reason looks at the arguments.
pub open spec fn decision_for(tool: Seq<char>, args: ArgsView) -> DecisionView {
    if tool == "shell.exec"@ {
        DecisionView {
            allowed: true,
            requires_confirmation: true,
            reason: "Shell execution can change system state"@,
        }
    } else if tool == "file.write"@ {
        DecisionView {
            allowed: true,
            requires_confirmation: true,
            reason: "Writing files should be user-approved"@,
        }
    } else if tool == "network.post"@ {
        DecisionView {
            allowed: true,
            requires_confirmation: true,
            reason: "Outbound data write requires approval"@,
        }
    } else if tool == "file.read"@ || tool == "network.get"@ || tool == "system.status"@ {
        DecisionView { allowed: true, requires_confirmation: false, reason: "Read-only action"@ }
    } else {
        DecisionView {
            allowed: false,
            requires_confirmation: false,
            reason: "Unknown or unsupported tool: "@ + tool + "; args="@ + render_args(args),
        }
    }
}

/// Renders the argument document as `render_args` says.
pub fn args_text(args: &ToolArgs) -> (r: String)
    ensures
        r@ == render_args(args@),
{
    let mut body = String::new();
    let mut i: usize = 0;
    while i < args.fields.len()
        invariant
            i <= args.fields@.len(),
            body@ == render_fields(args@.subrange(0, i as int)),
        decreases args.fields@.len() - i,
    {
        let f = &args.fields[i];
        if i > 0 {
            body.append(",");
        }
        let k = crate::text::json_string(f.key.as_str());
        let v = crate::text::json_string(f.value.as_str());
        body.append(k.as_str());
        body.append(":");
        body.append(v.as_str());
        proof {
            reveal_strlit(",");
            reveal_strlit(":");
            let s = args@.subrange(0, i + 1);
            assert(s.drop_last() =~= args@.subrange(0, i as int));
            assert(s.last() == args@[i as int]);
            if i == 0 {
                assert(body@ =~= render_field(args@[0]));
            } else {
                assert(body@ =~= render_fields(s.drop_last()) + seq![','] + render_field(s.last()));
            }
        }
        i = i + 1;
    }
    assert(args@.subrange(0, args@.len() as int) =~= args@);
    let mut out = String::from_str("{");
    out.append(body.as_str());
    out.append("}");
    proof {
        reveal_strlit("{");
        reveal_strlit("}");
    }
    assert(out@ =~= render_args(args@));
    out
}

/// The policy gate; it holds no state.
pub struct PolicyEngine;

impl PolicyEngine {
    pub fn new() -> (r: PolicyEngine) {
        PolicyEngine
    }

    /// Decides on `tool` with `args` by the fixed table; never fails.
    pub fn evaluate(&self, tool: &str, args: &ToolArgs) -> (r: PolicyDecision)
        ensures
            r@ == decision_for(tool@, args@),
            !is_catalog_tool(tool@) && tool@ != "network.post"@ ==> !r.allowed,
            tool@ == "file.write"@ ==> r.requires_confirmation,
    {
        if crate::text::same_text(tool, "shell.exec") {
            PolicyDecision {
                allowed: true,
                requires_confirmation: true,
                reason: String::from_str("Shell execution can change system state"),
            }
        } else if crate::text::same_text(tool, "file.write") {
            PolicyDecision {
                allowed: true,
                requires_confirmation: true,
                reason: String::from_str("Writing files should be user-approved"),
            }
        } else if crate::text::same_text(tool, "network.post") {
            PolicyDecision {
                allowed: true,
                requires_confirmation: true,
                reason: String::from_str("Outbound data write requires approval"),
            }
        } else if crate::text::same_text(tool, "file.read") || crate::text::same_text(
            tool,
            "network.get",
        ) || crate::text::same_text(tool, "system.status") {
            PolicyDecision {
                allowed: true,
                requires_confirmation: false,
                reason: String::from_str("Read-only action"),
            }
        } else {
            let mut reason = String::from_str("Unknown or unsupported tool: ");
            reason.append(tool);
            reason.append("; args=");
            let rendered = args_text(args);
            reason.append(rendered.as_str());
            PolicyDecision { allowed: false, requires_confirmation: false, reason }
        }
    }
}

/// A tool outside the catalog is never allowed; `network.post`, which the
/// table reserves for outbound writes, is the one name outside the catalog
/// that it allows.
pub proof fn lemma_unknown_tool_denied(tool: Seq<char>, args: ArgsView)
    requires
        !is_catalog_tool(tool),
        tool != "network.post"@,
    ensures
        !decision_for(tool, args).allowed,
{
}

/// Writing a file always needs confirmation, whatever the arguments.
pub proof fn lemma_file_write_needs_confirmation(args: ArgsView)
    ensures
        decision_for("file.write"@, args).requires_confirmation,
{
}

} // verus!
