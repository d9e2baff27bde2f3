//! Intent classification: free text to a tool name and its arguments, by the
//! first of an ordered list of rules that fires.
use vstd::prelude::*;
use crate::protocol::{ArgsView, ToolArgs};
use crate::text::{after, contains, head_before, lower_of, starts_with, tail_after, trim_of};

verus! {

/// The tool and arguments that the rules pick for `input`, or none.
///
/// A lowercased copy of the input is matched for "system status" anywhere,
/// for the exact text "status" and for the prefix "read "; the other prefixes
/// are matched as typed. The first rule that fires decides.
pub open spec fn classify(input: Seq<char>) -> Option<(Seq<char>, ArgsView)> {
    classify_folded(input, lower_of(input))
}

/// The rules of `classify`, with `low` standing for the lowercased input.
pub open spec fn classify_folded(input: Seq<char>, low: Seq<char>) -> Option<(Seq<char>, ArgsView)> {
    if contains(low, "system status"@) || low == "status"@ {
        Some(("system.status"@, Seq::empty()))
    } else if starts_with(low, "read "@) {
        Some(("file.read"@, seq![("path"@, trim_of(after(low, "read "@.len() as int)))]))
    } else if starts_with(input, "write "@) && contains(after(input, "write "@.len() as int), "::"@) {
        let rest = after(input, "write "@.len() as int);
        Some((
            "file.write"@,
            write_fields(rest),
        ))
    } else if starts_with(input, "exec "@) {
        Some(("shell.exec"@, seq![("command"@, trim_of(after(input, "exec "@.len() as int)))]))
    } else if starts_with(input, "get "@) {
        Some(("network.get"@, seq![("url"@, trim_of(after(input, "get "@.len() as int)))]))
    } else {
        None
    }
}

pub open spec fn choice_view(r: Option<(String, ToolArgs)>) -> Option<(Seq<char>, ArgsView)> {
    match r {
        Some((t, a)) => Some((t@, a@)),
        None => None,
    }
}

/// The arguments of a write, `path::content`, both halves trimmed.
pub open spec fn write_fields(rest: Seq<char>) -> ArgsView {
    seq![
        ("path"@, trim_of(head_before(rest, "::"@))),
        ("content"@, trim_of(tail_after(rest, "::"@))),
    ]
}

fn write_args(rest: &str) -> (r: Option<ToolArgs>)
    ensures
        match r {
            Some(a) => contains(rest@, "::"@) && a@ == write_fields(rest@),
            None => !contains(rest@, "::"@),
        },
{
    match crate::text::find(rest, "::") {
        Some(i) => {
            proof {
                crate::text::lemma_first_at_is_first_index(rest@, "::"@, i as int);
            }
            let sep = "::".unicode_len();
            let rest_len = rest.unicode_len();
            assert(i + sep <= rest_len);
            let path = rest.substring_char(0, i);
            let content = crate::text::rest_of(rest, i + sep);
            let mut a = ToolArgs::new();
            a.push("path", crate::text::trimmed(path));
            a.push("content", crate::text::trimmed(content));
            assert(a@ =~= write_fields(rest@));
            Some(a)
        },
        None => None,
    }
}

fn single(key: &str, value: &str) -> (r: ToolArgs)
    ensures
        r@ == seq![(key@, trim_of(value@))],
{
    let mut a = ToolArgs::new();
    a.push(key, crate::text::trimmed(value));
    assert(a@ =~= seq![(key@, trim_of(value@))]);
    a
}

/// Classifies `input`; the same text always gives the same answer.
pub fn decide_tool(input: &str) -> (r: Option<(String, ToolArgs)>)
    ensures
        choice_view(r) == classify(input@),
{
    let low = crate::text::lowercase(input);
    decide_tool_folded(input, low.as_str())
}

/// Classifies `input` whose lowercased form is `low`.
pub fn decide_tool_folded(input: &str, low: &str) -> (r: Option<(String, ToolArgs)>)
    ensures
        choice_view(r) == classify_folded(input@, low@),
{
    if crate::text::contains_text(low, "system status") || crate::text::same_text(low, "status") {
        let a = ToolArgs::new();
        return Some((String::from_str("system.status"), a));
    }
    if crate::text::has_prefix(low, "read ") {
        let rest = crate::text::rest_of(low, "read ".unicode_len());
        return Some((String::from_str("file.read"), single("path", rest)));
    }
    if crate::text::has_prefix(input, "write ") {
        let rest = crate::text::rest_of(input, "write ".unicode_len());
        match write_args(rest) {
            Some(a) => {
                return Some((String::from_str("file.write"), a));
            },
            None => {},
        }
    }
    if crate::text::has_prefix(input, "exec ") {
        let rest = crate::text::rest_of(input, "exec ".unicode_len());
        return Some((String::from_str("shell.exec"), single("command", rest)));
    }
    if crate::text::has_prefix(input, "get ") {
        let rest = crate::text::rest_of(input, "get ".unicode_len());
        return Some((String::from_str("network.get"), single("url", rest)));
    }
    None
}


/// The brain's reading of a transcript.
pub struct Decision {
    pub intent: String,
    pub tool: Option<String>,
    pub args: ToolArgs,
    pub requires_confirmation: bool,
}

pub struct DecisionSpec {
    pub intent: Seq<char>,
    pub tool: Option<Seq<char>>,
    pub args: ArgsView,
    pub requires_confirmation: bool,
}

impl View for Decision {
    type V = DecisionSpec;

    open spec fn view(&self) -> DecisionSpec {
        DecisionSpec {
            intent: self.intent@,
            tool: match self.tool {
                Some(t) => Some(t@),
                None => None,
            },
            args: self.args@,
            requires_confirmation: self.requires_confirmation,
        }
    }
}

/// The brain's rules: like `classify`, but "status" anywhere in the lowercased
/// text is enough, a shell command is named `system.exec`, the confirmation
/// flag is fixed per rule, and text that no rule takes is chat.
pub open spec fn brain_decision(t: Seq<char>) -> DecisionSpec {
    brain_decision_folded(t, lower_of(t))
}

/// The rules of `brain_decision`, with `low` standing for the lowercased text.
pub open spec fn brain_decision_folded(t: Seq<char>, low: Seq<char>) -> DecisionSpec {
    if contains(low, "status"@) {
        DecisionSpec {
            intent: "system_status"@,
            tool: Some("system.status"@),
            args: Seq::empty(),
            requires_confirmation: false,
        }
    } else if starts_with(low, "read "@) {
        DecisionSpec {
            intent: "read_file"@,
            tool: Some("file.read"@),
            args: seq![("path"@, trim_of(after(low, "read "@.len() as int)))],
            requires_confirmation: false,
        }
    } else if starts_with(t, "write "@) && contains(after(t, "write "@.len() as int), "::"@) {
        DecisionSpec {
            intent: "write_file"@,
            tool: Some("file.write"@),
            args: write_fields(after(t, "write "@.len() as int)),
            requires_confirmation: true,
        }
    } else if starts_with(t, "exec "@) {
        DecisionSpec {
            intent: "system_exec"@,
            tool: Some("system.exec"@),
            args: seq![("command"@, trim_of(after(t, "exec "@.len() as int)))],
            requires_confirmation: true,
        }
    } else if starts_with(t, "get "@) {
        DecisionSpec {
            intent: "network_get"@,
            tool: Some("network.get"@),
            args: seq![("url"@, trim_of(after(t, "get "@.len() as int)))],
            requires_confirmation: false,
        }
    } else {
        DecisionSpec {
            intent: "chat"@,
            tool: None,
            args: seq![("text"@, t)],
            requires_confirmation: false,
        }
    }
}

fn decision(intent: &str, tool: &str, args: ToolArgs, confirm: bool) -> (r: Decision)
    ensures
        r@ == (DecisionSpec {
            intent: intent@,
            tool: Some(tool@),
            args: args@,
            requires_confirmation: confirm,
        }),
{
    Decision {
        intent: String::from_str(intent),
        tool: Some(String::from_str(tool)),
        args,
        requires_confirmation: confirm,
    }
}

/// The brain's decision for a transcript.
pub fn decide(transcript: &str) -> (r: Decision)
    ensures
        r@ == brain_decision(transcript@),
{
    let low = crate::text::lowercase(transcript);
    decide_folded(transcript, low.as_str())
}

/// The brain's decision for `transcript` whose lowercased form is `low`.
pub fn decide_folded(transcript: &str, low: &str) -> (r: Decision)
    ensures
        r@ == brain_decision_folded(transcript@, low@),
{
    if crate::text::contains_text(low, "status") {
        return decision("system_status", "system.status", ToolArgs::new(), false);
    }
    if crate::text::has_prefix(low, "read ") {
        let rest = crate::text::rest_of(low, "read ".unicode_len());
        return decision("read_file", "file.read", single("path", rest), false);
    }
    if crate::text::has_prefix(transcript, "write ") {
        let rest = crate::text::rest_of(transcript, "write ".unicode_len());
        match write_args(rest) {
            Some(a) => {
                return decision("write_file", "file.write", a, true);
            },
            None => {},
        }
    }
    if crate::text::has_prefix(transcript, "exec ") {
        let rest = crate::text::rest_of(transcript, "exec ".unicode_len());
        return decision("system_exec", "system.exec", single("command", rest), true);
    }
    if crate::text::has_prefix(transcript, "get ") {
        let rest = crate::text::rest_of(transcript, "get ".unicode_len());
        return decision("network_get", "network.get", single("url", rest), false);
    }
    let mut args = ToolArgs::new();
    args.push("text", String::from_str(transcript));
    assert(args@ =~= seq![("text"@, transcript@)]);
    Decision {
        intent: String::from_str("chat"),
        tool: None,
        args,
        requires_confirmation: false,
    }
}

} // verus!
