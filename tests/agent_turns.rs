use munin::agent::{AgentRuntime, TurnPlan};
use munin::intent::{decide_folded, decide_tool, decide_tool_folded};
use munin::policy::PolicyEngine;
use munin::protocol::{CoreEvent, ToolArgs, ToolOutput};
use munin::tools::{ToolRequest, ToolRouter};

fn fields(a: &ToolArgs) -> Vec<(String, String)> {
    a.fields.iter().map(|f| (f.key.clone(), f.value.clone())).collect()
}

fn pair(k: &str, v: &str) -> (String, String) {
    (k.to_string(), v.to_string())
}

fn echo_of(plan: &TurnPlan) -> String {
    match &plan.events[0] {
        CoreEvent::ResponseText(t) => t.clone(),
        _ => panic!("turn does not open with an echo"),
    }
}

/// Runs a planned turn the way a caller does, with a stand-in for the effect.
fn run(plan: TurnPlan, effect: impl Fn(ToolRequest) -> Result<ToolOutput, String>) -> Vec<CoreEvent> {
    let outcome = match AgentRuntime::pending_call(&plan) {
        Some(call) => match ToolRouter::route(&call.tool, &call.args) {
            Ok(req) => effect(req),
            Err(e) => Err(e),
        },
        None => Err("not dispatched".to_string()),
    };
    AgentRuntime::finish(plan, outcome)
}

#[test]
fn status_text_runs_system_status() {
    let agent = AgentRuntime::new();
    let plan = agent.begin("status", false);
    assert!(plan.dispatch);
    let events = run(plan, |req| {
        assert!(matches!(req, ToolRequest::Status));
        Ok(ToolRouter::system_status("linux", "x86_64"))
    });
    assert_eq!(events.len(), 3);
    assert!(matches!(&events[0], CoreEvent::ResponseText(t) if t == "Heard: status"));
    match &events[1] {
        CoreEvent::ToolCall(c) => {
            assert_eq!(c.tool, "system.status");
            assert!(fields(&c.args).is_empty());
            assert!(!c.requires_confirmation);
            assert_eq!(c.id.len(), 36);
        }
        _ => panic!("second event is not a tool call"),
    }
    match &events[2] {
        CoreEvent::ToolResult(r) => {
            assert!(r.ok);
            match &r.output {
                ToolOutput::Status { os, arch, uptime_hint } => {
                    assert_eq!(os, "linux");
                    assert_eq!(arch, "x86_64");
                    assert_eq!(uptime_hint, "Use shell.exec('uptime') for detailed uptime");
                }
                _ => panic!("not a status report"),
            }
        }
        _ => panic!("third event is not a tool result"),
    }
}

#[test]
fn read_file_needs_no_confirmation() {
    let agent = AgentRuntime::new();
    let plan = agent.plan_turn("read /etc/hostname", false, "id-1".to_string());
    assert!(plan.dispatch);
    let events = run(plan, |req| match req {
        ToolRequest::ReadFile { path } => {
            assert_eq!(path, "/etc/hostname");
            Ok(ToolRouter::file_read(&path, "box\n".to_string()))
        }
        _ => panic!("not a read"),
    });
    assert_eq!(events.len(), 3);
    match &events[1] {
        CoreEvent::ToolCall(c) => {
            assert_eq!(c.id, "id-1");
            assert_eq!(c.tool, "file.read");
            assert_eq!(fields(&c.args), vec![pair("path", "/etc/hostname")]);
            assert!(!c.requires_confirmation);
        }
        _ => panic!("second event is not a tool call"),
    }
    match &events[2] {
        CoreEvent::ToolResult(r) => {
            assert_eq!(r.id, "id-1");
            assert!(r.ok);
            assert!(matches!(&r.output, ToolOutput::FileRead { content, .. } if content == "box\n"));
        }
        _ => panic!("third event is not a tool result"),
    }
}

#[test]
fn exec_without_approval_asks_for_confirmation() {
    let agent = AgentRuntime::new();
    let plan = agent.plan_turn("exec uptime", false, "id-2".to_string());
    assert!(!plan.dispatch);
    assert!(AgentRuntime::pending_call(&plan).is_none());
    let events = AgentRuntime::finish(plan, Ok(ToolRouter::shell_run(Some(0), b"up", b"")));
    assert_eq!(events.len(), 3);
    match &events[1] {
        CoreEvent::ToolCall(c) => {
            assert_eq!(c.tool, "shell.exec");
            assert!(c.requires_confirmation);
            assert_eq!(fields(&c.args), vec![pair("command", "uptime")]);
        }
        _ => panic!("second event is not a tool call"),
    }
    match &events[2] {
        CoreEvent::ResponseText(t) => {
            assert_eq!(
                t,
                "Tool shell.exec requires confirmation: Shell execution can change system state"
            );
            assert!(t.contains("confirmation"));
        }
        _ => panic!("third event is not the confirmation note"),
    }
    assert!(!events.iter().any(|e| matches!(e, CoreEvent::ToolResult(_))));
}

#[test]
fn exec_with_approval_reports_shell_output() {
    let agent = AgentRuntime::new();
    let plan = agent.plan_turn("exec uptime", true, "id-3".to_string());
    assert!(plan.dispatch);
    let events = run(plan, |req| match req {
        ToolRequest::Exec { command } => {
            assert_eq!(command, "uptime");
            Ok(ToolRouter::shell_run(Some(0), b" 10:00 up 1 day\n", b""))
        }
        _ => panic!("not a command"),
    });
    assert_eq!(events.len(), 3);
    match &events[2] {
        CoreEvent::ToolResult(r) => {
            assert!(r.ok);
            match &r.output {
                ToolOutput::ShellRun { status, stdout, stderr } => {
                    assert_eq!(*status, 0);
                    assert_eq!(stdout, " 10:00 up 1 day\n");
                    assert_eq!(stderr, "");
                }
                _ => panic!("not a shell report"),
            }
        }
        _ => panic!("third event is not a tool result"),
    }
}

#[test]
fn chat_text_lists_categories() {
    let agent = AgentRuntime::new();
    let plan = agent.begin("hello there", true);
    assert!(!plan.dispatch);
    let events = plan.events;
    assert_eq!(events.len(), 2);
    assert!(matches!(&events[0], CoreEvent::ResponseText(t) if t == "Heard: hello there"));
    assert!(matches!(&events[1], CoreEvent::ResponseText(t)
        if t == "No tool selected. I can run: system status, read/write file, shell exec, network get."));
}

#[test]
fn every_turn_opens_with_echo() {
    let agent = AgentRuntime::new();
    for input in ["", "status", "read x", "write a::b", "write nosep", "exec ls", "get u", "zzz"] {
        for approve in [false, true] {
            let plan = agent.begin(input, approve);
            assert!(!plan.events.is_empty());
            assert_eq!(echo_of(&plan), format!("Heard: {input}"));
        }
    }
}

#[test]
fn classification_is_repeatable() {
    for input in ["System Status please", "READ /A/B", "write p :: c", "exec  ls ", "hi"] {
        let a = decide_tool(input).map(|(t, a)| (t, fields(&a)));
        let b = decide_tool(input).map(|(t, a)| (t, fields(&a)));
        assert_eq!(a, b);
    }
}

#[test]
fn classifier_rules_in_order() {
    let got = |s: &str| decide_tool(s).map(|(t, a)| (t, fields(&a)));
    assert_eq!(got("STATUS"), Some(("system.status".to_string(), vec![])));
    assert_eq!(got("show me the System Status"), Some(("system.status".to_string(), vec![])));
    assert_eq!(got("read status"), Some(("file.read".to_string(), vec![pair("path", "status")])));
    assert_eq!(got("Read /Tmp/X "), Some(("file.read".to_string(), vec![pair("path", "/tmp/x")])));
    assert_eq!(
        got("write /tmp/a.txt :: hello :: there "),
        Some((
            "file.write".to_string(),
            vec![pair("path", "/tmp/a.txt"), pair("content", "hello :: there")]
        ))
    );
    assert_eq!(got("write /tmp/a.txt hello"), None);
    assert_eq!(got("Write a::b"), None);
    assert_eq!(got("exec  ls -l "), Some(("shell.exec".to_string(), vec![pair("command", "ls -l")])));
    assert_eq!(got("get http://x/ "), Some(("network.get".to_string(), vec![pair("url", "http://x/")])));
    assert_eq!(got("status report"), None);
    assert_eq!(got(""), None);
}

#[test]
fn unknown_tool_is_denied() {
    let engine = PolicyEngine::new();
    let mut args = ToolArgs::new();
    args.push("a", "x\"y".to_string());
    args.push("b", "z".to_string());
    for tool in ["file.delete", "", "system.exec", "shell"] {
        let d = engine.evaluate(tool, &args);
        assert!(!d.allowed);
        assert!(!d.requires_confirmation);
        assert_eq!(
            d.reason,
            format!("Unknown or unsupported tool: {tool}; args={{\"a\":\"x\\\"y\",\"b\":\"z\"}}")
        );
    }
    let d = engine.evaluate("nope", &ToolArgs::new());
    assert_eq!(d.reason, "Unknown or unsupported tool: nope; args={}");
}

#[test]
fn policy_table() {
    let engine = PolicyEngine::new();
    let args = ToolArgs::new();
    let d = engine.evaluate("file.write", &args);
    assert!(d.allowed && d.requires_confirmation);
    assert_eq!(d.reason, "Writing files should be user-approved");
    let d = engine.evaluate("shell.exec", &args);
    assert!(d.allowed && d.requires_confirmation);
    let d = engine.evaluate("network.post", &args);
    assert!(d.allowed && d.requires_confirmation);
    assert_eq!(d.reason, "Outbound data write requires approval");
    for tool in ["file.read", "network.get", "system.status"] {
        let d = engine.evaluate(tool, &args);
        assert!(d.allowed && !d.requires_confirmation);
        assert_eq!(d.reason, "Read-only action");
    }
}

#[test]
fn write_always_needs_confirmation() {
    let engine = PolicyEngine::new();
    let mut args = ToolArgs::new();
    args.push("path", "/tmp/x".to_string());
    assert!(engine.evaluate("file.write", &args).requires_confirmation);
    assert!(engine.evaluate("file.write", &ToolArgs::new()).requires_confirmation);
}

#[test]
fn write_then_read_plans_the_same_path() {
    let agent = AgentRuntime::new();
    let write = agent.plan_turn("write /tmp/munin.txt::hello", true, "w".to_string());
    let read = agent.plan_turn("read /tmp/munin.txt", true, "r".to_string());
    let w = AgentRuntime::pending_call(&write).unwrap();
    let r = AgentRuntime::pending_call(&read).unwrap();
    let wq = ToolRouter::route(&w.tool, &w.args);
    let rq = ToolRouter::route(&r.tool, &r.args);
    match (wq, rq) {
        (Ok(ToolRequest::WriteFile { path: wp, content }), Ok(ToolRequest::ReadFile { path: rp })) => {
            assert_eq!(wp, rp);
            assert_eq!(content, "hello");
        }
        _ => panic!("write and read were not routed"),
    }
}

#[test]
fn tool_failure_becomes_failed_result() {
    let agent = AgentRuntime::new();
    let plan = agent.plan_turn("read /missing", false, "id-4".to_string());
    let events = AgentRuntime::finish(plan, Err(ToolRouter::read_failed("/missing")));
    match &events[2] {
        CoreEvent::ToolResult(r) => {
            assert!(!r.ok);
            assert!(matches!(&r.output, ToolOutput::Failed { error } if error == "failed reading /missing"));
        }
        _ => panic!("third event is not a tool result"),
    }
    assert_eq!(ToolRouter::write_failed("/x"), "failed writing /x");
}

#[test]
fn folded_rules_read_the_folded_text() {
    let got = decide_tool_folded("Whatever", "status").map(|(t, a)| (t, fields(&a)));
    assert_eq!(got, Some(("system.status".to_string(), vec![])));
    let got = decide_tool_folded("READ /A", "read /a").map(|(t, a)| (t, fields(&a)));
    assert_eq!(got, Some(("file.read".to_string(), vec![pair("path", "/a")])));
    assert!(decide_tool_folded("Exec ls", "exec ls").is_none());
    let d = decide_folded("hi", "the status");
    assert_eq!(d.intent, "system_status");
}
