//! The vocabulary shared by the runtime and its callers: argument documents,
//! tool calls, tool results and the events of one turn.
use vstd::prelude::*;

verus! {

/// Relies on uuid's `Uuid::new_v4` and its hyphenated text form, which is 36
/// characters long.
#[verifier::external_body]
pub(crate) fn fresh_id() -> (r: String)
    ensures
        r@.len() == 36,
{
    uuid::Uuid::new_v4().to_string()
}

/// One named string argument of a tool call.
pub struct ArgField {
    pub key: String,
    pub value: String,
}

/// The argument document of a tool call: named string fields, in the order in
/// which they were given.
pub struct ToolArgs {
    pub fields: Vec<ArgField>,
}

pub type ArgsView = Seq<(Seq<char>, Seq<char>)>;

impl View for ToolArgs {
    type V = ArgsView;

    open spec fn view(&self) -> ArgsView {
        self.fields@.map_values(|f: ArgField| (f.key@, f.value@))
    }
}

/// `i` is the first field of `f` named `key`.
pub open spec fn first_key_at(f: ArgsView, key: Seq<char>, i: int) -> bool {
    &&& 0 <= i < f.len()
    &&& f[i].0 == key
    &&& forall|j: int| 0 <= j < i ==> f[j].0 != key
}

/// The value of the first field named `key`, if any.
pub open spec fn lookup(f: ArgsView, key: Seq<char>) -> Option<Seq<char>> {
    if exists|i: int| first_key_at(f, key, i) {
        Some(f[choose|i: int| first_key_at(f, key, i)].1)
    } else {
        None
    }
}

pub proof fn lemma_lookup_at(f: ArgsView, key: Seq<char>, i: int)
    requires
        first_key_at(f, key, i),
    ensures
        lookup(f, key) == Some(f[i].1),
{
    let k = choose|k: int| first_key_at(f, key, k);
    assert(first_key_at(f, key, k));
    if k < i {
        assert(f[k].0 != key);
    } else if i < k {
        assert(f[i].0 != key);
    }
}

impl ToolArgs {
    /// An empty argument document.
    pub fn new() -> (r: ToolArgs)
        ensures
            r@ == Seq::<(Seq<char>, Seq<char>)>::empty(),
    {
        let r = ToolArgs { fields: Vec::new() };
        assert(r@ =~= Seq::<(Seq<char>, Seq<char>)>::empty());
        r
    }

    /// Appends the field `key` with `value`.
    pub fn push(&mut self, key: &str, value: String)
        ensures
            final(self)@ == old(self)@.push((key@, value@)),
    {
        self.fields.push(ArgField { key: String::from_str(key), value });
        assert(final(self)@ =~= old(self)@.push((key@, value@)));
    }

    /// The value of the first field named `key`.
    pub fn get(&self, key: &str) -> (r: Option<&String>)
        ensures
            match r {
                Some(v) => lookup(self@, key@) == Some(v@),
                None => lookup(self@, key@) is None,
            },
    {
        let mut i: usize = 0;
        while i < self.fields.len()
            invariant
                i <= self.fields@.len(),
                forall|j: int| 0 <= j < i ==> self@[j].0 != key@,
            decreases self.fields@.len() - i,
        {
            let f = &self.fields[i];
            if crate::text::same_text(f.key.as_str(), key) {
                proof {
                    lemma_lookup_at(self@, key@, i as int);
                }
                return Some(&f.value);
            }
            i = i + 1;
        }
        proof {
            if exists|k: int| first_key_at(self@, key@, k) {
                let k = choose|k: int| first_key_at(self@, key@, k);
                assert(self@[k].0 != key@);
            }
        }
        None
    }
}

/// The input envelope of a spoken or typed turn.
pub struct SpeechTurn {
    pub session_id: String,
    pub transcript: String,
    pub locale: String,
}

/// A tool invocation that the policy has allowed.
pub struct ToolCall {
    pub id: String,
    pub tool: String,
    pub args: ToolArgs,
    pub requires_confirmation: bool,
}

/// What a tool produced: one shape per tool, and `Failed` for any failure.
pub enum ToolOutput {
    Status { os: String, arch: String, uptime_hint: String },
    FileRead { path: String, content: String },
    FileWritten { path: String, written: usize },
    ShellRun { status: i32, stdout: String, stderr: String },
    Fetched { url: String, preview: String, chars: usize },
    Failed { error: String },
}

/// The outcome of one tool call, referring to it by id.
pub struct ToolResult {
    pub id: String,
    pub ok: bool,
    pub output: ToolOutput,
}

/// One step of the observable output of a turn.
pub enum CoreEvent {
    Transcript(SpeechTurn),
    ToolCall(ToolCall),
    ToolResult(ToolResult),
    ResponseText(String),
    Error(String),
}

pub struct CallView {
    pub id: Seq<char>,
    pub tool: Seq<char>,
    pub args: ArgsView,
    pub requires_confirmation: bool,
}

pub enum OutputView {
    Status { os: Seq<char>, arch: Seq<char>, uptime_hint: Seq<char> },
    FileRead { path: Seq<char>, content: Seq<char> },
    FileWritten { path: Seq<char>, written: usize },
    ShellRun { status: i32, stdout: Seq<char>, stderr: Seq<char> },
    Fetched { url: Seq<char>, preview: Seq<char>, chars: usize },
    Failed { error: Seq<char> },
}

pub struct ResultView {
    pub id: Seq<char>,
    pub ok: bool,
    pub output: OutputView,
}

pub struct TurnView {
    pub session_id: Seq<char>,
    pub transcript: Seq<char>,
    pub locale: Seq<char>,
}

pub enum EventView {
    Transcript(TurnView),
    ToolCall(CallView),
    ToolResult(ResultView),
    ResponseText(Seq<char>),
    Error(Seq<char>),
}

impl View for SpeechTurn {
    type V = TurnView;

    open spec fn view(&self) -> TurnView {
        TurnView {
            session_id: self.session_id@,
            transcript: self.transcript@,
            locale: self.locale@,
        }
    }
}

impl View for ToolCall {
    type V = CallView;

    open spec fn view(&self) -> CallView {
        CallView {
            id: self.id@,
            tool: self.tool@,
            args: self.args@,
            requires_confirmation: self.requires_confirmation,
        }
    }
}

impl View for ToolOutput {
    type V = OutputView;

    open spec fn view(&self) -> OutputView {
        match self {
            ToolOutput::Status { os, arch, uptime_hint } => OutputView::Status {
                os: os@,
                arch: arch@,
                uptime_hint: uptime_hint@,
            },
            ToolOutput::FileRead { path, content } => OutputView::FileRead {
                path: path@,
                content: content@,
            },
            ToolOutput::FileWritten { path, written } => OutputView::FileWritten {
                path: path@,
                written: *written,
            },
            ToolOutput::ShellRun { status, stdout, stderr } => OutputView::ShellRun {
                status: *status,
                stdout: stdout@,
                stderr: stderr@,
            },
            ToolOutput::Fetched { url, preview, chars } => OutputView::Fetched {
                url: url@,
                preview: preview@,
                chars: *chars,
            },
            ToolOutput::Failed { error } => OutputView::Failed { error: error@ },
        }
    }
}

impl View for ToolResult {
    type V = ResultView;

    open spec fn view(&self) -> ResultView {
        ResultView { id: self.id@, ok: self.ok, output: self.output@ }
    }
}

impl View for CoreEvent {
    type V = EventView;

    open spec fn view(&self) -> EventView {
        match self {
            CoreEvent::Transcript(t) => EventView::Transcript(t@),
            CoreEvent::ToolCall(c) => EventView::ToolCall(c@),
            CoreEvent::ToolResult(r) => EventView::ToolResult(r@),
            CoreEvent::ResponseText(s) => EventView::ResponseText(s@),
            CoreEvent::Error(s) => EventView::Error(s@),
        }
    }
}

/// The views of a sequence of events.
pub open spec fn events_view(v: Seq<CoreEvent>) -> Seq<EventView> {
    v.map_values(|e: CoreEvent| e@)
}

} // verus!
