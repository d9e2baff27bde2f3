//! The tool router: which effect a call names, with which arguments, and how
//! each effect's raw outcome becomes a tool output. The effects themselves
//! (files, processes, network) are performed by the caller.
use vstd::prelude::*;
use vstd::string::StringSliceAdditionalSpecFns;
use crate::protocol::{lookup, ArgsView, OutputView, ToolArgs, ToolOutput};

verus! {

/// Longest text preview, in characters, of a fetched body.
pub const PREVIEW_CHARS: usize = 2000;

/// What `String::from_utf8_lossy` makes of a byte sequence.
pub uninterp spec fn lossy_text(b: Seq<u8>) -> Seq<char>;

/// Relies on `String::from_utf8_lossy`: invalid sequences are replaced, never
/// rejected, and the result depends on the bytes alone.
#[verifier::external_body]
fn lossy(b: &[u8]) -> (r: String)
    ensures
        r@ == lossy_text(b@),
{
    String::from_utf8_lossy(b).into_owned()
}

/// One concrete effect, with its arguments taken out of the document.
pub enum ToolRequest {
    Status,
    ReadFile { path: String },
    WriteFile { path: String, content: String },
    Exec { command: String },
    Get { url: String },
}

pub enum RequestView {
    Status,
    ReadFile { path: Seq<char> },
    WriteFile { path: Seq<char>, content: Seq<char> },
    Exec { command: Seq<char> },
    Get { url: Seq<char> },
}

impl View for ToolRequest {
    type V = RequestView;

    open spec fn view(&self) -> RequestView {
        match self {
            ToolRequest::Status => RequestView::Status,
            ToolRequest::ReadFile { path } => RequestView::ReadFile { path: path@ },
            ToolRequest::WriteFile { path, content } => RequestView::WriteFile {
                path: path@,
                content: content@,
            },
            ToolRequest::Exec { command } => RequestView::Exec { command: command@ },
            ToolRequest::Get { url } => RequestView::Get { url: url@ },
        }
    }
}

pub open spec fn request_view(r: Result<ToolRequest, String>) -> Result<RequestView, Seq<char>> {
    match r {
        Ok(q) => Ok(q@),
        Err(e) => Err(e@),
    }
}

/// The effect that `tool` with `args` names, or why there is none.
pub open spec fn request_for(tool: Seq<char>, args: ArgsView) -> Result<RequestView, Seq<char>> {
    if tool == "system.status"@ {
        Ok(RequestView::Status)
    } else if tool == "file.read"@ {
        match lookup(args, "path"@) {
            Some(path) => Ok(RequestView::ReadFile { path }),
            None => Err("file.read requires args.path"@),
        }
    } else if tool == "file.write"@ {
        match (lookup(args, "path"@), lookup(args, "content"@)) {
            (Some(path), Some(content)) => Ok(RequestView::WriteFile { path, content }),
            (None, _) => Err("file.write requires args.path"@),
            (Some(_), None) => Err("file.write requires args.content"@),
        }
    } else if tool == "shell.exec"@ {
        match lookup(args, "command"@) {
            Some(command) => Ok(RequestView::Exec { command }),
            None => Err("shell.exec requires args.command"@),
        }
    } else if tool == "network.get"@ {
        match lookup(args, "url"@) {
            Some(url) => Ok(RequestView::Get { url }),
            None => Err("network.get requires args.url"@),
        }
    } else {
        Err("unknown tool: "@ + tool)
    }
}

/// The preview of a fetched body: its first characters, at most `PREVIEW_CHARS`.
pub open spec fn preview_of(body: Seq<char>) -> Seq<char> {
    if body.len() <= PREVIEW_CHARS {
        body
    } else {
        body.subrange(0, PREVIEW_CHARS as int)
    }
}

fn owned_arg(args: &ToolArgs, key: &str) -> (r: Option<String>)
    ensures
        match r {
            Some(v) => lookup(args@, key@) == Some(v@),
            None => lookup(args@, key@) is None,
        },
{
    match args.get(key) {
        Some(v) => Some(v.clone()),
        None => None,
    }
}

/// Dispatch over the fixed tool catalog.
pub struct ToolRouter;

impl ToolRouter {
    /// The effect that `tool` names, with its arguments; an unknown tool or a
    /// missing argument is an error that says which.
    pub fn route(tool: &str, args: &ToolArgs) -> (r: Result<ToolRequest, String>)
        ensures
            request_view(r) == request_for(tool@, args@),
    {
        if crate::text::same_text(tool, "system.status") {
            Ok(ToolRequest::Status)
        } else if crate::text::same_text(tool, "file.read") {
            match owned_arg(args, "path") {
                Some(path) => Ok(ToolRequest::ReadFile { path }),
                None => Err(String::from_str("file.read requires args.path")),
            }
        } else if crate::text::same_text(tool, "file.write") {
            let path = owned_arg(args, "path");
            let content = owned_arg(args, "content");
            match (path, content) {
                (Some(path), Some(content)) => Ok(ToolRequest::WriteFile { path, content }),
                (None, _) => Err(String::from_str("file.write requires args.path")),
                (Some(_), None) => Err(String::from_str("file.write requires args.content")),
            }
        } else if crate::text::same_text(tool, "shell.exec") {
            match owned_arg(args, "command") {
                Some(command) => Ok(ToolRequest::Exec { command }),
                None => Err(String::from_str("shell.exec requires args.command")),
            }
        } else if crate::text::same_text(tool, "network.get") {
            match owned_arg(args, "url") {
                Some(url) => Ok(ToolRequest::Get { url }),
                None => Err(String::from_str("network.get requires args.url")),
            }
        } else {
            Err(crate::text::joined("unknown tool: ", tool))
        }
    }

    /// The status report for the given OS family and architecture.
    pub fn system_status(os: &str, arch: &str) -> (r: ToolOutput)
        ensures
            r@ == (OutputView::Status {
                os: os@,
                arch: arch@,
                uptime_hint: "Use shell.exec('uptime') for detailed uptime"@,
            }),
    {
        ToolOutput::Status {
            os: String::from_str(os),
            arch: String::from_str(arch),
            uptime_hint: String::from_str("Use shell.exec('uptime') for detailed uptime"),
        }
    }

    /// The report of a file that was read whole.
    pub fn file_read(path: &str, content: String) -> (r: ToolOutput)
        ensures
            r@ == (OutputView::FileRead { path: path@, content: content@ }),
    {
        ToolOutput::FileRead { path: String::from_str(path), content }
    }

    /// The report of a write: the path and the number of bytes written.
    pub fn file_written(path: &str, content: &str) -> (r: ToolOutput)
        ensures
            r@ == (OutputView::FileWritten {
                path: path@,
                written: content.spec_bytes().len() as usize,
            }),
    {
        ToolOutput::FileWritten { path: String::from_str(path), written: content.len() }
    }

    /// The report of a finished command: its exit code, or -1 where it had
    /// none, and its two output streams decoded leniently.
    pub fn shell_run(code: Option<i32>, stdout: &[u8], stderr: &[u8]) -> (r: ToolOutput)
        ensures
            r@ == (OutputView::ShellRun {
                status: match code {
                    Some(c) => c,
                    None => -1i32,
                },
                stdout: lossy_text(stdout@),
                stderr: lossy_text(stderr@),
            }),
    {
        let status: i32 = match code {
            Some(c) => c,
            None => -1,
        };
        ToolOutput::ShellRun { status, stdout: lossy(stdout), stderr: lossy(stderr) }
    }

    /// The report of a fetch: the URL, a preview of the body and its length in bytes.
    pub fn fetched(url: &str, body: &str) -> (r: ToolOutput)
        ensures
            r@ == (OutputView::Fetched {
                url: url@,
                preview: preview_of(body@),
                chars: body.spec_bytes().len() as usize,
            }),
    {
        let n = body.unicode_len();
        let keep = if n <= PREVIEW_CHARS {
            n
        } else {
            PREVIEW_CHARS
        };
        let preview = body.substring_char(0, keep);
        proof {
            if n <= PREVIEW_CHARS {
                assert(body@.subrange(0, n as int) =~= body@);
            }
        }
        ToolOutput::Fetched {
            url: String::from_str(url),
            preview: String::from_str(preview),
            chars: body.len(),
        }
    }

    /// The error text of a read that failed.
    pub fn read_failed(path: &str) -> (r: String)
        ensures
            r@ == "failed reading "@ + path@,
    {
        crate::text::joined("failed reading ", path)
    }

    /// The error text of a write that failed.
    pub fn write_failed(path: &str) -> (r: String)
        ensures
            r@ == "failed writing "@ + path@,
    {
        crate::text::joined("failed writing ", path)
    }
}

} // verus!
