//! The container tool as this library sees it: the calls that it is asked to
//! make, and what a call leaves behind.

use crate::dockerfile::Error;
use crate::text::{cut, to_chars, trim, trim_span};
use vstd::prelude::*;
use vstd::string::StringExecFns;

verus! {

/// What one run of the container tool left behind.
#[derive(Debug, Clone, PartialEq, Eq)]
pub struct CommandOutput {
    /// Whether the tool's exit status was zero.
    pub success: bool,
    /// What it wrote to its standard output stream.
    pub stdout: String,
    /// What it wrote to its standard error stream.
    pub stderr: String,
}

/// A `CommandOutput`, with each stream as its characters.
pub struct OutputView {
    pub success: bool,
    pub stdout: Seq<char>,
    pub stderr: Seq<char>,
}

impl View for CommandOutput {
    type V = OutputView;

    open spec fn view(&self) -> OutputView {
        OutputView { success: self.success, stdout: self.stdout@, stderr: self.stderr@ }
    }
}

/// A call of the container tool.
#[derive(Debug, Clone, PartialEq, Eq)]
pub enum Request {
    /// Create a container from `image`, without starting it. The tool
    /// answers with the container's identifier on its standard output.
    Create { image: String },
    /// List the shared-library cache in a container of `image` that is
    /// thrown away afterwards.
    ListCache { image: String },
    /// Copy the file at `path` out of `container` into the working
    /// directory. Where `path` is a symbolic link, the file that it leads to
    /// is copied.
    CopyOut { container: String, path: String },
    /// Remove `container`.
    Remove { container: String },
}

/// A `Request`, with each text as its characters.
pub enum RequestView {
    Create { image: Seq<char> },
    ListCache { image: Seq<char> },
    CopyOut { container: Seq<char>, path: Seq<char> },
    Remove { container: Seq<char> },
}

impl View for Request {
    type V = RequestView;

    open spec fn view(&self) -> RequestView {
        match self {
            Request::Create { image } => RequestView::Create { image: image@ },
            Request::ListCache { image } => RequestView::ListCache { image: image@ },
            Request::CopyOut { container, path } => RequestView::CopyOut {
                container: container@,
                path: path@,
            },
            Request::Remove { container } => RequestView::Remove { container: container@ },
        }
    }
}

impl DeepView for Request {
    type V = RequestView;

    open spec fn deep_view(&self) -> RequestView {
        self@
    }
}

impl RequestView {
    /// The arguments that the container tool gets for this call.
    pub open spec fn arguments(self) -> Seq<Seq<char>> {
        match self {
            RequestView::Create { image } => seq!["create"@, image],
            RequestView::ListCache { image } => seq!["run"@, "--rm"@, image, "ldconfig"@, "-p"@],
            RequestView::CopyOut { container, path } => seq![
                "cp"@,
                "-L"@,
                container + ":"@ + path,
                "."@,
            ],
            RequestView::Remove { container } => seq!["rm"@, container],
        }
    }
}

/// The character sequences that a list of strings holds.
pub open spec fn texts(list: Seq<String>) -> Seq<Seq<char>> {
    list.map_values(|text: String| text@)
}

impl Request {
    /// The program that makes the call.
    pub fn program(&self) -> (name: &'static str)
        ensures
            name@ == "docker"@,
    {
        "docker"
    }

    /// The arguments that the container tool gets for this call.
    pub fn arguments(&self) -> (list: Vec<String>)
        ensures
            texts(list@) == self@.arguments(),
    {
        let mut list: Vec<String> = Vec::new();
        match self {
            Request::Create { image } => {
                list.push("create".to_owned());
                list.push(image.clone());
            },
            Request::ListCache { image } => {
                list.push("run".to_owned());
                list.push("--rm".to_owned());
                list.push(image.clone());
                list.push("ldconfig".to_owned());
                list.push("-p".to_owned());
            },
            Request::CopyOut { container, path } => {
                let mut source = container.clone();
                source.append(":");
                source.append(path.as_str());
                list.push("cp".to_owned());
                list.push("-L".to_owned());
                list.push(source);
                list.push(".".to_owned());
            },
            Request::Remove { container } => {
                list.push("rm".to_owned());
                list.push(container.clone());
            },
        }
        assert(texts(list@) =~= self@.arguments());
        list
    }
}

/// The tool's complaint, where a run failed: what it wrote to its standard
/// error stream, where its exit status was not zero and it wrote anything
/// there.
pub open spec fn run_failure(output: OutputView) -> Option<Seq<char>> {
    if !output.success && output.stderr.len() > 0 {
        Some(output.stderr)
    } else {
        None
    }
}

/// Tells whether a run of the container tool failed, and with what
/// complaint.
pub fn check_docker_stderr(output: &CommandOutput) -> (result: Result<(), Error>)
    ensures
        match run_failure(output@) {
            None => result is Ok,
            Some(complaint) => result matches Err(Error::Run { message }) && message@ == complaint,
        },
{
    if output.success {
        return Ok(());
    }
    if !output.stderr.as_str().is_empty() {
        return Err(Error::Run { message: output.stderr.clone() });
    }
    Ok(())
}

/// The tool's complaint, where a creation failed: what it wrote to its
/// standard error stream, be it nothing, where its exit status was not zero.
pub open spec fn creation_failure(output: OutputView) -> Option<Seq<char>> {
    if !output.success {
        Some(output.stderr)
    } else {
        None
    }
}

/// Reads the outcome of a creation: the identifier of the new container,
/// which is the tool's answer without the whitespace around it, or the
/// tool's complaint where its exit status was not zero.
pub fn check_docker_create(output: &CommandOutput) -> (result: Result<String, Error>)
    ensures
        match creation_failure(output@) {
            None => result matches Ok(container) && container@ == trim(output@.stdout),
            Some(complaint) => result matches Err(Error::Run { message }) && message@ == complaint,
        },
{
    if !output.success {
        return Err(Error::Run { message: output.stderr.clone() });
    }
    let answer = to_chars(output.stdout.as_str());
    let span = trim_span(&answer);
    Ok(cut(output.stdout.as_str(), span).to_owned())
}

} // verus!
