//! Fetching the C library and the dynamic loader of an image: a container is
//! created, the files are copied out of it, and it is removed again.

use crate::container::{
    check_docker_create, creation_failure, CommandOutput, OutputView, Request, RequestView,
};
use crate::dockerfile::Error;
use crate::extract::{extract_docker_libc_ld, Extraction, ExtractionView, LD_NAME, LIBC_NAME};
use crate::text::trim;
use vstd::prelude::*;
use vstd::string::StringExecFns;

verus! {

/// How far a download has come.
#[derive(Debug, Clone, Copy, PartialEq, Eq, Structural)]
pub enum Phase {
    /// The container is yet to be created.
    Creating,
    /// The container is there and files are copied out of it.
    Extracting,
    /// The copies are done and the container is yet to be removed.
    Removing,
    /// Nothing is left to do.
    Finished,
}

/// A download under way.
#[derive(Debug, Clone, PartialEq, Eq)]
pub struct Download {
    image: String,
    phase: Phase,
    extraction: Option<Extraction>,
    failure: Option<String>,
}

/// A `Download` as plain values.
pub struct DownloadView {
    /// The image that the files are taken from.
    pub image: Seq<char>,
    pub phase: Phase,
    /// The extraction from the container, once that was created.
    pub extraction: Option<ExtractionView>,
    /// The container tool's complaint, where it could not create the
    /// container.
    pub failure: Option<Seq<char>>,
}

impl DownloadView {
    /// A download of which nothing was done yet.
    pub open spec fn start(image: Seq<char>) -> Self {
        DownloadView { image, phase: Phase::Creating, extraction: None, failure: None }
    }

    /// The call to make next. `None` once the download is finished.
    pub open spec fn request(self) -> Option<RequestView> {
        match self.phase {
            Phase::Creating => Some(RequestView::Create { image: self.image }),
            Phase::Extracting => match self.extraction {
                Some(extraction) => extraction.request(),
                None => None,
            },
            Phase::Removing => match self.extraction {
                Some(extraction) => Some(RequestView::Remove { container: extraction.container }),
                None => None,
            },
            Phase::Finished => None,
        }
    }

    /// The download after `output`, the outcome of the call that it asked
    /// for, was taken in.
    ///
    /// Where the creation's exit status is not zero, the download is finished
    /// and has failed with what the tool wrote to its standard error stream, be
    /// it nothing. Else the tool's answer, without the whitespace around it, is
    /// the container's identifier, and the extraction begins. When the
    /// extraction has nothing left to ask for, the container is removed,
    /// whatever became of the copies, and whatever the removal leaves behind
    /// the download is finished.
    pub open spec fn record(self, output: OutputView) -> Self {
        match self.phase {
            Phase::Creating => match creation_failure(output) {
                Some(complaint) => DownloadView {
                    phase: Phase::Finished,
                    failure: Some(complaint),
                    ..self
                },
                None => DownloadView {
                    phase: Phase::Extracting,
                    extraction: Some(
                        ExtractionView::start(
                            self.image,
                            trim(output.stdout),
                            seq![LIBC_NAME@, LD_NAME@],
                        ),
                    ),
                    ..self
                },
            },
            Phase::Extracting => match self.extraction {
                Some(extraction) => {
                    let after = extraction.record(output);
                    DownloadView {
                        phase: if after.request() is None {
                            Phase::Removing
                        } else {
                            Phase::Extracting
                        },
                        extraction: Some(after),
                        ..self
                    }
                },
                None => self,
            },
            Phase::Removing => DownloadView { phase: Phase::Finished, ..self },
            Phase::Finished => self,
        }
    }

    /// How the download ended: with the container tool's complaint where the
    /// container could not be created, well in every other case. `None` while
    /// it is under way.
    pub open spec fn result(self) -> Option<Result<(), Seq<char>>> {
        if self.phase == Phase::Finished {
            match self.failure {
                Some(complaint) => Some(Err(complaint)),
                None => Some(Ok(())),
            }
        } else {
            None
        }
    }

    /// What an operator is told when the download begins.
    pub open spec fn announcement(self) -> Seq<char> {
        "Creating a container for tag: "@ + self.image + "\nThis may take a while..."@
    }
}

impl View for Download {
    type V = DownloadView;

    closed spec fn view(&self) -> DownloadView {
        DownloadView {
            image: self.image@,
            phase: self.phase,
            extraction: match self.extraction {
                Some(extraction) => Some(extraction@),
                None => None,
            },
            failure: match self.failure {
                Some(complaint) => Some(complaint@),
                None => None,
            },
        }
    }
}

impl Download {
    /// The call to make next. `None` once the download is finished.
    pub fn request(&self) -> (next: Option<Request>)
        ensures
            next.deep_view() == self@.request(),
    {
        match self.phase {
            Phase::Creating => Some(Request::Create { image: self.image.clone() }),
            Phase::Extracting => match &self.extraction {
                Some(extraction) => extraction.request(),
                None => None,
            },
            Phase::Removing => match &self.extraction {
                Some(extraction) => Some(Request::Remove { container: extraction.container().clone() }),
                None => None,
            },
            Phase::Finished => None,
        }
    }

    /// Takes in `output`, the outcome of the call that `request` asked for.
    pub fn record(&mut self, output: &CommandOutput)
        ensures
            final(self)@ == old(self)@.record(output@),
    {
        match self.phase {
            Phase::Creating => {
                match check_docker_create(output) {
                    Err(error) => {
                        let complaint = match error {
                            Error::Run { message } => message,
                            Error::Parse { message } => message,
                        };
                        self.failure = Some(complaint);
                        self.phase = Phase::Finished;
                    },
                    Ok(container) => {
                        self.extraction = Some(
                            extract_docker_libc_ld(self.image.as_str(), container.as_str()),
                        );
                        self.phase = Phase::Extracting;
                    },
                }
            },
            Phase::Extracting => {
                match self.extraction.take() {
                    Some(mut extraction) => {
                        extraction.record(output);
                        if extraction.finished() {
                            self.phase = Phase::Removing;
                        }
                        self.extraction = Some(extraction);
                    },
                    None => {},
                }
            },
            Phase::Removing => {
                self.phase = Phase::Finished;
            },
            Phase::Finished => {},
        }
    }

    /// How far the download has come.
    pub fn phase(&self) -> (phase: Phase)
        ensures
            phase == self@.phase,
    {
        self.phase
    }

    /// The extraction from the container, once that was created.
    pub fn extraction(&self) -> (extraction: Option<&Extraction>)
        ensures
            match extraction {
                Some(found) => self@.extraction == Some(found@),
                None => self@.extraction is None,
            },
    {
        self.extraction.as_ref()
    }

    /// How the download ended. `None` while it is under way.
    pub fn result(&self) -> (result: Option<Result<(), Error>>)
        ensures
            match self@.result() {
                None => result is None,
                Some(Ok(())) => result == Some(Ok::<(), Error>(())),
                Some(Err(complaint)) => result matches Some(Err(Error::Run { message }))
                    && message@ == complaint,
            },
    {
        match self.phase {
            Phase::Finished => match &self.failure {
                Some(complaint) => Some(Err(Error::Run { message: complaint.clone() })),
                None => Some(Ok(())),
            },
            _ => None,
        }
    }

    /// What an operator is told when the download begins.
    pub fn announcement(&self) -> (line: String)
        ensures
            line@ == self@.announcement(),
    {
        let mut line = "Creating a container for tag: ".to_owned();
        line.append(self.image.as_str());
        line.append("\nThis may take a while...");
        line
    }
}

/// Begins the download of the C library and the dynamic loader of the image
/// `tag`.
pub fn download_libc_ld_for_docker_tag(tag: &str) -> (download: Download)
    ensures
        download@ == DownloadView::start(tag@),
{
    Download { image: tag.to_owned(), phase: Phase::Creating, extraction: None, failure: None }
}

} // verus!
