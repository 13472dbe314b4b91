//! Downloads: what is asked for, and the decisions taken while one runs.
//!
//! ```text
//! DownloadRequest::new()
//!   .url() .file() .header()
//!   .progress() .silent()
//!        |
//!        v
//!   target()  --> url + file, or the error
//!   check_status(), progress_kind(), add_progress()
//! ```
//!
//! Sending the request and writing the file are left to the program, which
//! asks these functions what to do at each step.

use vstd::prelude::*;

use crate::error::NetworkError;
use crate::text::{concat2, concat3, opt_view, owned};

verus! {

/// How the progress of a download is shown.
#[derive(Debug, Clone, Copy, PartialEq, Eq, Structural)]
pub enum ProgressDisplay {
    /// A progress bar with speed and time left.
    Bar,
    /// A spinner, for downloads of unknown size.
    Spinner,
    /// Nothing.
    Silent,
}

impl Default for ProgressDisplay {
    fn default() -> (r: ProgressDisplay)
        ensures
            r == ProgressDisplay::Bar,
    {
        ProgressDisplay::Bar
    }
}

/// What a download asks for: the address, the file, extra headers and how
/// progress is shown.
#[derive(Debug, Clone)]
pub struct DownloadRequest {
    url: Option<String>,
    output_file: Option<String>,
    headers: Vec<(String, String)>,
    progress_display: ProgressDisplay,
}

/// Headers as plain values.
pub open spec fn headers_view(h: Seq<(String, String)>) -> Seq<(Seq<char>, Seq<char>)> {
    h.map_values(|e: (String, String)| (e.0@, e.1@))
}

impl DownloadRequest {
    /// The address, if set.
    pub closed spec fn url_spec(&self) -> Option<Seq<char>> {
        opt_view(self.url)
    }

    /// The file, if set.
    pub closed spec fn file_spec(&self) -> Option<Seq<char>> {
        opt_view(self.output_file)
    }

    /// The extra headers, in the order added.
    pub closed spec fn headers_spec(&self) -> Seq<(Seq<char>, Seq<char>)> {
        headers_view(self.headers@)
    }

    /// How progress is shown.
    pub closed spec fn display_spec(&self) -> ProgressDisplay {
        self.progress_display
    }

    /// A request with nothing set, shown with a progress bar.
    pub fn new() -> (r: Self)
        ensures
            r.url_spec() is None,
            r.file_spec() is None,
            r.headers_spec() == Seq::<(Seq<char>, Seq<char>)>::empty(),
            r.display_spec() == ProgressDisplay::Bar,
    {
        let r = DownloadRequest { url: None, output_file: None, headers: Vec::new(), progress_display: ProgressDisplay::Bar };
        assert(r.headers_spec() =~= Seq::<(Seq<char>, Seq<char>)>::empty());
        r
    }

    /// Sets the address.
    pub fn url(self, url: String) -> (r: Self)
        ensures
            r.url_spec() == Some(url@),
            r.file_spec() == self.file_spec(),
            r.headers_spec() == self.headers_spec(),
            r.display_spec() == self.display_spec(),
    {
        DownloadRequest { url: Some(url), ..self }
    }

    /// Sets the file written.
    pub fn file(self, path: String) -> (r: Self)
        ensures
            r.url_spec() == self.url_spec(),
            r.file_spec() == Some(path@),
            r.headers_spec() == self.headers_spec(),
            r.display_spec() == self.display_spec(),
    {
        DownloadRequest { output_file: Some(path), ..self }
    }

    /// Adds a header.
    pub fn header(self, name: String, value: String) -> (r: Self)
        ensures
            r.url_spec() == self.url_spec(),
            r.file_spec() == self.file_spec(),
            r.headers_spec() == self.headers_spec().push((name@, value@)),
            r.display_spec() == self.display_spec(),
    {
        let DownloadRequest { url, output_file, mut headers, progress_display } = self;
        let ghost before = headers@;
        headers.push((name, value));
        assert(headers_view(headers@) =~= headers_view(before).push((name@, value@)));
        DownloadRequest { url, output_file, headers, progress_display }
    }

    /// Sets how progress is shown.
    pub fn progress(self, style: ProgressDisplay) -> (r: Self)
        ensures
            r.url_spec() == self.url_spec(),
            r.file_spec() == self.file_spec(),
            r.headers_spec() == self.headers_spec(),
            r.display_spec() == style,
    {
        DownloadRequest { progress_display: style, ..self }
    }

    /// Shows no progress.
    pub fn silent(self) -> (r: Self)
        ensures
            r.url_spec() == self.url_spec(),
            r.file_spec() == self.file_spec(),
            r.headers_spec() == self.headers_spec(),
            r.display_spec() == ProgressDisplay::Silent,
    {
        DownloadRequest { progress_display: ProgressDisplay::Silent, ..self }
    }

    /// The extra headers.
    pub fn headers(&self) -> (r: &Vec<(String, String)>)
        ensures
            headers_view(r@) == self.headers_spec(),
    {
        &self.headers
    }

    /// How progress is shown.
    pub fn display(&self) -> (r: ProgressDisplay)
        ensures
            r == self.display_spec(),
    {
        self.progress_display
    }

    /// The address of a download into a string: an error when none is set.
    pub fn string_target(&self) -> (r: Result<String, NetworkError>)
        ensures
            match self.url_spec() {
                Some(u) => r matches Ok(s) && s@ == u,
                None => r matches Err(NetworkError::InvalidUrl(m)) && m@ == "no URL provided"@,
            },
    {
        match &self.url {
            Some(u) => Ok(u.clone()),
            None => Err(NetworkError::InvalidUrl(owned("no URL provided"))),
        }
    }

    /// The address and the file of a download into a file: an error when
    /// the address, then when the file, is not set.
    pub fn target(&self) -> (r: Result<(String, String), NetworkError>)
        ensures
            match self.url_spec() {
                None => r matches Err(NetworkError::InvalidUrl(m)) && m@ == "no URL provided"@,
                Some(u) => match self.file_spec() {
                    None => r matches Err(NetworkError::DownloadFailed { url, message }) && url@ == u
                        && message@ == "no output file specified"@,
                    Some(f) => r matches Ok(t) && t.0@ == u && t.1@ == f,
                },
            },
    {
        let url = match &self.url {
            Some(u) => u.clone(),
            None => return Err(NetworkError::InvalidUrl(owned("no URL provided"))),
        };
        match &self.output_file {
            Some(f) => Ok((url, f.clone())),
            None => Err(NetworkError::DownloadFailed { url, message: owned("no output file specified") }),
        }
    }
}

/// The `User-Agent` of the requests.
pub fn user_agent(version: &str) -> (r: String)
    ensures
        r@ == "ModOrganizer's mob-rs/"@ + version@,
{
    concat2("ModOrganizer's mob-rs/", version)
}

/// Whether an HTTP status is a success (2xx).
pub open spec fn is_success(status: u16) -> bool {
    200 <= status <= 299
}

/// Accepts a successful status; any other is an HTTP error for `url`.
pub fn check_status(status: u16, url: &str) -> (r: Result<(), NetworkError>)
    ensures
        is_success(status) ==> r is Ok,
        !is_success(status) ==> (r matches Err(NetworkError::HttpError { status: s, url: u }) && s == status
            && u@ == url@),
{
    if 200 <= status && status <= 299 {
        Ok(())
    } else {
        Err(NetworkError::HttpError { status, url: owned(url) })
    }
}

/// What shows the progress of a download.
#[derive(Debug, Clone, Copy, PartialEq, Eq, Structural)]
pub enum ProgressKind {
    /// Nothing.
    Hidden,
    /// A spinner.
    Spinner,
    /// A bar up to the given number of bytes.
    Bar(u64),
}

/// What shows the progress of a download of `total_size` bytes (0 when the
/// size is unknown): nothing when silent; a bar when asked for and the size
/// is known; a spinner otherwise.
pub fn progress_kind(display: ProgressDisplay, total_size: u64) -> (r: ProgressKind)
    ensures
        r == match display {
            ProgressDisplay::Silent => ProgressKind::Hidden,
            ProgressDisplay::Bar => if total_size == 0 {
                ProgressKind::Spinner
            } else {
                ProgressKind::Bar(total_size)
            },
            ProgressDisplay::Spinner => ProgressKind::Spinner,
        },
{
    match display {
        ProgressDisplay::Silent => ProgressKind::Hidden,
        ProgressDisplay::Bar => if total_size == 0 {
            ProgressKind::Spinner
        } else {
            ProgressKind::Bar(total_size)
        },
        ProgressDisplay::Spinner => ProgressKind::Spinner,
    }
}

/// The bytes downloaded after a chunk of `chunk_len` bytes more.
pub fn add_progress(downloaded: u64, chunk_len: u64) -> (r: u64)
    requires
        downloaded + chunk_len <= u64::MAX,
    ensures
        r == downloaded + chunk_len,
{
    downloaded + chunk_len
}

/// A step of writing the file that failed.
#[derive(Debug, Clone, Copy, PartialEq, Eq, Structural)]
pub enum WriteStep {
    /// Creating the parent directory.
    CreateParent,
    /// Creating the file.
    CreateFile,
    /// Writing a chunk.
    Write,
    /// Flushing the file.
    Flush,
}

/// The error when a step of writing the download of `url` to `path` failed
/// with `cause` (for `CreateParent`, `path` is the parent directory).
pub fn write_error(step: WriteStep, url: &str, path: &str, cause: &str) -> (r: NetworkError)
    ensures
        r matches NetworkError::DownloadFailed { url: u, message } && u@ == url@ && message@ == match step {
            WriteStep::CreateParent => "failed to create parent directory "@,
            WriteStep::CreateFile => "failed to create output file "@,
            WriteStep::Write => "failed to write to "@,
            WriteStep::Flush => "failed to flush "@,
        } + path@ + ": "@ + cause@,
{
    let lead = match step {
        WriteStep::CreateParent => "failed to create parent directory ",
        WriteStep::CreateFile => "failed to create output file ",
        WriteStep::Write => "failed to write to ",
        WriteStep::Flush => "failed to flush ",
    };
    let mut message = concat3(lead, path, ": ");
    message.append(cause);
    NetworkError::DownloadFailed { url: owned(url), message }
}

} // verus!
