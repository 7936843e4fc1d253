//! What the download executor does with a fetched response.
use vstd::prelude::*;
use crate::filename::{cascade_filename, opt_view, resolve_filename};

verus! {

/// How an HTTP status is treated on the download path.
#[derive(Debug, Clone, Copy, PartialEq, Eq, Structural)]
pub enum FetchClass {
    /// A 2xx status: the body is the installer.
    Success,
    /// 410 Gone: the link has expired; the title is skipped without error.
    Gone,
    /// Any other status: the download failed.
    Failure,
}

pub open spec fn status_class(status: u16) -> FetchClass {
    if 200 <= status <= 299 {
        FetchClass::Success
    } else if status == 410 {
        FetchClass::Gone
    } else {
        FetchClass::Failure
    }
}

/// Classifies an HTTP status code.
pub fn classify_status(status: u16) -> (r: FetchClass)
    ensures
        r == status_class(status),
{
    if 200 <= status && status <= 299 {
        FetchClass::Success
    } else if status == 410 {
        FetchClass::Gone
    } else {
        FetchClass::Failure
    }
}

/// What the download path saw of a response, besides its body.
pub struct FetchOutcome {
    /// The HTTP status code.
    pub status: u16,
    /// The effective URL, after any redirect.
    pub effective_url: String,
    /// The `content-disposition` header, where the response had one readable as text.
    pub content_disposition: Option<String>,
}

impl FetchOutcome {
    pub open spec fn disposition_view(&self) -> Option<Seq<char>> {
        match self.content_disposition {
            Some(d) => Some(d@),
            None => None,
        }
    }
}

/// What to do with a fetched response.
#[derive(Debug, PartialEq, Eq)]
pub enum DownloadPlan {
    /// Write the body to the output directory under this name.
    Save(String),
    /// Skip the title: nothing is written and it is no failure.
    Skip,
}

/// Why a download failed.
#[derive(Debug, Clone, Copy, PartialEq, Eq, Structural)]
pub enum DownloadError {
    /// The server answered with this status, neither 2xx nor 410.
    BadStatus(u16),
    /// No rule of the filename cascade yielded a name.
    FilenameUndeterminable,
}

/// Decides what becomes of the response to a request for `link`: saved under the name that
/// the filename cascade gives, skipped on 410, or failed.
pub fn plan_download(link: &str, outcome: &FetchOutcome) -> (r: Result<DownloadPlan, DownloadError>)
    ensures
        status_class(outcome.status) == FetchClass::Gone ==> r == Ok::<
            DownloadPlan,
            DownloadError,
        >(DownloadPlan::Skip),
        status_class(outcome.status) == FetchClass::Failure ==> r == Err::<
            DownloadPlan,
            DownloadError,
        >(DownloadError::BadStatus(outcome.status)),
        status_class(outcome.status) == FetchClass::Success ==> match cascade_filename(
            link@,
            outcome.effective_url@,
            outcome.disposition_view(),
        ) {
            Some(n) => r matches Ok(DownloadPlan::Save(f)) && f@ == n,
            None => r == Err::<DownloadPlan, DownloadError>(
                DownloadError::FilenameUndeterminable,
            ),
        },
{
    match classify_status(outcome.status) {
        FetchClass::Gone => Ok(DownloadPlan::Skip),
        FetchClass::Failure => Err(DownloadError::BadStatus(outcome.status)),
        FetchClass::Success => {
            let disposition = match &outcome.content_disposition {
                Some(d) => Some(d.as_str()),
                None => None,
            };
            assert(opt_view(disposition) == outcome.disposition_view());
            match resolve_filename(link, outcome.effective_url.as_str(), disposition) {
                Some(n) => Ok(DownloadPlan::Save(n)),
                None => Err(DownloadError::FilenameUndeterminable),
            }
        },
    }
}

} // verus!
