//! What the window of the installer shows while the application is
//! downloaded and verified.
//!
//! The download itself and the window belong to the caller. It tells the
//! types of this module how each step ended; they answer with updates of the
//! window, which wait in a queue until the caller runs them on the main
//! thread.

use vstd::prelude::*;
use crate::text::{
    append_chars, append_decimal, chars_of, decimal, find, first_match, is_match_at,
    lemma_first_match_from, matches_at, slice_chars, string_of,
};

verus! {

/// One change to the window.
#[derive(Debug, PartialEq, Eq)]
pub enum UiCommand {
    /// Show this text as the status.
    SetStatusText(String),
    /// Show this many percent on the progress bar.
    SetDownloadProgress(u32),
    EnableDownloadButton,
    DisableDownloadButton,
    ShowCancelButton,
    HideCancelButton,
}

/// A change to the window, as contracts see it.
pub enum UiChange {
    SetStatusText(Seq<char>),
    SetDownloadProgress(u32),
    EnableDownloadButton,
    DisableDownloadButton,
    ShowCancelButton,
    HideCancelButton,
}

impl View for UiCommand {
    type V = UiChange;

    open spec fn view(&self) -> UiChange {
        match self {
            UiCommand::SetStatusText(text) => UiChange::SetStatusText(text@),
            UiCommand::SetDownloadProgress(percent) => UiChange::SetDownloadProgress(*percent),
            UiCommand::EnableDownloadButton => UiChange::EnableDownloadButton,
            UiCommand::DisableDownloadButton => UiChange::DisableDownloadButton,
            UiCommand::ShowCancelButton => UiChange::ShowCancelButton,
            UiCommand::HideCancelButton => UiChange::HideCancelButton,
        }
    }
}

/// The changes that a vector of commands stands for.
pub open spec fn changes_of(commands: Seq<UiCommand>) -> Seq<UiChange> {
    commands.map_values(|command: UiCommand| command@)
}

/// The updates that a vector of batches of commands stands for.
pub open spec fn updates_of(batches: Seq<Vec<UiCommand>>) -> Seq<Seq<UiChange>> {
    batches.map_values(|batch: Vec<UiCommand>| changes_of(batch@))
}

/// Updates of the window that wait for the main thread. Each update is a
/// batch of changes that are made together.
#[derive(Debug)]
pub struct Queue {
    pending: Vec<Vec<UiCommand>>,
}

impl View for Queue {
    type V = Seq<Seq<UiChange>>;

    closed spec fn view(&self) -> Seq<Seq<UiChange>> {
        updates_of(self.pending@)
    }
}

impl Queue {
    /// A queue in which nothing waits.
    pub fn new() -> (queue: Self)
        ensures
            queue@ == Seq::<Seq<UiChange>>::empty(),
    {
        let queue = Queue { pending: Vec::new() };
        assert(queue@ =~= Seq::<Seq<UiChange>>::empty());
        queue
    }

    /// Puts an update at the end of the queue.
    pub fn queue_main(&mut self, update: Vec<UiCommand>)
        ensures
            final(self)@ == old(self)@.push(changes_of(update@)),
    {
        let ghost before = self.pending@;
        self.pending.push(update);
        assert(updates_of(self.pending@) =~= updates_of(before).push(changes_of(update@)));
    }

    /// Takes all waiting updates out of the queue, the oldest first.
    pub fn take_pending(&mut self) -> (updates: Vec<Vec<UiCommand>>)
        ensures
            updates_of(updates@) == old(self)@,
            final(self)@ == Seq::<Seq<UiChange>>::empty(),
    {
        let mut updates: Vec<Vec<UiCommand>> = Vec::new();
        std::mem::swap(&mut updates, &mut self.pending);
        assert(updates_of(self.pending@) =~= Seq::<Seq<UiChange>>::empty());
        updates
    }

    /// The number of waiting updates.
    pub fn len(&self) -> (len: usize)
        ensures
            len == self@.len(),
    {
        self.pending.len()
    }
}

/// The status shown when the signature could not be retrieved.
pub const SIGNATURE_FAILED: &'static str = "ERROR: Failed to retrieve signature.";

/// The status shown when the download is complete.
pub const DOWNLOAD_COMPLETE: &'static str = "Download complete! Verifying signature...";

/// The status shown when the download failed.
pub const DOWNLOAD_FAILED: &'static str = "ERROR: Download failed. Please try again.";

/// The status shown when the signature matches.
pub const VERIFICATION_COMPLETE: &'static str = "Verification complete!";

/// The status shown when the signature does not match.
pub const VERIFICATION_FAILED: &'static str = "ERROR: Verification failed!";

/// The update of a failed step after which the user may try again: the
/// status, the download button enabled, the cancel button hidden.
pub open spec fn retry_update(status: Seq<char>) -> Seq<UiChange> {
    seq![
        UiChange::SetStatusText(status),
        UiChange::EnableDownloadButton,
        UiChange::HideCancelButton,
    ]
}

/// The update that follows the retrieval of the signature, if any.
pub open spec fn signature_update(succeeded: bool) -> Option<Seq<UiChange>> {
    if succeeded {
        None
    } else {
        Some(retry_update(SIGNATURE_FAILED@))
    }
}

/// The update that follows the download of the executable.
pub open spec fn executable_update(succeeded: bool) -> Seq<UiChange> {
    if succeeded {
        seq![UiChange::SetStatusText(DOWNLOAD_COMPLETE@), UiChange::HideCancelButton]
    } else {
        retry_update(DOWNLOAD_FAILED@)
    }
}

/// The update that follows the verification.
pub open spec fn verify_update(succeeded: bool) -> Seq<UiChange> {
    if succeeded {
        seq![UiChange::SetStatusText(VERIFICATION_COMPLETE@)]
    } else {
        seq![UiChange::SetStatusText(VERIFICATION_FAILED@)]
    }
}

fn retry_commands(status: &str) -> (commands: Vec<UiCommand>)
    ensures
        changes_of(commands@) == retry_update(status@),
{
    let mut commands: Vec<UiCommand> = Vec::new();
    commands.push(UiCommand::SetStatusText(status.to_owned()));
    commands.push(UiCommand::EnableDownloadButton);
    commands.push(UiCommand::HideCancelButton);
    assert(changes_of(commands@) =~= retry_update(status@));
    commands
}

/// Shows in the window how the steps of a download end.
#[derive(Debug)]
pub struct UiAppDownloader {
    queue: Queue,
}

impl UiAppDownloader {
    /// The updates that wait to be run.
    pub closed spec fn pending(&self) -> Seq<Seq<UiChange>> {
        self.queue@
    }

    /// Makes a downloader front that puts its updates into `queue`.
    pub fn new(queue: Queue) -> (downloader: Self)
        ensures
            downloader.pending() == queue@,
    {
        Self { queue }
    }

    /// Takes the result of retrieving the signature and hands it on. A
    /// failure is shown; a success shows nothing.
    pub fn download_signature<E>(&mut self, result: Result<(), E>) -> (handed_on: Result<(), E>)
        ensures
            handed_on == result,
            final(self).pending() == match signature_update(result is Ok) {
                Some(update) => old(self).pending().push(update),
                None => old(self).pending(),
            },
    {
        if result.is_err() {
            self.queue.queue_main(retry_commands(SIGNATURE_FAILED));
        }
        result
    }

    /// Takes the result of downloading the executable and hands it on.
    /// Either way the window says so.
    pub fn download_executable<E>(&mut self, result: Result<(), E>) -> (handed_on: Result<(), E>)
        ensures
            handed_on == result,
            final(self).pending() == old(self).pending().push(executable_update(result is Ok)),
    {
        if result.is_ok() {
            let mut commands: Vec<UiCommand> = Vec::new();
            commands.push(UiCommand::SetStatusText(DOWNLOAD_COMPLETE.to_owned()));
            commands.push(UiCommand::HideCancelButton);
            assert(changes_of(commands@) =~= executable_update(true));
            self.queue.queue_main(commands);
        } else {
            self.queue.queue_main(retry_commands(DOWNLOAD_FAILED));
        }
        result
    }

    /// Takes the result of verifying the download and hands it on. Either
    /// way the window says so.
    pub fn verify<E>(&mut self, result: Result<(), E>) -> (handed_on: Result<(), E>)
        ensures
            handed_on == result,
            final(self).pending() == old(self).pending().push(verify_update(result is Ok)),
    {
        let status = if result.is_ok() {
            VERIFICATION_COMPLETE
        } else {
            VERIFICATION_FAILED
        };
        let mut commands: Vec<UiCommand> = Vec::new();
        commands.push(UiCommand::SetStatusText(status.to_owned()));
        assert(changes_of(commands@) =~= verify_update(result is Ok));
        self.queue.queue_main(commands);
        result
    }

    /// Takes all waiting updates out, the oldest first, for the caller to
    /// run them.
    pub fn take_pending(&mut self) -> (updates: Vec<Vec<UiCommand>>)
        ensures
            updates_of(updates@) == old(self).pending(),
            final(self).pending() == Seq::<Seq<UiChange>>::empty(),
    {
        self.queue.take_pending()
    }
}

/// The name shown for a source whose address is not known.
pub const UNKNOWN_SOURCE: &'static str = "unknown source";

/// The scheme that is left out of the name of a source.
pub const HTTPS_PREFIX: &'static str = "https://";

/// The domain of an address: what stands behind `https://`, if the address
/// begins with it, up to the first slash.
pub open spec fn domain_of(url: Seq<char>) -> Seq<char> {
    let rest = if is_match_at(url, 0, HTTPS_PREFIX@) {
        url.skip(HTTPS_PREFIX@.len() as int)
    } else {
        url
    };
    match first_match(rest, seq!['/']) {
        Some(at) => rest.take(at),
        None => rest,
    }
}

/// The percentage that is shown for `percent`: never more than a hundred.
pub open spec fn shown_percent(percent: u32) -> u32 {
    if percent > 100 {
        100
    } else {
        percent
    }
}

/// The status shown while `percent` of the download from `domain` are done.
pub open spec fn progress_status(domain: Seq<char>, percent: u32) -> Seq<char> {
    "Downloading from "@ + domain + "... ("@ + decimal(percent as nat) + "%)"@
}

/// The update that shows `percent` of the download from `domain` as done.
pub open spec fn progress_update(domain: Seq<char>, percent: u32) -> Seq<UiChange> {
    seq![
        UiChange::SetDownloadProgress(percent),
        UiChange::SetStatusText(progress_status(domain, percent)),
    ]
}

/// The state of a progress display, as contracts see it.
pub struct ProgressView {
    /// The name of the source of the download.
    pub domain: Seq<char>,
    /// The percentage that was shown last.
    pub prev_progress: Option<u32>,
    /// The updates that wait to be run.
    pub pending: Seq<Seq<UiChange>>,
}

/// Shows the progress of a download in the window.
#[derive(Debug)]
pub struct UiProgressUpdater {
    domain: String,
    prev_progress: Option<u32>,
    queue: Queue,
}

impl View for UiProgressUpdater {
    type V = ProgressView;

    closed spec fn view(&self) -> ProgressView {
        ProgressView {
            domain: self.domain@,
            prev_progress: self.prev_progress,
            pending: self.queue@,
        }
    }
}

impl UiProgressUpdater {
    /// Makes a progress display that puts its updates into `queue`. Until
    /// an address is set the source is unknown.
    pub fn new(queue: Queue) -> (updater: Self)
        ensures
            updater@ == (ProgressView {
                domain: UNKNOWN_SOURCE@,
                prev_progress: None,
                pending: queue@,
            }),
    {
        Self { domain: UNKNOWN_SOURCE.to_owned(), prev_progress: None, queue }
    }

    /// Shows that `percent` of the download are done, or a hundred if it is
    /// more. Nothing is queued where that percentage is shown already, so the
    /// window does not flicker.
    pub fn set_progress(&mut self, percent: u32)
        ensures
            final(self)@ == if old(self)@.prev_progress == Some(shown_percent(percent)) {
                old(self)@
            } else {
                ProgressView {
                    domain: old(self)@.domain,
                    prev_progress: Some(shown_percent(percent)),
                    pending: old(self)@.pending.push(
                        progress_update(old(self)@.domain, shown_percent(percent)),
                    ),
                }
            },
    {
        let value: u32 = if percent > 100 {
            100
        } else {
            percent
        };
        match self.prev_progress {
            Some(shown) => {
                if shown == value {
                    return ;
                }
            },
            None => {},
        }
        let mut status = chars_of("Downloading from ");
        append_chars(&mut status, &chars_of(self.domain.as_str()));
        append_chars(&mut status, &chars_of("... ("));
        append_decimal(&mut status, value);
        append_chars(&mut status, &chars_of("%)"));
        let mut commands: Vec<UiCommand> = Vec::new();
        commands.push(UiCommand::SetDownloadProgress(value));
        commands.push(UiCommand::SetStatusText(string_of(&status)));
        assert(changes_of(commands@) =~= progress_update(self.domain@, value));
        self.queue.queue_main(commands);
        self.prev_progress = Some(value);
    }

    /// Names the source of the download after the domain of `url`.
    pub fn set_url(&mut self, url: &str)
        ensures
            final(self)@ == (ProgressView { domain: domain_of(url@), ..old(self)@ }),
    {
        let url_chars = chars_of(url);
        let prefix = chars_of(HTTPS_PREFIX);
        let rest = if matches_at(&url_chars, 0, &prefix) {
            slice_chars(&url_chars, prefix.len(), url_chars.len())
        } else {
            url_chars
        };
        let mut slash: Vec<char> = Vec::new();
        slash.push('/');
        assert(slash@ =~= seq!['/']);
        let domain = match find(&rest, &slash) {
            Some(at) => {
                proof {
                    lemma_first_match_from(rest@, slash@, 0);
                }
                slice_chars(&rest, 0, at)
            },
            None => rest,
        };
        self.domain = string_of(&domain);
    }

    /// Takes all waiting updates out, the oldest first, for the caller to
    /// run them.
    pub fn take_pending(&mut self) -> (updates: Vec<Vec<UiCommand>>)
        ensures
            updates_of(updates@) == old(self)@.pending,
            final(self)@ == (ProgressView { pending: Seq::empty(), ..old(self)@ }),
    {
        self.queue.take_pending()
    }
}

} // verus!
