//! The version-chain loop as a state machine: each event the outside world
//! reports moves the updater to its next state and names the next action.

use vstd::prelude::*;
use crate::archive::ArchiveError;
use crate::download::DownloadError;
use crate::manifest::{versioned_url, versioned_url_of, ManifestError};

verus! {

/// The most download/apply cycles one run may start before it gives up on a
/// chain that keeps advancing.
pub const MAX_CHAIN_CYCLES: u64 = 1000;

/// Why an update run failed.
#[derive(Clone, Debug, PartialEq, Eq)]
pub enum UpdateError {
    /// A download failed.
    Download(DownloadError),
    /// A manifest could not be read.
    Manifest(ManifestError),
    /// An archive could not be opened.
    Archive(ArchiveError),
    /// A local file could not be read or written.
    Filesystem,
    /// The chain kept advancing past the cycle bound.
    ChainTooLong,
    /// An event came that the current state does not expect.
    OutOfOrder,
}

/// Where an update run stands.
#[derive(Clone, Debug, PartialEq, Eq)]
pub enum UpdaterState {
    /// Not started.
    Idle,
    /// Applying an archive left staged by an earlier run.
    ApplyingStaged,
    /// Resolving the latest full archive from the remote manifest.
    Bootstrapping,
    /// Reading the local manifest; `previous` is the version whose archive
    /// was just applied, if any.
    FetchingManifest { previous: Option<String> },
    /// Downloading the archive of `version` (`None` for the full archive).
    Downloading { version: Option<String> },
    /// Applying the archive of `version` that was just downloaded.
    Applying { version: Option<String> },
    /// No newer version exists: the run succeeded.
    Converged,
    /// The run failed.
    Failed(UpdateError),
}

/// What the outside world is asked to do next.
#[derive(Clone, Debug, PartialEq, Eq)]
pub enum UpdaterAction {
    /// Apply the staged archive, then delete it.
    ApplyStaged,
    /// Fetch the remote manifest that names the latest full archive.
    FetchBootstrapManifest,
    /// Read the local manifest's version code.
    ReadManifest,
    /// Download this URL into the staged archive file.
    Download(String),
    /// Apply the staged archive just downloaded, then delete it.
    ApplyDownloaded,
    /// Stop: the state says how the run ended. A staged archive that is left
    /// is deleted.
    Finish,
}

/// What the outside world reports.
#[derive(Debug, PartialEq, Eq)]
pub enum UpdaterEvent {
    /// The run starts; whether a staged archive and a local manifest exist.
    Started { staged_present: bool, manifest_present: bool },
    /// The staged archive was applied (or not), and whether a local manifest
    /// exists afterwards.
    StagedApplied { result: Result<(), UpdateError>, manifest_present: bool },
    /// The URL of the latest full archive, or why it could not be had.
    BootstrapResolved(Result<String, UpdateError>),
    /// The download finished.
    Downloaded(Result<(), DownloadError>),
    /// The downloaded archive was applied (or not), and whether a local
    /// manifest exists afterwards.
    Applied { result: Result<(), UpdateError>, manifest_present: bool },
    /// The local manifest's version code, or why it could not be read.
    ManifestRead(Result<String, UpdateError>),
}

/// An update run.
#[derive(Clone, Debug)]
pub struct VersionChainUpdater {
    pub state: UpdaterState,
    /// The download/apply cycles started so far.
    pub cycles: u64,
}

/// `post` and `act` start the download of `url` for `version`, unless the
/// cycle bound is reached.
pub open spec fn starts_download(
    pre: VersionChainUpdater,
    version: Option<String>,
    url: Seq<char>,
    post: VersionChainUpdater,
    act: UpdaterAction,
) -> bool {
    if pre.cycles >= MAX_CHAIN_CYCLES {
        &&& post.state == UpdaterState::Failed(UpdateError::ChainTooLong)
        &&& post.cycles == pre.cycles
        &&& act == UpdaterAction::Finish
    } else {
        &&& post.state == UpdaterState::Downloading { version }
        &&& post.cycles == pre.cycles + 1
        &&& act matches UpdaterAction::Download(u) && u@ == url
    }
}

/// `post` is `pre` moved to `state`, with `act` next.
pub open spec fn moves_to(
    pre: VersionChainUpdater,
    state: UpdaterState,
    post: VersionChainUpdater,
    act: UpdaterAction,
    next: UpdaterAction,
) -> bool {
    post.state == state && post.cycles == pre.cycles && act == next
}

/// Whether a download ended in HTTP 404: the next version does not exist.
pub open spec fn is_not_found(r: Result<(), DownloadError>) -> bool {
    r == Err::<(), DownloadError>(DownloadError::HttpStatus(404))
}

/// One step of the run: from `pre`, on `ev`, the updater becomes `post` and
/// asks for `act`.
pub open spec fn step_spec(
    pre: VersionChainUpdater,
    ev: UpdaterEvent,
    post: VersionChainUpdater,
    act: UpdaterAction,
) -> bool {
    let out_of_order = moves_to(pre, UpdaterState::Failed(UpdateError::OutOfOrder), post, act, UpdaterAction::Finish);
    match pre.state {
        UpdaterState::Converged | UpdaterState::Failed(_) => post == pre && act == UpdaterAction::Finish,
        UpdaterState::Idle => match ev {
            UpdaterEvent::Started { staged_present, manifest_present } => if staged_present {
                moves_to(pre, UpdaterState::ApplyingStaged, post, act, UpdaterAction::ApplyStaged)
            } else if !manifest_present {
                moves_to(pre, UpdaterState::Bootstrapping, post, act, UpdaterAction::FetchBootstrapManifest)
            } else {
                moves_to(pre, UpdaterState::FetchingManifest { previous: None }, post, act, UpdaterAction::ReadManifest)
            },
            _ => out_of_order,
        },
        UpdaterState::ApplyingStaged => match ev {
            UpdaterEvent::StagedApplied { result, manifest_present } => match result {
                Err(e) => moves_to(pre, UpdaterState::Failed(e), post, act, UpdaterAction::Finish),
                Ok(_) => if !manifest_present {
                    moves_to(pre, UpdaterState::Bootstrapping, post, act, UpdaterAction::FetchBootstrapManifest)
                } else {
                    moves_to(pre, UpdaterState::FetchingManifest { previous: None }, post, act, UpdaterAction::ReadManifest)
                },
            },
            _ => out_of_order,
        },
        UpdaterState::Bootstrapping => match ev {
            UpdaterEvent::BootstrapResolved(r) => match r {
                Err(e) => moves_to(pre, UpdaterState::Failed(e), post, act, UpdaterAction::Finish),
                Ok(url) => starts_download(pre, None, url@, post, act),
            },
            _ => out_of_order,
        },
        UpdaterState::Downloading { version } => match ev {
            UpdaterEvent::Downloaded(r) => match r {
                Ok(_) => moves_to(pre, UpdaterState::Applying { version }, post, act, UpdaterAction::ApplyDownloaded),
                Err(e) => if version is Some && is_not_found(r) {
                    moves_to(pre, UpdaterState::Converged, post, act, UpdaterAction::Finish)
                } else {
                    moves_to(pre, UpdaterState::Failed(UpdateError::Download(e)), post, act, UpdaterAction::Finish)
                },
            },
            _ => out_of_order,
        },
        UpdaterState::Applying { version } => match ev {
            UpdaterEvent::Applied { result, manifest_present } => match result {
                Ok(_) => if version is None && !manifest_present {
                    moves_to(pre, UpdaterState::Converged, post, act, UpdaterAction::Finish)
                } else {
                    moves_to(pre, UpdaterState::FetchingManifest { previous: version }, post, act, UpdaterAction::ReadManifest)
                },
                Err(e) => moves_to(pre, UpdaterState::Failed(e), post, act, UpdaterAction::Finish),
            },
            _ => out_of_order,
        },
        UpdaterState::FetchingManifest { previous } => match ev {
            UpdaterEvent::ManifestRead(r) => match r {
                Err(e) => moves_to(pre, UpdaterState::Failed(e), post, act, UpdaterAction::Finish),
                Ok(code) => if previous matches Some(p) && p@ == code@ {
                    moves_to(pre, UpdaterState::Converged, post, act, UpdaterAction::Finish)
                } else {
                    starts_download(pre, Some(code), versioned_url_of(code@), post, act)
                },
            },
            _ => out_of_order,
        },
    }
}

impl VersionChainUpdater {
    /// An updater that has not started.
    pub fn new() -> (r: VersionChainUpdater)
        ensures
            r.state == UpdaterState::Idle,
            r.cycles == 0,
    {
        VersionChainUpdater { state: UpdaterState::Idle, cycles: 0 }
    }

    /// Whether the run has ended, converged or failed.
    pub fn is_finished(&self) -> (r: bool)
        ensures
            r == (self.state is Converged || self.state is Failed),
    {
        match self.state {
            UpdaterState::Converged | UpdaterState::Failed(_) => true,
            _ => false,
        }
    }

    fn start_download(&mut self, version: Option<String>, url: String) -> (act: UpdaterAction)
        ensures
            starts_download(*old(self), version, url@, *final(self), act),
    {
        if self.cycles >= MAX_CHAIN_CYCLES {
            self.state = UpdaterState::Failed(UpdateError::ChainTooLong);
            UpdaterAction::Finish
        } else {
            self.cycles = self.cycles + 1;
            self.state = UpdaterState::Downloading { version };
            UpdaterAction::Download(url)
        }
    }

    fn move_to(&mut self, state: UpdaterState, next: UpdaterAction) -> (act: UpdaterAction)
        ensures
            moves_to(*old(self), state, *final(self), act, next),
    {
        self.state = state;
        next
    }

    /// Takes the next event and returns the next action.
    pub fn step(&mut self, event: UpdaterEvent) -> (act: UpdaterAction)
        ensures
            step_spec(*old(self), event, *final(self), act),
    {
        let mut st = UpdaterState::Idle;
        std::mem::swap(&mut st, &mut self.state);
        match st {
            UpdaterState::Converged | UpdaterState::Failed(_) => {
                self.state = st;
                UpdaterAction::Finish
            },
            UpdaterState::Idle => match event {
                UpdaterEvent::Started { staged_present, manifest_present } => if staged_present {
                    self.move_to(UpdaterState::ApplyingStaged, UpdaterAction::ApplyStaged)
                } else if !manifest_present {
                    self.move_to(UpdaterState::Bootstrapping, UpdaterAction::FetchBootstrapManifest)
                } else {
                    self.move_to(UpdaterState::FetchingManifest { previous: None }, UpdaterAction::ReadManifest)
                },
                _ => self.move_to(UpdaterState::Failed(UpdateError::OutOfOrder), UpdaterAction::Finish),
            },
            UpdaterState::ApplyingStaged => match event {
                UpdaterEvent::StagedApplied { result, manifest_present } => match result {
                    Err(e) => self.move_to(UpdaterState::Failed(e), UpdaterAction::Finish),
                    Ok(_) => if !manifest_present {
                        self.move_to(UpdaterState::Bootstrapping, UpdaterAction::FetchBootstrapManifest)
                    } else {
                        self.move_to(UpdaterState::FetchingManifest { previous: None }, UpdaterAction::ReadManifest)
                    },
                },
                _ => self.move_to(UpdaterState::Failed(UpdateError::OutOfOrder), UpdaterAction::Finish),
            },
            UpdaterState::Bootstrapping => match event {
                UpdaterEvent::BootstrapResolved(r) => match r {
                    Err(e) => self.move_to(UpdaterState::Failed(e), UpdaterAction::Finish),
                    Ok(url) => self.start_download(None, url),
                },
                _ => self.move_to(UpdaterState::Failed(UpdateError::OutOfOrder), UpdaterAction::Finish),
            },
            UpdaterState::Downloading { version } => match event {
                UpdaterEvent::Downloaded(r) => match r {
                    Ok(_) => self.move_to(UpdaterState::Applying { version }, UpdaterAction::ApplyDownloaded),
                    Err(e) => {
                        let not_found = match e {
                            DownloadError::HttpStatus(code) => code == 404,
                            _ => false,
                        };
                        if version.is_some() && not_found {
                            self.move_to(UpdaterState::Converged, UpdaterAction::Finish)
                        } else {
                            self.move_to(UpdaterState::Failed(UpdateError::Download(e)), UpdaterAction::Finish)
                        }
                    },
                },
                _ => self.move_to(UpdaterState::Failed(UpdateError::OutOfOrder), UpdaterAction::Finish),
            },
            UpdaterState::Applying { version } => match event {
                UpdaterEvent::Applied { result, manifest_present } => match result {
                    Ok(_) => if version.is_none() && !manifest_present {
                        self.move_to(UpdaterState::Converged, UpdaterAction::Finish)
                    } else {
                        self.move_to(UpdaterState::FetchingManifest { previous: version }, UpdaterAction::ReadManifest)
                    },
                    Err(e) => self.move_to(UpdaterState::Failed(e), UpdaterAction::Finish),
                },
                _ => self.move_to(UpdaterState::Failed(UpdateError::OutOfOrder), UpdaterAction::Finish),
            },
            UpdaterState::FetchingManifest { previous } => match event {
                UpdaterEvent::ManifestRead(r) => match r {
                    Err(e) => self.move_to(UpdaterState::Failed(e), UpdaterAction::Finish),
                    Ok(code) => {
                        let same = match &previous {
                            Some(p) => *p == code,
                            None => false,
                        };
                        if same {
                            self.move_to(UpdaterState::Converged, UpdaterAction::Finish)
                        } else {
                            let url = versioned_url(code.as_str());
                            self.start_download(Some(code), url)
                        }
                    },
                },
                _ => self.move_to(UpdaterState::Failed(UpdateError::OutOfOrder), UpdaterAction::Finish),
            },
        }
    }
}

/// When the manifest reports the same version after the archive of that
/// version was applied, the run converges after exactly one download/apply
/// cycle: one download of the version's archive, one apply, one re-read.
pub proof fn lemma_converges_after_one_cycle(
    s0: VersionChainUpdater,
    s1: VersionChainUpdater,
    s2: VersionChainUpdater,
    s3: VersionChainUpdater,
    s4: VersionChainUpdater,
    a1: UpdaterAction,
    a2: UpdaterAction,
    a3: UpdaterAction,
    a4: UpdaterAction,
    code: String,
    code_again: String,
)
    requires
        s0.state == (UpdaterState::FetchingManifest { previous: None }),
        s0.cycles < MAX_CHAIN_CYCLES,
        code_again@ == code@,
        step_spec(s0, UpdaterEvent::ManifestRead(Ok(code)), s1, a1),
        step_spec(s1, UpdaterEvent::Downloaded(Ok(())), s2, a2),
        step_spec(s2, UpdaterEvent::Applied { result: Ok(()), manifest_present: true }, s3, a3),
        step_spec(s3, UpdaterEvent::ManifestRead(Ok(code_again)), s4, a4),
    ensures
        a1 matches UpdaterAction::Download(u) && u@ == versioned_url_of(code@),
        a2 == UpdaterAction::ApplyDownloaded,
        a3 == UpdaterAction::ReadManifest,
        a4 == UpdaterAction::Finish,
        s4.state == UpdaterState::Converged,
        s4.cycles == s0.cycles + 1,
{
}

/// Once the chain is under way, a missing next version (HTTP 404) ends the
/// run as converged, not failed.
pub proof fn lemma_not_found_converges(
    pre: VersionChainUpdater,
    version: String,
    post: VersionChainUpdater,
    act: UpdaterAction,
)
    requires
        pre.state == (UpdaterState::Downloading { version: Some(version) }),
        step_spec(pre, UpdaterEvent::Downloaded(Err(DownloadError::HttpStatus(404))), post, act),
    ensures
        post.state == UpdaterState::Converged,
        act == UpdaterAction::Finish,
{
}

/// With neither a staged archive nor a local manifest, the run fetches the
/// bootstrap manifest, downloads the full archive it names, applies it, and
/// converges when that archive brings no local manifest.
pub proof fn lemma_bootstrap_converges(
    s0: VersionChainUpdater,
    s1: VersionChainUpdater,
    s2: VersionChainUpdater,
    s3: VersionChainUpdater,
    s4: VersionChainUpdater,
    a1: UpdaterAction,
    a2: UpdaterAction,
    a3: UpdaterAction,
    a4: UpdaterAction,
    url: String,
)
    requires
        s0.state == UpdaterState::Idle,
        s0.cycles < MAX_CHAIN_CYCLES,
        step_spec(s0, UpdaterEvent::Started { staged_present: false, manifest_present: false }, s1, a1),
        step_spec(s1, UpdaterEvent::BootstrapResolved(Ok(url)), s2, a2),
        step_spec(s2, UpdaterEvent::Downloaded(Ok(())), s3, a3),
        step_spec(s3, UpdaterEvent::Applied { result: Ok(()), manifest_present: false }, s4, a4),
    ensures
        a1 == UpdaterAction::FetchBootstrapManifest,
        a2 matches UpdaterAction::Download(u) && u@ == url@,
        a3 == UpdaterAction::ApplyDownloaded,
        a4 == UpdaterAction::Finish,
        s4.state == UpdaterState::Converged,
{
}

} // verus!
