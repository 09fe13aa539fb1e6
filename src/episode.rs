//! The decisions that drive one episode's download; the caller performs the
//! file system and network work that they call for.

use vstd::prelude::*;
use crate::error::BiliMangaError;
use crate::request::{asset_jobs, index_url, jobs_follow, AssetJob};
use crate::structs::{EpInfo, EpisodeDetail, ImageIndex, ImageToken};

verus! {

/// What to do with one episode of a catalog.
#[derive(Debug, Clone, Copy, PartialEq, Eq, Structural)]
pub enum EpisodePlan {
    /// Locked and not free: nothing is fetched.
    Locked,
    /// Its directory exists already: nothing is fetched.
    AlreadyDownloaded,
    /// Create its directory, then fetch the manifest, tokens and images.
    Download,
}

/// Whether an episode may be downloaded: it is unlocked, or free.
pub open spec fn is_admitted(ep: EpInfo) -> bool {
    !(ep.is_locked && !ep.is_in_free)
}

/// The plan for an episode, given whether its directory exists: the lock
/// is looked at first, then the directory.
pub open spec fn plan_of(ep: EpInfo, dir_exists: bool) -> EpisodePlan {
    if !is_admitted(ep) {
        EpisodePlan::Locked
    } else if dir_exists {
        EpisodePlan::AlreadyDownloaded
    } else {
        EpisodePlan::Download
    }
}

/// Whether an episode may be downloaded.
pub fn is_downloadable(ep: &EpInfo) -> (r: bool)
    ensures
        r == is_admitted(*ep),
{
    !(ep.is_locked && !ep.is_in_free)
}

/// Decides what to do with an episode whose directory does or does not exist.
pub fn plan_episode(ep: &EpInfo, dir_exists: bool) -> (r: EpisodePlan)
    ensures
        r == plan_of(*ep, dir_exists),
{
    if !is_downloadable(ep) {
        EpisodePlan::Locked
    } else if dir_exists {
        EpisodePlan::AlreadyDownloaded
    } else {
        EpisodePlan::Download
    }
}

/// A locked episode that is not free is skipped whether or not its
/// directory exists, so nothing is fetched for it.
pub proof fn lemma_locked_never_fetched(ep: EpInfo, dir_exists: bool)
    requires
        ep.is_locked,
        !ep.is_in_free,
    ensures
        plan_of(ep, dir_exists) == EpisodePlan::Locked,
{
}

/// The index of the first failure among the results, or their length when
/// all succeeded.
pub open spec fn first_err_index(results: Seq<Result<(), BiliMangaError>>) -> int
    decreases results.len(),
{
    if results.len() == 0 {
        0
    } else if results[0] is Err {
        0
    } else {
        1 + first_err_index(results.drop_first())
    }
}

proof fn lemma_first_err_index(results: Seq<Result<(), BiliMangaError>>)
    ensures
        0 <= first_err_index(results) <= results.len(),
        forall|j: int| 0 <= j < first_err_index(results) ==> results[j] is Ok,
        first_err_index(results) < results.len() ==> results[first_err_index(results)] is Err,
    decreases results.len(),
{
    if results.len() > 0 && results[0] is Ok {
        let rest = results.drop_first();
        lemma_first_err_index(rest);
        assert forall|j: int| 0 <= j < first_err_index(results) implies results[j] is Ok by {
            if j > 0 {
                assert(results[j] == rest[j - 1]);
            }
        }
    }
}

/// Success when every result is a success, else the first failure.
pub open spec fn outcome_of(results: Seq<Result<(), BiliMangaError>>) -> Result<(), BiliMangaError> {
    if first_err_index(results) < results.len() {
        results[first_err_index(results)]
    } else {
        Ok(())
    }
}

/// The outcome of an episode from the outcomes of its image downloads:
/// success when all succeeded, else the first failure in page order.
pub fn first_failure(results: Vec<Result<(), BiliMangaError>>) -> (r: Result<(), BiliMangaError>)
    ensures
        r == outcome_of(results@),
        r is Ok <==> forall|i: int| 0 <= i < results@.len() ==> (#[trigger] results@[i]) is Ok,
        r is Err ==> first_err_index(results@) < results@.len() && r == results@[first_err_index(
            results@,
        )],
{
    let ghost orig = results@;
    proof {
        lemma_first_err_index(orig);
    }
    let mut rest = results;
    let mut found: Result<(), BiliMangaError> = Ok(());
    let ghost mut k: int = orig.len() as int;
    while rest.len() > 0
        invariant
            rest@ == orig.subrange(0, rest@.len() as int),
            rest@.len() <= k <= orig.len(),
            forall|j: int| rest@.len() <= j < k ==> (#[trigger] orig[j]) is Ok,
            found is Ok ==> k == orig.len(),
            found is Err ==> k < orig.len() && orig[k] == found,
        decreases rest@.len(),
    {
        let item = rest.pop().unwrap();
        if item.is_err() {
            found = item;
            proof {
                k = rest@.len() as int;
            }
        }
    }
    proof {
        if found is Err {
            assert(forall|j: int| 0 <= j < k ==> (#[trigger] orig[j]) is Ok);
            assert(first_err_index(orig) == k);
            assert(outcome_of(orig) == found);
        } else {
            assert(forall|j: int| 0 <= j < orig.len() ==> (#[trigger] orig[j]) is Ok);
            if first_err_index(orig) < orig.len() {
                assert(orig[first_err_index(orig)] is Ok);
            }
            assert(first_err_index(orig) == orig.len());
        }
    }
    if found.is_err() {
        found
    } else {
        Ok(())
    }
}


/// Where an episode's download stands.
#[derive(Debug, Clone, Copy, PartialEq, Eq, Structural)]
pub enum Stage {
    CheckingDirectory,
    CreatingDirectory,
    AwaitingIndex,
    AwaitingManifest,
    AwaitingTokens,
    AwaitingImages,
    Done,
}

/// What the caller reports after doing what the last action asked.
#[derive(Debug)]
pub enum EpisodeEvent {
    /// Whether the episode's directory exists.
    DirectoryChecked(bool),
    /// The episode's directory was created.
    DirectoryCreated,
    /// Where the encrypted manifest lies.
    IndexFetched(EpisodeDetail),
    /// The decrypted image list.
    ManifestRead(ImageIndex),
    /// The signed tokens, in the order of the requested paths.
    TokensFetched(Vec<ImageToken>),
    /// The outcome of each image download, in page order.
    ImagesSaved(Vec<Result<(), BiliMangaError>>),
    /// The last action failed.
    Failed(BiliMangaError),
}

/// What the caller is to do next for an episode.
#[derive(Debug)]
pub enum EpisodeAction {
    /// Nothing: the episode is locked.
    SkipLocked,
    /// Nothing: the episode's directory exists.
    SkipPresent,
    /// Find out whether the episode's directory exists.
    CheckDirectory,
    /// Create the episode's directory.
    CreateDirectory,
    /// Fetch the manifest location of this episode.
    FetchIndex(i64),
    /// Fetch the encrypted manifest and read its image list.
    FetchManifest { url: String, episode_id: i64, manga_id: i64 },
    /// Request signed tokens for these image paths.
    RequestTokens(Vec<String>),
    /// Download all these images at once and write each to its page file.
    SaveImages(Vec<AssetJob>),
    /// The episode is over, with this outcome.
    Finish(Result<(), BiliMangaError>),
}

/// One episode's download: the comic it belongs to, the episode, and how
/// far it has come.
#[derive(Debug)]
pub struct EpisodeRun {
    pub manga_id: i64,
    pub episode: EpInfo,
    pub stage: Stage,
}

/// What an event that comes at the wrong stage leads to.
pub open spec fn out_of_order(next: Stage, action: EpisodeAction) -> bool {
    next == Stage::Done && action matches EpisodeAction::Finish(Err(BiliMangaError::UnexpectedEvent))
}

/// The step from `stage` on `event` to `next`, asking for `action`.
pub open spec fn transition(
    stage: Stage,
    manga_id: i64,
    episode: EpInfo,
    event: EpisodeEvent,
    next: Stage,
    action: EpisodeAction,
) -> bool {
    match event {
        EpisodeEvent::Failed(e) => next == Stage::Done && action == EpisodeAction::Finish(Err(e)),
        EpisodeEvent::DirectoryChecked(exists) => if stage == Stage::CheckingDirectory {
            match plan_of(episode, exists) {
                EpisodePlan::Locked => next == Stage::Done && action is SkipLocked,
                EpisodePlan::AlreadyDownloaded => next == Stage::Done && action is SkipPresent,
                EpisodePlan::Download => next == Stage::CreatingDirectory && action is CreateDirectory,
            }
        } else {
            out_of_order(next, action)
        },
        EpisodeEvent::DirectoryCreated => if stage == Stage::CreatingDirectory {
            next == Stage::AwaitingIndex && action == EpisodeAction::FetchIndex(episode.id)
        } else {
            out_of_order(next, action)
        },
        EpisodeEvent::IndexFetched(d) => if stage == Stage::AwaitingIndex {
            &&& next == Stage::AwaitingManifest
            &&& action matches EpisodeAction::FetchManifest { url, episode_id: e, manga_id: m }
            &&& url@ == d.host@ + d.path@
            &&& e == episode.id
            &&& m == manga_id
        } else {
            out_of_order(next, action)
        },
        EpisodeEvent::ManifestRead(index) => if stage == Stage::AwaitingManifest {
            next == Stage::AwaitingTokens && action == EpisodeAction::RequestTokens(index.pics)
        } else {
            out_of_order(next, action)
        },
        EpisodeEvent::TokensFetched(tokens) => if stage == Stage::AwaitingTokens {
            &&& next == Stage::AwaitingImages
            &&& action matches EpisodeAction::SaveImages(jobs)
            &&& jobs_follow(tokens@, jobs@)
        } else {
            out_of_order(next, action)
        },
        EpisodeEvent::ImagesSaved(results) => if stage == Stage::AwaitingImages {
            next == Stage::Done && action == EpisodeAction::Finish(outcome_of(results@))
        } else {
            out_of_order(next, action)
        },
    }
}

/// Whether an action asks for work on the network.
pub open spec fn fetches(action: EpisodeAction) -> bool {
    ||| action is FetchIndex
    ||| action is FetchManifest
    ||| action is RequestTokens
    ||| action is SaveImages
}

impl EpisodeRun {
    /// Begins an episode: a locked one is over at once; any other first
    /// has its directory looked for.
    pub fn start(manga_id: i64, episode: EpInfo) -> (r: (EpisodeRun, EpisodeAction))
        ensures
            r.0.manga_id == manga_id,
            r.0.episode == episode,
            is_admitted(episode) ==> r.0.stage == Stage::CheckingDirectory && r.1 is CheckDirectory,
            !is_admitted(episode) ==> r.0.stage == Stage::Done && r.1 is SkipLocked,
    {
        if is_downloadable(&episode) {
            (EpisodeRun { manga_id, episode, stage: Stage::CheckingDirectory }, EpisodeAction::CheckDirectory)
        } else {
            (EpisodeRun { manga_id, episode, stage: Stage::Done }, EpisodeAction::SkipLocked)
        }
    }

    /// Takes the outcome of the last action and says what to do next.
    pub fn step(&mut self, event: EpisodeEvent) -> (r: EpisodeAction)
        ensures
            final(self).manga_id == old(self).manga_id,
            final(self).episode == old(self).episode,
            transition(old(self).stage, old(self).manga_id, old(self).episode, event, final(self).stage, r),
    {
        match event {
            EpisodeEvent::Failed(e) => {
                self.stage = Stage::Done;
                EpisodeAction::Finish(Err(e))
            },
            EpisodeEvent::DirectoryChecked(exists) => {
                if self.stage != Stage::CheckingDirectory {
                    self.stage = Stage::Done;
                    return EpisodeAction::Finish(Err(BiliMangaError::UnexpectedEvent));
                }
                match plan_episode(&self.episode, exists) {
                    EpisodePlan::Locked => {
                        self.stage = Stage::Done;
                        EpisodeAction::SkipLocked
                    },
                    EpisodePlan::AlreadyDownloaded => {
                        self.stage = Stage::Done;
                        EpisodeAction::SkipPresent
                    },
                    EpisodePlan::Download => {
                        self.stage = Stage::CreatingDirectory;
                        EpisodeAction::CreateDirectory
                    },
                }
            },
            EpisodeEvent::DirectoryCreated => {
                if self.stage != Stage::CreatingDirectory {
                    self.stage = Stage::Done;
                    return EpisodeAction::Finish(Err(BiliMangaError::UnexpectedEvent));
                }
                self.stage = Stage::AwaitingIndex;
                EpisodeAction::FetchIndex(self.episode.id)
            },
            EpisodeEvent::IndexFetched(d) => {
                if self.stage != Stage::AwaitingIndex {
                    self.stage = Stage::Done;
                    return EpisodeAction::Finish(Err(BiliMangaError::UnexpectedEvent));
                }
                self.stage = Stage::AwaitingManifest;
                EpisodeAction::FetchManifest {
                    url: index_url(&d),
                    episode_id: self.episode.id,
                    manga_id: self.manga_id,
                }
            },
            EpisodeEvent::ManifestRead(index) => {
                if self.stage != Stage::AwaitingManifest {
                    self.stage = Stage::Done;
                    return EpisodeAction::Finish(Err(BiliMangaError::UnexpectedEvent));
                }
                self.stage = Stage::AwaitingTokens;
                EpisodeAction::RequestTokens(index.pics)
            },
            EpisodeEvent::TokensFetched(tokens) => {
                if self.stage != Stage::AwaitingTokens {
                    self.stage = Stage::Done;
                    return EpisodeAction::Finish(Err(BiliMangaError::UnexpectedEvent));
                }
                self.stage = Stage::AwaitingImages;
                EpisodeAction::SaveImages(asset_jobs(&tokens))
            },
            EpisodeEvent::ImagesSaved(results) => {
                if self.stage != Stage::AwaitingImages {
                    self.stage = Stage::Done;
                    return EpisodeAction::Finish(Err(BiliMangaError::UnexpectedEvent));
                }
                self.stage = Stage::Done;
                EpisodeAction::Finish(first_failure(results))
            },
        }
    }
}

/// Once an episode is over, no event leads to work on the network; so a
/// locked episode, which is over at its start, fetches nothing.
pub proof fn lemma_done_fetches_nothing(
    manga_id: i64,
    episode: EpInfo,
    event: EpisodeEvent,
    next: Stage,
    action: EpisodeAction,
)
    requires
        transition(Stage::Done, manga_id, episode, event, next, action),
    ensures
        next == Stage::Done,
        !fetches(action),
{
}

/// An episode found present on disk is over without work on the network.
pub proof fn lemma_present_directory_fetches_nothing(
    manga_id: i64,
    episode: EpInfo,
    next: Stage,
    action: EpisodeAction,
)
    requires
        transition(
            Stage::CheckingDirectory,
            manga_id,
            episode,
            EpisodeEvent::DirectoryChecked(true),
            next,
            action,
        ),
    ensures
        next == Stage::Done,
        !fetches(action),
{
}

} // verus!
