//! One job of a batch: an entry of the catalog on its way to a file.
//!
//! A job asks for the full track where its entry is a stub, picks an
//! encoding, asks where the bytes of that encoding are, asks for the bytes
//! and for the cover if the track has one, and has the file stored under
//! the name that goes with the track. The library decides each step; the
//! caller does the work that a step asks for and hands back what came of
//! it. Whatever fails, fails this job alone.

use vstd::prelude::*;
use crate::audio::{handler_for, handler_of, unsupported_text, AudioHandler};
use crate::batch::JobState;
use crate::downloader::{
    ext_of_mime,
    file_name,
    mime_type_to_ext,
    prepare_file_name,
    Downloader,
};
use crate::error::AppError;
use crate::soundcloud::model::{AudioResponse, PlaylistTrack, Track};
use crate::soundcloud::request::{
    oauth_header,
    original_artwork,
    track_url,
    Answer,
    ApiRequest,
    Entity,
};
use crate::soundcloud::selector::{
    is_selection,
    no_transcoding_text,
    nothing_fits,
    select_index,
};
use crate::soundcloud::{extension_of, DownloadedFile};

verus! {

/// What is to be stored, and how.
#[derive(Clone, Debug, PartialEq, Eq)]
pub struct StoreOrder {
    /// The name of the file, without its directory.
    pub file_name: String,
    /// How the asset is stored.
    pub handler: AudioHandler,
    /// The asset.
    pub audio: DownloadedFile,
    /// The cover, if the track has one.
    pub cover: Option<DownloadedFile>,
}

/// What the caller is to do next for a job.
#[derive(Clone, Debug, PartialEq, Eq)]
pub enum Work {
    /// Send this request and hand back the answer.
    Ask(ApiRequest),
    /// Store this file and hand back its path.
    Store(StoreOrder),
    /// Nothing: the job has ended, or what was handed back did not fit.
    Nothing,
}

/// What came of the work that a job asked for.
#[derive(Clone, Debug, PartialEq, Eq)]
pub enum Reply {
    /// The full track.
    Track(Track),
    /// Where the bytes of the encoding are.
    Audio(AudioResponse),
    /// The bytes that were asked for.
    Bytes(Vec<u8>),
    /// The path of the file that was stored.
    Stored(String),
    /// The work failed.
    Failed(AppError),
}

/// A job and what it holds at each step.
#[derive(Clone, Debug, PartialEq, Eq)]
pub enum TrackJob {
    /// Not started.
    Queued(PlaylistTrack),
    /// The entry is a stub: the full track is asked for.
    Resolving,
    /// An encoding is picked: where its bytes are is asked for.
    Locating { track: Track, audio_ext: String },
    /// The bytes of the encoding are asked for, at `url`.
    Loading { track: Track, audio_ext: String, url: String },
    /// The bytes of the cover are asked for, at `cover_url`.
    Covering { track: Track, audio_ext: String, audio: DownloadedFile, cover_url: String },
    /// The file is being stored.
    Storing,
    /// Done; the file stands at this path.
    Succeeded(String),
    /// Done; this is why it failed.
    Failed(AppError),
}

impl TrackJob {
    /// Where the job stands, as a batch sees it. A job that asks where the
    /// bytes are is `Selecting`; from the bytes on it is `Fetching`.
    pub open spec fn state_of(self) -> JobState {
        match self {
            TrackJob::Queued(_) => JobState::Queued,
            TrackJob::Resolving => JobState::Resolving,
            TrackJob::Locating { .. } => JobState::Selecting,
            TrackJob::Loading { .. } => JobState::Fetching,
            TrackJob::Covering { .. } => JobState::Fetching,
            TrackJob::Storing => JobState::Fetching,
            TrackJob::Succeeded(path) => JobState::Succeeded(path),
            TrackJob::Failed(e) => JobState::Failed(e),
        }
    }

    /// A job for an entry of a playlist.
    pub fn for_entry(entry: PlaylistTrack) -> (job: TrackJob)
        ensures
            job == TrackJob::Queued(entry),
    {
        TrackJob::Queued(entry)
    }

    /// The entry that holds an identifier and nothing else.
    pub open spec fn stub(id: u64) -> PlaylistTrack {
        PlaylistTrack {
            id,
            artwork_url: None,
            permalink: None,
            permalink_url: None,
            title: None,
            media: None,
            user: None,
        }
    }

    /// A job for a track of which only the identifier is at hand.
    pub fn for_id(id: u64) -> (job: TrackJob)
        ensures
            job == TrackJob::Queued(Self::stub(id)),
    {
        TrackJob::Queued(
            PlaylistTrack {
                id,
                artwork_url: None,
                permalink: None,
                permalink_url: None,
                title: None,
                media: None,
                user: None,
            },
        )
    }

    /// A job for a full track.
    pub fn for_track(track: Track) -> (job: TrackJob)
        ensures
            job matches TrackJob::Queued(entry) && entry.is_complete() && entry.as_track()
                == track,
    {
        let Track { id, artwork_url, permalink, permalink_url, title, media, user } = track;
        TrackJob::Queued(
            PlaylistTrack {
                id,
                artwork_url,
                permalink: Some(permalink),
                permalink_url: Some(permalink_url),
                title: Some(title),
                media: Some(media),
                user: Some(user),
            },
        )
    }

    /// Where the job stands, as a batch sees it.
    pub fn state(&self) -> (s: JobState)
        ensures
            s == self.state_of(),
    {
        match self {
            TrackJob::Queued(_) => JobState::Queued,
            TrackJob::Resolving => JobState::Resolving,
            TrackJob::Locating { .. } => JobState::Selecting,
            TrackJob::Loading { .. } => JobState::Fetching,
            TrackJob::Covering { .. } => JobState::Fetching,
            TrackJob::Storing => JobState::Fetching,
            TrackJob::Succeeded(path) => JobState::Succeeded(path.clone()),
            TrackJob::Failed(e) => JobState::Failed(e.duplicate()),
        }
    }
}

impl Downloader {
    /// The step that picks the encoding of `track` leads to `next` and
    /// `work`: where no encoding fits, the job fails with `NotFound`; else
    /// the job holds the track and the extension that goes with the picked
    /// encoding, and asks where the bytes of that encoding are.
    pub open spec fn picks(self, track: Track, next: TrackJob, work: Work) -> bool {
        let list = track.media.transcodings@;
        if nothing_fits(list) {
            &&& next matches TrackJob::Failed(AppError::NotFound(m))
            &&& m@ == no_transcoding_text()
            &&& work is Nothing
        } else {
            exists|i: int|
                {
                    &&& is_selection(list, i)
                    &&& next matches TrackJob::Locating { track: held, audio_ext }
                    &&& held == track
                    &&& audio_ext@ == ext_of_mime((#[trigger] list[i]).format.mime_type@)
                    &&& work matches Work::Ask(request)
                    &&& request.holds(
                        list[i].url@,
                        Some(oauth_header(self.client.token())),
                        Answer::Json(Entity::Stream),
                    )
                }
        }
    }

    /// The step that has the file stored leads to `next` and `work`: the
    /// order names the file after the track and holds the asset and the
    /// cover; an asset without a handler fails the job.
    pub open spec fn stores(
        self,
        track: Track,
        audio_ext: Seq<char>,
        audio: DownloadedFile,
        cover: Option<DownloadedFile>,
        next: TrackJob,
        work: Work,
    ) -> bool {
        match handler_of(audio.file_ext@, audio_ext) {
            Some(handler) => {
                &&& next == TrackJob::Storing
                &&& work matches Work::Store(order)
                &&& order.handler == handler
                &&& order.file_name@ == file_name(track, audio_ext, self.reserved_names)
                &&& order.audio == audio
                &&& order.cover == cover
            },
            None => {
                &&& next matches TrackJob::Failed(AppError::Audio(m))
                &&& m@ == unsupported_text(audio_ext)
                &&& work is Nothing
            },
        }
    }

    /// Starting `job` leads to `next` and `work`. A queued job with a full
    /// entry picks its encoding; one with a stub asks for the full track by
    /// the stub's identifier. Any other job is left as it is.
    pub open spec fn starts(self, job: TrackJob, next: TrackJob, work: Work) -> bool {
        match job {
            TrackJob::Queued(entry) => if entry.is_complete() {
                self.picks(entry.as_track(), next, work)
            } else {
                &&& next == TrackJob::Resolving
                &&& work matches Work::Ask(request)
                &&& request.holds(
                    track_url(entry.id),
                    Some(self.client.token()),
                    Answer::Json(Entity::Track),
                )
            },
            _ => next == job && work is Nothing,
        }
    }

    /// Handing `reply` to `job` leads to `next` and `work`.
    ///
    /// The full track lets a resolving job pick its encoding. The place of
    /// the bytes makes a job ask for them. The bytes of the asset make it
    /// ask for the cover in its original size, or have the file stored
    /// where the track has no artwork. The bytes of the cover have the file
    /// stored with it; a cover that is not found, without. The path of the
    /// stored file ends the job. A failure ends any running job with that
    /// error. Whatever else is handed back changes nothing.
    pub open spec fn replies(self, job: TrackJob, reply: Reply, next: TrackJob, work: Work) -> bool {
        match (job, reply) {
            (TrackJob::Resolving, Reply::Track(track)) => self.picks(track, next, work),
            (TrackJob::Locating { track, audio_ext }, Reply::Audio(place)) => {
                &&& next == TrackJob::Loading { track, audio_ext, url: place.url }
                &&& work matches Work::Ask(request)
                &&& request.holds(place.url@, Some(self.client.token()), Answer::Bytes)
            },
            (TrackJob::Loading { track, audio_ext, url }, Reply::Bytes(data)) => {
                match track.artwork_url {
                    Some(artwork) => {
                        &&& next matches TrackJob::Covering {
                            track: held,
                            audio_ext: ext,
                            audio,
                            cover_url,
                        }
                        &&& held == track
                        &&& ext == audio_ext
                        &&& audio.holds(data, extension_of(url@))
                        &&& cover_url@ == original_artwork(artwork@)
                        &&& work matches Work::Ask(request)
                        &&& request.holds(
                            original_artwork(artwork@),
                            Some(self.client.token()),
                            Answer::Bytes,
                        )
                    },
                    None => exists|audio: DownloadedFile|
                        {
                            &&& #[trigger] audio.holds(data, extension_of(url@))
                            &&& self.stores(track, audio_ext@, audio, None, next, work)
                        },
                }
            },
            (TrackJob::Covering { track, audio_ext, audio, cover_url }, Reply::Bytes(data)) => {
                exists|cover: DownloadedFile|
                    {
                        &&& #[trigger] cover.holds(data, extension_of(cover_url@))
                        &&& self.stores(track, audio_ext@, audio, Some(cover), next, work)
                    }
            },
            (
                TrackJob::Covering { track, audio_ext, audio, cover_url },
                Reply::Failed(AppError::NotFound(_)),
            ) => self.stores(track, audio_ext@, audio, None, next, work),
            (TrackJob::Storing, Reply::Stored(path)) => {
                next == TrackJob::Succeeded(path) && work is Nothing
            },
            (TrackJob::Resolving, Reply::Failed(e)) => next == TrackJob::Failed(e) && work is Nothing,
            (TrackJob::Locating { .. }, Reply::Failed(e)) => {
                next == TrackJob::Failed(e) && work is Nothing
            },
            (TrackJob::Loading { .. }, Reply::Failed(e)) => {
                next == TrackJob::Failed(e) && work is Nothing
            },
            (TrackJob::Covering { .. }, Reply::Failed(e)) => {
                next == TrackJob::Failed(e) && work is Nothing
            },
            (TrackJob::Storing, Reply::Failed(e)) => next == TrackJob::Failed(e) && work is Nothing,
            _ => next == job && work is Nothing,
        }
    }

    /// Picks the encoding of a track.
    fn pick(&self, track: Track) -> (r: (TrackJob, Work))
        ensures
            self.picks(track, r.0, r.1),
    {
        match select_index(&track.media.transcodings) {
            None => (
                TrackJob::Failed(AppError::NotFound("No suitable transcodings found".to_owned())),
                Work::Nothing,
            ),
            Some(i) => {
                let chosen = &track.media.transcodings[i];
                let audio_ext = mime_type_to_ext(&chosen.format);
                let request = self.client.stream_request(chosen);
                (TrackJob::Locating { track, audio_ext }, Work::Ask(request))
            },
        }
    }

    /// Has the file of a track stored.
    fn store(
        &self,
        track: Track,
        audio_ext: String,
        audio: DownloadedFile,
        cover: Option<DownloadedFile>,
    ) -> (r: (TrackJob, Work))
        ensures
            self.stores(track, audio_ext@, audio, cover, r.0, r.1),
    {
        match handler_for(audio.file_ext.as_str(), audio_ext.as_str()) {
            Err(e) => (TrackJob::Failed(e), Work::Nothing),
            Ok(handler) => {
                let file_name = prepare_file_name(&track, audio_ext.as_str(), self.reserved_names);
                (TrackJob::Storing, Work::Store(StoreOrder { file_name, handler, audio, cover }))
            },
        }
    }

    /// Starts a job, and says what is to be done for it.
    pub fn start(&self, job: TrackJob) -> (r: (TrackJob, Work))
        ensures
            self.starts(job, r.0, r.1),
    {
        match job {
            TrackJob::Queued(entry) => {
                let id = entry.id;
                match entry.into_track() {
                    Some(track) => self.pick(track),
                    None => (TrackJob::Resolving, Work::Ask(self.client.track_request(id))),
                }
            },
            other => (other, Work::Nothing),
        }
    }

    /// Hands a job what came of its work, and says what is to be done next.
    pub fn on_reply(&self, job: TrackJob, reply: Reply) -> (r: (TrackJob, Work))
        ensures
            self.replies(job, reply, r.0, r.1),
    {
        match (job, reply) {
            (TrackJob::Resolving, Reply::Track(track)) => self.pick(track),
            (TrackJob::Locating { track, audio_ext }, Reply::Audio(place)) => {
                let request = self.client.download_request(place.url.as_str());
                (TrackJob::Loading { track, audio_ext, url: place.url }, Work::Ask(request))
            },
            (TrackJob::Loading { track, audio_ext, url }, Reply::Bytes(data)) => {
                let audio = DownloadedFile::new(data, url.as_str());
                match self.client.cover_request(&track.artwork_url) {
                    Some(request) => {
                        let cover_url = request.url.clone();
                        (
                            TrackJob::Covering { track, audio_ext, audio, cover_url },
                            Work::Ask(request),
                        )
                    },
                    None => {
                        assert(audio.holds(data, extension_of(url@)));
                        self.store(track, audio_ext, audio, None)
                    },
                }
            },
            (TrackJob::Covering { track, audio_ext, audio, cover_url }, Reply::Bytes(data)) => {
                let cover = DownloadedFile::new(data, cover_url.as_str());
                assert(cover.holds(data, extension_of(cover_url@)));
                self.store(track, audio_ext, audio, Some(cover))
            },
            (
                TrackJob::Covering { track, audio_ext, audio, cover_url },
                Reply::Failed(AppError::NotFound(_)),
            ) => self.store(track, audio_ext, audio, None),
            (TrackJob::Storing, Reply::Stored(path)) => (TrackJob::Succeeded(path), Work::Nothing),
            (TrackJob::Resolving, Reply::Failed(e)) => (TrackJob::Failed(e), Work::Nothing),
            (TrackJob::Locating { .. }, Reply::Failed(e)) => (TrackJob::Failed(e), Work::Nothing),
            (TrackJob::Loading { .. }, Reply::Failed(e)) => (TrackJob::Failed(e), Work::Nothing),
            (TrackJob::Covering { .. }, Reply::Failed(e)) => (TrackJob::Failed(e), Work::Nothing),
            (TrackJob::Storing, Reply::Failed(e)) => (TrackJob::Failed(e), Work::Nothing),
            (other, _) => (other, Work::Nothing),
        }
    }
}

/// A job that is started leaves the queue: it runs or has ended, and it
/// has ended exactly where nothing is to be done for it.
pub proof fn lemma_started_job_runs(ctx: Downloader, job: TrackJob, next: TrackJob, work: Work)
    requires
        job is Queued,
        ctx.starts(job, next, work),
    ensures
        !(next.state_of() is Queued),
        next.state_of().is_terminal() <==> work is Nothing,
{
}

/// Whatever is handed to a job, it never goes back; a job that has ended
/// stays as it is; and where nothing is to be done for a job, it has ended
/// or was left as it was.
pub proof fn lemma_jobs_only_advance(
    ctx: Downloader,
    job: TrackJob,
    reply: Reply,
    next: TrackJob,
    work: Work,
)
    requires
        ctx.replies(job, reply, next, work),
    ensures
        job.state_of().rank() <= next.state_of().rank(),
        job.state_of().is_terminal() ==> next == job,
        next.state_of().is_terminal() ==> work is Nothing,
        work is Nothing ==> next.state_of().is_terminal() || next == job,
{
}

/// A failure that is handed to a running job ends that job with that
/// failure, but for a cover that is not found, which is no failure of the
/// job.
pub proof fn lemma_failure_ends_the_job(
    ctx: Downloader,
    job: TrackJob,
    e: AppError,
    next: TrackJob,
    work: Work,
)
    requires
        ctx.replies(job, Reply::Failed(e), next, work),
        !(job is Queued),
        !job.state_of().is_terminal(),
        !(job is Covering && e is NotFound),
    ensures
        next == TrackJob::Failed(e),
        work is Nothing,
{
}

} // verus!
