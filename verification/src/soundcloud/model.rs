//! The catalog's entities, as the resolver hands them on.

use vstd::prelude::*;

verus! {

/// A track wrapped by the listing of liked tracks.
#[derive(Clone, Debug, PartialEq, Eq)]
pub struct Like {
    pub track: Track,
}

/// A playlist and its entries, in order.
#[derive(Clone, Debug, PartialEq, Eq)]
pub struct Playlist {
    pub id: u64,
    pub permalink: String,
    pub permalink_url: String,
    pub title: String,
    pub tracks: Vec<PlaylistTrack>,
}

/// An entry of a playlist. A listing may leave out everything but the
/// identifier; such a stub has to be resolved by its identifier before it can
/// be downloaded.
#[derive(Clone, Debug, PartialEq, Eq)]
pub struct PlaylistTrack {
    pub id: u64,
    pub artwork_url: Option<String>,
    pub permalink: Option<String>,
    pub permalink_url: Option<String>,
    pub title: Option<String>,
    pub media: Option<Media>,
    pub user: Option<User>,
}

/// A track with all that a download needs.
#[derive(Clone, Debug, PartialEq, Eq)]
pub struct Track {
    pub id: u64,
    pub artwork_url: Option<String>,
    pub permalink: String,
    pub permalink_url: String,
    pub title: String,
    pub media: Media,
    pub user: User,
}

/// The encodings in which a track can be had, in the catalog's order.
#[derive(Clone, Debug, PartialEq, Eq)]
pub struct Media {
    pub transcodings: Vec<Transcoding>,
}

/// One encoding of a track: where to ask for the asset, and its tags.
#[derive(Clone, Debug, PartialEq, Eq)]
pub struct Transcoding {
    pub url: String,
    pub format: Format,
    pub quality: String,
}

/// The transport and the container of an encoding.
#[derive(Clone, Debug, PartialEq, Eq)]
pub struct Format {
    pub protocol: String,
    pub mime_type: String,
}

/// The owner of a track.
#[derive(Clone, Debug, PartialEq, Eq)]
pub struct User {
    pub id: u64,
    pub username: String,
    pub permalink: String,
}

/// One page of the listing of liked tracks.
#[derive(Clone, Debug, PartialEq, Eq)]
pub struct GetLikesResponse {
    pub collection: Vec<Like>,
    pub next_href: Option<String>,
}

/// The answer to a request for an encoding: where the bytes are.
#[derive(Clone, Debug, PartialEq, Eq)]
pub struct AudioResponse {
    pub url: String,
}

impl PlaylistTrack {
    /// Whether the entry holds every field of a track.
    pub open spec fn is_complete(self) -> bool {
        &&& self.permalink is Some
        &&& self.permalink_url is Some
        &&& self.title is Some
        &&& self.media is Some
        &&& self.user is Some
    }

    /// The track that a complete entry stands for.
    pub open spec fn as_track(self) -> Track
        recommends
            self.is_complete(),
    {
        Track {
            id: self.id,
            artwork_url: self.artwork_url,
            permalink: self.permalink->0,
            permalink_url: self.permalink_url->0,
            title: self.title->0,
            media: self.media->0,
            user: self.user->0,
        }
    }

    /// The entry as a track, if it is complete; a stub gives `None`.
    pub fn into_track(self) -> (r: Option<Track>)
        ensures
            r == if self.is_complete() {
                Some(self.as_track())
            } else {
                None
            },
    {
        let PlaylistTrack { id, artwork_url, permalink, permalink_url, title, media, user } = self;
        match (permalink, permalink_url, title, media, user) {
            (Some(permalink), Some(permalink_url), Some(title), Some(media), Some(user)) => Some(
                Track { id, artwork_url, permalink, permalink_url, title, media, user },
            ),
            _ => None,
        }
    }
}

} // verus!
