//! What is asked of the catalog: the address, the credentials that go with
//! it, and the shape in which the answer comes.

use vstd::prelude::*;
use vstd::string::StringExecFns;
use crate::soundcloud::model::Transcoding;
use crate::text::{decimal, u64_to_string};

verus! {

/// Where the catalog's JSON interface stands.
pub const API_BASE: &'static str = "https://api-v2.soundcloud.com/";

/// Where the profile of the token's owner is asked for.
pub const ME_URL: &'static str = "https://api-v2.soundcloud.com/me";

/// Where the pages of the site stand.
pub const SITE_BASE: &'static str = "https://soundcloud.com/";

/// The entities that a page of the site can carry.
#[derive(Clone, Copy, Debug, PartialEq, Eq)]
pub enum Hydratable {
    /// A track.
    Sound,
    /// A playlist.
    Playlist,
    /// A user.
    User,
}

/// What a JSON document of the interface holds.
#[derive(Clone, Copy, Debug, PartialEq, Eq)]
pub enum Entity {
    /// A user.
    User,
    /// A track.
    Track,
    /// A playlist.
    Playlist,
    /// One page of a user's liked tracks.
    Likes,
    /// Where the bytes of an encoding are.
    Stream,
}

/// The shape in which an answer comes.
#[derive(Clone, Copy, Debug, PartialEq, Eq)]
pub enum Answer {
    /// A JSON document of the interface, which holds this.
    Json(Entity),
    /// A page of the site, which carries an entity of this kind.
    Page(Hydratable),
    /// The bytes of an asset.
    Bytes,
}

/// One request: the address, the value of the `Authorization` header if
/// one is sent, and the shape of the answer.
#[derive(Clone, Debug, PartialEq, Eq)]
pub struct ApiRequest {
    pub url: String,
    pub authorization: Option<String>,
    pub answer: Answer,
}

impl ApiRequest {
    /// What the request holds, as plain values.
    pub open spec fn holds(
        self,
        url: Seq<char>,
        authorization: Option<Seq<char>>,
        answer: Answer,
    ) -> bool {
        &&& self.url@ == url
        &&& self.answer == answer
        &&& match (self.authorization, authorization) {
            (Some(a), Some(b)) => a@ == b,
            (None, None) => true,
            _ => false,
        }
    }
}

/// The address of a user's liked tracks, `limit` of them.
pub open spec fn likes_url(user_id: u64, limit: nat) -> Seq<char> {
    API_BASE@ + "users/"@ + decimal(user_id as nat) + "/track_likes?limit="@ + decimal(limit)
}

/// The address of a track.
pub open spec fn track_url(id: u64) -> Seq<char> {
    API_BASE@ + "tracks/"@ + decimal(id as nat)
}

/// The address of a playlist.
pub open spec fn playlist_url(id: u64) -> Seq<char> {
    API_BASE@ + "playlists/"@ + decimal(id as nat)
}

/// The address of a user's page.
pub open spec fn user_page_url(username: Seq<char>) -> Seq<char> {
    SITE_BASE@ + username
}

/// The header value that goes with a request for an encoding.
pub open spec fn oauth_header(token: Seq<char>) -> Seq<char> {
    "OAuth "@ + token
}

/// The address of an artwork in its original size: every `-large` in it
/// gives way to `-original`.
pub open spec fn original_artwork(url: Seq<char>) -> Seq<char> {
    crate::text::replaced(url, "-large"@, "-original"@)
}

/// The address of a user's liked tracks, `limit` of them.
pub fn likes_address(user_id: u64, limit: u64) -> (url: String)
    ensures
        url@ == likes_url(user_id, limit as nat),
{
    let mut url = API_BASE.to_owned();
    url.append("users/");
    url.append(u64_to_string(user_id).as_str());
    url.append("/track_likes?limit=");
    url.append(u64_to_string(limit).as_str());
    url
}

/// The catalog as seen by one holder of a token.
#[derive(Clone, Debug)]
pub struct SoundcloudClient {
    oauth: String,
}

impl SoundcloudClient {
    /// The token that the client sends.
    pub closed spec fn token(&self) -> Seq<char> {
        self.oauth@
    }

    /// A client that sends `oauth`.
    pub fn new(oauth: String) -> (client: SoundcloudClient)
        ensures
            client.token() == oauth@,
    {
        SoundcloudClient { oauth }
    }

    /// The token that the client sends.
    pub fn oauth(&self) -> (token: &String)
        ensures
            token@ == self.token(),
    {
        &self.oauth
    }

    /// A request of the interface: the token goes as it is.
    fn api(&self, url: String, answer: Answer) -> (r: ApiRequest)
        ensures
            r.holds(url@, Some(self.token()), answer),
    {
        ApiRequest { url, authorization: Some(self.oauth.clone()), answer }
    }

    /// The profile of the token's owner.
    pub fn me_request(&self) -> (r: ApiRequest)
        ensures
            r.holds(ME_URL@, Some(self.token()), Answer::Json(Entity::User)),
    {
        self.api(ME_URL.to_owned(), Answer::Json(Entity::User))
    }

    /// The first page of a user's liked tracks, `limit` of them.
    pub fn likes_request(&self, user_id: u64, limit: u32) -> (r: ApiRequest)
        ensures
            r.holds(
                likes_url(user_id, limit as nat),
                Some(self.token()),
                Answer::Json(Entity::Likes),
            ),
    {
        self.api(likes_address(user_id, limit as u64), Answer::Json(Entity::Likes))
    }

    /// A further page of liked tracks, at the address that the page before
    /// it named.
    pub fn likes_page_request(&self, url: &str) -> (r: ApiRequest)
        ensures
            r.holds(url@, Some(self.token()), Answer::Json(Entity::Likes)),
    {
        self.api(url.to_owned(), Answer::Json(Entity::Likes))
    }

    /// A track by its identifier.
    pub fn track_request(&self, id: u64) -> (r: ApiRequest)
        ensures
            r.holds(track_url(id), Some(self.token()), Answer::Json(Entity::Track)),
    {
        let mut url = API_BASE.to_owned();
        url.append("tracks/");
        url.append(u64_to_string(id).as_str());
        self.api(url, Answer::Json(Entity::Track))
    }

    /// A playlist by its identifier.
    pub fn playlist_request(&self, id: u64) -> (r: ApiRequest)
        ensures
            r.holds(playlist_url(id), Some(self.token()), Answer::Json(Entity::Playlist)),
    {
        let mut url = API_BASE.to_owned();
        url.append("playlists/");
        url.append(u64_to_string(id).as_str());
        self.api(url, Answer::Json(Entity::Playlist))
    }

    /// A page of the site that carries an entity of `kind`. No credentials
    /// go with it.
    pub fn page_request(&self, url: &str, kind: Hydratable) -> (r: ApiRequest)
        ensures
            r.holds(url@, None, Answer::Page(kind)),
    {
        ApiRequest { url: url.to_owned(), authorization: None, answer: Answer::Page(kind) }
    }

    /// A user: the token's owner where no name is given, else the page of
    /// the user of that name.
    pub fn user_request(&self, username: Option<&str>) -> (r: ApiRequest)
        ensures
            match username {
                None => r.holds(ME_URL@, Some(self.token()), Answer::Json(Entity::User)),
                Some(name) => r.holds(
                    user_page_url(name@),
                    None,
                    Answer::Page(Hydratable::User),
                ),
            },
    {
        match username {
            None => self.me_request(),
            Some(name) => {
                let mut url = SITE_BASE.to_owned();
                url.append(name);
                ApiRequest { url, authorization: None, answer: Answer::Page(Hydratable::User) }
            },
        }
    }

    /// Where the bytes of an encoding are. Here the token goes behind the
    /// word `OAuth`.
    pub fn stream_request(&self, transcoding: &Transcoding) -> (r: ApiRequest)
        ensures
            r.holds(
                transcoding.url@,
                Some(oauth_header(self.token())),
                Answer::Json(Entity::Stream),
            ),
    {
        let mut header = "OAuth ".to_owned();
        header.append(self.oauth.as_str());
        ApiRequest {
            url: transcoding.url.clone(),
            authorization: Some(header),
            answer: Answer::Json(Entity::Stream),
        }
    }

    /// The bytes at an address. The token goes as it is.
    pub fn download_request(&self, url: &str) -> (r: ApiRequest)
        ensures
            r.holds(url@, Some(self.token()), Answer::Bytes),
    {
        self.api(url.to_owned(), Answer::Bytes)
    }

    /// The cover of a track in its original size; `None` for a track
    /// without artwork.
    pub fn cover_request(&self, artwork_url: &Option<String>) -> (r: Option<ApiRequest>)
        ensures
            match (artwork_url, r) {
                (Some(url), Some(request)) => request.holds(
                    original_artwork(url@),
                    Some(self.token()),
                    Answer::Bytes,
                ),
                (None, None) => true,
                _ => false,
            },
    {
        match artwork_url {
            Some(url) => {
                let full_size = crate::text::replace_all(url.as_str(), "-large", "-original");
                Some(self.api(full_size, Answer::Bytes))
            },
            None => None,
        }
    }
}

} // verus!
