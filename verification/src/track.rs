//! Track data: the result type of the REST track lookup, queued tracks,
//! search queries, and the identity of a track's requester.

use vstd::prelude::*;

verus! {

/// Result of a track lookup on a node's REST endpoint.
#[derive(Debug, Default)]
pub struct Tracks {
    pub playlist_info: PlaylistInfo,
    pub load_type: String,
    pub tracks: Vec<Track>,
    pub exception: Option<Exception>,
}

/// One playable track: its opaque encoded reference and, when known, its
/// decoded metadata.
#[derive(Debug, Default)]
pub struct Track {
    pub track: String,
    pub info: Option<TrackInfo>,
}

/// Decoded track metadata.
#[derive(Debug, Default)]
pub struct TrackInfo {
    pub identifier: String,
    pub is_seekable: bool,
    pub author: String,
    pub length: u64,
    pub is_stream: bool,
    pub position: u64,
    pub title: String,
    pub uri: String,
}

/// Error report inside a track lookup result.
#[derive(Debug, Default)]
pub struct Exception {
    pub message: String,
    pub severity: String,
}

/// Playlist metadata inside a track lookup result.
#[derive(Debug, Default)]
pub struct PlaylistInfo {
    pub name: Option<String>,
    pub selected_track: Option<i64>,
}

/// One entry of a guild's queue. Immutable once enqueued, except for the
/// playback position inside `track`, which inbound player updates overwrite.
#[derive(Debug, Default)]
pub struct QueuedTrack {
    pub track: Track,
    pub start_time: u64,
    pub end_time: Option<u64>,
    pub requester: Option<TrackRequester>,
    pub channel: Option<u64>,
}

/// A track search query: either a free-text search or a direct URL.
#[derive(Debug, Clone)]
pub enum TrackSearch<'a> {
    Youtube(&'a str),
    Url(&'a str),
}

/// Who asked for a track, by id, by name, or both.
#[derive(Debug)]
pub struct TrackRequester {
    pub id: Option<u64>,
    pub name: Option<String>,
}

impl TrackSearch<'_> {
    /// The lookup identifier this search stands for: free-text searches get
    /// the `ytsearch:` prefix, URLs are passed through.
    pub open spec fn query_spec(&self) -> Seq<char> {
        match self {
            TrackSearch::Youtube(q) => "ytsearch:"@ + q@,
            TrackSearch::Url(u) => u@,
        }
    }

    /// Renders the lookup identifier for this search.
    pub fn query(&self) -> (r: String)
        ensures
            r@ == self.query_spec(),
    {
        match self {
            TrackSearch::Youtube(q) => {
                let mut s = String::from_str("ytsearch:");
                s.append(q);
                s
            },
            TrackSearch::Url(u) => String::from_str(u),
        }
    }
}

impl Clone for TrackInfo {
    fn clone(&self) -> (r: Self)
        ensures
            r == *self,
    {
        TrackInfo {
            identifier: self.identifier.clone(),
            is_seekable: self.is_seekable,
            author: self.author.clone(),
            length: self.length,
            is_stream: self.is_stream,
            position: self.position,
            title: self.title.clone(),
            uri: self.uri.clone(),
        }
    }
}

impl Clone for Track {
    fn clone(&self) -> (r: Self)
        ensures
            r == *self,
    {
        Track {
            track: self.track.clone(),
            info: match &self.info {
                Some(i) => Some(i.clone()),
                None => None,
            },
        }
    }
}

impl Clone for TrackRequester {
    fn clone(&self) -> (r: Self)
        ensures
            r == *self,
    {
        TrackRequester {
            id: self.id,
            name: match &self.name {
                Some(n) => Some(n.clone()),
                None => None,
            },
        }
    }
}

impl Clone for QueuedTrack {
    fn clone(&self) -> (r: Self)
        ensures
            r == *self,
    {
        QueuedTrack {
            track: self.track.clone(),
            start_time: self.start_time,
            end_time: self.end_time,
            requester: match &self.requester {
                Some(q) => Some(q.clone()),
                None => None,
            },
            channel: self.channel,
        }
    }
}

impl From<u64> for TrackRequester {
    fn from(id: u64) -> (r: TrackRequester) {
        TrackRequester { id: Some(id), name: None }
    }
}

impl vstd::std_specs::convert::FromSpecImpl<u64> for TrackRequester {
    open spec fn obeys_from_spec() -> bool {
        true
    }

    open spec fn from_spec(id: u64) -> TrackRequester {
        TrackRequester { id: Some(id), name: None }
    }
}

impl From<String> for TrackRequester {
    fn from(name: String) -> (r: TrackRequester) {
        TrackRequester { id: None, name: Some(name) }
    }
}

impl vstd::std_specs::convert::FromSpecImpl<String> for TrackRequester {
    open spec fn obeys_from_spec() -> bool {
        true
    }

    open spec fn from_spec(name: String) -> TrackRequester {
        TrackRequester { id: None, name: Some(name) }
    }
}

impl From<(u64, String)> for TrackRequester {
    fn from(data: (u64, String)) -> (r: TrackRequester) {
        TrackRequester { id: Some(data.0), name: Some(data.1) }
    }
}

impl vstd::std_specs::convert::FromSpecImpl<(u64, String)> for TrackRequester {
    open spec fn obeys_from_spec() -> bool {
        true
    }

    open spec fn from_spec(data: (u64, String)) -> TrackRequester {
        TrackRequester { id: Some(data.0), name: Some(data.1) }
    }
}


/// Whether a URL scheme prefix sits at position `i` of `s` with at least
/// one following character that is not a line break: the shape the track
/// lookup treats as a direct URL rather than free-text search.
pub open spec fn url_match_at(s: Seq<char>, i: int) -> bool {
    ||| (0 <= i && i + 7 < s.len() && s.subrange(i, i + 7) == "http://"@ && s[i + 7] != '\n')
    ||| (0 <= i && i + 8 < s.len() && s.subrange(i, i + 8) == "https://"@ && s[i + 8] != '\n')
}

/// Whether the query contains a URL anywhere.
pub open spec fn url_like(s: Seq<char>) -> bool {
    exists|i: int| url_match_at(s, i)
}

/// The identifier a free query turns into: URLs pass through, everything
/// else becomes a free-text search.
pub open spec fn auto_identifier_spec(q: Seq<char>) -> Seq<char> {
    if url_like(q) {
        q
    } else {
        "ytsearch:"@ + q
    }
}

/// Whether `pat` occurs in `s` starting at position `i`.
fn has_prefix_at(s: &str, i: usize, pat: &str) -> (r: bool)
    ensures
        r == (i + pat@.len() <= s@.len() && s@.subrange(i as int, i as int + pat@.len())
            == pat@),
{
    let sl = s.unicode_len();
    let pl = pat.unicode_len();
    if sl < i || pl > sl - i {
        return false;
    }
    let mut j: usize = 0;
    while j < pl
        invariant
            sl == s@.len(),
            pl == pat@.len(),
            i + pl <= sl,
            j <= pl,
            forall|k: int| 0 <= k < j ==> s@[i + k] == pat@[k],
        decreases pl - j,
    {
        if s.get_char(i + j) != pat.get_char(j) {
            proof {
                assert(s@.subrange(i as int, i as int + pat@.len())[j as int] == s@[i + j]);
            }
            return false;
        }
        j = j + 1;
    }
    proof {
        assert(s@.subrange(i as int, i as int + pat@.len()) =~= pat@);
    }
    true
}

/// Whether the query contains a URL: a `http://` or `https://` scheme
/// followed by at least one character that is not a line break.
pub fn looks_like_url(s: &str) -> (r: bool)
    ensures
        r == url_like(s@),
{
    proof {
        reveal_strlit("http://");
        reveal_strlit("https://");
    }
    let len = s.unicode_len();
    let mut i: usize = 0;
    while i < len
        invariant
            len == s@.len(),
            i <= len,
            forall|k: int| 0 <= k < i ==> !url_match_at(s@, k),
        decreases len - i,
    {
        proof {
            reveal_strlit("http://");
            reveal_strlit("https://");
        }
        if has_prefix_at(s, i, "http://") && i + 7 < len && s.get_char(i + 7) != '\n' {
            proof {
                assert(url_match_at(s@, i as int));
            }
            return true;
        }
        if has_prefix_at(s, i, "https://") && i + 8 < len && s.get_char(i + 8) != '\n' {
            proof {
                assert(url_match_at(s@, i as int));
            }
            return true;
        }
        proof {
            assert(!url_match_at(s@, i as int));
        }
        i = i + 1;
    }
    false
}

/// Builds the lookup identifier for a free query: queries containing a
/// URL pass through, everything else is prefixed into a free-text
/// search.
pub fn auto_search_identifier(query: &str) -> (r: String)
    ensures
        r@ == auto_identifier_spec(query@),
{
    if looks_like_url(query) {
        String::from_str(query)
    } else {
        let mut s = String::from_str("ytsearch:");
        s.append(query);
        s
    }
}

} // verus!
