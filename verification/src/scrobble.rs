use vstd::prelude::*;

use crate::digits::{dec_str, u64_to_dec_string};
use crate::error::{invalid_scrobble_msg, Error};
use crate::params::ParamMap;

verus! {

/// The abstract value of one track-play record: the three required fields and
/// the optional metadata, with text as character sequences.
pub ghost struct ScrobbleData {
    pub artist: Seq<char>,
    pub track: Seq<char>,
    pub album: Seq<char>,
    pub album_artist: Option<Seq<char>>,
    pub track_number: Option<u64>,
    pub duration: Option<u64>,
    pub timestamp: Option<u64>,
    pub mbid: Option<Seq<char>>,
}

/// One track-play event. Artist, track title and album are required and
/// non-empty; everything else is optional and only serialised when set.
#[derive(Clone, Debug)]
pub struct Scrobble {
    artist: String,
    track: String,
    album: String,
    album_artist: Option<String>,
    track_number: Option<u64>,
    duration: Option<u64>,
    timestamp: Option<u64>,
    mbid: Option<String>,
}

impl View for Scrobble {
    type V = ScrobbleData;

    closed spec fn view(&self) -> ScrobbleData {
        ScrobbleData {
            artist: self.artist@,
            track: self.track@,
            album: self.album@,
            album_artist: match self.album_artist {
                Option::Some(s) => Option::Some(s@),
                Option::None => Option::None,
            },
            track_number: self.track_number,
            duration: self.duration,
            timestamp: self.timestamp,
            mbid: match self.mbid {
                Option::Some(s) => Option::Some(s@),
                Option::None => Option::None,
            },
        }
    }
}

/// Well-formedness of a record: the three required fields are non-empty.
pub open spec fn scrobble_wf(d: ScrobbleData) -> bool {
    d.artist.len() > 0 && d.track.len() > 0 && d.album.len() > 0
}

/// The entry contributed by an optional text field: one pair when the field is
/// set, nothing otherwise.
pub open spec fn opt_text_entry(key: Seq<char>, v: Option<Seq<char>>) -> Seq<
    (Seq<char>, Seq<char>),
> {
    match v {
        Option::Some(s) => seq![(key, s)],
        Option::None => Seq::empty(),
    }
}

/// The entry contributed by an optional integer field, rendered in decimal.
pub open spec fn opt_number_entry(key: Seq<char>, v: Option<u64>) -> Seq<(Seq<char>, Seq<char>)> {
    match v {
        Option::Some(n) => seq![(key, dec_str(n as nat))],
        Option::None => Seq::empty(),
    }
}

/// The full serialised form of a record: the three required entries first,
/// then each optional field that is set, under its fixed parameter name.
pub open spec fn scrobble_entries(d: ScrobbleData) -> Seq<(Seq<char>, Seq<char>)> {
    seq![("artist"@, d.artist), ("track"@, d.track), ("album"@, d.album)]
        + opt_text_entry("albumArtist"@, d.album_artist) + opt_number_entry(
        "trackNumber"@,
        d.track_number,
    ) + opt_number_entry("duration"@, d.duration) + opt_number_entry("timestamp"@, d.timestamp)
        + opt_text_entry("mbid"@, d.mbid)
}

/// The record as submitted: unchanged when it carries a timestamp, otherwise
/// with its timestamp filled from `now`.
pub open spec fn with_default_timestamp(d: ScrobbleData, now: u64) -> ScrobbleData {
    if d.timestamp is Some {
        d
    } else {
        ScrobbleData { timestamp: Option::Some(now), ..d }
    }
}

/// A record that already carries a timestamp is never changed by timestamp
/// defaulting.
pub proof fn lemma_explicit_timestamp_kept(d: ScrobbleData, now: u64)
    requires
        d.timestamp is Some,
    ensures
        with_default_timestamp(d, now) == d,
{
}

/// A record without a timestamp is submitted with `now` as its timestamp, and
/// its serialised form carries the corresponding `timestamp` entry.
pub proof fn lemma_absent_timestamp_defaulted(d: ScrobbleData, now: u64)
    requires
        d.timestamp is None,
    ensures
        with_default_timestamp(d, now).timestamp == Option::Some(now),
        scrobble_entries(with_default_timestamp(d, now)).contains(
            ("timestamp"@, dec_str(now as nat)),
        ),
{
    let e = scrobble_entries(with_default_timestamp(d, now));
    let idx = 3 + opt_text_entry("albumArtist"@, d.album_artist).len() + opt_number_entry(
        "trackNumber"@,
        d.track_number,
    ).len() + opt_number_entry("duration"@, d.duration).len();
    assert(e[idx as int] == ("timestamp"@, dec_str(now as nat)));
    assert(0 <= idx < e.len());
}

/// A record with none of the optional fields set serialises to exactly the
/// three required entries — artist, track and album — and nothing else.
pub proof fn lemma_required_entries_only(d: ScrobbleData)
    requires
        d.album_artist is None,
        d.track_number is None,
        d.duration is None,
        d.timestamp is None,
        d.mbid is None,
    ensures
        scrobble_entries(d) =~= seq![
            ("artist"@, d.artist),
            ("track"@, d.track),
            ("album"@, d.album),
        ],
{
}

impl Scrobble {
    /// Builds a record from the three required fields, leaving every optional
    /// field unset. Rejects an empty artist, track or album.
    pub fn new(artist: &str, track: &str, album: &str) -> (r: Result<Scrobble, Error>)
        ensures
            artist@.len() > 0 && track@.len() > 0 && album@.len() > 0 ==> (r matches Ok(s)
                && scrobble_wf(s@) && s@ == (ScrobbleData {
                artist: artist@,
                track: track@,
                album: album@,
                album_artist: Option::None,
                track_number: Option::None,
                duration: Option::None,
                timestamp: Option::None,
                mbid: Option::None,
            })),
            !(artist@.len() > 0 && track@.len() > 0 && album@.len() > 0) ==> (r matches Err(e)
                && e@ == invalid_scrobble_msg()),
    {
        if artist.is_empty() || track.is_empty() || album.is_empty() {
            Err(Error::new("Scrobble artist, track and album must be non-empty".to_owned()))
        } else {
            Ok(
                Scrobble {
                    artist: artist.to_owned(),
                    track: track.to_owned(),
                    album: album.to_owned(),
                    album_artist: None,
                    track_number: None,
                    duration: None,
                    timestamp: None,
                    mbid: None,
                },
            )
        }
    }

    /// Sets the album-artist field.
    pub fn with_album_artist(&mut self, album_artist: &str)
        ensures
            final(self)@ == (ScrobbleData { album_artist: Option::Some(album_artist@), ..old(
                self,
            )@ }),
    {
        self.album_artist = Some(album_artist.to_owned());
    }

    /// Sets the track-number field.
    pub fn with_track_number(&mut self, track_number: u64)
        ensures
            final(self)@ == (ScrobbleData { track_number: Option::Some(track_number), ..old(
                self,
            )@ }),
    {
        self.track_number = Some(track_number);
    }

    /// Sets the duration field, in seconds.
    pub fn with_duration(&mut self, duration: u64)
        ensures
            final(self)@ == (ScrobbleData { duration: Option::Some(duration), ..old(self)@ }),
    {
        self.duration = Some(duration);
    }

    /// Sets the timestamp field, in Unix seconds.
    pub fn with_timestamp(&mut self, timestamp: u64)
        ensures
            final(self)@ == (ScrobbleData { timestamp: Option::Some(timestamp), ..old(self)@ }),
    {
        self.timestamp = Some(timestamp);
    }

    /// Sets the musicbrainz-identifier field.
    pub fn with_mbid(&mut self, mbid: &str)
        ensures
            final(self)@ == (ScrobbleData { mbid: Option::Some(mbid@), ..old(self)@ }),
    {
        self.mbid = Some(mbid.to_owned());
    }

    /// Serialises the record into its flat parameter set: the required fields
    /// plus every optional field that is set, integers in decimal form. Pure —
    /// no clock is read and no timestamp is injected here.
    pub fn as_map(&self) -> (r: ParamMap)
        ensures
            r@ == scrobble_entries(self@),
    {
        let mut r = ParamMap::new();
        r.push("artist".to_owned(), self.artist.clone());
        r.push("track".to_owned(), self.track.clone());
        r.push("album".to_owned(), self.album.clone());
        if let Some(s) = &self.album_artist {
            r.push("albumArtist".to_owned(), s.clone());
        }
        if let Some(n) = self.track_number {
            r.push("trackNumber".to_owned(), u64_to_dec_string(n));
        }
        if let Some(n) = self.duration {
            r.push("duration".to_owned(), u64_to_dec_string(n));
        }
        if let Some(n) = self.timestamp {
            r.push("timestamp".to_owned(), u64_to_dec_string(n));
        }
        if let Some(s) = &self.mbid {
            r.push("mbid".to_owned(), s.clone());
        }
        proof {
            assert(r@ =~= scrobble_entries(self@));
        }
        r
    }

    /// A copy of the record with its timestamp filled from `now` when absent;
    /// an explicit timestamp is never overwritten.
    pub fn with_timestamp_default(&self, now: u64) -> (r: Scrobble)
        ensures
            r@ == with_default_timestamp(self@, now),
    {
        let ts: Option<u64> = match self.timestamp {
            Some(t) => Some(t),
            None => Some(now),
        };
        Scrobble {
            artist: self.artist.clone(),
            track: self.track.clone(),
            album: self.album.clone(),
            album_artist: match &self.album_artist {
                Some(s) => Some(s.clone()),
                None => None,
            },
            track_number: self.track_number,
            duration: self.duration,
            timestamp: ts,
            mbid: match &self.mbid {
                Some(s) => Some(s.clone()),
                None => None,
            },
        }
    }

    /// The parameter set submitted for one play: the serialised record with
    /// its timestamp defaulted from `now` when absent.
    pub fn scrobble_params(&self, now: u64) -> (r: ParamMap)
        ensures
            r@ == scrobble_entries(with_default_timestamp(self@, now)),
    {
        self.with_timestamp_default(now).as_map()
    }
}

/// An ordered batch of records; insertion order is significant, because batch
/// encoding derives each record's numeric index suffix from its position.
#[derive(Clone)]
pub struct ScrobbleBatch {
    scrobbles: Vec<Scrobble>,
}

impl View for ScrobbleBatch {
    type V = Seq<ScrobbleData>;

    closed spec fn view(&self) -> Seq<ScrobbleData> {
        self.scrobbles@.map_values(|s: Scrobble| s@)
    }
}

impl ScrobbleBatch {
    /// An empty batch.
    pub fn new() -> (r: Self)
        ensures
            r@ == Seq::<ScrobbleData>::empty(),
    {
        let r = ScrobbleBatch { scrobbles: Vec::new() };
        proof {
            assert(r@ =~= Seq::<ScrobbleData>::empty());
        }
        r
    }

    /// Appends one record at the end. No size check happens here: batch size
    /// is validated at submission time only.
    pub fn push(&mut self, scrobble: Scrobble)
        ensures
            final(self)@ == old(self)@.push(scrobble@),
    {
        let ghost d = scrobble@;
        self.scrobbles.push(scrobble);
        proof {
            assert(final(self)@ =~= old(self)@.push(d));
        }
    }

    /// The number of records in the batch.
    pub fn len(&self) -> (r: usize)
        ensures
            r == self@.len(),
    {
        self.scrobbles.len()
    }

    /// The record at position `i`.
    pub fn get(&self, i: usize) -> (r: &Scrobble)
        requires
            i < self@.len(),
        ensures
            r@ == self@[i as int],
    {
        &self.scrobbles[i]
    }
}

} // verus!
