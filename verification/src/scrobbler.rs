use vstd::prelude::*;

use crate::api::{ApiClient, BatchScrobbleResponse, NowPlayingResponse, ScrobbleResponse,
    SessionResponse};
use crate::clock::unix_time_now;
use crate::digits::{dec_str, u64_to_dec_string};
use crate::error::{batch_empty_msg, batch_too_large_msg, Error};
use crate::params::ParamMap;
use crate::scrobble::{scrobble_entries, with_default_timestamp, Scrobble, ScrobbleBatch,
    ScrobbleData};

verus! {

/// The largest number of records one batch submission may carry.
pub const MAX_BATCH_SIZE: usize = 50;

/// A parameter name carrying the positional suffix of batch encoding:
/// `key[i]`.
pub open spec fn suffixed_key(key: Seq<char>, i: nat) -> Seq<char> {
    key + "["@ + dec_str(i) + "]"@
}

/// A record's serialised entries re-keyed for position `i` of a batch: every
/// parameter name gains the suffix `[i]`; the values are unchanged.
pub open spec fn suffix_entries(entries: Seq<(Seq<char>, Seq<char>)>, i: nat) -> Seq<
    (Seq<char>, Seq<char>),
>
    decreases entries.len(),
{
    if entries.len() == 0 {
        Seq::empty()
    } else {
        suffix_entries(entries.drop_last(), i).push(
            (suffixed_key(entries.last().0, i), entries.last().1),
        )
    }
}

/// The merged parameter set of a whole batch read at time `now`: for each
/// record, its serialised entries with the timestamp defaulted from `now`,
/// re-keyed with the record's position, records in batch order.
pub open spec fn batch_entries(batch: Seq<ScrobbleData>, now: u64) -> Seq<(Seq<char>, Seq<char>)>
    decreases batch.len(),
{
    if batch.len() == 0 {
        Seq::empty()
    } else {
        batch_entries(batch.drop_last(), now) + suffix_entries(
            scrobble_entries(with_default_timestamp(batch.last(), now)),
            (batch.len() - 1) as nat,
        )
    }
}

/// Suffixing never changes how many entries there are.
pub proof fn lemma_suffix_entries_len(entries: Seq<(Seq<char>, Seq<char>)>, i: nat)
    ensures
        suffix_entries(entries, i).len() == entries.len(),
    decreases entries.len(),
{
    if entries.len() > 0 {
        lemma_suffix_entries_len(entries.drop_last(), i);
    }
}

/// Suffixing keeps every entry at its position: the entry at `k` of the
/// suffixed sequence is the original entry at `k` with `[i]` appended to the
/// key and the value unchanged.
pub proof fn lemma_suffix_entries_index(entries: Seq<(Seq<char>, Seq<char>)>, i: nat, k: int)
    requires
        0 <= k < entries.len(),
    ensures
        suffix_entries(entries, i).len() == entries.len(),
        suffix_entries(entries, i)[k] == ((suffixed_key(entries[k].0, i), entries[k].1)),
    decreases entries.len(),
{
    lemma_suffix_entries_len(entries, i);
    lemma_suffix_entries_len(entries.drop_last(), i);
    if k < entries.len() - 1 {
        lemma_suffix_entries_index(entries.drop_last(), i, k);
    }
}

/// Where the entries of the record at index `i` begin inside the merged
/// parameter set: the total entry count of the records before it.
pub open spec fn batch_entry_offset(batch: Seq<ScrobbleData>, now: u64, i: int) -> int
    decreases i,
{
    if i <= 0 {
        0
    } else {
        batch_entry_offset(batch, now, i - 1) + scrobble_entries(
            with_default_timestamp(batch[i - 1], now),
        ).len()
    }
}

/// The offset of a record only depends on the records before it.
proof fn lemma_offset_prefix(batch: Seq<ScrobbleData>, now: u64, i: int)
    requires
        0 <= i <= batch.len() - 1,
    ensures
        batch_entry_offset(batch.drop_last(), now, i) == batch_entry_offset(batch, now, i),
    decreases i,
{
    if i > 0 {
        lemma_offset_prefix(batch, now, i - 1);
    }
}

/// Offsets never decrease along the batch.
proof fn lemma_offset_mono(batch: Seq<ScrobbleData>, now: u64, i: int, j: int)
    requires
        0 <= i <= j,
    ensures
        batch_entry_offset(batch, now, i) <= batch_entry_offset(batch, now, j),
    decreases j,
{
    if i < j {
        lemma_offset_mono(batch, now, i, j - 1);
    }
}

/// The merged parameter set is exactly as long as all the records' own entry
/// counts together: batch encoding drops nothing and adds nothing.
pub proof fn lemma_batch_entries_len(batch: Seq<ScrobbleData>, now: u64)
    ensures
        batch_entries(batch, now).len() == batch_entry_offset(batch, now, batch.len() as int),
    decreases batch.len(),
{
    if batch.len() > 0 {
        lemma_batch_entries_len(batch.drop_last(), now);
        lemma_suffix_entries_len(
            scrobble_entries(with_default_timestamp(batch.last(), now)),
            (batch.len() - 1) as nat,
        );
        lemma_offset_prefix(batch, now, batch.len() - 1);
    }
}

/// Batch encoding is positional, with no gaps and no reordering: entry `k` of
/// the record at index `i` stands in the merged parameter set at the record's
/// offset plus `k`, with `[i]` appended to its key and its value unchanged.
pub proof fn lemma_batch_entry_at(batch: Seq<ScrobbleData>, now: u64, i: int, k: int)
    requires
        0 <= i < batch.len(),
        0 <= k < scrobble_entries(with_default_timestamp(batch[i], now)).len(),
    ensures
        batch_entries(batch, now)[batch_entry_offset(batch, now, i) + k] == ((
            suffixed_key(scrobble_entries(with_default_timestamp(batch[i], now))[k].0, i as nat),
            scrobble_entries(with_default_timestamp(batch[i], now))[k].1,
        )),
    decreases batch.len(),
{
    let entries_i = scrobble_entries(with_default_timestamp(batch[i], now));
    let left = batch_entries(batch.drop_last(), now);
    let m = batch_entry_offset(batch, now, i) + k;
    lemma_batch_entries_len(batch.drop_last(), now);
    lemma_offset_prefix(batch, now, i);
    lemma_offset_mono(batch, now, 0, i);
    if i == batch.len() - 1 {
        lemma_suffix_entries_index(entries_i, i as nat, k);
        assert(batch.last() == batch[i]);
        assert(batch_entries(batch, now) == left + suffix_entries(entries_i, i as nat));
        assert(left.len() == batch_entry_offset(batch, now, i));
        assert((left + suffix_entries(entries_i, i as nat))[m] == suffix_entries(
            entries_i,
            i as nat,
        )[k]);
    } else {
        assert(batch.drop_last()[i] == batch[i]);
        lemma_batch_entry_at(batch.drop_last(), now, i, k);
        lemma_offset_mono(batch.drop_last(), now, i + 1, batch.len() - 1);
        lemma_offset_prefix(batch, now, i + 1);
        assert(batch_entry_offset(batch.drop_last(), now, i + 1) == batch_entry_offset(
            batch.drop_last(),
            now,
            i,
        ) + entries_i.len());
        assert(m < left.len());
        assert(batch_entries(batch, now)[m] == left[m]);
    }
}

/// The entries of the first `i + 1` records are those of the first `i`
/// records followed by the entries of the record at index `i`, each key
/// suffixed with `[i]`.
pub proof fn lemma_batch_entries_positional(batch: Seq<ScrobbleData>, now: u64, i: int)
    requires
        0 <= i < batch.len(),
    ensures
        batch_entries(batch.take(i + 1), now) == batch_entries(batch.take(i), now)
            + suffix_entries(scrobble_entries(with_default_timestamp(batch[i], now)), i as nat),
{
    let front = batch.take(i + 1);
    assert(front.drop_last() =~= batch.take(i));
    assert(front.last() == batch[i]);
}

/// Appends the entries of `params`, each key suffixed with `[i]`, to `merged`.
fn push_suffixed(merged: &mut ParamMap, params: &ParamMap, i: usize)
    ensures
        final(merged)@ == old(merged)@ + suffix_entries(params@, i as nat),
{
    let n = params.len();
    let mut j: usize = 0;
    while j < n
        invariant
            n == params@.len(),
            j <= n,
            merged@ == old(merged)@ + suffix_entries(params@.take(j as int), i as nat),
        decreases n - j,
    {
        let entry = params.get(j);
        let mut key = entry.0.clone();
        key.append("[");
        let index_digits = u64_to_dec_string(i as u64);
        key.append(index_digits.as_str());
        key.append("]");
        proof {
            assert(key@ =~= suffixed_key(params@[j as int].0, i as nat));
        }
        merged.push(key, entry.1.clone());
        proof {
            let taken = params@.take(j + 1);
            assert(taken.drop_last() =~= params@.take(j as int));
            assert(taken.last() == params@[j as int]);
        }
        j += 1;
    }
    proof {
        assert(params@.take(n as int) =~= params@);
    }
}

/// Encodes a whole batch into one flat parameter set: for the record at each
/// position `i`, its parameter map (timestamp defaulted from the single
/// reading `now`) with every name suffixed `[i]`, merged in batch order.
pub fn build_batch_params(batch: &ScrobbleBatch, now: u64) -> (r: ParamMap)
    ensures
        r@ == batch_entries(batch@, now),
{
    let mut merged = ParamMap::new();
    let n = batch.len();
    let mut i: usize = 0;
    while i < n
        invariant
            n == batch@.len(),
            i <= n,
            merged@ == batch_entries(batch@.take(i as int), now),
        decreases n - i,
    {
        let record = batch.get(i);
        let record_params = record.scrobble_params(now);
        push_suffixed(&mut merged, &record_params, i);
        proof {
            lemma_batch_entries_positional(batch@, now, i as int);
        }
        i += 1;
    }
    proof {
        assert(batch@.take(n as int) =~= batch@);
    }
    merged
}

/// Submits song-play tracking information to the scrobbling service through
/// an API-client collaborator. The scrobbler owns the only mutable state of
/// the core: the authentication session.
pub struct Scrobbler<C> {
    client: C,
    session: Option<String>,
}

impl<C: ApiClient> Scrobbler<C> {
    /// The current session state: the session key when authenticated, nothing
    /// otherwise.
    pub closed spec fn spec_session(&self) -> Option<Seq<char>> {
        match self.session {
            Option::Some(k) => Option::Some(k@),
            Option::None => Option::None,
        }
    }

    /// Creates a new scrobbler around the given collaborator, initially
    /// unauthenticated.
    pub fn new(client: C) -> (r: Self)
        ensures
            r.spec_session() is None,
    {
        Scrobbler { client, session: None }
    }

    /// Authenticates with a username and password: forwards the credentials
    /// to the collaborator and, on success, stores the returned session key.
    /// On failure the previous session state is kept unchanged and the error
    /// is propagated.
    pub fn authenticate_with_password(&mut self, username: &str, password: &str) -> (r: Result<
        SessionResponse,
        Error,
    >)
        ensures
            r matches Ok(resp) ==> final(self).spec_session() == Option::Some(resp@),
            r is Err ==> final(self).spec_session() == old(self).spec_session(),
    {
        self.client.set_user_credentials(username, password);
        match self.client.authenticate_with_password() {
            Ok(resp) => {
                self.session = Some(resp.key.clone());
                Ok(resp)
            },
            Err(error) => Err(Error::from_transport(error)),
        }
    }

    /// Authenticates with a pre-issued token, with the same session-state
    /// contract as password authentication.
    pub fn authenticate_with_token(&mut self, token: &str) -> (r: Result<SessionResponse, Error>)
        ensures
            r matches Ok(resp) ==> final(self).spec_session() == Option::Some(resp@),
            r is Err ==> final(self).spec_session() == old(self).spec_session(),
    {
        self.client.set_user_token(token);
        match self.client.authenticate_with_token() {
            Ok(resp) => {
                self.session = Some(resp.key.clone());
                Ok(resp)
            },
            Err(error) => Err(Error::from_transport(error)),
        }
    }

    /// Restores a previously persisted session directly, without any network
    /// round trip. Cannot fail.
    pub fn authenticate_with_session_key(&mut self, session_key: &str)
        ensures
            final(self).spec_session() == Option::Some(session_key@),
    {
        self.session = Some(session_key.to_owned());
    }

    /// The session key the scrobbler is currently authenticated with, or
    /// nothing when unauthenticated. No side effects.
    pub fn session_key(&self) -> (r: Option<&str>)
        ensures
            r is Some <==> self.spec_session() is Some,
            r matches Some(k) ==> self.spec_session() == Option::Some(k@),
    {
        match &self.session {
            Some(k) => Some(k.as_str()),
            None => None,
        }
    }

    /// Reports the record as the currently playing track: serialises it with
    /// `as_map` and forwards it unchanged — no timestamp is injected, since a
    /// now-playing update is inherently current. The collaborator decides the
    /// outcome; its failure is wrapped and propagated.
    pub fn now_playing(&self, scrobble: &Scrobble) -> (r: Result<NowPlayingResponse, Error>) {
        let params = scrobble.as_map();
        match self.client.send_now_playing(&params) {
            Ok(resp) => Ok(resp),
            Err(error) => Err(Error::from_transport(error)),
        }
    }

    /// Submits one play of the record: serialises it and, when it carries no
    /// explicit timestamp, fills one from the current wall-clock time; an
    /// explicit timestamp is never overwritten. Fails with the clock error
    /// when the system time cannot be read; otherwise the collaborator
    /// decides the outcome and its failure is wrapped and propagated.
    pub fn scrobble(&self, scrobble: &Scrobble) -> (r: Result<ScrobbleResponse, Error>) {
        match unix_time_now() {
            None => Err(Error::clock_error()),
            Some(now) => {
                let params = scrobble.scrobble_params(now);
                match self.client.send_scrobble(&params) {
                    Ok(resp) => Ok(resp),
                    Err(error) => Err(Error::from_transport(error)),
                }
            },
        }
    }

    /// Submits a whole batch in one request. Size is validated before any
    /// clock or network activity: more than fifty records fail with the
    /// too-large error, an empty batch with the empty error. Otherwise the
    /// wall clock is read once and the merged, positionally keyed parameter
    /// set of `build_batch_params` is forwarded; the collaborator decides the
    /// outcome and its failure is wrapped and propagated.
    pub fn scrobble_batch(&self, batch: &ScrobbleBatch) -> (r: Result<BatchScrobbleResponse, Error>)
        ensures
            batch@.len() > MAX_BATCH_SIZE ==> (r matches Err(e) && e@ == batch_too_large_msg()),
            batch@.len() == 0 ==> (r matches Err(e) && e@ == batch_empty_msg()),
    {
        let batch_count = batch.len();
        if batch_count > MAX_BATCH_SIZE {
            return Err(
                Error::new("Scrobble batch too large (must be 50 or fewer scrobbles)".to_owned()),
            );
        }
        if batch_count == 0 {
            return Err(Error::new("Scrobble batch is empty".to_owned()));
        }
        match unix_time_now() {
            None => Err(Error::clock_error()),
            Some(now) => {
                let params = build_batch_params(batch, now);
                match self.client.send_batch_scrobbles(&params) {
                    Ok(resp) => Ok(resp),
                    Err(error) => Err(Error::from_transport(error)),
                }
            },
        }
    }
}

} // verus!
