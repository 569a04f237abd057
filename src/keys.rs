use crate::error::OidcError;
use crate::urls::{parse_url, url_parses};
use vstd::prelude::*;

verus! {

/// Seconds for which a freshly fetched key set stays valid by default.
pub const DEFAULT_VALIDITY_SECS: i64 = 86400;

/// The public parameters of an RSA key, as big-endian unsigned integers.
#[derive(Debug, Clone)]
pub struct RsaPublicKey {
    pub n: Vec<u8>,
    pub e: Vec<u8>,
}

/// The algorithm family of a published key; only RSA keys carry the
/// material that verification needs.
#[derive(Debug, Clone)]
pub enum KeyAlgorithm {
    Rsa(RsaPublicKey),
    EllipticCurve,
    OctetKey,
    OctetKeyPair,
}

/// One published signing key.
#[derive(Debug, Clone)]
pub struct Jwk {
    pub algorithm: KeyAlgorithm,
}

/// A snapshot of an issuer's key set, stamped with the instant (seconds
/// since the epoch) from which it is stale.
#[derive(Debug, Clone)]
pub struct RemoteKeys {
    pub keys: Vec<Jwk>,
    pub expiry: i64,
}

impl RemoteKeys {
    pub open spec fn valid_at(&self, now: int) -> bool {
        now < self.expiry
    }

    /// Whether the snapshot may still be served at `now`.
    pub fn valid(&self, now: i64) -> (r: bool)
        ensures
            r == self.valid_at(now as int),
    {
        self.expiry > now
    }
}

/// Where an issuer publishes its key set.
pub struct RemoteKeysProvider {
    pub jwk_url: url::Url,
}

impl RemoteKeysProvider {
    /// Binds a key source to the given URL; the text must parse as a URL.
    pub fn new(jwk_url_str: &str) -> (r: Result<Self, OidcError>)
        ensures
            r is Ok <==> url_parses(jwk_url_str@),
            r is Err ==> r->Err_0 is InvalidUrl,
    {
        match parse_url(jwk_url_str) {
            Ok(jwk_url) => Ok(RemoteKeysProvider { jwk_url }),
            Err(msg) => Err(OidcError::InvalidUrl(msg)),
        }
    }
}

/// What a caller of `KeyCache::get` does next.
#[derive(Debug, Clone, Copy, PartialEq, Eq, Structural)]
pub enum CacheStep {
    /// The current snapshot is valid: use it.
    Ready,
    /// No refresh is running and the snapshot is absent or stale: this
    /// caller fetches the key set and hands it to `finish_refresh`.
    Fetch,
    /// A refresh is already running: wait for its outcome.
    Wait,
}

pub open spec fn fresh(snapshot: Option<RemoteKeys>, now: int) -> bool {
    snapshot is Some && snapshot->0.valid_at(now)
}

/// The step that a `get` at `now` yields.
pub open spec fn step_for(snapshot: Option<RemoteKeys>, refreshing: bool, now: int) -> CacheStep {
    if fresh(snapshot, now) {
        CacheStep::Ready
    } else if refreshing {
        CacheStep::Wait
    } else {
        CacheStep::Fetch
    }
}

/// `fetched_at + validity`, held within the range of `i64`.
pub open spec fn expiry_after(fetched_at: int, validity: int) -> int {
    let t = fetched_at + validity;
    if t > i64::MAX {
        i64::MAX as int
    } else if t < i64::MIN {
        i64::MIN as int
    } else {
        t
    }
}

/// The key cache of one issuer: the current snapshot, if any, and whether a
/// refresh is in flight. At most one refresh runs at a time.
pub struct KeyCache {
    pub source: RemoteKeysProvider,
    /// Seconds for which a fetched key set stays valid.
    pub validity: i64,
    pub snapshot: Option<RemoteKeys>,
    pub refreshing: bool,
}

impl KeyCache {
    /// An empty cache over `source` with the default validity window.
    pub fn new(source: RemoteKeysProvider) -> (r: KeyCache)
        ensures
            r.source == source,
            r.validity == DEFAULT_VALIDITY_SECS,
            r.snapshot is None,
            !r.refreshing,
    {
        KeyCache { source, validity: DEFAULT_VALIDITY_SECS, snapshot: None, refreshing: false }
    }

    /// An empty cache over `source` whose snapshots stay valid for
    /// `validity_secs` seconds, a positive number.
    pub fn with_validity(source: RemoteKeysProvider, validity_secs: i64) -> (r: KeyCache)
        requires
            validity_secs > 0,
        ensures
            r.source == source,
            r.validity == validity_secs,
            r.snapshot is None,
            !r.refreshing,
    {
        KeyCache { source, validity: validity_secs, snapshot: None, refreshing: false }
    }

    /// Decides how a request for the keys at `now` is served. A stale or
    /// absent snapshot is never served; the first caller to find it so starts
    /// the one refresh, and later callers wait for that refresh.
    pub fn get(&mut self, now: i64) -> (r: CacheStep)
        ensures
            r == step_for(old(self).snapshot, old(self).refreshing, now as int),
            final(self).refreshing == (old(self).refreshing || r is Fetch),
            final(self).snapshot == old(self).snapshot,
            final(self).source == old(self).source,
            final(self).validity == old(self).validity,
    {
        let ready = match &self.snapshot {
            Some(s) => s.valid(now),
            None => false,
        };
        if ready {
            CacheStep::Ready
        } else if self.refreshing {
            CacheStep::Wait
        } else {
            self.refreshing = true;
            CacheStep::Fetch
        }
    }

    /// The snapshot held now, valid or not.
    pub fn current(&self) -> (r: Option<&RemoteKeys>)
        ensures
            r is None <==> self.snapshot is None,
            r is Some ==> self.snapshot == Some(*r->0),
    {
        self.snapshot.as_ref()
    }

    /// Ends the running refresh with what it fetched at `fetched_at`. Keys
    /// become the new snapshot, valid for the cache's window; a failure
    /// leaves the old snapshot in place and is handed back, so that every
    /// waiter sees it and the next `get` starts a new refresh.
    pub fn finish_refresh(&mut self, fetched: Result<Vec<Jwk>, OidcError>, fetched_at: i64) -> (r:
        Result<(), OidcError>)
        ensures
            !final(self).refreshing,
            final(self).source == old(self).source,
            final(self).validity == old(self).validity,
            fetched is Ok ==> r is Ok && final(self).snapshot == Some(
                RemoteKeys {
                    keys: fetched->Ok_0,
                    expiry: expiry_after(fetched_at as int, old(self).validity as int) as i64,
                },
            ),
            fetched is Err ==> r is Err && r->Err_0 == fetched->Err_0 && final(self).snapshot
                == old(self).snapshot,
    {
        self.refreshing = false;
        match fetched {
            Ok(keys) => {
                let expiry = if self.validity >= 0 {
                    if fetched_at > i64::MAX - self.validity {
                        i64::MAX
                    } else {
                        fetched_at + self.validity
                    }
                } else if fetched_at < i64::MIN - self.validity {
                    i64::MIN
                } else {
                    fetched_at + self.validity
                };
                self.snapshot = Some(RemoteKeys { keys, expiry });
                Ok(())
            },
            Err(e) => Err(e),
        }
    }
}

/// The steps that `get` yields for calls at the instants `nows`, in order,
/// with no refresh finishing in between.
pub open spec fn run_gets(snapshot: Option<RemoteKeys>, refreshing: bool, nows: Seq<int>) -> Seq<
    CacheStep,
>
    decreases nows.len(),
{
    if nows.len() == 0 {
        Seq::empty()
    } else {
        let s = step_for(snapshot, refreshing, nows[0]);
        seq![s] + run_gets(snapshot, refreshing || s is Fetch, nows.drop_first())
    }
}

pub open spec fn count_fetches(steps: Seq<CacheStep>) -> nat
    decreases steps.len(),
{
    if steps.len() == 0 {
        0
    } else {
        (if steps[0] is Fetch { 1nat } else { 0nat }) + count_fetches(steps.drop_first())
    }
}

/// Single flight: however many `get` calls arrive while no refresh has
/// finished, at most one of them is told to fetch. None is while a refresh is
/// already running, and exactly one is when none runs and the first caller
/// finds no valid snapshot. The others wait for that fetch or are served a
/// valid snapshot.
pub proof fn lemma_single_flight(snapshot: Option<RemoteKeys>, refreshing: bool, nows: Seq<int>)
    ensures
        run_gets(snapshot, refreshing, nows).len() == nows.len(),
        count_fetches(run_gets(snapshot, refreshing, nows)) <= 1,
        refreshing ==> count_fetches(run_gets(snapshot, refreshing, nows)) == 0,
        !refreshing && nows.len() > 0 && !fresh(snapshot, nows[0]) ==> count_fetches(
            run_gets(snapshot, refreshing, nows),
        ) == 1,
        forall|i: int|
            0 <= i < nows.len() && #[trigger] run_gets(snapshot, refreshing, nows)[i] is Ready
                ==> fresh(snapshot, nows[i]),
    decreases nows.len(),
{
    if nows.len() > 0 {
        let s = step_for(snapshot, refreshing, nows[0]);
        let rest = run_gets(snapshot, refreshing || s is Fetch, nows.drop_first());
        lemma_single_flight(snapshot, refreshing || s is Fetch, nows.drop_first());
        let all = run_gets(snapshot, refreshing, nows);
        assert(all == seq![s] + rest);
        assert(all.drop_first() =~= rest);
        assert forall|i: int| 0 <= i < nows.len() && #[trigger] all[i] is Ready implies fresh(
            snapshot,
            nows[i],
        ) by {
            if i > 0 {
                assert(all[i] == all.drop_first()[i - 1]);
                assert(nows.drop_first()[i - 1] == nows[i]);
            }
        }
    }
}

/// The outcome of a refresh is shared: once it has installed a snapshot,
/// every `get` before that snapshot's expiry is served that same snapshot,
/// and none starts another fetch.
pub proof fn lemma_installed_snapshot_shared(snapshot: RemoteKeys, nows: Seq<int>)
    requires
        forall|i: int| 0 <= i < nows.len() ==> #[trigger] nows[i] < snapshot.expiry,
    ensures
        forall|i: int|
            0 <= i < nows.len() ==> #[trigger] run_gets(Some(snapshot), false, nows)[i] is Ready,
        count_fetches(run_gets(Some(snapshot), false, nows)) == 0,
    decreases nows.len(),
{
    lemma_single_flight(Some(snapshot), false, nows);
    if nows.len() > 0 {
        assert(nows[0] < snapshot.expiry);
        let rest = nows.drop_first();
        assert forall|i: int| 0 <= i < rest.len() implies #[trigger] rest[i] < snapshot.expiry by {
            assert(rest[i] == nows[i + 1]);
        }
        lemma_installed_snapshot_shared(snapshot, rest);
        let all = run_gets(Some(snapshot), false, nows);
        assert(all.drop_first() =~= run_gets(Some(snapshot), false, rest));
        assert forall|i: int| 0 <= i < nows.len() implies #[trigger] all[i] is Ready by {
            if i > 0 {
                assert(all[i] == all.drop_first()[i - 1]);
            }
        }
    }
}

} // verus!
