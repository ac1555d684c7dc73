//! Reading prices: feed routing and the freshness rule.

use vstd::prelude::*;

verus! {

/// A price observed for an asset; `price` is unsigned fixed-point.
#[derive(Debug, Clone, Copy, PartialEq, Eq, Structural)]
pub struct PriceQuote {
    pub asset_id: u64,
    pub price: u64,
    pub observed_at: u64,
}

/// What an oracle feed answered: a price and when it was observed.
#[derive(Debug, Clone, Copy, PartialEq, Eq, Structural)]
pub struct FeedReading {
    pub price: u64,
    pub observed_at: u64,
}

/// Why no usable quote could be had.
#[derive(Debug, Clone, Copy, PartialEq, Eq, Structural)]
pub enum OracleError {
    Stale,
    Unavailable,
    UnknownAsset,
}

/// One entry of the asset-to-feed table.
#[derive(Debug, Clone, Copy, PartialEq, Eq, Structural)]
pub struct FeedRoute {
    pub asset_id: u64,
    pub feed_id: u64,
}

/// How quotes are read: which feed serves which asset, and how old a quote may be.
pub struct OracleConfig {
    pub routes: Vec<FeedRoute>,
    pub freshness_window: u64,
}

/// The freshness window this engine uses unless configured otherwise.
pub const DEFAULT_FRESHNESS_WINDOW: u64 = 30;

/// A quote observed at `observed_at` may still be used at `now`.
pub open spec fn is_fresh(observed_at: u64, now: u64, window: u64) -> bool {
    now <= observed_at + window
}

/// `i` is the first route of `routes` that serves `asset`.
pub open spec fn first_route(routes: Seq<FeedRoute>, asset: u64, i: int) -> bool {
    &&& 0 <= i < routes.len()
    &&& routes[i].asset_id == asset
    &&& forall|j: int| 0 <= j < i ==> routes[j].asset_id != asset
}

/// Some route serves `asset`.
pub open spec fn has_route(routes: Seq<FeedRoute>, asset: u64) -> bool {
    exists|i: int| 0 <= i < routes.len() && routes[i].asset_id == asset
}

/// The quote, or the error, for `asset` given what its feed answered at `now`.
pub open spec fn accepted(
    routes: Seq<FeedRoute>,
    window: u64,
    asset: u64,
    reading: Option<FeedReading>,
    now: u64,
) -> Result<PriceQuote, OracleError> {
    if !has_route(routes, asset) {
        Err(OracleError::UnknownAsset)
    } else {
        match reading {
            None => Err(OracleError::Unavailable),
            Some(r) => if is_fresh(r.observed_at, now, window) {
                Ok(PriceQuote { asset_id: asset, price: r.price, observed_at: r.observed_at })
            } else {
                Err(OracleError::Stale)
            },
        }
    }
}

/// Decides whether a quote observed at `observed_at` is still usable at `now`.
pub fn quote_is_fresh(observed_at: u64, now: u64, window: u64) -> (r: bool)
    ensures
        r == is_fresh(observed_at, now, window),
{
    now <= observed_at || now - observed_at <= window
}

impl OracleConfig {
    /// A configuration with the default freshness window.
    pub fn new(routes: Vec<FeedRoute>) -> (r: Self)
        ensures
            r.routes@ == routes@,
            r.freshness_window == DEFAULT_FRESHNESS_WINDOW,
    {
        OracleConfig { routes, freshness_window: DEFAULT_FRESHNESS_WINDOW }
    }

    /// The feed that serves `asset_id`: the first matching route.
    pub fn feed_for(&self, asset_id: u64) -> (r: Result<u64, OracleError>)
        ensures
            r is Err <==> !has_route(self.routes@, asset_id),
            r is Err ==> r == Err::<u64, OracleError>(OracleError::UnknownAsset),
            r matches Ok(f) ==> exists|i: int|
                first_route(self.routes@, asset_id, i) && #[trigger] self.routes@[i].feed_id == f,
    {
        let mut i: usize = 0;
        while i < self.routes.len()
            invariant
                0 <= i <= self.routes@.len(),
                forall|j: int| 0 <= j < i ==> self.routes@[j].asset_id != asset_id,
            decreases self.routes@.len() - i,
        {
            if self.routes[i].asset_id == asset_id {
                assert(first_route(self.routes@, asset_id, i as int));
                return Ok(self.routes[i].feed_id);
            }
            i = i + 1;
        }
        Err(OracleError::UnknownAsset)
    }

    /// Turns a feed's answer for `asset_id` into a usable quote at `now`, or the
    /// reason there is none: an unrouted asset, no answer, or a stale answer.
    pub fn accept(&self, asset_id: u64, reading: Option<FeedReading>, now: u64) -> (r: Result<
        PriceQuote,
        OracleError,
    >)
        ensures
            r == accepted(self.routes@, self.freshness_window, asset_id, reading, now),
    {
        match self.feed_for(asset_id) {
            Err(e) => {
                return Err(e);
            },
            Ok(_) => {},
        }
        match reading {
            None => Err(OracleError::Unavailable),
            Some(rd) => if quote_is_fresh(rd.observed_at, now, self.freshness_window) {
                Ok(PriceQuote { asset_id, price: rd.price, observed_at: rd.observed_at })
            } else {
                Err(OracleError::Stale)
            },
        }
    }
}

/// A quote older than the freshness window by one unit or more is never
/// accepted, whatever its price, and for a routed asset it is rejected as
/// stale; one within the window is accepted as read.
pub proof fn lemma_freshness_enforced(
    routes: Seq<FeedRoute>,
    window: u64,
    asset: u64,
    reading: FeedReading,
    now: u64,
)
    ensures
        now >= reading.observed_at + window + 1 ==> accepted(
            routes,
            window,
            asset,
            Some(reading),
            now,
        ) is Err,
        has_route(routes, asset) && now >= reading.observed_at + window + 1 ==> accepted(
            routes,
            window,
            asset,
            Some(reading),
            now,
        ) == Err::<PriceQuote, OracleError>(OracleError::Stale),
        has_route(routes, asset) && now <= reading.observed_at + window ==> accepted(
            routes,
            window,
            asset,
            Some(reading),
            now,
        ) == Ok::<PriceQuote, OracleError>(
            PriceQuote { asset_id: asset, price: reading.price, observed_at: reading.observed_at },
        ),
{
}

} // verus!
