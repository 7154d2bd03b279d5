//! The rows a leaderboard page is made of. The performance figures are
//! arbitrary-precision decimals computed by the ranked store; the core never
//! computes with them, so they are carried in their textual form.

use vstd::prelude::*;

verus! {

/// One row of a leaderboard page. `rank` is derived, never stored: the
/// service reassigns it so that a page's ranks run contiguously from
/// `offset + 1`. Verified code copies rows with `duplicate`, whose
/// contract says the copy is exact; the derived `Clone` is for callers
/// outside the proofs.
#[derive(Clone, Debug)]
pub struct LeaderboardEntry {
    /// 1-based position in the full ranking.
    pub rank: u64,
    /// Wallet or account handle identifying the trader.
    pub trader_wallet: String,
    /// Account value, as the decimal text the store produced.
    pub account_value: String,
    /// Profit and loss, as decimal text.
    pub pnl: String,
    /// Return on investment, as decimal text.
    pub roi: String,
    /// Traded volume, as decimal text.
    pub volume: String,
    /// Seconds since the epoch at which the row was last recomputed.
    pub last_updated: u64,
}

impl LeaderboardEntry {
    /// An exact copy of the row.
    pub fn duplicate(&self) -> (r: Self)
        ensures
            r == *self,
    {
        LeaderboardEntry {
            rank: self.rank,
            trader_wallet: self.trader_wallet.clone(),
            account_value: self.account_value.clone(),
            pnl: self.pnl.clone(),
            roi: self.roi.clone(),
            volume: self.volume.clone(),
            last_updated: self.last_updated,
        }
    }

    /// The same row under a different rank.
    pub fn with_rank(&self, rank: u64) -> (r: Self)
        ensures
            r == (LeaderboardEntry { rank, ..*self }),
    {
        LeaderboardEntry {
            rank,
            trader_wallet: self.trader_wallet.clone(),
            account_value: self.account_value.clone(),
            pnl: self.pnl.clone(),
            roi: self.roi.clone(),
            volume: self.volume.clone(),
            last_updated: self.last_updated,
        }
    }
}

/// An exact copy of a whole page.
pub fn clone_entries(v: &Vec<LeaderboardEntry>) -> (r: Vec<LeaderboardEntry>)
    ensures
        r@ == v@,
{
    let mut r: Vec<LeaderboardEntry> = Vec::new();
    let mut i: usize = 0;
    while i < v.len()
        invariant
            i <= v.len(),
            r@ =~= v@.subrange(0, i as int),
        decreases v.len() - i,
    {
        r.push(v[i].duplicate());
        i += 1;
    }
    proof {
        assert(r@ =~= v@);
    }
    r
}

} // verus!
