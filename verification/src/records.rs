//! Plain records the engine reports, and the small codes they travel in.

use vstd::prelude::*;

verus! {

/// Store statistics.
#[derive(Debug)]
pub struct Stats {
    pub total_frames: usize,
    pub active_frames: usize,
    pub eigenframes: usize,
    pub superseded: usize,
    pub redirects: usize,
}

impl Clone for Stats {
    fn clone(&self) -> (s: Self)
        ensures
            s == *self,
    {
        Stats {
            total_frames: self.total_frames,
            active_frames: self.active_frames,
            eigenframes: self.eigenframes,
            superseded: self.superseded,
            redirects: self.redirects,
        }
    }
}

/// Direction of a region's coherence trend.
#[derive(Debug, Clone, Copy, PartialEq, Eq, Structural)]
pub enum RegionDirection {
    Stable,
    Consolidating,
    Fragmenting,
}

/// The direction a byte code stands for: `1` consolidating, `2` fragmenting,
/// any other value stable.
pub open spec fn direction_of_code(code: u8) -> RegionDirection {
    if code == 1 {
        RegionDirection::Consolidating
    } else if code == 2 {
        RegionDirection::Fragmenting
    } else {
        RegionDirection::Stable
    }
}

/// Each direction has exactly one code, except stable, which every code
/// other than `1` and `2` stands for.
pub proof fn law_direction_codes(code: u8)
    ensures
        (direction_of_code(code) == RegionDirection::Consolidating) <==> code == 1,
        (direction_of_code(code) == RegionDirection::Fragmenting) <==> code == 2,
        (direction_of_code(code) == RegionDirection::Stable) <==> (code != 1 && code != 2),
{
}

impl RegionDirection {
    /// The direction the engine reports as a byte: `1` consolidating,
    /// `2` fragmenting, any other value stable.
    pub fn from_code(code: u8) -> (d: RegionDirection)
        ensures
            d == direction_of_code(code),
    {
        if code == 1 {
            RegionDirection::Consolidating
        } else if code == 2 {
            RegionDirection::Fragmenting
        } else {
            RegionDirection::Stable
        }
    }
}

/// The trend and split flag of a region as the engine reports them in two
/// bytes: the direction code, and a non-zero byte for a candidate split.
pub fn region_shape(direction: u8, candidate_split: u8) -> (r: (RegionDirection, bool))
    ensures
        r.0 == direction_of_code(direction),
        r.1 == (candidate_split != 0),
{
    (RegionDirection::from_code(direction), candidate_split != 0)
}

/// Which member stores a federated query searches.
#[derive(Debug, Clone, Copy)]
pub enum RoutingMode {
    /// Single best router-matched store (lowest latency).
    BestMatch,
    /// Top-`n` router-matched stores, merged.
    Top(usize),
    /// Every store: exhaustive fan-out (no routing).
    All,
}

impl RoutingMode {
    /// The mode name and store count a federated search hands the engine:
    /// `("best", 0)`, `("top", n)` or `("all", 0)`.
    pub fn engine_args(&self) -> (r: (&'static str, usize))
        ensures
            match *self {
                RoutingMode::BestMatch => r.0@ == "best"@ && r.1 == 0,
                RoutingMode::Top(n) => r.0@ == "top"@ && r.1 == n,
                RoutingMode::All => r.0@ == "all"@ && r.1 == 0,
            },
    {
        match *self {
            RoutingMode::BestMatch => ("best", 0),
            RoutingMode::Top(n) => ("top", n),
            RoutingMode::All => ("all", 0),
        }
    }
}

} // verus!
