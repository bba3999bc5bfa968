//! Positions in the image sequence and how they map onto result pages.
use vstd::prelude::*;

verus! {

/// Number of posts on one result page.
pub const PAGE_SIZE: u32 = 100;

/// What the user asked for on this invocation.
#[derive(Clone, Copy, Debug, PartialEq, Eq, Structural)]
pub enum Commands {
    /// Loads the next image.
    Next,
    /// Loads the previous image.
    Prev,
    /// Loads the same image again.
    Refresh,
    /// Jumps to a given position.
    Jump { new_bg: u32 },
}

/// The position that follows `prev` under `cmd`; absent means first run.
pub open spec fn navigate(prev: Option<nat>, cmd: Commands) -> nat {
    match cmd {
        Commands::Jump { new_bg } => new_bg as nat,
        Commands::Next => match prev {
            Some(p) => p + 1,
            None => 0,
        },
        Commands::Prev => match prev {
            Some(p) => if p == 0 { 0 } else { (p - 1) as nat },
            None => 0,
        },
        Commands::Refresh => match prev {
            Some(p) => p,
            None => 0,
        },
    }
}

pub open spec fn page_spec(p: nat) -> nat {
    p / (PAGE_SIZE as nat)
}

pub open spec fn offset_spec(p: nat) -> nat {
    p % (PAGE_SIZE as nat)
}

pub open spec fn opt_nat(prev: Option<u32>) -> Option<nat> {
    match prev {
        Some(p) => Some(p as nat),
        None => None,
    }
}

/// Whether `cmd` can be applied to `prev` without leaving the `u32` range.
pub open spec fn in_range(prev: Option<u32>, cmd: Commands) -> bool {
    !(cmd == Commands::Next && prev == Some(u32::MAX))
}

/// The new position after `cmd`, given the persisted one (if any).
pub fn next_position(prev: Option<u32>, cmd: Commands) -> (r: u32)
    requires
        in_range(prev, cmd),
    ensures
        r as nat == navigate(opt_nat(prev), cmd),
{
    match cmd {
        Commands::Jump { new_bg } => new_bg,
        Commands::Next => match prev {
            Some(p) => p + 1,
            None => 0,
        },
        Commands::Prev => match prev {
            Some(p) => p.saturating_sub(1),
            None => 0,
        },
        Commands::Refresh => match prev {
            Some(p) => p,
            None => 0,
        },
    }
}

/// Where a position lies: the result page and the index on that page.
#[derive(Clone, Copy, Debug, PartialEq, Eq, Structural)]
pub struct Location {
    pub page: u32,
    pub offset: u32,
}

pub open spec fn location_spec(p: nat) -> Location {
    Location { page: page_spec(p) as u32, offset: offset_spec(p) as u32 }
}

/// The page that holds `position`.
pub fn page_of(position: u32) -> (r: u32)
    ensures
        r as nat == page_spec(position as nat),
{
    position / PAGE_SIZE
}

/// The index of `position` within its page.
pub fn offset_of(position: u32) -> (r: u32)
    ensures
        r as nat == offset_spec(position as nat),
        r < PAGE_SIZE,
{
    position % PAGE_SIZE
}

pub fn locate(position: u32) -> (r: Location)
    ensures
        r == location_spec(position as nat),
        r.page as nat == page_spec(position as nat),
        r.offset as nat == offset_spec(position as nat),
{
    Location { page: page_of(position), offset: offset_of(position) }
}

/// Page and offset together give the position back, and the offset stays
/// within a page.
pub proof fn lemma_page_offset_recompose(p: nat)
    ensures
        page_spec(p) * (PAGE_SIZE as nat) + offset_spec(p) == p,
        offset_spec(p) < PAGE_SIZE as nat,
        page_spec(p) == p / 100,
        offset_spec(p) == p % 100,
{
    assert(page_spec(p) * 100 + offset_spec(p) == p) by (nonlinear_arith);
}

/// Every direction moves as stated, from any persisted position.
pub proof fn lemma_navigation(p: nat, n: u32)
    ensures
        navigate(Some(p), Commands::Prev) == if p >= 1 { (p - 1) as nat } else { 0 },
        navigate(Some(p), Commands::Next) == p + 1,
        navigate(Some(p), Commands::Refresh) == p,
        navigate(Some(p), Commands::Jump { new_bg: n }) == n as nat,
        navigate(None, Commands::Jump { new_bg: n }) == n as nat,
{
}

/// Whether the image after the current one should be warmed afterwards.
pub open spec fn prefetch_spec(cmd: Commands) -> bool {
    cmd != Commands::Prev
}

pub fn should_prefetch(cmd: Commands) -> (r: bool)
    ensures
        r == prefetch_spec(cmd),
{
    match cmd {
        Commands::Prev => false,
        _ => true,
    }
}

/// What one invocation visits: the new position, where it lies, and where
/// the position after it lies when that one is to be prefetched.
#[derive(Clone, Copy, Debug, PartialEq, Eq, Structural)]
pub struct Visit {
    pub position: u32,
    pub current: Location,
    pub prefetch: Option<Location>,
}

pub open spec fn visit_spec(prev: Option<nat>, cmd: Commands) -> Visit {
    let p = navigate(prev, cmd);
    Visit {
        position: p as u32,
        current: location_spec(p),
        prefetch: if prefetch_spec(cmd) && p < u32::MAX {
            Some(location_spec(p + 1))
        } else {
            None
        },
    }
}

/// Plans an invocation: the position to persist, the image to show, and
/// the one to prefetch (none after `Prev`, nor past the last position).
pub fn plan_visit(prev: Option<u32>, cmd: Commands) -> (r: Visit)
    requires
        in_range(prev, cmd),
    ensures
        r == visit_spec(opt_nat(prev), cmd),
        r.position as nat == navigate(opt_nat(prev), cmd),
{
    let position = next_position(prev, cmd);
    let current = locate(position);
    let prefetch = if should_prefetch(cmd) && position < u32::MAX {
        Some(locate(position + 1))
    } else {
        None
    };
    Visit { position, current, prefetch }
}

} // verus!
