//! The user's settings and the persisted position.
use vstd::prelude::*;
use vstd::string::StringExecFns;

verus! {

/// Default freshness window: one year of seconds.
pub const DEFAULT_WINDOW_SECS: u64 = 31536000;

/// Settings shared by both partitions.
#[derive(Clone, Debug)]
pub struct Config {
    /// Appended to every query's tags.
    pub tags: String,
    /// Freshness window in seconds: only posts newer than now minus this.
    pub time: u64,
    /// Upstream proxy for every request, if any.
    pub proxy: Option<String>,
}

impl Default for Config {
    fn default() -> (r: Config)
        ensures
            r.tags@ == Seq::<char>::empty(),
            r.time == 60 * 60 * 24 * 365,
            r.proxy is None,
    {
        Config { tags: String::new(), time: DEFAULT_WINDOW_SECS, proxy: None }
    }
}

/// The persisted position of one partition; absent before the first run.
#[derive(Clone, Copy, Debug, Default, PartialEq, Eq, Structural)]
pub struct Current {
    pub bg: Option<u32>,
}

impl Current {
    /// No position yet.
    pub fn empty() -> (r: Current)
        ensures
            r.bg is None,
    {
        Current { bg: None }
    }
}

pub open spec fn wallpaper_args_spec(image: Seq<char>) -> Seq<Seq<char>> {
    seq![
        "img"@,
        image,
        "--transition-type"@,
        "wipe"@,
        "--transition-fps"@,
        "60"@,
        "--transition-step"@,
        "30"@,
    ]
}

/// The arguments handed to the wallpaper setter (`swww`) to show `image`
/// with a wipe transition.
pub fn wallpaper_args(image: &str) -> (r: Vec<String>)
    ensures
        r@.map_values(|s: String| s@) == wallpaper_args_spec(image@),
{
    let mut args: Vec<String> = Vec::new();
    args.push(String::from_str("img"));
    args.push(String::from_str(image));
    args.push(String::from_str("--transition-type"));
    args.push(String::from_str("wipe"));
    args.push(String::from_str("--transition-fps"));
    args.push(String::from_str("60"));
    args.push(String::from_str("--transition-step"));
    args.push(String::from_str("30"));
    proof {
        assert(args@.map_values(|s: String| s@) =~= wallpaper_args_spec(image@));
    }
    args
}

} // verus!
