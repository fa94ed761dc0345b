//! Launch options read from the command line and the choice of the
//! universe seed.
use crate::text::{parse_u64, parse_u64_spec, str_eq};
use crate::universe::{planet_type_named, star_type_named, PlanetType, RenderMode, StarType};
use vstd::prelude::*;

verus! {

/// The characters of each argument.
pub open spec fn arg_views(args: Seq<String>) -> Seq<Seq<char>> {
    args.map_values(|a: String| a@)
}

/// Whether some argument is exactly `flag`.
pub open spec fn has_arg(args: Seq<Seq<char>>, flag: Seq<char>) -> bool {
    args.contains(flag)
}

/// The position of the first argument equal to `flag`.
pub open spec fn first_index(args: Seq<Seq<char>>, flag: Seq<char>) -> Option<int> {
    if args.contains(flag) {
        Some(choose|i: int| 0 <= i < args.len() && args[i] == flag && forall|j: int| 0 <= j < i ==> args[j] != flag)
    } else {
        None
    }
}

/// The argument after the first `flag`, if the flag is there and is
/// followed by something.
pub open spec fn value_after(args: Seq<Seq<char>>, flag: Seq<char>) -> Option<Seq<char>> {
    match first_index(args, flag) {
        Some(i) => if i + 1 < args.len() {
            Some(args[i + 1])
        } else {
            None
        },
        None => None,
    }
}

/// The position of the first argument equal to `flag`, as
/// `args.iter().position(|x| x == flag)`.
pub fn find_arg(args: &Vec<String>, flag: &str) -> (result: Option<usize>)
    ensures
        match result {
            Some(i) => i < args.len() && first_index(arg_views(args@), flag@) == Some(i as int),
            None => first_index(arg_views(args@), flag@) is None,
        },
{
    let ghost views = arg_views(args@);
    let mut i: usize = 0;
    while i < args.len()
        invariant
            views == arg_views(args@),
            views.len() == args@.len(),
            i <= args.len(),
            forall|j: int| 0 <= j < i ==> views[j] != flag@,
        decreases args.len() - i,
    {
        if str_eq(args[i].as_str(), flag) {
            assert(views[i as int] == flag@);
            assert(views.contains(flag@));
            let ghost k = choose|k: int| 0 <= k < views.len() && views[k] == flag@ && forall|j: int| 0 <= j < k ==> views[j] != flag@;
            assert(k == i) by {
                if k < i {
                } else if k > i {
                    assert(views[i as int] != flag@);
                }
            }
            return Some(i);
        }
        i = i + 1;
    }
    assert(!views.contains(flag@));
    None
}

/// Whether some argument is exactly `flag`.
pub fn contains_arg(args: &Vec<String>, flag: &str) -> (result: bool)
    ensures
        result == has_arg(arg_views(args@), flag@),
{
    find_arg(args, flag).is_some()
}

/// The argument after the first `flag`, if any.
pub fn arg_after(args: &Vec<String>, flag: &str) -> (result: Option<String>)
    ensures
        match value_after(arg_views(args@), flag@) {
            Some(v) => result matches Some(s) && s@ == v,
            None => result is None,
        },
{
    match find_arg(args, flag) {
        Some(i) => {
            if i + 1 < args.len() {
                let s = args[i + 1].clone();
                Some(s)
            } else {
                None
            }
        },
        None => None,
    }
}

/// The scenario named on the command line: the argument after
/// `--scenario`, or `default`.
pub open spec fn scenario_spec(args: Seq<Seq<char>>) -> Seq<char> {
    match value_after(args, "--scenario"@) {
        Some(v) => v,
        None => "default"@,
    }
}

/// The scenario named on the command line, or `default`.
pub fn scenario_from_args(args: &Vec<String>) -> (result: String)
    ensures
        result@ == scenario_spec(arg_views(args@)),
{
    match arg_after(args, "--scenario") {
        Some(s) => s,
        None => "default".to_string(),
    }
}

/// Window size, recording directory and indicator blink period for a
/// capture format.
#[derive(Debug)]
pub struct CaptureFormat {
    pub width: u32,
    pub height: u32,
    pub output_dir: String,
    pub blink_millis: u32,
}

/// The capture format chosen by the `shorts`, `video` or `linkedin`
/// argument (in that order of precedence), or the small default window.
pub open spec fn capture_spec(args: Seq<Seq<char>>) -> (u32, u32, Seq<char>, u32) {
    if has_arg(args, "shorts"@) {
        (1080, 1920, "recordings/shorts"@, 1000)
    } else if has_arg(args, "video"@) {
        (1920, 1080, "recordings/videos"@, 2000)
    } else if has_arg(args, "linkedin"@) {
        (1080, 1350, "recordings/linkedin"@, 1500)
    } else {
        (450, 850, "."@, 500)
    }
}

/// Everything the command line decides.
#[derive(Debug)]
pub struct LaunchOptions {
    pub render_mode: RenderMode,
    pub scenario: String,
    pub capture: CaptureFormat,
    pub force_origin: bool,
    /// The word after `--star`, when the flag is given (empty if nothing follows).
    pub star_request: Option<String>,
    pub star_override: Option<StarType>,
    /// The word after `--planet`, when the flag is given (empty if nothing follows).
    pub planet_request: Option<String>,
    pub planet_override: Option<PlanetType>,
}

/// The word that follows a flag, or the empty word when nothing does.
pub open spec fn request_spec(args: Seq<Seq<char>>, flag: Seq<char>) -> Option<Seq<char>> {
    if has_arg(args, flag) {
        match value_after(args, flag) {
            Some(v) => Some(v),
            None => Some(Seq::<char>::empty()),
        }
    } else {
        None
    }
}

fn request(args: &Vec<String>, flag: &str) -> (result: Option<String>)
    ensures
        match request_spec(arg_views(args@), flag@) {
            Some(v) => result matches Some(s) && s@ == v,
            None => result is None,
        },
{
    if contains_arg(args, flag) {
        match arg_after(args, flag) {
            Some(s) => Some(s),
            None => Some(String::new()),
        }
    } else {
        None
    }
}

impl LaunchOptions {
    /// Reads the command line: `--baked` selects baked planet textures
    /// (procedural otherwise); `--scenario <name>`; `shorts`, `video` or
    /// `linkedin` pick a capture format; `--origin` forces the origin
    /// spawn; `--star <kind>` and `--planet <kind>` force the kind of the
    /// origin star or planet when the word names one.
    pub fn from_args(args: &Vec<String>) -> (result: LaunchOptions)
        ensures
            result.render_mode == (if has_arg(arg_views(args@), "--baked"@) {
                RenderMode::Baked
            } else {
                RenderMode::Procedural
            }),
            result.scenario@ == scenario_spec(arg_views(args@)),
            (result.capture.width, result.capture.height, result.capture.output_dir@, result.capture.blink_millis)
                == capture_spec(arg_views(args@)),
            result.force_origin == has_arg(arg_views(args@), "--origin"@),
            match request_spec(arg_views(args@), "--star"@) {
                Some(v) => result.star_request matches Some(s) && s@ == v && result.star_override
                    == star_type_named(v),
                None => result.star_request is None && result.star_override is None,
            },
            match request_spec(arg_views(args@), "--planet"@) {
                Some(v) => result.planet_request matches Some(s) && s@ == v && result.planet_override
                    == planet_type_named(v),
                None => result.planet_request is None && result.planet_override is None,
            },
    {
        let render_mode = if contains_arg(args, "--baked") {
            RenderMode::Baked
        } else {
            RenderMode::Procedural
        };
        let scenario = scenario_from_args(args);
        let capture = if contains_arg(args, "shorts") {
            CaptureFormat { width: 1080, height: 1920, output_dir: "recordings/shorts".to_string(), blink_millis: 1000 }
        } else if contains_arg(args, "video") {
            CaptureFormat { width: 1920, height: 1080, output_dir: "recordings/videos".to_string(), blink_millis: 2000 }
        } else if contains_arg(args, "linkedin") {
            CaptureFormat {
                width: 1080,
                height: 1350,
                output_dir: "recordings/linkedin".to_string(),
                blink_millis: 1500,
            }
        } else {
            CaptureFormat { width: 450, height: 850, output_dir: ".".to_string(), blink_millis: 500 }
        };
        let force_origin = contains_arg(args, "--origin");
        let star_request = request(args, "--star");
        let star_override = match &star_request {
            Some(s) => StarType::from_str(s.as_str()),
            None => None,
        };
        let planet_request = request(args, "--planet");
        let planet_override = match &planet_request {
            Some(s) => PlanetType::from_str(s.as_str()),
            None => None,
        };
        LaunchOptions {
            render_mode,
            scenario,
            capture,
            force_origin,
            star_request,
            star_override,
            planet_request,
            planet_override,
        }
    }
}

/// The seed of the Milky Way scenario.
pub const MILKY_WAY_SEED: u64 = 987654321;

/// Where the universe seed comes from.
#[derive(Clone, Copy, Debug, PartialEq, Eq, Structural)]
pub enum SeedSource {
    /// The scenario fixes the seed.
    Scenario(u64),
    /// The `UNIVERSE_SEED` variable gives a valid seed.
    Environment(u64),
    /// The variable is set but is not a number: a random seed is used.
    InvalidEnvironment,
    /// No fixed seed: a random seed is used.
    Random,
}

/// Where the seed comes from: the Milky Way scenario fixes it; otherwise
/// the `UNIVERSE_SEED` value decides if set.
pub open spec fn seed_source_spec(args: Seq<Seq<char>>, env_seed: Option<Seq<char>>) -> SeedSource {
    if value_after(args, "--scenario"@) == Some("milky_way"@) {
        SeedSource::Scenario(MILKY_WAY_SEED)
    } else {
        match env_seed {
            Some(s) => match parse_u64_spec(s) {
                Some(v) => SeedSource::Environment(v),
                None => SeedSource::InvalidEnvironment,
            },
            None => SeedSource::Random,
        }
    }
}

/// Decides where the universe seed comes from, given the command line and
/// the value of `UNIVERSE_SEED` (if set).
pub fn seed_source(args: &Vec<String>, env_seed: Option<&str>) -> (result: SeedSource)
    ensures
        result == seed_source_spec(
            arg_views(args@),
            match env_seed {
                Some(s) => Some(s@),
                None => None,
            },
        ),
{
    if let Some(s) = arg_after(args, "--scenario") {
        if str_eq(s.as_str(), "milky_way") {
            return SeedSource::Scenario(MILKY_WAY_SEED);
        }
    }
    match env_seed {
        Some(s) => match parse_u64(s) {
            Some(v) => SeedSource::Environment(v),
            None => SeedSource::InvalidEnvironment,
        },
        None => SeedSource::Random,
    }
}

/// `rand::random::<u64>()`: a fresh value from the thread-local generator.
/// Nothing is promised of the value.
#[verifier::external_body]
fn random_u64() -> u64 {
    rand::random::<u64>()
}

/// The seed a source gives: its fixed value, or `random` when the source
/// leaves the seed to chance.
pub fn seed_from_source(source: SeedSource, random: u64) -> (result: u64)
    ensures
        result == match source {
            SeedSource::Scenario(v) => v,
            SeedSource::Environment(v) => v,
            _ => random,
        },
{
    match source {
        SeedSource::Scenario(v) => v,
        SeedSource::Environment(v) => v,
        _ => random,
    }
}

/// The universe seed: fixed by the scenario or by `UNIVERSE_SEED`, and
/// drawn at random otherwise (including when the variable is not a number).
pub fn get_universe_seed(args: &Vec<String>, env_seed: Option<&str>) -> (result: u64)
    ensures
        match seed_source_spec(
            arg_views(args@),
            match env_seed {
                Some(s) => Some(s@),
                None => None,
            },
        ) {
            SeedSource::Scenario(v) => result == v,
            SeedSource::Environment(v) => result == v,
            _ => true,
        },
{
    let source = seed_source(args, env_seed);
    match source {
        SeedSource::Scenario(v) => v,
        SeedSource::Environment(v) => v,
        _ => seed_from_source(source, random_u64()),
    }
}

} // verus!
