use thesilentreach::launch::{
    arg_after, contains_arg, find_arg, get_universe_seed, scenario_from_args, seed_from_source, seed_source,
    LaunchOptions, SeedSource, MILKY_WAY_SEED,
};
use thesilentreach::universe::{PlanetType, RenderMode, StarType};

fn args(list: &[&str]) -> Vec<String> {
    list.iter().map(|s| s.to_string()).collect()
}

#[test]
fn test_get_universe_seed_random() {
    // Without UNIVERSE_SEED, the seed is random.
    let a = args(&["game"]);
    let seed1 = get_universe_seed(&a, None);
    let seed2 = get_universe_seed(&a, None);
    assert_ne!(seed1, seed2, "Random seeds should likely differ");
}

#[test]
fn test_get_universe_seed_env_var() {
    let seed = get_universe_seed(&args(&["game"]), Some("99999"));
    assert_eq!(seed, 99999);
}

#[test]
fn test_get_universe_seed_invalid_env_var() {
    // An invalid value falls back to a random seed without panicking.
    let seed = get_universe_seed(&args(&["game"]), Some("invalid"));
    println!("Seed from invalid: {}", seed);
    assert_eq!(seed_source(&args(&["game"]), Some("invalid")), SeedSource::InvalidEnvironment);
}

#[test]
fn milky_way_scenario_fixes_the_seed() {
    let a = args(&["game", "--scenario", "milky_way"]);
    assert_eq!(get_universe_seed(&a, Some("5")), MILKY_WAY_SEED);
    assert_eq!(get_universe_seed(&a, None), 987654321);
    assert_eq!(seed_source(&args(&["game", "--scenario", "jupiter"]), Some("5")), SeedSource::Environment(5));
    assert_eq!(seed_source(&args(&["game", "--scenario"]), None), SeedSource::Random);
}

#[test]
fn seed_from_each_source() {
    assert_eq!(seed_from_source(SeedSource::Scenario(3), 9), 3);
    assert_eq!(seed_from_source(SeedSource::Environment(4), 9), 4);
    assert_eq!(seed_from_source(SeedSource::InvalidEnvironment, 9), 9);
    assert_eq!(seed_from_source(SeedSource::Random, 9), 9);
}

#[test]
fn argument_lookup() {
    let a = args(&["game", "--star", "x", "--star", "y"]);
    assert_eq!(find_arg(&a, "--star"), Some(1));
    assert_eq!(find_arg(&a, "--planet"), None);
    assert!(contains_arg(&a, "x"));
    assert!(!contains_arg(&a, "--sta"));
    assert_eq!(arg_after(&a, "--star"), Some("x".to_string()));
    assert_eq!(arg_after(&a, "y"), None);
}

#[test]
fn scenario_defaults() {
    assert_eq!(scenario_from_args(&args(&["game"])), "default");
    assert_eq!(scenario_from_args(&args(&["game", "--scenario"])), "default");
    assert_eq!(scenario_from_args(&args(&["game", "--scenario", "our_system"])), "our_system");
}

#[test]
fn launch_options_defaults() {
    let o = LaunchOptions::from_args(&args(&["game"]));
    assert_eq!(o.render_mode, RenderMode::Procedural);
    assert_eq!(o.scenario, "default");
    assert_eq!((o.capture.width, o.capture.height), (450, 850));
    assert_eq!(o.capture.output_dir, ".");
    assert_eq!(o.capture.blink_millis, 500);
    assert!(!o.force_origin);
    assert!(o.star_request.is_none());
    assert!(o.star_override.is_none());
    assert!(o.planet_override.is_none());
}

#[test]
fn launch_options_from_flags() {
    let o = LaunchOptions::from_args(&args(&[
        "game", "--baked", "video", "shorts", "--origin", "--star", "bluegiant", "--planet", "lava",
    ]));
    assert_eq!(o.render_mode, RenderMode::Baked);
    assert_eq!((o.capture.width, o.capture.height), (1080, 1920));
    assert_eq!(o.capture.output_dir, "recordings/shorts");
    assert_eq!(o.capture.blink_millis, 1000);
    assert!(o.force_origin);
    assert_eq!(o.star_override, Some(StarType::BlueGiant));
    assert_eq!(o.planet_request, Some("lava".to_string()));
    assert_eq!(o.planet_override, None);
}

#[test]
fn launch_capture_formats() {
    let v = LaunchOptions::from_args(&args(&["game", "video", "linkedin"]));
    assert_eq!((v.capture.width, v.capture.height, v.capture.blink_millis), (1920, 1080, 2000));
    assert_eq!(v.capture.output_dir, "recordings/videos");
    let l = LaunchOptions::from_args(&args(&["game", "linkedin"]));
    assert_eq!((l.capture.width, l.capture.height, l.capture.blink_millis), (1080, 1350, 1500));
    assert_eq!(l.capture.output_dir, "recordings/linkedin");
}

#[test]
fn launch_overrides_at_end_of_line() {
    let o = LaunchOptions::from_args(&args(&["game", "--planet", "GasGiant", "--star"]));
    assert_eq!(o.star_request, Some(String::new()));
    assert_eq!(o.star_override, None);
    assert_eq!(o.planet_override, Some(PlanetType::GasGiant));
}
