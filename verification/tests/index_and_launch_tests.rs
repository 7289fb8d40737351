use deep_juno::launch::{frame_interval_ms, parse_launch_args, parse_u64, LaunchOptions};
use deep_juno::nation_index::NationPlanetIndex;

fn args(a: &[&str]) -> Vec<String> {
    a.iter().map(|s| s.to_string()).collect()
}

#[test]
fn index_follows_assignments() {
    let mut idx = NationPlanetIndex::default();
    assert_eq!(idx.nation_of(100), None);
    idx.update(&vec![], &vec![(1, 100), (2, 200)]);
    assert_eq!(idx.nation_of(100), Some(1));
    assert_eq!(idx.planet_of(2), Some(200));
    // Nation 1 moves to planet 300: planet 100 is dropped.
    idx.update(&vec![], &vec![(1, 300)]);
    assert_eq!(idx.nation_of(100), None);
    assert_eq!(idx.nation_of(300), Some(1));
    assert_eq!(idx.planet_of(1), Some(300));
    // Nation 2 loses its planet.
    idx.update(&vec![2], &vec![]);
    assert_eq!(idx.planet_of(2), None);
    assert_eq!(idx.nation_of(200), None);
    // Forgetting an unknown nation changes nothing.
    idx.update(&vec![9], &vec![]);
    assert_eq!(idx.nation_of(300), Some(1));
}

#[test]
fn index_keeps_a_planet_taken_before_its_old_nation_leaves() {
    let mut idx = NationPlanetIndex::default();
    idx.update(&vec![], &vec![(1, 10)]);
    // Nation 2 takes planet 10 and nation 1 moves to planet 20, in that order.
    idx.update(&vec![], &vec![(2, 10), (1, 20)]);
    assert_eq!(idx.nation_of(10), Some(2));
    assert_eq!(idx.nation_of(20), Some(1));
    assert_eq!(idx.planet_of(2), Some(10));
    assert_eq!(idx.planet_of(1), Some(20));
    // The other order gives the same index.
    let mut other = NationPlanetIndex::default();
    other.update(&vec![], &vec![(1, 10)]);
    other.update(&vec![], &vec![(1, 20), (2, 10)]);
    assert_eq!(other.nation_of(10), Some(2));
    assert_eq!(other.nation_of(20), Some(1));
}

#[test]
fn forgetting_a_nation_keeps_a_planet_that_another_nation_took() {
    let mut idx = NationPlanetIndex::default();
    idx.update(&vec![], &vec![(1, 10)]);
    idx.update(&vec![], &vec![(2, 10)]);
    assert_eq!(idx.nation_of(10), Some(2));
    // Nation 1 still points at planet 10, but the planet now names nation 2.
    idx.update(&vec![1], &vec![]);
    assert_eq!(idx.planet_of(1), None);
    assert_eq!(idx.nation_of(10), Some(2));
}

#[test]
fn index_rebuild_starts_over() {
    let mut idx = NationPlanetIndex::default();
    idx.update(&vec![], &vec![(1, 100)]);
    idx.rebuild(&vec![(2, 200), (3, 300)]);
    assert_eq!(idx.nation_of(100), None);
    assert_eq!(idx.planet_of(1), None);
    assert_eq!(idx.nation_of(200), Some(2));
    assert_eq!(idx.planet_of(3), Some(300));
}

#[test]
fn numbers_parse_like_std() {
    for s in ["0", "42", "+7", "18446744073709551615", "007", "", "+", "-1", "1a", " 1", "18446744073709551616", "99999999999999999999"] {
        assert_eq!(parse_u64(s), s.parse::<u64>().ok(), "{:?}", s);
    }
}

#[test]
fn command_line_options() {
    let d = LaunchOptions::default();
    assert_eq!(d, LaunchOptions { max_ticks: 50, seed: 42, tui_mode: false, max_tps: None });
    assert_eq!(parse_launch_args(&args(&["sim"]), d), d);
    let o = parse_launch_args(&args(&["sim", "--max-ticks", "200", "--seed", "7", "--tui", "--tps", "30"]), d);
    assert_eq!(o, LaunchOptions { max_ticks: 200, seed: 7, tui_mode: true, max_tps: Some(30) });
    let o = parse_launch_args(&args(&["sim", "--max-ticks", "-1"]), d);
    assert_eq!(o.max_ticks, u64::MAX);
    let o = parse_launch_args(&args(&["sim", "--max-ticks", "lots", "--seed", "x", "--tps", "fast"]), d);
    assert_eq!(o, d);
    // An option at the end without its value is ignored.
    let o = parse_launch_args(&args(&["sim", "--unknown", "--seed"]), d);
    assert_eq!(o, d);
    // The value of an option is never read as an option itself.
    let o = parse_launch_args(&args(&["sim", "--seed", "--tui"]), d);
    assert_eq!(o, d);
    // The program name is not an option.
    let o = parse_launch_args(&args(&["--tui"]), d);
    assert!(!o.tui_mode);
}

#[test]
fn frame_intervals() {
    assert_eq!(frame_interval_ms(Some(30), false), 33);
    assert_eq!(frame_interval_ms(Some(0), true), 0);
    assert_eq!(frame_interval_ms(None, true), 16);
    assert_eq!(frame_interval_ms(None, false), 0);
    assert_eq!(frame_interval_ms(Some(2000), false), 0);
}
