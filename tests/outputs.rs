use demo_packet_dumper::capture::encode_state_record;
use demo_packet_dumper::errors::RunError;
use demo_packet_dumper::ingest::RunConfig;
use demo_packet_dumper::outputs::{
    capture_stem, file_name, find_marker, plan_outputs, raw_file_name, state_file_name,
};
use tf_demo_parser::demo::data::game_state::GameState;

#[test]
fn output_dir_that_is_a_file_is_an_argument_error() {
    let r = plan_outputs("match.dem", false, RunConfig::new(true, false));
    assert!(matches!(r, Err(RunError::Argument)));
}

#[test]
fn input_without_marker_is_an_argument_error() {
    let r = plan_outputs("match.txt", true, RunConfig::new(true, false));
    assert!(matches!(r, Err(RunError::Argument)));
}

#[test]
fn both_channels_get_files() {
    let plan = plan_outputs("match.dem", true, RunConfig::new(true, false)).ok().unwrap();
    assert_eq!(plan.state_file.as_deref(), Some("match-gsd.msgpack"));
    assert_eq!(plan.raw_file.as_deref(), Some("match-raw.msgpack"));
    assert_eq!(plan.stale_state_file, None);
    assert_eq!(plan.stale_raw_file, None);
}

#[test]
fn disabled_raw_channel_gets_no_file() {
    let plan = plan_outputs("match.dem", true, RunConfig::new(false, false)).ok().unwrap();
    assert_eq!(plan.state_file.as_deref(), Some("match-gsd.msgpack"));
    assert_eq!(plan.raw_file, None);
    assert_eq!(plan.stale_raw_file.as_deref(), Some("match-raw.msgpack"));
    assert_eq!(plan.stale_state_file, None);
}

#[test]
fn disabled_state_channel_gets_no_file() {
    let plan = plan_outputs("match.dem", true, RunConfig::new(true, true)).ok().unwrap();
    assert_eq!(plan.state_file, None);
    assert_eq!(plan.raw_file.as_deref(), Some("match-raw.msgpack"));
    assert_eq!(plan.stale_state_file.as_deref(), Some("match-gsd.msgpack"));
    assert_eq!(plan.stale_raw_file, None);
}

#[test]
fn stem_ends_at_first_marker() {
    assert_eq!(find_marker("a.demo.dem"), Some(1));
    assert_eq!(capture_stem("a.demo.dem").as_deref(), Some("a"));
    assert_eq!(capture_stem("demos/koth_ä.dem").as_deref(), Some("koth_ä"));
    assert_eq!(capture_stem("/abs/x.dem/y.dem").as_deref(), Some("y"));
    assert_eq!(capture_stem("C:\\caps\\pl.dem").as_deref(), Some("pl"));
    assert_eq!(capture_stem("x.dem/"), None);
    assert_eq!(capture_stem(".dem").as_deref(), Some(""));
    assert_eq!(capture_stem("x.de"), None);
    assert_eq!(capture_stem(""), None);
}

#[test]
fn file_names_append_channel_suffix() {
    let stem = String::from("cp_gorge");
    assert_eq!(state_file_name(&stem), "cp_gorge-gsd.msgpack");
    assert_eq!(raw_file_name(&stem), "cp_gorge-raw.msgpack");
}

#[test]
fn state_record_is_msgpack_of_the_state() {
    let state = GameState::default();
    let bytes = encode_state_record(&state).ok().unwrap();
    assert!(!bytes.is_empty());
    assert_eq!(bytes, rmp_serde::to_vec(&state).unwrap());
}

#[test]
fn file_name_drops_directories() {
    assert_eq!(file_name("a/b/c.dem"), "c.dem");
    assert_eq!(file_name("c.dem"), "c.dem");
    assert_eq!(file_name("dir/"), "");
    assert_eq!(file_name(""), "");
}

#[test]
fn output_lands_in_output_dir_for_nested_input() {
    let plan = plan_outputs("/data/demos/match.dem", true, RunConfig::new(true, false)).ok().unwrap();
    assert_eq!(plan.state_file.as_deref(), Some("match-gsd.msgpack"));
    assert_eq!(plan.raw_file.as_deref(), Some("match-raw.msgpack"));
}
