use apalache_learn::model_check::{ApalacheMBT, InteractiveMBT};
use apalache_learn::total_states;
use std::path::PathBuf;
use tla_connect::ApalacheMode;

fn json(text: &str) -> serde_json::Value {
    serde_json::from_str(text).unwrap()
}

#[test]
fn apalache_defaults_reach_the_config() {
    let c = ApalacheMBT::new(PathBuf::from("examples/HourClock/HourClock.tla")).to_config();
    assert_eq!(c.spec, PathBuf::from("examples/HourClock/HourClock.tla"));
    assert_eq!(c.inv, "TraceComplete");
    assert_eq!(c.max_traces, 100);
    assert_eq!(c.max_length, 50);
    assert_eq!(c.mode, ApalacheMode::Simulate);
    assert_eq!(c.cinit, None);
    assert_eq!(c.view, None);
    assert_eq!(c.apalache_bin, "apalache-mc");
    assert_eq!(c.out_dir, None);
    assert!(!c.keep_outputs);
    assert_eq!(c.timeout, None);
}

#[test]
fn apalache_settings_reach_the_config() {
    let c = ApalacheMBT::new(PathBuf::from("examples/RB-Tree/RBT.tla"))
        .max_length(4)
        .max_traces(1)
        .inv("TraceComplete,Inv1")
        .view("TreeView")
        .cinit("ConstInit")
        .mode(ApalacheMode::Check)
        .to_config();
    assert_eq!(c.spec, PathBuf::from("examples/RB-Tree/RBT.tla"));
    assert_eq!(c.inv, "TraceComplete,Inv1");
    assert_eq!(c.max_traces, 1);
    assert_eq!(c.max_length, 4);
    assert_eq!(c.mode, ApalacheMode::Check);
    assert_eq!(c.cinit.as_deref(), Some("ConstInit"));
    assert_eq!(c.view.as_deref(), Some("TreeView"));
    assert_eq!(c.apalache_bin, "apalache-mc");
}

#[test]
fn apalache_largest_counts_are_widened() {
    let c = ApalacheMBT::new(PathBuf::from("s.tla")).max_traces(u32::MAX).max_length(u32::MAX).to_config();
    assert_eq!(c.max_traces, u32::MAX as usize);
    assert_eq!(c.max_length, u32::MAX as usize);
}

#[test]
fn apalache_last_setting_wins() {
    let c = ApalacheMBT::new(PathBuf::from("s.tla"))
        .max_traces(3)
        .max_traces(7)
        .inv("A")
        .inv("B")
        .view("V1")
        .view("V2")
        .to_config();
    assert_eq!(c.max_traces, 7);
    assert_eq!(c.inv, "B");
    assert_eq!(c.view.as_deref(), Some("V2"));
}

#[test]
fn apalache_settings_commute() {
    let a = ApalacheMBT::new(PathBuf::from("s.tla")).max_traces(3).max_length(9).cinit("C").to_config();
    let b = ApalacheMBT::new(PathBuf::from("s.tla")).cinit("C").max_length(9).max_traces(3).to_config();
    assert_eq!(a.max_traces, b.max_traces);
    assert_eq!(a.max_length, b.max_length);
    assert_eq!(a.cinit, b.cinit);
    assert_eq!(a.inv, b.inv);
    assert_eq!(a.mode, b.mode);
}

#[test]
fn interactive_defaults_reach_the_config() {
    let mbt = InteractiveMBT::new(PathBuf::from("spec/Counter.tla"));
    assert_eq!(mbt.server(), "http://localhost:8822");
    let c = mbt.to_config();
    assert_eq!(c.spec, PathBuf::from("spec/Counter.tla"));
    assert!(c.aux_files.is_empty());
    assert_eq!(c.init, "Init");
    assert_eq!(c.next, "Next");
    assert_eq!(c.max_steps, 10);
    assert_eq!(c.num_runs, 10);
    assert_eq!(c.seed, None);
    assert_eq!(c.constants, json("{}"));
}

#[test]
fn interactive_settings_reach_the_config() {
    let mbt = InteractiveMBT::new(PathBuf::from("spec/Counter.tla"))
        .init("MyInit")
        .next("MyNext")
        .max_steps(25)
        .num_runs(3)
        .seed(42)
        .server_url("http://example.org:9000");
    assert_eq!(mbt.server(), "http://example.org:9000");
    let c = mbt.to_config();
    assert_eq!(c.init, "MyInit");
    assert_eq!(c.next, "MyNext");
    assert_eq!(c.max_steps, 25);
    assert_eq!(c.num_runs, 3);
    assert_eq!(c.seed, Some(42));
}

#[test]
fn interactive_nonempty_object_constants_are_passed() {
    let constants = json(r##"{"N": 3, "Procs": {"#set": [1, 2]}}"##);
    let c = InteractiveMBT::new(PathBuf::from("s.tla")).constants(constants.clone()).to_config();
    assert_eq!(c.constants, constants);
}

#[test]
fn interactive_empty_object_constants_leave_the_default() {
    let c = InteractiveMBT::new(PathBuf::from("s.tla")).constants(json("{}")).to_config();
    assert_eq!(c.constants, json("{}"));
}

#[test]
fn interactive_null_constants_leave_the_default() {
    let c = InteractiveMBT::new(PathBuf::from("s.tla")).constants(serde_json::Value::Null).to_config();
    assert_eq!(c.constants, json("{}"));
}

#[test]
fn interactive_non_object_constants_leave_the_default() {
    for text in ["3", "\"N\"", "[1, 2]", "true"] {
        let c = InteractiveMBT::new(PathBuf::from("s.tla")).constants(json(text)).to_config();
        assert_eq!(c.constants, json("{}"), "constants {text}");
    }
}

#[test]
fn interactive_last_setting_wins() {
    let c = InteractiveMBT::new(PathBuf::from("s.tla"))
        .seed(1)
        .seed(2)
        .constants(json(r#"{"N": 1}"#))
        .constants(json("{}"))
        .num_runs(4)
        .num_runs(5)
        .to_config();
    assert_eq!(c.seed, Some(2));
    assert_eq!(c.constants, json("{}"));
    assert_eq!(c.num_runs, 5);
}

#[test]
fn interactive_settings_commute() {
    let a = InteractiveMBT::new(PathBuf::from("s.tla")).init("I").max_steps(4).seed(9).to_config();
    let b = InteractiveMBT::new(PathBuf::from("s.tla")).seed(9).max_steps(4).init("I").to_config();
    assert_eq!(a.init, b.init);
    assert_eq!(a.max_steps, b.max_steps);
    assert_eq!(a.seed, b.seed);
    assert_eq!(a.next, b.next);
}

#[test]
fn total_states_sums_the_counts() {
    assert_eq!(total_states(&[]), Some(0));
    assert_eq!(total_states(&[13]), Some(13));
    assert_eq!(total_states(&[13, 13, 5, 0, 1]), Some(32));
}

#[test]
fn total_states_at_the_limit() {
    assert_eq!(total_states(&[usize::MAX]), Some(usize::MAX));
    assert_eq!(total_states(&[usize::MAX - 1, 1]), Some(usize::MAX));
    assert_eq!(total_states(&[0, usize::MAX, 0]), Some(usize::MAX));
}

#[test]
fn total_states_overflow_is_none() {
    assert_eq!(total_states(&[usize::MAX, 1]), None);
    assert_eq!(total_states(&[usize::MAX / 2 + 1, usize::MAX / 2 + 1]), None);
    assert_eq!(total_states(&[1, usize::MAX, 0]), None);
}

#[test]
fn spec_path_is_handed_over_unchanged() {
    let path = PathBuf::from("specs").join("nested").join("Counter.tla");
    assert_eq!(ApalacheMBT::new(path.clone()).to_config().spec, path);
    assert_eq!(InteractiveMBT::new(path.clone()).to_config().spec, path);
}
