use mosaic::bridge::{Bridge, EngineResponse, Phase};
use mosaic::circuit::{netlist_lines, saved_keys};
use mosaic::results::RawEntry;
use mosaic::scalar::Scalar;

fn op_response() -> Vec<(String, RawEntry)> {
    vec![
        (String::from("@m1[gm]"), RawEntry::Real(vec![Scalar::from_micro(52)])),
        (String::from("@m1[id]"), RawEntry::Real(vec![Scalar::from_micro(1234)])),
        (String::from("@m1[vgs]"), RawEntry::Real(vec![Scalar::from_micro(2_000_000)])),
        (String::from("@m1[vds]"), RawEntry::Real(vec![Scalar::from_micro(3_000_000)])),
        (String::from("@m1[vto]"), RawEntry::Real(vec![Scalar::from_micro(750_000)])),
    ]
}

#[test]
fn construction_keeps_the_saved_quantities() {
    let b = Bridge::new(&op_response());
    assert!(matches!(b.phase, Phase::Initialized));
    for key in ["@m1[gm]", "@m1[id]", "@m1[vgs]", "@m1[vds]", "@m1[vto]"] {
        assert!(b.results.contains(&String::from(key)));
    }
    assert_eq!(b.results.get(&String::from("@m1[id]")).micro, 1234);
}

#[test]
fn saved_keys_name_the_five_quantities() {
    let keys = saved_keys();
    assert_eq!(keys, vec!["@m1[gm]", "@m1[id]", "@m1[vgs]", "@m1[vds]", "@m1[vto]"]);
}

#[test]
fn netlist_saves_the_five_quantities() {
    let lines = netlist_lines();
    assert_eq!(lines.len(), 8);
    assert_eq!(lines[2], ".save all @m1[gm] @m1[id] @m1[vgs] @m1[vds] @m1[vto]");
    assert_eq!(lines[0], ".title my awesome schematic");
    assert_eq!(lines[7], ".end");
}

#[test]
fn edit_yields_directive_and_keeps_typed_text() {
    let mut b = Bridge::new(&op_response());
    let d = b.begin_param_change(String::from("r1"), String::from("2k"));
    assert_eq!(d, "alter r1=2k");
    assert_eq!(b.params.get(&String::from("r1")).unwrap(), "2k");
}

#[test]
fn failed_alteration_changes_nothing_and_does_not_render() {
    let mut b = Bridge::new(&op_response());
    b.begin_param_change(String::from("r1"), String::from("oops"));
    let id_before = b.results.get(&String::from("@m1[id]"));
    let render = b.apply_engine_response(EngineResponse::AlterFailed);
    assert!(!render);
    assert_eq!(b.results.get(&String::from("@m1[id]")).micro, id_before.micro);
    assert!(matches!(b.phase, Phase::Initialized));
    // the typed text stays in the store even though the engine rejected it
    assert_eq!(b.params.get(&String::from("r1")).unwrap(), "oops");
}

#[test]
fn failed_solve_changes_nothing_and_does_not_render() {
    let mut b = Bridge::new(&op_response());
    b.begin_param_change(String::from("m1 w"), String::from("20u"));
    let render = b.apply_engine_response(EngineResponse::SolveFailed);
    assert!(!render);
    assert_eq!(b.results.get(&String::from("@m1[vgs]")).micro, 2_000_000);
    assert!(matches!(b.phase, Phase::Initialized));
}

#[test]
fn successful_solve_replaces_results_wholesale() {
    let mut b = Bridge::new(&op_response());
    b.begin_param_change(String::from("m1 w"), String::from("20u"));
    let fresh = vec![
        (String::from("@m1[id]"), RawEntry::Real(vec![Scalar::from_micro(99)])),
    ];
    let render = b.apply_engine_response(EngineResponse::SolveOk(fresh));
    assert!(render);
    assert!(matches!(b.phase, Phase::Updated));
    assert_eq!(b.results.get(&String::from("@m1[id]")).micro, 99);
    // stale quantities are gone, so their lookup falls back to zero
    assert_eq!(b.results.get(&String::from("@m1[gm]")).micro, 0);
}

#[test]
fn repeated_event_yields_the_same_state() {
    let mut once = Bridge::new(&op_response());
    once.begin_param_change(String::from("r1"), String::from("2k"));
    once.apply_engine_response(EngineResponse::SolveOk(op_response()));

    let mut twice = Bridge::new(&op_response());
    twice.begin_param_change(String::from("r1"), String::from("2k"));
    twice.apply_engine_response(EngineResponse::SolveOk(op_response()));
    twice.begin_param_change(String::from("r1"), String::from("2k"));
    twice.apply_engine_response(EngineResponse::SolveOk(op_response()));

    assert_eq!(
        once.params.get(&String::from("r1")).unwrap(),
        twice.params.get(&String::from("r1")).unwrap()
    );
    for key in ["@m1[gm]", "@m1[id]", "@m1[vgs]", "@m1[vds]", "@m1[vto]"] {
        assert_eq!(
            once.results.get(&String::from(key)).micro,
            twice.results.get(&String::from(key)).micro
        );
    }
}
