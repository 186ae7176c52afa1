use mosaic::bridge::{Bridge, EngineResponse};
use mosaic::region::{classify, Region, VTH_MICRO};
use mosaic::results::RawEntry;
use mosaic::scalar::Scalar;
use mosaic::scene::{scene, wire_path, Content, Glyph, PathCmd};

fn volts(v: f64) -> Scalar {
    Scalar::from_micro((v * 1e6) as i64)
}

#[test]
fn threshold_is_three_quarters_of_a_volt() {
    assert_eq!(VTH_MICRO, 750_000);
}

#[test]
fn low_gate_voltage_is_cutoff_whatever_the_drain() {
    for vds in [-5.0, 0.0, 0.5, 3.0, 100.0] {
        assert_eq!(classify(volts(0.5), volts(vds)), Region::Cutoff);
    }
}

#[test]
fn low_drain_voltage_is_triode() {
    // vds = 0.5 < vgs - vth = 1.25
    assert_eq!(classify(volts(2.0), volts(0.5)), Region::Triode);
}

#[test]
fn high_drain_voltage_is_saturation() {
    assert_eq!(classify(volts(2.0), volts(3.0)), Region::Saturation);
}

#[test]
fn classification_boundaries_are_strict() {
    // vgs == vth is not cutoff; vds == vgs - vth is not triode
    assert_eq!(classify(volts(0.75), volts(0.0)), Region::Saturation);
    assert_eq!(classify(volts(0.75), volts(-0.5)), Region::Triode);
    assert_eq!(classify(volts(2.0), volts(1.25)), Region::Saturation);
}

#[test]
fn wire_path_outline() {
    let p = wire_path();
    assert_eq!(p.len(), 16);
    assert_eq!(p[0], PathCmd::MoveTo(45, 400));
    assert_eq!(p[1], PathCmd::LineTo(45, 245));
    assert_eq!(p[15], PathCmd::LineTo(245, 300));
}

fn bridge_with(vgs: f64, vds: f64) -> Bridge {
    Bridge::new(&vec![
        (String::from("@m1[vgs]"), RawEntry::Real(vec![volts(vgs)])),
        (String::from("@m1[vds]"), RawEntry::Real(vec![volts(vds)])),
        (String::from("@m1[id]"), RawEntry::Real(vec![Scalar::from_micro(1234)])),
        (String::from("@m1[gm]"), RawEntry::Real(vec![Scalar::from_micro(52)])),
    ])
}

#[test]
fn scene_shows_the_region_glyph() {
    let cutoff = scene(&bridge_with(0.5, 3.0));
    assert_eq!(cutoff[1].content, Content::Icon(Glyph::OpenCircuit));
    let triode = scene(&bridge_with(2.0, 0.5));
    assert_eq!(triode[1].content, Content::Icon(Glyph::SmallResistor));
    let saturation = scene(&bridge_with(2.0, 3.0));
    assert_eq!(saturation[1].content, Content::Icon(Glyph::CurrentSource));
    assert_eq!((saturation[1].x, saturation[1].y), (240, 220));
}

#[test]
fn scene_places_fields_and_labels() {
    let s = scene(&bridge_with(2.0, 3.0));
    assert_eq!(s.len(), 12);
    assert_eq!(s[0].content, Content::Icon(Glyph::Nmos));
    assert_eq!((s[0].x, s[0].y), (220, 200));
    assert_eq!(
        s[2].content,
        Content::Field(String::from("m1 w"), String::from("10u"))
    );
    assert_eq!(
        s[4].content,
        Content::ValueLabel(String::from("id"), Scalar::from_micro(1234))
    );
    assert_eq!(
        s[5].content,
        Content::ValueLabel(String::from("gm"), Scalar::from_micro(52))
    );
    assert_eq!(
        s[9].content,
        Content::Field(String::from("v1 dc"), String::from("5"))
    );
    assert_eq!((s[11].x, s[11].y), (150, 330));
}

#[test]
fn scene_reflects_an_edit_after_a_successful_solve() {
    let mut b = bridge_with(2.0, 0.5);
    b.begin_param_change(String::from("m1 w"), String::from("20u"));
    b.apply_engine_response(EngineResponse::SolveOk(vec![
        (String::from("@m1[vgs]"), RawEntry::Real(vec![volts(0.5)])),
        (String::from("@m1[vds]"), RawEntry::Real(vec![volts(3.0)])),
    ]));
    let s = scene(&b);
    assert_eq!(s[1].content, Content::Icon(Glyph::OpenCircuit));
    assert_eq!(
        s[2].content,
        Content::Field(String::from("m1 w"), String::from("20u"))
    );
    // labels fall back to zero for quantities the fresh solve did not report
    assert_eq!(
        s[4].content,
        Content::ValueLabel(String::from("id"), Scalar::from_micro(0))
    );
}
