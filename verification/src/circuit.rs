//! The fixed circuit: its netlist, the saved operating-point quantities,
//! the editable parameters with their startup defaults, and the directive
//! that alters one parameter of the loaded circuit.

use vstd::prelude::*;
use vstd::string::*;
use crate::params::ParamStore;

verus! {

/// The text of the alteration directive for one parameter:
/// `alter <name>=<value>`.
pub open spec fn alter_directive(name: Seq<char>, value: Seq<char>) -> Seq<char> {
    "alter "@ + name + "="@ + value
}

/// Formats the alteration directive that changes `name` to `value`.
pub fn make_alter_directive(name: &String, value: &String) -> (r: String)
    ensures
        r@ == alter_directive(name@, value@),
{
    let mut s = String::from_str("alter ");
    s.append(name.as_str());
    s.append("=");
    s.append(value.as_str());
    s
}

/// The parameter names and startup values of the fixed circuit: two DC
/// voltage sources, the resistor, and the transistor's width and length.
pub open spec fn default_params_map() -> Map<Seq<char>, Seq<char>> {
    Map::<Seq<char>, Seq<char>>::empty().insert("v1 dc"@, "5"@).insert("v2 dc"@, "2"@).insert(
        "r1"@,
        "1k"@,
    ).insert("m1 w"@, "10u"@).insert("m1 l"@, "1u"@)
}

/// Builds the parameter store with the five fixed entries and their
/// startup values.
pub fn default_params() -> (r: ParamStore)
    ensures
        r.wf(),
        r@ == default_params_map(),
{
    let mut p = ParamStore::empty();
    p.set(String::from_str("v1 dc"), String::from_str("5"));
    p.set(String::from_str("v2 dc"), String::from_str("2"));
    p.set(String::from_str("r1"), String::from_str("1k"));
    p.set(String::from_str("m1 w"), String::from_str("10u"));
    p.set(String::from_str("m1 l"), String::from_str("1u"));
    p
}

/// The netlist of the fixed circuit: one resistor, one NMOS transistor
/// with a LEVEL=3 model, two DC voltage sources, and a save line for the
/// five displayed quantities.
pub fn netlist_lines() -> (r: Vec<&'static str>)
    ensures
        r@.len() == 8,
        r@[0]@ == ".title my awesome schematic"@,
        r@[1]@ == ".MODEL FAKE_NMOS NMOS (LEVEL=3 VTO=0.75)"@,
        r@[2]@ == ".save all @m1[gm] @m1[id] @m1[vgs] @m1[vds] @m1[vto]"@,
        r@[3]@ == "R1 /vdd /drain 10k"@,
        r@[4]@ == "M1 /drain /gate GND GND FAKE_NMOS W=10u L=1u"@,
        r@[5]@ == "V1 /vdd GND dc(5)"@,
        r@[6]@ == "V2 /gate GND dc(2)"@,
        r@[7]@ == ".end"@,
{
    let mut v: Vec<&'static str> = Vec::new();
    v.push(".title my awesome schematic");
    v.push(".MODEL FAKE_NMOS NMOS (LEVEL=3 VTO=0.75)");
    v.push(".save all @m1[gm] @m1[id] @m1[vgs] @m1[vds] @m1[vto]");
    v.push("R1 /vdd /drain 10k");
    v.push("M1 /drain /gate GND GND FAKE_NMOS W=10u L=1u");
    v.push("V1 /vdd GND dc(5)");
    v.push("V2 /gate GND dc(2)");
    v.push(".end");
    v
}

/// The names of the five operating-point quantities the circuit saves:
/// transconductance, drain current, gate-source, drain-source and
/// threshold voltage of the transistor.
pub fn saved_keys() -> (r: Vec<&'static str>)
    ensures
        r@.len() == 5,
        r@[0]@ == "@m1[gm]"@,
        r@[1]@ == "@m1[id]"@,
        r@[2]@ == "@m1[vgs]"@,
        r@[3]@ == "@m1[vds]"@,
        r@[4]@ == "@m1[vto]"@,
{
    let mut v: Vec<&'static str> = Vec::new();
    v.push("@m1[gm]");
    v.push("@m1[id]");
    v.push("@m1[vgs]");
    v.push("@m1[vds]");
    v.push("@m1[vto]");
    v
}

} // verus!
