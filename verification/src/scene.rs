//! What one redraw shows: the fixed wire outline of the schematic, and the
//! positioned elements — component icons, the state-dependent region glyph,
//! the five editable parameter fields, and the two computed value labels.

use vstd::prelude::*;
use vstd::string::*;
use vstd::pervasive::unreached;
use crate::bridge::Bridge;
use crate::region::{classify, region_of, Region};
use crate::scalar::Scalar;

verus! {

/// One command of the schematic's wire outline.
#[derive(Clone, Copy, PartialEq, Eq, Structural, Debug)]
pub enum PathCmd {
    MoveTo(i64, i64),
    LineTo(i64, i64),
}

/// The icons the schematic places: the three component symbols, and the
/// three glyphs one of which depicts the transistor's operating region.
#[derive(Clone, Copy, PartialEq, Eq, Structural, Debug)]
pub enum Glyph {
    Nmos,
    VoltageSource,
    Resistor,
    OpenCircuit,
    SmallResistor,
    CurrentSource,
}

/// What a positioned element shows: an icon, an editable text field for a
/// named parameter, or a computed value label.
#[derive(Clone, PartialEq, Debug)]
pub enum Content {
    Icon(Glyph),
    Field(String, String),
    ValueLabel(String, Scalar),
}

/// One positioned element of the drawing.
#[derive(Clone, PartialEq, Debug)]
pub struct Element {
    pub x: i64,
    pub y: i64,
    pub content: Content,
}

/// The glyph that depicts an operating region: an open circuit in cutoff,
/// a resistor in triode, a current source in saturation.
pub open spec fn region_glyph(r: Region) -> Glyph {
    match r {
        Region::Cutoff => Glyph::OpenCircuit,
        Region::Triode => Glyph::SmallResistor,
        Region::Saturation => Glyph::CurrentSource,
    }
}

/// Picks the glyph for an operating region.
pub fn glyph_for(r: Region) -> (g: Glyph)
    ensures
        g == region_glyph(r),
{
    match r {
        Region::Cutoff => Glyph::OpenCircuit,
        Region::Triode => Glyph::SmallResistor,
        Region::Saturation => Glyph::CurrentSource,
    }
}

/// The value a result map yields for a name: its entry, or zero when the
/// name is absent.
pub open spec fn result_or_zero(m: Map<Seq<char>, Scalar>, k: Seq<char>) -> Scalar {
    if m.contains_key(k) {
        m[k]
    } else {
        (Scalar { micro: 0 })
    }
}

/// The schematic's fixed wire outline.
pub fn wire_path() -> (r: Vec<PathCmd>)
    ensures
        r@ == seq![
            PathCmd::MoveTo(45, 400),
            PathCmd::LineTo(45, 245),
            PathCmd::MoveTo(45, 205),
            PathCmd::LineTo(45, 40),
            PathCmd::LineTo(310, 40),
            PathCmd::LineTo(310, 60),
            PathCmd::MoveTo(310, 140),
            PathCmd::LineTo(310, 220),
            PathCmd::MoveTo(310, 340),
            PathCmd::LineTo(310, 400),
            PathCmd::LineTo(45, 400),
            PathCmd::MoveTo(125, 400),
            PathCmd::LineTo(125, 360),
            PathCmd::MoveTo(125, 330),
            PathCmd::LineTo(125, 300),
            PathCmd::LineTo(245, 300),
        ],
{
    let mut v: Vec<PathCmd> = Vec::new();
    v.push(PathCmd::MoveTo(45, 400));
    v.push(PathCmd::LineTo(45, 245));
    v.push(PathCmd::MoveTo(45, 205));
    v.push(PathCmd::LineTo(45, 40));
    v.push(PathCmd::LineTo(310, 40));
    v.push(PathCmd::LineTo(310, 60));
    v.push(PathCmd::MoveTo(310, 140));
    v.push(PathCmd::LineTo(310, 220));
    v.push(PathCmd::MoveTo(310, 340));
    v.push(PathCmd::LineTo(310, 400));
    v.push(PathCmd::LineTo(45, 400));
    v.push(PathCmd::MoveTo(125, 400));
    v.push(PathCmd::LineTo(125, 360));
    v.push(PathCmd::MoveTo(125, 330));
    v.push(PathCmd::LineTo(125, 300));
    v.push(PathCmd::LineTo(245, 300));
    proof {
        assert(v@ =~= seq![
            PathCmd::MoveTo(45, 400),
            PathCmd::LineTo(45, 245),
            PathCmd::MoveTo(45, 205),
            PathCmd::LineTo(45, 40),
            PathCmd::LineTo(310, 40),
            PathCmd::LineTo(310, 60),
            PathCmd::MoveTo(310, 140),
            PathCmd::LineTo(310, 220),
            PathCmd::MoveTo(310, 340),
            PathCmd::LineTo(310, 400),
            PathCmd::LineTo(45, 400),
            PathCmd::MoveTo(125, 400),
            PathCmd::LineTo(125, 360),
            PathCmd::MoveTo(125, 330),
            PathCmd::LineTo(125, 300),
            PathCmd::LineTo(245, 300),
        ]);
    }
    v
}

/// Reads the current text of one parameter field; the five fixed names are
/// always present.
fn field_text(b: &Bridge, name: &String) -> (t: String)
    requires
        b.wf(),
        b.params@.contains_key(name@),
    ensures
        t@ == b.params@[name@],
{
    match b.params.get(name) {
        Some(s) => s.clone(),
        None => unreached(),
    }
}

/// The positioned elements of one redraw, in drawing order: the transistor
/// icon, the region glyph for the current gate-source and drain-source
/// voltages, the width and length fields, the drain-current and
/// transconductance labels, the resistor icon and field, and the two
/// voltage-source icons and fields.
pub fn scene(b: &Bridge) -> (r: Vec<Element>)
    requires
        b.wf(),
    ensures
        r@.len() == 12,
        r@[0].x == 220 && r@[0].y == 200 && r@[0].content == Content::Icon(Glyph::Nmos),
        r@[1].x == 240 && r@[1].y == 220,
        r@[1].content == Content::Icon(
            region_glyph(
                region_of(
                    result_or_zero(b.results@, "@m1[vgs]"@).micro as int,
                    result_or_zero(b.results@, "@m1[vds]"@).micro as int,
                ),
            ),
        ),
        r@[2].x == 350 && r@[2].y == 220,
        r@[2].content matches Content::Field(n, t) && n@ == "m1 w"@ && t@ == b.params@["m1 w"@],
        r@[3].x == 350 && r@[3].y == 260,
        r@[3].content matches Content::Field(n, t) && n@ == "m1 l"@ && t@ == b.params@["m1 l"@],
        r@[4].x == 350 && r@[4].y == 300,
        r@[4].content matches Content::ValueLabel(n, v) && n@ == "id"@ && v == result_or_zero(
            b.results@,
            "@m1[id]"@,
        ),
        r@[5].x == 350 && r@[5].y == 320,
        r@[5].content matches Content::ValueLabel(n, v) && n@ == "gm"@ && v == result_or_zero(
            b.results@,
            "@m1[gm]"@,
        ),
        r@[6].x == 300 && r@[6].y == 50 && r@[6].content == Content::Icon(Glyph::Resistor),
        r@[7].x == 350 && r@[7].y == 75,
        r@[7].content matches Content::Field(n, t) && n@ == "r1"@ && t@ == b.params@["r1"@],
        r@[8].x == 20 && r@[8].y == 200 && r@[8].content == Content::Icon(Glyph::VoltageSource),
        r@[9].x == 70 && r@[9].y == 210,
        r@[9].content matches Content::Field(n, t) && n@ == "v1 dc"@ && t@ == b.params@["v1 dc"@],
        r@[10].x == 100 && r@[10].y == 320 && r@[10].content == Content::Icon(
            Glyph::VoltageSource,
        ),
        r@[11].x == 150 && r@[11].y == 330,
        r@[11].content matches Content::Field(n, t) && n@ == "v2 dc"@ && t@ == b.params@["v2 dc"@],
{
    let vgs = b.results.get(&String::from_str("@m1[vgs]"));
    let vds = b.results.get(&String::from_str("@m1[vds]"));
    let id = b.results.get(&String::from_str("@m1[id]"));
    let gm = b.results.get(&String::from_str("@m1[gm]"));
    let glyph = glyph_for(classify(vgs, vds));
    let mut r: Vec<Element> = Vec::new();
    r.push(Element { x: 220, y: 200, content: Content::Icon(Glyph::Nmos) });
    r.push(Element { x: 240, y: 220, content: Content::Icon(glyph) });
    r.push(
        Element {
            x: 350,
            y: 220,
            content: Content::Field(
                String::from_str("m1 w"),
                field_text(b, &String::from_str("m1 w")),
            ),
        },
    );
    r.push(
        Element {
            x: 350,
            y: 260,
            content: Content::Field(
                String::from_str("m1 l"),
                field_text(b, &String::from_str("m1 l")),
            ),
        },
    );
    r.push(Element { x: 350, y: 300, content: Content::ValueLabel(String::from_str("id"), id) });
    r.push(Element { x: 350, y: 320, content: Content::ValueLabel(String::from_str("gm"), gm) });
    r.push(Element { x: 300, y: 50, content: Content::Icon(Glyph::Resistor) });
    r.push(
        Element {
            x: 350,
            y: 75,
            content: Content::Field(
                String::from_str("r1"),
                field_text(b, &String::from_str("r1")),
            ),
        },
    );
    r.push(Element { x: 20, y: 200, content: Content::Icon(Glyph::VoltageSource) });
    r.push(
        Element {
            x: 70,
            y: 210,
            content: Content::Field(
                String::from_str("v1 dc"),
                field_text(b, &String::from_str("v1 dc")),
            ),
        },
    );
    r.push(Element { x: 100, y: 320, content: Content::Icon(Glyph::VoltageSource) });
    r.push(
        Element {
            x: 150,
            y: 330,
            content: Content::Field(
                String::from_str("v2 dc"),
                field_text(b, &String::from_str("v2 dc")),
            ),
        },
    );
    r
}

} // verus!
