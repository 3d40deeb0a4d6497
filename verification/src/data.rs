//! The typed footprint model that decoding produces.
//!
//! Every record here is immutable once decoded; composite decoders fill a
//! mutable builder of the same type and freeze it on return. Numeric fields
//! hold the exact decimal written in the file (see [`crate::num::Real`]).

use vstd::prelude::*;
use vstd::string::StrSliceExecFns;
use vstd::string::StringExecFns;
use crate::err::DecodeError;
use crate::err::ErrV;
use crate::err::res_view;
use crate::num::Real;
use crate::num::first_dot;
use crate::num::chars_of;
use crate::num::find_dot_in;
use crate::sexp::str_eq;

verus! {

/// The semantic role a 2D coordinate plays in its parent element.
#[derive(Clone, Copy, Debug, PartialEq, Eq, Structural)]
pub enum XyType {
    Xy,
    Start,
    End,
    Size,
    Center,
    RectDelta,
}

/// A 2D point tagged with its role.
#[derive(Clone, Copy, Debug, PartialEq, Eq, Structural)]
pub struct Xy {
    pub x: Real,
    pub y: Real,
    pub t: XyType,
}

impl View for Xy {
    type V = Xy;

    open spec fn view(&self) -> Xy {
        *self
    }
}

impl Xy {
    pub fn new(x: Real, y: Real, t: XyType) -> (r: Xy)
        ensures
            r == (Xy { x, y, t }),
    {
        Xy { x, y, t }
    }
}

/// A placement: position and rotation, the rotation 0 when omitted.
#[derive(Clone, Copy, Debug, PartialEq, Eq, Structural)]
pub struct At {
    pub x: Real,
    pub y: Real,
    pub rot: Real,
}

impl View for At {
    type V = At;

    open spec fn view(&self) -> At {
        *self
    }
}

impl At {
    pub fn new(x: Real, y: Real, rot: Real) -> (r: At)
        ensures
            r == (At { x, y, rot }),
    {
        At { x, y, rot }
    }
}

/// The placement of an omitted `at`: the origin, unrotated.
pub open spec fn at_default() -> At {
    At {
        x: Real { mantissa: 0, scale: 0 },
        y: Real { mantissa: 0, scale: 0 },
        rot: Real { mantissa: 0, scale: 0 },
    }
}

/// A 3D vector, used inside model transforms.
#[derive(Clone, Copy, Debug, PartialEq, Eq, Structural)]
pub struct Xyz {
    pub x: Real,
    pub y: Real,
    pub z: Real,
}

impl View for Xyz {
    type V = Xyz;

    open spec fn view(&self) -> Xyz {
        *self
    }
}

impl Xyz {
    pub fn new(x: Real, y: Real, z: Real) -> (r: Xyz)
        ensures
            r == (Xyz { x, y, z }),
    {
        Xyz { x, y, z }
    }
}

/// The board side a layer name starts with, when it has one.
#[derive(Clone, Copy, Debug, PartialEq, Eq, Structural)]
pub enum LayerSide {
    Front,
    Back,
    Both,
    Dwgs,
    Cmts,
    Eco1,
    Eco2,
    Edge,
}

/// What a layer holds.
#[derive(Clone, Copy, Debug, PartialEq, Eq, Structural)]
pub enum LayerType {
    Cu,
    Paste,
    Mask,
    SilkS,
    User,
    Adhes,
    Cuts,
    CrtYd,
    Fab,
    Margin,
}

/// A known board layer, named `Side.Type` or by a bare type name.
#[derive(Clone, Copy, Debug, PartialEq, Eq, Structural)]
pub struct Layer {
    pub side: Option<LayerSide>,
    pub t: LayerType,
}

impl View for Layer {
    type V = Layer;

    open spec fn view(&self) -> Layer {
        *self
    }
}

/// The layer of an element that named none: front copper.
pub open spec fn layer_default() -> Layer {
    Layer { side: Some(LayerSide::Front), t: LayerType::Cu }
}

/// The side a layer-name prefix denotes.
pub open spec fn spec_side_of(t: Seq<char>) -> Option<LayerSide> {
    if t == "F"@ {
        Some(LayerSide::Front)
    } else if t == "B"@ {
        Some(LayerSide::Back)
    } else if t == "*"@ {
        Some(LayerSide::Both)
    } else if t == "Dwgs"@ {
        Some(LayerSide::Dwgs)
    } else if t == "Cmts"@ {
        Some(LayerSide::Cmts)
    } else if t == "Eco1"@ {
        Some(LayerSide::Eco1)
    } else if t == "Eco2"@ {
        Some(LayerSide::Eco2)
    } else if t == "Edge"@ {
        Some(LayerSide::Edge)
    } else {
        None
    }
}

/// The layer type a layer-name suffix denotes.
pub open spec fn spec_kind_of(t: Seq<char>) -> Option<LayerType> {
    if t == "Cu"@ {
        Some(LayerType::Cu)
    } else if t == "Paste"@ {
        Some(LayerType::Paste)
    } else if t == "Mask"@ {
        Some(LayerType::Mask)
    } else if t == "SilkS"@ {
        Some(LayerType::SilkS)
    } else if t == "User"@ {
        Some(LayerType::User)
    } else if t == "Adhes"@ {
        Some(LayerType::Adhes)
    } else if t == "Cuts"@ {
        Some(LayerType::Cuts)
    } else if t == "CrtYd"@ {
        Some(LayerType::CrtYd)
    } else if t == "Fab"@ {
        Some(LayerType::Fab)
    } else if t == "Margin"@ {
        Some(LayerType::Margin)
    } else {
        None
    }
}

/// The layer a canonical layer name denotes: an optional side prefix before
/// the first dot, then a layer type. An unknown name is rejected.
pub open spec fn spec_layer_from_string(t: Seq<char>) -> Result<Layer, ErrV> {
    match first_dot(t) {
        None => match spec_kind_of(t) {
            Some(k) => Ok(Layer { side: None, t: k }),
            None => Err(ErrV::UnknownVariant(t)),
        },
        Some(i) => match (spec_side_of(t.take(i)), spec_kind_of(t.skip(i + 1))) {
            (Some(sd), Some(k)) => Ok(Layer { side: Some(sd), t: k }),
            _ => Err(ErrV::UnknownVariant(t)),
        },
    }
}

fn side_from(p: &str) -> (r: Option<LayerSide>)
    ensures
        r == spec_side_of(p@),
{
    if str_eq(p, "F") {
        Some(LayerSide::Front)
    } else if str_eq(p, "B") {
        Some(LayerSide::Back)
    } else if str_eq(p, "*") {
        Some(LayerSide::Both)
    } else if str_eq(p, "Dwgs") {
        Some(LayerSide::Dwgs)
    } else if str_eq(p, "Cmts") {
        Some(LayerSide::Cmts)
    } else if str_eq(p, "Eco1") {
        Some(LayerSide::Eco1)
    } else if str_eq(p, "Eco2") {
        Some(LayerSide::Eco2)
    } else if str_eq(p, "Edge") {
        Some(LayerSide::Edge)
    } else {
        None
    }
}

fn kind_from(p: &str) -> (r: Option<LayerType>)
    ensures
        r == spec_kind_of(p@),
{
    if str_eq(p, "Cu") {
        Some(LayerType::Cu)
    } else if str_eq(p, "Paste") {
        Some(LayerType::Paste)
    } else if str_eq(p, "Mask") {
        Some(LayerType::Mask)
    } else if str_eq(p, "SilkS") {
        Some(LayerType::SilkS)
    } else if str_eq(p, "User") {
        Some(LayerType::User)
    } else if str_eq(p, "Adhes") {
        Some(LayerType::Adhes)
    } else if str_eq(p, "Cuts") {
        Some(LayerType::Cuts)
    } else if str_eq(p, "CrtYd") {
        Some(LayerType::CrtYd)
    } else if str_eq(p, "Fab") {
        Some(LayerType::Fab)
    } else if str_eq(p, "Margin") {
        Some(LayerType::Margin)
    } else {
        None
    }
}

impl Layer {
    /// Resolves a canonical layer name; an unknown name is rejected.
    pub fn from_string(s: &str) -> (r: Result<Layer, DecodeError>)
        ensures
            res_view(r) == spec_layer_from_string(s@),
    {
        let n = s.unicode_len();
        let v = chars_of(s);
        proof {
            assert(v@.subrange(0, v@.len() as int) =~= s@);
        }
        match find_dot_in(&v, 0) {
            None => match kind_from(s) {
                Some(k) => Ok(Layer { side: None, t: k }),
                None => Err(DecodeError::UnknownVariant(String::from_str(s))),
            },
            Some(dj) => {
                let side_str = s.substring_char(0, dj);
                let kind_str = s.substring_char(dj + 1, n);
                proof {
                    assert(side_str@ =~= s@.take(dj as int));
                    assert(kind_str@ =~= s@.skip(dj as int + 1));
                }
                match (side_from(side_str), kind_from(kind_str)) {
                    (Some(sd), Some(k)) => Ok(Layer { side: Some(sd), t: k }),
                    _ => Err(DecodeError::UnknownVariant(String::from_str(s))),
                }
            },
        }
    }
}

/// An ordered set of layers, kept in insertion order, duplicates allowed.
#[derive(Clone, Debug, PartialEq)]
pub struct Layers {
    pub layers: Vec<Layer>,
}

impl View for Layers {
    type V = Seq<Layer>;

    open spec fn view(&self) -> Seq<Layer> {
        self.layers@
    }
}

impl Layers {
    pub fn new() -> (r: Layers)
        ensures
            r@ == Seq::<Layer>::empty(),
    {
        Layers { layers: Vec::new() }
    }

    /// Appends one layer, preserving order.
    pub fn append(&mut self, layer: &Layer)
        ensures
            final(self)@ == old(self)@.push(*layer),
    {
        self.layers.push(*layer);
    }
}

/// A copper net reference: number and name, both required.
#[derive(Clone, Debug, PartialEq)]
pub struct Net {
    pub num: i64,
    pub name: String,
}

/// Mathematical value of a [`Net`].
pub struct NetV {
    pub num: i64,
    pub name: Seq<char>,
}

impl View for Net {
    type V = NetV;

    open spec fn view(&self) -> NetV {
        NetV { num: self.num, name: self.name@ }
    }
}

/// A hole: either one diameter, or a shape name with two diameters.
#[derive(Clone, Debug, PartialEq)]
pub struct Drill {
    pub shape: Option<String>,
    pub drill: Real,
    pub drill2: Option<Real>,
}

/// Mathematical value of a [`Drill`].
pub struct DrillV {
    pub shape: Option<Seq<char>>,
    pub drill: Real,
    pub drill2: Option<Real>,
}

impl View for Drill {
    type V = DrillV;

    open spec fn view(&self) -> DrillV {
        DrillV {
            shape: match &self.shape {
                Some(s) => Some(s@),
                None => None,
            },
            drill: self.drill,
            drill2: self.drill2,
        }
    }
}

/// A text justification modifier; mirroring is the only one known.
#[derive(Clone, Copy, Debug, PartialEq, Eq, Structural)]
pub enum Justify {
    Mirror,
}

impl View for Justify {
    type V = Justify;

    open spec fn view(&self) -> Justify {
        *self
    }
}

/// Text rendering size and stroke width.
#[derive(Clone, Copy, Debug, PartialEq, Eq, Structural)]
pub struct Font {
    pub size: Xy,
    pub thickness: Real,
}

impl View for Font {
    type V = Font;

    open spec fn view(&self) -> Font {
        *self
    }
}

/// The font of an element that set none: zero size and stroke.
pub open spec fn font_default() -> Font {
    Font {
        size: Xy {
            x: Real { mantissa: 0, scale: 0 },
            y: Real { mantissa: 0, scale: 0 },
            t: XyType::Size,
        },
        thickness: Real { mantissa: 0, scale: 0 },
    }
}

impl Default for Font {
    fn default() -> (r: Font)
        ensures
            r == font_default(),
    {
        Font {
            size: Xy { x: Real { mantissa: 0, scale: 0 }, y: Real { mantissa: 0, scale: 0 }, t: XyType::Size },
            thickness: Real { mantissa: 0, scale: 0 },
        }
    }
}

/// Text rendering attributes: a font, and justification when present.
#[derive(Clone, Copy, Debug, PartialEq, Eq)]
pub struct Effects {
    pub font: Font,
    pub justify: Option<Justify>,
}

impl View for Effects {
    type V = Effects;

    open spec fn view(&self) -> Effects {
        *self
    }
}

impl Effects {
    pub fn from_font(font: Font, justify: Option<Justify>) -> (r: Effects)
        ensures
            r == (Effects { font, justify }),
    {
        Effects { font, justify }
    }
}

/// An ordered list of coordinates.
#[derive(Clone, Debug, PartialEq)]
pub struct Pts {
    pub elements: Vec<Xy>,
}

impl View for Pts {
    type V = Seq<Xy>;

    open spec fn view(&self) -> Seq<Xy> {
        self.elements@
    }
}

/// How a pad connects: through hole, surface mount, edge connector, or an
/// unplated hole.
#[derive(Clone, Copy, Debug, PartialEq, Eq, Structural)]
pub enum PadType {
    Smd,
    Pth,
    NpPth,
    Connect,
}

impl View for PadType {
    type V = PadType;

    open spec fn view(&self) -> PadType {
        *self
    }
}

/// The pad type a name denotes; outside the fixed set it is rejected.
pub open spec fn spec_pad_type_from(t: Seq<char>) -> Result<PadType, ErrV> {
    if t == "smd"@ {
        Ok(PadType::Smd)
    } else if t == "thru_hole"@ {
        Ok(PadType::Pth)
    } else if t == "np_thru_hole"@ {
        Ok(PadType::NpPth)
    } else if t == "connect"@ {
        Ok(PadType::Connect)
    } else {
        Err(ErrV::UnknownVariant(t))
    }
}

impl PadType {
    /// Resolves a pad-type name; outside the fixed set it is rejected.
    pub fn from_string(s: &str) -> (r: Result<PadType, DecodeError>)
        ensures
            res_view(r) == spec_pad_type_from(s@),
    {
        if str_eq(s, "smd") {
            Ok(PadType::Smd)
        } else if str_eq(s, "thru_hole") {
            Ok(PadType::Pth)
        } else if str_eq(s, "np_thru_hole") {
            Ok(PadType::NpPth)
        } else if str_eq(s, "connect") {
            Ok(PadType::Connect)
        } else {
            Err(DecodeError::UnknownVariant(String::from_str(s)))
        }
    }
}

/// The outline drawn for a pad.
#[derive(Clone, Copy, Debug, PartialEq, Eq, Structural)]
pub enum PadShape {
    Rect,
    Circle,
    Oval,
    Trapezoid,
}

impl View for PadShape {
    type V = PadShape;

    open spec fn view(&self) -> PadShape {
        *self
    }
}

/// The pad shape a name denotes; outside the fixed set it is rejected.
pub open spec fn spec_pad_shape_from(t: Seq<char>) -> Result<PadShape, ErrV> {
    if t == "rect"@ {
        Ok(PadShape::Rect)
    } else if t == "circle"@ {
        Ok(PadShape::Circle)
    } else if t == "oval"@ {
        Ok(PadShape::Oval)
    } else if t == "trapezoid"@ {
        Ok(PadShape::Trapezoid)
    } else {
        Err(ErrV::UnknownVariant(t))
    }
}

impl PadShape {
    /// Resolves a pad-shape name; outside the fixed set it is rejected.
    pub fn from_string(s: &str) -> (r: Result<PadShape, DecodeError>)
        ensures
            res_view(r) == spec_pad_shape_from(s@),
    {
        if str_eq(s, "rect") {
            Ok(PadShape::Rect)
        } else if str_eq(s, "circle") {
            Ok(PadShape::Circle)
        } else if str_eq(s, "oval") {
            Ok(PadShape::Oval)
        } else if str_eq(s, "trapezoid") {
            Ok(PadShape::Trapezoid)
        } else {
            Err(DecodeError::UnknownVariant(String::from_str(s)))
        }
    }
}


/// A footprint label: its kind name, text, placement and rendering.
#[derive(Clone, Debug, PartialEq)]
pub struct FpText {
    pub name: String,
    pub value: String,
    pub at: At,
    pub layer: Option<Layer>,
    pub effects: Option<Effects>,
    pub hide: bool,
}

/// Mathematical value of an [`FpText`].
pub struct FpTextV {
    pub name: Seq<char>,
    pub value: Seq<char>,
    pub at: At,
    pub layer: Option<Layer>,
    pub effects: Option<Effects>,
    pub hide: bool,
}

impl View for FpText {
    type V = FpTextV;

    open spec fn view(&self) -> FpTextV {
        FpTextV {
            name: self.name@,
            value: self.value@,
            at: self.at,
            layer: self.layer,
            effects: self.effects,
            hide: self.hide,
        }
    }
}

/// The label a name and text start from: at the origin, on no layer,
/// without effects, visible.
pub open spec fn fp_text_v_new(name: Seq<char>, value: Seq<char>) -> FpTextV {
    FpTextV { name, value, at: at_default(), layer: None, effects: None, hide: false }
}

impl FpText {
    pub fn new(name: String, value: String) -> (r: FpText)
        ensures
            r@ == fp_text_v_new(name@, value@),
    {
        FpText {
            name,
            value,
            at: At {
                x: Real { mantissa: 0, scale: 0 },
                y: Real { mantissa: 0, scale: 0 },
                rot: Real { mantissa: 0, scale: 0 },
            },
            layer: None,
            effects: None,
            hide: false,
        }
    }

    pub fn set_layer(&mut self, layer: &Layer)
        ensures
            final(self)@ == (FpTextV { layer: Some(*layer), ..old(self)@ }),
    {
        self.layer = Some(*layer);
    }

    pub fn set_effects(&mut self, effects: &Effects)
        ensures
            final(self)@ == (FpTextV { effects: Some(*effects), ..old(self)@ }),
    {
        self.effects = Some(*effects);
    }
}

/// A component pad: its name, connection type, outline, placement, size,
/// layers and optional net, hole and margins.
#[derive(Clone, Debug, PartialEq)]
pub struct Pad {
    pub name: String,
    pub t: PadType,
    pub shape: PadShape,
    pub at: At,
    pub size: Xy,
    pub rect_delta: Option<Xy>,
    pub layers: Layers,
    pub net: Option<Net>,
    pub drill: Option<Drill>,
    pub solder_paste_margin: Option<Real>,
    pub solder_mask_margin: Option<Real>,
    pub clearance: Option<Real>,
}

/// Mathematical value of a [`Pad`].
pub struct PadV {
    pub name: Seq<char>,
    pub t: PadType,
    pub shape: PadShape,
    pub at: At,
    pub size: Xy,
    pub rect_delta: Option<Xy>,
    pub layers: Seq<Layer>,
    pub net: Option<NetV>,
    pub drill: Option<DrillV>,
    pub solder_paste_margin: Option<Real>,
    pub solder_mask_margin: Option<Real>,
    pub clearance: Option<Real>,
}

impl View for Pad {
    type V = PadV;

    open spec fn view(&self) -> PadV {
        PadV {
            name: self.name@,
            t: self.t,
            shape: self.shape,
            at: self.at,
            size: self.size,
            rect_delta: self.rect_delta,
            layers: self.layers@,
            net: match &self.net {
                Some(n) => Some(n@),
                None => None,
            },
            drill: match &self.drill {
                Some(d) => Some(d@),
                None => None,
            },
            solder_paste_margin: self.solder_paste_margin,
            solder_mask_margin: self.solder_mask_margin,
            clearance: self.clearance,
        }
    }
}

/// The pad a name, type and shape start from: at the origin, zero size,
/// no layers, and nothing optional set.
pub open spec fn pad_v_new(name: Seq<char>, t: PadType, shape: PadShape) -> PadV {
    PadV {
        name,
        t,
        shape,
        at: at_default(),
        size: Xy {
            x: Real { mantissa: 0, scale: 0 },
            y: Real { mantissa: 0, scale: 0 },
            t: XyType::Size,
        },
        rect_delta: None,
        layers: Seq::empty(),
        net: None,
        drill: None,
        solder_paste_margin: None,
        solder_mask_margin: None,
        clearance: None,
    }
}

impl Pad {
    pub fn new(name: String, t: PadType, shape: PadShape) -> (r: Pad)
        ensures
            r@ == pad_v_new(name@, t, shape),
    {
        Pad {
            name,
            t,
            shape,
            at: At {
                x: Real { mantissa: 0, scale: 0 },
                y: Real { mantissa: 0, scale: 0 },
                rot: Real { mantissa: 0, scale: 0 },
            },
            size: Xy {
                x: Real { mantissa: 0, scale: 0 },
                y: Real { mantissa: 0, scale: 0 },
                t: XyType::Size,
            },
            rect_delta: None,
            layers: Layers { layers: Vec::new() },
            net: None,
            drill: None,
            solder_paste_margin: None,
            solder_mask_margin: None,
            clearance: None,
        }
    }

    pub fn set_net(&mut self, net: &Net)
        ensures
            final(self)@ == (PadV { net: Some(net@), ..old(self)@ }),
    {
        self.net = Some(Net { num: net.num, name: net.name.clone() });
    }

    pub fn set_drill(&mut self, drill: &Drill)
        ensures
            final(self)@ == (PadV { drill: Some(drill@), ..old(self)@ }),
    {
        let shape: Option<String> = match &drill.shape {
            Some(s) => Some(s.clone()),
            None => None,
        };
        self.drill = Some(Drill { shape, drill: drill.drill, drill2: drill.drill2 });
    }
}

/// A filled polygon on a layer.
#[derive(Clone, Debug, PartialEq)]
pub struct FpPoly {
    pub pts: Pts,
    pub width: Real,
    pub layer: Layer,
}

/// Mathematical value of an [`FpPoly`].
pub struct FpPolyV {
    pub pts: Seq<Xy>,
    pub width: Real,
    pub layer: Layer,
}

impl View for FpPoly {
    type V = FpPolyV;

    open spec fn view(&self) -> FpPolyV {
        FpPolyV { pts: self.pts@, width: self.width, layer: self.layer }
    }
}

/// The polygon no parts have filled: no points, zero width, front copper.
pub open spec fn fp_poly_v_default() -> FpPolyV {
    FpPolyV { pts: Seq::empty(), width: Real { mantissa: 0, scale: 0 }, layer: layer_default() }
}

impl Default for FpPoly {
    fn default() -> (r: FpPoly)
        ensures
            r@ == fp_poly_v_default(),
    {
        FpPoly {
            pts: Pts { elements: Vec::new() },
            width: Real { mantissa: 0, scale: 0 },
            layer: Layer { side: Some(LayerSide::Front), t: LayerType::Cu },
        }
    }
}

/// A line segment on a layer.
#[derive(Clone, Copy, Debug, PartialEq, Eq)]
pub struct FpLine {
    pub start: Xy,
    pub end: Xy,
    pub layer: Layer,
    pub width: Real,
}

impl View for FpLine {
    type V = FpLine;

    open spec fn view(&self) -> FpLine {
        *self
    }
}

/// The line no parts have filled: degenerate at the origin, front copper.
pub open spec fn fp_line_default() -> FpLine {
    FpLine {
        start: Xy {
            x: Real { mantissa: 0, scale: 0 },
            y: Real { mantissa: 0, scale: 0 },
            t: XyType::Start,
        },
        end: Xy {
            x: Real { mantissa: 0, scale: 0 },
            y: Real { mantissa: 0, scale: 0 },
            t: XyType::End,
        },
        layer: layer_default(),
        width: Real { mantissa: 0, scale: 0 },
    }
}

impl Default for FpLine {
    fn default() -> (r: FpLine)
        ensures
            r == fp_line_default(),
    {
        FpLine {
            start: Xy {
                x: Real { mantissa: 0, scale: 0 },
                y: Real { mantissa: 0, scale: 0 },
                t: XyType::Start,
            },
            end: Xy {
                x: Real { mantissa: 0, scale: 0 },
                y: Real { mantissa: 0, scale: 0 },
                t: XyType::End,
            },
            layer: Layer { side: Some(LayerSide::Front), t: LayerType::Cu },
            width: Real { mantissa: 0, scale: 0 },
        }
    }
}

/// A circle on a layer, given by center and a point on its rim.
#[derive(Clone, Copy, Debug, PartialEq, Eq)]
pub struct FpCircle {
    pub center: Xy,
    pub end: Xy,
    pub layer: Layer,
    pub width: Real,
}

impl View for FpCircle {
    type V = FpCircle;

    open spec fn view(&self) -> FpCircle {
        *self
    }
}

/// The circle no parts have filled: degenerate at the origin, front copper.
pub open spec fn fp_circle_default() -> FpCircle {
    FpCircle {
        center: Xy {
            x: Real { mantissa: 0, scale: 0 },
            y: Real { mantissa: 0, scale: 0 },
            t: XyType::Center,
        },
        end: Xy {
            x: Real { mantissa: 0, scale: 0 },
            y: Real { mantissa: 0, scale: 0 },
            t: XyType::End,
        },
        layer: layer_default(),
        width: Real { mantissa: 0, scale: 0 },
    }
}

impl Default for FpCircle {
    fn default() -> (r: FpCircle)
        ensures
            r == fp_circle_default(),
    {
        FpCircle {
            center: Xy {
                x: Real { mantissa: 0, scale: 0 },
                y: Real { mantissa: 0, scale: 0 },
                t: XyType::Center,
            },
            end: Xy {
                x: Real { mantissa: 0, scale: 0 },
                y: Real { mantissa: 0, scale: 0 },
                t: XyType::End,
            },
            layer: Layer { side: Some(LayerSide::Front), t: LayerType::Cu },
            width: Real { mantissa: 0, scale: 0 },
        }
    }
}

/// A circular arc on a layer, given by start, end and swept angle.
#[derive(Clone, Copy, Debug, PartialEq, Eq)]
pub struct FpArc {
    pub start: Xy,
    pub end: Xy,
    pub angle: Real,
    pub layer: Layer,
    pub width: Real,
}

impl View for FpArc {
    type V = FpArc;

    open spec fn view(&self) -> FpArc {
        *self
    }
}

/// The arc no parts have filled: degenerate at the origin, front copper.
pub open spec fn fp_arc_default() -> FpArc {
    FpArc {
        start: Xy {
            x: Real { mantissa: 0, scale: 0 },
            y: Real { mantissa: 0, scale: 0 },
            t: XyType::Start,
        },
        end: Xy {
            x: Real { mantissa: 0, scale: 0 },
            y: Real { mantissa: 0, scale: 0 },
            t: XyType::End,
        },
        angle: Real { mantissa: 0, scale: 0 },
        layer: layer_default(),
        width: Real { mantissa: 0, scale: 0 },
    }
}

impl Default for FpArc {
    fn default() -> (r: FpArc)
        ensures
            r == fp_arc_default(),
    {
        FpArc {
            start: Xy {
                x: Real { mantissa: 0, scale: 0 },
                y: Real { mantissa: 0, scale: 0 },
                t: XyType::Start,
            },
            end: Xy {
                x: Real { mantissa: 0, scale: 0 },
                y: Real { mantissa: 0, scale: 0 },
                t: XyType::End,
            },
            angle: Real { mantissa: 0, scale: 0 },
            layer: Layer { side: Some(LayerSide::Front), t: LayerType::Cu },
            width: Real { mantissa: 0, scale: 0 },
        }
    }
}

/// A referenced 3D model: its path and the transform placing it.
#[derive(Clone, Debug, PartialEq)]
pub struct Model {
    pub name: String,
    pub at: Xyz,
    pub scale: Xyz,
    pub rotate: Xyz,
}

/// Mathematical value of a [`Model`].
pub struct ModelV {
    pub name: Seq<char>,
    pub at: Xyz,
    pub scale: Xyz,
    pub rotate: Xyz,
}

impl View for Model {
    type V = ModelV;

    open spec fn view(&self) -> ModelV {
        ModelV { name: self.name@, at: self.at, scale: self.scale, rotate: self.rotate }
    }
}

/// One optional or repeatable sub-element found inside a composite entity;
/// an intermediate shape, folded away before the model is returned.
#[derive(Clone, Debug, PartialEq)]
pub enum Part {
    At(At),
    Layer(Layer),
    Effects(Effects),
    Layers(Layers),
    Width(Real),
    Angle(Real),
    Xy(Xy),
    Pts(Pts),
    Thickness(Real),
    Net(Net),
    Drill(Drill),
    SolderPasteMargin(Real),
    SolderMaskMargin(Real),
    Clearance(Real),
    Hide,
}

/// Mathematical value of a [`Part`].
pub enum PartV {
    At(At),
    Layer(Layer),
    Effects(Effects),
    Layers(Seq<Layer>),
    Width(Real),
    Angle(Real),
    Xy(Xy),
    Pts(Seq<Xy>),
    Thickness(Real),
    Net(NetV),
    Drill(DrillV),
    SolderPasteMargin(Real),
    SolderMaskMargin(Real),
    Clearance(Real),
    Hide,
}

impl View for Part {
    type V = PartV;

    open spec fn view(&self) -> PartV {
        match self {
            Part::At(a) => PartV::At(*a),
            Part::Layer(l) => PartV::Layer(*l),
            Part::Effects(e) => PartV::Effects(*e),
            Part::Layers(l) => PartV::Layers(l@),
            Part::Width(w) => PartV::Width(*w),
            Part::Angle(a) => PartV::Angle(*a),
            Part::Xy(p) => PartV::Xy(*p),
            Part::Pts(p) => PartV::Pts(p@),
            Part::Thickness(v) => PartV::Thickness(*v),
            Part::Net(n) => PartV::Net(n@),
            Part::Drill(d) => PartV::Drill(d@),
            Part::SolderPasteMargin(v) => PartV::SolderPasteMargin(*v),
            Part::SolderMaskMargin(v) => PartV::SolderMaskMargin(*v),
            Part::Clearance(v) => PartV::Clearance(*v),
            Part::Hide => PartV::Hide,
        }
    }
}

/// One top-level child of a footprint module.
#[derive(Clone, Debug, PartialEq)]
pub enum Element {
    Locked,
    SolderMaskMargin(Real),
    Layer(String),
    Descr(String),
    Tags(String),
    Attr(String),
    FpText(FpText),
    Pad(Pad),
    FpPoly(FpPoly),
    FpLine(FpLine),
    FpCircle(FpCircle),
    FpArc(FpArc),
    TEdit(String),
    TStamp(String),
    Path(String),
    At(At),
    Model(Model),
}

/// Mathematical value of an [`Element`].
pub enum ElementV {
    Locked,
    SolderMaskMargin(Real),
    Layer(Seq<char>),
    Descr(Seq<char>),
    Tags(Seq<char>),
    Attr(Seq<char>),
    FpText(FpTextV),
    Pad(PadV),
    FpPoly(FpPolyV),
    FpLine(FpLine),
    FpCircle(FpCircle),
    FpArc(FpArc),
    TEdit(Seq<char>),
    TStamp(Seq<char>),
    Path(Seq<char>),
    At(At),
    Model(ModelV),
}

impl View for Element {
    type V = ElementV;

    open spec fn view(&self) -> ElementV {
        match self {
            Element::Locked => ElementV::Locked,
            Element::SolderMaskMargin(v) => ElementV::SolderMaskMargin(*v),
            Element::Layer(s) => ElementV::Layer(s@),
            Element::Descr(s) => ElementV::Descr(s@),
            Element::Tags(s) => ElementV::Tags(s@),
            Element::Attr(s) => ElementV::Attr(s@),
            Element::FpText(t) => ElementV::FpText(t@),
            Element::Pad(p) => ElementV::Pad(p@),
            Element::FpPoly(p) => ElementV::FpPoly(p@),
            Element::FpLine(l) => ElementV::FpLine(*l),
            Element::FpCircle(c) => ElementV::FpCircle(*c),
            Element::FpArc(a) => ElementV::FpArc(*a),
            Element::TEdit(s) => ElementV::TEdit(s@),
            Element::TStamp(s) => ElementV::TStamp(s@),
            Element::Path(s) => ElementV::Path(s@),
            Element::At(a) => ElementV::At(*a),
            Element::Model(m) => ElementV::Model(m@),
        }
    }
}

/// A complete footprint: its name and its elements in source order.
#[derive(Clone, Debug, PartialEq)]
pub struct Module {
    pub name: String,
    pub elements: Vec<Element>,
}

/// Mathematical value of a [`Module`].
pub struct ModuleV {
    pub name: Seq<char>,
    pub elements: Seq<ElementV>,
}

impl View for Module {
    type V = ModuleV;

    open spec fn view(&self) -> ModuleV {
        ModuleV { name: self.name@, elements: Seq::new(self.elements@.len(), |i: int| self.elements@[i]@) }
    }
}

impl Module {
    pub fn new(name: String) -> (r: Module)
        ensures
            r@.name == name@,
            r@.elements == Seq::<ElementV>::empty(),
    {
        let m = Module { name, elements: Vec::new() };
        proof {
            assert(m@.elements =~= Seq::<ElementV>::empty());
        }
        m
    }

    /// Appends one element, preserving source order.
    pub fn append(&mut self, e: Element)
        ensures
            final(self)@.name == old(self)@.name,
            final(self)@.elements == old(self)@.elements.push(e@),
    {
        let ghost ev = e@;
        self.elements.push(e);
        proof {
            assert(final(self)@.elements =~= old(self)@.elements.push(ev));
        }
    }
}

} // verus!
