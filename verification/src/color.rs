//! Colours, and the cyclic hue scheme that turns a number into one.

use vstd::prelude::*;

verus! {

/// The number of hues on the wheel: one per degree.
pub const HUES: u32 = 360;

/// The saturation of every colour on the wheel, in percent.
pub const SATURATION_PERCENT: u32 = 50;

/// The lightness of every colour on the wheel, in percent.
pub const LIGHTNESS_PERCENT: u32 = 30;

/// A colour as red, green and blue channels of eight bits each.
#[derive(Clone, Copy, Debug, PartialEq, Eq, Structural)]
pub struct Color {
    pub r: u8,
    pub g: u8,
    pub b: u8,
}

/// The colour of the marker drawn at the focal point: pure red.
pub open spec fn marker_spec() -> Color {
    Color { r: 255, g: 0, b: 0 }
}

/// The colour of the marker drawn at the focal point.
pub fn marker_color() -> (out: Color)
    ensures
        out == marker_spec(),
{
    Color { r: 255, g: 0, b: 0 }
}

/// The hue, in degrees, that stands for the number `num`.
pub open spec fn hue_spec(num: nat) -> nat {
    num % (HUES as nat)
}

/// The hue that stands for `num`: `num` modulo 360.
pub fn hue(num: u32) -> (out: u32)
    ensures
        out == hue_spec(num as nat),
        out < HUES,
{
    num % HUES
}

/// The colour of every hue, for the fixed saturation and lightness.
pub struct HueWheel {
    colors: Vec<Color>,
}

impl View for HueWheel {
    type V = Seq<Color>;

    /// The colours of the wheel, by hue in degrees.
    closed spec fn view(&self) -> Seq<Color> {
        self.colors@
    }
}

impl HueWheel {
    #[verifier::type_invariant]
    spec fn complete(self) -> bool {
        self.colors@.len() == HUES
    }

    /// The colour that the wheel gives the number `num`.
    pub open spec fn color_spec(self, num: nat) -> Color {
        self@[hue_spec(num) as int]
    }

    /// Builds the wheel by asking `shade` for the colour of each hue in turn,
    /// from 0 up to 359 degrees. `shade` is handed the hue in degrees and the
    /// fixed saturation and lightness in percent.
    pub fn from_fn<F: Fn(u32, u32, u32) -> Color>(shade: F) -> (out: HueWheel)
        requires
            forall|h: u32| h < HUES ==> call_requires(shade, (h, SATURATION_PERCENT, LIGHTNESS_PERCENT)),
        ensures
            out@.len() == HUES,
            forall|h: u32|
                h < HUES ==> call_ensures(
                    shade,
                    (h, SATURATION_PERCENT, LIGHTNESS_PERCENT),
                    #[trigger] out@[h as int],
                ),
    {
        let mut colors: Vec<Color> = Vec::new();
        let mut h: u32 = 0;
        while h < HUES
            invariant
                h <= HUES,
                colors@.len() == h,
                forall|g: u32| g < HUES ==> call_requires(shade, (g, SATURATION_PERCENT, LIGHTNESS_PERCENT)),
                forall|g: u32|
                    g < h ==> call_ensures(
                        shade,
                        (g, SATURATION_PERCENT, LIGHTNESS_PERCENT),
                        #[trigger] colors@[g as int],
                    ),
            decreases HUES - h,
        {
            let color = shade(h, SATURATION_PERCENT, LIGHTNESS_PERCENT);
            colors.push(color);
            h += 1;
        }
        HueWheel { colors }
    }

    /// The colour for the number `num`: the colour of the hue `num` modulo
    /// 360. A wheel always holds one colour per hue.
    pub fn assigned_color(&self, num: u32) -> (out: Color)
        ensures
            self@.len() == HUES,
            out == self.color_spec(num as nat),
    {
        proof {
            use_type_invariant(self);
        }
        self.colors[hue(num) as usize]
    }
}

/// Numbers that differ by a multiple of 360 have the same hue.
pub proof fn lemma_hue_is_cyclic(n: nat, k: nat)
    ensures
        hue_spec(n + 360 * k) == hue_spec(n),
{
    assert((n + 360 * k) % 360 == n % 360) by (nonlinear_arith);
}

/// Numbers that differ by a multiple of 360 get the same colour from a wheel.
pub proof fn lemma_color_is_cyclic(wheel: HueWheel, n: nat, k: nat)
    ensures
        wheel.color_spec(n + 360 * k) == wheel.color_spec(n),
{
    lemma_hue_is_cyclic(n, k);
}

} // verus!
