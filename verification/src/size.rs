//! Columns, rows and pixel extents: raw 16-bit counts tagged with what they
//! measure, so that a height cannot be handed over where a width is expected.

use vstd::prelude::*;
use vstd::std_specs::convert::FromSpec;
use vstd::std_specs::ops::{AddSpec, DivSpec, MulSpec, SubSpec};
use crate::decimal::{decimal, decimal_string};

verus! {

/// A number of terminal columns.
#[derive(Debug, Clone, Copy, PartialEq, Eq, Ord, Structural)]
pub struct Width(pub u16);

/// A number of terminal rows.
#[derive(Debug, Clone, Copy, PartialEq, Eq, Ord, Structural)]
pub struct Height(pub u16);

/// The extent of a terminal window in pixels, along both axes.
#[derive(Debug, Clone, Copy, PartialEq, Eq, Structural)]
pub struct PixelSize {
    /// Horizontal extent.
    pub x: u16,
    /// Vertical extent.
    pub y: u16,
}

/// Columns and rows.
pub type Size = (Width, Height);

/// Columns, rows, and the pixel extent where the terminal reports one.
pub type FullSize = (Width, Height, Option<PixelSize>);

impl vstd::std_specs::convert::FromSpecImpl<Width> for u16 {
    open spec fn obeys_from_spec() -> bool {
        true
    }

    open spec fn from_spec(width: Width) -> u16 {
        width.0
    }
}

impl From<Width> for u16 {
    /// The raw count, unchanged.
    fn from(width: Width) -> (raw: u16)
        ensures
            raw == width.0,
    {
        width.0
    }
}

impl vstd::std_specs::ops::AddSpecImpl for Width {
    open spec fn obeys_add_spec() -> bool {
        true
    }

    /// The sum has to fit in 16 bits.
    open spec fn add_req(self, other: Width) -> bool {
        self.0 + other.0 <= u16::MAX
    }

    open spec fn add_spec(self, other: Width) -> Self::Output {
        Width((self.0 + other.0) as u16)
    }
}

impl core::ops::Add for Width {
    type Output = Width;

    /// The sum of two widths.
    fn add(self, other: Width) -> (sum: Width)
        ensures
            sum.0 == self.0 + other.0,
    {
        Width(self.0 + other.0)
    }
}

impl vstd::std_specs::ops::SubSpecImpl for Width {
    open spec fn obeys_sub_spec() -> bool {
        true
    }

    /// The width taken away is no larger than the one it is taken from.
    open spec fn sub_req(self, other: Width) -> bool {
        other.0 <= self.0
    }

    open spec fn sub_spec(self, other: Width) -> Self::Output {
        Width((self.0 - other.0) as u16)
    }
}

impl core::ops::Sub for Width {
    type Output = Width;

    /// The difference of two widths.
    fn sub(self, other: Width) -> (difference: Width)
        ensures
            difference.0 == self.0 - other.0,
    {
        Width(self.0 - other.0)
    }
}

impl vstd::std_specs::ops::MulSpecImpl<u16> for Width {
    open spec fn obeys_mul_spec() -> bool {
        true
    }

    /// The product has to fit in 16 bits.
    open spec fn mul_req(self, factor: u16) -> bool {
        self.0 * factor <= u16::MAX
    }

    open spec fn mul_spec(self, factor: u16) -> Self::Output {
        Width((self.0 * factor) as u16)
    }
}

impl core::ops::Mul<u16> for Width {
    type Output = Width;

    /// The width scaled by a unitless factor.
    fn mul(self, factor: u16) -> (product: Width)
        ensures
            product.0 == self.0 * factor,
    {
        Width(self.0 * factor)
    }
}

impl vstd::std_specs::ops::DivSpecImpl<u16> for Width {
    open spec fn obeys_div_spec() -> bool {
        true
    }

    /// The divisor is not zero.
    open spec fn div_req(self, divisor: u16) -> bool {
        divisor != 0
    }

    open spec fn div_spec(self, divisor: u16) -> Self::Output {
        Width(self.0 / divisor)
    }
}

impl core::ops::Div<u16> for Width {
    type Output = Width;

    /// The width divided by a unitless divisor, rounded down.
    fn div(self, divisor: u16) -> (quotient: Width)
        ensures
            quotient.0 == self.0 / divisor,
    {
        Width(self.0 / divisor)
    }
}

impl vstd::std_specs::convert::FromSpecImpl<Height> for u16 {
    open spec fn obeys_from_spec() -> bool {
        true
    }

    open spec fn from_spec(height: Height) -> u16 {
        height.0
    }
}

impl From<Height> for u16 {
    /// The raw count, unchanged.
    fn from(height: Height) -> (raw: u16)
        ensures
            raw == height.0,
    {
        height.0
    }
}

impl vstd::std_specs::ops::AddSpecImpl for Height {
    open spec fn obeys_add_spec() -> bool {
        true
    }

    /// The sum has to fit in 16 bits.
    open spec fn add_req(self, other: Height) -> bool {
        self.0 + other.0 <= u16::MAX
    }

    open spec fn add_spec(self, other: Height) -> Self::Output {
        Height((self.0 + other.0) as u16)
    }
}

impl core::ops::Add for Height {
    type Output = Height;

    /// The sum of two heights.
    fn add(self, other: Height) -> (sum: Height)
        ensures
            sum.0 == self.0 + other.0,
    {
        Height(self.0 + other.0)
    }
}

impl vstd::std_specs::ops::SubSpecImpl for Height {
    open spec fn obeys_sub_spec() -> bool {
        true
    }

    /// The height taken away is no larger than the one it is taken from.
    open spec fn sub_req(self, other: Height) -> bool {
        other.0 <= self.0
    }

    open spec fn sub_spec(self, other: Height) -> Self::Output {
        Height((self.0 - other.0) as u16)
    }
}

impl core::ops::Sub for Height {
    type Output = Height;

    /// The difference of two heights.
    fn sub(self, other: Height) -> (difference: Height)
        ensures
            difference.0 == self.0 - other.0,
    {
        Height(self.0 - other.0)
    }
}

impl vstd::std_specs::ops::MulSpecImpl<u16> for Height {
    open spec fn obeys_mul_spec() -> bool {
        true
    }

    /// The product has to fit in 16 bits.
    open spec fn mul_req(self, factor: u16) -> bool {
        self.0 * factor <= u16::MAX
    }

    open spec fn mul_spec(self, factor: u16) -> Self::Output {
        Height((self.0 * factor) as u16)
    }
}

impl core::ops::Mul<u16> for Height {
    type Output = Height;

    /// The height scaled by a unitless factor.
    fn mul(self, factor: u16) -> (product: Height)
        ensures
            product.0 == self.0 * factor,
    {
        Height(self.0 * factor)
    }
}

impl vstd::std_specs::ops::DivSpecImpl<u16> for Height {
    open spec fn obeys_div_spec() -> bool {
        true
    }

    /// The divisor is not zero.
    open spec fn div_req(self, divisor: u16) -> bool {
        divisor != 0
    }

    open spec fn div_spec(self, divisor: u16) -> Self::Output {
        Height(self.0 / divisor)
    }
}

impl core::ops::Div<u16> for Height {
    type Output = Height;

    /// The height divided by a unitless divisor, rounded down.
    fn div(self, divisor: u16) -> (quotient: Height)
        ensures
            quotient.0 == self.0 / divisor,
    {
        Height(self.0 / divisor)
    }
}

/// Arithmetic on widths is arithmetic on their columns, wherever the result
/// fits in 16 bits: `Width(a) + Width(b)` is `Width(a + b)`, `Width(a) - Width(b)`
/// is `Width(a - b)`, `Width(a) * b` is `Width(a * b)` and `Width(a) / b` is
/// `Width(a / b)`.
pub proof fn lemma_width_arithmetic(a: u16, b: u16)
    ensures
        a + b <= u16::MAX ==> Width(a).add_req(Width(b)) && Width(a).add_spec(Width(b)) == Width(
            (a + b) as u16,
        ),
        b <= a ==> Width(a).sub_req(Width(b)) && Width(a).sub_spec(Width(b)) == Width((a - b) as u16),
        a * b <= u16::MAX ==> Width(a).mul_req(b) && Width(a).mul_spec(b) == Width((a * b) as u16),
        b != 0 ==> Width(a).div_req(b) && Width(a).div_spec(b) == Width(a / b),
{
}

/// Arithmetic on heights is arithmetic on their rows, wherever the result
/// fits in 16 bits: `Height(a) + Height(b)` is `Height(a + b)`, `Height(a) - Height(b)`
/// is `Height(a - b)`, `Height(a) * b` is `Height(a * b)` and `Height(a) / b` is
/// `Height(a / b)`.
pub proof fn lemma_height_arithmetic(a: u16, b: u16)
    ensures
        a + b <= u16::MAX ==> Height(a).add_req(Height(b)) && Height(a).add_spec(Height(b)) == Height(
            (a + b) as u16,
        ),
        b <= a ==> Height(a).sub_req(Height(b)) && Height(a).sub_spec(Height(b)) == Height((a - b) as u16),
        a * b <= u16::MAX ==> Height(a).mul_req(b) && Height(a).mul_spec(b) == Height((a * b) as u16),
        b != 0 ==> Height(a).div_req(b) && Height(a).div_spec(b) == Height(a / b),
{
}

/// Taking the raw count out of a width and wrapping it again gives the width
/// back, and wrapping a count and taking it out again gives the count back.
pub proof fn lemma_width_round_trip(width: Width, raw: u16)
    ensures
        Width(u16::from_spec(width)) == width,
        u16::from_spec(Width(raw)) == raw,
{
}

/// Taking the raw count out of a height and wrapping it again gives the
/// height back, and wrapping a count and taking it out again gives the count
/// back.
pub proof fn lemma_height_round_trip(height: Height, raw: u16)
    ensures
        Height(u16::from_spec(height)) == height,
        u16::from_spec(Height(raw)) == raw,
{
}

impl Width {
    /// The text of a width: the word `Width`, a colon, a space, and the
    /// number of columns in decimal.
    pub open spec fn text(self) -> Seq<char> {
        "Width: "@ + decimal(self.0 as nat)
    }

    /// Shows the width as text, such as `Width: 80`.
    pub fn to_string(&self) -> (text: String)
        ensures
            text@ == self.text(),
    {
        let mut text = String::from_str("Width: ");
        let count = decimal_string(self.0);
        text.append(count.as_str());
        text
    }
}

impl Height {
    /// The text of a height: the word `Height`, a colon, a space, and the
    /// number of rows in decimal.
    pub open spec fn text(self) -> Seq<char> {
        "Height: "@ + decimal(self.0 as nat)
    }

    /// Shows the height as text, such as `Height: 24`.
    pub fn to_string(&self) -> (text: String)
        ensures
            text@ == self.text(),
    {
        let mut text = String::from_str("Height: ");
        let count = decimal_string(self.0);
        text.append(count.as_str());
        text
    }
}

} // verus!
