use crate::overflow_ops::mul_div;
use crate::overflow_ops::mul_div_spec;
use vstd::prelude::*;
use vstd::string::StringSliceAdditionalSpecFns;

verus! {

/// Whether every byte is an ASCII decimal digit, with at least one byte.
pub open spec fn is_digits(d: Seq<u8>) -> bool {
    d.len() > 0 && forall|i: int| 0 <= i < d.len() ==> 48 <= #[trigger] d[i] <= 57
}

/// The value of a string of decimal digits, most significant first.
pub open spec fn digits_value(d: Seq<u8>) -> nat
    decreases d.len(),
{
    if d.len() == 0 {
        0
    } else {
        digits_value(d.drop_last()) * 10 + (d.last() - 48) as nat
    }
}

/// The digits of a decimal number, after an optional leading `+`.
pub open spec fn unsigned_digits(b: Seq<u8>) -> Seq<u8> {
    if b.len() > 0 && b[0] == 43 {
        b.drop_first()
    } else {
        b
    }
}

/// The `u32` that a string writes in decimal (an optional `+`, then digits),
/// if it writes one.
pub open spec fn decimal_u32(b: Seq<u8>) -> Option<u32> {
    let d = unsigned_digits(b);
    if is_digits(d) && digits_value(d) <= u32::MAX {
        Some(digits_value(d) as u32)
    } else {
        None
    }
}

/// The positive value that a dimension parameter gives, if any.
pub open spec fn unit_value(b: Seq<u8>) -> Option<u32> {
    match decimal_u32(b) {
        Some(v) => if v >= 1 {
            Some(v)
        } else {
            None
        },
        None => None,
    }
}

/// The positive value of an optional dimension parameter, if any.
pub open spec fn param_unit(p: Option<&str>) -> Option<u32> {
    match p {
        Some(s) => unit_value(s.spec_bytes()),
        None => None,
    }
}

/// Relies on `u32::from_str`: it accepts exactly an optional `+` followed by
/// decimal digits whose value fits in a `u32`, and returns that value.
#[verifier::external_body]
fn parse_u32(s: &str) -> (r: Option<u32>)
    ensures
        r == decimal_u32(s.spec_bytes()),
{
    s.parse::<u32>().ok()
}

/// Why a dimension string was rejected.
#[derive(Clone, Copy, Debug, PartialEq, Eq, Structural)]
pub enum UnitError {
    /// Not an unsigned decimal integer that fits in a `u32`.
    ParseFailure,
    /// The value is zero.
    ZeroValue,
}

/// A strictly positive pixel count.
#[derive(Clone, Copy, Debug, PartialEq, Eq, Structural)]
pub struct ImageUnit {
    value: u32,
}

impl View for ImageUnit {
    type V = u32;

    closed spec fn view(&self) -> u32 {
        self.value
    }
}

/// `floor(v * num / den)` when it is defined, fits in a `u32` and is not zero.
pub open spec fn scale_spec(v: u32, num: u32, den: u32) -> Option<u32> {
    match mul_div_spec(v, num, den) {
        Some(x) => if x >= 1 {
            Some(x)
        } else {
            None
        },
        None => None,
    }
}

/// The value of an optional unit.
pub open spec fn unit_opt_view(u: Option<ImageUnit>) -> Option<u32> {
    match u {
        Some(x) => Some(x@),
        None => None,
    }
}

/// The values of an optional pair of units.
pub open spec fn pair_view(p: Option<(ImageUnit, ImageUnit)>) -> Option<(u32, u32)> {
    match p {
        Some((w, h)) => Some((w@, h@)),
        None => None,
    }
}

impl ImageUnit {
    #[verifier::type_invariant]
    spec fn positive(self) -> bool {
        self.value >= 1
    }

    /// The unit of `value` pixels; `None` for zero.
    pub fn new(value: u32) -> (r: Option<ImageUnit>)
        ensures
            unit_opt_view(r) == (if value >= 1 {
                Some(value)
            } else {
                None
            }),
    {
        if value >= 1 {
            Some(ImageUnit { value })
        } else {
            None
        }
    }

    /// The pixel count, never zero.
    pub fn get(self) -> (r: u32)
        ensures
            r == self@,
            r >= 1,
    {
        proof {
            use_type_invariant(&self);
        }
        self.value
    }

    /// Reads a unit from its decimal form.
    pub fn parse(s: &str) -> (r: Result<ImageUnit, UnitError>)
        ensures
            match decimal_u32(s.spec_bytes()) {
                None => r == Err::<ImageUnit, UnitError>(UnitError::ParseFailure),
                Some(v) => if v == 0 {
                    r == Err::<ImageUnit, UnitError>(UnitError::ZeroValue)
                } else {
                    r matches Ok(u) && u@ == v
                },
            },
    {
        match parse_u32(s) {
            None => Err(UnitError::ParseFailure),
            Some(v) => if v == 0 {
                Err(UnitError::ZeroValue)
            } else {
                Ok(ImageUnit { value: v })
            },
        }
    }

    /// `floor(a * b / c)` for positive values, when it fits and is not zero.
    fn mul_div_l(a: u32, b: u32, c: u32) -> (r: Option<u32>)
        requires
            a >= 1,
            b >= 1,
            c >= 1,
        ensures
            r == scale_spec(a, b, c),
    {
        match mul_div(a, b, c) {
            Some(x) => if x >= 1 {
                Some(x)
            } else {
                None
            },
            None => None,
        }
    }

    /// This unit scaled by the ratio `num / denom`, rounded down; `None` where
    /// the result does not fit or rounds down to zero.
    pub fn mul_with_ratio(self, num: Self, denom: Self) -> (r: Option<Self>)
        ensures
            unit_opt_view(r) == scale_spec(self@, num@, denom@),
    {
        proof {
            use_type_invariant(&self);
            use_type_invariant(&num);
            use_type_invariant(&denom);
        }
        match Self::mul_div_l(self.value, num.value, denom.value) {
            Some(x) => Some(ImageUnit { value: x }),
            None => None,
        }
    }
}

impl std::str::FromStr for ImageUnit {
    type Err = UnitError;

    fn from_str(s: &str) -> Result<ImageUnit, UnitError> {
        ImageUnit::parse(s)
    }
}

/// What the caller asked for: both dimensions, or one of them, the other then
/// following the input's aspect ratio.
#[derive(Clone, Copy, Debug, PartialEq, Eq, Structural)]
pub enum ImageOutDim {
    Both { width: ImageUnit, height: ImageUnit },
    Height { height: ImageUnit },
    Width { width: ImageUnit },
}

/// The (width, height) that a request resolves to for an input of
/// `input_width` by `input_height`.
pub open spec fn resolve_spec(dim: ImageOutDim, input_width: u32, input_height: u32) -> Option<
    (u32, u32),
> {
    match dim {
        ImageOutDim::Both { width, height } => Some((width@, height@)),
        ImageOutDim::Height { height } => match scale_spec(height@, input_width, input_height) {
            Some(w) => Some((w, height@)),
            None => None,
        },
        ImageOutDim::Width { width } => match scale_spec(width@, input_height, input_width) {
            Some(h) => Some((width@, h)),
            None => None,
        },
    }
}

/// The (width, height) that a request names, absent ones as `None`.
pub open spec fn out_dim_view(d: Option<ImageOutDim>) -> Option<(Option<u32>, Option<u32>)> {
    match d {
        Some(ImageOutDim::Both { width, height }) => Some((Some(width@), Some(height@))),
        Some(ImageOutDim::Height { height }) => Some((None, Some(height@))),
        Some(ImageOutDim::Width { width }) => Some((Some(width@), None)),
        None => None,
    }
}

impl ImageOutDim {
    /// Builds the request from its optional `width` and `height` parameters,
    /// trying both, then the height alone, then the width alone. A parameter
    /// that is not a positive decimal integer counts as absent.
    pub fn from_params(width: Option<&str>, height: Option<&str>) -> (r: Option<ImageOutDim>)
        ensures
            out_dim_view(r) == (if param_unit(width) is None && param_unit(height) is None {
                None
            } else {
                Some((param_unit(width), param_unit(height)))
            }),
    {
        let w = match width {
            Some(s) => match ImageUnit::parse(s) {
                Ok(u) => Some(u),
                Err(_) => None,
            },
            None => None,
        };
        let h = match height {
            Some(s) => match ImageUnit::parse(s) {
                Ok(u) => Some(u),
                Err(_) => None,
            },
            None => None,
        };
        match (w, h) {
            (Some(width), Some(height)) => Some(ImageOutDim::Both { width, height }),
            (None, Some(height)) => Some(ImageOutDim::Height { height }),
            (Some(width), None) => Some(ImageOutDim::Width { width }),
            (None, None) => None,
        }
    }

    /// The target (width, height): as given, or with the missing dimension
    /// scaled to keep the input's aspect ratio. `None` where that scaling does
    /// not give a positive `u32`.
    pub fn resolve(self, input_width: ImageUnit, input_height: ImageUnit) -> (r: Option<
        (ImageUnit, ImageUnit),
    >)
        ensures
            pair_view(r) == resolve_spec(self, input_width@, input_height@),
    {
        match self {
            ImageOutDim::Both { width, height } => Some((width, height)),
            ImageOutDim::Height { height } => match height.mul_with_ratio(
                input_width,
                input_height,
            ) {
                Some(w) => Some((w, height)),
                None => None,
            },
            ImageOutDim::Width { width } => match width.mul_with_ratio(input_height, input_width) {
                Some(h) => Some((width, h)),
                None => None,
            },
        }
    }
}

/// The JPEG quality a request names when it names none.
fn default_jpeg_quality() -> (r: u8)
    ensures
        r == 100,
{
    100
}

/// The JPEG quality that a parameter gives: its decimal value, from 1 to 255.
pub open spec fn quality_value(b: Seq<u8>) -> Option<u8> {
    match decimal_u32(b) {
        Some(v) => if 1 <= v <= 255 {
            Some(v as u8)
        } else {
            None
        },
        None => None,
    }
}

/// The JPEG quality of an optional parameter, 100 where it is absent.
pub open spec fn quality_param(q: Option<&str>) -> Option<u8> {
    match q {
        Some(s) => quality_value(s.spec_bytes()),
        None => Some(100),
    }
}

/// Why a set of request parameters was rejected.
#[derive(Clone, Copy, Debug, PartialEq, Eq, Structural)]
pub enum ParamsError {
    /// Neither a valid width nor a valid height was given.
    MissingDimensions,
    /// The JPEG quality is not a decimal integer from 1 to 255.
    InvalidQuality,
}

/// Why an image cannot be resized as asked.
#[derive(Clone, Copy, Debug, PartialEq, Eq, Structural)]
pub enum ResizeError {
    /// The input image has no columns.
    EmptyWidth,
    /// The input image has no rows.
    EmptyHeight,
    /// The scaled dimension is zero or does not fit in a `u32`.
    Unrepresentable,
}

/// The parameters of one resize request.
#[derive(Clone, Copy, Debug, PartialEq, Eq, Structural)]
pub struct ImageResizeParams {
    jpeg_quality: u8,
    out_dim: ImageOutDim,
}

impl ImageResizeParams {
    #[verifier::type_invariant]
    spec fn quality_positive(self) -> bool {
        self.jpeg_quality >= 1
    }

    /// The JPEG quality of the output, never zero.
    pub closed spec fn spec_jpeg_quality(self) -> u8 {
        self.jpeg_quality
    }

    /// The requested output dimensions.
    pub closed spec fn spec_out_dim(self) -> ImageOutDim {
        self.out_dim
    }

    /// Parameters from their parts; `None` for a zero quality.
    pub fn new(out_dim: ImageOutDim, jpeg_quality: u8) -> (r: Option<ImageResizeParams>)
        ensures
            r is Some <==> jpeg_quality >= 1,
            r matches Some(p) ==> p.spec_out_dim() == out_dim && p.spec_jpeg_quality()
                == jpeg_quality,
    {
        if jpeg_quality >= 1 {
            Some(ImageResizeParams { jpeg_quality, out_dim })
        } else {
            None
        }
    }

    /// Parameters from the optional `width`, `height` and `jpeg_quality`
    /// values of a request. The dimensions are read as `ImageOutDim::from_params`
    /// reads them; an absent quality is 100.
    pub fn from_query_values(
        width: Option<&str>,
        height: Option<&str>,
        jpeg_quality: Option<&str>,
    ) -> (r: Result<ImageResizeParams, ParamsError>)
        ensures
            (param_unit(width) is None && param_unit(height) is None) ==> r == Err::<
                ImageResizeParams,
                ParamsError,
            >(ParamsError::MissingDimensions),
            (!(param_unit(width) is None && param_unit(height) is None) && quality_param(
                jpeg_quality,
            ) is None) ==> r == Err::<ImageResizeParams, ParamsError>(
                ParamsError::InvalidQuality,
            ),
            (!(param_unit(width) is None && param_unit(height) is None) && quality_param(
                jpeg_quality,
            ) is Some) ==> (r matches Ok(p) && out_dim_view(Some(p.spec_out_dim())) == Some(
                (param_unit(width), param_unit(height)),
            ) && Some(p.spec_jpeg_quality()) == quality_param(jpeg_quality)),
    {
        let out_dim = match ImageOutDim::from_params(width, height) {
            Some(d) => d,
            None => return Err(ParamsError::MissingDimensions),
        };
        let quality = match jpeg_quality {
            None => default_jpeg_quality(),
            Some(s) => match parse_u32(s) {
                Some(v) => if 1 <= v && v <= 255 {
                    v as u8
                } else {
                    return Err(ParamsError::InvalidQuality);
                },
                None => return Err(ParamsError::InvalidQuality),
            },
        };
        Ok(ImageResizeParams { jpeg_quality: quality, out_dim })
    }

    /// The JPEG quality of the output.
    pub fn jpeg_quality(&self) -> (r: u8)
        ensures
            r == self.spec_jpeg_quality(),
            r >= 1,
    {
        proof {
            use_type_invariant(self);
        }
        self.jpeg_quality
    }

    /// The requested output dimensions.
    pub fn out_dim(&self) -> (r: ImageOutDim)
        ensures
            r == self.spec_out_dim(),
    {
        self.out_dim
    }

    /// The (width, height) to resize an input of `input_width` by
    /// `input_height` pixels to.
    pub fn target_dimensions(&self, input_width: u32, input_height: u32) -> (r: Result<
        (ImageUnit, ImageUnit),
        ResizeError,
    >)
        ensures
            match r {
                Ok((w, h)) => input_width >= 1 && input_height >= 1 && resolve_spec(
                    self.spec_out_dim(),
                    input_width,
                    input_height,
                ) == Some((w@, h@)),
                Err(ResizeError::EmptyWidth) => input_width == 0,
                Err(ResizeError::EmptyHeight) => input_width >= 1 && input_height == 0,
                Err(ResizeError::Unrepresentable) => input_width >= 1 && input_height >= 1
                    && resolve_spec(self.spec_out_dim(), input_width, input_height) is None,
            },
    {
        let width = match ImageUnit::new(input_width) {
            Some(u) => u,
            None => return Err(ResizeError::EmptyWidth),
        };
        let height = match ImageUnit::new(input_height) {
            Some(u) => u,
            None => return Err(ResizeError::EmptyHeight),
        };
        match self.out_dim.resolve(width, height) {
            Some(dims) => Ok(dims),
            None => Err(ResizeError::Unrepresentable),
        }
    }
}

/// A request that names both dimensions resolves to them, whatever the input.
pub proof fn lemma_resolve_both_unchanged(
    width: ImageUnit,
    height: ImageUnit,
    input_width: u32,
    input_height: u32,
)
    ensures
        resolve_spec(ImageOutDim::Both { width, height }, input_width, input_height) == Some(
            (width@, height@),
        ),
{
}

/// On a square input, a request that names one dimension gets the same value
/// for the other.
pub proof fn lemma_square_input_keeps_side(side: ImageUnit, input_side: u32)
    requires
        side@ >= 1,
        input_side >= 1,
    ensures
        resolve_spec(ImageOutDim::Height { height: side }, input_side, input_side) == Some(
            (side@, side@),
        ),
        resolve_spec(ImageOutDim::Width { width: side }, input_side, input_side) == Some(
            (side@, side@),
        ),
{
    vstd::arithmetic::div_mod::lemma_div_by_multiple(side@ as int, input_side as int);
}

/// Resolving is a function of its inputs: any two results that resolving the
/// same request on the same input may give are equal.
pub proof fn lemma_resolve_deterministic(
    dim: ImageOutDim,
    input_width: ImageUnit,
    input_height: ImageUnit,
    first: Option<(ImageUnit, ImageUnit)>,
    second: Option<(ImageUnit, ImageUnit)>,
)
    requires
        pair_view(first) == resolve_spec(dim, input_width@, input_height@),
        pair_view(second) == resolve_spec(dim, input_width@, input_height@),
    ensures
        first == second,
{
}

/// A dimension written as zero never reaches resolving: it gives no unit.
pub proof fn lemma_zero_dimension_rejected(param: &str)
    requires
        decimal_u32(param.spec_bytes()) == Some(0u32),
    ensures
        unit_value(param.spec_bytes()) is None,
        param_unit(Some(param)) is None,
{
}

} // verus!
