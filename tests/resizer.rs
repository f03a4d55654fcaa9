use image_resizer::ImageOutDim;
use image_resizer::ImageResizeParams;
use image_resizer::ImageUnit;
use image_resizer::ParamsError;
use image_resizer::ResizeError;
use image_resizer::UnitError;

fn unit(v: u32) -> ImageUnit {
    ImageUnit::new(v).unwrap()
}

fn values(dims: Option<(ImageUnit, ImageUnit)>) -> Option<(u32, u32)> {
    dims.map(|(w, h)| (w.get(), h.get()))
}

#[test]
fn unit_parses_decimal() {
    assert_eq!(ImageUnit::parse("10").map(|u| u.get()), Ok(10));
    assert_eq!(ImageUnit::parse("+7").map(|u| u.get()), Ok(7));
    assert_eq!(ImageUnit::parse("0042").map(|u| u.get()), Ok(42));
    assert_eq!(ImageUnit::parse("4294967295").map(|u| u.get()), Ok(u32::MAX));
    let via_trait: Result<ImageUnit, UnitError> = "27".parse();
    assert_eq!(via_trait.map(|u| u.get()), Ok(27));
}

#[test]
fn unit_rejects_zero() {
    assert_eq!(ImageUnit::parse("0"), Err(UnitError::ZeroValue));
    assert_eq!(ImageUnit::parse("000"), Err(UnitError::ZeroValue));
    assert!(ImageUnit::new(0).is_none());
}

#[test]
fn unit_rejects_non_numbers() {
    assert_eq!(ImageUnit::parse(""), Err(UnitError::ParseFailure));
    assert_eq!(ImageUnit::parse("abc"), Err(UnitError::ParseFailure));
    assert_eq!(ImageUnit::parse("-3"), Err(UnitError::ParseFailure));
    assert_eq!(ImageUnit::parse(" 5"), Err(UnitError::ParseFailure));
    assert_eq!(ImageUnit::parse("+"), Err(UnitError::ParseFailure));
    assert_eq!(ImageUnit::parse("4294967296"), Err(UnitError::ParseFailure));
}

#[test]
fn ratio_scaling() {
    assert_eq!(unit(100).mul_with_ratio(unit(3), unit(4)).map(|u| u.get()), Some(75));
    assert_eq!(unit(10).mul_with_ratio(unit(1), unit(3)).map(|u| u.get()), Some(3));
    assert!(unit(1).mul_with_ratio(unit(1), unit(2)).is_none());
    assert!(unit(u32::MAX).mul_with_ratio(unit(u32::MAX), unit(1)).is_none());
    assert_eq!(
        unit(u32::MAX).mul_with_ratio(unit(u32::MAX), unit(u32::MAX)).map(|u| u.get()),
        Some(u32::MAX)
    );
}

#[test]
fn both_resolves_unchanged() {
    let dim = ImageOutDim::Both { width: unit(27), height: unit(10) };
    assert_eq!(values(dim.resolve(unit(1), unit(1))), Some((27, 10)));
    assert_eq!(values(dim.resolve(unit(4000), unit(3))), Some((27, 10)));
    assert_eq!(values(dim.resolve(unit(u32::MAX), unit(u32::MAX))), Some((27, 10)));
}

#[test]
fn square_input_keeps_requested_side() {
    let by_height = ImageOutDim::Height { height: unit(123) };
    assert_eq!(values(by_height.resolve(unit(640), unit(640))), Some((123, 123)));
    let by_width = ImageOutDim::Width { width: unit(77) };
    assert_eq!(values(by_width.resolve(unit(5), unit(5))), Some((77, 77)));
}

#[test]
fn single_dimension_follows_aspect_ratio() {
    let by_height = ImageOutDim::Height { height: unit(50) };
    assert_eq!(values(by_height.resolve(unit(200), unit(100))), Some((100, 50)));
    let by_width = ImageOutDim::Width { width: unit(50) };
    assert_eq!(values(by_width.resolve(unit(200), unit(100))), Some((50, 25)));
    let by_width = ImageOutDim::Width { width: unit(10) };
    assert_eq!(values(by_width.resolve(unit(3), unit(2))), Some((10, 6)));
}

#[test]
fn unrepresentable_scaling_fails() {
    let by_height = ImageOutDim::Height { height: unit(1) };
    assert_eq!(values(by_height.resolve(unit(1), unit(2))), None);
    let by_width = ImageOutDim::Width { width: unit(u32::MAX) };
    assert_eq!(values(by_width.resolve(unit(1), unit(2))), None);
}

#[test]
fn resolving_twice_gives_same_result() {
    let both = ImageOutDim::Both { width: unit(8), height: unit(9) };
    let first = values(both.resolve(unit(30), unit(40)));
    let second = values(both.resolve(unit(30), unit(40)));
    assert_eq!(first, second);
    let (w, h) = both.resolve(unit(30), unit(40)).unwrap();
    let again = ImageOutDim::Both { width: w, height: h };
    assert_eq!(values(again.resolve(unit(30), unit(40))), first);
    let by_width = ImageOutDim::Width { width: unit(33) };
    assert_eq!(
        values(by_width.resolve(unit(17), unit(29))),
        values(by_width.resolve(unit(17), unit(29)))
    );
}

#[test]
fn dims_from_params() {
    assert_eq!(
        ImageOutDim::from_params(Some("10"), None),
        Some(ImageOutDim::Width { width: unit(10) })
    );
    assert_eq!(
        ImageOutDim::from_params(None, Some("10")),
        Some(ImageOutDim::Height { height: unit(10) })
    );
    assert_eq!(
        ImageOutDim::from_params(Some("27"), Some("10")),
        Some(ImageOutDim::Both { width: unit(27), height: unit(10) })
    );
    assert_eq!(ImageOutDim::from_params(None, None), None);
    assert_eq!(ImageOutDim::from_params(Some("abc"), None), None);
}

#[test]
fn zero_dimension_never_reaches_resolver() {
    assert_eq!(ImageOutDim::from_params(Some("0"), None), None);
    assert_eq!(ImageOutDim::from_params(Some("0"), Some("0")), None);
    assert_eq!(
        ImageOutDim::from_params(Some("0"), Some("5")),
        Some(ImageOutDim::Height { height: unit(5) })
    );
    assert_eq!(
        ImageResizeParams::from_query_values(Some("0"), None, None),
        Err(ParamsError::MissingDimensions)
    );
}

#[test]
fn query_values_quality() {
    let p = ImageResizeParams::from_query_values(Some("10"), Some("30"), Some("77")).unwrap();
    assert_eq!(p.jpeg_quality(), 77);
    assert_eq!(p.out_dim(), ImageOutDim::Both { width: unit(10), height: unit(30) });
    let p = ImageResizeParams::from_query_values(Some("10"), None, None).unwrap();
    assert_eq!(p.jpeg_quality(), 100);
    assert_eq!(p.out_dim(), ImageOutDim::Width { width: unit(10) });
    assert_eq!(
        ImageResizeParams::from_query_values(Some("10"), None, Some("0")),
        Err(ParamsError::InvalidQuality)
    );
    assert_eq!(
        ImageResizeParams::from_query_values(None, Some("10"), Some("300")),
        Err(ParamsError::InvalidQuality)
    );
    assert_eq!(
        ImageResizeParams::from_query_values(None, None, Some("50")),
        Err(ParamsError::MissingDimensions)
    );
}

#[test]
fn params_new() {
    let dim = ImageOutDim::Height { height: unit(3) };
    assert!(ImageResizeParams::new(dim, 0).is_none());
    let p = ImageResizeParams::new(dim, 20).unwrap();
    assert_eq!(p.jpeg_quality(), 20);
    assert_eq!(p.out_dim(), dim);
}

#[test]
fn target_dimensions_of_input() {
    let p = ImageResizeParams::from_query_values(None, Some("50"), None).unwrap();
    assert_eq!(p.target_dimensions(0, 100).map(|(w, h)| (w.get(), h.get())), Err(ResizeError::EmptyWidth));
    assert_eq!(p.target_dimensions(200, 0).map(|(w, h)| (w.get(), h.get())), Err(ResizeError::EmptyHeight));
    assert_eq!(p.target_dimensions(200, 100).map(|(w, h)| (w.get(), h.get())), Ok((100, 50)));
    assert_eq!(p.target_dimensions(1, 100).map(|(w, h)| (w.get(), h.get())), Err(ResizeError::Unrepresentable));
}
