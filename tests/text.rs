use rust_pdftools::page::{Direction, ImageDimensions, ImageFileFormat, ImageResolution, Page, ResolutionUnits};
use rust_pdftools::page_ops::PageOps;

#[test]
fn page_ops_text() {
    assert_eq!(PageOps::NoOperation.to_string(), "NoOperation");
    assert_eq!(
        PageOps::Identify(String::from("scan"), String::from("/tmp/scan.png")).to_string(),
        "Identify(scan, /tmp/scan.png)"
    );
    assert_eq!(PageOps::Rescale(100, Direction::Horizontal).to_string(), "Rescale(100 Pixels, Horizontal)");
    assert_eq!(PageOps::ExpandLeftEdge(0).to_string(), "ExpandLeftEdge(0 Pixels)");
    assert_eq!(PageOps::ExpandRightEdge(12).to_string(), "ExpandRightEdge(12 Pixels)");
    assert_eq!(PageOps::ExpandTopEdge(7).to_string(), "ExpandTopEdge(7 Pixels)");
    assert_eq!(PageOps::ExpandBottomEdge(1000).to_string(), "ExpandBottomEdge(1000 Pixels)");
    assert_eq!(PageOps::TrimLeftEdge(3).to_string(), "TrimLeftEdge(3 Pixels)");
    assert_eq!(PageOps::TrimRightEdge(4).to_string(), "TrimRightEdge(4 Pixels)");
    assert_eq!(PageOps::TrimTopEdge(5).to_string(), "TrimTopEdge(5 Pixels)");
    assert_eq!(PageOps::TrimBottomEdge(6).to_string(), "TrimBottomEdge(6 Pixels)");
    assert_eq!(
        PageOps::SetResolution(ImageResolution::new(300, ResolutionUnits::PixelsPerInch)).to_string(),
        "SetResolution(300 Pixels per inch)"
    );
}

#[test]
fn large_numbers_keep_all_digits() {
    assert_eq!(PageOps::TrimLeftEdge(18446744073709551615).to_string(), "TrimLeftEdge(18446744073709551615 Pixels)");
}

#[test]
fn metadata_text() {
    assert_eq!(ResolutionUnits::PixelsPerCentimeter.to_string(), "Pixels per centimeter");
    assert_eq!(Direction::Vertical.to_string(), "Vertical");
    assert_eq!(ImageFileFormat::UNKNOWN.to_string(), "UNKNOWN FORMAT");
    assert_eq!(ImageFileFormat::JPEG.to_string(), "JPEG");
    assert_eq!(ImageDimensions::new(1200, 800).to_string(), "1200 x 800 Pixels");
    assert_eq!(ImageResolution::new(118, ResolutionUnits::PixelsPerCentimeter).to_string(), "118 Pixels per centimeter");
}

#[test]
fn page_text_and_accessors() {
    let p = Page::new(
        String::from("scan.png"),
        ImageFileFormat::PNG,
        String::from("/tmp/scan.png"),
        ImageDimensions::new(1200, 800),
        ImageResolution::new(300, ResolutionUnits::PixelsPerInch),
    );
    assert_eq!(p.to_string(), "Page(scan.png, PNG, 1200 x 800 Pixels, 300 Pixels per inch)");
    assert_eq!(p.file_name(), "scan.png");
    assert_eq!(p.file_path(), "/tmp/scan.png");
    assert_eq!(p.file_extension(), ImageFileFormat::PNG);
    assert_eq!(p.dimensions().get_x_pixels(), 1200);
    assert_eq!(p.dimensions().get_y_pixels(), 800);
    assert_eq!(p.resolution().get_amount(), 300);
    assert_eq!(p.resolution().get_units(), ResolutionUnits::PixelsPerInch);
    assert!(p.clone() == p);
}
