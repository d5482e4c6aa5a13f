//! Identity of a page: its name, format, location, size and resolution.
use vstd::prelude::*;
use crate::text::{decimal_digits, push_decimal, push_text};

verus! {

pub type Pixels = usize;

pub type FileName = String;

pub type FilePath = String;

#[derive(Clone, Copy, PartialEq, Eq, Structural, Hash, Debug)]
pub enum ResolutionUnits {
    PixelsPerInch,
    PixelsPerCentimeter,
}

impl ResolutionUnits {
    pub open spec fn text(&self) -> Seq<char> {
        match self {
            ResolutionUnits::PixelsPerInch => "Pixels per inch"@,
            ResolutionUnits::PixelsPerCentimeter => "Pixels per centimeter"@,
        }
    }

    pub fn to_string(&self) -> (r: String)
        ensures
            r@ == self.text(),
    {
        match self {
            ResolutionUnits::PixelsPerInch => String::from_str("Pixels per inch"),
            ResolutionUnits::PixelsPerCentimeter => String::from_str("Pixels per centimeter"),
        }
    }
}

#[derive(Clone, Copy, PartialEq, Eq, Structural, Hash, Debug)]
pub enum Direction {
    Horizontal,
    Vertical,
}

impl Direction {
    pub open spec fn text(&self) -> Seq<char> {
        match self {
            Direction::Horizontal => "Horizontal"@,
            Direction::Vertical => "Vertical"@,
        }
    }

    pub fn to_string(&self) -> (r: String)
        ensures
            r@ == self.text(),
    {
        match self {
            Direction::Horizontal => String::from_str("Horizontal"),
            Direction::Vertical => String::from_str("Vertical"),
        }
    }
}

#[derive(Clone, Copy, PartialEq, Eq, Structural, Hash, Debug)]
pub enum ImageFileFormat {
    TIFF,
    PNG,
    JPEG,
    UNKNOWN,
}

impl ImageFileFormat {
    pub open spec fn text(&self) -> Seq<char> {
        match self {
            ImageFileFormat::TIFF => "TIFF"@,
            ImageFileFormat::PNG => "PNG"@,
            ImageFileFormat::JPEG => "JPEG"@,
            ImageFileFormat::UNKNOWN => "UNKNOWN FORMAT"@,
        }
    }

    pub fn to_string(&self) -> (r: String)
        ensures
            r@ == self.text(),
    {
        match self {
            ImageFileFormat::TIFF => String::from_str("TIFF"),
            ImageFileFormat::PNG => String::from_str("PNG"),
            ImageFileFormat::JPEG => String::from_str("JPEG"),
            ImageFileFormat::UNKNOWN => String::from_str("UNKNOWN FORMAT"),
        }
    }
}

#[derive(Clone, Copy, PartialEq, Eq, Structural, Hash, Debug)]
pub struct ImageDimensions {
    x_pixels: Pixels,
    y_pixels: Pixels,
}

impl ImageDimensions {
    pub fn new(x: Pixels, y: Pixels) -> (r: ImageDimensions)
        ensures
            r.x_pixels() == x,
            r.y_pixels() == y,
    {
        ImageDimensions { x_pixels: x, y_pixels: y }
    }

    pub closed spec fn x_pixels(&self) -> Pixels {
        self.x_pixels
    }

    pub closed spec fn y_pixels(&self) -> Pixels {
        self.y_pixels
    }

    pub fn get_x_pixels(&self) -> (r: Pixels)
        ensures
            r == self.x_pixels(),
    {
        self.x_pixels
    }

    pub fn get_y_pixels(&self) -> (r: Pixels)
        ensures
            r == self.y_pixels(),
    {
        self.y_pixels
    }

    /// Width by height, as in `1200 x 800 Pixels`.
    pub open spec fn text(&self) -> Seq<char> {
        decimal_digits(self.x_pixels() as nat) + " x "@ + decimal_digits(self.y_pixels() as nat) + " Pixels"@
    }

    pub fn to_string(&self) -> (r: String)
        ensures
            r@ == self.text(),
    {
        let mut s = String::new();
        push_decimal(&mut s, self.x_pixels);
        push_text(&mut s, " x ");
        push_decimal(&mut s, self.y_pixels);
        push_text(&mut s, " Pixels");
        s
    }
}

#[derive(Clone, Copy, PartialEq, Eq, Structural, Hash, Debug)]
pub struct ImageResolution {
    amount: Pixels,
    units: ResolutionUnits,
}

impl ImageResolution {
    pub fn new(amount: Pixels, units: ResolutionUnits) -> (r: ImageResolution)
        ensures
            r.amount() == amount,
            r.units() == units,
    {
        ImageResolution { amount, units }
    }

    pub closed spec fn amount(&self) -> Pixels {
        self.amount
    }

    pub closed spec fn units(&self) -> ResolutionUnits {
        self.units
    }

    /// The number of pixels per unit of length.
    pub fn get_amount(&self) -> (r: Pixels)
        ensures
            r == self.amount(),
    {
        self.amount
    }

    /// The unit of length that the amount is counted against.
    pub fn get_units(&self) -> (r: ResolutionUnits)
        ensures
            r == self.units(),
    {
        self.units
    }

    /// The amount and the unit, as in `300 Pixels per inch`.
    pub open spec fn text(&self) -> Seq<char> {
        decimal_digits(self.amount() as nat) + " "@ + self.units().text()
    }

    pub fn to_string(&self) -> (r: String)
        ensures
            r@ == self.text(),
    {
        let mut s = String::new();
        push_decimal(&mut s, self.amount);
        push_text(&mut s, " ");
        let units = self.units.to_string();
        push_text(&mut s, units.as_str());
        s
    }
}

/// What identifies a page, as mathematical values: two pages with the same
/// metadata are the same page.
pub struct PageView {
    pub file_name: Seq<char>,
    pub file_extension: ImageFileFormat,
    pub file_path: Seq<char>,
    pub dimensions: ImageDimensions,
    pub resolution: ImageResolution,
}

/// A unit of work: an image file together with its metadata.
#[derive(Debug, Hash)]
pub struct Page {
    file_name: FileName,
    file_extension: ImageFileFormat,
    file_path: FilePath,
    dimensions: ImageDimensions,
    resolution: ImageResolution,
}

impl View for Page {
    type V = PageView;

    closed spec fn view(&self) -> PageView {
        PageView {
            file_name: self.file_name@,
            file_extension: self.file_extension,
            file_path: self.file_path@,
            dimensions: self.dimensions,
            resolution: self.resolution,
        }
    }
}

impl Page {
    pub fn new(
        file_name: FileName,
        file_extension: ImageFileFormat,
        file_path: FilePath,
        dimensions: ImageDimensions,
        resolution: ImageResolution,
    ) -> (r: Page)
        ensures
            r@ == (PageView {
                file_name: file_name@,
                file_extension,
                file_path: file_path@,
                dimensions,
                resolution,
            }),
    {
        Page { file_name, file_extension, file_path, dimensions, resolution }
    }

    pub fn file_name(&self) -> (r: &FileName)
        ensures
            r@ == self@.file_name,
    {
        &self.file_name
    }

    pub fn file_path(&self) -> (r: &FilePath)
        ensures
            r@ == self@.file_path,
    {
        &self.file_path
    }

    pub fn file_extension(&self) -> (r: ImageFileFormat)
        ensures
            r == self@.file_extension,
    {
        self.file_extension
    }

    pub fn dimensions(&self) -> (r: ImageDimensions)
        ensures
            r == self@.dimensions,
    {
        self.dimensions
    }

    pub fn resolution(&self) -> (r: ImageResolution)
        ensures
            r == self@.resolution,
    {
        self.resolution
    }

    /// As in `Page(scan.png, PNG, 1200 x 800 Pixels, 300 Pixels per inch)`.
    pub open spec fn text(&self) -> Seq<char> {
        "Page("@ + self@.file_name + ", "@ + self@.file_extension.text() + ", "@
            + self@.dimensions.text() + ", "@ + self@.resolution.text() + ")"@
    }

    pub fn to_string(&self) -> (r: String)
        ensures
            r@ == self.text(),
    {
        let mut s = String::new();
        push_text(&mut s, "Page(");
        push_text(&mut s, self.file_name.as_str());
        push_text(&mut s, ", ");
        let ext = self.file_extension.to_string();
        push_text(&mut s, ext.as_str());
        push_text(&mut s, ", ");
        let dims = self.dimensions.to_string();
        push_text(&mut s, dims.as_str());
        push_text(&mut s, ", ");
        let res = self.resolution.to_string();
        push_text(&mut s, res.as_str());
        push_text(&mut s, ")");
        s
    }
}

impl Clone for Page {
    fn clone(&self) -> (r: Page)
        ensures
            r@ == self@,
    {
        Page {
            file_name: self.file_name.clone(),
            file_extension: self.file_extension,
            file_path: self.file_path.clone(),
            dimensions: self.dimensions,
            resolution: self.resolution,
        }
    }
}

impl PartialEq for Page {
    fn eq(&self, other: &Page) -> (r: bool) {
        self.file_name == other.file_name && self.file_extension == other.file_extension
            && self.file_path == other.file_path && self.dimensions == other.dimensions
            && self.resolution == other.resolution
    }
}

impl vstd::std_specs::cmp::PartialEqSpecImpl for Page {
    open spec fn obeys_eq_spec() -> bool {
        true
    }

    open spec fn eq_spec(&self, other: &Page) -> bool {
        self@ == other@
    }
}

impl Eq for Page {

}

} // verus!
