//! The abstract vocabulary of page operations, the capabilities a concrete
//! backend provides to realize it, and the lowering into a backend.
use vstd::prelude::*;
use crate::page::{Direction, FileName, FilePath, ImageResolution, Pixels};
use crate::results::OperationResults;
use crate::text::{decimal_digits, push_decimal, push_text};

verus! {

/// The most primitive page operations: rescaling pages, expanding or trimming
/// their edges and setting their resolution, to normalize page dimensions.
#[derive(PartialEq, Eq, Debug)]
pub enum PageOps {
    NoOperation,
    Identify(FileName, FilePath),
    Rescale(Pixels, Direction),
    ExpandLeftEdge(Pixels),
    ExpandRightEdge(Pixels),
    ExpandTopEdge(Pixels),
    ExpandBottomEdge(Pixels),
    TrimLeftEdge(Pixels),
    TrimRightEdge(Pixels),
    TrimTopEdge(Pixels),
    TrimBottomEdge(Pixels),
    SetResolution(ImageResolution),
}

impl Clone for PageOps {
    fn clone(&self) -> (r: PageOps)
        ensures
            r == *self,
    {
        match self {
            PageOps::NoOperation => PageOps::NoOperation,
            PageOps::Identify(name, path) => PageOps::Identify(name.clone(), path.clone()),
            PageOps::Rescale(amount, dir) => PageOps::Rescale(*amount, *dir),
            PageOps::ExpandLeftEdge(amount) => PageOps::ExpandLeftEdge(*amount),
            PageOps::ExpandRightEdge(amount) => PageOps::ExpandRightEdge(*amount),
            PageOps::ExpandTopEdge(amount) => PageOps::ExpandTopEdge(*amount),
            PageOps::ExpandBottomEdge(amount) => PageOps::ExpandBottomEdge(*amount),
            PageOps::TrimLeftEdge(amount) => PageOps::TrimLeftEdge(*amount),
            PageOps::TrimRightEdge(amount) => PageOps::TrimRightEdge(*amount),
            PageOps::TrimTopEdge(amount) => PageOps::TrimTopEdge(*amount),
            PageOps::TrimBottomEdge(amount) => PageOps::TrimBottomEdge(*amount),
            PageOps::SetResolution(res) => PageOps::SetResolution(*res),
        }
    }
}

impl PageOps {
    /// As in `Rescale(100 Pixels, Horizontal)` or `Identify(scan, /tmp/scan.png)`.
    pub open spec fn text(&self) -> Seq<char> {
        match self {
            PageOps::NoOperation => "NoOperation"@,
            PageOps::Identify(name, path) => "Identify("@ + name@ + ", "@ + path@ + ")"@,
            PageOps::Rescale(pixels, dir) => "Rescale("@ + decimal_digits(*pixels as nat) + " Pixels, "@ + dir.text() + ")"@,
            PageOps::ExpandLeftEdge(pixels) => "ExpandLeftEdge("@ + decimal_digits(*pixels as nat) + " Pixels)"@,
            PageOps::ExpandRightEdge(pixels) => "ExpandRightEdge("@ + decimal_digits(*pixels as nat) + " Pixels)"@,
            PageOps::ExpandTopEdge(pixels) => "ExpandTopEdge("@ + decimal_digits(*pixels as nat) + " Pixels)"@,
            PageOps::ExpandBottomEdge(pixels) => "ExpandBottomEdge("@ + decimal_digits(*pixels as nat) + " Pixels)"@,
            PageOps::TrimLeftEdge(pixels) => "TrimLeftEdge("@ + decimal_digits(*pixels as nat) + " Pixels)"@,
            PageOps::TrimRightEdge(pixels) => "TrimRightEdge("@ + decimal_digits(*pixels as nat) + " Pixels)"@,
            PageOps::TrimTopEdge(pixels) => "TrimTopEdge("@ + decimal_digits(*pixels as nat) + " Pixels)"@,
            PageOps::TrimBottomEdge(pixels) => "TrimBottomEdge("@ + decimal_digits(*pixels as nat) + " Pixels)"@,
            PageOps::SetResolution(res) => "SetResolution("@ + res.text() + ")"@,
        }
    }

    pub fn to_string(&self) -> (r: String)
        ensures
            r@ == self.text(),
    {
        let mut s = String::new();
        match self {
            PageOps::NoOperation => push_text(&mut s, "NoOperation"),
            PageOps::Identify(name, path) => {
                push_text(&mut s, "Identify(");
                push_text(&mut s, name.as_str());
                push_text(&mut s, ", ");
                push_text(&mut s, path.as_str());
                push_text(&mut s, ")");
            },
            PageOps::Rescale(pixels, dir) => {
                push_text(&mut s, "Rescale(");
                push_decimal(&mut s, *pixels);
                push_text(&mut s, " Pixels, ");
                let d = dir.to_string();
                push_text(&mut s, d.as_str());
                push_text(&mut s, ")");
            },
            PageOps::ExpandLeftEdge(pixels) => push_edge(&mut s, "ExpandLeftEdge(", *pixels),
            PageOps::ExpandRightEdge(pixels) => push_edge(&mut s, "ExpandRightEdge(", *pixels),
            PageOps::ExpandTopEdge(pixels) => push_edge(&mut s, "ExpandTopEdge(", *pixels),
            PageOps::ExpandBottomEdge(pixels) => push_edge(&mut s, "ExpandBottomEdge(", *pixels),
            PageOps::TrimLeftEdge(pixels) => push_edge(&mut s, "TrimLeftEdge(", *pixels),
            PageOps::TrimRightEdge(pixels) => push_edge(&mut s, "TrimRightEdge(", *pixels),
            PageOps::TrimTopEdge(pixels) => push_edge(&mut s, "TrimTopEdge(", *pixels),
            PageOps::TrimBottomEdge(pixels) => push_edge(&mut s, "TrimBottomEdge(", *pixels),
            PageOps::SetResolution(res) => {
                push_text(&mut s, "SetResolution(");
                let r = res.to_string();
                push_text(&mut s, r.as_str());
                push_text(&mut s, ")");
            },
        }
        s
    }
}

/// Appends `name`, the amount and ` Pixels)` to `s`.
fn push_edge(s: &mut String, name: &str, pixels: Pixels)
    ensures
        final(s)@ == old(s)@ + name@ + decimal_digits(pixels as nat) + " Pixels)"@,
{
    push_text(s, name);
    push_decimal(s, pixels);
    push_text(s, " Pixels)");
}

/// The capabilities of a concrete backend: one constructor for each page
/// operation, each building a value of the backend's own operation type.
/// Constructors only build values; running them is left to `RunOperation`.
pub trait ElementaryPageOperations: Sized {
    /// This backend operation carries out the page operation `op`.
    spec fn realizes(&self, op: PageOps) -> bool;

    fn identify(file_name: FileName, path: FilePath) -> (r: Self)
        ensures
            r.realizes(PageOps::Identify(file_name, path)),
    ;

    fn rescale(amount: Pixels, dir: Direction) -> (r: Self)
        ensures
            r.realizes(PageOps::Rescale(amount, dir)),
    ;

    fn expand_left_edge(amount: Pixels) -> (r: Self)
        ensures
            r.realizes(PageOps::ExpandLeftEdge(amount)),
    ;

    fn expand_right_edge(amount: Pixels) -> (r: Self)
        ensures
            r.realizes(PageOps::ExpandRightEdge(amount)),
    ;

    fn expand_top_edge(amount: Pixels) -> (r: Self)
        ensures
            r.realizes(PageOps::ExpandTopEdge(amount)),
    ;

    fn expand_bottom_edge(amount: Pixels) -> (r: Self)
        ensures
            r.realizes(PageOps::ExpandBottomEdge(amount)),
    ;

    fn trim_left_edge(amount: Pixels) -> (r: Self)
        ensures
            r.realizes(PageOps::TrimLeftEdge(amount)),
    ;

    fn trim_right_edge(amount: Pixels) -> (r: Self)
        ensures
            r.realizes(PageOps::TrimRightEdge(amount)),
    ;

    fn trim_top_edge(amount: Pixels) -> (r: Self)
        ensures
            r.realizes(PageOps::TrimTopEdge(amount)),
    ;

    fn trim_bottom_edge(amount: Pixels) -> (r: Self)
        ensures
            r.realizes(PageOps::TrimBottomEdge(amount)),
    ;

    fn set_resolution(res: ImageResolution) -> (r: Self)
        ensures
            r.realizes(PageOps::SetResolution(res)),
    ;

    fn no_operation() -> (r: Self)
        ensures
            r.realizes(PageOps::NoOperation),
    ;
}

/// Operations among which one value can stand for "leave the page alone".
pub trait NoOpMarker: Sized {
    /// This operation is the explicit marker for leaving a page alone. A
    /// vocabulary without such a marker keeps the default.
    open spec fn is_no_op_marker(&self) -> bool {
        false
    }

    fn marks_no_op(&self) -> (r: bool)
        ensures
            r == self.is_no_op_marker(),
    ;
}

impl NoOpMarker for PageOps {
    open spec fn is_no_op_marker(&self) -> bool {
        *self is NoOperation
    }

    fn marks_no_op(&self) -> (r: bool) {
        matches!(self, PageOps::NoOperation)
    }
}

/// A concrete operation that can be run, reporting its outcomes.
pub trait RunOperation: Sized {
    fn run_operation(op: Self) -> OperationResults;
}

/// Lowers an abstract page operation into the backend `Op` by calling the
/// backend's constructor for that operation.
pub fn compile_operation<Op: ElementaryPageOperations>(op: PageOps) -> (r: Op)
    ensures
        r.realizes(op),
{
    match op {
        PageOps::Identify(file, path) => Op::identify(file, path),
        PageOps::Rescale(amount, dir) => Op::rescale(amount, dir),
        PageOps::ExpandLeftEdge(amount) => Op::expand_left_edge(amount),
        PageOps::ExpandRightEdge(amount) => Op::expand_right_edge(amount),
        PageOps::ExpandTopEdge(amount) => Op::expand_top_edge(amount),
        PageOps::ExpandBottomEdge(amount) => Op::expand_bottom_edge(amount),
        PageOps::TrimLeftEdge(amount) => Op::trim_left_edge(amount),
        PageOps::TrimRightEdge(amount) => Op::trim_right_edge(amount),
        PageOps::TrimTopEdge(amount) => Op::trim_top_edge(amount),
        PageOps::TrimBottomEdge(amount) => Op::trim_bottom_edge(amount),
        PageOps::SetResolution(res) => Op::set_resolution(res),
        PageOps::NoOperation => Op::no_operation(),
    }
}

} // verus!
