//! A backend that carries out page operations with ImageMagick commands.
//! Building the commands happens here; running them is left to the caller.
use vstd::prelude::*;
use crate::page::{Direction, FileName, FilePath, ImageResolution, Pixels};
use crate::page_ops::{ElementaryPageOperations, NoOpMarker, PageOps};
use crate::results::OperationResult;
use crate::shell::AsShellCommand;
use crate::text::push_text;

verus! {

#[derive(Clone, Copy, PartialEq, Eq, Structural, Debug)]
pub enum ImageMagickOpType {
    Identify,
    IdentifyVerbose,
    Mogrify,
    Convert,
    NoOperation,
    /// A page operation this backend does not carry out; running it reports
    /// an error.
    Unsupported,
}

impl ImageMagickOpType {
    /// The program that carries out operations of this type.
    pub open spec fn program(&self) -> Seq<char> {
        match self {
            ImageMagickOpType::Identify => "identify"@,
            ImageMagickOpType::IdentifyVerbose => "identify"@,
            ImageMagickOpType::Mogrify => "mogrify"@,
            ImageMagickOpType::Convert => "convert"@,
            ImageMagickOpType::NoOperation => "echo"@,
            ImageMagickOpType::Unsupported => "false"@,
        }
    }

    pub open spec fn text(&self) -> Seq<char> {
        match self {
            ImageMagickOpType::Identify => "Identify"@,
            ImageMagickOpType::IdentifyVerbose => "IdentifyVerbose"@,
            ImageMagickOpType::Mogrify => "Mogrify"@,
            ImageMagickOpType::Convert => "Convert"@,
            ImageMagickOpType::NoOperation => "NoOperation"@,
            ImageMagickOpType::Unsupported => "Unsupported"@,
        }
    }

    pub fn to_string(&self) -> (r: String)
        ensures
            r@ == self.text(),
    {
        match self {
            ImageMagickOpType::Identify => String::from_str("Identify"),
            ImageMagickOpType::IdentifyVerbose => String::from_str("IdentifyVerbose"),
            ImageMagickOpType::Mogrify => String::from_str("Mogrify"),
            ImageMagickOpType::Convert => String::from_str("Convert"),
            ImageMagickOpType::NoOperation => String::from_str("NoOperation"),
            ImageMagickOpType::Unsupported => String::from_str("Unsupported"),
        }
    }
}

impl AsShellCommand for ImageMagickOpType {
    fn as_shell_command(&self) -> (r: String)
        ensures
            r@ == self.program(),
    {
        match self {
            ImageMagickOpType::Identify => String::from_str("identify"),
            ImageMagickOpType::IdentifyVerbose => String::from_str("identify"),
            ImageMagickOpType::Mogrify => String::from_str("mogrify"),
            ImageMagickOpType::Convert => String::from_str("convert"),
            ImageMagickOpType::NoOperation => String::from_str("echo"),
            ImageMagickOpType::Unsupported => String::from_str("false"),
        }
    }
}

/// The characters of each string, in order.
pub open spec fn views(s: Seq<String>) -> Seq<Seq<char>> {
    s.map_values(|a: String| a@)
}

/// A copy of every string, in order.
fn copy_strings(s: &[String]) -> (r: Vec<String>)
    ensures
        r@ == s@,
{
    let mut r: Vec<String> = Vec::new();
    let mut i: usize = 0;
    while i < s.len()
        invariant
            0 <= i <= s@.len(),
            r@ == s@.take(i as int),
        decreases s@.len() - i,
    {
        r.push(s[i].clone());
        proof {
            assert(s@.take(i + 1) =~= s@.take(i as int).push(s@[i as int]));
        }
        i = i + 1;
    }
    assert(s@.take(s@.len() as int) =~= s@);
    r
}

/// One ImageMagick step, as mathematical values.
pub struct ImageMagickStep {
    pub op: ImageMagickOpType,
    pub file_path: Seq<char>,
    pub file_name: Seq<char>,
    pub img_args: Seq<Seq<char>>,
}

/// The file an ImageMagick step works on and its extra arguments.
#[derive(Debug)]
pub struct ImageMagickArgs {
    file_path: FilePath,
    file_name: FileName,
    img_args: Vec<String>,
}

impl ImageMagickArgs {
    pub closed spec fn spec_file_path(&self) -> Seq<char> {
        self.file_path@
    }

    pub closed spec fn spec_file_name(&self) -> Seq<char> {
        self.file_name@
    }

    pub closed spec fn spec_img_args(&self) -> Seq<Seq<char>> {
        views(self.img_args@)
    }

    pub fn new(file_path: FilePath, file_name: FileName, img_args: &Vec<String>) -> (r: ImageMagickArgs)
        ensures
            r.spec_file_path() == file_path@,
            r.spec_file_name() == file_name@,
            r.spec_img_args() == views(img_args@),
    {
        ImageMagickArgs { file_path, file_name, img_args: copy_strings(img_args.as_slice()) }
    }
}

impl Clone for ImageMagickArgs {
    fn clone(&self) -> (r: ImageMagickArgs)
        ensures
            r.spec_file_path() == self.spec_file_path(),
            r.spec_file_name() == self.spec_file_name(),
            r.spec_img_args() == self.spec_img_args(),
    {
        ImageMagickArgs {
            file_path: self.file_path.clone(),
            file_name: self.file_name.clone(),
            img_args: copy_strings(self.img_args.as_slice()),
        }
    }
}

/// A program to run and its arguments.
pub struct ShellCommand {
    pub program: String,
    pub args: Vec<String>,
}

/// The arguments ImageMagick is run with for `step`: the extra arguments of a
/// conversion, then the file.
pub open spec fn command_args(step: ImageMagickStep) -> Seq<Seq<char>> {
    match step.op {
        ImageMagickOpType::Identify => seq![step.file_path],
        ImageMagickOpType::IdentifyVerbose => seq!["-verbose"@, step.file_path],
        ImageMagickOpType::Mogrify => step.img_args.push(step.file_path),
        ImageMagickOpType::Convert => step.img_args.push(step.file_path),
        ImageMagickOpType::NoOperation => Seq::empty(),
        ImageMagickOpType::Unsupported => Seq::empty(),
    }
}

/// The command line for an operation of type `op` on `file_path`.
pub fn command_for(op: ImageMagickOpType, file_path: &FilePath, img_args: &[String]) -> (r: ShellCommand)
    ensures
        r.program@ == op.program(),
        views(r.args@) == command_args(
            ImageMagickStep { op, file_path: file_path@, file_name: Seq::empty(), img_args: views(img_args@) },
        ),
{
    let program = op.as_shell_command();
    let mut args: Vec<String> = Vec::new();
    match op {
        ImageMagickOpType::Identify => {
            args.push(file_path.clone());
        },
        ImageMagickOpType::IdentifyVerbose => {
            args.push(String::from_str("-verbose"));
            args.push(file_path.clone());
        },
        ImageMagickOpType::Mogrify | ImageMagickOpType::Convert => {
            args = copy_strings(img_args);
            args.push(file_path.clone());
        },
        ImageMagickOpType::NoOperation | ImageMagickOpType::Unsupported => {},
    }
    proof {
        assert(views(args@) =~= command_args(
            ImageMagickStep { op, file_path: file_path@, file_name: Seq::empty(), img_args: views(img_args@) },
        ));
    }
    ShellCommand { program, args }
}

/// The outcome of an operation that has nothing to do.
pub fn imagemagick_no_operation() -> (r: OperationResult)
    ensures
        r matches Ok(s) && s@ == "No Operation"@,
{
    Ok(String::from_str("No Operation"))
}

/// The error an unsupported step reports; `what` describes the page operation.
pub open spec fn unsupported_message(what: Seq<Seq<char>>) -> Seq<char> {
    "the ImageMagick backend does not carry out "@ + (if what.len() > 0 {
        what[0]
    } else {
        Seq::empty()
    })
}

/// What running a step amounts to: a command to run, whose output is the
/// outcome, or an outcome known without running anything.
pub enum StepAction {
    Run(ShellCommand),
    Finished(OperationResult),
}

/// One ImageMagick command applied to one file.
#[derive(Debug)]
pub struct ElementaryImageMagickOperation {
    op: ImageMagickOpType,
    args: ImageMagickArgs,
}

impl View for ElementaryImageMagickOperation {
    type V = ImageMagickStep;

    closed spec fn view(&self) -> ImageMagickStep {
        ImageMagickStep {
            op: self.op,
            file_path: self.args.spec_file_path(),
            file_name: self.args.spec_file_name(),
            img_args: self.args.spec_img_args(),
        }
    }
}

impl ElementaryImageMagickOperation {
    pub fn new(op: ImageMagickOpType, args: ImageMagickArgs) -> (r: ElementaryImageMagickOperation)
        ensures
            r@ == (ImageMagickStep {
                op,
                file_path: args.spec_file_path(),
                file_name: args.spec_file_name(),
                img_args: args.spec_img_args(),
            }),
    {
        ElementaryImageMagickOperation { op, args }
    }

    /// Adds one extra argument.
    pub fn arg(&mut self, arg: String)
        ensures
            final(self)@ == (ImageMagickStep { img_args: old(self)@.img_args.push(arg@), ..old(self)@ }),
    {
        let ghost before = self.args.img_args@;
        self.args.img_args.push(arg);
        assert(views(self.args.img_args@) =~= views(before).push(arg@));
    }

    /// Adds extra arguments, in order.
    pub fn args(&mut self, args: &[String])
        ensures
            final(self)@ == (ImageMagickStep { img_args: old(self)@.img_args + views(args@), ..old(self)@ }),
    {
        let ghost before = self.args.img_args@;
        let mut i: usize = 0;
        while i < args.len()
            invariant
                0 <= i <= args@.len(),
                self.op == old(self).op,
                self.args.spec_file_path() == old(self)@.file_path,
                self.args.spec_file_name() == old(self)@.file_name,
                self.args.img_args@ == before + args@.take(i as int),
            decreases args@.len() - i,
        {
            self.args.img_args.push(args[i].clone());
            proof {
                assert(args@.take(i + 1) =~= args@.take(i as int).push(args@[i as int]));
            }
            i = i + 1;
        }
        assert(args@.take(args@.len() as int) =~= args@);
        assert(views(before + args@) =~= views(before) + views(args@));
    }

    pub fn op_type(&self) -> (r: ImageMagickOpType)
        ensures
            r == self@.op,
    {
        self.op
    }

    /// The command to run for this step, or nothing for a step that runs no
    /// program (see `action`).
    pub fn shell_command(&self) -> (r: Option<ShellCommand>)
        ensures
            (self@.op == ImageMagickOpType::NoOperation || self@.op == ImageMagickOpType::Unsupported) <==> r is None,
            r matches Some(c) ==> c.program@ == self@.op.program() && views(c.args@) == command_args(self@),
    {
        match self.op {
            ImageMagickOpType::NoOperation | ImageMagickOpType::Unsupported => None,
            _ => {
                let c = command_for(self.op, &self.args.file_path, self.args.img_args.as_slice());
                Some(c)
            },
        }
    }
}

impl ElementaryImageMagickOperation {
    /// What running this step amounts to. A no-op finishes with the
    /// `imagemagick_no_operation` outcome, an unsupported step with an error
    /// naming the page operation, and any other step runs its command.
    pub fn action(&self) -> (r: StepAction)
        ensures
            self@.op == ImageMagickOpType::NoOperation ==> (r matches StepAction::Finished(Ok(s)) && s@ == "No Operation"@),
            self@.op == ImageMagickOpType::Unsupported ==> (r matches StepAction::Finished(Err(e)) && e@ == unsupported_message(self@.img_args)),
            self@.op != ImageMagickOpType::NoOperation && self@.op != ImageMagickOpType::Unsupported ==> (r matches StepAction::Run(c)
                && c.program@ == self@.op.program() && views(c.args@) == command_args(self@)),
    {
        match self.op {
            ImageMagickOpType::NoOperation => StepAction::Finished(imagemagick_no_operation()),
            ImageMagickOpType::Unsupported => {
                let mut message = String::new();
                push_text(&mut message, "the ImageMagick backend does not carry out ");
                if self.args.img_args.len() > 0 {
                    push_text(&mut message, self.args.img_args[0].as_str());
                }
                StepAction::Finished(Err(message))
            },
            _ => StepAction::Run(command_for(self.op, &self.args.file_path, self.args.img_args.as_slice())),
        }
    }
}

impl Clone for ElementaryImageMagickOperation {
    fn clone(&self) -> (r: ElementaryImageMagickOperation)
        ensures
            r@ == self@,
    {
        ElementaryImageMagickOperation { op: self.op, args: self.args.clone() }
    }
}

/// A sequence of ImageMagick steps that together carry out one page operation.
#[derive(Debug)]
pub struct ImageMagickOperation {
    ops: Vec<ElementaryImageMagickOperation>,
}

impl View for ImageMagickOperation {
    type V = Seq<ImageMagickStep>;

    closed spec fn view(&self) -> Seq<ImageMagickStep> {
        self.ops@.map_values(|e: ElementaryImageMagickOperation| e@)
    }
}

/// The step standing for a page operation this backend does not carry out;
/// it holds the textual form of the operation.
pub open spec fn unsupported_step(op: PageOps) -> ImageMagickStep {
    ImageMagickStep {
        op: ImageMagickOpType::Unsupported,
        file_path: Seq::empty(),
        file_name: Seq::empty(),
        img_args: seq![op.text()],
    }
}

/// The steps that carry out the page operation `op`. Identification and the
/// no-op are realized; for the other operations this backend has no command,
/// and their step reports an error when run.
pub open spec fn steps_for(op: PageOps) -> Seq<ImageMagickStep> {
    match op {
        PageOps::NoOperation => seq![
            ImageMagickStep {
                op: ImageMagickOpType::NoOperation,
                file_path: Seq::empty(),
                file_name: Seq::empty(),
                img_args: Seq::empty(),
            },
        ],
        PageOps::Identify(name, path) => seq![
            ImageMagickStep {
                op: ImageMagickOpType::Identify,
                file_path: path@,
                file_name: name@,
                img_args: Seq::empty(),
            },
        ],
        _ => seq![unsupported_step(op)],
    }
}

impl ImageMagickOperation {
    pub fn new() -> (r: ImageMagickOperation)
        ensures
            r@ == Seq::<ImageMagickStep>::empty(),
    {
        ImageMagickOperation { ops: Vec::new() }
    }

    pub fn add_op(&mut self, op: ElementaryImageMagickOperation)
        ensures
            final(self)@ == old(self)@.push(op@),
    {
        let ghost before = self.ops@;
        self.ops.push(op);
        assert(self@ =~= before.map_values(|e: ElementaryImageMagickOperation| e@).push(op@));
    }

    pub fn add_ops(&mut self, ops: &[ElementaryImageMagickOperation])
        ensures
            final(self)@ == old(self)@ + ops@.map_values(|e: ElementaryImageMagickOperation| e@),
    {
        let ghost before = self@;
        let mut i: usize = 0;
        while i < ops.len()
            invariant
                0 <= i <= ops@.len(),
                self@ == before + ops@.take(i as int).map_values(|e: ElementaryImageMagickOperation| e@),
            decreases ops@.len() - i,
        {
            self.add_op(ops[i].clone());
            proof {
                assert(ops@.take(i + 1).map_values(|e: ElementaryImageMagickOperation| e@)
                    =~= ops@.take(i as int).map_values(|e: ElementaryImageMagickOperation| e@).push(ops@[i as int]@));
            }
            i = i + 1;
        }
        assert(ops@.take(ops@.len() as int) =~= ops@);
    }

    /// The steps, in the order they run.
    pub fn as_slice(&self) -> (r: &[ElementaryImageMagickOperation])
        ensures
            r@.map_values(|e: ElementaryImageMagickOperation| e@) == self@,
    {
        self.ops.as_slice()
    }

    /// An operation of a single step of type `op` on the given file, with `img_args`.
    fn single(op: ImageMagickOpType, file_name: FileName, file_path: FilePath, img_args: Vec<String>) -> (r: ImageMagickOperation)
        ensures
            r@ == seq![ImageMagickStep { op, file_path: file_path@, file_name: file_name@, img_args: views(img_args@) }],
    {
        let args = ImageMagickArgs::new(file_path, file_name, &img_args);
        let mut r = ImageMagickOperation::new();
        r.add_op(ElementaryImageMagickOperation::new(op, args));
        r
    }

    /// An operation of the single step standing for `op`, which this backend
    /// does not carry out.
    fn unsupported(op: PageOps) -> (r: ImageMagickOperation)
        ensures
            r@ == seq![unsupported_step(op)],
    {
        let what = op.to_string();
        let mut img_args: Vec<String> = Vec::new();
        img_args.push(what);
        let r = ImageMagickOperation::single(ImageMagickOpType::Unsupported, String::new(), String::new(), img_args);
        assert(views(img_args@) =~= seq![op.text()]);
        r
    }
}

impl Clone for ImageMagickOperation {
    fn clone(&self) -> (r: ImageMagickOperation)
        ensures
            r@ == self@,
    {
        let mut r = ImageMagickOperation::new();
        r.add_ops(self.ops.as_slice());
        assert(r@ =~= self@);
        r
    }
}

/// ImageMagick has no marker for leaving a page alone: a page is left alone
/// only when it has no step at all.
impl NoOpMarker for ImageMagickOperation {
    fn marks_no_op(&self) -> (r: bool) {
        false
    }
}

impl ElementaryPageOperations for ImageMagickOperation {
    open spec fn realizes(&self, op: PageOps) -> bool {
        self@ == steps_for(op)
    }

    fn identify(file_name: FileName, path: FilePath) -> (r: ImageMagickOperation) {
        let no_args: Vec<String> = Vec::new();
        assert(views(no_args@) =~= Seq::<Seq<char>>::empty());
        let ghost op = PageOps::Identify(file_name, path);
        let r = ImageMagickOperation::single(ImageMagickOpType::Identify, file_name, path, no_args);
        assert(r@ =~= steps_for(op));
        r
    }

    fn rescale(amount: Pixels, dir: Direction) -> (r: ImageMagickOperation) {
        ImageMagickOperation::unsupported(PageOps::Rescale(amount, dir))
    }

    fn expand_left_edge(amount: Pixels) -> (r: ImageMagickOperation) {
        ImageMagickOperation::unsupported(PageOps::ExpandLeftEdge(amount))
    }

    fn expand_right_edge(amount: Pixels) -> (r: ImageMagickOperation) {
        ImageMagickOperation::unsupported(PageOps::ExpandRightEdge(amount))
    }

    fn expand_top_edge(amount: Pixels) -> (r: ImageMagickOperation) {
        ImageMagickOperation::unsupported(PageOps::ExpandTopEdge(amount))
    }

    fn expand_bottom_edge(amount: Pixels) -> (r: ImageMagickOperation) {
        ImageMagickOperation::unsupported(PageOps::ExpandBottomEdge(amount))
    }

    fn trim_left_edge(amount: Pixels) -> (r: ImageMagickOperation) {
        ImageMagickOperation::unsupported(PageOps::TrimLeftEdge(amount))
    }

    fn trim_right_edge(amount: Pixels) -> (r: ImageMagickOperation) {
        ImageMagickOperation::unsupported(PageOps::TrimRightEdge(amount))
    }

    fn trim_top_edge(amount: Pixels) -> (r: ImageMagickOperation) {
        ImageMagickOperation::unsupported(PageOps::TrimTopEdge(amount))
    }

    fn trim_bottom_edge(amount: Pixels) -> (r: ImageMagickOperation) {
        ImageMagickOperation::unsupported(PageOps::TrimBottomEdge(amount))
    }

    fn set_resolution(res: ImageResolution) -> (r: ImageMagickOperation) {
        ImageMagickOperation::unsupported(PageOps::SetResolution(res))
    }

    fn no_operation() -> (r: ImageMagickOperation) {
        let no_args: Vec<String> = Vec::new();
        assert(views(no_args@) =~= Seq::<Seq<char>>::empty());
        let r = ImageMagickOperation::single(ImageMagickOpType::NoOperation, String::new(), String::new(), no_args);
        assert(r@ =~= steps_for(PageOps::NoOperation));
        r
    }
}

} // verus!
