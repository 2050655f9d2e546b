//! What can go wrong between a reply and a report.

use vstd::prelude::*;

verus! {

/// Why a JSON value does not fit the place where it stands in a report.
#[derive(Clone, Copy, Debug, PartialEq, Eq, Structural)]
pub enum Fault {
    /// A required member is absent.
    Missing,
    /// The value is of another JSON type than its place asks for; a number
    /// with a fraction or an exponent where an integer is asked for counts.
    WrongType,
    /// The value is an integer that the field's type cannot hold.
    OutOfRange,
    /// The value is a count of seconds that names no representable instant.
    BadInstant,
}

/// One step on the way from the root of a document to a value in it.
#[derive(Clone, Debug)]
pub enum Step {
    /// Into the member of an object that has this key.
    Key(String),
    /// Into the item of an array that has this index.
    Index(usize),
}

/// The mathematical value of a [`Step`].
pub ghost enum StepView {
    Key(Seq<char>),
    Index(int),
}

impl View for Step {
    type V = StepView;

    open spec fn view(&self) -> StepView {
        match self {
            Step::Key(key) => StepView::Key(key@),
            Step::Index(index) => StepView::Index(*index as int),
        }
    }
}

/// A value that does not fit the schema: where it stands and what is wrong
/// with it.
#[derive(Clone, Debug)]
pub struct SchemaError {
    /// The steps from the root of the document to the value, outermost first.
    pub path: Vec<Step>,
    pub fault: Fault,
}

/// The mathematical value of a [`SchemaError`].
pub ghost struct SchemaErrorView {
    pub path: Seq<StepView>,
    pub fault: Fault,
}

impl SchemaErrorView {
    /// The error for a value that stands where the error is detected.
    pub open spec fn here(fault: Fault) -> SchemaErrorView {
        SchemaErrorView { path: Seq::empty(), fault }
    }

    /// The error `self`, seen from one step further out.
    pub open spec fn under(self, step: StepView) -> SchemaErrorView {
        SchemaErrorView { path: seq![step] + self.path, fault: self.fault }
    }
}

impl View for SchemaError {
    type V = SchemaErrorView;

    open spec fn view(&self) -> SchemaErrorView {
        SchemaErrorView { path: self.path@.map_values(|step: Step| step@), fault: self.fault }
    }
}

impl SchemaError {
    /// The error for a value that stands where the error is detected.
    pub fn here(fault: Fault) -> (error: SchemaError)
        ensures
            error@ == SchemaErrorView::here(fault),
    {
        let error = SchemaError { path: Vec::new(), fault };
        assert(error@.path =~= Seq::empty());
        error
    }

    /// The error `self`, seen from one step further out.
    pub fn under(self, step: Step) -> (error: SchemaError)
        ensures
            error@ == self@.under(step@),
    {
        let mut path = self.path;
        path.insert(0, step);
        let error = SchemaError { path, fault: self.fault };
        assert(error@.path =~= seq![step@] + self@.path);
        error
    }
}

/// The two kinds of failure that a caller tells apart.
#[derive(Clone, Copy, Debug, PartialEq, Eq, Structural)]
pub enum ErrorKind {
    /// The exchange with the service failed.
    Transport,
    /// The body of the reply is not a report.
    Parse,
}

/// Why a reply gave no report.
#[derive(Clone, Debug)]
pub enum OnecallError {
    /// The service answered with this status, which is outside 200..=299.
    Status(u16),
    /// The body is not a JSON document; the parser's message says why.
    Syntax(String),
    /// The body is a JSON document that does not fit the schema.
    Schema(SchemaError),
}

/// The mathematical value of an [`OnecallError`]: the parser's message is left out.
pub ghost enum OnecallErrorView {
    Status(u16),
    Syntax,
    Schema(SchemaErrorView),
}

impl OnecallErrorView {
    pub open spec fn kind(self) -> ErrorKind {
        match self {
            OnecallErrorView::Status(_) => ErrorKind::Transport,
            OnecallErrorView::Syntax => ErrorKind::Parse,
            OnecallErrorView::Schema(_) => ErrorKind::Parse,
        }
    }
}

impl View for OnecallError {
    type V = OnecallErrorView;

    open spec fn view(&self) -> OnecallErrorView {
        match self {
            OnecallError::Status(status) => OnecallErrorView::Status(*status),
            OnecallError::Syntax(_) => OnecallErrorView::Syntax,
            OnecallError::Schema(error) => OnecallErrorView::Schema(error@),
        }
    }
}

impl OnecallError {
    /// The kind of the failure: a status is a transport failure, everything
    /// about the body a parse failure.
    pub fn kind(&self) -> (kind: ErrorKind)
        ensures
            kind == self@.kind(),
    {
        match self {
            OnecallError::Status(_) => ErrorKind::Transport,
            OnecallError::Syntax(_) => ErrorKind::Parse,
            OnecallError::Schema(_) => ErrorKind::Parse,
        }
    }
}

} // verus!
