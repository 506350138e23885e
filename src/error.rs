use vstd::prelude::*;

verus! {

/// The kinds of failure of inference and propagation.
#[derive(Clone, Copy, Debug, PartialEq, Eq, Structural)]
pub enum ErrorKind {
    /// A required argument is absent.
    MissingArgument,
    /// A base type does not fit the operation.
    TypeError,
    /// A rank, a column count or a shape does not fit.
    ShapeError,
    /// An operator parameter lies outside its domain.
    InvalidArgument,
    /// The capability is not supported for this operator or value.
    NotImplemented,
}

/// A failure: its kind, a message, and the names of the arguments it passed
/// through, innermost first.
#[derive(Clone, Debug)]
pub struct Error {
    pub kind: ErrorKind,
    pub message: String,
    pub context: Vec<String>,
}

impl Error {
    /// A failure of kind `kind` with message `message` and no context yet.
    pub fn new(kind: ErrorKind, message: &str) -> (r: Error)
        ensures
            r.kind == kind,
            r.message@ == message@,
            r.context@.len() == 0,
    {
        Error { kind, message: message.to_owned(), context: Vec::new() }
    }

    /// The same failure, annotated with the argument name `name`.
    pub fn with_context(self, name: &str) -> (r: Error)
        ensures
            r.kind == self.kind,
            r.message == self.message,
            r.context@.len() == self.context@.len() + 1,
            r.context@.take(self.context@.len() as int) == self.context@,
            r.context@.last()@ == name@,
    {
        let mut context = self.context;
        context.push(name.to_owned());
        Error { kind: self.kind, message: self.message, context }
    }
}

} // verus!
