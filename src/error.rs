//! Errors reported by the logger.
use vstd::prelude::*;

verus! {

/// What went wrong.
#[derive(Debug, Clone, Copy, PartialEq, Eq, Structural)]
pub enum ErrorKind {
    /// A failure in a function the logger depends on.
    Upstream,
    /// An invalid parameter.
    InvParam,
    /// An operation in a state that does not allow it.
    InvState,
}

impl ErrorKind {
    pub open spec fn spec_text(self) -> Seq<char> {
        match self {
            ErrorKind::Upstream => "An error occurred in an upstream function"@,
            ErrorKind::InvParam => "An invalid parameter was encountered"@,
            ErrorKind::InvState => "An invalid state was encountered"@,
        }
    }

    /// A sentence that describes the kind.
    pub fn to_string(&self) -> (r: String)
        ensures
            r@ == self.spec_text(),
    {
        match self {
            ErrorKind::Upstream => String::from_str("An error occurred in an upstream function"),
            ErrorKind::InvParam => String::from_str("An invalid parameter was encountered"),
            ErrorKind::InvState => String::from_str("An invalid state was encountered"),
        }
    }
}

/// An error: its kind, an optional description of the context, and an
/// optional error that caused it.
#[derive(Debug)]
pub struct Error {
    kind: ErrorKind,
    cause: Option<Box<Error>>,
    context: Option<String>,
}

impl Error {
    pub closed spec fn spec_kind(&self) -> ErrorKind {
        self.kind
    }

    pub closed spec fn spec_context(&self) -> Option<Seq<char>> {
        match self.context {
            Some(c) => Some(c@),
            None => None,
        }
    }

    pub closed spec fn spec_cause(&self) -> Option<Error> {
        match self.cause {
            Some(c) => Some(*c),
            None => None,
        }
    }

    pub fn new(kind: ErrorKind) -> (r: Error)
        ensures
            r.spec_kind() == kind,
            r.spec_context() is None,
            r.spec_cause() is None,
            r.spec_text() == kind.spec_text(),
    {
        Error { kind, cause: None, context: None }
    }

    pub fn with_context(kind: ErrorKind, context: &str) -> (r: Error)
        ensures
            r.spec_kind() == kind,
            r.spec_context() == Some(context@),
            r.spec_cause() is None,
            r.spec_text() == kind.spec_text() + ", context: "@ + context@,
    {
        Error { kind, cause: None, context: Some(context.to_owned()) }
    }

    pub fn with_cause(kind: ErrorKind, cause: Box<Error>) -> (r: Error)
        ensures
            r.spec_kind() == kind,
            r.spec_context() is None,
            r.spec_cause() == Some(*cause),
            r.spec_text() == kind.spec_text() + caused_by(*cause),
    {
        Error { kind, cause: Some(cause), context: None }
    }

    pub fn with_all(kind: ErrorKind, context: &str, cause: Box<Error>) -> (r: Error)
        ensures
            r.spec_kind() == kind,
            r.spec_context() == Some(context@),
            r.spec_cause() == Some(*cause),
            r.spec_text() == kind.spec_text() + ", context: "@ + context@ + caused_by(*cause),
    {
        Error { kind, cause: Some(cause), context: Some(context.to_owned()) }
    }

    /// An upstream error caused by another error of this library.
    pub fn from_upstream(cause: Error, context: &str) -> (r: Error)
        ensures
            r.spec_kind() == ErrorKind::Upstream,
            r.spec_context() == Some(context@),
            r.spec_cause() == Some(cause),
            r.spec_text() == ErrorKind::Upstream.spec_text() + ", context: "@ + context@ + caused_by(cause),
    {
        Error { kind: ErrorKind::Upstream, cause: Some(Box::new(cause)), context: Some(context.to_owned()) }
    }

    /// An upstream error caused by a boxed error.
    pub fn from_upstream_error(cause: Box<Error>, context: &str) -> (r: Error)
        ensures
            r.spec_kind() == ErrorKind::Upstream,
            r.spec_context() == Some(context@),
            r.spec_cause() == Some(*cause),
            r.spec_text() == ErrorKind::Upstream.spec_text() + ", context: "@ + context@ + caused_by(*cause),
    {
        Error { kind: ErrorKind::Upstream, cause: Some(cause), context: Some(context.to_owned()) }
    }

    pub fn kind(&self) -> (r: ErrorKind)
        ensures
            r == self.spec_kind(),
    {
        self.kind
    }

    /// The context description, if any.
    pub fn context(&self) -> (r: Option<&str>)
        ensures
            match r {
                Some(c) => self.spec_context() == Some(c@),
                None => self.spec_context() is None,
            },
    {
        match &self.context {
            Some(c) => Some(c.as_str()),
            None => None,
        }
    }

    /// The error that caused this one, if any.
    pub fn cause(&self) -> (r: Option<&Error>)
        ensures
            match r {
                Some(c) => self.spec_cause() == Some(*c),
                None => self.spec_cause() is None,
            },
    {
        match &self.cause {
            Some(c) => Some(&**c),
            None => None,
        }
    }
}

/// The first line of an error's text: its kind and its context.
pub open spec fn error_head(kind: ErrorKind, context: Option<Seq<char>>) -> Seq<char> {
    match context {
        Some(c) => kind.spec_text() + ", context: "@ + c,
        None => kind.spec_text(),
    }
}

impl Error {
    /// The full text of an error: its head followed by the text of each error
    /// along its chain of causes, each introduced by a line of its own.
    pub closed spec fn spec_text(self) -> Seq<char>
        decreases self, 1nat,
    {
        error_head(self.kind, self.spec_context()) + self.spec_chain_text()
    }

    /// The text of the causes of `self`, nearest first.
    pub closed spec fn spec_chain_text(self) -> Seq<char>
        decreases self, 0nat,
    {
        match self.cause {
            Some(c) => "\n  caused by: "@ + (*c).spec_text() + (*c).spec_chain_text(),
            None => Seq::empty(),
        }
    }
}

/// The text that a cause adds to the error it caused: a line introducing
/// it, its own text, then the text of its own causes.
pub open spec fn caused_by(cause: Error) -> Seq<char> {
    "\n  caused by: "@ + cause.spec_text() + cause.spec_chain_text()
}

impl Error {
    /// The text of an error is its head followed by what each cause adds.
    pub proof fn lemma_text_parts(self)
        ensures
            self.spec_text() == error_head(self.spec_kind(), self.spec_context()) + self.spec_chain_text(),
            self.spec_chain_text() == match self.spec_cause() {
                Some(c) => caused_by(c),
                None => Seq::empty(),
            },
    {
    }
}

impl Error {
    /// The full text of the error, as `error_head` and the chain of causes
    /// give it.
    pub fn to_string(&self) -> (r: String)
        ensures
            r@ == self.spec_text(),
        decreases self, 1nat,
    {
        let mut s = self.kind.to_string();
        match &self.context {
            Some(c) => {
                s.append(", context: ");
                s.append(c.as_str());
            },
            None => {},
        }
        let chain = self.chain_text();
        s.append(chain.as_str());
        s
    }

    fn chain_text(&self) -> (r: String)
        ensures
            r@ == self.spec_chain_text(),
        decreases self, 0nat,
    {
        match &self.cause {
            Some(c) => {
                let mut s = String::from_str("\n  caused by: ");
                let t = c.to_string();
                s.append(t.as_str());
                let u = c.chain_text();
                s.append(u.as_str());
                s
            },
            None => String::new(),
        }
    }
}

} // verus!
