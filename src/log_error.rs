//! A lighter error record: a kind and a free-form description.
use vstd::prelude::*;

verus! {

/// The kind of a `LogErrCtx`.
#[derive(Debug, Clone, Copy, PartialEq, Eq, Structural)]
pub enum LogErrorKind {
    Upstream,
    InvParam,
}

impl LogErrorKind {
    pub open spec fn spec_text(self) -> Seq<char> {
        match self {
            LogErrorKind::Upstream => "An error occured in an upstream function"@,
            LogErrorKind::InvParam => "An invalid value was encountered"@,
        }
    }

    /// A sentence that describes the kind.
    pub fn to_string(&self) -> (r: String)
        ensures
            r@ == self.spec_text(),
    {
        match self {
            LogErrorKind::Upstream => String::from_str("An error occured in an upstream function"),
            LogErrorKind::InvParam => String::from_str("An invalid value was encountered"),
        }
    }
}

/// An error kind with a description, which may be empty.
pub struct LogErrCtx {
    kind: LogErrorKind,
    descr: String,
}

impl LogErrCtx {
    pub closed spec fn spec_kind(&self) -> LogErrorKind {
        self.kind
    }

    pub closed spec fn spec_descr(&self) -> Seq<char> {
        self.descr@
    }

    /// An error of `kind` described by `descr`.
    pub fn from_remark(kind: LogErrorKind, descr: &str) -> (r: LogErrCtx)
        ensures
            r.spec_kind() == kind,
            r.spec_descr() == descr@,
    {
        LogErrCtx { kind, descr: descr.to_owned() }
    }

    /// An error of `kind` without a description.
    pub fn from_kind(kind: LogErrorKind) -> (r: LogErrCtx)
        ensures
            r.spec_kind() == kind,
            r.spec_descr() == Seq::<char>::empty(),
    {
        LogErrCtx { kind, descr: String::new() }
    }

    pub fn kind(&self) -> (r: LogErrorKind)
        ensures
            r == self.spec_kind(),
    {
        self.kind
    }

    /// `Error: <kind>`, followed by `, <description>` when there is one.
    pub fn to_string(&self) -> (r: String)
        ensures
            r@ == (if self.spec_descr().len() == 0 {
                "Error: "@ + self.spec_kind().spec_text()
            } else {
                "Error: "@ + self.spec_kind().spec_text() + ", "@ + self.spec_descr()
            }),
    {
        let mut s = String::from_str("Error: ");
        let k = self.kind.to_string();
        s.append(k.as_str());
        if !self.descr.as_str().is_empty() {
            s.append(", ");
            s.append(self.descr.as_str());
        }
        s
    }
}

} // verus!
