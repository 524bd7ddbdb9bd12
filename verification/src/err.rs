use vstd::prelude::*;

verus! {

/// The failure taxonomy one build can surface upward. Row-scoped parse
/// trouble never raises these — a bad row is skipped and reading goes
/// on. These name the step-scoped failures that abort a build and must
/// leave the store's prior contents untouched; the reasons stay terse
/// and named so the scheduling layer's reporting outlives vendor and
/// library churn.
#[derive(Clone, Copy, Debug, PartialEq, Eq, Structural)]
pub enum TempErr {
    /// The network fetch failed or timed out.
    Connection,
    /// A fetched document did not match its expected shape.
    Serialization,
    /// A filesystem read, write or create failed.
    Io,
    /// Extraction failed: a corrupt or unsupported archive, or an
    /// ambiguous layout the walk refuses to resolve silently.
    Archive,
    /// A file could not be interpreted at all, such as a missing
    /// header row.
    Parse,
}

pub type TempResult<T> = Result<T, TempErr>;

impl TempErr {
    /// The terse, stable reason an operator sees.
    pub fn as_text(&self) -> (r: &'static str)
        ensures
            *self is Connection ==> r@ == "cannot reach the vendor endpoint"@,
            *self is Serialization ==> r@ == "vendor document has an unexpected shape"@,
            *self is Io ==> r@ == "cannot read or write a working file"@,
            *self is Archive ==> r@ == "cannot extract the vendor archive"@,
            *self is Parse ==> r@ == "cannot interpret a vendor file"@,
    {
        match self {
            TempErr::Connection => "cannot reach the vendor endpoint",
            TempErr::Serialization => "vendor document has an unexpected shape",
            TempErr::Io => "cannot read or write a working file",
            TempErr::Archive => "cannot extract the vendor archive",
            TempErr::Parse => "cannot interpret a vendor file",
        }
    }
}

} // verus!
