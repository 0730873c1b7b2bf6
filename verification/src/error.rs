use vstd::prelude::*;

verus! {

/// The failures this component can report.
///
/// `UsageError`: neither a target nor a listing was requested.
/// `InvalidSource`: the URI does not reference the expected host.
/// `MalformedUri`: the URI lacks enough path segments.
/// `ToolInvocationError`: an underlying git invocation failed; produced by
/// the caller that runs the commands, never by the decision logic itself.
#[derive(Clone, Copy, Debug, PartialEq, Eq, Structural)]
pub enum Error {
    UsageError,
    InvalidSource,
    MalformedUri,
    ToolInvocationError,
}

} // verus!
