use vstd::prelude::*;

use crate::error::{ErrorView, LibraryFunctionLoadingError};

verus! {

/// The address of a resolved symbol, to be cast by the caller to the
/// symbol's real signature.
///
/// It does not own anything: it is meaningful only while the library it
/// came from stays loaded. Calling through it after that library has been
/// released is undefined behaviour, and avoiding that is the caller's duty.
#[derive(Clone, Copy, Debug, PartialEq, Eq, Structural)]
pub struct ResolvedFunction {
    address: usize,
}

impl View for ResolvedFunction {
    type V = usize;

    closed spec fn view(&self) -> usize {
        self.address
    }
}

impl ResolvedFunction {
    pub(crate) fn from_address(address: usize) -> (r: ResolvedFunction)
        ensures
            r@ == address,
    {
        ResolvedFunction { address }
    }

    /// The address that the loader reported for the symbol.
    pub fn address(&self) -> (r: usize)
        ensures
            r == self@,
    {
        self.address
    }
}

/// What a symbol resolution amounts to: the address, or the error's view.
pub open spec fn resolution_view(r: Result<ResolvedFunction, LibraryFunctionLoadingError>) -> Result<
    usize,
    ErrorView,
> {
    match r {
        Ok(f) => Ok(f@),
        Err(e) => Err(e@),
    }
}

/// The capability that every platform backend offers once a library is open:
/// resolving a symbol by name, anew on every call.
pub trait LibraryInterfaceLike {
    fn get_function(&self, name: &str) -> Result<ResolvedFunction, LibraryFunctionLoadingError>;
}

} // verus!
