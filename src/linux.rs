//! The POSIX backend: a library opened with lazy binding, and symbols
//! resolved with the clear, look up, query protocol that tells a symbol whose
//! address is null from a failed lookup.
use vstd::prelude::*;

use crate::error::{
    contains, ErrorCause, ErrorView, LibraryFunctionLoadingError, LibraryInterfaceCreationError,
};
use crate::handle::{release_result, LibraryHandle};
use crate::interface::{resolution_view, ResolvedFunction};

verus! {

/// What the loader's symbol lookup gave back.
#[derive(Debug)]
pub enum LookupOutcome {
    /// The lookup call itself failed.
    Failed(ErrorCause),
    /// The lookup returned this address; zero is the null address.
    Address(usize),
}

/// What the query of the loader's diagnostic state gave back.
#[derive(Debug)]
pub enum DiagnosticOutcome {
    /// The query itself failed.
    Failed(ErrorCause),
    /// A diagnostic is pending, with this text.
    Pending(String),
    /// No diagnostic is pending.
    Clear,
}

/// The message of an error raised by the binding to the loader.
pub open spec fn unexpected_message() -> Seq<char> {
    "An unexpected error occured"@
}

/// The message of an error raised while the diagnostic state was queried.
pub open spec fn unexpected_query_message() -> Seq<char> {
    "An unexpected error occurred"@
}

/// The message for a library that the loader could not find.
pub open spec fn not_found_message(name: Seq<char>) -> Seq<char> {
    name + " could not be found"@
}

/// The message for a symbol whose lookup left a diagnostic.
pub open spec fn symbol_failure_message(name: Seq<char>, diagnostic: Seq<char>) -> Seq<char> {
    "Failed to load symbol "@ + name + ": "@ + diagnostic
}

/// What opening `name` comes to, given what the loader's open call returned.
pub open spec fn open_outcome(name: Seq<char>, opened: Result<LibraryHandle, ErrorCause>) -> Result<
    LibraryHandle,
    ErrorView,
> {
    match opened {
        Err(c) => Err(ErrorView { msg: unexpected_message(), cause: Some(c) }),
        Ok(h) => if h.spec_is_valid() {
            Ok(h)
        } else {
            Err(ErrorView { msg: not_found_message(name), cause: None })
        },
    }
}

/// Whether a lookup outcome is ambiguous, so that the diagnostic state must
/// be queried: the lookup returned the null address.
pub open spec fn needs_diagnostic(lookup: LookupOutcome) -> bool {
    lookup matches LookupOutcome::Address(a) && a == 0
}

/// What a null lookup result comes to, given the diagnostic query's outcome.
pub open spec fn diagnostic_outcome(name: Seq<char>, diagnostic: DiagnosticOutcome) -> Result<
    usize,
    ErrorView,
> {
    match diagnostic {
        DiagnosticOutcome::Failed(c) => Err(
            ErrorView { msg: unexpected_query_message(), cause: Some(c) },
        ),
        DiagnosticOutcome::Pending(text) => Err(
            ErrorView { msg: symbol_failure_message(name, text@), cause: None },
        ),
        DiagnosticOutcome::Clear => Ok(0),
    }
}

/// What resolving `name` comes to, given the lookup's outcome and, where the
/// lookup returned null, the diagnostic query's outcome.
pub open spec fn resolution_outcome(
    name: Seq<char>,
    lookup: LookupOutcome,
    diagnostic: DiagnosticOutcome,
) -> Result<usize, ErrorView> {
    match lookup {
        LookupOutcome::Failed(c) => Err(ErrorView { msg: unexpected_message(), cause: Some(c) }),
        LookupOutcome::Address(a) => if a != 0 {
            Ok(a)
        } else {
            diagnostic_outcome(name, diagnostic)
        },
    }
}

/// What a construction amounts to: the handle taken over, or the error's view.
pub open spec fn creation_view(r: Result<LibraryInterface, LibraryInterfaceCreationError>) -> Result<
    LibraryHandle,
    ErrorView,
> {
    match r {
        Ok(l) => Ok(l@),
        Err(e) => Err(e@),
    }
}


/// A library that the loader opened is taken over with its handle; one that
/// the loader could not find is refused with an error whose message names it
/// and which has no cause.
pub proof fn lemma_open_outcome(name: Seq<char>, handle: LibraryHandle)
    ensures
        handle.spec_is_valid() ==> open_outcome(name, Ok(handle)) == Ok::<
            LibraryHandle,
            ErrorView,
        >(handle),
        !handle.spec_is_valid() ==> match open_outcome(name, Ok(handle)) {
            Ok(_) => false,
            Err(e) => contains(e.msg, name) && e.cause is None,
        },
{
    let msg = not_found_message(name);
    assert(msg.subrange(0int, 0int + name.len()) =~= name);
    assert(contains(msg, name));
}

/// A symbol that the lookup finds at a non-null address resolves to exactly
/// that address. A symbol that the lookup fails on, or does not find and
/// leaves a diagnostic for, is refused, and the diagnostic's message names it.
pub proof fn lemma_resolution_found_or_refused(
    name: Seq<char>,
    lookup: LookupOutcome,
    diagnostic: DiagnosticOutcome,
)
    ensures
        forall|a: usize|
            a != 0 && lookup == LookupOutcome::Address(a) ==> resolution_outcome(
                name,
                lookup,
                diagnostic,
            ) == Ok::<usize, ErrorView>(a),
        lookup is Failed ==> resolution_outcome(name, lookup, diagnostic) is Err,
        needs_diagnostic(lookup) && diagnostic is Pending ==> match resolution_outcome(
            name,
            lookup,
            diagnostic,
        ) {
            Ok(_) => false,
            Err(e) => contains(e.msg, name) && e.cause is None,
        },
{
    if needs_diagnostic(lookup) {
        if let DiagnosticOutcome::Pending(text) = diagnostic {
            let msg = symbol_failure_message(name, text@);
            let start = "Failed to load symbol "@.len() as int;
            assert(msg.subrange(start, start + name.len()) =~= name);
        }
    }
}

/// Resolving the same symbol twice, where the lookup finds it at the same
/// non-null address both times, gives that address both times: nothing is
/// kept from one resolution to the next.
pub proof fn lemma_resolution_repeatable(
    name: Seq<char>,
    address: usize,
    first: DiagnosticOutcome,
    second: DiagnosticOutcome,
)
    requires
        address != 0,
    ensures
        resolution_outcome(name, LookupOutcome::Address(address), first) == resolution_outcome(
            name,
            LookupOutcome::Address(address),
            second,
        ),
        resolution_outcome(name, LookupOutcome::Address(address), first) == Ok::<
            usize,
            ErrorView,
        >(address),
{
}

/// A lookup that returns the null address, followed by a diagnostic query
/// that finds nothing pending, resolves successfully to the null address.
pub proof fn lemma_null_symbol_resolves(name: Seq<char>)
    ensures
        resolution_outcome(name, LookupOutcome::Address(0), DiagnosticOutcome::Clear) == Ok::<
            usize,
            ErrorView,
        >(0),
{
}

/// An opened library. It owns exactly one handle, which is valid until the
/// library is released and the invalid sentinel afterwards.
pub struct LibraryInterface {
    handle: LibraryHandle,
}

impl View for LibraryInterface {
    type V = LibraryHandle;

    closed spec fn view(&self) -> LibraryHandle {
        self.handle
    }
}

fn unexpected_error(cause: ErrorCause) -> (r: LibraryInterfaceCreationError)
    ensures
        r@.msg == unexpected_message(),
        r@.cause == Some(cause),
{
    LibraryInterfaceCreationError::new(String::from_str("An unexpected error occured"), Some(cause))
}

impl LibraryInterface {
    /// Takes over the outcome of the loader's open call for `name`: an error
    /// of the binding, an invalid handle for a library that was not found, or
    /// the valid handle of the opened library.
    pub fn from_open_outcome(name: &str, opened: Result<LibraryHandle, ErrorCause>) -> (r: Result<
        Self,
        LibraryInterfaceCreationError,
    >)
        ensures
            creation_view(r) == open_outcome(name@, opened),
    {
        match opened {
            Err(e) => Err(unexpected_error(e)),
            Ok(handle) => {
                if !handle.is_valid() {
                    let mut msg = String::from_str(name);
                    msg.append(" could not be found");
                    return Err(LibraryInterfaceCreationError::new(msg, None));
                }
                Ok(LibraryInterface { handle })
            },
        }
    }

    /// Opens `name` through `open`, the loader's open call with lazy binding,
    /// which is handed `name` and called once.
    pub fn new<F>(name: &str, open: F) -> (r: Result<Self, LibraryInterfaceCreationError>) where
        F: FnOnce(&str) -> Result<LibraryHandle, ErrorCause>,

        requires
            call_requires(open, (name,)),
        ensures
            exists|opened: Result<LibraryHandle, ErrorCause>|
                call_ensures(open, (name,), opened) && creation_view(r) == open_outcome(
                    name@,
                    opened,
                ),
    {
        let opened = open(name);
        Self::from_open_outcome(name, opened)
    }

    /// The handle that this library owns.
    pub fn handle(&self) -> (r: LibraryHandle)
        ensures
            r == self@,
    {
        self.handle
    }

    /// Whether this library still holds a valid handle.
    pub fn is_open(&self) -> (r: bool)
        ensures
            r == self@.spec_is_valid(),
    {
        self.handle.is_valid()
    }

    /// Puts the invalid sentinel in place of the owned handle and hands out
    /// the handle it held, to be closed, where that one was valid. A library
    /// that was released already hands out nothing.
    pub fn release(&mut self) -> (r: Option<LibraryHandle>)
        ensures
            r == release_result(old(self)@),
            final(self)@@ == 0,
    {
        self.handle.take()
    }

    /// Decides a lookup that returned the null address, from the outcome of
    /// the diagnostic query that followed it.
    pub fn resolve_null_lookup(name: &str, diagnostic: DiagnosticOutcome) -> (r: Result<
        ResolvedFunction,
        LibraryFunctionLoadingError,
    >)
        ensures
            resolution_view(r) == diagnostic_outcome(name@, diagnostic),
    {
        match diagnostic {
            DiagnosticOutcome::Failed(e) => Err(
                LibraryFunctionLoadingError::new(
                    String::from_str("An unexpected error occurred"),
                    Some(e),
                ),
            ),
            DiagnosticOutcome::Pending(text) => {
                let mut msg = String::from_str("Failed to load symbol ");
                msg.append(name);
                msg.append(": ");
                msg.append(text.as_str());
                Err(LibraryFunctionLoadingError::new(msg, None))
            },
            DiagnosticOutcome::Clear => Ok(ResolvedFunction::from_address(0)),
        }
    }

    /// Resolves `name`: clears the diagnostic state through `clear`, looks
    /// the symbol up in this library through `lookup`, and, only where the
    /// lookup returned the null address, queries the diagnostic state through
    /// `query`. Each is called at most once, in that order.
    pub fn get_function<C, L, Q>(&self, name: &str, clear: C, lookup: L, query: Q) -> (r: Result<
        ResolvedFunction,
        LibraryFunctionLoadingError,
    >) where
        C: FnOnce(),
        L: FnOnce(LibraryHandle, &str) -> LookupOutcome,
        Q: FnOnce() -> DiagnosticOutcome,

        requires
            call_requires(clear, ()),
            call_requires(lookup, (self@, name)),
            call_requires(query, ()),
        ensures
            exists|found: LookupOutcome, diagnostic: DiagnosticOutcome|
                {
                    &&& call_ensures(lookup, (self@, name), found)
                    &&& needs_diagnostic(found) ==> call_ensures(query, (), diagnostic)
                    &&& resolution_view(r) == resolution_outcome(name@, found, diagnostic)
                },
    {
        clear();
        let found = lookup(self.handle, name);
        let ghost found_view = found;
        match found {
            LookupOutcome::Failed(e) => {
                let r = Err(
                    LibraryFunctionLoadingError::new(
                        String::from_str("An unexpected error occured"),
                        Some(e),
                    ),
                );
                assert(resolution_view(r) == resolution_outcome(
                    name@,
                    found_view,
                    DiagnosticOutcome::Clear,
                ));
                r
            },
            LookupOutcome::Address(address) => {
                if address != 0 {
                    let r = Ok(ResolvedFunction::from_address(address));
                    assert(resolution_view(r) == resolution_outcome(
                        name@,
                        found_view,
                        DiagnosticOutcome::Clear,
                    ));
                    r
                } else {
                    let diagnostic = query();
                    let ghost diagnostic_view = diagnostic;
                    let r = Self::resolve_null_lookup(name, diagnostic);
                    assert(resolution_view(r) == resolution_outcome(
                        name@,
                        found_view,
                        diagnostic_view,
                    ));
                    r
                }
            },
        }
    }
}

/// Opens `name` through `open` and hands back the library, for use through
/// its symbol resolution.
pub fn create_library_interface<F>(name: &str, open: F) -> (r: Result<
    LibraryInterface,
    LibraryInterfaceCreationError,
>) where F: FnOnce(&str) -> Result<LibraryHandle, ErrorCause>,

    requires
        call_requires(open, (name,)),
    ensures
        exists|opened: Result<LibraryHandle, ErrorCause>|
            call_ensures(open, (name,), opened) && creation_view(r) == open_outcome(name@, opened),
{
    LibraryInterface::new(name, open)
}

} // verus!
