//! The Windows backend: a library loaded as a module, symbols resolved by
//! procedure address, and each failure reported with the last system error.
use vstd::prelude::*;

use crate::error::{
    ErrorCause, ErrorView, LibraryFunctionLoadingError, LibraryInterfaceCreationError,
};
use crate::handle::{release_result, LibraryHandle};
use crate::interface::{resolution_view, ResolvedFunction};

verus! {

/// The message for a module that could not be loaded.
pub open spec fn load_failure_message(name: Seq<char>) -> Seq<char> {
    name + " could not be loaded"@
}

/// The message for a symbol that could not be found in a module.
pub open spec fn symbol_failure_message(name: Seq<char>) -> Seq<char> {
    "Failed to load symbol "@ + name
}

/// What loading `name` comes to, given the module handle that the loader
/// returned and, where that one is invalid, the last system error.
pub open spec fn load_outcome(name: Seq<char>, module: LibraryHandle, code: u32) -> Result<
    LibraryHandle,
    ErrorView,
> {
    if module.spec_is_valid() {
        Ok(module)
    } else {
        Err(
            ErrorView {
                msg: load_failure_message(name),
                cause: Some(ErrorCause::SystemCode(code)),
            },
        )
    }
}

/// What resolving `name` comes to, given the address that the procedure
/// lookup returned and, where that one is null, the last system error.
pub open spec fn lookup_outcome(name: Seq<char>, address: usize, code: u32) -> Result<
    usize,
    ErrorView,
> {
    if address != 0 {
        Ok(address)
    } else {
        Err(
            ErrorView {
                msg: symbol_failure_message(name),
                cause: Some(ErrorCause::SystemCode(code)),
            },
        )
    }
}

/// What a construction amounts to: the module taken over, or the error's view.
pub open spec fn creation_view(r: Result<LibraryInterface, LibraryInterfaceCreationError>) -> Result<
    LibraryHandle,
    ErrorView,
> {
    match r {
        Ok(l) => Ok(l@),
        Err(e) => Err(e@),
    }
}

/// A loaded module. It owns exactly one module handle, which is valid until
/// the module is released and the invalid sentinel afterwards.
pub struct LibraryInterface {
    hmodule: LibraryHandle,
}

impl View for LibraryInterface {
    type V = LibraryHandle;

    closed spec fn view(&self) -> LibraryHandle {
        self.hmodule
    }
}

impl LibraryInterface {
    /// Loads `name` through `load`, the loader's module-load call, which is
    /// handed `name` and called once. Only where it returns no valid module
    /// is `last_error` called, once, for the error code to report.
    pub fn new<L, E>(name: &str, load: L, last_error: E) -> (r: Result<
        Self,
        LibraryInterfaceCreationError,
    >) where L: FnOnce(&str) -> LibraryHandle, E: FnOnce() -> u32,

        requires
            call_requires(load, (name,)),
            call_requires(last_error, ()),
        ensures
            exists|module: LibraryHandle, code: u32|
                {
                    &&& call_ensures(load, (name,), module)
                    &&& !module.spec_is_valid() ==> call_ensures(last_error, (), code)
                    &&& creation_view(r) == load_outcome(name@, module, code)
                },
    {
        let hmodule = load(name);
        if hmodule.is_valid() {
            let r = Ok(LibraryInterface { hmodule });
            assert(creation_view(r) == load_outcome(name@, hmodule, 0));
            return r;
        }
        let code = last_error();
        let mut msg = String::from_str(name);
        msg.append(" could not be loaded");
        let r = Err(LibraryInterfaceCreationError::new(msg, Some(ErrorCause::SystemCode(code))));
        assert(creation_view(r) == load_outcome(name@, hmodule, code));
        r
    }

    /// The module handle that this library owns.
    pub fn handle(&self) -> (r: LibraryHandle)
        ensures
            r == self@,
    {
        self.hmodule
    }

    /// Whether this library still holds a valid module handle.
    pub fn is_open(&self) -> (r: bool)
        ensures
            r == self@.spec_is_valid(),
    {
        self.hmodule.is_valid()
    }

    /// Puts the invalid sentinel in place of the owned module handle and
    /// hands out the one it held, to be freed, where that one was valid. A
    /// library that was released already hands out nothing.
    pub fn release(&mut self) -> (r: Option<LibraryHandle>)
        ensures
            r == release_result(old(self)@),
            final(self)@@ == 0,
    {
        self.hmodule.take()
    }

    /// Resolves `name` through `proc_address`, the loader's procedure lookup
    /// on this module, called once. Only where it returns the null address is
    /// `last_error` called, once, for the error code to report.
    pub fn get_function<P, E>(&self, name: &str, proc_address: P, last_error: E) -> (r: Result<
        ResolvedFunction,
        LibraryFunctionLoadingError,
    >) where P: FnOnce(LibraryHandle, &str) -> usize, E: FnOnce() -> u32,

        requires
            call_requires(proc_address, (self@, name)),
            call_requires(last_error, ()),
        ensures
            exists|address: usize, code: u32|
                {
                    &&& call_ensures(proc_address, (self@, name), address)
                    &&& address == 0 ==> call_ensures(last_error, (), code)
                    &&& resolution_view(r) == lookup_outcome(name@, address, code)
                },
    {
        let address = proc_address(self.hmodule, name);
        if address != 0 {
            let r = Ok(ResolvedFunction::from_address(address));
            assert(resolution_view(r) == lookup_outcome(name@, address, 0));
            return r;
        }
        let code = last_error();
        let mut msg = String::from_str("Failed to load symbol ");
        msg.append(name);
        let r = Err(LibraryFunctionLoadingError::new(msg, Some(ErrorCause::SystemCode(code))));
        assert(resolution_view(r) == lookup_outcome(name@, address, code));
        r
    }
}

/// Loads `name` through `load` and hands back the library, for use through
/// its symbol resolution.
pub fn create_library_interface<L, E>(name: &str, load: L, last_error: E) -> (r: Result<
    LibraryInterface,
    LibraryInterfaceCreationError,
>) where L: FnOnce(&str) -> LibraryHandle, E: FnOnce() -> u32,

    requires
        call_requires(load, (name,)),
        call_requires(last_error, ()),
    ensures
        exists|module: LibraryHandle, code: u32|
            {
                &&& call_ensures(load, (name,), module)
                &&& !module.spec_is_valid() ==> call_ensures(last_error, (), code)
                &&& creation_view(r) == load_outcome(name@, module, code)
            },
{
    LibraryInterface::new(name, load, last_error)
}

} // verus!
