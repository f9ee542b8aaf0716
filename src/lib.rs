//! Loading shared libraries at run time and resolving their symbols.
//!
//! The library holds the platform-neutral part of a dynamic loader: the
//! error model, the ownership of an opened library handle, and the decision
//! protocol that each platform backend follows around the operating system's
//! loader primitives. The primitives themselves are handed in by the caller.
mod error;
mod handle;
mod interface;
pub mod linux;
pub mod win32;

pub use error::{
    cause_text, contains, decimal, display_text, optional_cause_text, ErrorCause, ErrorView,
    LibraryFunctionLoadingError, LibraryInterfaceCreationError,
};
pub use handle::{release_result, LibraryHandle};
pub use interface::{resolution_view, LibraryInterfaceLike, ResolvedFunction};
