use vstd::prelude::*;

verus! {

/// The underlying failure that an error of this library wraps.
#[derive(Debug)]
pub enum ErrorCause {
    /// A failure raised by the binding to the operating system's loader,
    /// given by its text (a name that cannot be passed to the loader, a
    /// diagnostic that cannot be read).
    Binding(String),
    /// A last-system-error code queried from the operating system.
    SystemCode(u32),
}

/// What an error of this library holds: its message and its optional cause.
pub struct ErrorView {
    pub msg: Seq<char>,
    pub cause: Option<ErrorCause>,
}

/// The decimal digits of `n`, most significant first, without leading zeros.
pub open spec fn decimal(n: nat) -> Seq<char>
    decreases n,
{
    if n < 10 {
        "0123456789"@.subrange(n as int, n + 1int)
    } else {
        decimal(n / 10) + "0123456789"@.subrange((n % 10) as int, (n % 10) + 1int)
    }
}

/// How a cause reads in an error's display form.
pub open spec fn cause_text(c: ErrorCause) -> Seq<char> {
    match c {
        ErrorCause::Binding(text) => text@,
        ErrorCause::SystemCode(code) => "system error "@ + decimal(code as nat),
    }
}

/// How an optional cause reads in an error's display form.
pub open spec fn optional_cause_text(c: Option<ErrorCause>) -> Seq<char> {
    match c {
        None => "None"@,
        Some(c) => "Some("@ + cause_text(c) + ")"@,
    }
}

/// The display form of an error of the given kind.
pub open spec fn display_text(kind: Seq<char>, e: ErrorView) -> Seq<char> {
    kind + ": "@ + e.msg + ": "@ + optional_cause_text(e.cause)
}

/// Whether `needle` occurs in `hay` as a contiguous run.
pub open spec fn contains(hay: Seq<char>, needle: Seq<char>) -> bool {
    exists|i: int|
        0 <= i && i + needle.len() <= hay.len() && #[trigger] hay.subrange(i, i + needle.len())
            == needle
}

/// Appends the decimal digits of `n` to `out`.
fn write_decimal(n: u32, out: &mut String)
    ensures
        final(out)@ == old(out)@ + decimal(n as nat),
    decreases n,
{
    let digits = "0123456789";
    proof {
        reveal_strlit("0123456789");
    }
    if n >= 10 {
        write_decimal(n / 10, out);
    }
    let d = (n % 10) as usize;
    out.append(digits.substring_char(d, d + 1));
    assert(final(out)@ =~= old(out)@ + decimal(n as nat));
}

impl ErrorCause {
    /// The text of this cause, as it appears in an error's display form.
    pub fn describe(&self) -> (r: String)
        ensures
            r@ == cause_text(*self),
    {
        match self {
            ErrorCause::Binding(text) => text.clone(),
            ErrorCause::SystemCode(code) => {
                let mut r = String::from_str("system error ");
                write_decimal(*code, &mut r);
                r
            },
        }
    }
}

fn describe_optional(c: &Option<ErrorCause>) -> (r: String)
    ensures
        r@ == optional_cause_text(*c),
{
    match c {
        None => String::from_str("None"),
        Some(c) => {
            let mut r = String::from_str("Some(");
            let inner = c.describe();
            r.append(inner.as_str());
            r.append(")");
            r
        },
    }
}

/// Failure to open a library.
pub struct LibraryInterfaceCreationError {
    msg: String,
    side: Option<ErrorCause>,
}

/// Failure to resolve a symbol in an opened library.
pub struct LibraryFunctionLoadingError {
    msg: String,
    side: Option<ErrorCause>,
}

impl View for LibraryInterfaceCreationError {
    type V = ErrorView;

    closed spec fn view(&self) -> ErrorView {
        ErrorView { msg: self.msg@, cause: self.side }
    }
}

impl View for LibraryFunctionLoadingError {
    type V = ErrorView;

    closed spec fn view(&self) -> ErrorView {
        ErrorView { msg: self.msg@, cause: self.side }
    }
}

impl LibraryInterfaceCreationError {
    pub(crate) fn new(msg: String, side: Option<ErrorCause>) -> (r: Self)
        ensures
            r@.msg == msg@,
            r@.cause == side,
    {
        LibraryInterfaceCreationError { msg, side }
    }

    /// The human-readable message.
    pub fn message(&self) -> (r: &str)
        ensures
            r@ == self@.msg,
    {
        self.msg.as_str()
    }

    /// The nested cause, where there is one.
    pub fn source(&self) -> (r: Option<&ErrorCause>)
        ensures
            match r {
                Some(c) => self@.cause == Some(*c),
                None => self@.cause is None,
            },
    {
        match &self.side {
            None => None,
            Some(side) => Some(side),
        }
    }

    /// The display form: the kind, the message and the cause chain.
    pub fn to_string(&self) -> (r: String)
        ensures
            r@ == display_text("LibraryInterfaceCreationError"@, self@),
    {
        let mut r = String::from_str("LibraryInterfaceCreationError");
        r.append(": ");
        r.append(self.msg.as_str());
        r.append(": ");
        let cause = describe_optional(&self.side);
        r.append(cause.as_str());
        r
    }
}

impl LibraryFunctionLoadingError {
    pub(crate) fn new(msg: String, side: Option<ErrorCause>) -> (r: Self)
        ensures
            r@.msg == msg@,
            r@.cause == side,
    {
        LibraryFunctionLoadingError { msg, side }
    }

    /// The human-readable message.
    pub fn message(&self) -> (r: &str)
        ensures
            r@ == self@.msg,
    {
        self.msg.as_str()
    }

    /// The nested cause, where there is one.
    pub fn source(&self) -> (r: Option<&ErrorCause>)
        ensures
            match r {
                Some(c) => self@.cause == Some(*c),
                None => self@.cause is None,
            },
    {
        match &self.side {
            None => None,
            Some(side) => Some(side),
        }
    }

    /// The display form: the kind, the message and the cause chain.
    pub fn to_string(&self) -> (r: String)
        ensures
            r@ == display_text("LibraryFunctionLoadingError"@, self@),
    {
        let mut r = String::from_str("LibraryFunctionLoadingError");
        r.append(": ");
        r.append(self.msg.as_str());
        r.append(": ");
        let cause = describe_optional(&self.side);
        r.append(cause.as_str());
        r
    }
}

} // verus!
