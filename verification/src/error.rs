use vstd::prelude::*;

verus! {

// ── Error categories (transmitted over D-Bus as u32) ─────────────────────────

/// Category of a hibernate failure; its code travels over D-Bus.
#[derive(Debug, Clone, Copy, PartialEq, Eq, Structural)]
pub enum ErrorKind {
    RequiresRoot,
    DiskSpaceInsufficient,
    SwapfileActivationFailed,
    SwapfileCreationFailed,
    ResumeConfigFailed,
    MetadataWriteFailed,
    CleanupFailed,
    DeviceLookupFailed,
    CompressorMismatch,
    SubvolumePreparationFailed,
    ProbeFailed,
    ToolNotFound,
    Unknown,
}

/// The wire code of each category, in declaration order starting at 0.
pub open spec fn kind_code(kind: ErrorKind) -> u32 {
    match kind {
        ErrorKind::RequiresRoot => 0,
        ErrorKind::DiskSpaceInsufficient => 1,
        ErrorKind::SwapfileActivationFailed => 2,
        ErrorKind::SwapfileCreationFailed => 3,
        ErrorKind::ResumeConfigFailed => 4,
        ErrorKind::MetadataWriteFailed => 5,
        ErrorKind::CleanupFailed => 6,
        ErrorKind::DeviceLookupFailed => 7,
        ErrorKind::CompressorMismatch => 8,
        ErrorKind::SubvolumePreparationFailed => 9,
        ErrorKind::ProbeFailed => 10,
        ErrorKind::ToolNotFound => 11,
        ErrorKind::Unknown => 12,
    }
}

impl ErrorKind {
    pub fn as_u32(self) -> (code: u32)
        ensures
            code == kind_code(self),
    {
        match self {
            ErrorKind::RequiresRoot => 0,
            ErrorKind::DiskSpaceInsufficient => 1,
            ErrorKind::SwapfileActivationFailed => 2,
            ErrorKind::SwapfileCreationFailed => 3,
            ErrorKind::ResumeConfigFailed => 4,
            ErrorKind::MetadataWriteFailed => 5,
            ErrorKind::CleanupFailed => 6,
            ErrorKind::DeviceLookupFailed => 7,
            ErrorKind::CompressorMismatch => 8,
            ErrorKind::SubvolumePreparationFailed => 9,
            ErrorKind::ProbeFailed => 10,
            ErrorKind::ToolNotFound => 11,
            ErrorKind::Unknown => 12,
        }
    }
}


/// The name a category prints as (its variant name).
pub open spec fn kind_name(kind: ErrorKind) -> Seq<char> {
    match kind {
        ErrorKind::RequiresRoot => "RequiresRoot"@,
        ErrorKind::DiskSpaceInsufficient => "DiskSpaceInsufficient"@,
        ErrorKind::SwapfileActivationFailed => "SwapfileActivationFailed"@,
        ErrorKind::SwapfileCreationFailed => "SwapfileCreationFailed"@,
        ErrorKind::ResumeConfigFailed => "ResumeConfigFailed"@,
        ErrorKind::MetadataWriteFailed => "MetadataWriteFailed"@,
        ErrorKind::CleanupFailed => "CleanupFailed"@,
        ErrorKind::DeviceLookupFailed => "DeviceLookupFailed"@,
        ErrorKind::CompressorMismatch => "CompressorMismatch"@,
        ErrorKind::SubvolumePreparationFailed => "SubvolumePreparationFailed"@,
        ErrorKind::ProbeFailed => "ProbeFailed"@,
        ErrorKind::ToolNotFound => "ToolNotFound"@,
        ErrorKind::Unknown => "Unknown"@,
    }
}

impl ErrorKind {
    /// The variant name, as the category prints in error messages.
    pub fn name(self) -> (s: &'static str)
        ensures
            s@ == kind_name(self),
    {
        match self {
            ErrorKind::RequiresRoot => "RequiresRoot",
            ErrorKind::DiskSpaceInsufficient => "DiskSpaceInsufficient",
            ErrorKind::SwapfileActivationFailed => "SwapfileActivationFailed",
            ErrorKind::SwapfileCreationFailed => "SwapfileCreationFailed",
            ErrorKind::ResumeConfigFailed => "ResumeConfigFailed",
            ErrorKind::MetadataWriteFailed => "MetadataWriteFailed",
            ErrorKind::CleanupFailed => "CleanupFailed",
            ErrorKind::DeviceLookupFailed => "DeviceLookupFailed",
            ErrorKind::CompressorMismatch => "CompressorMismatch",
            ErrorKind::SubvolumePreparationFailed => "SubvolumePreparationFailed",
            ErrorKind::ProbeFailed => "ProbeFailed",
            ErrorKind::ToolNotFound => "ToolNotFound",
            ErrorKind::Unknown => "Unknown",
        }
    }
}

// ── Primary error type ────────────────────────────────────────────────────────

/// A hibernate-domain error: a typed category and the message it reports.
#[derive(Debug, PartialEq, Eq)]
pub struct HibernateError {
    pub kind: ErrorKind,
    /// The outermost message: what the error prints and broadcasts.
    pub message: String,
    /// The underlying error the message gives context to, if any.
    pub cause: Option<String>,
}

fn clone_opt(o: &Option<String>) -> (r: Option<String>)
    ensures
        r == *o,
{
    match o {
        Some(s) => Some(s.clone()),
        None => None,
    }
}

impl Clone for HibernateError {
    fn clone(&self) -> (r: Self)
        ensures
            r == *self,
    {
        HibernateError { kind: self.kind, message: self.message.clone(), cause: clone_opt(&self.cause) }
    }
}

/// The text an error prints as: `[Kind] message`.
pub open spec fn error_text(kind: ErrorKind, message: Seq<char>) -> Seq<char> {
    "["@ + kind_name(kind) + "] "@ + message
}

/// The whole chain an error prints in its alternate form: the message, then
/// `: ` and the cause when there is one.
pub open spec fn chain_text(message: Seq<char>, cause: Option<String>) -> Seq<char> {
    match cause {
        Some(c) => message + ": "@ + c@,
        None => message,
    }
}

impl HibernateError {
    /// An error of category `kind` with `message` and no underlying cause.
    pub fn new(kind: ErrorKind, message: String) -> (e: Self)
        ensures
            e.kind == kind,
            e.message@ == message@,
            e.cause is None,
    {
        HibernateError { kind, message, cause: None }
    }

    /// An error of category `kind` whose `message` gives context to `cause`.
    pub fn with_cause(kind: ErrorKind, message: String, cause: String) -> (e: Self)
        ensures
            e.kind == kind,
            e.message@ == message@,
            e.cause == Some(cause),
    {
        HibernateError { kind, message, cause: Some(cause) }
    }

    /// The whole chain, `message: cause`.
    pub fn to_chain_string(&self) -> (s: String)
        ensures
            s@ == chain_text(self.message@, self.cause),
    {
        let mut s = self.message.clone();
        match &self.cause {
            Some(c) => {
                s.append(": ");
                s.append(c.as_str());
            },
            None => {},
        }
        s
    }

    /// Convert into the payload that gets broadcast over D-Bus.
    pub fn to_signal(&self) -> (sig: ErrorSignal)
        ensures
            sig.kind == self.kind,
            sig.message@ == self.message@,
    {
        ErrorSignal { kind: self.kind, message: self.message.clone() }
    }

    /// The printed form of the error, `[Kind] message`.
    pub fn to_display_string(&self) -> (s: String)
        ensures
            s@ == error_text(self.kind, self.message@),
    {
        let mut s = String::from_str("[");
        s.append(self.kind.name());
        s.append("] ");
        s.append(self.message.as_str());
        s
    }
}

// ── D-Bus signal payload ──────────────────────────────────────────────────────

/// Payload sent to the user-session notifier via D-Bus.
#[derive(Debug, PartialEq, Eq)]
pub struct ErrorSignal {
    pub kind: ErrorKind,
    pub message: String,
}

impl Clone for ErrorSignal {
    fn clone(&self) -> (r: Self)
        ensures
            r == *self,
    {
        ErrorSignal { kind: self.kind, message: self.message.clone() }
    }
}

impl ErrorSignal {
    /// Returns `(kind_code, message_str)` ready to be written as a D-Bus body.
    pub fn as_dbus_body(&self) -> (body: (u32, &str))
        ensures
            body.0 == kind_code(self.kind),
            body.1@ == self.message@,
    {
        (self.kind.as_u32(), self.message.as_str())
    }
}

// ── Convenience ──────────────────────────────────────────────────────────────

pub type HibernateResult<T> = Result<T, HibernateError>;

/// Attaches an `ErrorKind` to a failed result whose error is its message.
pub trait IntoHibernateError<T>: Sized {
    /// Keep `Ok`; turn an error message into an error of category `kind`.
    fn hibernate_err(self, kind: ErrorKind) -> HibernateResult<T>;

    /// Keep `Ok`; on error report `ctx` under `kind`, the error's message
    /// kept as its cause.
    fn hibernate_err_ctx(self, kind: ErrorKind, ctx: &str) -> HibernateResult<T>;
}

impl<T> IntoHibernateError<T> for Result<T, String> {
    fn hibernate_err(self, kind: ErrorKind) -> (r: HibernateResult<T>)
        ensures
            match self {
                Ok(v) => r == Ok::<T, HibernateError>(v),
                Err(m) => r matches Err(e) && e.kind == kind && e.message@ == m@ && e.cause is None,
            },
    {
        match self {
            Ok(v) => Ok(v),
            Err(m) => Err(HibernateError::new(kind, m)),
        }
    }

    fn hibernate_err_ctx(self, kind: ErrorKind, ctx: &str) -> (r: HibernateResult<T>)
        ensures
            match self {
                Ok(v) => r == Ok::<T, HibernateError>(v),
                Err(m) => r matches Err(e) && e.kind == kind && e.message@ == ctx@ && e.cause == Some(m),
            },
    {
        match self {
            Ok(v) => Ok(v),
            Err(m) => Err(HibernateError::with_cause(kind, ctx.to_string(), m)),
        }
    }
}

/// Two different categories never share a wire code, and every code is below 13.
pub proof fn law_code_identifies_kind(a: ErrorKind, b: ErrorKind)
    ensures
        kind_code(a) == kind_code(b) <==> a == b,
        kind_code(a) < 13,
{
}


} // verus!
