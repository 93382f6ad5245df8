use vstd::prelude::*;
use crate::error::{kind_code, ErrorKind};
use crate::text::{trim, trimmed};

verus! {

/// The notification title for each error code (see `ErrorKind::as_u32`).
pub open spec fn title(kind: u32) -> Seq<char> {
    if kind == 0 {
        "Hibernate: Root Privileges Required"@
    } else if kind == 1 {
        "Hibernate: Insufficient Disk Space"@
    } else if kind == 2 {
        "Hibernate: Swapfile Activation Failed"@
    } else if kind == 3 {
        "Hibernate: Swapfile Creation Failed"@
    } else if kind == 4 {
        "Hibernate: Resume Configuration Failed"@
    } else if kind == 5 {
        "Hibernate: Metadata Write Failed"@
    } else if kind == 6 {
        "Hibernate: Cleanup Failed"@
    } else if kind == 7 {
        "Hibernate: Device Lookup Failed"@
    } else if kind == 8 {
        "Hibernate: Compressor Mismatch Detected"@
    } else if kind == 9 {
        "Hibernate: Storage Preparation Failed"@
    } else if kind == 10 {
        "Hibernate: Kernel Probe Failed"@
    } else if kind == 11 {
        "Hibernate: Required Tool Not Found"@
    } else {
        "Hibernate: Unexpected Error"@
    }
}

/// The title of the desktop notification for an error code.
pub fn title_for_kind(kind: u32) -> (t: &'static str)
    ensures
        t@ == title(kind),
{
    match kind {
        0 => "Hibernate: Root Privileges Required",
        1 => "Hibernate: Insufficient Disk Space",
        2 => "Hibernate: Swapfile Activation Failed",
        3 => "Hibernate: Swapfile Creation Failed",
        4 => "Hibernate: Resume Configuration Failed",
        5 => "Hibernate: Metadata Write Failed",
        6 => "Hibernate: Cleanup Failed",
        7 => "Hibernate: Device Lookup Failed",
        8 => "Hibernate: Compressor Mismatch Detected",
        9 => "Hibernate: Storage Preparation Failed",
        10 => "Hibernate: Kernel Probe Failed",
        11 => "Hibernate: Required Tool Not Found",
        _ => "Hibernate: Unexpected Error",
    }
}

/// The body shown when a signal carries no message.
pub open spec fn default_body() -> Seq<char> {
    "Check 'journalctl -u dynamic-hibernate-prepare' for details."@
}

/// The notification body: the message, or a pointer to the service log when
/// the message is blank.
pub open spec fn body(message: Seq<char>) -> Seq<char> {
    if trim(message).len() == 0 {
        default_body()
    } else {
        message
    }
}

/// The body of the desktop notification for a signal's message.
pub fn notification_body(message: &str) -> (b: String)
    ensures
        b@ == body(message@),
{
    let t = trimmed(message);
    if t.as_str().is_empty() {
        "Check 'journalctl -u dynamic-hibernate-prepare' for details.".to_string()
    } else {
        message.to_string()
    }
}


/// Three features that tell the titles apart: length and two characters.
spec fn title_signature(code: u32) -> (nat, char, char) {
    if code == 0 {
        (35, 'R', 'o')
    } else if code == 1 {
        (34, 'I', 'n')
    } else if code == 2 {
        (37, 'S', 'w')
    } else if code == 3 {
        (35, 'S', 'w')
    } else if code == 4 {
        (38, 'R', 'e')
    } else if code == 5 {
        (32, 'M', 'e')
    } else if code == 6 {
        (25, 'C', 'l')
    } else if code == 7 {
        (31, 'D', 'e')
    } else if code == 8 {
        (39, 'C', 'o')
    } else if code == 9 {
        (37, 'S', 't')
    } else if code == 10 {
        (30, 'K', 'e')
    } else if code == 11 {
        (34, 'R', 'e')
    } else {
        (27, 'U', 'n')
    }
}

proof fn lemma_title_signature(code: u32)
    ensures
        title(code).len() == title_signature(code).0,
        title(code)[11] == title_signature(code).1,
        title(code)[12] == title_signature(code).2,
{
    reveal_strlit("Hibernate: Root Privileges Required");
    reveal_strlit("Hibernate: Insufficient Disk Space");
    reveal_strlit("Hibernate: Swapfile Activation Failed");
    reveal_strlit("Hibernate: Swapfile Creation Failed");
    reveal_strlit("Hibernate: Resume Configuration Failed");
    reveal_strlit("Hibernate: Metadata Write Failed");
    reveal_strlit("Hibernate: Cleanup Failed");
    reveal_strlit("Hibernate: Device Lookup Failed");
    reveal_strlit("Hibernate: Compressor Mismatch Detected");
    reveal_strlit("Hibernate: Storage Preparation Failed");
    reveal_strlit("Hibernate: Kernel Probe Failed");
    reveal_strlit("Hibernate: Required Tool Not Found");
    reveal_strlit("Hibernate: Unexpected Error");
}

/// Each error category is announced under a title of its own; codes no
/// category uses get the `Unexpected Error` title, as `Unknown` does.
pub proof fn law_each_kind_has_own_title(a: ErrorKind, b: ErrorKind, code: u32)
    ensures
        a != b ==> title(kind_code(a)) != title(kind_code(b)),
        code >= 12 ==> title(code) == title(kind_code(ErrorKind::Unknown)),
{
    lemma_title_signature(kind_code(a));
    lemma_title_signature(kind_code(b));
}

} // verus!
