//! Kernel resume pointers and hibernate image size.

use vstd::prelude::*;
use vstd::utf8::{decode_utf8, encode_scalar, encode_utf8, valid_utf8};
use crate::config::{SYS_IMAGE_SIZE, SYS_RESUME, SYS_RESUME_OFFSET};
use crate::error::{ErrorKind, HibernateError, HibernateResult};
use crate::system::{
    fails_because, fails_with, finishes_with, is_run, run_tool, succeeds, str_texts, Action,
    CommandOutcome, Event, StdioMode,
};
use crate::text::{
    decimal, decimal_string, from_utf8_lossy, segments, split_lines, split_whitespace, trim,
    trimmed, utf8_lossy, words,
};

verus! {

// ── Reading sysfs values ─────────────────────────────────────────────────────

/// A sysfs value as read: the trimmed text, or an error of category `kind`
/// that names the file, the read error kept as its cause.
pub fn sysfs_read(path: &str, kind: ErrorKind, contents: Result<String, String>) -> (r:
    HibernateResult<String>)
    ensures
        match contents {
            Ok(s) => r matches Ok(v) && v@ == trim(s@),
            Err(m) => r matches Err(e) && e.kind == kind && e.message@ == path@ && e.cause == Some(m),
        },
{
    match contents {
        Ok(s) => Ok(trimmed(s.as_str())),
        Err(m) => Err(HibernateError::with_cause(kind, path.to_string(), m)),
    }
}

// ── Writing sysfs values ─────────────────────────────────────────────────────

/// One write of `value` to the file `path`; a failure is reported as an
/// error of category `kind` whose message is `context`.
#[derive(Debug, PartialEq, Eq)]
pub struct SysfsWrite {
    pub path: String,
    pub value: String,
    pub kind: ErrorKind,
    pub context: String,
}

impl Clone for SysfsWrite {
    fn clone(&self) -> (r: Self)
        ensures
            r == *self,
    {
        SysfsWrite {
            path: self.path.clone(),
            value: self.value.clone(),
            kind: self.kind,
            context: self.context.clone(),
        }
    }
}

/// The write has exactly these path, value, category and context.
pub open spec fn is_write(w: SysfsWrite, path: Seq<char>, value: Seq<char>, kind: ErrorKind, context: Seq<char>) -> bool {
    &&& w.path@ == path
    &&& w.value@ == value
    &&& w.kind == kind
    &&& w.context@ == context
}

fn sysfs_write(path: &str, value: &str, kind: ErrorKind, context: &str) -> (w: SysfsWrite)
    ensures
        is_write(w, path@, value@, kind, context@),
{
    SysfsWrite {
        path: path.to_string(),
        value: value.to_string(),
        kind,
        context: context.to_string(),
    }
}

/// The kernel's resume device (`/sys/power/resume`) and offset
/// (`/sys/power/resume_offset`).
pub struct ResumeParams;

impl ResumeParams {
    /// The resume device as read from `/sys/power/resume`.
    pub fn read_resume(contents: Result<String, String>) -> (r: HibernateResult<String>)
        ensures
            match contents {
                Ok(s) => r matches Ok(v) && v@ == trim(s@),
                Err(m) => r matches Err(e) && e.kind == ErrorKind::ResumeConfigFailed
                    && e.message@ == SYS_RESUME@ && e.cause == Some(m),
            },
    {
        sysfs_read(SYS_RESUME, ErrorKind::ResumeConfigFailed, contents)
    }

    /// The resume offset as read from `/sys/power/resume_offset`.
    pub fn read_resume_offset(contents: Result<String, String>) -> (r: HibernateResult<String>)
        ensures
            match contents {
                Ok(s) => r matches Ok(v) && v@ == trim(s@),
                Err(m) => r matches Err(e) && e.kind == ErrorKind::ResumeConfigFailed
                    && e.message@ == SYS_RESUME_OFFSET@ && e.cause == Some(m),
            },
    {
        sysfs_read(SYS_RESUME_OFFSET, ErrorKind::ResumeConfigFailed, contents)
    }

    /// The writes that put back a resume device and offset, device first; a
    /// [`PlanRun`] performs them and stops at the first failure.
    pub fn restore(resume: &str, resume_offset: &str) -> (plan: Vec<SysfsWrite>)
        ensures
            plan@.len() == 2,
            is_write(plan@[0], SYS_RESUME@, resume@, ErrorKind::CleanupFailed, "restore /sys/power/resume"@),
            is_write(plan@[1], SYS_RESUME_OFFSET@, resume_offset@, ErrorKind::CleanupFailed, "restore /sys/power/resume_offset"@),
    {
        let mut plan: Vec<SysfsWrite> = Vec::new();
        plan.push(sysfs_write(SYS_RESUME, resume, ErrorKind::CleanupFailed, "restore /sys/power/resume"));
        plan.push(sysfs_write(SYS_RESUME_OFFSET, resume_offset, ErrorKind::CleanupFailed, "restore /sys/power/resume_offset"));
        plan
    }

    /// The writes that clear the resume pointers: device `0:0`, offset `0`.
    pub fn clear() -> (plan: Vec<SysfsWrite>)
        ensures
            plan@.len() == 2,
            is_write(plan@[0], SYS_RESUME@, "0:0"@, ErrorKind::CleanupFailed, "restore /sys/power/resume"@),
            is_write(plan@[1], SYS_RESUME_OFFSET@, "0"@, ErrorKind::CleanupFailed, "restore /sys/power/resume_offset"@),
    {
        Self::restore("0:0", "0")
    }
}

/// Performs a plan of sysfs writes in order; the first failed write stops it
/// and is reported under its own category and context, the write error kept
/// as the cause.
#[derive(Debug)]
pub struct PlanRun {
    pub writes: Vec<SysfsWrite>,
    /// The write whose outcome is awaited.
    pub next: usize,
    pub finished: bool,
}

impl PlanRun {
    /// The answer the run waits for: the outcome of the pending write.
    pub open spec fn expects(self, ev: Event) -> bool {
        !self.finished && ev is Done
    }

    /// The invariant of the run: while it goes on, a write is pending.
    pub open spec fn wf(self) -> bool {
        !self.finished ==> self.next < self.writes@.len()
    }

    /// One step: from `pre`, the outcome `ev` of the pending write leads to
    /// `post` and the request `a`.
    pub open spec fn transition(pre: Self, ev: Event, post: Self, a: Action) -> bool {
        &&& post.writes@ == pre.writes@
        &&& match ev {
            Event::Done(Ok(_)) => {
                &&& post.next == pre.next + 1
                &&& if post.next < pre.writes@.len() {
                    !post.finished && a == (Action::WriteSysfs { write: pre.writes@[post.next as int] })
                } else {
                    post.finished && succeeds(a)
                }
            },
            Event::Done(Err(m)) => {
                let w = pre.writes@[pre.next as int];
                &&& post.finished
                &&& post.next == pre.next
                &&& fails_because(a, w.kind, w.context@, m)
            },
            _ => false,
        }
    }

    /// Starts performing `writes`: the first request is the first write, or
    /// success when there is none.
    pub fn start(writes: Vec<SysfsWrite>) -> (r: (PlanRun, Action))
        ensures
            r.0.writes@ == writes@,
            r.0.wf(),
            r.0.next == 0,
            writes@.len() == 0 ==> r.0.finished && succeeds(r.1),
            writes@.len() > 0 ==> !r.0.finished && r.1 == (Action::WriteSysfs { write: writes@[0] }),
    {
        if writes.len() == 0 {
            (PlanRun { writes, next: 0, finished: true }, Action::Finish { result: Ok(()) })
        } else {
            let first = writes[0].clone();
            (PlanRun { writes, next: 0, finished: false }, Action::WriteSysfs { write: first })
        }
    }

    /// Reports the outcome of the pending write; returns the next request.
    pub fn step(&mut self, ev: Event) -> (a: Action)
        requires
            old(self).expects(ev),
            old(self).wf(),
        ensures
            Self::transition(*old(self), ev, *final(self), a),
            final(self).wf(),
    {
        match ev {
            Event::Done(Err(m)) => {
                let w = &self.writes[self.next];
                let e = HibernateError::with_cause(w.kind, w.context.clone(), m);
                self.finished = true;
                Action::Finish { result: Err(e) }
            },
            _ => {
                let n = self.writes.len();
                assert(self.next < n);
                self.next = self.next + 1;
                if self.next < n {
                    Action::WriteSysfs { write: self.writes[self.next].clone() }
                } else {
                    self.finished = true;
                    Action::Finish { result: Ok(()) }
                }
            },
        }
    }
}

/// A failed write ends its plan: the run asks for nothing more, and reports
/// that write's category and context with the failure as the cause.
pub proof fn law_plan_stops_at_first_failure(pre: PlanRun, m: String, post: PlanRun, a: Action)
    requires
        pre.wf(),
        PlanRun::transition(pre, Event::Done(Err(m)), post, a),
    ensures
        forall|ev: Event| !post.expects(ev),
        fails_because(a, pre.writes@[pre.next as int].kind, pre.writes@[pre.next as int].context@, m),
{
}

/// Restoring the resume pointers: when the device write fails, the offset is
/// not written and the run fails with `restore /sys/power/resume`.
pub proof fn law_failed_device_restore_skips_offset(
    resume: Seq<char>,
    resume_offset: Seq<char>,
    s0: PlanRun,
    m: String,
    s1: PlanRun,
    a1: Action,
)
    requires
        s0.writes@.len() == 2,
        is_write(s0.writes@[0], SYS_RESUME@, resume, ErrorKind::CleanupFailed, "restore /sys/power/resume"@),
        is_write(s0.writes@[1], SYS_RESUME_OFFSET@, resume_offset, ErrorKind::CleanupFailed, "restore /sys/power/resume_offset"@),
        s0.next == 0,
        PlanRun::transition(s0, Event::Done(Err(m)), s1, a1),
    ensures
        s1.finished,
        !(a1 is WriteSysfs),
        fails_because(a1, ErrorKind::CleanupFailed, "restore /sys/power/resume"@, m),
{
}

/// The hibernation image size limit (`/sys/power/image_size`).
pub struct ImageSize;

impl ImageSize {
    /// The write that sets it to `0`, which makes the kernel drop every
    /// reclaimable page before taking the hibernation snapshot.
    pub fn set_zero() -> (w: SysfsWrite)
        ensures
            is_write(w, SYS_IMAGE_SIZE@, "0\n"@, ErrorKind::ResumeConfigFailed, "write /sys/power/image_size"@),
    {
        sysfs_write(SYS_IMAGE_SIZE, "0\n", ErrorKind::ResumeConfigFailed, "write /sys/power/image_size")
    }
}

// ── /proc/mounts ─────────────────────────────────────────────────────────────

pub open spec fn is_ascii_digit(b: u8) -> bool {
    48 <= b && b <= 57
}

/// The byte a `\ooo` escape starting at `i` stands for: three octal digits
/// whose value fits in a byte; `None` when no such escape starts there.
pub open spec fn octal_escape(b: Seq<u8>, i: int) -> Option<u8> {
    if 0 <= i && b[i] == 92 && i + 3 < b.len() && is_ascii_digit(b[i + 1]) && is_ascii_digit(
        b[i + 2],
    ) && is_ascii_digit(b[i + 3]) {
        let d1 = b[i + 1] - 48;
        let d2 = b[i + 2] - 48;
        let d3 = b[i + 3] - 48;
        let v = d1 * 64 + d2 * 8 + d3;
        if d1 < 8 && d2 < 8 && d3 < 8 && v <= 255 {
            Some(v as u8)
        } else {
            None
        }
    } else {
        None
    }
}

/// The bytes from position `i` on, with every octal escape replaced by its byte.
pub open spec fn unescape_from(b: Seq<u8>, i: int) -> Seq<u8>
    decreases b.len() - i,
{
    if i < 0 || i >= b.len() {
        Seq::empty()
    } else {
        match octal_escape(b, i) {
            Some(v) => seq![v] + unescape_from(b, i + 4),
            None => seq![b[i]] + unescape_from(b, i + 1),
        }
    }
}

/// What a `/proc/mounts` field denotes: its octal escapes (`\040` for a space)
/// decoded, the bytes then read as UTF-8 with invalid sequences replaced.
pub open spec fn unescaped(s: Seq<char>) -> Seq<char> {
    utf8_lossy(unescape_from(encode_utf8(s), 0))
}

proof fn lemma_unescape_step(b: Seq<u8>, i: int, out: Seq<u8>)
    requires
        0 <= i < b.len(),
        unescape_from(b, 0) == out + unescape_from(b, i),
    ensures
        octal_escape(b, i) matches Some(v) ==> unescape_from(b, 0) == out.push(v) + unescape_from(b, i + 4),
        octal_escape(b, i) is None ==> unescape_from(b, 0) == out.push(b[i]) + unescape_from(b, i + 1),
{
    match octal_escape(b, i) {
        Some(v) => {
            assert(out + unescape_from(b, i) == out.push(v) + unescape_from(b, i + 4));
        },
        None => {
            assert(out + unescape_from(b, i) == out.push(b[i]) + unescape_from(b, i + 1));
        },
    }
}

/// Decodes the octal escapes of a `/proc/mounts` field; when the decoded
/// bytes are valid UTF-8 the result is exactly the text they encode, and a
/// field without backslashes comes back unchanged.
pub fn decode_octal_escapes(s: &str) -> (r: String)
    ensures
        r@ == unescaped(s@),
        valid_utf8(unescape_from(encode_utf8(s@), 0)) ==> r@ == decode_utf8(
            unescape_from(encode_utf8(s@), 0),
        ),
        no_backslash(s@) ==> r@ == s@,
{
    let bytes = s.as_bytes();
    let n = bytes.len();
    let mut out: Vec<u8> = Vec::new();
    let mut i: usize = 0;
    assert(out@ + unescape_from(bytes@, 0) == unescape_from(bytes@, 0));
    while i < n
        invariant
            bytes@ == encode_utf8(s@),
            n == bytes@.len(),
            i <= n,
            unescape_from(bytes@, 0) == out@ + unescape_from(bytes@, i as int),
        decreases n - i,
    {
        proof {
            lemma_unescape_step(bytes@, i as int, out@);
        }
        if bytes[i] == 92 && n >= 4 && i < n - 3 && 48 <= bytes[i + 1] && bytes[i + 1] <= 57 && 48
            <= bytes[i + 2] && bytes[i + 2] <= 57 && 48 <= bytes[i + 3] && bytes[i + 3] <= 57 {
            let d1 = bytes[i + 1] - 48;
            let d2 = bytes[i + 2] - 48;
            let d3 = bytes[i + 3] - 48;
            if d1 < 8 && d2 < 8 && d3 < 8 && d1 < 4 {
                let v: u8 = d1 * 64 + d2 * 8 + d3;
                out.push(v);
                i = i + 4;
                continue;
            }
        }
        out.push(bytes[i]);
        i = i + 1;
    }
    assert(unescape_from(bytes@, i as int) == Seq::<u8>::empty());
    assert(out@ + Seq::<u8>::empty() == out@);
    proof {
        if no_backslash(s@) {
            law_plain_mount_point_unchanged(s@);
        }
    }
    from_utf8_lossy(out.as_slice())
}

proof fn lemma_unescape_plain_from(b: Seq<u8>, i: int)
    requires
        0 <= i <= b.len(),
        forall|k: int| 0 <= k < b.len() ==> b[k] != 92,
    ensures
        unescape_from(b, i) == b.skip(i),
    decreases b.len() - i,
{
    if i < b.len() {
        lemma_unescape_plain_from(b, i + 1);
        assert(b.skip(i) == seq![b[i]] + b.skip(i + 1));
    } else {
        assert(b.skip(i) == Seq::<u8>::empty());
    }
}

proof fn lemma_scalar_bytes_not_backslash(v: u32)
    requires
        v != 92,
    ensures
        forall|k: int| 0 <= k < encode_scalar(v).len() ==> encode_scalar(v)[k] != 92,
{
    let lead1 = (v & 0x7F) as u8;
    let lead2 = 0xC0u8 | ((v >> 6u32) & 0x1F) as u8;
    let lead3 = 0xE0u8 | ((v >> 12u32) & 0x0F) as u8;
    let lead4 = 0xF0u8 | ((v >> 18u32) & 0x7) as u8;
    let c0 = 0x80u8 | (v & 0x3F) as u8;
    let c1 = 0x80u8 | ((v >> 6u32) & 0x3F) as u8;
    let c2 = 0x80u8 | ((v >> 12u32) & 0x3F) as u8;
    assert(v <= 0x7F ==> lead1 != 92) by (bit_vector)
        requires
            v != 92,
            lead1 == (v & 0x7F) as u8,
    ;
    assert(lead2 != 92) by (bit_vector)
        requires
            lead2 == 0xC0u8 | ((v >> 6u32) & 0x1F) as u8,
    ;
    assert(lead3 != 92) by (bit_vector)
        requires
            lead3 == 0xE0u8 | ((v >> 12u32) & 0x0F) as u8,
    ;
    assert(lead4 != 92) by (bit_vector)
        requires
            lead4 == 0xF0u8 | ((v >> 18u32) & 0x7) as u8,
    ;
    assert(c0 != 92 && c1 != 92 && c2 != 92) by (bit_vector)
        requires
            c0 == 0x80u8 | (v & 0x3F) as u8,
            c1 == 0x80u8 | ((v >> 6u32) & 0x3F) as u8,
            c2 == 0x80u8 | ((v >> 12u32) & 0x3F) as u8,
    ;
}

proof fn lemma_encoding_has_no_backslash(s: Seq<char>)
    requires
        forall|k: int| 0 <= k < s.len() ==> s[k] != '\\',
    ensures
        forall|k: int| 0 <= k < encode_utf8(s).len() ==> encode_utf8(s)[k] != 92,
    decreases s.len(),
{
    if s.len() > 0 {
        let rest = s.drop_first();
        lemma_encoding_has_no_backslash(rest);
        let u = s[0] as u32;
        if u == 92 {
            vstd::utf8::char_u32_cast(s[0], u);
            vstd::utf8::char_u32_cast('\\', u);
        }
        assert(u != 92);
        lemma_scalar_bytes_not_backslash(s[0] as u32);
        let head = encode_scalar(s[0] as u32);
        assert(encode_utf8(s) == head + encode_utf8(rest));
        assert forall|k: int| 0 <= k < encode_utf8(s).len() implies encode_utf8(s)[k] != 92 by {
            if k < head.len() {
                assert(encode_utf8(s)[k] == head[k]);
            } else {
                assert(encode_utf8(s)[k] == encode_utf8(rest)[k - head.len()]);
            }
        }
    }
}

/// The text has no backslash, so no escape.
pub open spec fn no_backslash(s: Seq<char>) -> bool {
    forall|k: int| 0 <= k < s.len() ==> s[k] != '\\'
}

/// A mount point without backslashes holds no escape: its bytes stay as they
/// are, and they are valid UTF-8 that reads back as the same text.
pub proof fn law_plain_mount_point_unchanged(s: Seq<char>)
    requires
        no_backslash(s),
    ensures
        unescape_from(encode_utf8(s), 0) == encode_utf8(s),
        valid_utf8(encode_utf8(s)),
        decode_utf8(encode_utf8(s)) == s,
{
    broadcast use vstd::utf8::encode_utf8_decode_utf8, vstd::utf8::encode_utf8_valid_utf8;
    lemma_encoding_has_no_backslash(s);
    lemma_unescape_plain_from(encode_utf8(s), 0);
    assert(encode_utf8(s).skip(0) == encode_utf8(s));
}

/// A `/proc/mounts` line: its source and its decoded mount point, when it has
/// at least two fields.
pub open spec fn mount_line(line: Seq<char>) -> Option<(Seq<char>, Seq<char>)> {
    let cols = words(line);
    if cols.len() >= 2 {
        Some((cols[0], unescaped(cols[1])))
    } else {
        None
    }
}

/// Parses one `/proc/mounts` line into (source, mount point).
pub fn parse_mount_line(line: &str) -> (r: Option<(String, String)>)
    ensures
        match r {
            Some((src, mp)) => {
                &&& mount_line(line@) == Some((src@, mp@))
                &&& valid_utf8(unescape_from(encode_utf8(words(line@)[1]), 0)) ==> mp@
                    == decode_utf8(unescape_from(encode_utf8(words(line@)[1]), 0))
            },
            None => mount_line(line@) is None,
        },
{
    let cols = split_whitespace(line);
    if cols.len() < 2 {
        return None;
    }
    let source = cols[0].clone();
    let mp = decode_octal_escapes(cols[1].as_str());
    Some((source, mp))
}


/// The result of `Path::starts_with`: `base`'s path components are a prefix of
/// `path`'s.
pub uninterp spec fn path_prefix(path: Seq<char>, base: Seq<char>) -> bool;

/// Calls `std::path::Path::starts_with`; the result is named `path_prefix`.
#[verifier::external_body]
fn path_starts_with(path: &str, base: &str) -> (b: bool)
    ensures
        b == path_prefix(path@, base@),
{
    std::path::Path::new(path).starts_with(base)
}

/// The length in bytes of a text's UTF-8 encoding.
pub open spec fn byte_len(s: Seq<char>) -> nat {
    encode_utf8(s).len()
}

/// Among the parsed mount lines, the index of the mount that covers `abs` with
/// the longest mount point (in bytes), the last one among equals.
pub open spec fn best_cover(ms: Seq<Option<(Seq<char>, Seq<char>)>>, abs: Seq<char>) -> Option<int>
    decreases ms.len(),
{
    if ms.len() == 0 {
        None
    } else {
        let prev = best_cover(ms.drop_last(), abs);
        match ms.last() {
            Some((_, mp)) => if path_prefix(abs, mp) {
                match prev {
                    Some(b) => if byte_len(mp) >= byte_len(mount_point_of(ms[b])) {
                        Some(ms.len() - 1)
                    } else {
                        Some(b)
                    },
                    None => Some(ms.len() - 1),
                }
            } else {
                prev
            },
            None => prev,
        }
    }
}

/// The mount point of a parsed line.
pub open spec fn mount_point_of(m: Option<(Seq<char>, Seq<char>)>) -> Seq<char> {
    match m {
        Some((_, mp)) => mp,
        None => Seq::empty(),
    }
}

/// The source of a parsed line.
pub open spec fn source_of(m: Option<(Seq<char>, Seq<char>)>) -> Seq<char> {
    match m {
        Some((src, _)) => src,
        None => Seq::empty(),
    }
}

/// The parsed lines of a `/proc/mounts` text.
pub open spec fn mounts_of(text: Seq<char>) -> Seq<Option<(Seq<char>, Seq<char>)>> {
    segments(text).map_values(|l: Seq<char>| mount_line(l))
}

/// The source of the mount that holds the canonical path `abs`: the covering
/// mount with the longest mount point (the last listed among equals).
pub open spec fn backing_source(abs: Seq<char>, mounts: Seq<char>) -> Option<Seq<char>> {
    match best_cover(mounts_of(mounts), abs) {
        Some(b) => Some(source_of(mounts_of(mounts)[b])),
        None => None,
    }
}

/// Finds the mount source backing the canonical path `abs` in a
/// `/proc/mounts` text; a `DeviceLookupFailed` error when no mount covers it.
pub fn select_backing_source(abs: &str, mounts: &str) -> (r: HibernateResult<String>)
    ensures
        match backing_source(abs@, mounts@) {
            Some(src) => r matches Ok(s) && s@ == src,
            None => r matches Err(e) && e.kind == ErrorKind::DeviceLookupFailed && e.message@
                == "no mount covers "@ + abs@,
        },
{
    let lines = split_lines(mounts);
    let ghost ms = mounts_of(mounts@);
    let mut best: Option<(usize, String, usize)> = None;
    let mut i: usize = 0;
    while i < lines.len()
        invariant
            ms == mounts_of(mounts@),
            lines@.len() == segments(mounts@).len(),
            forall|k: int| 0 <= k < lines@.len() ==> #[trigger] lines@[k]@ == segments(mounts@)[k],
            ms.len() == lines@.len(),
            i <= lines@.len(),
            match best {
                Some((b, src, len)) => {
                    &&& best_cover(ms.take(i as int), abs@) == Some(b as int)
                    &&& b < i
                    &&& ms[b as int] is Some
                    &&& src@ == source_of(ms[b as int])
                    &&& len == byte_len(mount_point_of(ms[b as int]))
                },
                None => best_cover(ms.take(i as int), abs@) is None,
            },
        decreases lines@.len() - i,
    {
        assert(ms.take(i + 1).drop_last() == ms.take(i as int));
        assert(ms[i as int] == mount_line(lines@[i as int]@));
        let parsed = parse_mount_line(lines[i].as_str());
        assert(ms.take(i + 1).last() == ms[i as int]);
        match parsed {
            Some((src, mp)) => {
                assert(ms[i as int] == Some((src@, mp@)));
                assert(source_of(ms[i as int]) == src@);
                assert(mount_point_of(ms[i as int]) == mp@);
                if path_starts_with(abs, mp.as_str()) {
                    let len = mp.as_str().as_bytes().len();
                    match &best {
                        Some((b, _, blen)) => {
                            assert(ms.take(i as int)[*b as int] == ms[*b as int]);
                            assert(ms.take(i + 1)[*b as int] == ms[*b as int]);
                            assert(best_cover(ms.take(i + 1), abs@) == if len >= *blen {
                                Some(i as int)
                            } else {
                                Some(*b as int)
                            });
                            if len >= *blen {
                                best = Some((i, src, len));
                            }
                        },
                        None => {
                            best = Some((i, src, len));
                        },
                    }
                }
            },
            None => {},
        }
        i = i + 1;
    }
    assert(ms.take(lines@.len() as int) == ms);
    match best {
        Some((_, src, _)) => Ok(src),
        None => {
            let mut msg = String::from_str("no mount covers ");
            msg.append(abs);
            Err(HibernateError::new(ErrorKind::DeviceLookupFailed, msg))
        },
    }
}

// ── Device numbers ────────────────────────────────────────────────────────────

/// The major number of a `dev_t`: bits 8–19, with bits 44 and up above them.
pub open spec fn dev_major(rdev: u64) -> u64 {
    ((rdev >> 8u64) & 0xfffu64) | ((rdev >> 32u64) & !0xfffu64)
}

/// The minor number of a `dev_t`: bits 0–7, with everything from bit 20 up
/// (major bits 32 and up included) shifted down by 12 above them.
pub open spec fn dev_minor(rdev: u64) -> u64 {
    (rdev & 0xffu64) | ((rdev >> 12u64) & !0xffu64)
}

/// The `major:minor` form the kernel accepts in `/sys/power/resume`.
pub open spec fn device_text(rdev: u64) -> Seq<char> {
    decimal(dev_major(rdev) as nat) + ":"@ + decimal(dev_minor(rdev) as nat)
}

/// Formats a device number as `major:minor`.
pub fn device_id(rdev: u64) -> (s: String)
    ensures
        s@ == device_text(rdev),
{
    let major = ((rdev >> 8) & 0xfff) | ((rdev >> 32) & !0xfff_u64);
    let minor = (rdev & 0xff) | ((rdev >> 12) & !0xff_u64);
    let mut s = decimal_string(major);
    s.append(":");
    let m = decimal_string(minor);
    s.append(m.as_str());
    s
}


// ── Resume offset of a btrfs swapfile ────────────────────────────────────────

/// What `btrfs inspect-internal map-swapfile -r` reports: on success its
/// trimmed output, else a `ResumeConfigFailed` error quoting its trimmed
/// error output.
pub open spec fn offset_report(o: CommandOutcome) -> Result<Seq<char>, Seq<char>> {
    if o.succeeded() {
        Ok(trim(utf8_lossy(o.stdout@)))
    } else {
        Err("btrfs map-swapfile failed: "@ + trim(utf8_lossy(o.stderr@)))
    }
}

/// Interprets a finished `btrfs inspect-internal map-swapfile -r` run.
pub fn swap_offset_from_output(o: &CommandOutcome) -> (r: HibernateResult<String>)
    ensures
        match offset_report(*o) {
            Ok(t) => r matches Ok(s) && s@ == t,
            Err(m) => r matches Err(e) && e.kind == ErrorKind::ResumeConfigFailed && e.message@ == m,
        },
{
    if o.success() {
        let out = from_utf8_lossy(o.stdout.as_slice());
        Ok(trimmed(out.as_str()))
    } else {
        let err = from_utf8_lossy(o.stderr.as_slice());
        let mut msg = String::from_str("btrfs map-swapfile failed: ");
        let t = trimmed(err.as_str());
        msg.append(t.as_str());
        Err(HibernateError::new(ErrorKind::ResumeConfigFailed, msg))
    }
}

// ── Configuring resume for a swapfile ────────────────────────────────────────

/// The action reads the sysfs file `p`.
pub open spec fn reads_sysfs(a: Action, p: Seq<char>) -> bool {
    a matches Action::ReadSysfs { path } && path@ == p
}

/// The value read from a resume file, or `fallback` when it could not be read.
pub open spec fn read_or(r: Result<String, String>, fallback: Seq<char>) -> Seq<char> {
    match r {
        Ok(s) => trim(s@),
        Err(_) => fallback,
    }
}

/// Where a resume configuration stands.
#[derive(Debug, Clone, Copy, PartialEq, Eq, Structural)]
pub enum ResumeConfigStage {
    LocatingDevice,
    MappingOffset,
    ReadingResume,
    WritingResume,
    WritingOffset,
    RollingBack,
    Finished,
}

/// Points `/sys/power/resume` and `/sys/power/resume_offset` at a swapfile,
/// both or neither.
///
/// The backing device and the file's resume offset are both found, and the
/// current resume device is read (`0:0` when unreadable), before anything is
/// written. The device is written first; when writing the offset then fails,
/// the resume device is rolled back to the value read (a failed rollback is
/// only reported) and the offset error is returned.
#[derive(Debug)]
pub struct ResumeConfig {
    pub swap_file: String,
    pub device: String,
    pub offset: String,
    pub saved_resume: String,
    pub pending: Option<HibernateError>,
    pub stage: ResumeConfigStage,
}

/// The arguments of the offset query for `file`.
pub open spec fn map_swapfile_args(file: Seq<char>) -> Seq<Seq<char>> {
    seq!["inspect-internal"@, "map-swapfile"@, "-r"@, file]
}

impl ResumeConfig {
    /// The answer the machine waits for in its stage.
    pub open spec fn expects(self, ev: Event) -> bool {
        match self.stage {
            ResumeConfigStage::LocatingDevice => ev is Device,
            ResumeConfigStage::MappingOffset => ev is Ran,
            ResumeConfigStage::ReadingResume => ev is Read,
            ResumeConfigStage::WritingResume => ev is Done,
            ResumeConfigStage::WritingOffset => ev is Done,
            ResumeConfigStage::RollingBack => ev is Done,
            ResumeConfigStage::Finished => false,
        }
    }

    /// One step: from `pre`, the answer `ev` leads to `post` and the request `a`.
    pub open spec fn transition(pre: Self, ev: Event, post: Self, a: Action) -> bool {
        &&& post.swap_file == pre.swap_file
        &&& match (pre.stage, ev) {
            (ResumeConfigStage::LocatingDevice, Event::Device(Err(e))) => {
                post.stage == ResumeConfigStage::Finished && finishes_with(a, e)
            },
            (ResumeConfigStage::LocatingDevice, Event::Device(Ok(d))) => {
                &&& post.stage == ResumeConfigStage::MappingOffset
                &&& post.device@ == d@
                &&& is_run(a, "btrfs"@, map_swapfile_args(pre.swap_file@), StdioMode::Capture)
            },
            (ResumeConfigStage::MappingOffset, Event::Ran(Err(m))) => {
                post.stage == ResumeConfigStage::Finished && fails_because(
                    a,
                    ErrorKind::ResumeConfigFailed,
                    "exec btrfs map-swapfile"@,
                    m,
                )
            },
            (ResumeConfigStage::MappingOffset, Event::Ran(Ok(o))) => match offset_report(o) {
                Ok(off) => {
                    &&& post.stage == ResumeConfigStage::ReadingResume
                    &&& post.device == pre.device
                    &&& post.offset@ == off
                    &&& reads_sysfs(a, SYS_RESUME@)
                },
                Err(m) => post.stage == ResumeConfigStage::Finished && fails_with(
                    a,
                    ErrorKind::ResumeConfigFailed,
                    m,
                ),
            },
            (ResumeConfigStage::ReadingResume, Event::Read(r)) => {
                &&& post.stage == ResumeConfigStage::WritingResume
                &&& post.device == pre.device
                &&& post.offset == pre.offset
                &&& post.saved_resume@ == read_or(r, "0:0"@)
                &&& a matches Action::WriteSysfs { write: w } && is_write(
                    w,
                    SYS_RESUME@,
                    pre.device@,
                    ErrorKind::ResumeConfigFailed,
                    "write /sys/power/resume"@,
                )
            },
            (ResumeConfigStage::WritingResume, Event::Done(Err(m))) => {
                post.stage == ResumeConfigStage::Finished && fails_because(
                    a,
                    ErrorKind::ResumeConfigFailed,
                    "write /sys/power/resume"@,
                    m,
                )
            },
            (ResumeConfigStage::WritingResume, Event::Done(Ok(_))) => {
                &&& post.stage == ResumeConfigStage::WritingOffset
                &&& post.offset == pre.offset
                &&& post.saved_resume == pre.saved_resume
                &&& a matches Action::WriteSysfs { write: w } && is_write(
                    w,
                    SYS_RESUME_OFFSET@,
                    pre.offset@,
                    ErrorKind::ResumeConfigFailed,
                    "write /sys/power/resume_offset"@,
                )
            },
            (ResumeConfigStage::WritingOffset, Event::Done(Ok(_))) => {
                post.stage == ResumeConfigStage::Finished && succeeds(a)
            },
            (ResumeConfigStage::WritingOffset, Event::Done(Err(m))) => {
                &&& post.stage == ResumeConfigStage::RollingBack
                &&& post.pending matches Some(e) && e.kind == ErrorKind::ResumeConfigFailed
                    && e.message@ == "write /sys/power/resume_offset"@ && e.cause == Some(m)
                &&& a matches Action::WriteSysfs { write: w } && w.path@ == SYS_RESUME@ && w.value@
                    == pre.saved_resume@
            },
            (ResumeConfigStage::RollingBack, Event::Done(_)) => {
                &&& post.stage == ResumeConfigStage::Finished
                &&& pre.pending matches Some(e) && finishes_with(a, e)
            },
            _ => false,
        }
        &&& post.stage == ResumeConfigStage::RollingBack ==> post.pending is Some
    }

    /// The invariant of the machine: a pending error exactly while rolling back.
    pub open spec fn wf(self) -> bool {
        self.stage == ResumeConfigStage::RollingBack ==> self.pending is Some
    }

    /// Reports the outcome of the last request; returns the next request.
    pub fn step(&mut self, ev: Event) -> (a: Action)
        requires
            old(self).expects(ev),
            old(self).wf(),
        ensures
            Self::transition(*old(self), ev, *final(self), a),
            final(self).wf(),
    {
        match ev {
            Event::Device(Err(e)) => {
                self.stage = ResumeConfigStage::Finished;
                Action::Finish { result: Err(e) }
            },
            Event::Device(Ok(d)) => {
                self.device = d;
                self.stage = ResumeConfigStage::MappingOffset;
                let args = ["inspect-internal", "map-swapfile", "-r", self.swap_file.as_str()];
                assert(str_texts(args@) =~= map_swapfile_args(self.swap_file@));
                run_tool("btrfs", &args, StdioMode::Capture)
            },
            Event::Ran(Err(m)) => {
                self.stage = ResumeConfigStage::Finished;
                Action::Finish {
                    result: Err(
                        HibernateError::with_cause(
                            ErrorKind::ResumeConfigFailed,
                            "exec btrfs map-swapfile".to_string(),
                            m,
                        ),
                    ),
                }
            },
            Event::Ran(Ok(o)) => match swap_offset_from_output(&o) {
                Ok(off) => {
                    self.offset = off;
                    self.stage = ResumeConfigStage::ReadingResume;
                    Action::ReadSysfs { path: SYS_RESUME.to_string() }
                },
                Err(e) => {
                    self.stage = ResumeConfigStage::Finished;
                    Action::Finish { result: Err(e) }
                },
            },
            Event::Read(r) => {
                self.saved_resume = match ResumeParams::read_resume(r) {
                    Ok(v) => v,
                    Err(_) => "0:0".to_string(),
                };
                self.stage = ResumeConfigStage::WritingResume;
                Action::WriteSysfs {
                    write: sysfs_write(
                        SYS_RESUME,
                        self.device.as_str(),
                        ErrorKind::ResumeConfigFailed,
                        "write /sys/power/resume",
                    ),
                }
            },
            Event::Done(r) => {
                match self.stage {
                    ResumeConfigStage::WritingResume => match r {
                        Ok(_) => {
                            self.stage = ResumeConfigStage::WritingOffset;
                            Action::WriteSysfs {
                                write: sysfs_write(
                                    SYS_RESUME_OFFSET,
                                    self.offset.as_str(),
                                    ErrorKind::ResumeConfigFailed,
                                    "write /sys/power/resume_offset",
                                ),
                            }
                        },
                        Err(m) => {
                            self.stage = ResumeConfigStage::Finished;
                            Action::Finish {
                                result: Err(
                                    HibernateError::with_cause(
                                        ErrorKind::ResumeConfigFailed,
                                        "write /sys/power/resume".to_string(),
                                        m,
                                    ),
                                ),
                            }
                        },
                    },
                    ResumeConfigStage::WritingOffset => match r {
                        Ok(_) => {
                            self.stage = ResumeConfigStage::Finished;
                            Action::Finish { result: Ok(()) }
                        },
                        Err(m) => {
                            self.pending = Some(
                                HibernateError::with_cause(
                                    ErrorKind::ResumeConfigFailed,
                                    "write /sys/power/resume_offset".to_string(),
                                    m,
                                ),
                            );
                            self.stage = ResumeConfigStage::RollingBack;
                            Action::WriteSysfs {
                                write: sysfs_write(
                                    SYS_RESUME,
                                    self.saved_resume.as_str(),
                                    ErrorKind::ResumeConfigFailed,
                                    "resume rollback failed",
                                ),
                            }
                        },
                    },
                    _ => {
                        self.stage = ResumeConfigStage::Finished;
                        let e = match &self.pending {
                            Some(e) => e.clone(),
                            None => HibernateError::new(ErrorKind::Unknown, String::new()),
                        };
                        Action::Finish { result: Err(e) }
                    },
                }
            },
            _ => {
                self.stage = ResumeConfigStage::Finished;
                Action::Finish { result: Ok(()) }
            },
        }
    }
}

impl ResumeParams {
    /// Starts pointing the kernel's resume pointers at `swap_file`: the first
    /// request is to find the device that backs it.
    pub fn configure_for_swapfile(swap_file: &str) -> (r: (ResumeConfig, Action))
        ensures
            r.0.stage == ResumeConfigStage::LocatingDevice,
            r.0.swap_file@ == swap_file@,
            r.0.wf(),
            r.1 matches Action::FindBackingDevice { path } && path@ == swap_file@,
    {
        (
            ResumeConfig {
                swap_file: swap_file.to_string(),
                device: String::new(),
                offset: String::new(),
                saved_resume: String::new(),
                pending: None,
                stage: ResumeConfigStage::LocatingDevice,
            },
            Action::FindBackingDevice { path: swap_file.to_string() },
        )
    }
}

impl ResumeConfig {
    /// How many answers the configuration can still take.
    pub open spec fn rank(self) -> nat {
        match self.stage {
            ResumeConfigStage::LocatingDevice => 6,
            ResumeConfigStage::MappingOffset => 5,
            ResumeConfigStage::ReadingResume => 4,
            ResumeConfigStage::WritingResume => 3,
            ResumeConfigStage::WritingOffset => 2,
            ResumeConfigStage::RollingBack => 1,
            ResumeConfigStage::Finished => 0,
        }
    }
}

/// Every answer moves the configuration forward: it ends after at most six
/// requests, and it has ended exactly when it asks to finish.
pub proof fn law_resume_config_terminates(pre: ResumeConfig, ev: Event, post: ResumeConfig, a: Action)
    requires
        ResumeConfig::transition(pre, ev, post, a),
    ensures
        post.rank() < pre.rank(),
        post.stage == ResumeConfigStage::Finished <==> a is Finish,
{
}

/// Nothing is written before the device and the offset are known and the
/// current resume device has been read, and a configuration succeeds only
/// once the offset write (after the device write) succeeded.
pub proof fn law_resume_written_after_discovery(pre: ResumeConfig, ev: Event, post: ResumeConfig, a: Action)
    requires
        ResumeConfig::transition(pre, ev, post, a),
    ensures
        a is WriteSysfs ==> pre.stage != ResumeConfigStage::LocatingDevice && pre.stage
            != ResumeConfigStage::MappingOffset,
        post.stage == ResumeConfigStage::ReadingResume ==> (pre.stage
            == ResumeConfigStage::MappingOffset && (ev matches Event::Ran(Ok(o)) && o.succeeded())),
        post.stage == ResumeConfigStage::WritingResume ==> (pre.stage
            == ResumeConfigStage::ReadingResume && ev is Read),
        post.stage == ResumeConfigStage::WritingOffset ==> (pre.stage
            == ResumeConfigStage::WritingResume && (ev matches Event::Done(Ok(_)))),
        succeeds(a) ==> (pre.stage == ResumeConfigStage::WritingOffset && (ev matches Event::Done(
            Ok(_),
        ))),
{
}

/// When writing the offset fails, the resume device is rolled back to the
/// value saved before it was written, and then the offset failure is
/// reported, whatever the rollback gave.
pub proof fn law_failed_offset_rolls_back(
    s0: ResumeConfig,
    ev1: Event,
    s1: ResumeConfig,
    a1: Action,
    ev2: Event,
    s2: ResumeConfig,
    a2: Action,
)
    requires
        s0.stage == ResumeConfigStage::WritingOffset,
        ev1 matches Event::Done(Err(_)),
        ResumeConfig::transition(s0, ev1, s1, a1),
        ResumeConfig::transition(s1, ev2, s2, a2),
    ensures
        a1 matches Action::WriteSysfs { write } && write.path@ == SYS_RESUME@ && write.value@
            == s0.saved_resume@,
        fails_with(a2, ErrorKind::ResumeConfigFailed, "write /sys/power/resume_offset"@),
        s2.stage == ResumeConfigStage::Finished,
{
}

/// Both pointers or neither: from the read of the current resume device on,
/// a configuration whose device write succeeded and whose offset write failed
/// writes back exactly the device value that was read (`0:0` when it could
/// not be read).
pub proof fn law_rollback_restores_read_value(
    s0: ResumeConfig,
    r: Result<String, String>,
    s1: ResumeConfig,
    a1: Action,
    ok: Result<(), String>,
    s2: ResumeConfig,
    a2: Action,
    failed: Result<(), String>,
    s3: ResumeConfig,
    a3: Action,
)
    requires
        s0.stage == ResumeConfigStage::ReadingResume,
        ok is Ok,
        failed is Err,
        ResumeConfig::transition(s0, Event::Read(r), s1, a1),
        ResumeConfig::transition(s1, Event::Done(ok), s2, a2),
        ResumeConfig::transition(s2, Event::Done(failed), s3, a3),
    ensures
        a1 matches Action::WriteSysfs { write } && write.path@ == SYS_RESUME@ && write.value@
            == s0.device@,
        a2 matches Action::WriteSysfs { write } && write.path@ == SYS_RESUME_OFFSET@,
        a3 matches Action::WriteSysfs { write } && write.path@ == SYS_RESUME@ && write.value@
            == read_or(r, "0:0"@),
        s3.stage == ResumeConfigStage::RollingBack,
{
}

} // verus!
