use vstd::prelude::*;
use crate::text::{chars_of, from_utf8_lossy, parse_u64, parse_u64_str, trim, trimmed, utf8_lossy};

verus! {

/// The text before the first line feed (the whole text when there is none).
pub open spec fn first_line(s: Seq<char>) -> Seq<char>
    decreases s.len(),
{
    if s.len() == 0 || s[0] == '\n' {
        Seq::<char>::empty()
    } else {
        seq![s[0]] + first_line(s.drop_first())
    }
}

/// Returns the text of `s` before its first line feed.
pub fn first_line_of(s: &str) -> (r: String)
    ensures
        r@ == first_line(s@),
{
    let v = chars_of(s);
    let n = v.len();
    let mut i: usize = 0;
    while i < n && v[i] != '\n'
        invariant
            v@ == s@,
            n == v@.len(),
            i <= n,
            forall|k: int| 0 <= k < i ==> s@[k] != '\n',
        decreases n - i,
    {
        i = i + 1;
    }
    proof {
        lemma_first_line_at(s@, i as int);
    }
    s.substring_char(0, i).to_string()
}

proof fn lemma_first_line_at(s: Seq<char>, i: int)
    requires
        0 <= i <= s.len(),
        forall|k: int| 0 <= k < i ==> s[k] != '\n',
        i == s.len() || s[i] == '\n',
    ensures
        first_line(s) == s.take(i),
    decreases i,
{
    if i > 0 {
        lemma_first_line_at(s.drop_first(), i - 1);
        assert(s.take(i) == seq![s[0]] + s.drop_first().take(i - 1));
    } else {
        assert(s.take(0) == Seq::<char>::empty());
    }
}

/// Used NVIDIA VRAM, as `nvidia-smi --query-gpu=memory.used
/// --format=csv,noheader,nounits` reported it.
///
/// The NVIDIA driver saves in-use VRAM to the hibernate image through its own
/// path, bypassing the kernel compressor, so it is added to the swapfile size
/// uncompressed. `smi_output` is the tool's standard output as bytes, or
/// `None` when `nvidia-smi` is not in `PATH`, could not be run, or exited
/// non-zero (GPU off or suspended): then no VRAM is saved and the
/// contribution is 0.
#[derive(Debug, Clone, PartialEq, Eq)]
pub struct VramProbe {
    pub smi_output: Option<Vec<u8>>,
}

/// The MiB figure on the first line of the tool's output, read as UTF-8
/// with invalid sequences replaced, if it is a number.
pub open spec fn vram_mib(output: Seq<u8>) -> Option<u64> {
    parse_u64(trim(first_line(utf8_lossy(output))))
}

impl VramProbe {
    /// The kilobytes the probe reports: 1024 per MiB on the first line, else 0.
    pub open spec fn used(self) -> int {
        match self.smi_output {
            Some(out) => match vram_mib(out@) {
                Some(mib) => mib * 1024,
                None => 0,
            },
            None => 0,
        }
    }

    /// Returns used VRAM in kilobytes, or `0` when there is no usable figure.
    pub fn used_kb(&self) -> (kb: u64)
        requires
            self.used() <= u64::MAX,
        ensures
            kb == self.used(),
    {
        match &self.smi_output {
            None => 0,
            Some(out) => {
                let text = from_utf8_lossy(out.as_slice());
                let line = first_line_of(text.as_str());
                let t = trimmed(line.as_str());
                match parse_u64_str(t.as_str()) {
                    Some(mib) => mib * 1024,
                    None => 0,
                }
            },
        }
    }
}


/// No usable `nvidia-smi` report means no VRAM to save: the contribution is
/// 0, and otherwise it is the reported MiB in kilobytes.
pub proof fn law_vram_defaults_to_zero(v: VramProbe)
    ensures
        v.smi_output is None ==> v.used() == 0,
        (v.smi_output matches Some(o) && vram_mib(o@) is None) ==> v.used() == 0,
        v.smi_output matches Some(o) ==> (vram_mib(o@) matches Some(m) ==> v.used() == m * 1024),
{
}

} // verus!
