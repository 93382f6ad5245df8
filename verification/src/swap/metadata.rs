use vstd::prelude::*;

verus! {

/// What `cleanup` needs to undo `create`: the swapfile made and the resume
/// pointers that were set before it.
#[derive(Debug, Clone, PartialEq, Eq)]
pub struct SwapMetadata {
    pub swap_file: String,
    pub old_resume: String,
    pub old_resume_offset: String,
    /// Creation time, in seconds since the Unix epoch.
    pub created_at: i64,
}

impl SwapMetadata {
    /// Records a swapfile made `now_secs` seconds after the Unix epoch; the
    /// seconds are stored as `i64` (wrapping past `i64::MAX`).
    pub fn new(swap_file: String, old_resume: String, old_resume_offset: String, now_secs: u64) -> (m: Self)
        ensures
            m.swap_file@ == swap_file@,
            m.old_resume@ == old_resume@,
            m.old_resume_offset@ == old_resume_offset@,
            m.created_at == now_secs as i64,
    {
        let created_at = #[verifier::truncate] (now_secs as i64);
        SwapMetadata { swap_file, old_resume, old_resume_offset, created_at }
    }
}

} // verus!
