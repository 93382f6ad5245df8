use vstd::prelude::*;
use crate::probe::mem::sat_sub;
use crate::text::{contains_seq, contains_str, parse_u64, parse_u64_str, split_whitespace, words};

verus! {

/// A single entry from `/proc/swaps` (all sizes in kilobytes).
#[derive(Debug, Clone, PartialEq, Eq)]
pub struct SwapEntry {
    pub path: String,
    pub size_kb: u64,
    pub used_kb: u64,
}

/// An entry as plain values: (path, size, used).
pub type EntryView = (Seq<char>, u64, u64);

pub open spec fn entry_view(e: SwapEntry) -> EntryView {
    (e.path@, e.size_kb, e.used_kb)
}

/// Free kilobytes of an entry: size minus used, floored at 0.
pub open spec fn free_of(e: EntryView) -> u64 {
    sat_sub(e.1, e.2)
}

/// zram devices are compressed RAM, useless for hibernation.
pub open spec fn zram_path(path: Seq<char>) -> bool {
    contains_seq(path, "/dev/zram"@)
}

impl SwapEntry {
    pub fn free_kb(&self) -> (kb: u64)
        ensures
            kb == free_of(entry_view(*self)),
    {
        self.size_kb.saturating_sub(self.used_kb)
    }

    pub fn is_zram(&self) -> (b: bool)
        ensures
            b == zram_path(self.path@),
    {
        contains_str(self.path.as_str(), "/dev/zram")
    }
}

/// One `/proc/swaps` line read as `Filename Type Size Used ...`: the path,
/// then (past the type) size and used as decimal numbers; `None` otherwise.
pub open spec fn swap_line(line: Seq<char>) -> Option<EntryView> {
    let cols = words(line);
    if cols.len() >= 4 && parse_u64(cols[2]) is Some && parse_u64(cols[3]) is Some {
        Some((cols[0], parse_u64(cols[2])->0, parse_u64(cols[3])->0))
    } else {
        None
    }
}

/// The non-zram entries that a run of table lines (header excluded) lists.
pub open spec fn entries_of(lines: Seq<Seq<char>>) -> Seq<EntryView>
    decreases lines.len(),
{
    if lines.len() == 0 {
        Seq::empty()
    } else {
        let rest = entries_of(lines.drop_last());
        match swap_line(lines.last()) {
            Some(e) => if zram_path(e.0) {
                rest
            } else {
                rest.push(e)
            },
            None => rest,
        }
    }
}

/// The entries a whole `/proc/swaps` text lists (its first line is the header).
pub open spec fn table_entries(lines: Seq<Seq<char>>) -> Seq<EntryView> {
    if lines.len() == 0 {
        Seq::empty()
    } else {
        entries_of(lines.drop_first())
    }
}

/// The largest free space among entries, 0 when there are none.
pub open spec fn max_free(es: Seq<EntryView>) -> u64
    decreases es.len(),
{
    if es.len() == 0 {
        0
    } else {
        let m = max_free(es.drop_last());
        if free_of(es.last()) >= m {
            free_of(es.last())
        } else {
            m
        }
    }
}

/// The index of the entry with the most free space, the last one among ties.
pub open spec fn best_index(es: Seq<EntryView>) -> Option<int>
    decreases es.len(),
{
    if es.len() == 0 {
        None
    } else {
        match best_index(es.drop_last()) {
            Some(b) => if free_of(es.last()) >= free_of(es[b]) {
                Some(es.len() - 1)
            } else {
                Some(b)
            },
            None => Some(es.len() - 1),
        }
    }
}

/// Parses one `/proc/swaps` line.
pub fn parse_swap_line(line: &str) -> (r: Option<SwapEntry>)
    ensures
        match r {
            Some(e) => swap_line(line@) == Some(entry_view(e)),
            None => swap_line(line@) is None,
        },
{
    let cols = split_whitespace(line);
    if cols.len() < 4 {
        return None;
    }
    let size_kb = match parse_u64_str(cols[2].as_str()) {
        Some(v) => v,
        None => return None,
    };
    let used_kb = match parse_u64_str(cols[3].as_str()) {
        Some(v) => v,
        None => return None,
    };
    let path = cols[0].clone();
    Some(SwapEntry { path, size_kb, used_kb })
}

/// The lines of `/proc/swaps` as read, the header first (in its place even
/// when it could not be read as text); a later line that could not be read
/// as text is left out.
#[derive(Debug, Clone, PartialEq, Eq)]
pub struct SwapProbe {
    pub lines: Vec<String>,
}

impl SwapProbe {
    pub open spec fn lines_view(self) -> Seq<Seq<char>> {
        self.lines@.map_values(|l: String| l@)
    }

    /// The active non-zram swap entries the table lists.
    pub open spec fn listed(self) -> Seq<EntryView> {
        table_entries(self.lines_view())
    }

    /// All active non-zram swap entries, in table order.
    pub fn entries(&self) -> (r: Vec<SwapEntry>)
        ensures
            r@.map_values(|e: SwapEntry| entry_view(e)) == self.listed(),
    {
        let mut out: Vec<SwapEntry> = Vec::new();
        let n = self.lines.len();
        if n == 0 {
            assert(out@.map_values(|e: SwapEntry| entry_view(e)) == self.listed());
            return out;
        }
        let ghost body = self.lines_view().drop_first();
        let mut i: usize = 1;
        while i < n
            invariant
                1 <= i <= n,
                n == self.lines@.len(),
                body == self.lines_view().drop_first(),
                out@.map_values(|e: SwapEntry| entry_view(e)) == entries_of(body.take(i - 1)),
            decreases n - i,
        {
            assert(body.take(i as int).drop_last() == body.take(i - 1));
            assert(body.take(i as int).last() == self.lines@[i as int]@);
            let parsed = parse_swap_line(self.lines[i].as_str());
            match parsed {
                Some(e) => {
                    if !e.is_zram() {
                        out.push(e);
                    }
                },
                None => {},
            }
            assert(out@.map_values(|e: SwapEntry| entry_view(e)) == entries_of(body.take(i as int)));
            i = i + 1;
        }
        assert(body.take(n - 1) == body);
        out
    }

    /// Kilobytes of free space in the largest non-zram swap entry (0 if none).
    pub fn largest_free_kb(&self) -> (kb: u64)
        ensures
            kb == max_free(self.listed()),
    {
        let es = self.entries();
        let ghost ev = es@.map_values(|e: SwapEntry| entry_view(e));
        let mut best: u64 = 0;
        let mut i: usize = 0;
        while i < es.len()
            invariant
                ev == es@.map_values(|e: SwapEntry| entry_view(e)),
                ev == self.listed(),
                i <= es@.len(),
                best == max_free(ev.take(i as int)),
            decreases es@.len() - i,
        {
            assert(ev.take(i + 1).drop_last() == ev.take(i as int));
            let f = es[i].free_kb();
            if f >= best {
                best = f;
            }
            i = i + 1;
        }
        assert(ev.take(es@.len() as int) == ev);
        best
    }

    /// Path of the non-zram swap entry with the most free space (the last such
    /// entry among equals), or `None` when there is no entry.
    pub fn largest_free_path(&self) -> (r: Option<String>)
        ensures
            match r {
                Some(p) => best_index(self.listed()) matches Some(b) && p@ == self.listed()[b].0,
                None => best_index(self.listed()) is None,
            },
    {
        let es = self.entries();
        let ghost ev = es@.map_values(|e: SwapEntry| entry_view(e));
        let mut best: Option<usize> = None;
        let mut i: usize = 0;
        while i < es.len()
            invariant
                ev == es@.map_values(|e: SwapEntry| entry_view(e)),
                ev == self.listed(),
                i <= es@.len(),
                match best {
                    Some(b) => best_index(ev.take(i as int)) == Some(b as int) && b < i,
                    None => best_index(ev.take(i as int)) is None && i == 0,
                },
            decreases es@.len() - i,
        {
            assert(ev.take(i + 1).drop_last() == ev.take(i as int));
            match best {
                Some(b) => {
                    assert(ev.take(i as int)[b as int] == ev[b as int]);
                    if es[i].free_kb() >= es[b].free_kb() {
                        best = Some(i);
                    }
                },
                None => {
                    best = Some(i);
                },
            }
            i = i + 1;
        }
        assert(ev.take(es@.len() as int) == ev);
        match best {
            Some(b) => Some(es[b].path.clone()),
            None => None,
        }
    }
}


/// The entry chosen for reuse is one with the most free space: it exists
/// exactly when some entry is listed, its free space is the largest free
/// space, and no entry has more.
pub proof fn law_best_entry_has_most_free(es: Seq<EntryView>)
    ensures
        best_index(es) is Some <==> es.len() > 0,
        best_index(es) matches Some(b) ==> 0 <= b < es.len() && free_of(es[b]) == max_free(es),
        forall|k: int| 0 <= k < es.len() ==> free_of(#[trigger] es[k]) <= max_free(es),
        es.len() == 0 ==> max_free(es) == 0,
    decreases es.len(),
{
    if es.len() > 0 {
        let init = es.drop_last();
        law_best_entry_has_most_free(init);
        assert forall|k: int| 0 <= k < es.len() implies free_of(#[trigger] es[k]) <= max_free(es) by {
            if k < es.len() - 1 {
                assert(es[k] == init[k]);
            }
        }
        if let Some(b) = best_index(init) {
            assert(es[b] == init[b]);
        }
    }
}

/// zram devices are never listed as swap entries.
pub proof fn law_zram_never_listed(lines: Seq<Seq<char>>)
    ensures
        forall|k: int| 0 <= k < entries_of(lines).len() ==> !zram_path(#[trigger] entries_of(lines)[k].0),
    decreases lines.len(),
{
    if lines.len() > 0 {
        let rest = entries_of(lines.drop_last());
        law_zram_never_listed(lines.drop_last());
        assert forall|k: int| 0 <= k < entries_of(lines).len() implies !zram_path(
            #[trigger] entries_of(lines)[k].0,
        ) by {
            if k < rest.len() {
                assert(entries_of(lines)[k] == rest[k]);
            }
        }
    }
}

} // verus!
