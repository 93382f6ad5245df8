use vstd::prelude::*;
use crate::config::{MIN_ZSWAP_SAMPLE_PAGES, PAGE_SIZE_BYTES};
use crate::text::{lowercase, opt_view, parse_u64, parse_u64_str, to_lowercase, trim, trimmed};

verus! {

/// The compressor name a parameter file shows: trimmed and lowercased.
pub open spec fn compressor_name(raw: Option<String>) -> Option<Seq<char>> {
    match raw {
        Some(r) => Some(lowercase(trim(r@))),
        None => None,
    }
}

/// The number a debugfs counter file shows, if it holds one.
pub open spec fn counter_value(raw: Option<String>) -> Option<u64> {
    match raw {
        Some(r) => parse_u64(trim(r@)),
        None => None,
    }
}

/// A compression ratio `uncompressed_bytes / compressed_bytes`, never below 1.
#[derive(Debug, Clone, Copy, PartialEq, Eq)]
pub struct CompressionRatio {
    pub uncompressed_bytes: u128,
    pub compressed_bytes: u64,
}

/// The live zswap pool as its files showed it (`None`: the file was unreadable).
///
/// zswap compresses anonymous pages with the same kernel crypto as hibernate.
/// When both use the **same compressor**, the pool's ratio is a real sample of
/// how well memory compresses. The ratio falls back to 1 (no compression
/// assumed) when the compressors differ or are unreadable, when fewer than
/// `MIN_ZSWAP_SAMPLE_PAGES` pages are stored, or when a counter is unreadable,
/// unparsable or the pool is empty.
#[derive(Debug, Clone, PartialEq, Eq)]
pub struct ZswapProbe {
    /// `/sys/module/zswap/parameters/compressor`
    pub zswap_compressor_file: Option<String>,
    /// `/sys/module/hibernate/parameters/compressor`
    pub hibernate_compressor_file: Option<String>,
    /// `/sys/kernel/debug/zswap/stored_pages`
    pub stored_pages_file: Option<String>,
    /// `/sys/kernel/debug/zswap/pool_total_size`
    pub pool_total_size_file: Option<String>,
}

impl ZswapProbe {
    /// Both compressors are readable and name the same algorithm.
    pub open spec fn aligned(self) -> bool {
        &&& compressor_name(self.zswap_compressor_file) is Some
        &&& compressor_name(self.hibernate_compressor_file) is Some
        &&& compressor_name(self.zswap_compressor_file) == compressor_name(
            self.hibernate_compressor_file,
        )
    }

    /// The sampled ratio as (uncompressed bytes, compressed bytes), or `None`
    /// when the sample is unusable.
    pub open spec fn sample(self) -> Option<(int, int)> {
        match (counter_value(self.stored_pages_file), counter_value(self.pool_total_size_file)) {
            (Some(stored), Some(pool)) => {
                if self.aligned() && stored >= MIN_ZSWAP_SAMPLE_PAGES && pool > 0 {
                    Some((stored * PAGE_SIZE_BYTES, pool as int))
                } else {
                    None
                }
            },
            _ => None,
        }
    }

    /// The ratio the probe yields: the sample when it is usable and at least 1,
    /// else exactly 1.
    pub open spec fn ratio(self) -> (int, int) {
        match self.sample() {
            Some((u, c)) => if u >= c {
                (u, c)
            } else {
                (1, 1)
            },
            None => (1, 1),
        }
    }

    fn read_trimmed(raw: &Option<String>) -> (r: Option<String>)
        ensures
            opt_view(r) == compressor_name(*raw),
    {
        match raw {
            Some(s) => {
                let t = trimmed(s.as_str());
                Some(to_lowercase(t.as_str()))
            },
            None => None,
        }
    }

    fn read_u64(raw: &Option<String>) -> (r: Option<u64>)
        ensures
            r == counter_value(*raw),
    {
        match raw {
            Some(s) => {
                let t = trimmed(s.as_str());
                parse_u64_str(t.as_str())
            },
            None => None,
        }
    }

    pub fn zswap_compressor(&self) -> (r: Option<String>)
        ensures
            opt_view(r) == compressor_name(self.zswap_compressor_file),
    {
        Self::read_trimmed(&self.zswap_compressor_file)
    }

    pub fn hibernate_compressor(&self) -> (r: Option<String>)
        ensures
            opt_view(r) == compressor_name(self.hibernate_compressor_file),
    {
        Self::read_trimmed(&self.hibernate_compressor_file)
    }

    fn stored_pages(&self) -> (r: Option<u64>)
        ensures
            r == counter_value(self.stored_pages_file),
    {
        Self::read_u64(&self.stored_pages_file)
    }

    fn pool_bytes(&self) -> (r: Option<u64>)
        ensures
            r == counter_value(self.pool_total_size_file),
    {
        Self::read_u64(&self.pool_total_size_file)
    }

    /// Returns `true` only when both compressors are readable and identical.
    pub fn compressors_aligned(&self) -> (b: bool)
        ensures
            b == self.aligned(),
    {
        match (self.zswap_compressor(), self.hibernate_compressor()) {
            (Some(z), Some(h)) => z == h,
            _ => false,
        }
    }

    /// Returns the live compression ratio (uncompressed / compressed), 1 on any
    /// failure or misalignment; never below 1.
    pub fn compression_ratio(&self) -> (r: CompressionRatio)
        ensures
            (r.uncompressed_bytes as int, r.compressed_bytes as int) == self.ratio(),
            r.compressed_bytes > 0,
            r.uncompressed_bytes >= r.compressed_bytes,
    {
        let unity = CompressionRatio { uncompressed_bytes: 1, compressed_bytes: 1 };
        if !self.compressors_aligned() {
            return unity;
        }
        let stored = match self.stored_pages() {
            Some(v) => {
                if v >= MIN_ZSWAP_SAMPLE_PAGES {
                    v
                } else {
                    return unity;
                }
            },
            None => return unity,
        };
        let pool = match self.pool_bytes() {
            Some(v) => {
                if v > 0 {
                    v
                } else {
                    return unity;
                }
            },
            None => return unity,
        };
        let uncompressed = stored as u128 * PAGE_SIZE_BYTES as u128;
        if uncompressed >= pool as u128 {
            CompressionRatio { uncompressed_bytes: uncompressed, compressed_bytes: pool }
        } else {
            unity
        }
    }
}


/// The ratio is never below 1, and it is exactly 1 (no compression assumed)
/// when the compressors differ or cannot be read, when the pool holds fewer
/// than `MIN_ZSWAP_SAMPLE_PAGES` pages, or when a counter is unreadable or
/// the pool is empty.
pub proof fn law_ratio_falls_back_to_one(z: ZswapProbe)
    ensures
        z.ratio().1 > 0,
        z.ratio().0 >= z.ratio().1,
        !z.aligned() ==> z.ratio() == (1int, 1int),
        (counter_value(z.stored_pages_file) matches Some(s) && s < MIN_ZSWAP_SAMPLE_PAGES) ==> z.ratio()
            == (1int, 1int),
        counter_value(z.stored_pages_file) is None ==> z.ratio() == (1int, 1int),
        (counter_value(z.pool_total_size_file) is None || counter_value(z.pool_total_size_file)
            == Some(0u64)) ==> z.ratio() == (1int, 1int),
{
}

/// The compressors count as aligned exactly when both parameter files are
/// readable and name the same algorithm as whole strings (after trimming and
/// lowercasing); with two different names (`lzo-rle` and `lzo`, say) no
/// sample is taken and the ratio is exactly 1. With the same name, enough
/// stored pages and a non-empty pool, the ratio is the pool's own.
pub proof fn law_aligned_means_same_compressor(z: ZswapProbe)
    ensures
        z.aligned() <==> (z.zswap_compressor_file matches Some(a) && z.hibernate_compressor_file
            matches Some(b) && lowercase(trim(a@)) == lowercase(trim(b@))),
        (z.zswap_compressor_file matches Some(a) && z.hibernate_compressor_file matches Some(b)
            && lowercase(trim(a@)) != lowercase(trim(b@))) ==> z.ratio() == (1int, 1int),
        (z.zswap_compressor_file is None || z.hibernate_compressor_file is None) ==> z.ratio() == (
        1int, 1int),
        (z.zswap_compressor_file is Some && z.hibernate_compressor_file is Some && lowercase(
            trim(z.zswap_compressor_file->0@),
        ) == lowercase(trim(z.hibernate_compressor_file->0@)) && z.stored_pages_file is Some
            && z.pool_total_size_file is Some && parse_u64(trim(z.stored_pages_file->0@)) is Some
            && parse_u64(trim(z.pool_total_size_file->0@)) is Some && parse_u64(
            trim(z.stored_pages_file->0@),
        )->0 >= MIN_ZSWAP_SAMPLE_PAGES && parse_u64(trim(z.pool_total_size_file->0@))->0 > 0
            && parse_u64(trim(z.stored_pages_file->0@))->0 * PAGE_SIZE_BYTES >= parse_u64(
            trim(z.pool_total_size_file->0@),
        )->0) ==> z.ratio() == (
            parse_u64(trim(z.stored_pages_file->0@))->0 * PAGE_SIZE_BYTES,
            parse_u64(trim(z.pool_total_size_file->0@))->0 as int,
        ),
{
}

} // verus!
