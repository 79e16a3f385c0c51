//! When the cover-art palette is looked up again: the cache of the palette
//! extracted from the chosen cover image.
use vstd::prelude::*;

use crate::text::{trim, trim_seq};

verus! {

/// How long a failed palette lookup is kept before it is tried again, in milliseconds.
pub const COVER_RETRY_MS: u64 = 10_000;

/// The palette found for one cover source, and when it was last looked up.
pub struct CoverArtCache<P> {
    pub source: String,
    pub palette: Option<P>,
    pub attempted_at_ms: Option<u64>,
}

impl<P: Copy> CoverArtCache<P> {
    /// An empty cache.
    pub fn new() -> (c: Self)
        ensures
            c.source@.len() == 0,
            c.palette is None,
            c.attempted_at_ms is None,
    {
        CoverArtCache { source: String::new(), palette: None, attempted_at_ms: None }
    }

    /// Prepares a lookup for the chosen `source` (trimmed) at time `now_ms`:
    /// an empty source clears the cache; another source than the cached one
    /// starts afresh. Says whether the palette is to be loaded now: when none
    /// is cached and no attempt was made in the last ten seconds.
    pub fn begin_lookup(&mut self, source: &str, now_ms: u64) -> (load: bool)
        ensures
            trim_seq(source@).len() == 0 ==> {
                &&& !load
                &&& final(self).source@.len() == 0
                &&& final(self).palette is None
                &&& final(self).attempted_at_ms is None
            },
            trim_seq(source@).len() > 0 ==> {
                let fresh = old(self).source@ != trim_seq(source@);
                let palette = if fresh {
                    None
                } else {
                    old(self).palette
                };
                let attempted = if fresh {
                    None
                } else {
                    old(self).attempted_at_ms
                };
                &&& final(self).source@ == trim_seq(source@)
                &&& final(self).palette == palette
                &&& final(self).attempted_at_ms == attempted
                &&& load == (palette is None && match attempted {
                    Some(t) => now_ms >= t && now_ms - t >= COVER_RETRY_MS,
                    None => true,
                })
            },
    {
        let trimmed = trim(source);
        if trimmed.as_str().unicode_len() == 0 {
            self.source = String::new();
            self.palette = None;
            self.attempted_at_ms = None;
            return false;
        }
        if self.source != trimmed {
            self.source = trimmed;
            self.palette = None;
            self.attempted_at_ms = None;
        }
        if self.palette.is_some() {
            return false;
        }
        match self.attempted_at_ms {
            Some(t) => now_ms >= t && now_ms - t >= COVER_RETRY_MS,
            None => true,
        }
    }

    /// Records the outcome of a lookup made at `now_ms`.
    pub fn finish_lookup(&mut self, palette: Option<P>, now_ms: u64)
        ensures
            final(self).source == old(self).source,
            final(self).palette == palette,
            final(self).attempted_at_ms == Some(now_ms),
    {
        self.palette = palette;
        self.attempted_at_ms = Some(now_ms);
    }
}

} // verus!
