//! Reading the GUID partition table out of the first sectors of a storage
//! target, and the search for the end of the written data.
use vstd::prelude::*;
use vstd::arithmetic::power::lemma_pow0;
use vstd::arithmetic::power2::{lemma_pow2, lemma_pow2_pos, lemma_pow2_unfold, pow2};

verus! {

/// Bytes per sector.
pub const SECTOR_SIZE: u64 = 512;
/// Sectors read to find the partition table (header and entries).
pub const GPT_PROBE_SECTORS: u64 = 34;
/// `EFI PART`, read as a little-endian `u64`.
pub const GPT_HEADER_SIGNATURE: u64 = 0x5452_4150_2049_4645;

/// The little-endian value of the bytes `b`.
pub open spec fn le_value(b: Seq<u8>) -> nat
    decreases b.len(),
{
    if b.len() == 0 {
        0
    } else {
        b[0] as nat + 256 * le_value(b.drop_first())
    }
}

/// The little-endian `u64` at `offset` in `buf`, if the eight bytes are there.
pub open spec fn le_u64_at(buf: Seq<u8>, offset: int) -> Option<u64> {
    if 0 <= offset && offset + 8 <= buf.len() {
        Some(le_value(buf.subrange(offset, offset + 8)) as u64)
    } else {
        None
    }
}

/// The little-endian `u32` at `offset` in `buf`, if the four bytes are there.
pub open spec fn le_u32_at(buf: Seq<u8>, offset: int) -> Option<u32> {
    if 0 <= offset && offset + 4 <= buf.len() {
        Some(le_value(buf.subrange(offset, offset + 4)) as u32)
    } else {
        None
    }
}

/// The little-endian `u64` at `offset`, as `u64::from_le_bytes` reads it.
pub fn read_le_u64(buf: &[u8], offset: usize) -> (res: Option<u64>)
    ensures
        res == le_u64_at(buf@, offset as int),
{
    if offset > buf.len() || buf.len() - offset < 8 {
        return None;
    }
    let ghost s = buf@.subrange(offset as int, offset + 8);
    let v: u64 = buf[offset] as u64 + 256 * (buf[offset + 1] as u64) + 65536 * (buf[offset + 2] as u64)
        + 16777216 * (buf[offset + 3] as u64) + 4294967296 * (buf[offset + 4] as u64) + 1099511627776
        * (buf[offset + 5] as u64) + 281474976710656 * (buf[offset + 6] as u64) + 72057594037927936
        * (buf[offset + 7] as u64);
    proof {
        reveal_with_fuel(le_value, 9);
        assert(s.drop_first() =~= s.subrange(1, 8));
        assert(s.subrange(1, 8).drop_first() =~= s.subrange(2, 8));
        assert(s.subrange(2, 8).drop_first() =~= s.subrange(3, 8));
        assert(s.subrange(3, 8).drop_first() =~= s.subrange(4, 8));
        assert(s.subrange(4, 8).drop_first() =~= s.subrange(5, 8));
        assert(s.subrange(5, 8).drop_first() =~= s.subrange(6, 8));
        assert(s.subrange(6, 8).drop_first() =~= s.subrange(7, 8));
        assert(s.subrange(7, 8).drop_first() =~= Seq::<u8>::empty());
    }
    Some(v)
}

/// The little-endian `u32` at `offset`, as `u32::from_le_bytes` reads it.
pub fn read_le_u32(buf: &[u8], offset: usize) -> (res: Option<u32>)
    ensures
        res == le_u32_at(buf@, offset as int),
{
    if offset > buf.len() || buf.len() - offset < 4 {
        return None;
    }
    let ghost s = buf@.subrange(offset as int, offset + 4);
    let v: u32 = buf[offset] as u32 + 256 * (buf[offset + 1] as u32) + 65536 * (buf[offset + 2] as u32)
        + 16777216 * (buf[offset + 3] as u32);
    proof {
        reveal_with_fuel(le_value, 5);
        assert(s.drop_first() =~= s.subrange(1, 4));
        assert(s.subrange(1, 4).drop_first() =~= s.subrange(2, 4));
        assert(s.subrange(2, 4).drop_first() =~= s.subrange(3, 4));
        assert(s.subrange(3, 4).drop_first() =~= Seq::<u8>::empty());
    }
    Some(v)
}

/// The `size` bytes at `offset` are all zero; a range that runs past the end
/// of `buf` counts as zero.
pub open spec fn all_zero(buf: Seq<u8>, offset: int, size: int) -> bool {
    offset + size > buf.len() || forall|k: int| offset <= k < offset + size ==> buf[k] == 0
}

/// Whether the `size` bytes at `offset` are zero (a range past the end of
/// `buf` counts as zero).
pub fn is_all_zero(buf: &[u8], offset: usize, size: usize) -> (res: bool)
    requires
        offset + size <= usize::MAX,
    ensures
        res == all_zero(buf@, offset as int, size as int),
{
    if offset + size > buf.len() {
        return true;
    }
    let mut k: usize = offset;
    while k < offset + size
        invariant
            offset <= k <= offset + size <= buf.len(),
            forall|t: int| offset <= t < k ==> buf@[t] == 0,
        decreases offset + size - k,
    {
        if buf[k] != 0 {
            return false;
        }
        k = k + 1;
    }
    true
}

/// The larger of an optional running maximum and `e`.
pub open spec fn max_with(acc: Option<u64>, e: u64) -> u64 {
    match acc {
        Some(m) => if m >= e {
            m
        } else {
            e
        },
        None => e,
    }
}

/// The walk over the partition entries from entry `i` on: entries lie
/// `size` bytes apart from byte `base`; the walk stops at entry `count` or
/// at the first entry that does not fit in `buf`; an entry whose first 16
/// bytes (the type GUID) are zero is unused; for a used entry the ending LBA
/// at byte 40 counts towards the maximum, and the whole read fails (outer
/// `None`) when those bytes are missing.
pub open spec fn gpt_scan(buf: Seq<u8>, base: int, size: int, count: int, i: int, acc: Option<u64>) -> Option<Option<u64>>
    decreases count - i,
{
    if i >= count {
        Some(acc)
    } else {
        let off = base + i * size;
        if off + size > buf.len() {
            Some(acc)
        } else if all_zero(buf, off, 16) {
            gpt_scan(buf, base, size, count, i + 1, acc)
        } else {
            match le_u64_at(buf, off + 40) {
                None => None,
                Some(e) => gpt_scan(buf, base, size, count, i + 1, Some(max_with(acc, e))),
            }
        }
    }
}

/// The header fields that the table is read from: it starts at the second
/// sector with the `EFI PART` signature, and gives the first LBA of the
/// entries (byte 72), their number (byte 80) and their size (byte 84).
pub open spec fn gpt_header(buf: Seq<u8>) -> Option<(u64, u32, u32)> {
    if buf.len() < 2 * SECTOR_SIZE {
        None
    } else if le_u64_at(buf, 512) != Some(GPT_HEADER_SIGNATURE) {
        None
    } else {
        Some((le_u64_at(buf, 584).unwrap(), le_u32_at(buf, 592).unwrap(), le_u32_at(buf, 596).unwrap()))
    }
}

/// The last LBA in use according to the partition table in `buf`: the
/// largest ending LBA over the used entries, or nothing when there is no
/// valid header, no entry, or no used entry.
pub open spec fn gpt_last_used(buf: Seq<u8>) -> Option<u64> {
    match gpt_header(buf) {
        None => None,
        Some((lba, count, size)) => if size == 0 || count == 0 {
            None
        } else {
            match gpt_scan(buf, lba * 512, size as int, count as int, 0, None) {
                Some(m) => m,
                None => None,
            }
        },
    }
}

/// The offsets that the walk over the entries from entry `i` on computes
/// fit in a `usize`.
pub open spec fn gpt_scan_fits(buf: Seq<u8>, base: int, size: int, count: int, i: int) -> bool
    decreases count - i,
{
    if i >= count {
        true
    } else {
        let off = base + i * size;
        if off + size > usize::MAX {
            false
        } else if off + size > buf.len() {
            true
        } else if off + 48 > usize::MAX {
            false
        } else if all_zero(buf, off, 16) {
            gpt_scan_fits(buf, base, size, count, i + 1)
        } else {
            match le_u64_at(buf, off + 40) {
                None => true,
                Some(_) => gpt_scan_fits(buf, base, size, count, i + 1),
            }
        }
    }
}

/// The offsets that reading the table in `buf` computes fit in a `usize`.
pub open spec fn gpt_offsets_fit(buf: Seq<u8>) -> bool {
    match gpt_header(buf) {
        None => true,
        Some((lba, count, size)) => size == 0 || count == 0 || (lba * 512 <= usize::MAX
            && gpt_scan_fits(buf, lba * 512, size as int, count as int, 0)),
    }
}

/// What the partition table says of the storage.
pub struct GptInfo {
    /// The last LBA that a partition covers.
    pub last_used_lba: u64,
}

/// Whether reading the table in `buf` computes only offsets that fit in a
/// `usize` (the condition of [`read_gpt_info`]).
pub fn gpt_offsets_in_range(buf: &[u8]) -> (res: bool)
    ensures
        res == gpt_offsets_fit(buf@),
{
    if buf.len() < 1024 {
        return true;
    }
    match read_le_u64(buf, 512) {
        Some(sig) => if sig != GPT_HEADER_SIGNATURE {
            return true;
        },
        None => return true,
    }
    let lba = read_le_u64(buf, 584).unwrap();
    let count = read_le_u32(buf, 592).unwrap();
    let size = read_le_u32(buf, 596).unwrap();
    assert(gpt_header(buf@) == Some((lba, count, size)));
    if size == 0 || count == 0 {
        return true;
    }
    if lba > (usize::MAX as u64) / 512 {
        return false;
    }
    let base: usize = (lba as usize) * 512;
    let ghost sz = size as int;
    let ghost n = count as int;
    let mut i: u32 = 0;
    while i < count
        invariant
            gpt_header(buf@) == Some((lba, count, size)),
            lba * 512 <= usize::MAX,
            size > 0,
            sz == size,
            n == count,
            base == lba * 512,
            i <= count,
            i > 0 ==> base + (i as int) * sz <= buf@.len(),
            gpt_scan_fits(buf@, base as int, sz, n, 0) == gpt_scan_fits(buf@, base as int, sz, n, i as int),
        decreases count - i,
    {
        proof {
            assert(0 <= (i as int) * sz) by (nonlinear_arith)
                requires i >= 0, sz >= 0;
        }
        assert((i as int) * sz <= u64::MAX) by (nonlinear_arith)
            requires i < 0x1_0000_0000int, sz < 0x1_0000_0000int, 0 <= i, 0 <= sz;
        let step: u64 = (i as u64) * (size as u64);
        if step > (usize::MAX - base) as u64 {
            assert(!gpt_scan_fits(buf@, base as int, sz, n, i as int));
            return false;
        }
        let off: usize = base + step as usize;
        assert(off == base + (i as int) * sz);
        if off > usize::MAX - size as usize {
            assert(!gpt_scan_fits(buf@, base as int, sz, n, i as int));
            return false;
        }
        if off + size as usize > buf.len() {
            assert(gpt_scan_fits(buf@, base as int, sz, n, i as int));
            return true;
        }
        if off > usize::MAX - 48 {
            assert(!gpt_scan_fits(buf@, base as int, sz, n, i as int));
            return false;
        }
        if !is_all_zero(buf, off, 16) {
            match read_le_u64(buf, off + 40) {
                Some(_) => {},
                None => {
                    assert(gpt_scan_fits(buf@, base as int, sz, n, i as int));
                    return true;
                },
            }
        }
        i = i + 1;
        proof {
            assert(base + (i as int) * sz == off + sz) by (nonlinear_arith)
                requires off == base + (i - 1) * sz;
        }
    }
    true
}

/// Reads the partition table from the first [`GPT_PROBE_SECTORS`] sectors
/// of a storage target (see [`gpt_last_used`]).
pub fn read_gpt_info(buf: &[u8]) -> (res: Option<GptInfo>)
    requires
        gpt_offsets_fit(buf@),
    ensures
        match res {
            Some(g) => gpt_last_used(buf@) == Some(g.last_used_lba),
            None => gpt_last_used(buf@) is None,
        },
{
    if buf.len() < (SECTOR_SIZE * 2) as usize {
        return None;
    }
    let header_offset = SECTOR_SIZE as usize;
    let signature = match read_le_u64(buf, header_offset) {
        Some(v) => v,
        None => return None,
    };
    if signature != GPT_HEADER_SIGNATURE {
        return None;
    }
    let entry_lba = match read_le_u64(buf, header_offset + 72) {
        Some(v) => v,
        None => return None,
    };
    let entry_count = match read_le_u32(buf, header_offset + 80) {
        Some(v) => v,
        None => return None,
    };
    let entry_size = match read_le_u32(buf, header_offset + 84) {
        Some(v) => v,
        None => return None,
    };
    if entry_size == 0 || entry_count == 0 {
        return None;
    }
    let entries_offset = (entry_lba as usize) * (SECTOR_SIZE as usize);
    let ghost base = entries_offset as int;
    let ghost size = entry_size as int;
    let ghost count = entry_count as int;
    assert(gpt_header(buf@) == Some((entry_lba, entry_count, entry_size)));
    let mut max_ending: Option<u64> = None;
    let mut i: u32 = 0;
    while i < entry_count
        invariant
            gpt_header(buf@) == Some((entry_lba, entry_count, entry_size)),
            base == entry_lba * 512,
            base == entries_offset,
            size == entry_size,
            count == entry_count,
            entry_size > 0,
            gpt_scan_fits(buf@, base, size, count, i as int),
            i <= entry_count,
            i > 0 ==> entries_offset + (i as int) * size <= buf@.len(),
            gpt_scan(buf@, base, size, count, 0, None) == gpt_scan(buf@, base, size, count, i as int, max_ending),
        decreases entry_count - i,
    {
        proof {
            if i > 0 {
                assert((i as int) * size <= buf@.len());
            }
            assert(0 <= (i as int) * size) by (nonlinear_arith)
                requires i >= 0, size >= 0;
        }
        let entry_offset = entries_offset + (i as usize) * (entry_size as usize);
        assert(entry_offset == base + (i as int) * size);
        if entry_offset + entry_size as usize > buf.len() {
            assert(gpt_scan(buf@, base, size, count, i as int, max_ending) == Some(max_ending));
            return match max_ending {
                Some(last_used_lba) => Some(GptInfo { last_used_lba }),
                None => None,
            };
        }
        if is_all_zero(buf, entry_offset, 16) {
            i = i + 1;
            proof {
                assert(entries_offset + (i as int) * size == entry_offset + size) by (nonlinear_arith)
                    requires entry_offset == entries_offset + (i - 1) * size;
            }
            continue;
        }
        let ending = match read_le_u64(buf, entry_offset + 40) {
            Some(v) => v,
            None => {
                assert(gpt_scan(buf@, base, size, count, i as int, max_ending) is None);
                return None;
            },
        };
        max_ending = Some(
            match max_ending {
                Some(m) => if m >= ending {
                    m
                } else {
                    ending
                },
                None => ending,
            },
        );
        i = i + 1;
        proof {
            assert(entries_offset + (i as int) * size == entry_offset + size) by (nonlinear_arith)
                requires entry_offset == entries_offset + (i - 1) * size;
        }
    }
    assert(gpt_scan(buf@, base, size, count, 0, None) == Some(max_ending));
    match max_ending {
        Some(last_used_lba) => Some(GptInfo { last_used_lba }),
        None => None,
    }
}

/// A read that came back with bytes that are all the same (erased flash
/// reads as all zeros or all ones).
pub open spec fn blank_spec(buf: Seq<u8>) -> bool {
    buf.len() > 0 && forall|k: int| 0 <= k < buf.len() ==> #[trigger] buf[k] == buf[0]
}

/// Whether `buf` is non-empty and all its bytes equal the first.
pub fn looks_blank(buf: &[u8]) -> (res: bool)
    ensures
        res == blank_spec(buf@),
{
    if buf.len() == 0 {
        return false;
    }
    let first = buf[0];
    let mut k: usize = 0;
    while k < buf.len()
        invariant
            k <= buf.len(),
            first == buf@[0],
            forall|t: int| 0 <= t < k ==> buf@[t] == first,
        decreases buf.len() - k,
    {
        if buf[k] != first {
            return false;
        }
        k = k + 1;
    }
    true
}

/// The search stops once the unknown range is at most this many sectors
/// (0.1 GiB).
pub const BOUNDARY_PRECISION: u64 = 204_800;
/// Sectors read at each step of the search.
pub const BOUNDARY_PROBE_SECTORS: u64 = 16;

/// The state of the binary search for the end of the written data: data
/// was seen at `lo` (or `lo` is 0) and blank space at `hi` (or `hi` is the
/// end of the storage).
pub struct BoundarySearch {
    pub lo: u64,
    pub hi: u64,
}

/// The sector at which the search reads next, when the range is still wider
/// than the precision.
pub open spec fn probe_at(lo: u64, hi: u64) -> Option<u64> {
    if hi - lo > BOUNDARY_PRECISION {
        Some((lo + (hi - lo) / 2) as u64)
    } else {
        None
    }
}

/// The boundary that a finished search reports: 0 when nothing was found
/// written, else the middle of the range.
pub open spec fn boundary_of(lo: u64, hi: u64) -> nat {
    if lo == 0 {
        0
    } else {
        ((lo + hi) / 2) as nat
    }
}

impl BoundarySearch {
    /// The range is well formed.
    pub open spec fn wf(self) -> bool {
        self.lo <= self.hi
    }

    /// The state after reading at the middle of the range and finding it
    /// blank or not: blank space moves the upper end down, data moves the
    /// lower end up.
    pub open spec fn after(self, blank: bool) -> BoundarySearch {
        let mid = (self.lo + (self.hi - self.lo) / 2) as u64;
        if blank {
            BoundarySearch { lo: self.lo, hi: mid }
        } else {
            BoundarySearch { lo: mid, hi: self.hi }
        }
    }

    /// A search over a storage of `total_sectors` sectors.
    pub fn new(total_sectors: u64) -> (s: Self)
        ensures
            s.lo == 0,
            s.hi == total_sectors,
            s.wf(),
    {
        BoundarySearch { lo: 0, hi: total_sectors }
    }

    /// Where to read next; `None` once the search is done.
    pub fn next_probe(&self) -> (res: Option<u64>)
        requires
            self.wf(),
        ensures
            res == probe_at(self.lo, self.hi),
    {
        if self.hi - self.lo > BOUNDARY_PRECISION {
            Some(self.lo + (self.hi - self.lo) / 2)
        } else {
            None
        }
    }

    /// Takes in whether the read at the middle came back blank.
    pub fn record(&mut self, blank: bool)
        requires
            old(self).wf(),
        ensures
            *final(self) == old(self).after(blank),
            final(self).wf(),
    {
        let mid = self.lo + (self.hi - self.lo) / 2;
        if blank {
            self.hi = mid;
        } else {
            self.lo = mid;
        }
    }

    /// The boundary that the search reports.
    pub fn result(&self) -> (res: u64)
        requires
            self.wf(),
        ensures
            res == boundary_of(self.lo, self.hi),
    {
        if self.lo == 0 {
            0
        } else {
            self.lo + (self.hi - self.lo) / 2
        }
    }
}

/// Law: a step of the search keeps the range well formed and inside the
/// former range, and halves its width (rounding up).
pub proof fn law_search_step_narrows(s: BoundarySearch, blank: bool)
    requires
        s.wf(),
    ensures
        s.after(blank).wf(),
        s.lo <= s.after(blank).lo,
        s.after(blank).hi <= s.hi,
        s.after(blank).hi - s.after(blank).lo <= (s.hi - s.lo + 1) / 2,
{
}

/// Law: the boundary that a search reports lies inside its final range.
pub proof fn law_search_result_in_range(s: BoundarySearch)
    requires
        s.wf(),
    ensures
        boundary_of(s.lo, s.hi) == 0 || (s.lo <= boundary_of(s.lo, s.hi) <= s.hi),
{
}

/// The search from `s` after it took in the answers `blanks`, in order.
pub open spec fn search_after(s: BoundarySearch, blanks: Seq<bool>) -> BoundarySearch
    decreases blanks.len(),
{
    if blanks.len() == 0 {
        s
    } else {
        search_after(s, blanks.drop_last()).after(blanks.last())
    }
}

/// Whether a read came back blank; a failed read counts as data.
pub open spec fn read_blank(r: Option<Vec<u8>>) -> bool {
    match r {
        Some(b) => blank_spec(b@),
        None => false,
    }
}

/// `blank` is what reading [`BOUNDARY_PROBE_SECTORS`] sectors at `at` with
/// `read_sectors` may have answered.
pub open spec fn read_may_give<F: Fn(u64, u64) -> Option<Vec<u8>>>(read_sectors: F, at: u64, blank: bool) -> bool {
    exists|r: Option<Vec<u8>>| call_ensures(read_sectors, (at, BOUNDARY_PROBE_SECTORS), r) && read_blank(r) == blank
}

/// The answers `blanks` are those of a whole search over `total_sectors`
/// sectors: each was read where the search probed at that point, and after
/// the last one the search stops.
pub open spec fn search_trace<F: Fn(u64, u64) -> Option<Vec<u8>>>(
    read_sectors: F,
    total_sectors: u64,
    blanks: Seq<bool>,
) -> bool {
    let start = BoundarySearch { lo: 0, hi: total_sectors };
    forall|k: int| 0 <= k < blanks.len() ==> {
        let sk = #[trigger] search_after(start, blanks.take(k));
        probe_at(sk.lo, sk.hi) is Some && read_may_give(read_sectors, probe_at(sk.lo, sk.hi)->0, blanks[k])
    }
}

/// The written data ends at sector `b`: every read at `m` that
/// `read_sectors` may give comes back blank exactly when `m >= b`.
pub open spec fn reads_end_at<F: Fn(u64, u64) -> Option<Vec<u8>>>(read_sectors: F, b: u64) -> bool {
    forall|m: u64, r: Option<Vec<u8>>|
        #[trigger] call_ensures(read_sectors, (m, BOUNDARY_PROBE_SECTORS), r) ==> read_blank(r) == (m >= b)
}

/// `res` is within [`BOUNDARY_PRECISION`] sectors of `b`.
pub open spec fn near_boundary(res: u64, b: u64) -> bool {
    res - b <= BOUNDARY_PRECISION && b - res <= BOUNDARY_PRECISION
}

/// Binary search for the end of the written data of a storage target of
/// `total_sectors` sectors. `read_sectors(begin, count)` reads sectors from
/// the device; a read that fails counts as data. The answer is 0 when no
/// data was found past the start, else the middle of the final range, which
/// is at most [`BOUNDARY_PRECISION`] sectors wide. It is the result of the
/// search over the answers that the reads gave. The search makes `n` reads
/// with `n == 0` or `total_sectors > BOUNDARY_PRECISION * 2^(n-1)`, that is
/// at most the ceiling of `log2(total_sectors / BOUNDARY_PRECISION)`; and
/// when the written data ends at some sector `b`, the answer is within
/// [`BOUNDARY_PRECISION`] sectors of `b`.
pub fn find_used_sector_boundary<F: Fn(u64, u64) -> Option<Vec<u8>>>(total_sectors: u64, read_sectors: F) -> (res: u64)
    requires
        forall|b: u64, c: u64| read_sectors.requires((b, c)),
    ensures
        res <= total_sectors,
        total_sectors <= BOUNDARY_PRECISION ==> res == 0,
        exists|blanks: Seq<bool>| {
            let fin = #[trigger] search_after(BoundarySearch { lo: 0, hi: total_sectors }, blanks);
            &&& search_trace(read_sectors, total_sectors, blanks)
            &&& probe_at(fin.lo, fin.hi) is None
            &&& res == boundary_of(fin.lo, fin.hi)
            &&& blanks.len() == 0 || total_sectors > BOUNDARY_PRECISION * pow2((blanks.len() - 1) as nat)
        },
        forall|b: u64| b <= total_sectors && #[trigger] reads_end_at(read_sectors, b) ==> near_boundary(res, b),
{
    let mut search = BoundarySearch::new(total_sectors);
    let ghost start = search;
    let ghost mut blanks: Seq<bool> = Seq::empty();
    proof {
        lemma_pow0(2);
        lemma_pow2(0);
    }
    loop
        invariant
            forall|b: u64, c: u64| read_sectors.requires((b, c)),
            start == (BoundarySearch { lo: 0, hi: total_sectors }),
            search == search_after(start, blanks),
            search_trace(read_sectors, total_sectors, blanks),
            search.wf(),
            search.hi <= total_sectors,
            total_sectors <= BOUNDARY_PRECISION ==> search.lo == 0,
            (search.hi - search.lo) * pow2(blanks.len()) <= total_sectors + pow2(blanks.len()) - 1,
            blanks.len() == 0 || total_sectors > BOUNDARY_PRECISION * pow2((blanks.len() - 1) as nat),
            forall|b: u64| b <= total_sectors && #[trigger] reads_end_at(read_sectors, b) ==> (search.lo == 0
                || search.lo < b) && b <= search.hi,
        ensures
            search == search_after(start, blanks),
            search_trace(read_sectors, total_sectors, blanks),
            probe_at(search.lo, search.hi) is None,
            search.wf(),
            search.hi <= total_sectors,
            search.hi - search.lo <= BOUNDARY_PRECISION,
            total_sectors <= BOUNDARY_PRECISION ==> search.lo == 0,
            blanks.len() == 0 || total_sectors > BOUNDARY_PRECISION * pow2((blanks.len() - 1) as nat),
            forall|b: u64| b <= total_sectors && #[trigger] reads_end_at(read_sectors, b) ==> (search.lo == 0
                || search.lo < b) && b <= search.hi,
        decreases search.hi - search.lo,
    {
        match search.next_probe() {
            None => break,
            Some(mid) => {
                let r = read_sectors(mid, BOUNDARY_PROBE_SECTORS);
                let blank = match &r {
                    Some(buf) => looks_blank(buf.as_slice()),
                    None => false,
                };
                assert(read_blank(r) == blank);
                assert(read_may_give(read_sectors, mid, blank));
                let ghost before = blanks;
                let ghost old_search = search;
                search.record(blank);
                proof {
                    blanks = before.push(blank);
                    assert(blanks.drop_last() =~= before);
                    assert forall|k: int| 0 <= k < blanks.len() implies {
                        let sk = #[trigger] search_after(start, blanks.take(k));
                        probe_at(sk.lo, sk.hi) is Some && read_may_give(read_sectors, probe_at(sk.lo, sk.hi)->0, blanks[k])
                    } by {
                        if k < before.len() {
                            assert(blanks.take(k) =~= before.take(k));
                            assert(blanks[k] == before[k]);
                        } else {
                            assert(blanks.take(k) =~= before);
                        }
                    }
                    let n = before.len();
                    let p = pow2(n);
                    let w: int = old_search.hi - old_search.lo;
                    let w2: int = search.hi - search.lo;
                    lemma_pow2_pos(n);
                    lemma_pow2_unfold(n + 1);
                    assert(pow2((blanks.len() - 1) as nat) == p);
                    assert(pow2(blanks.len()) == 2 * p);
                    assert(2 * w2 <= w + 1);
                    assert(w > BOUNDARY_PRECISION);
                    let t: int = total_sectors as int;
                    assert(w2 * (2 * p) <= t + 2 * p - 1) by (nonlinear_arith)
                        requires
                            2 * w2 <= w + 1,
                            w * p <= t + p - 1,
                            p > 0,
                            w2 >= 0,
                    ;
                    assert(BOUNDARY_PRECISION * p < t) by (nonlinear_arith)
                        requires
                            w >= BOUNDARY_PRECISION + 1,
                            w * p <= t + p - 1,
                            p > 0,
                    ;
                    assert forall|b: u64| b <= total_sectors && #[trigger] reads_end_at(read_sectors, b) implies (
                    search.lo == 0 || search.lo < b) && b <= search.hi by {
                        assert(call_ensures(read_sectors, (mid, BOUNDARY_PROBE_SECTORS), r));
                        assert(blank == (mid >= b));
                    }
                }
            },
        }
    }
    let res = search.result();
    assert(search.lo <= search.hi <= total_sectors && search.hi - search.lo <= BOUNDARY_PRECISION
        && res == boundary_of(search.lo, search.hi));
    assert forall|b: u64| b <= total_sectors && #[trigger] reads_end_at(read_sectors, b) implies near_boundary(res, b) by {
        assert((search.lo == 0 || search.lo < b) && b <= search.hi);
    }
    res
}

} // verus!
