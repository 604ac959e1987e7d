//! Cursor-based buffered stream over the chip's address space.
//!
//! [`FlashCore`] owns the stream state: a byte cursor into the flat address
//! space and a single page-sized read cache with a valid window.  Seeking,
//! consuming and window arithmetic are decided here; fetching a page is the
//! caller's side, who asks [`FlashCore::fill_plan`] which page to read and
//! hands the bytes back through [`FlashCore::accept_page`].

use crate::PAGE_SIZE;
use crate::TOTAL_SIZE;
use vstd::prelude::*;

verus! {

/// Why a driver operation failed.
#[derive(Debug, Clone, Copy, PartialEq, Eq, Structural)]
pub enum FlashError {
    /// The bus transport failed; the cause is opaque to this layer.
    Comm,
    /// An offset, address or seek target lies outside the address space.
    AddressOutOfRange,
    /// Reserved for payload validation; no operation raises it.
    BadData,
}

/// Where a seek counts from.
#[derive(Debug, Clone, Copy, PartialEq, Eq, Structural)]
pub enum SeekFrom {
    /// An absolute offset from the start of the address space.
    Start(u64),
    /// A non-positive offset from one past the last byte.
    End(i64),
    /// A signed offset from the current cursor.
    Current(i64),
}

/// The absolute position a seek asks for.
pub open spec fn seek_target(cur: int, pos: SeekFrom) -> int {
    match pos {
        SeekFrom::Start(p) => p as int,
        SeekFrom::End(off) => TOTAL_SIZE + off,
        SeekFrom::Current(off) => cur + off,
    }
}

/// Whether a seek is allowed: an end-relative offset may not be positive,
/// and the target must lie within `[0, TOTAL_SIZE]`.
pub open spec fn seek_valid(cur: int, pos: SeekFrom) -> bool {
    &&& (pos matches SeekFrom::End(off) ==> off <= 0)
    &&& 0 <= seek_target(cur, pos) <= TOTAL_SIZE
}

/// The first byte of the page containing the given offset.
pub open spec fn page_base(offset: int) -> int {
    (offset / (PAGE_SIZE as int)) * (PAGE_SIZE as int)
}

/// Stream state over the chip: cursor plus a one-page read cache.
pub struct FlashCore {
    /// Byte offset into the address space for the next stream operation.
    seek_ptr: usize,
    /// The page cache.
    buffer: Vec<u8>,
    /// First valid byte of the cache window.
    buffer_start: usize,
    /// One past the last valid byte of the cache window.
    buffer_end: usize,
}

impl FlashCore {
    /// The state is well formed: the cache is one page and the window and
    /// cursor are in bounds.
    pub closed spec fn wf(self) -> bool {
        &&& self.buffer@.len() == PAGE_SIZE
        &&& self.buffer_start <= self.buffer_end
        &&& self.buffer_end <= PAGE_SIZE
        &&& self.seek_ptr <= TOTAL_SIZE
    }

    /// The current cursor.
    pub closed spec fn cursor(self) -> int {
        self.seek_ptr as int
    }

    /// The bytes of the valid cache window.
    pub closed spec fn window(self) -> Seq<u8> {
        self.buffer@.subrange(self.buffer_start as int, self.buffer_end as int)
    }

    /// What well-formedness guarantees to callers: the cursor never passes
    /// the end of the address space and the cache window never exceeds one
    /// page.
    pub proof fn lemma_wf_bounds(self)
        requires
            self.wf(),
        ensures
            0 <= self.cursor() <= TOTAL_SIZE,
            self.window().len() <= PAGE_SIZE,
    {
    }

    /// A fresh stream: cursor at zero, cache window empty.
    pub fn new() -> (r: FlashCore)
        ensures
            r.wf(),
            r.cursor() == 0,
            r.window() == Seq::<u8>::empty(),
    {
        let mut buffer: Vec<u8> = Vec::new();
        while buffer.len() < PAGE_SIZE
            invariant
                buffer@.len() <= PAGE_SIZE,
            decreases PAGE_SIZE - buffer@.len(),
        {
            buffer.push(0);
        }
        let r = FlashCore { seek_ptr: 0, buffer, buffer_start: 0, buffer_end: 0 };
        proof {
            assert(r.window() =~= Seq::<u8>::empty());
        }
        r
    }

    /// Total capacity in bytes of the address space behind the stream.
    pub fn capacity(&self) -> (r: u64)
        ensures
            r == TOTAL_SIZE as u64,
    {
        TOTAL_SIZE as u64
    }

    /// The current cursor.
    pub fn position(&self) -> (r: usize)
        ensures
            r == self.cursor(),
    {
        self.seek_ptr
    }

    /// Number of valid bytes in the cache window.
    pub fn window_len(&self) -> (r: usize)
        requires
            self.wf(),
        ensures
            r == self.window().len(),
    {
        self.buffer_end - self.buffer_start
    }

    /// Move the cursor.  A valid target lies in `[0, TOTAL_SIZE]` and an
    /// end-relative offset may not be positive; the new absolute position is
    /// returned.  An invalid seek fails with `AddressOutOfRange` and leaves
    /// the state untouched.  The cache window survives a seek.
    pub fn seek(&mut self, pos: SeekFrom) -> (r: Result<u64, FlashError>)
        requires
            old(self).wf(),
        ensures
            final(self).wf(),
            seek_valid(old(self).cursor(), pos) ==> {
                &&& r matches Ok(n) && n == seek_target(old(self).cursor(), pos)
                &&& final(self).cursor() == seek_target(old(self).cursor(), pos)
                &&& final(self).window() == old(self).window()
            },
            !seek_valid(old(self).cursor(), pos) ==> {
                &&& r == Err::<u64, FlashError>(FlashError::AddressOutOfRange)
                &&& *final(self) == *old(self)
            },
    {
        match pos {
            SeekFrom::Start(p) => {
                if p > TOTAL_SIZE as u64 {
                    return Err(FlashError::AddressOutOfRange);
                }
                self.seek_ptr = p as usize;
                Ok(p)
            },
            SeekFrom::End(off) => {
                if off > 0 {
                    return Err(FlashError::AddressOutOfRange);
                }
                let t: i64 = TOTAL_SIZE as i64 + off;
                if t < 0 {
                    return Err(FlashError::AddressOutOfRange);
                }
                self.seek_ptr = t as usize;
                Ok(t as u64)
            },
            SeekFrom::Current(off) => {
                if off >= 0 {
                    let offu: u64 = off as u64;
                    if offu > TOTAL_SIZE as u64 - self.seek_ptr as u64 {
                        return Err(FlashError::AddressOutOfRange);
                    }
                    self.seek_ptr = self.seek_ptr + offu as usize;
                    Ok(self.seek_ptr as u64)
                } else {
                    let t: i64 = self.seek_ptr as i64 + off;
                    if t < 0 {
                        return Err(FlashError::AddressOutOfRange);
                    }
                    self.seek_ptr = t as usize;
                    Ok(t as u64)
                }
            },
        }
    }

    /// The span a streaming read at the cursor may cover: the cursor as bus
    /// address, and the requested count clamped to the remaining capacity.
    /// At the end of the address space there is nothing to read and the plan
    /// fails with `AddressOutOfRange`.
    pub fn read_plan(&self, want: usize) -> (r: Result<(u32, usize), FlashError>)
        requires
            self.wf(),
        ensures
            self.cursor() < TOTAL_SIZE ==> (r matches Ok(p) && p.0 == self.cursor() && p.1 == (
            if want <= TOTAL_SIZE - self.cursor() {
                want as int
            } else {
                TOTAL_SIZE - self.cursor()
            })),
            self.cursor() >= TOTAL_SIZE ==> r == Err::<(u32, usize), FlashError>(
                FlashError::AddressOutOfRange,
            ),
    {
        if self.seek_ptr >= TOTAL_SIZE {
            return Err(FlashError::AddressOutOfRange);
        }
        let n = crate::mem::min(want, TOTAL_SIZE - self.seek_ptr);
        Ok((self.seek_ptr as u32, n))
    }

    /// Move the cursor forward after a read or write delivered `n` bytes.
    /// The cache window is untouched.
    pub fn advance(&mut self, n: usize)
        requires
            old(self).wf(),
            old(self).cursor() + n <= TOTAL_SIZE,
        ensures
            final(self).wf(),
            final(self).cursor() == old(self).cursor() + n,
            final(self).window() == old(self).window(),
    {
        self.seek_ptr = self.seek_ptr + n;
    }

    /// Which page a buffered read must fetch: `None` while the cache window
    /// still holds bytes; otherwise the base address of the page containing
    /// the cursor.  With the cursor at the end of the address space and the
    /// window empty there is no page to fetch.
    pub fn fill_plan(&self) -> (r: Result<Option<u32>, FlashError>)
        requires
            self.wf(),
        ensures
            self.window().len() > 0 ==> r == Ok::<Option<u32>, FlashError>(None),
            self.window().len() == 0 && self.cursor() < TOTAL_SIZE ==> r == Ok::<
                Option<u32>,
                FlashError,
            >(Some((page_base(self.cursor())) as u32)),
            self.window().len() == 0 && self.cursor() >= TOTAL_SIZE ==> r == Err::<
                Option<u32>,
                FlashError,
            >(FlashError::AddressOutOfRange),
    {
        if self.buffer_start >= self.buffer_end {
            if self.seek_ptr >= TOTAL_SIZE {
                return Err(FlashError::AddressOutOfRange);
            }
            let page_start = (self.seek_ptr / PAGE_SIZE) * PAGE_SIZE;
            Ok(Some(page_start as u32))
        } else {
            Ok(None)
        }
    }

    /// Install a freshly fetched page in the cache.  The window then covers
    /// the tail of the page from the cursor's in-page offset, so the next
    /// consumed byte is the byte the cursor points at.
    pub fn accept_page(&mut self, page: Vec<u8>)
        requires
            old(self).wf(),
            old(self).window().len() == 0,
            old(self).cursor() < TOTAL_SIZE,
            page@.len() == PAGE_SIZE,
        ensures
            final(self).wf(),
            final(self).cursor() == old(self).cursor(),
            final(self).window() == page@.skip(old(self).cursor() % (PAGE_SIZE as int)),
    {
        self.buffer = page;
        self.buffer_start = self.seek_ptr % PAGE_SIZE;
        self.buffer_end = PAGE_SIZE;
        proof {
            assert(self.window() =~= self.buffer@.skip((self.seek_ptr as int) % (PAGE_SIZE as int)));
        }
    }

    /// The valid cache window, without copying.
    pub fn buf_window(&self) -> (r: &[u8])
        requires
            self.wf(),
        ensures
            r@ == self.window(),
    {
        vstd::slice::slice_subrange(self.buffer.as_slice(), self.buffer_start, self.buffer_end)
    }

    /// Consume `amt` bytes of the buffered-read protocol: the cursor moves by
    /// `amt` and the window start moves with it, clamped so it never passes
    /// the window end.
    pub fn consume(&mut self, amt: usize)
        requires
            old(self).wf(),
            old(self).cursor() + amt <= TOTAL_SIZE,
        ensures
            final(self).wf(),
            final(self).cursor() == old(self).cursor() + amt,
            final(self).window() == (if amt <= old(self).window().len() {
                old(self).window().skip(amt as int)
            } else {
                Seq::<u8>::empty()
            }),
    {
        let new_start = self.buffer_start + amt;
        self.buffer_start = if new_start < self.buffer_end {
            new_start
        } else {
            self.buffer_end
        };
        self.seek_ptr = self.seek_ptr + amt;
        proof {
            if amt <= old(self).window().len() {
                assert(self.window() =~= old(self).window().skip(amt as int));
            } else {
                assert(self.window() =~= Seq::<u8>::empty());
            }
        }
    }
}

} // verus!
