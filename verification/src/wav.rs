//! Scanning a WAV file's RIFF header for the byte rate and the size of the
//! audio data, from which the recording's duration follows.
//!
//! The scan reads `RIFF`, a size, `WAVE`, then chunk after chunk: a `fmt `
//! chunk gives the byte rate (bytes 8..12 of its body, little-endian), a
//! `data` chunk gives the data size, and any other chunk is skipped. The
//! scan ends successfully at the first `data` chunk with a non-zero size
//! once a non-zero byte rate is known (the data body itself is not skipped:
//! if the scan goes on, it reads on from the data chunk's header), or at
//! the end of the file when both values are known by then.
//!
//! The scan may look at a prefix of the file only: it then answers
//! `NeedMore` with the number of bytes it needs, whenever the bytes it
//! would read next lie beyond the prefix but inside the file.

use vstd::prelude::*;

verus! {

/// Outcome of a header scan.
#[derive(Debug, Clone, Copy, PartialEq, Eq, Structural)]
pub enum WavScan {
    /// The byte rate and data size were found.
    Found { byte_rate: u32, data_size: u32 },
    /// The file does not start with `RIFF`.
    NotRiff,
    /// The file has no `WAVE` tag after the RIFF size.
    NotWave,
    /// The file ended inside the preamble or inside a `fmt ` chunk body.
    Truncated,
    /// The chunks did not give both a non-zero byte rate and data size.
    NoDuration,
    /// The scan needs the first `needed` bytes of the file.
    NeedMore { needed: u64 },
}

/// The little-endian 32-bit value at offset `i`.
pub open spec fn le_u32_at(b: Seq<u8>, i: int) -> u32 {
    (b[i] as int + b[i + 1] as int * 0x100 + b[i + 2] as int * 0x1_0000 + b[i + 3] as int
        * 0x100_0000) as u32
}

pub open spec fn tag_at(b: Seq<u8>, i: int, t0: u8, t1: u8, t2: u8, t3: u8) -> bool {
    b[i] == t0 && b[i + 1] == t1 && b[i + 2] == t2 && b[i + 3] == t3
}

pub open spec fn is_fmt_tag(b: Seq<u8>, i: int) -> bool {
    tag_at(b, i, 0x66, 0x6d, 0x74, 0x20)
}

pub open spec fn is_data_tag(b: Seq<u8>, i: int) -> bool {
    tag_at(b, i, 0x64, 0x61, 0x74, 0x61)
}

/// The verdict when no more chunks can be read.
pub open spec fn scan_finish(byte_rate: u32, data_size: u32) -> WavScan {
    if byte_rate > 0 && data_size > 0 {
        WavScan::Found { byte_rate, data_size }
    } else {
        WavScan::NoDuration
    }
}

pub open spec fn room(total: int, pos: int) -> nat {
    if pos <= total {
        (total - pos) as nat
    } else {
        0
    }
}

/// The chunk walk from offset `pos` over the first `b.len()` bytes of a
/// file of `total` bytes.
pub open spec fn scan_chunks(b: Seq<u8>, total: int, pos: int, byte_rate: u32, data_size: u32) -> WavScan
    decreases room(total, pos),
{
    if pos + 8 > total {
        scan_finish(byte_rate, data_size)
    } else if pos + 8 > b.len() {
        WavScan::NeedMore { needed: (pos + 8) as u64 }
    } else {
        let size = le_u32_at(b, pos + 4);
        let body = pos + 8;
        if is_fmt_tag(b, pos) {
            if body + size > total {
                WavScan::Truncated
            } else if body + size > b.len() {
                WavScan::NeedMore { needed: (body + size) as u64 }
            } else {
                let rate = if size >= 12 {
                    le_u32_at(b, body + 8)
                } else {
                    byte_rate
                };
                scan_chunks(b, total, body + size, rate, data_size)
            }
        } else if is_data_tag(b, pos) {
            if byte_rate > 0 && size > 0 {
                WavScan::Found { byte_rate, data_size: size }
            } else {
                scan_chunks(b, total, body, byte_rate, size)
            }
        } else {
            scan_chunks(b, total, body + size, byte_rate, data_size)
        }
    }
}

/// The scan of a file of `total` bytes of which `b` is a prefix.
pub open spec fn scan_prefix(b: Seq<u8>, total: int) -> WavScan {
    if total < 4 {
        WavScan::Truncated
    } else if b.len() < 4 {
        WavScan::NeedMore { needed: 4 }
    } else if !tag_at(b, 0, 0x52, 0x49, 0x46, 0x46) {
        WavScan::NotRiff
    } else if total < 12 {
        WavScan::Truncated
    } else if b.len() < 12 {
        WavScan::NeedMore { needed: 12 }
    } else if !tag_at(b, 8, 0x57, 0x41, 0x56, 0x45) {
        WavScan::NotWave
    } else {
        scan_chunks(b, total, 12, 0, 0)
    }
}

/// The scan of a whole file.
pub open spec fn scan_file(b: Seq<u8>) -> WavScan {
    scan_prefix(b, b.len() as int)
}

fn le_u32(b: &[u8], i: usize) -> (r: u32)
    requires
        i + 4 <= b@.len(),
    ensures
        r == le_u32_at(b@, i as int),
{
    b[i] as u32 + b[i + 1] as u32 * 0x100 + b[i + 2] as u32 * 0x1_0000 + b[i + 3] as u32
        * 0x100_0000
}

fn tag(b: &[u8], i: usize, t0: u8, t1: u8, t2: u8, t3: u8) -> (r: bool)
    requires
        i + 4 <= b@.len(),
    ensures
        r == tag_at(b@, i as int, t0, t1, t2, t3),
{
    b[i] == t0 && b[i + 1] == t1 && b[i + 2] == t2 && b[i + 3] == t3
}

/// Scans the header of a file of `total` bytes, given its first bytes
/// `prefix`. A whole file is scanned by passing all of it and its length.
pub fn scan_wav_header(prefix: &[u8], total: u64) -> (r: WavScan)
    requires
        prefix@.len() <= total,
    ensures
        r == scan_prefix(prefix@, total as int),
{
    let b = prefix;
    let avail = b.len() as u64;
    if total < 4 {
        return WavScan::Truncated;
    }
    if avail < 4 {
        return WavScan::NeedMore { needed: 4 };
    }
    if !tag(b, 0, 0x52, 0x49, 0x46, 0x46) {
        return WavScan::NotRiff;
    }
    if total < 12 {
        return WavScan::Truncated;
    }
    if avail < 12 {
        return WavScan::NeedMore { needed: 12 };
    }
    if !tag(b, 8, 0x57, 0x41, 0x56, 0x45) {
        return WavScan::NotWave;
    }
    let mut pos: u64 = 12;
    let mut byte_rate: u32 = 0;
    let mut data_size: u32 = 0;
    loop
        invariant
            b@ == prefix@,
            avail == b@.len(),
            avail <= total,
            12 <= avail,
            avail <= usize::MAX,
            pos <= total,
            scan_prefix(b@, total as int) == scan_chunks(
                b@,
                total as int,
                pos as int,
                byte_rate,
                data_size,
            ),
        decreases total - pos,
    {
        if pos > total - 8 {
            return if byte_rate > 0 && data_size > 0 {
                WavScan::Found { byte_rate, data_size }
            } else {
                WavScan::NoDuration
            };
        }
        if pos > avail - 8 {
            return WavScan::NeedMore { needed: pos + 8 };
        }
        let p = pos as usize;
        let size = le_u32(b, p + 4);
        let body = pos + 8;
        if tag(b, p, 0x66, 0x6d, 0x74, 0x20) {
            if size as u64 > total - body {
                return WavScan::Truncated;
            }
            if size as u64 > avail - body {
                return WavScan::NeedMore { needed: body + size as u64 };
            }
            if size >= 12 {
                byte_rate = le_u32(b, (body + 8) as usize);
            }
            pos = body + size as u64;
        } else if tag(b, p, 0x64, 0x61, 0x74, 0x61) {
            if byte_rate > 0 && size > 0 {
                return WavScan::Found { byte_rate, data_size: size };
            }
            data_size = size;
            pos = body;
        } else {
            if size as u64 > total - body {
                assert(scan_chunks(b@, total as int, body + size, byte_rate, data_size)
                    == scan_finish(byte_rate, data_size));
                return if byte_rate > 0 && data_size > 0 {
                    WavScan::Found { byte_rate, data_size }
                } else {
                    WavScan::NoDuration
                };
            }
            pos = body + size as u64;
        }
    }
}

/// A verdict reached on a prefix is the verdict on the whole file: looking
/// at more bytes never changes an answer other than `NeedMore`.
pub proof fn prefix_scan_agrees(b: Seq<u8>, n: int)
    requires
        0 <= n <= b.len(),
        !(scan_prefix(b.take(n), b.len() as int) is NeedMore),
    ensures
        scan_prefix(b.take(n), b.len() as int) == scan_file(b),
{
    let p = b.take(n);
    if b.len() >= 12 && n >= 12 && tag_at(b, 0, 0x52, 0x49, 0x46, 0x46) && tag_at(
        b,
        8,
        0x57,
        0x41,
        0x56,
        0x45,
    ) {
        chunks_prefix_agree(b, n, 12, 0, 0);
    }
}

proof fn chunks_prefix_agree(b: Seq<u8>, n: int, pos: int, byte_rate: u32, data_size: u32)
    requires
        0 <= n <= b.len(),
        pos >= 0,
        !(scan_chunks(b.take(n), b.len() as int, pos, byte_rate, data_size) is NeedMore),
    ensures
        scan_chunks(b.take(n), b.len() as int, pos, byte_rate, data_size) == scan_chunks(
            b,
            b.len() as int,
            pos,
            byte_rate,
            data_size,
        ),
    decreases room(b.len() as int, pos),
{
    let p = b.take(n);
    let total = b.len() as int;
    if pos + 8 > total {
    } else if pos + 8 > p.len() {
    } else {
        assert(le_u32_at(p, pos + 4) == le_u32_at(b, pos + 4));
        assert(is_fmt_tag(p, pos) == is_fmt_tag(b, pos));
        assert(is_data_tag(p, pos) == is_data_tag(b, pos));
        let size = le_u32_at(b, pos + 4);
        let body = pos + 8;
        if is_fmt_tag(b, pos) {
            if body + size > total {
            } else if body + size > p.len() {
            } else {
                if size >= 12 {
                    assert(le_u32_at(p, body + 8) == le_u32_at(b, body + 8));
                }
                let rate = if size >= 12 {
                    le_u32_at(b, body + 8)
                } else {
                    byte_rate
                };
                chunks_prefix_agree(b, n, body + size, rate, data_size);
            }
        } else if is_data_tag(b, pos) {
            if byte_rate > 0 && size > 0 {
            } else {
                chunks_prefix_agree(b, n, body, byte_rate, size);
            }
        } else {
            chunks_prefix_agree(b, n, body + size, byte_rate, data_size);
        }
    }
}


/// Chunks other than `fmt ` and `data` are skipped whole, whatever they
/// hold and however long they are: a file made of `RIFF`, a size, `WAVE`,
/// a `fmt ` chunk of `f >= 12` bytes whose byte rate is `r > 0`, then a
/// chunk of any other tag with a body of `s` bytes, then a `data` chunk of
/// `d > 0` bytes, scans to that byte rate and data size.
pub proof fn other_chunks_are_skipped(b: Seq<u8>, f: u32, s: u32, r: u32, d: u32)
    requires
        tag_at(b, 0, 0x52, 0x49, 0x46, 0x46),
        tag_at(b, 8, 0x57, 0x41, 0x56, 0x45),
        12 <= f,
        is_fmt_tag(b, 12),
        le_u32_at(b, 16) == f,
        le_u32_at(b, 28) == r,
        r > 0,
        !is_fmt_tag(b, 20 + f),
        !is_data_tag(b, 20 + f),
        le_u32_at(b, 24 + f) == s,
        is_data_tag(b, 28 + f + s),
        le_u32_at(b, 32 + f + s) == d,
        d > 0,
        b.len() >= 36 + f + s,
    ensures
        scan_file(b) == (WavScan::Found { byte_rate: r, data_size: d }),
{
    let total = b.len() as int;
    let u = 20 + f;
    let dp = u + 8 + s;
    assert(scan_chunks(b, total, dp, r, 0) == (WavScan::Found { byte_rate: r, data_size: d }));
    assert(scan_chunks(b, total, u, r, 0) == scan_chunks(b, total, dp, r, 0));
    assert(scan_chunks(b, total, 12, 0, 0) == scan_chunks(b, total, u, r, 0));
}


/// A plain WAV header (`RIFF`, a size, `WAVE`, a `fmt ` chunk of `f >= 12`
/// bytes with byte rate `r > 0`, then a `data` chunk of `d > 0` bytes)
/// scans to that byte rate and data size.
pub proof fn plain_header_scans_to_its_values(b: Seq<u8>, f: u32, r: u32, d: u32)
    requires
        tag_at(b, 0, 0x52, 0x49, 0x46, 0x46),
        tag_at(b, 8, 0x57, 0x41, 0x56, 0x45),
        12 <= f,
        is_fmt_tag(b, 12),
        le_u32_at(b, 16) == f,
        le_u32_at(b, 28) == r,
        r > 0,
        is_data_tag(b, 20 + f),
        le_u32_at(b, 24 + f) == d,
        d > 0,
        b.len() >= 28 + f,
    ensures
        scan_file(b) == (WavScan::Found { byte_rate: r, data_size: d }),
{
    let total = b.len() as int;
    assert(scan_chunks(b, total, 20 + f, r, 0) == (WavScan::Found { byte_rate: r, data_size: d }));
    assert(scan_chunks(b, total, 12, 0, 0) == scan_chunks(b, total, 20 + f, r, 0));
}

/// A file of at least 12 bytes that does not start with `RIFF` is refused
/// as not RIFF; one that does but has no `WAVE` at offset 8 is refused as
/// not WAVE.
pub proof fn non_wave_files_are_refused(b: Seq<u8>)
    requires
        b.len() >= 12,
    ensures
        !tag_at(b, 0, 0x52, 0x49, 0x46, 0x46) ==> scan_file(b) == WavScan::NotRiff,
        tag_at(b, 0, 0x52, 0x49, 0x46, 0x46) && !tag_at(b, 8, 0x57, 0x41, 0x56, 0x45)
            ==> scan_file(b) == WavScan::NotWave,
{
}

} // verus!
