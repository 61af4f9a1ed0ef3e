//! Model of the SBI console: the kernel's view of every byte handed to the
//! firmware for output, in order.
//!
//! The surrounding unverified glue forwards newly appended bytes to the
//! firmware's console-write call; the model is the source of truth for what
//! is emitted and in which order.

use vstd::prelude::*;
use vstd::utf8::{valid_first_scalar, valid_utf8};

verus! {

/// The byte stream emitted to the SBI console since boot.
pub struct Console {
    /// Every byte emitted so far, oldest first.
    pub bytes: Vec<u8>,
}

impl Console {
    /// An empty console stream, as at boot.
    pub fn new() -> (c: Console)
        ensures
            c.bytes@ == Seq::<u8>::empty(),
    {
        Console { bytes: Vec::new() }
    }

    /// Emits the bytes of `s`, in order.
    pub fn write_bytes(&mut self, s: &[u8])
        ensures
            final(self).bytes@ == old(self).bytes@ + s@,
    {
        let mut i: usize = 0;
        while i < s.len()
            invariant
                i <= s@.len(),
                self.bytes@ == old(self).bytes@ + s@.take(i as int),
            decreases s@.len() - i,
        {
            self.bytes.push(s[i]);
            i = i + 1;
            assert(self.bytes@ =~= old(self).bytes@ + s@.take(i as int));
        }
        assert(self.bytes@ =~= old(self).bytes@ + s@);
    }

    /// Emits the bytes of `s` followed by a newline.
    pub fn write_line(&mut self, s: &[u8])
        ensures
            final(self).bytes@ == old(self).bytes@ + s@ + seq![10u8],
    {
        self.write_bytes(s);
        self.bytes.push(10);
    }
}

/// Emits a string of bytes to the SBI console stream.
pub fn print(con: &mut Console, s: &[u8])
    ensures
        final(con).bytes@ == old(con).bytes@ + s@,
{
    con.write_bytes(s);
}

/// Decides whether `buf` is a valid UTF-8 encoding, exactly as
/// [`vstd::utf8::valid_utf8`] defines it; `write` accepts only such buffers.
pub fn utf8_check(buf: &[u8]) -> (ok: bool)
    ensures
        ok == valid_utf8(buf@),
{
    let n = buf.len();
    let mut i: usize = 0;
    assert(buf@.skip(0) =~= buf@);
    while i < n
        invariant
            i <= n,
            n == buf@.len(),
            valid_utf8(buf@) == valid_utf8(buf@.skip(i as int)),
        decreases n - i,
    {
        let ghost suffix = buf@.skip(i as int);
        let b0 = buf[i];
        assert(suffix[0] == b0);
        if b0 <= 0x7f {
            // One-byte scalar; never overlong, never a surrogate.
            proof {
                assert((b0 & 0x7f) < 0xd800) by (bit_vector);
                assert(valid_first_scalar(suffix));
                assert(vstd::utf8::pop_first_scalar(suffix) =~= buf@.skip(i as int + 1));
            }
            i = i + 1;
        } else if 0xc0 <= b0 && b0 <= 0xdf {
            if n - i < 2 {
                proof {
                    assert(!valid_first_scalar(suffix));
                }
                return false;
            }
            let b1 = buf[i + 1];
            assert(suffix[1] == b1);
            if !(0x80 <= b1 && b1 <= 0xbf) {
                proof {
                    assert(!valid_first_scalar(suffix));
                }
                return false;
            }
            let cp: u32 = (((b0 & 0x1f) as u32) << 6u32) | ((b1 & 0x3f) as u32);
            if cp < 0x80 {
                // Overlong two-byte encoding.
                proof {
                    assert(!valid_first_scalar(suffix));
                }
                return false;
            }
            proof {
                assert((((b0 & 0x1f) as u32) << 6u32) | ((b1 & 0x3f) as u32) <= 0x7ff)
                    by (bit_vector);
                assert(valid_first_scalar(suffix));
                assert(vstd::utf8::pop_first_scalar(suffix) =~= buf@.skip(i as int + 2));
            }
            i = i + 2;
        } else if 0xe0 <= b0 && b0 <= 0xef {
            if n - i < 3 {
                proof {
                    assert(!valid_first_scalar(suffix));
                }
                return false;
            }
            let b1 = buf[i + 1];
            let b2 = buf[i + 2];
            assert(suffix[1] == b1 && suffix[2] == b2);
            if !(0x80 <= b1 && b1 <= 0xbf) || !(0x80 <= b2 && b2 <= 0xbf) {
                proof {
                    assert(!valid_first_scalar(suffix));
                }
                return false;
            }
            let cp: u32 = (((b0 & 0x0f) as u32) << 12u32) | (((b1 & 0x3f) as u32) << 6u32) | ((b2
                & 0x3f) as u32);
            if cp < 0x800 || (0xd800 <= cp && cp <= 0xdfff) {
                // Overlong three-byte encoding or surrogate.
                proof {
                    assert(!valid_first_scalar(suffix));
                }
                return false;
            }
            proof {
                assert(valid_first_scalar(suffix));
                assert(vstd::utf8::pop_first_scalar(suffix) =~= buf@.skip(i as int + 3));
            }
            i = i + 3;
        } else if 0xf0 <= b0 && b0 <= 0xf7 {
            if n - i < 4 {
                proof {
                    assert(!valid_first_scalar(suffix));
                }
                return false;
            }
            let b1 = buf[i + 1];
            let b2 = buf[i + 2];
            let b3 = buf[i + 3];
            assert(suffix[1] == b1 && suffix[2] == b2 && suffix[3] == b3);
            if !(0x80 <= b1 && b1 <= 0xbf) || !(0x80 <= b2 && b2 <= 0xbf) || !(0x80 <= b3 && b3
                <= 0xbf) {
                proof {
                    assert(!valid_first_scalar(suffix));
                }
                return false;
            }
            let cp: u32 = (((b0 & 0x07) as u32) << 18u32) | (((b1 & 0x3f) as u32) << 12u32) | (((
            b2 & 0x3f) as u32) << 6u32) | ((b3 & 0x3f) as u32);
            if cp < 0x10000 || cp > 0x10ffff {
                // Overlong four-byte encoding or beyond the last scalar.
                proof {
                    assert(!valid_first_scalar(suffix));
                }
                return false;
            }
            proof {
                assert(valid_first_scalar(suffix));
                assert(vstd::utf8::pop_first_scalar(suffix) =~= buf@.skip(i as int + 4));
            }
            i = i + 4;
        } else {
            // 0xf8..=0xff: no UTF-8 leading byte has this form.
            proof {
                assert(!valid_first_scalar(suffix));
            }
            return false;
        }
    }
    proof {
        assert(buf@.skip(n as int) =~= Seq::<u8>::empty());
    }
    true
}

} // verus!
