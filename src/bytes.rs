//! Byte counts and their compact human-readable form.

use vstd::prelude::*;

use crate::text::{decimal, push_decimal};

verus! {

/// A number of bytes.
#[derive(Clone, Copy, Debug, Default, PartialEq, Eq, Structural)]
pub struct Bytes(pub usize);

/// The text of a byte count: plain bytes below 4096, otherwise whole
/// kilobytes below 4096 kb, otherwise whole megabytes, truncating each time.
pub open spec fn bytes_text(n: nat) -> Seq<char> {
    if n < 4096 {
        decimal(n) + " bytes"@
    } else if n / 1024 < 4096 {
        decimal(n / 1024) + "kb"@
    } else {
        decimal(n / 1024 / 1024) + "mb"@
    }
}

impl Bytes {
    /// Appends the text of this count to `out`.
    pub fn push_text(&self, out: &mut String)
        ensures
            final(out)@ == old(out)@ + bytes_text(self.0 as nat),
    {
        let bytes = self.0;
        if bytes < 4096 {
            push_decimal(out, bytes as u64);
            out.append(" bytes");
            return;
        }
        let kb = bytes / 1024;
        if kb < 4096 {
            push_decimal(out, kb as u64);
            out.append("kb");
            return;
        }
        let mb = kb / 1024;
        push_decimal(out, mb as u64);
        out.append("mb");
    }

    /// The text of this count, such as `4095 bytes`, `4kb` or `4mb`.
    pub fn to_string(&self) -> (r: String)
        ensures
            r@ == bytes_text(self.0 as nat),
    {
        let mut out = String::new();
        self.push_text(&mut out);
        out
    }

    /// Adds `x` bytes to the count.
    pub fn add_assign(&mut self, x: usize)
        requires
            old(self).0 + x <= usize::MAX,
        ensures
            final(self).0 == old(self).0 + x,
    {
        self.0 = self.0 + x;
    }
}

} // verus!
