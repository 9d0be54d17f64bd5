//! The serial port, as test ROMs use it for text output: a byte written to
//! SB (0xFF01) is sent when 0x81 (start, internal clock) is written to SC
//! (0xFF02). Sent bytes are collected; test ROMs print "Passed" or "Failed".

use crate::text::{lossy_text, occurs, occurs_at, utf8_lossy};
use vstd::prelude::*;

verus! {

pub const SB_ADDR: u16 = 0xFF01;
pub const SC_ADDR: u16 = 0xFF02;

/// "Passed" in ASCII.
pub const PASSED: [u8; 6] = [0x50, 0x61, 0x73, 0x73, 0x65, 0x64];

/// "Failed" in ASCII.
pub const FAILED: [u8; 6] = [0x46, 0x61, 0x69, 0x6C, 0x65, 0x64];

/// Whether `needle` occurs in `hay`.
pub fn find_bytes(hay: &[u8], needle: &[u8]) -> (r: bool)
    ensures
        r == occurs(hay@, needle@),
{
    if needle.len() > hay.len() {
        proof {
            assert forall|i: int| !occurs_at(hay@, needle@, i) by {}
        }
        return false;
    }
    let last = hay.len() - needle.len();
    let mut i: usize = 0;
    loop
        invariant
            hay@.len() >= needle@.len(),
            last == hay@.len() - needle@.len(),
            i <= last,
            forall|k: int| 0 <= k < i ==> !occurs_at(hay@, needle@, k),
        ensures
            forall|k: int| 0 <= k <= last ==> !occurs_at(hay@, needle@, k),
        decreases last - i,
    {
        let mut j: usize = 0;
        let mut same = true;
        while j < needle.len()
            invariant
                hay@.len() >= needle@.len(),
                i <= last,
                last == hay@.len() - needle@.len(),
                j <= needle@.len(),
                same == (forall|t: int| 0 <= t < j ==> hay@[i + t] == needle@[t]),
            decreases needle@.len() - j,
        {
            assert(i + j < hay.len());
            if hay[i + j] != needle[j] {
                same = false;
            }
            j = j + 1;
        }
        if same {
            proof {
                assert(hay@.subrange(i as int, i + needle@.len()) =~= needle@);
                assert(occurs_at(hay@, needle@, i as int));
            }
            return true;
        }
        proof {
            if occurs_at(hay@, needle@, i as int) {
                assert forall|t: int| 0 <= t < needle@.len() implies hay@[i + t] == needle@[t] by {
                    assert(hay@.subrange(i as int, i + needle@.len())[t] == needle@[t]);
                }
            }
        }
        if i == last {
            break;
        }
        i = i + 1;
    }
    proof {
        assert forall|k: int| !occurs_at(hay@, needle@, k) by {
            if occurs_at(hay@, needle@, k) {
                assert(0 <= k <= last);
            }
        }
    }
    false
}

pub struct Serial {
    /// Every byte sent so far.
    pub output: Vec<u8>,
}

impl Serial {
    /// No output yet.
    pub fn new() -> (r: Self)
        ensures
            r.output@ == Seq::<u8>::empty(),
    {
        Serial { output: Vec::new() }
    }

    /// A write to SC: with bits 7 and 0 set, SB is sent.
    pub fn on_sc_write(&mut self, sb: u8, sc: u8)
        ensures
            final(self).output@ == if sc & 0x81 == 0x81 {
                old(self).output@.push(sb)
            } else {
                old(self).output@
            },
    {
        if sc & 0x81 == 0x81 {
            self.output.push(sb);
        }
    }

    /// The output as text, invalid UTF-8 replaced.
    pub fn output_str(&self) -> (r: String)
        ensures
            r@ == lossy_text(self.output@),
    {
        utf8_lossy(self.output.as_slice())
    }

    /// The output contains "Passed". (The word is ASCII, so it occurs in the
    /// decoded text exactly where its bytes occur in the output.)
    pub fn passed(&self) -> (r: bool)
        ensures
            r == occurs(self.output@, PASSED@),
    {
        let needle = PASSED;
        find_bytes(self.output.as_slice(), &needle)
    }

    /// The output contains "Failed".
    pub fn failed(&self) -> (r: bool)
        ensures
            r == occurs(self.output@, FAILED@),
    {
        let needle = FAILED;
        find_bytes(self.output.as_slice(), &needle)
    }

    /// Some test passed and none failed.
    pub fn all_passed(&self) -> (r: bool)
        ensures
            r == (occurs(self.output@, PASSED@) && !occurs(self.output@, FAILED@)),
    {
        self.passed() && !self.failed()
    }
}

impl Default for Serial {
    fn default() -> (r: Self)
        ensures
            r.output@ == Seq::<u8>::empty(),
    {
        Self::new()
    }
}

} // verus!
