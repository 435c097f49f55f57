//! The memory image of a Glulx machine.
//!
//! A story file holds the memory from address 0 up to EXTSTART. The image in
//! use reaches up to ENDMEM, or further once the program has asked for more:
//!
//! * `[0, RAMSTART)` is the ROM, with the header in its first 36 bytes;
//! * `[RAMSTART, EXTSTART)` is the RAM that the story file initialises;
//! * `[EXTSTART, ENDMEM)` is RAM that starts as zeros.
//!
//! All values of more than one byte are big-endian.

use crate::bytes::{
    be_bytes_u16, be_bytes_u32, be_read_u16, be_read_u32, be_u16, be_u32, be_write_u16,
    be_write_u32, lemma_digits, lemma_enc_dec_u16, lemma_enc_dec_u32, splice,
};
use vstd::prelude::*;

verus! {

/// The magic number of a Glulx story file: the bytes of `Glul`.
pub const MAGIC_NUMBER: u32 = 0x476C756C;

/// The oldest Glulx version that is supported, 2.0.0.
pub const MIN_VERSION: u32 = 0x0002_0000;

/// The newest Glulx version that is supported, 3.1.255.
pub const MAX_VERSION: u32 = 0x0003_01FF;

/// The length of the header in bytes.
pub const HEADER_LEN: usize = 0x24;

/// Why a story file was refused.
#[derive(Clone, Copy, Debug, PartialEq, Eq, Structural)]
pub enum LoadError {
    /// The file is shorter than a header, or its length is not EXTSTART.
    BadSize,
    /// The first word is not the magic number.
    BadMagic,
    /// The version is below 2.0.0.
    VersionTooOld,
    /// The version is above 3.1.255.
    VersionTooNew,
    /// RAMSTART is below 0x100.
    RamstartTooSmall,
    /// RAMSTART is not a multiple of 0x100.
    RamstartMisaligned,
    /// EXTSTART is below RAMSTART.
    ExtstartBelowRamstart,
    /// EXTSTART is not a multiple of 0x100.
    ExtstartMisaligned,
    /// ENDMEM is below EXTSTART.
    EndmemBelowExtstart,
    /// ENDMEM is not a multiple of 0x100.
    EndmemMisaligned,
    /// The stack size is not a multiple of 0x100.
    StackSizeMisaligned,
    /// The checksum word does not match the words of the file.
    BadChecksum,
}

/// The five families of load errors.
#[derive(Clone, Copy, Debug, PartialEq, Eq, Structural)]
pub enum LoadErrorKind {
    Magic,
    Version,
    Alignment,
    Size,
    Checksum,
}

impl LoadError {
    /// The family of this error.
    pub open spec fn spec_kind(self) -> LoadErrorKind {
        match self {
            LoadError::BadMagic => LoadErrorKind::Magic,
            LoadError::VersionTooOld | LoadError::VersionTooNew => LoadErrorKind::Version,
            LoadError::RamstartMisaligned
            | LoadError::ExtstartMisaligned
            | LoadError::EndmemMisaligned
            | LoadError::StackSizeMisaligned => LoadErrorKind::Alignment,
            LoadError::BadSize
            | LoadError::RamstartTooSmall
            | LoadError::ExtstartBelowRamstart
            | LoadError::EndmemBelowExtstart => LoadErrorKind::Size,
            LoadError::BadChecksum => LoadErrorKind::Checksum,
        }
    }

    /// The family of this error.
    pub fn kind(&self) -> (k: LoadErrorKind)
        ensures
            k == self.spec_kind(),
    {
        match self {
            LoadError::BadMagic => LoadErrorKind::Magic,
            LoadError::VersionTooOld | LoadError::VersionTooNew => LoadErrorKind::Version,
            LoadError::RamstartMisaligned
            | LoadError::ExtstartMisaligned
            | LoadError::EndmemMisaligned
            | LoadError::StackSizeMisaligned => LoadErrorKind::Alignment,
            LoadError::BadSize
            | LoadError::RamstartTooSmall
            | LoadError::ExtstartBelowRamstart
            | LoadError::EndmemBelowExtstart => LoadErrorKind::Size,
            LoadError::BadChecksum => LoadErrorKind::Checksum,
        }
    }

    /// The reason in words.
    pub open spec fn spec_message(self) -> Seq<char> {
        match self {
            LoadError::BadSize => "rom size is not correct"@,
            LoadError::BadMagic => "executable code starts with invalid magic number"@,
            LoadError::VersionTooOld => "executable code glulx version is less than 2.0.0"@,
            LoadError::VersionTooNew => "executable code glulx version is greater than 3.1.x"@,
            LoadError::RamstartTooSmall => "ramstart is less than 0x100 bytes"@,
            LoadError::RamstartMisaligned => "ramstart is misaligned"@,
            LoadError::ExtstartBelowRamstart => "extstart is less than ramstart"@,
            LoadError::ExtstartMisaligned => "extstart is misaligned"@,
            LoadError::EndmemBelowExtstart => "endmem is less than extstart"@,
            LoadError::EndmemMisaligned => "endmem is misaligned"@,
            LoadError::StackSizeMisaligned => "stack size is misaligned"@,
            LoadError::BadChecksum => "rom checksum is not correct"@,
        }
    }

    /// The reason in words.
    pub fn message(&self) -> (s: String)
        ensures
            s@ == self.spec_message(),
    {
        broadcast use vstd::string::to_string_from_display_ensures_for_str;

        match self {
            LoadError::BadSize => "rom size is not correct".to_string(),
            LoadError::BadMagic => "executable code starts with invalid magic number".to_string(),
            LoadError::VersionTooOld => "executable code glulx version is less than 2.0.0".to_string(),
            LoadError::VersionTooNew => "executable code glulx version is greater than 3.1.x".to_string(),
            LoadError::RamstartTooSmall => "ramstart is less than 0x100 bytes".to_string(),
            LoadError::RamstartMisaligned => "ramstart is misaligned".to_string(),
            LoadError::ExtstartBelowRamstart => "extstart is less than ramstart".to_string(),
            LoadError::ExtstartMisaligned => "extstart is misaligned".to_string(),
            LoadError::EndmemBelowExtstart => "endmem is less than extstart".to_string(),
            LoadError::EndmemMisaligned => "endmem is misaligned".to_string(),
            LoadError::StackSizeMisaligned => "stack size is misaligned".to_string(),
            LoadError::BadChecksum => "rom checksum is not correct".to_string(),
        }
    }
}

/// The big-endian word that starts at byte `off` of `image`.
#[verifier::opaque]
pub open spec fn word_at(image: Seq<u8>, off: int) -> u32
    recommends
        0 <= off,
        off + 4 <= image.len(),
{
    be_u32(image.subrange(off, off + 4))
}

/// The sum, as an unbounded integer, of the first `n` big-endian words of `image`.
pub open spec fn word_sum(image: Seq<u8>, n: nat) -> int
    decreases n,
{
    if n == 0 {
        0
    } else {
        word_sum(image, (n - 1) as nat) + word_at(image, 4 * (n - 1))
    }
}

/// The checksum that the header of `image` must hold: the sum of all words
/// of the image modulo 2^32, with the checksum word itself counted as zero.
pub open spec fn expected_checksum(image: Seq<u8>) -> int
    recommends
        image.len() >= 0x24,
{
    (word_sum(image, image.len() / 4) - word_at(image, 0x20)) % 0x1_0000_0000
}

/// The first rule that `rom` breaks, in the order in which a story file is
/// checked, or `None` for a story file that can be loaded.
pub open spec fn load_error(rom: Seq<u8>) -> Option<LoadError> {
    if rom.len() < 0x24 {
        Some(LoadError::BadSize)
    } else if word_at(rom, 0x0) != MAGIC_NUMBER {
        Some(LoadError::BadMagic)
    } else if word_at(rom, 0x4) < MIN_VERSION {
        Some(LoadError::VersionTooOld)
    } else if word_at(rom, 0x4) > MAX_VERSION {
        Some(LoadError::VersionTooNew)
    } else if word_at(rom, 0x8) < 0x100 {
        Some(LoadError::RamstartTooSmall)
    } else if word_at(rom, 0x8) % 0x100 != 0 {
        Some(LoadError::RamstartMisaligned)
    } else if word_at(rom, 0xC) < word_at(rom, 0x8) {
        Some(LoadError::ExtstartBelowRamstart)
    } else if word_at(rom, 0xC) % 0x100 != 0 {
        Some(LoadError::ExtstartMisaligned)
    } else if word_at(rom, 0x10) < word_at(rom, 0xC) {
        Some(LoadError::EndmemBelowExtstart)
    } else if word_at(rom, 0x10) % 0x100 != 0 {
        Some(LoadError::EndmemMisaligned)
    } else if word_at(rom, 0x14) % 0x100 != 0 {
        Some(LoadError::StackSizeMisaligned)
    } else if rom.len() != word_at(rom, 0xC) {
        Some(LoadError::BadSize)
    } else if word_at(rom, 0x20) != expected_checksum(rom) {
        Some(LoadError::BadChecksum)
    } else {
        None
    }
}

/// What a memory image is: its bytes, the two header values that were fixed
/// when it was loaded, and whether a heap is active.
pub struct MemoryView {
    pub bytes: Seq<u8>,
    pub ramstart: u32,
    pub endmem: u32,
    pub heap_mode: bool,
}

impl MemoryView {
    /// The header is there, the image is never shorter than ENDMEM, and every
    /// address fits in 32 bits.
    pub open spec fn wf(self) -> bool {
        &&& 0x24 <= self.endmem
        &&& self.endmem <= self.bytes.len()
        &&& self.bytes.len() <= u32::MAX
    }

    /// The image as loaded from the story file `rom`.
    pub open spec fn loaded(rom: Seq<u8>) -> MemoryView {
        MemoryView {
            bytes: rom + Seq::new((word_at(rom, 0x10) - rom.len()) as nat, |i: int| 0u8),
            ramstart: word_at(rom, 0x8),
            endmem: word_at(rom, 0x10),
            heap_mode: false,
        }
    }

    /// The `width` bytes from `ptr` on lie inside the image.
    pub open spec fn in_range(self, ptr: int, width: int) -> bool {
        0 <= ptr && ptr + width <= self.bytes.len()
    }

    /// The byte at `ptr`.
    pub open spec fn read_u8(self, ptr: int) -> u8 {
        self.bytes[ptr]
    }

    /// The big-endian 16-bit value at `ptr`.
    pub open spec fn read_u16(self, ptr: int) -> u16 {
        be_u16(self.bytes.subrange(ptr, ptr + 2))
    }

    /// The big-endian 32-bit value at `ptr`.
    pub open spec fn read_u32(self, ptr: int) -> u32 {
        be_u32(self.bytes.subrange(ptr, ptr + 4))
    }

    /// The image with the bytes `b` stored from `ptr` on.
    pub open spec fn store(self, ptr: int, b: Seq<u8>) -> MemoryView {
        MemoryView { bytes: splice(self.bytes, ptr, b), ..self }
    }

    /// The image with one byte stored at `ptr`.
    pub open spec fn write_u8(self, ptr: int, v: u8) -> MemoryView {
        self.store(ptr, seq![v])
    }

    /// The image with a big-endian 16-bit value stored at `ptr`.
    pub open spec fn write_u16(self, ptr: int, v: u16) -> MemoryView {
        self.store(ptr, be_bytes_u16(v))
    }

    /// The image with a big-endian 32-bit value stored at `ptr`.
    pub open spec fn write_u32(self, ptr: int, v: u32) -> MemoryView {
        self.store(ptr, be_bytes_u32(v))
    }

    /// The image with `size` zero bytes stored from `ptr` on.
    pub open spec fn zeroed(self, size: int, ptr: int) -> MemoryView {
        self.store(ptr, Seq::new(size as nat, |i: int| 0u8))
    }

    /// The image with the `size` bytes at `from` stored again from `to` on:
    /// the bytes copied are those that were there before the copy began.
    pub open spec fn copied(self, size: int, from: int, to: int) -> MemoryView {
        self.store(to, self.bytes.subrange(from, from + size))
    }

    /// Whether a change of the image's size to `value` is granted.
    pub open spec fn may_resize(self, value: u32) -> bool {
        !self.heap_mode && value % 0x100 == 0 && value >= self.endmem
    }

    /// The image at the size `value`: cut there, or extended to there by zeros.
    pub open spec fn resized(self, value: u32) -> MemoryView {
        MemoryView {
            bytes: if value <= self.bytes.len() {
                self.bytes.subrange(0, value as int)
            } else {
                self.bytes + Seq::new((value - self.bytes.len()) as nat, |i: int| 0u8)
            },
            ..self
        }
    }
}

/// The big-endian word that starts at byte `off` of `rom`.
fn read_word(rom: &Vec<u8>, off: usize) -> (r: u32)
    requires
        off + 4 <= rom@.len(),
    ensures
        r == word_at(rom@, off as int),
{
    reveal(word_at);
    be_read_u32(rom, off)
}

/// The checksum that the header of `rom` must hold.
fn image_checksum(rom: &Vec<u8>) -> (r: u32)
    requires
        rom@.len() >= 0x24,
    ensures
        r == expected_checksum(rom@),
{
    let len: usize = rom.len();
    let words: usize = len / 4;
    let mut sum: u32 = 0;
    let mut i: usize = 0;
    while i < words
        invariant
            len == rom@.len(),
            words == len / 4,
            i <= words,
            sum == word_sum(rom@, i as nat) % 0x1_0000_0000,
        decreases words - i,
    {
        assert(i * 4 + 4 <= len);
        let word = read_word(rom, i * 4);
        proof {
            let a = word_sum(rom@, i as nat);
            assert(word_sum(rom@, (i + 1) as nat) == a + word);
            assert((a % 0x1_0000_0000 + word) % 0x1_0000_0000 == (a + word) % 0x1_0000_0000);
        }
        sum = sum.wrapping_add(word);
        i += 1;
    }
    let stored = read_word(rom, 0x20);
    proof {
        let a = word_sum(rom@, words as nat);
        assert((a % 0x1_0000_0000 - stored) % 0x1_0000_0000 == (a - stored) % 0x1_0000_0000);
    }
    sum.wrapping_sub(stored)
}

/// Storing the byte that was read at `ptr` leaves the memory as it was,
/// whether the byte is taken as unsigned or as signed.
pub proof fn lemma_write_back_u8(m: MemoryView, ptr: int)
    requires
        m.in_range(ptr, 1),
    ensures
        m.write_u8(ptr, m.read_u8(ptr)) == m,
        m.write_u8(ptr, (m.read_u8(ptr) as i8) as u8) == m,
{
    let b = m.read_u8(ptr);
    assert((b as i8) as u8 == b) by (bit_vector);
    assert(splice(m.bytes, ptr, seq![b]) =~= m.bytes);
}

/// Storing the 16-bit value that was read at `ptr` leaves the memory as it
/// was, whether the value is taken as unsigned or as signed.
pub proof fn lemma_write_back_u16(m: MemoryView, ptr: int)
    requires
        m.in_range(ptr, 2),
    ensures
        m.write_u16(ptr, m.read_u16(ptr)) == m,
        m.write_u16(ptr, (m.read_u16(ptr) as i16) as u16) == m,
{
    let v = m.read_u16(ptr);
    assert((v as i16) as u16 == v) by (bit_vector);
    lemma_enc_dec_u16(false, m.bytes.subrange(ptr, ptr + 2));
    assert(splice(m.bytes, ptr, m.bytes.subrange(ptr, ptr + 2)) =~= m.bytes);
}

/// Storing the 32-bit value that was read at `ptr` leaves the memory as it
/// was, whether the value is taken as unsigned or as signed.
pub proof fn lemma_write_back_u32(m: MemoryView, ptr: int)
    requires
        m.in_range(ptr, 4),
    ensures
        m.write_u32(ptr, m.read_u32(ptr)) == m,
        m.write_u32(ptr, (m.read_u32(ptr) as i32) as u32) == m,
{
    let v = m.read_u32(ptr);
    assert((v as i32) as u32 == v) by (bit_vector);
    lemma_enc_dec_u32(false, m.bytes.subrange(ptr, ptr + 4));
    assert(splice(m.bytes, ptr, m.bytes.subrange(ptr, ptr + 4)) =~= m.bytes);
}

/// A change of the byte `i` changes the sum of the first `n` words by the
/// change of the word that holds the byte, where that word is among them.
proof fn lemma_word_sum_update(rom: Seq<u8>, i: int, b: u8, n: nat)
    requires
        0 <= i < rom.len(),
        4 * n <= rom.len(),
    ensures
        word_sum(rom.update(i, b), n) == word_sum(rom, n) + if i / 4 < n {
            word_at(rom.update(i, b), 4 * (i / 4)) - word_at(rom, 4 * (i / 4))
        } else {
            0
        },
    decreases n,
{
    if n > 0 {
        lemma_word_sum_update(rom, i, b, (n - 1) as nat);
        if i / 4 != n - 1 {
            lemma_word_untouched(rom, i, b, 4 * (n - 1));
        }
    }
}

/// A change of the byte `i` leaves a word that does not hold it as it was.
proof fn lemma_word_untouched(rom: Seq<u8>, i: int, b: u8, off: int)
    requires
        0 <= i < rom.len(),
        0 <= off,
        off + 4 <= rom.len(),
        i < off || off + 4 <= i,
    ensures
        word_at(rom.update(i, b), off) == word_at(rom, off),
{
    reveal(word_at);
    assert(rom.update(i, b).subrange(off, off + 4) =~= rom.subrange(off, off + 4));
}

/// A change of the byte `i` changes the word that holds it, by less than 2^32.
proof fn lemma_word_changes(rom: Seq<u8>, i: int, b: u8)
    requires
        0 <= i,
        4 * (i / 4) + 4 <= rom.len(),
        b != rom[i],
    ensures
        word_at(rom.update(i, b), 4 * (i / 4)) != word_at(rom, 4 * (i / 4)),
{
    reveal(word_at);
    let w = 4 * (i / 4);
    let before = rom.subrange(w, w + 4);
    let after = rom.update(i, b).subrange(w, w + 4);
    assert(after =~= before.update(i - w, b));
    lemma_digits(before[0] as int, before[1] as int, before[2] as int, before[3] as int);
    lemma_digits(after[0] as int, after[1] as int, after[2] as int, after[3] as int);
}

/// A story file that can be loaded cannot be loaded any more once one of
/// its bytes has changed: the change breaks a rule of the header, the
/// length, or the checksum.
pub proof fn lemma_mutation_detected(rom: Seq<u8>, i: int, b: u8)
    requires
        load_error(rom) is None,
        0 <= i < rom.len(),
        b != rom[i],
    ensures
        load_error(rom.update(i, b)) is Some,
{
    let changed = rom.update(i, b);
    if load_error(changed) is None {
        let n = (rom.len() / 4) as nat;
        assert(rom.len() == word_at(rom, 0xC));
        assert(rom.len() % 4 == 0);
        assert(i / 4 < n);
        lemma_word_sum_update(rom, i, b, n);
        lemma_word_changes(rom, i, b);
        let d = word_at(changed, 4 * (i / 4)) - word_at(rom, 4 * (i / 4));
        let sum = word_sum(rom, n);
        let stored = word_at(rom, 0x20);
        assert(stored == (sum - stored) % 0x1_0000_0000);
        if i / 4 == 8 {
            assert(word_at(changed, 0x20) == stored + d);
            assert(stored + d == (sum + d - (stored + d)) % 0x1_0000_0000);
            assert(false);
        } else {
            lemma_word_untouched(rom, i, b, 0x20);
            assert(stored == (sum + d - stored) % 0x1_0000_0000);
            assert(false);
        }
    }
}

/// The memory of a Glulx machine.
pub struct GlulxMemory {
    heap_mode: bool,
    ramstart: u32,
    endmem: u32,
    memory: Vec<u8>,
}

impl View for GlulxMemory {
    type V = MemoryView;

    closed spec fn view(&self) -> MemoryView {
        MemoryView {
            bytes: self.memory@,
            ramstart: self.ramstart,
            endmem: self.endmem,
            heap_mode: self.heap_mode,
        }
    }
}

impl GlulxMemory {
    /// Checks that `rom` is a Glulx story file and builds the memory image
    /// from it: the file's bytes, followed by zeros up to ENDMEM. A file that
    /// breaks a rule is refused with the first rule that it breaks.
    pub fn from_rom(rom: Vec<u8>) -> (r: Result<GlulxMemory, LoadError>)
        ensures
            match r {
                Ok(m) => load_error(rom@) is None && m@ == MemoryView::loaded(rom@) && m@.wf(),
                Err(e) => load_error(rom@) == Some(e),
            },
    {
        if rom.len() < HEADER_LEN {
            return Err(LoadError::BadSize);
        }
        let magic_number = read_word(&rom, 0x0);
        if magic_number != MAGIC_NUMBER {
            return Err(LoadError::BadMagic);
        }
        let glulx_version = read_word(&rom, 0x4);
        if glulx_version < MIN_VERSION {
            return Err(LoadError::VersionTooOld);
        } else if glulx_version > MAX_VERSION {
            return Err(LoadError::VersionTooNew);
        }
        let ramstart = read_word(&rom, 0x8);
        if ramstart < 0x100 {
            return Err(LoadError::RamstartTooSmall);
        } else if ramstart % 0x100 != 0 {
            return Err(LoadError::RamstartMisaligned);
        }
        let extstart = read_word(&rom, 0xC);
        if extstart < ramstart {
            return Err(LoadError::ExtstartBelowRamstart);
        } else if extstart % 0x100 != 0 {
            return Err(LoadError::ExtstartMisaligned);
        }
        let endmem = read_word(&rom, 0x10);
        if endmem < extstart {
            return Err(LoadError::EndmemBelowExtstart);
        } else if endmem % 0x100 != 0 {
            return Err(LoadError::EndmemMisaligned);
        }
        let stack_size = read_word(&rom, 0x14);
        if stack_size % 0x100 != 0 {
            return Err(LoadError::StackSizeMisaligned);
        }
        if rom.len() != extstart as usize {
            return Err(LoadError::BadSize);
        }
        let checksum = read_word(&rom, 0x20);
        let sum = image_checksum(&rom);
        if checksum != sum {
            return Err(LoadError::BadChecksum);
        }
        let ghost image = rom@;
        let mut rom = rom;
        rom.resize(endmem as usize, 0x0);
        assert(rom@ =~= MemoryView::loaded(image).bytes);
        Ok(GlulxMemory { heap_mode: false, ramstart, endmem, memory: rom })
    }

    /// Fills the `size` bytes from `ptr` on with zeros.
    pub fn zero_range(&mut self, size: u32, ptr: u32)
        requires
            old(self)@.in_range(ptr as int, size as int),
        ensures
            final(self)@ == old(self)@.zeroed(size as int, ptr as int),
    {
        let len = self.memory.len();
        let end: usize = ptr as usize + size as usize;
        let mut i: usize = ptr as usize;
        while i < end
            invariant
                ptr <= i <= end,
                end == ptr + size,
                end <= self.memory@.len(),
                self.memory@.len() == old(self).memory@.len(),
                self.heap_mode == old(self).heap_mode,
                self.ramstart == old(self).ramstart,
                self.endmem == old(self).endmem,
                forall|k: int|
                    0 <= k < ptr || i <= k < self.memory@.len()
                        ==> self.memory@[k] == old(self).memory@[k],
                forall|k: int| ptr <= k < i ==> self.memory@[k] == 0u8,
            decreases end - i,
        {
            self.memory[i] = 0;
            i += 1;
        }
        assert(self.memory@ =~= old(self)@.zeroed(size as int, ptr as int).bytes);
    }

    /// Copies the `size` bytes at `from_ptr` to `to_ptr`. Where the two
    /// ranges overlap, the result is that of a copy through a buffer.
    pub fn copy_range(&mut self, size: u32, from_ptr: u32, to_ptr: u32)
        requires
            old(self)@.in_range(from_ptr as int, size as int),
            old(self)@.in_range(to_ptr as int, size as int),
        ensures
            final(self)@ == old(self)@.copied(size as int, from_ptr as int, to_ptr as int),
    {
        let len = self.memory.len();
        let to_ptr = to_ptr as usize;
        let from_ptr = from_ptr as usize;
        let size = size as usize;
        if to_ptr <= from_ptr {
            let mut i: usize = 0;
            while i < size
                invariant
                    i <= size,
                    to_ptr <= from_ptr,
                    from_ptr + size <= len,
                    len == self.memory@.len(),
                    self.memory@.len() == old(self).memory@.len(),
                    self.heap_mode == old(self).heap_mode,
                    self.ramstart == old(self).ramstart,
                    self.endmem == old(self).endmem,
                    forall|k: int|
                        0 <= k < to_ptr || to_ptr + i <= k < self.memory@.len()
                            ==> self.memory@[k] == old(self).memory@[k],
                    forall|k: int|
                        to_ptr <= k < to_ptr + i
                            ==> self.memory@[k] == old(self).memory@[k - to_ptr + from_ptr],
                decreases size - i,
            {
                let b = self.memory[from_ptr + i];
                self.memory[to_ptr + i] = b;
                i += 1;
            }
        } else {
            let mut i: usize = size;
            while i > 0
                invariant
                    i <= size,
                    to_ptr > from_ptr,
                    to_ptr + size <= len,
                    len == self.memory@.len(),
                    self.memory@.len() == old(self).memory@.len(),
                    self.heap_mode == old(self).heap_mode,
                    self.ramstart == old(self).ramstart,
                    self.endmem == old(self).endmem,
                    forall|k: int|
                        0 <= k < to_ptr + i || to_ptr + size <= k < self.memory@.len()
                            ==> self.memory@[k] == old(self).memory@[k],
                    forall|k: int|
                        to_ptr + i <= k < to_ptr + size
                            ==> self.memory@[k] == old(self).memory@[k - to_ptr + from_ptr],
                decreases i,
            {
                i -= 1;
                let b = self.memory[from_ptr + i];
                self.memory[to_ptr + i] = b;
            }
        }
        assert(self.memory@ =~= old(self)@.copied(size as int, from_ptr as int, to_ptr as int).bytes);
    }

    /// The Glulx version that the header names: the major version in the
    /// upper two bytes, then the minor version and the patch level.
    pub fn glulx_version(&self) -> (r: u32)
        requires
            self@.wf(),
        ensures
            r == self@.read_u32(0x4),
    {
        be_read_u32(&self.memory, 0x4)
    }

    /// The address at which the RAM starts, as the story file gave it.
    pub fn ramstart(&self) -> (r: u32)
        ensures
            r == self@.ramstart,
    {
        self.ramstart
    }

    /// The end of the memory that the story file asked for.
    pub fn endmem(&self) -> (r: u32)
        ensures
            r == self@.endmem,
    {
        self.endmem
    }

    /// The size of the stack that the header asks for.
    pub fn stack_size(&self) -> (r: u32)
        requires
            self@.wf(),
        ensures
            r == self@.read_u32(0x14),
    {
        be_read_u32(&self.memory, 0x14)
    }

    /// The address of the function at which execution starts.
    pub fn start_func(&self) -> (r: u32)
        requires
            self@.wf(),
        ensures
            r == self@.read_u32(0x18),
    {
        be_read_u32(&self.memory, 0x18)
    }

    /// The size of the memory in bytes.
    pub fn get_mem_size(&self) -> (r: u32)
        requires
            self@.wf(),
        ensures
            r == self@.bytes.len(),
    {
        self.memory.len() as u32
    }

    /// Changes the size of the memory to `value` and returns 0, where no heap
    /// is active, `value` is a multiple of 0x100 and `value` is not below
    /// ENDMEM. Otherwise returns 1 and changes nothing.
    pub fn set_mem_size(&mut self, value: u32) -> (r: u32)
        requires
            old(self)@.wf(),
        ensures
            final(self)@.wf(),
            old(self)@.may_resize(value) ==> r == 0 && final(self)@ == old(self)@.resized(value),
            !old(self)@.may_resize(value) ==> r == 1 && final(self)@ == old(self)@,
    {
        if !self.heap_mode && value % 0x100 == 0 && value >= self.endmem {
            self.memory.resize(value as usize, 0x0);
            assert(self.memory@ =~= old(self)@.resized(value).bytes);
            0
        } else {
            1
        }
    }
}

/// Reading and writing values of one type in memory. Every value of more
/// than one byte is stored big-endian, at any address, aligned or not.
pub trait Memory<T> {
    /// What the memory is.
    spec fn image(&self) -> MemoryView;

    /// A value of this type at `ptr` lies inside the memory.
    spec fn holds(&self, ptr: u32) -> bool;

    /// A value of this type at `ptr` bytes after RAMSTART lies inside the memory.
    spec fn ram_holds(&self, ptr: u32) -> bool;

    /// The value at `ptr`.
    spec fn value_at(&self, ptr: u32) -> T;

    /// The value at `ptr` bytes after RAMSTART.
    spec fn ram_value_at(&self, ptr: u32) -> T;

    /// The memory with `value` stored at `ptr`.
    spec fn with_value(&self, ptr: u32, value: T) -> MemoryView;

    /// The memory with `value` stored at `ptr` bytes after RAMSTART.
    spec fn with_ram_value(&self, ptr: u32, value: T) -> MemoryView;

    /// Reads the value at `ptr`.
    fn read(&self, ptr: u32) -> (r: T)
        requires
            self.holds(ptr),
        ensures
            r == self.value_at(ptr),
    ;

    /// Stores `value` at `ptr`.
    fn write(&mut self, ptr: u32, value: T)
        requires
            old(self).holds(ptr),
        ensures
            final(self).image() == old(self).with_value(ptr, value),
    ;

    /// Reads the value at `ptr` bytes after RAMSTART.
    fn ram_read(&self, ptr: u32) -> (r: T)
        requires
            self.ram_holds(ptr),
        ensures
            r == self.ram_value_at(ptr),
    ;

    /// Stores `value` at `ptr` bytes after RAMSTART.
    fn ram_write(&mut self, ptr: u32, value: T)
        requires
            old(self).ram_holds(ptr),
        ensures
            final(self).image() == old(self).with_ram_value(ptr, value),
    ;
}

impl Memory<u8> for GlulxMemory {
    open spec fn image(&self) -> MemoryView {
        self@
    }

    open spec fn holds(&self, ptr: u32) -> bool {
        self@.in_range(ptr as int, 1)
    }

    open spec fn ram_holds(&self, ptr: u32) -> bool {
        self@.in_range(self@.ramstart + ptr, 1)
    }

    open spec fn value_at(&self, ptr: u32) -> u8 {
        self@.read_u8(ptr as int)
    }

    open spec fn ram_value_at(&self, ptr: u32) -> u8 {
        self@.read_u8(self@.ramstart + ptr)
    }

    open spec fn with_value(&self, ptr: u32, value: u8) -> MemoryView {
        self@.write_u8(ptr as int, value)
    }

    open spec fn with_ram_value(&self, ptr: u32, value: u8) -> MemoryView {
        self@.write_u8(self@.ramstart + ptr, value)
    }

    fn read(&self, ptr: u32) -> (r: u8) {
        let pos = ptr as usize;
        self.memory[pos]
    }

    fn write(&mut self, ptr: u32, value: u8) {
        let pos = ptr as usize;
        let ghost before = self.memory@;
        self.memory[pos] = value;
        assert(self.memory@ =~= splice(before, pos as int, seq![value]));
    }

    fn ram_read(&self, ptr: u32) -> (r: u8) {
        let len = self.memory.len();
        let pos = ptr as usize + self.ramstart as usize;
        self.memory[pos]
    }

    fn ram_write(&mut self, ptr: u32, value: u8) {
        let len = self.memory.len();
        let pos = ptr as usize + self.ramstart as usize;
        let ghost before = self.memory@;
        self.memory[pos] = value;
        assert(self.memory@ =~= splice(before, pos as int, seq![value]));
    }
}

impl Memory<i8> for GlulxMemory {
    open spec fn image(&self) -> MemoryView {
        self@
    }

    open spec fn holds(&self, ptr: u32) -> bool {
        self@.in_range(ptr as int, 1)
    }

    open spec fn ram_holds(&self, ptr: u32) -> bool {
        self@.in_range(self@.ramstart + ptr, 1)
    }

    open spec fn value_at(&self, ptr: u32) -> i8 {
        self@.read_u8(ptr as int) as i8
    }

    open spec fn ram_value_at(&self, ptr: u32) -> i8 {
        self@.read_u8(self@.ramstart + ptr) as i8
    }

    open spec fn with_value(&self, ptr: u32, value: i8) -> MemoryView {
        self@.write_u8(ptr as int, value as u8)
    }

    open spec fn with_ram_value(&self, ptr: u32, value: i8) -> MemoryView {
        self@.write_u8(self@.ramstart + ptr, value as u8)
    }

    fn read(&self, ptr: u32) -> (r: i8) {
        let pos = ptr as usize;
        let v = self.memory[pos];
        #[verifier::truncate]
        (v as i8)
    }

    fn write(&mut self, ptr: u32, value: i8) {
        let pos = ptr as usize;
        let v = #[verifier::truncate]
        (value as u8);
        let ghost before = self.memory@;
        self.memory[pos] = v;
        assert(self.memory@ =~= splice(before, pos as int, seq![v]));
    }

    fn ram_read(&self, ptr: u32) -> (r: i8) {
        let len = self.memory.len();
        let pos = ptr as usize + self.ramstart as usize;
        let v = self.memory[pos];
        #[verifier::truncate]
        (v as i8)
    }

    fn ram_write(&mut self, ptr: u32, value: i8) {
        let len = self.memory.len();
        let pos = ptr as usize + self.ramstart as usize;
        let v = #[verifier::truncate]
        (value as u8);
        let ghost before = self.memory@;
        self.memory[pos] = v;
        assert(self.memory@ =~= splice(before, pos as int, seq![v]));
    }
}

impl Memory<u16> for GlulxMemory {
    open spec fn image(&self) -> MemoryView {
        self@
    }

    open spec fn holds(&self, ptr: u32) -> bool {
        self@.in_range(ptr as int, 2)
    }

    open spec fn ram_holds(&self, ptr: u32) -> bool {
        self@.in_range(self@.ramstart + ptr, 2)
    }

    open spec fn value_at(&self, ptr: u32) -> u16 {
        self@.read_u16(ptr as int)
    }

    open spec fn ram_value_at(&self, ptr: u32) -> u16 {
        self@.read_u16(self@.ramstart + ptr)
    }

    open spec fn with_value(&self, ptr: u32, value: u16) -> MemoryView {
        self@.write_u16(ptr as int, value)
    }

    open spec fn with_ram_value(&self, ptr: u32, value: u16) -> MemoryView {
        self@.write_u16(self@.ramstart + ptr, value)
    }

    fn read(&self, ptr: u32) -> (r: u16) {
        let pos = ptr as usize;
        be_read_u16(&self.memory, pos)
    }

    fn write(&mut self, ptr: u32, value: u16) {
        let pos = ptr as usize;
        be_write_u16(&mut self.memory, pos, value);
    }

    fn ram_read(&self, ptr: u32) -> (r: u16) {
        let len = self.memory.len();
        let pos = ptr as usize + self.ramstart as usize;
        be_read_u16(&self.memory, pos)
    }

    fn ram_write(&mut self, ptr: u32, value: u16) {
        let len = self.memory.len();
        let pos = ptr as usize + self.ramstart as usize;
        be_write_u16(&mut self.memory, pos, value);
    }
}

impl Memory<i16> for GlulxMemory {
    open spec fn image(&self) -> MemoryView {
        self@
    }

    open spec fn holds(&self, ptr: u32) -> bool {
        self@.in_range(ptr as int, 2)
    }

    open spec fn ram_holds(&self, ptr: u32) -> bool {
        self@.in_range(self@.ramstart + ptr, 2)
    }

    open spec fn value_at(&self, ptr: u32) -> i16 {
        self@.read_u16(ptr as int) as i16
    }

    open spec fn ram_value_at(&self, ptr: u32) -> i16 {
        self@.read_u16(self@.ramstart + ptr) as i16
    }

    open spec fn with_value(&self, ptr: u32, value: i16) -> MemoryView {
        self@.write_u16(ptr as int, value as u16)
    }

    open spec fn with_ram_value(&self, ptr: u32, value: i16) -> MemoryView {
        self@.write_u16(self@.ramstart + ptr, value as u16)
    }

    fn read(&self, ptr: u32) -> (r: i16) {
        let pos = ptr as usize;
        let v = be_read_u16(&self.memory, pos);
        #[verifier::truncate]
        (v as i16)
    }

    fn write(&mut self, ptr: u32, value: i16) {
        let pos = ptr as usize;
        let v = #[verifier::truncate]
        (value as u16);
        be_write_u16(&mut self.memory, pos, v);
    }

    fn ram_read(&self, ptr: u32) -> (r: i16) {
        let len = self.memory.len();
        let pos = ptr as usize + self.ramstart as usize;
        let v = be_read_u16(&self.memory, pos);
        #[verifier::truncate]
        (v as i16)
    }

    fn ram_write(&mut self, ptr: u32, value: i16) {
        let len = self.memory.len();
        let pos = ptr as usize + self.ramstart as usize;
        let v = #[verifier::truncate]
        (value as u16);
        be_write_u16(&mut self.memory, pos, v);
    }
}

impl Memory<u32> for GlulxMemory {
    open spec fn image(&self) -> MemoryView {
        self@
    }

    open spec fn holds(&self, ptr: u32) -> bool {
        self@.in_range(ptr as int, 4)
    }

    open spec fn ram_holds(&self, ptr: u32) -> bool {
        self@.in_range(self@.ramstart + ptr, 4)
    }

    open spec fn value_at(&self, ptr: u32) -> u32 {
        self@.read_u32(ptr as int)
    }

    open spec fn ram_value_at(&self, ptr: u32) -> u32 {
        self@.read_u32(self@.ramstart + ptr)
    }

    open spec fn with_value(&self, ptr: u32, value: u32) -> MemoryView {
        self@.write_u32(ptr as int, value)
    }

    open spec fn with_ram_value(&self, ptr: u32, value: u32) -> MemoryView {
        self@.write_u32(self@.ramstart + ptr, value)
    }

    fn read(&self, ptr: u32) -> (r: u32) {
        let pos = ptr as usize;
        be_read_u32(&self.memory, pos)
    }

    fn write(&mut self, ptr: u32, value: u32) {
        let pos = ptr as usize;
        be_write_u32(&mut self.memory, pos, value);
    }

    fn ram_read(&self, ptr: u32) -> (r: u32) {
        let len = self.memory.len();
        let pos = ptr as usize + self.ramstart as usize;
        be_read_u32(&self.memory, pos)
    }

    fn ram_write(&mut self, ptr: u32, value: u32) {
        let len = self.memory.len();
        let pos = ptr as usize + self.ramstart as usize;
        be_write_u32(&mut self.memory, pos, value);
    }
}

impl Memory<i32> for GlulxMemory {
    open spec fn image(&self) -> MemoryView {
        self@
    }

    open spec fn holds(&self, ptr: u32) -> bool {
        self@.in_range(ptr as int, 4)
    }

    open spec fn ram_holds(&self, ptr: u32) -> bool {
        self@.in_range(self@.ramstart + ptr, 4)
    }

    open spec fn value_at(&self, ptr: u32) -> i32 {
        self@.read_u32(ptr as int) as i32
    }

    open spec fn ram_value_at(&self, ptr: u32) -> i32 {
        self@.read_u32(self@.ramstart + ptr) as i32
    }

    open spec fn with_value(&self, ptr: u32, value: i32) -> MemoryView {
        self@.write_u32(ptr as int, value as u32)
    }

    open spec fn with_ram_value(&self, ptr: u32, value: i32) -> MemoryView {
        self@.write_u32(self@.ramstart + ptr, value as u32)
    }

    fn read(&self, ptr: u32) -> (r: i32) {
        let pos = ptr as usize;
        let v = be_read_u32(&self.memory, pos);
        #[verifier::truncate]
        (v as i32)
    }

    fn write(&mut self, ptr: u32, value: i32) {
        let pos = ptr as usize;
        let v = #[verifier::truncate]
        (value as u32);
        be_write_u32(&mut self.memory, pos, v);
    }

    fn ram_read(&self, ptr: u32) -> (r: i32) {
        let len = self.memory.len();
        let pos = ptr as usize + self.ramstart as usize;
        let v = be_read_u32(&self.memory, pos);
        #[verifier::truncate]
        (v as i32)
    }

    fn ram_write(&mut self, ptr: u32, value: i32) {
        let len = self.memory.len();
        let pos = ptr as usize + self.ramstart as usize;
        let v = #[verifier::truncate]
        (value as u32);
        be_write_u32(&mut self.memory, pos, v);
    }
}

} // verus!
