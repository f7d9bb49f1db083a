//! The machine's memory: 4096 bytes, a font in the lowest addresses and the
//! program image from address 512 upward.
use vstd::prelude::*;
use crate::error::Fault;

verus! {

/// Bytes of memory.
pub const RAM_SIZE: usize = 4096;

/// The address at which a program image starts.
pub const PROGRAM_START: usize = 512;

/// Bytes of memory from the load address up to the end.
pub const PROGRAM_SPACE: usize = 3584;

/// Bytes taken by the sixteen glyphs.
pub const FONTSET_SIZE: usize = 80;

/// The built-in font: five bytes for each hexadecimal digit, `0` first.
pub const FONTSET: [u8; 80] = [
    0xF0, 0x90, 0x90, 0x90, 0xF0,
    0x20, 0x60, 0x20, 0x20, 0x70,
    0xF0, 0x10, 0xF0, 0x80, 0xF0,
    0xF0, 0x10, 0xF0, 0x10, 0xF0,
    0x90, 0x90, 0xF0, 0x10, 0x10,
    0xF0, 0x80, 0xF0, 0x10, 0xF0,
    0xF0, 0x80, 0xF0, 0x90, 0xF0,
    0xF0, 0x10, 0x20, 0x40, 0x40,
    0xF0, 0x90, 0xF0, 0x90, 0xF0,
    0xF0, 0x90, 0xF0, 0x10, 0xF0,
    0xF0, 0x90, 0xF0, 0x90, 0x90,
    0xE0, 0x90, 0xE0, 0x90, 0xE0,
    0xF0, 0x80, 0x80, 0x80, 0xF0,
    0xE0, 0x90, 0x90, 0x90, 0xE0,
    0xF0, 0x80, 0xF0, 0x80, 0xF0,
    0xF0, 0x80, 0xF0, 0x80, 0x80,
];

/// Memory with every byte zero.
pub open spec fn blank() -> Seq<u8> {
    Seq::new(4096, |a: int| 0u8)
}

/// `mem` with the font written over its lowest eighty bytes.
pub open spec fn with_font(mem: Seq<u8>) -> Seq<u8> {
    Seq::new(mem.len(), |a: int| if a < 80 { FONTSET@[a] } else { mem[a] })
}

/// `mem` with `image` written from the load address upward.
pub open spec fn with_image(mem: Seq<u8>, image: Seq<u8>) -> Seq<u8> {
    Seq::new(mem.len(), |a: int| if 512 <= a < 512 + image.len() { image[a - 512] } else { mem[a] })
}

/// `mem` with `bytes` written from `address` upward.
pub open spec fn store(mem: Seq<u8>, address: int, bytes: Seq<u8>) -> Seq<u8> {
    Seq::new(
        mem.len(),
        |a: int|
            if address <= a < address + bytes.len() {
                bytes[a - address]
            } else {
                mem[a]
            },
    )
}

/// Whether the `length` bytes from `address` on all lie inside memory.
pub open spec fn in_bounds(address: int, length: int) -> bool {
    0 <= address && 0 <= length && address + length <= 4096
}

/// The 4096 bytes of memory.
pub struct Ram {
    buf: [u8; 4096],
}

impl View for Ram {
    type V = Seq<u8>;

    closed spec fn view(&self) -> Seq<u8> {
        self.buf@
    }
}

impl Ram {
    /// Memory always holds 4096 bytes.
    pub broadcast proof fn lemma_len(&self)
        ensures
            #[trigger] self@.len() == 4096,
    {
    }

    /// Memory with every byte zero.
    pub fn new() -> (ram: Ram)
        ensures
            ram@ == blank(),
    {
        Ram { buf: [0; 4096] }
    }

    /// Writes the font over the lowest eighty bytes and leaves the rest.
    pub fn load_fontset(&mut self)
        ensures
            final(self)@ == with_font(old(self)@),
    {
        let mut a: usize = 0;
        while a < FONTSET_SIZE
            invariant
                a <= 80,
                forall|j: int| 0 <= j < a ==> self.buf@[j] == FONTSET@[j],
                forall|j: int| a <= j < 4096 ==> self.buf@[j] == old(self).buf@[j],
            decreases 80 - a,
        {
            self.buf[a] = FONTSET[a];
            a += 1;
        }
    }

    /// Zeroes every byte, then writes the font into the lowest addresses.
    pub fn reset(&mut self)
        ensures
            final(self)@ == with_font(blank()),
    {
        self.buf = [0; 4096];
        self.load_fontset();
    }

    /// Resets memory and copies `image` to the load address. An image that
    /// does not fit above the load address is refused, and memory is then
    /// left as it was.
    pub fn load(&mut self, image: &[u8]) -> (r: Result<(), Fault>)
        ensures
            image@.len() <= 3584 ==> r is Ok && final(self)@ == with_image(
                with_font(blank()),
                image@,
            ),
            image@.len() > 3584 ==> r == Err::<(), Fault>(Fault::LoadOverflow) && final(self)@
                == old(self)@,
    {
        if image.len() > PROGRAM_SPACE {
            return Err(Fault::LoadOverflow);
        }
        self.reset();
        let mut n: usize = 0;
        while n < image.len()
            invariant
                n <= image@.len() <= 3584,
                forall|a: int| 0 <= a < 512 ==> self.buf@[a] == with_font(blank())[a],
                forall|a: int| 512 <= a < 512 + n ==> self.buf@[a] == image@[a - 512],
                forall|a: int| 512 + n <= a < 4096 ==> self.buf@[a] == 0,
            decreases image@.len() - n,
        {
            self.buf[PROGRAM_START + n] = image[n];
            n += 1;
        }
        Ok(())
    }

    /// The byte at `address`.
    pub fn read_byte(&self, address: u16) -> (r: Result<u8, Fault>)
        ensures
            in_bounds(address as int, 1) ==> r == Ok::<u8, Fault>(self@[address as int]),
            !in_bounds(address as int, 1) ==> r == Err::<u8, Fault>(Fault::OutOfBounds),
    {
        if address as usize >= RAM_SIZE {
            return Err(Fault::OutOfBounds);
        }
        Ok(self.buf[address as usize])
    }

    /// Stores `value` at `address`. Nothing is written outside memory.
    pub fn write_byte(&mut self, address: u16, value: u8) -> (r: Result<(), Fault>)
        ensures
            in_bounds(address as int, 1) ==> r is Ok && final(self)@ == old(self)@.update(
                address as int,
                value,
            ),
            !in_bounds(address as int, 1) ==> r == Err::<(), Fault>(Fault::OutOfBounds)
                && final(self)@ == old(self)@,
    {
        if address as usize >= RAM_SIZE {
            return Err(Fault::OutOfBounds);
        }
        self.buf[address as usize] = value;
        Ok(())
    }

    /// Stores `bytes` from `address` upward, or nothing at all where they
    /// would not all lie inside memory.
    pub fn write_range(&mut self, address: u16, bytes: &[u8]) -> (r: Result<(), Fault>)
        ensures
            in_bounds(address as int, bytes@.len() as int) ==> r is Ok && final(self)@ == store(
                old(self)@,
                address as int,
                bytes@,
            ),
            !in_bounds(address as int, bytes@.len() as int) ==> r == Err::<(), Fault>(
                Fault::OutOfBounds,
            ) && final(self)@ == old(self)@,
    {
        let start: usize = address as usize;
        if start > RAM_SIZE || bytes.len() > RAM_SIZE - start {
            return Err(Fault::OutOfBounds);
        }
        let mut n: usize = 0;
        while n < bytes.len()
            invariant
                n <= bytes@.len(),
                start + bytes@.len() <= 4096,
                forall|a: int| 0 <= a < start ==> self.buf@[a] == old(self).buf@[a],
                forall|a: int| start <= a < start + n ==> self.buf@[a] == bytes@[a - start],
                forall|a: int| start + n <= a < 4096 ==> self.buf@[a] == old(self).buf@[a],
            decreases bytes@.len() - n,
        {
            self.buf[start + n] = bytes[n];
            n += 1;
        }
        Ok(())
    }

    /// The `length` bytes from `address` on, lowest address first.
    pub fn read_range(&self, address: u16, length: usize) -> (r: Result<Vec<u8>, Fault>)
        ensures
            in_bounds(address as int, length as int) ==> r is Ok && r->Ok_0@ == self@.subrange(
                address as int,
                address + length,
            ),
            !in_bounds(address as int, length as int) ==> r == Err::<Vec<u8>, Fault>(
                Fault::OutOfBounds,
            ),
    {
        let start: usize = address as usize;
        if start > RAM_SIZE || length > RAM_SIZE - start {
            return Err(Fault::OutOfBounds);
        }
        let mut out: Vec<u8> = Vec::with_capacity(length);
        let mut n: usize = 0;
        while n < length
            invariant
                n <= length,
                start + length <= 4096,
                out@ == self.buf@.subrange(start as int, start + n),
            decreases length - n,
        {
            out.push(self.buf[start + n]);
            n += 1;
        }
        Ok(out)
    }
}

} // verus!
