use vstd::prelude::*;

verus! {

/// The C64's memories: 64 KiB RAM, 1 KiB colour nybbles and the three ROMs.
pub struct RamRom {
    pub ram: Vec<u8>,
    pub color_ram: Vec<u8>,
    pub kernal: Vec<u8>,
    pub char_gen: Vec<u8>,
    pub basic: Vec<u8>,
}

/// `after` is `before` with its first bytes replaced by those of `rom`.
pub open spec fn loaded(before: Seq<u8>, after: Seq<u8>, rom: Seq<u8>) -> bool {
    after.len() == before.len() && forall|i: int|
        0 <= i < before.len() ==> #[trigger] after[i] == if i < rom.len() {
            rom[i]
        } else {
            before[i]
        }
}

fn copy_prefix(dst: &mut Vec<u8>, rom: &[u8])
    ensures
        loaded(old(dst)@, final(dst)@, rom@),
{
    let n = if rom.len() < dst.len() { rom.len() } else { dst.len() };
    let mut i: usize = 0;
    while i < n
        invariant
            n <= rom@.len(),
            n <= old(dst)@.len(),
            i <= n,
            dst@.len() == old(dst)@.len(),
            forall|j: int|
                0 <= j < old(dst)@.len() ==> #[trigger] dst@[j] == if j < i {
                    rom@[j]
                } else {
                    old(dst)@[j]
                },
        decreases n - i,
    {
        dst.set(i, rom[i]);
        i += 1;
    }
}

impl RamRom {
    pub open spec fn wf(&self) -> bool {
        &&& self.ram@.len() == 0x10000
        &&& self.color_ram@.len() == 0x400
        &&& self.kernal@.len() == 0x2000
        &&& self.char_gen@.len() == 0x1000
        &&& self.basic@.len() == 0x2000
    }

    /// Zero-filled memories.
    pub fn new() -> (r: RamRom)
        ensures
            r.wf(),
            forall|i: int| 0 <= i < 0x10000 ==> r.ram@[i] == 0,
            forall|i: int| 0 <= i < 0x400 ==> r.color_ram@[i] == 0,
            forall|i: int| 0 <= i < 0x2000 ==> r.kernal@[i] == 0 && r.basic@[i] == 0,
            forall|i: int| 0 <= i < 0x1000 ==> r.char_gen@[i] == 0,
    {
        RamRom {
            ram: vec![0u8; 0x10000],
            color_ram: vec![0u8; 0x400],
            kernal: vec![0u8; 0x2000],
            char_gen: vec![0u8; 0x1000],
            basic: vec![0u8; 0x2000],
        }
    }

    /// The KERNAL ROM image.
    pub fn kernal_ptr(&self) -> (r: &[u8])
        ensures
            r@ == self.kernal@,
    {
        self.kernal.as_slice()
    }

    /// The character generator ROM image.
    pub fn char_ptr(&self) -> (r: &[u8])
        ensures
            r@ == self.char_gen@,
    {
        self.char_gen.as_slice()
    }

    /// The BASIC ROM image.
    pub fn basic_ptr(&self) -> (r: &[u8])
        ensures
            r@ == self.basic@,
    {
        self.basic.as_slice()
    }

    /// The colour nybbles of the text screen.
    pub fn color_ptr(&self) -> (r: &[u8])
        ensures
            r@ == self.color_ram@,
    {
        self.color_ram.as_slice()
    }

    /// All of RAM.
    pub fn ram_ptr(&self) -> (r: &[u8])
        ensures
            r@ == self.ram@,
    {
        self.ram.as_slice()
    }

    /// The 1000 screen codes of the text screen at 0x0400.
    pub fn screen_ptr(&self) -> (r: &[u8])
        requires
            self.wf(),
        ensures
            r@ == self.ram@.subrange(0x400int, 0x400int + 1000),
    {
        vstd::slice::slice_subrange(self.ram.as_slice(), 0x400, 0x400 + 1000)
    }

    /// Copies a KERNAL image in.
    pub fn initialize_kernal_rom(&mut self, rom: &[u8])
        ensures
            loaded(old(self).kernal@, final(self).kernal@, rom@),
            final(self).ram == old(self).ram,
            final(self).color_ram == old(self).color_ram,
            final(self).char_gen == old(self).char_gen,
            final(self).basic == old(self).basic,
    {
        copy_prefix(&mut self.kernal, rom);
    }

    /// Copies a BASIC image in.
    pub fn initialize_basic_rom(&mut self, rom: &[u8])
        ensures
            loaded(old(self).basic@, final(self).basic@, rom@),
            final(self).ram == old(self).ram,
            final(self).color_ram == old(self).color_ram,
            final(self).char_gen == old(self).char_gen,
            final(self).kernal == old(self).kernal,
    {
        copy_prefix(&mut self.basic, rom);
    }

    /// Copies a character generator image in.
    pub fn initialize_char_rom(&mut self, rom: &[u8])
        ensures
            loaded(old(self).char_gen@, final(self).char_gen@, rom@),
            final(self).ram == old(self).ram,
            final(self).color_ram == old(self).color_ram,
            final(self).kernal == old(self).kernal,
            final(self).basic == old(self).basic,
    {
        copy_prefix(&mut self.char_gen, rom);
    }
}

} // verus!
