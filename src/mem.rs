use vstd::prelude::*;

verus! {

/// Number of addressable bytes: the whole 16-bit address space.
pub const ADDRESS_SPACE: usize = 0x10000;

/// The read-only images the address space is loaded from.
pub struct Rom {
    boot: Vec<u8>,
    cart: Vec<u8>,
}

impl Rom {
    /// The boot image, then the cartridge image.
    pub closed spec fn view(&self) -> (Seq<u8>, Seq<u8>) {
        (self.boot@, self.cart@)
    }

    /// A ROM set holding only a boot image.
    pub fn new(boot: Vec<u8>) -> (r: Rom)
        ensures
            r@.0 == boot@,
            r@.1 == Seq::<u8>::empty(),
    {
        Rom { boot, cart: Vec::new() }
    }
}

/// A flat, byte-addressable 16-bit address space.
pub struct Mem {
    rom: Rom,
    bytes: Vec<u8>,
}

impl Mem {
    /// The byte at each address.
    pub closed spec fn view(&self) -> Seq<u8> {
        self.bytes@
    }

    /// Every 16-bit address holds a byte.
    pub open spec fn wf(&self) -> bool {
        self@.len() == ADDRESS_SPACE
    }

    /// The address space with the boot image at address 0 and zeros above it.
    pub fn new(boot: Vec<u8>) -> (r: Mem)
        requires
            boot@.len() <= ADDRESS_SPACE,
        ensures
            r.wf(),
            forall|i: int| 0 <= i < boot@.len() ==> r@[i] == boot@[i],
            forall|i: int| boot@.len() <= i < ADDRESS_SPACE ==> r@[i] == 0,
    {
        let rom = Rom::new(boot);
        let mut bytes: Vec<u8> = Vec::with_capacity(ADDRESS_SPACE);
        let n = rom.boot.len();
        let mut i: usize = 0;
        while i < ADDRESS_SPACE
            invariant
                n == rom.boot@.len(),
                n <= ADDRESS_SPACE,
                i <= ADDRESS_SPACE,
                bytes@.len() == i,
                forall|j: int| 0 <= j < i && j < n ==> bytes@[j] == rom.boot@[j],
                forall|j: int| n <= j < i ==> bytes@[j] == 0,
            decreases ADDRESS_SPACE - i,
        {
            if i < n {
                bytes.push(rom.boot[i]);
            } else {
                bytes.push(0);
            }
            i += 1;
        }
        Mem { rom, bytes }
    }

    pub fn read(&self, addr: u16) -> (r: u8)
        requires
            self.wf(),
        ensures
            r == self@[addr as int],
    {
        self.bytes[addr as usize]
    }

    pub fn write(&mut self, addr: u16, value: u8)
        requires
            old(self).wf(),
        ensures
            final(self)@ == old(self)@.update(addr as int, value),
            final(self).wf(),
    {
        self.bytes.set(addr as usize, value);
    }
}

} // verus!
