use vstd::prelude::*;

verus! {

/// Size of the CHIP-8 address space in bytes.
pub const MEMORY_SIZE: usize = 4096;

/// Address at which the built-in hexadecimal font is stored.
pub const FONT_ADDR: u16 = 0x050;

/// The sequence `mem` with the bytes of `data` written from address `addr` on.
pub open spec fn write_bytes(mem: Seq<u8>, addr: int, data: Seq<u8>) -> Seq<u8> {
    Seq::new(
        mem.len(),
        |k: int|
            if addr <= k < addr + data.len() {
                data[k - addr]
            } else {
                mem[k]
            },
    )
}

/// The sixteen 5-byte sprites of the hexadecimal digits 0 to F.
pub open spec fn font_sprites() -> Seq<u8> {
    seq![
        0xF0u8, 0x90, 0x90, 0x90, 0xF0, // 0
        0x20, 0x60, 0x20, 0x20, 0x70, // 1
        0xF0, 0x10, 0xF0, 0x80, 0xF0, // 2
        0xF0, 0x10, 0xF0, 0x10, 0xF0, // 3
        0x90, 0x90, 0xF0, 0x10, 0x10, // 4
        0xF0, 0x80, 0xF0, 0x10, 0xF0, // 5
        0xF0, 0x80, 0xF0, 0x90, 0xF0, // 6
        0xF0, 0x10, 0x20, 0x40, 0x40, // 7
        0xF0, 0x90, 0xF0, 0x90, 0xF0, // 8
        0xF0, 0x90, 0xF0, 0x10, 0xF0, // 9
        0xF0, 0x90, 0xF0, 0x90, 0x90, // A
        0xE0, 0x90, 0xE0, 0x90, 0xE0, // B
        0xF0, 0x80, 0x80, 0x80, 0xF0, // C
        0xE0, 0x90, 0x90, 0x90, 0xE0, // D
        0xF0, 0x80, 0xF0, 0x80, 0xF0, // E
        0xF0, 0x80, 0xF0, 0x80, 0x80, // F
    ]
}

/// The contents of memory right after power-on: all zero, except the font at `FONT_ADDR`.
pub open spec fn initial_memory() -> Seq<u8> {
    write_bytes(Seq::new(MEMORY_SIZE as nat, |k: int| 0u8), FONT_ADDR as int, font_sprites())
}

/// The 4 KiB of byte-addressed CHIP-8 memory.
///
/// The first 512 bytes, from 0x000 to 0x1FF, are where the original interpreter was
/// located, and are not used by programs.
pub struct Memory {
    data: [u8; 4096],
}

impl View for Memory {
    type V = Seq<u8>;

    closed spec fn view(&self) -> Seq<u8> {
        self.data@
    }
}

/// Every memory holds exactly `MEMORY_SIZE` bytes.
pub broadcast proof fn lemma_memory_len(mem: Memory)
    ensures
        #[trigger] mem@.len() == MEMORY_SIZE,
{
}

impl Memory {
    /// Fresh memory, zeroed, with the font stored at `FONT_ADDR`.
    pub fn new() -> (mem: Self)
        ensures
            mem@ == initial_memory(),
    {
        let mut mem = Memory { data: [0u8; 4096] };
        mem.initialize_font();
        proof {
            assert(mem@ =~= initial_memory());
        }
        mem
    }

    /// Stores the hexadecimal font sprites at `FONT_ADDR`, where programs conventionally
    /// expect them.
    pub fn initialize_font(&mut self)
        ensures
            final(self)@ == write_bytes(old(self)@, FONT_ADDR as int, font_sprites()),
    {
        let font: Vec<u8> = vec![
            0xF0, 0x90, 0x90, 0x90, 0xF0, // 0
            0x20, 0x60, 0x20, 0x20, 0x70, // 1
            0xF0, 0x10, 0xF0, 0x80, 0xF0, // 2
            0xF0, 0x10, 0xF0, 0x10, 0xF0, // 3
            0x90, 0x90, 0xF0, 0x10, 0x10, // 4
            0xF0, 0x80, 0xF0, 0x10, 0xF0, // 5
            0xF0, 0x80, 0xF0, 0x90, 0xF0, // 6
            0xF0, 0x10, 0x20, 0x40, 0x40, // 7
            0xF0, 0x90, 0xF0, 0x90, 0xF0, // 8
            0xF0, 0x90, 0xF0, 0x10, 0xF0, // 9
            0xF0, 0x90, 0xF0, 0x90, 0x90, // A
            0xE0, 0x90, 0xE0, 0x90, 0xE0, // B
            0xF0, 0x80, 0x80, 0x80, 0xF0, // C
            0xE0, 0x90, 0x90, 0x90, 0xE0, // D
            0xF0, 0x80, 0xF0, 0x80, 0xF0, // E
            0xF0, 0x80, 0xF0, 0x80, 0x80, // F
        ];
        assert(font@ =~= font_sprites());
        self.store_data(FONT_ADDR, font.as_slice());
    }

    /// Copies `data` into memory, starting at `addr`.
    pub fn store_data(&mut self, addr: u16, data: &[u8])
        requires
            addr + data@.len() <= MEMORY_SIZE,
        ensures
            final(self)@ == write_bytes(old(self)@, addr as int, data@),
    {
        let addr = addr as usize;
        let len = data.len();
        let mut k: usize = 0;
        while k < len
            invariant
                k <= len,
                len == data@.len(),
                addr + len <= MEMORY_SIZE,
                self@.len() == MEMORY_SIZE,
                forall|j: int|
                    0 <= j < MEMORY_SIZE ==> #[trigger] self@[j] == if addr <= j < addr + k {
                        data@[j - addr]
                    } else {
                        old(self)@[j]
                    },
            decreases len - k,
        {
            self.data[addr + k] = data[k];
            k = k + 1;
        }
        assert(self@ =~= write_bytes(old(self)@, addr as int, data@));
    }

    /// The `n` bytes of memory starting at `addr`.
    pub fn load_data(&self, addr: u16, n: u16) -> (out: &[u8])
        requires
            addr + n <= MEMORY_SIZE,
        ensures
            out@ == self@.subrange(addr as int, addr + n),
    {
        let addr = addr as usize;
        let n = n as usize;
        &self.data[addr..addr + n]
    }
}

} // verus!
