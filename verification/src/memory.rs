//! The 64 KiB address space: five backing stores, each reached through a
//! fixed window of addresses, two of them mirrored.

use vstd::prelude::*;

verus! {

/// Number of addresses in the address space.
pub const ADDRESS_SPACE: usize = 0x1_0000;

/// Bytes of internal work RAM.
pub const RAM_SIZE: usize = 0x0800;

/// Bytes of the picture-unit register bank.
pub const PPU_REGS_SIZE: usize = 0x0008;

/// Bytes of the audio and I/O register bank.
pub const APU_IO_REGS_SIZE: usize = 0x0018;

/// Bytes of the audio and I/O test bank, normally disabled.
pub const APU_IO_FUNC_SIZE: usize = 0x0008;

/// Bytes of the region that a cartridge maps.
pub const CARTRIDGE_SIZE: usize = 0xBFE0;

/// First address of the picture-unit register window.
pub const PPU_REGS_START: u16 = 0x2000;

/// First address of the audio and I/O register bank.
pub const APU_IO_REGS_START: u16 = 0x4000;

/// First address of the audio and I/O test bank.
pub const APU_IO_FUNC_START: u16 = 0x4018;

/// First address of the cartridge region.
pub const CARTRIDGE_START: u16 = 0x4020;

/// A backing store of the address space.
#[derive(Clone, Copy, Debug, PartialEq, Eq, Structural)]
pub enum Region {
    /// Internal work RAM, repeated four times over `0x0000..=0x1FFF`.
    Ram,
    /// Picture-unit registers, repeated every eight bytes over
    /// `0x2000..=0x3FFF`.
    PpuRegs,
    /// Audio and I/O registers, `0x4000..=0x4017`.
    ApuIoRegs,
    /// Audio and I/O test functionality, `0x4018..=0x401F`.
    ApuIoFunc,
    /// Cartridge space, `0x4020..=0xFFFF`.
    Cartridge,
}

/// One byte of backing storage: a region and an offset into it.
#[derive(Clone, Copy, Debug, PartialEq, Eq, Structural)]
pub struct Cell {
    /// The backing store.
    pub region: Region,
    /// The byte's index in that store.
    pub offset: usize,
}

impl Region {
    /// Number of bytes that back the region.
    pub open spec fn size(self) -> int {
        match self {
            Region::Ram => RAM_SIZE as int,
            Region::PpuRegs => PPU_REGS_SIZE as int,
            Region::ApuIoRegs => APU_IO_REGS_SIZE as int,
            Region::ApuIoFunc => APU_IO_FUNC_SIZE as int,
            Region::Cartridge => CARTRIDGE_SIZE as int,
        }
    }
}

/// The region whose window holds `address`.
pub open spec fn region_of(address: u16) -> Region {
    if address < PPU_REGS_START {
        Region::Ram
    } else if address < APU_IO_REGS_START {
        Region::PpuRegs
    } else if address < APU_IO_FUNC_START {
        Region::ApuIoRegs
    } else if address < CARTRIDGE_START {
        Region::ApuIoFunc
    } else {
        Region::Cartridge
    }
}

/// The backing cell that `address` is routed to. In a mirrored window the
/// offset is the distance from the window's start modulo the region's size;
/// elsewhere it is that distance itself.
pub open spec fn cell_of(address: u16) -> Cell {
    match region_of(address) {
        Region::Ram => Cell {
            region: Region::Ram,
            offset: (address as int % RAM_SIZE as int) as usize,
        },
        Region::PpuRegs => Cell {
            region: Region::PpuRegs,
            offset: ((address - PPU_REGS_START) % PPU_REGS_SIZE as int) as usize,
        },
        Region::ApuIoRegs => Cell {
            region: Region::ApuIoRegs,
            offset: (address - APU_IO_REGS_START) as usize,
        },
        Region::ApuIoFunc => Cell {
            region: Region::ApuIoFunc,
            offset: (address - APU_IO_FUNC_START) as usize,
        },
        Region::Cartridge => Cell {
            region: Region::Cartridge,
            offset: (address - CARTRIDGE_START) as usize,
        },
    }
}

/// Whether two addresses name the same backing cell.
pub open spec fn aliases(a: u16, b: u16) -> bool {
    cell_of(a) == cell_of(b)
}

/// The address space `space` after `data` has been stored at `address`:
/// every alias of `address` reads `data`, every other address reads what it
/// read before.
pub open spec fn stored(space: Seq<u8>, address: u16, data: u8) -> Seq<u8> {
    Seq::new(
        ADDRESS_SPACE as nat,
        |b: int|
            if aliases(b as u16, address) {
                data
            } else {
                space[b]
            },
    )
}

/// The little-endian word whose low byte is at `address` and whose high byte
/// is at the next address; the address after `0xFFFF` is `0x0000`.
pub open spec fn word_at(space: Seq<u8>, address: u16) -> u16 {
    (space[address as int] + 0x100 * space[(address + 1) % 0x1_0000]) as u16
}

/// The memory that the processor addresses.
pub struct Memory {
    /// 2 KiB of internal RAM.
    pub ram: [u8; RAM_SIZE],
    /// Picture-unit registers.
    pub ppu_regs: [u8; PPU_REGS_SIZE],
    /// Audio and I/O registers.
    pub apu_io_regs: [u8; APU_IO_REGS_SIZE],
    /// Audio and I/O test functionality.
    pub apu_io_func: [u8; APU_IO_FUNC_SIZE],
    /// Space that a cartridge maps.
    pub cartridge_use: [u8; CARTRIDGE_SIZE],
}

impl View for Memory {
    type V = Seq<u8>;

    /// The address space as the processor sees it: one byte for each of the
    /// 65536 addresses, the byte of the cell that the address is routed to.
    /// [`Memory::lemma_view`] says so to other modules.
    closed spec fn view(&self) -> Seq<u8> {
        Seq::new(ADDRESS_SPACE as nat, |a: int| self.cell(cell_of(a as u16)))
    }
}

impl Memory {
    /// The byte held in backing cell `c`.
    pub open spec fn cell(&self, c: Cell) -> u8 {
        match c.region {
            Region::Ram => self.ram[c.offset as int],
            Region::PpuRegs => self.ppu_regs[c.offset as int],
            Region::ApuIoRegs => self.apu_io_regs[c.offset as int],
            Region::ApuIoFunc => self.apu_io_func[c.offset as int],
            Region::Cartridge => self.cartridge_use[c.offset as int],
        }
    }

    /// The view has one byte for each address: the byte of the backing cell
    /// that the address is routed to.
    pub proof fn lemma_view(&self)
        ensures
            self@.len() == ADDRESS_SPACE,
            forall|a: u16| self@[a as int] == self.cell(#[trigger] cell_of(a)),
    {
    }

    /// A memory with every byte zero.
    pub fn new() -> (m: Self)
        ensures
            m@ == Seq::new(ADDRESS_SPACE as nat, |a: int| 0u8),
    {
        let m = Memory {
            ram: [0; RAM_SIZE],
            ppu_regs: [0; PPU_REGS_SIZE],
            apu_io_regs: [0; APU_IO_REGS_SIZE],
            apu_io_func: [0; APU_IO_FUNC_SIZE],
            cartridge_use: [0; CARTRIDGE_SIZE],
        };
        proof {
            lemma_cell_in_bounds_all();
            assert(m@ =~= Seq::new(ADDRESS_SPACE as nat, |a: int| 0u8));
        }
        m
    }

    /// Routes `address` to its backing cell.
    pub fn locate(address: u16) -> (c: Cell)
        ensures
            c == cell_of(address),
            0 <= c.offset < c.region.size(),
    {
        if address < PPU_REGS_START {
            Cell { region: Region::Ram, offset: address as usize % RAM_SIZE }
        } else if address < APU_IO_REGS_START {
            Cell {
                region: Region::PpuRegs,
                offset: (address - PPU_REGS_START) as usize % PPU_REGS_SIZE,
            }
        } else if address < APU_IO_FUNC_START {
            Cell { region: Region::ApuIoRegs, offset: (address - APU_IO_REGS_START) as usize }
        } else if address < CARTRIDGE_START {
            Cell { region: Region::ApuIoFunc, offset: (address - APU_IO_FUNC_START) as usize }
        } else {
            Cell { region: Region::Cartridge, offset: (address - CARTRIDGE_START) as usize }
        }
    }

    /// Reads the byte at `address`.
    pub fn read(&self, address: u16) -> (data: u8)
        ensures
            data == self@[address as int],
            data == self.cell(cell_of(address)),
    {
        let c = Memory::locate(address);
        match c.region {
            Region::Ram => self.ram[c.offset],
            Region::PpuRegs => self.ppu_regs[c.offset],
            Region::ApuIoRegs => self.apu_io_regs[c.offset],
            Region::ApuIoFunc => self.apu_io_func[c.offset],
            Region::Cartridge => self.cartridge_use[c.offset],
        }
    }

    /// Stores `data` at `address`. The byte is then read back at `address`
    /// and at each of its mirror aliases; no other address changes.
    pub fn write(&mut self, address: u16, data: u8)
        ensures
            final(self)@ == stored(old(self)@, address, data),
            final(self)@[address as int] == data,
            forall|b: u16| aliases(b, address) ==> final(self)@[b as int] == data,
            forall|b: u16| !aliases(b, address) ==> final(self)@[b as int] == old(self)@[b as int],
    {
        let c = Memory::locate(address);
        match c.region {
            Region::Ram => {
                self.ram[c.offset] = data;
            },
            Region::PpuRegs => {
                self.ppu_regs[c.offset] = data;
            },
            Region::ApuIoRegs => {
                self.apu_io_regs[c.offset] = data;
            },
            Region::ApuIoFunc => {
                self.apu_io_func[c.offset] = data;
            },
            Region::Cartridge => {
                self.cartridge_use[c.offset] = data;
            },
        }
        proof {
            lemma_cell_in_bounds_all();
            assert(self@ =~= stored(old(self)@, address, data));
        }
    }

    /// Reads the little-endian word at `address`: the low byte at `address`,
    /// the high byte at the address after it. The memory is left as it was.
    #[allow(non_snake_case)]
    pub fn readWord(&mut self, address: u16) -> (data: u16)
        ensures
            data == word_at(old(self)@, address),
            data == old(self)@[address as int] + 0x100 * old(self)@[(address + 1) % 0x1_0000],
            *final(self) == *old(self),
    {
        let lo_byte: u16 = self.read(address) as u16;
        let hi_byte: u16 = self.read(address.wrapping_add(1)) as u16;
        proof {
            lemma_compose(lo_byte, hi_byte);
        }
        let data: u16 = (hi_byte << 8) | lo_byte;
        data
    }
}

/// A high byte shifted into the upper half of a word and joined with a low
/// byte is `lo + 256 * hi`.
pub proof fn lemma_compose(lo: u16, hi: u16)
    by (bit_vector)
    requires
        lo < 0x100,
        hi < 0x100,
    ensures
        (hi << 8) | lo == lo + 0x100 * hi,
{
}

/// A byte stored at an address is read back there and at every alias of the
/// address, in every region; all other addresses read what they read before.
pub proof fn lemma_read_after_write(space: Seq<u8>, address: u16, data: u8, other: u16)
    requires
        space.len() == ADDRESS_SPACE,
    ensures
        stored(space, address, data).len() == ADDRESS_SPACE,
        stored(space, address, data)[address as int] == data,
        aliases(other, address) ==> stored(space, address, data)[other as int] == data,
        !aliases(other, address) ==> stored(space, address, data)[other as int]
            == space[other as int],
{
}

/// Which addresses share a cell. In the RAM window they are those equal
/// modulo 2 KiB, in the picture-unit window those equal modulo 8; no
/// address of a window aliases one of another, and outside the two mirrored
/// windows an address aliases only itself.
pub proof fn lemma_aliases(a: u16, b: u16)
    ensures
        aliases(a, a),
        aliases(a, b) == aliases(b, a),
        aliases(a, b) ==> region_of(a) == region_of(b),
        region_of(a) == Region::Ram && region_of(b) == Region::Ram ==> (aliases(a, b) <==> a
            % 0x0800 == b % 0x0800),
        region_of(a) == Region::PpuRegs && region_of(b) == Region::PpuRegs ==> (aliases(a, b)
            <==> a % 0x0008 == b % 0x0008),
        a >= APU_IO_REGS_START ==> (aliases(a, b) <==> a == b),
{
}

/// A word stored low byte first, at an address and the address after it,
/// is the word read at that address.
pub proof fn lemma_word_round_trip(space: Seq<u8>, address: u16, lo: u8, hi: u8)
    requires
        space.len() == ADDRESS_SPACE,
    ensures
        ({
            let next: u16 = ((address + 1) % 0x1_0000) as u16;
            word_at(stored(stored(space, address, lo), next, hi), address) == lo + 0x100 * hi
        }),
{
    let next: u16 = ((address + 1) % 0x1_0000) as u16;
    assert(!aliases(address, next));
}

/// Two memories that read the same at every address hold the same bytes:
/// each backing cell is reached from some address.
pub proof fn lemma_view_determines_memory(m1: Memory, m2: Memory)
    requires
        m1@ == m2@,
    ensures
        m1 == m2,
{
    assert forall|i: int| 0 <= i < 0x0800 implies m1.ram[i] == m2.ram[i] by {
        lemma_same_cell(m1, m2, i as u16);
    }
    assert forall|i: int| 0 <= i < 0x0008 implies m1.ppu_regs[i] == m2.ppu_regs[i] by {
        lemma_same_cell(m1, m2, (0x2000 + i) as u16);
    }
    assert forall|i: int| 0 <= i < 0x0018 implies m1.apu_io_regs[i] == m2.apu_io_regs[i] by {
        lemma_same_cell(m1, m2, (0x4000 + i) as u16);
    }
    assert forall|i: int| 0 <= i < 0x0008 implies m1.apu_io_func[i] == m2.apu_io_func[i] by {
        lemma_same_cell(m1, m2, (0x4018 + i) as u16);
    }
    assert forall|i: int| 0 <= i < 0xBFE0 implies m1.cartridge_use[i] == m2.cartridge_use[i] by {
        lemma_same_cell(m1, m2, (0x4020 + i) as u16);
    }
    assert(m1.ram =~= m2.ram);
    assert(m1.ppu_regs =~= m2.ppu_regs);
    assert(m1.apu_io_regs =~= m2.apu_io_regs);
    assert(m1.apu_io_func =~= m2.apu_io_func);
    assert(m1.cartridge_use =~= m2.cartridge_use);
}

proof fn lemma_same_cell(m1: Memory, m2: Memory, address: u16)
    requires
        m1@ == m2@,
    ensures
        m1.cell(cell_of(address)) == m2.cell(cell_of(address)),
{
    m1.lemma_view();
    m2.lemma_view();
}

/// Every address is routed into the bounds of its region's backing store.
pub proof fn lemma_cell_in_bounds(address: u16)
    ensures
        0 <= cell_of(address).offset < cell_of(address).region.size(),
        cell_of(address).region == region_of(address),
{
}

/// Every byte of every backing store is reached from some address.
pub proof fn lemma_every_cell_is_addressed(c: Cell)
    requires
        0 <= c.offset < c.region.size(),
    ensures
        exists|a: u16| cell_of(a) == c,
{
    let start: int = match c.region {
        Region::Ram => 0,
        Region::PpuRegs => PPU_REGS_START as int,
        Region::ApuIoRegs => APU_IO_REGS_START as int,
        Region::ApuIoFunc => APU_IO_FUNC_START as int,
        Region::Cartridge => CARTRIDGE_START as int,
    };
    let a: u16 = (start + c.offset) as u16;
    assert(cell_of(a) == c);
}

proof fn lemma_cell_in_bounds_all()
    ensures
        forall|a: u16| 0 <= (#[trigger] cell_of(a)).offset < cell_of(a).region.size(),
{
}

} // verus!
