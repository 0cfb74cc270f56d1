//! NES cartridges: the iNES format and mappers 0-4.

use vstd::prelude::*;
use crate::bits::{byte_or, get_byte_or};
use crate::save_state::{
    bool_byte, dec32, fits_len_prefixed, len_prefixed, read_bool, read_bytes, read_slice, read_u32,
    read_u8, write_bool, write_bytes, write_slice, write_u32, write_u8, le32,
};

verus! {

#[derive(Clone, Copy, PartialEq, Eq, Structural, Debug)]
pub enum Mirroring {
    Horizontal,
    Vertical,
    SingleScreenLow,
    SingleScreenHigh,
    FourScreen,
}

/// Banking hardware on the cartridge: how the CPU and PPU address spaces
/// reach PRG and CHR memory, and the state that saving must keep.
pub trait Mapper {
    /// Memory sizes the banking arithmetic relies on.
    spec fn wf(&self) -> bool;

    /// The sizes the CHR side and the saved state rely on (PRG ROM not needed).
    spec fn chr_wf(&self) -> bool;

    /// The sizes CPU reads rely on (CHR memory not needed).
    spec fn prg_wf(&self) -> bool;

    /// The byte a CPU read at `addr` gives.
    spec fn prg_at(&self, addr: u16) -> u8;

    /// The byte a PPU pattern read at `addr` gives.
    spec fn chr_at(&self, addr: u16) -> u8;

    /// The nametable arrangement in effect.
    spec fn mirroring_spec(&self) -> Mirroring;

    /// The serialized banking / RAM state (never the ROM).
    spec fn state_bytes(&self) -> Seq<u8>;

    /// Whether `data` holds, at `o`, a complete saved state for this mapper.
    spec fn state_fits(&self, data: Seq<u8>, o: int) -> bool;

    fn read_prg(&self, addr: u16) -> (v: u8)
        requires
            self.prg_wf(),
        ensures
            v == self.prg_at(addr),
    ;

    fn write_prg(&mut self, addr: u16, val: u8)
        requires
            old(self).wf(),
        ensures
            final(self).wf(),
    ;

    fn read_chr(&self, addr: u16) -> (v: u8)
        requires
            self.chr_wf(),
        ensures
            v == self.chr_at(addr),
    ;

    fn write_chr(&mut self, addr: u16, val: u8)
        requires
            old(self).chr_wf(),
        ensures
            final(self).chr_wf(),
            old(self).wf() ==> final(self).wf(),
            final(self).mirroring_spec() == old(self).mirroring_spec(),
            forall|a: u16| #[trigger] final(self).prg_at(a) == old(self).prg_at(a),
    ;

    fn mirroring(&self) -> (m: Mirroring)
        ensures
            m == self.mirroring_spec(),
    ;

    /// Called once per visible PPU scanline.
    fn notify_scanline(&mut self)
        requires
            old(self).wf(),
        ensures
            final(self).wf(),
    ;

    /// Whether the mapper raised an interrupt; reading clears it.
    fn irq_pending(&mut self) -> (p: bool)
        requires
            old(self).wf(),
        ensures
            final(self).wf(),
    ;

    fn save_mapper(&self, buf: &mut Vec<u8>)
        requires
            self.chr_wf(),
        ensures
            final(buf)@ == old(buf)@ + self.state_bytes(),
    ;

    fn load_mapper(&mut self, data: &[u8], off: &mut usize)
        requires
            old(self).state_fits(data@, *old(off) as int),
        ensures
            *old(off) < *final(off) <= data@.len(),
    ;
}

/// Saved CHR RAM: a flag, then the CHR bytes when they are RAM.
pub open spec fn chr_ram_bytes(chr_is_ram: bool, chr: Seq<u8>) -> Seq<u8> {
    if chr_is_ram {
        seq![1u8] + len_prefixed(chr)
    } else {
        seq![0u8]
    }
}

/// Whether `data` holds a saved CHR RAM flag (and the bytes it announces) at `o`.
pub open spec fn chr_ram_fits(data: Seq<u8>, o: int) -> bool {
    &&& 0 <= o < data.len()
    &&& data[o] != 0 ==> fits_len_prefixed(data, o + 1)
}

/// The CHR after loading the saved CHR RAM section at `o`.
pub open spec fn chr_after_load(data: Seq<u8>, o: int, chr: Seq<u8>) -> Seq<u8> {
    if data[o] != 0 {
        data.subrange(o + 5, o + 5 + dec32(data, o + 1))
    } else {
        chr
    }
}

/// Length of the saved CHR RAM section at `o`.
pub open spec fn chr_ram_len(data: Seq<u8>, o: int) -> int {
    if data[o] != 0 {
        5 + dec32(data, o + 1)
    } else {
        1
    }
}

/// Appends the CHR RAM section.
fn save_chr_ram(buf: &mut Vec<u8>, chr_is_ram: bool, chr: &Vec<u8>)
    requires
        chr@.len() <= u32::MAX,
    ensures
        final(buf)@ == old(buf)@ + chr_ram_bytes(chr_is_ram, chr@),
{
    write_bool(buf, chr_is_ram);
    if chr_is_ram {
        write_bytes(buf, chr.as_slice());
    }
    assert(buf@ =~= old(buf)@ + chr_ram_bytes(chr_is_ram, chr@));
}

/// Reads the CHR RAM section: the new CHR when the flag is set.
fn load_chr_ram(data: &[u8], off: &mut usize) -> (r: Option<Vec<u8>>)
    requires
        chr_ram_fits(data@, *old(off) as int),
    ensures
        *final(off) == *old(off) + chr_ram_len(data@, *old(off) as int),
        *final(off) <= data@.len(),
        data@[*old(off) as int] != 0 <==> r is Some,
        r matches Some(v) ==> v@ == data@.subrange(
            *old(off) + 5,
            *old(off) + 5 + dec32(data@, *old(off) + 1),
        ),
{
    let chr_is_ram = read_bool(data, off);
    if chr_is_ram {
        Some(read_bytes(data, off))
    } else {
        None
    }
}

// ---------------------------------------------------------------------------
// iNES header parser
// ---------------------------------------------------------------------------

/// Whether `rom` starts with the iNES magic "NES\x1A".
pub open spec fn has_ines_magic(rom: Seq<u8>) -> bool {
    rom.len() >= 4 && rom[0] == 0x4E && rom[1] == 0x45 && rom[2] == 0x53 && rom[3] == 0x1A
}

/// Offset of PRG ROM: after the 16-byte header and the 512-byte trainer when flag 6 bit 2 says so.
pub open spec fn ines_prg_start(rom: Seq<u8>) -> int {
    16 + if (rom[6] / 4) % 2 == 1 { 512int } else { 0 }
}

pub open spec fn ines_prg_size(rom: Seq<u8>) -> int {
    rom[4] * 16384
}

pub open spec fn ines_chr_size(rom: Seq<u8>) -> int {
    rom[5] * 8192
}

/// Whether the header and both ROM areas it announces are all present.
pub open spec fn ines_complete(rom: Seq<u8>) -> bool {
    &&& rom.len() >= 16
    &&& has_ines_magic(rom)
    &&& ines_prg_start(rom) + ines_prg_size(rom) + ines_chr_size(rom) <= rom.len()
}

/// Whether `rom` starts with the iNES magic: an NES image rather than a Game Boy one.
pub fn has_ines_header(rom: &[u8]) -> (b: bool)
    ensures
        b == has_ines_magic(rom@),
{
    rom.len() >= 4 && rom[0] == 0x4E && rom[1] == 0x45 && rom[2] == 0x53 && rom[3] == 0x1A
}

/// Whether `rom` is an iNES image with its header, trainer and both ROM areas present
/// (`parse_ines` asserts as much).
pub fn ines_image_complete(rom: &[u8]) -> (b: bool)
    ensures
        b == ines_complete(rom@),
{
    let n = rom.len();
    if n < 16 || rom[0] != 0x4E || rom[1] != 0x45 || rom[2] != 0x53 || rom[3] != 0x1A {
        return false;
    }
    let trainer: u64 = if (rom[6] / 4) % 2 == 1 { 512 } else { 0 };
    let need: u64 = 16 + trainer + rom[4] as u64 * 16384 + rom[5] as u64 * 8192;
    need <= n as u64
}

/// The mapper number from flags 6 and 7.
pub open spec fn ines_mapper_number(rom: Seq<u8>) -> int {
    (rom[7] / 16) * 16 + rom[6] / 16
}

/// The nametable arrangement from flag 6.
pub open spec fn ines_mirroring(rom: Seq<u8>) -> Mirroring {
    if (rom[6] / 8) % 2 == 1 {
        Mirroring::FourScreen
    } else if rom[6] % 2 == 1 {
        Mirroring::Vertical
    } else {
        Mirroring::Horizontal
    }
}

/// The PRG ROM of an iNES image.
pub open spec fn ines_prg(rom: Seq<u8>) -> Seq<u8> {
    rom.subrange(ines_prg_start(rom), ines_prg_start(rom) + ines_prg_size(rom))
}

/// The CHR memory of an iNES image: its CHR ROM, or 8 KiB of zeroed RAM when it has none.
pub open spec fn ines_chr(rom: Seq<u8>) -> Seq<u8> {
    if rom[5] == 0 {
        Seq::new(8192, |i| 0u8)
    } else {
        let s = ines_prg_start(rom) + ines_prg_size(rom);
        rom.subrange(s, s + ines_chr_size(rom))
    }
}

/// Parses an iNES image into its cartridge. Unknown mapper numbers fall back to mapper 0.
pub fn parse_ines(rom: &[u8]) -> (cart: Cartridge)
    requires
        ines_complete(rom@),
    ensures
        cart.prg_rom() == ines_prg(rom@),
        cart.chr() == ines_chr(rom@),
        cart.chr_is_ram() == (rom@[5] == 0),
        cart.initial_mirroring() == ines_mirroring(rom@),
        cart.kind() == (if 0 <= ines_mapper_number(rom@) <= 4 { ines_mapper_number(rom@) } else { 0 }),
        cart.chr_wf(),
        rom@[4] >= 1 ==> cart.wf(),
{
    let prg_banks = rom[4] as usize;
    let chr_banks = rom[5] as usize;
    let flags6 = rom[6];
    let flags7 = rom[7];

    let mapper_num = (flags7 / 16) * 16 + flags6 / 16;
    let has_trainer = (flags6 / 4) % 2 == 1;
    let four_screen = (flags6 / 8) % 2 == 1;
    let vertical_mirror = flags6 % 2 == 1;

    let mirroring = if four_screen {
        Mirroring::FourScreen
    } else if vertical_mirror {
        Mirroring::Vertical
    } else {
        Mirroring::Horizontal
    };

    let trainer_size: usize = if has_trainer { 512 } else { 0 };
    let prg_start = 16 + trainer_size;
    let prg_size = prg_banks * 16384;
    let chr_start = prg_start + prg_size;
    let chr_size = chr_banks * 8192;

    let prg_rom = vstd::slice::slice_to_vec(vstd::slice::slice_subrange(rom, prg_start, prg_start + prg_size));
    let chr_data = if chr_banks == 0 {
        vec![0u8; 8192]
    } else {
        vstd::slice::slice_to_vec(vstd::slice::slice_subrange(rom, chr_start, chr_start + chr_size))
    };
    assert(chr_data@ =~= ines_chr(rom@));
    let chr_is_ram = chr_banks == 0;

    if mapper_num == 1 {
        Cartridge::Mmc1(Mapper1::new(prg_rom, chr_data, chr_is_ram, mirroring))
    } else if mapper_num == 2 {
        Cartridge::Uxrom(Mapper2::new(prg_rom, chr_data, chr_is_ram, mirroring))
    } else if mapper_num == 3 {
        Cartridge::Cnrom(Mapper3::new(prg_rom, chr_data, chr_is_ram, mirroring))
    } else if mapper_num == 4 {
        Cartridge::Mmc3(Mapper4::new(prg_rom, chr_data, chr_is_ram, mirroring))
    } else {
        Cartridge::Nrom(Mapper0::new(prg_rom, chr_data, chr_is_ram, mirroring))
    }
}

// ---------------------------------------------------------------------------
// Mapper 0 – NROM
// ---------------------------------------------------------------------------
pub struct Mapper0 {
    pub prg_rom: Vec<u8>,
    pub chr: Vec<u8>,
    pub chr_is_ram: bool,
    pub mirroring: Mirroring,
}

impl Mapper0 {
    pub fn new(prg_rom: Vec<u8>, chr: Vec<u8>, chr_is_ram: bool, mirroring: Mirroring) -> (m: Self)
        ensures
            m.prg_rom@ == prg_rom@,
            m.chr@ == chr@,
            m.chr_is_ram == chr_is_ram,
            m.mirroring == mirroring,
    {
        Mapper0 { prg_rom, chr, chr_is_ram, mirroring }
    }
}

impl Mapper for Mapper0 {
    open spec fn wf(&self) -> bool {
        self.prg_wf() && self.chr_wf()
    }

    open spec fn chr_wf(&self) -> bool {
        0 < self.chr@.len() <= u32::MAX
    }

    open spec fn prg_wf(&self) -> bool {
        0 < self.prg_rom@.len()
    }

    /// $8000-$FFFF map PRG ROM, repeated when it is 16 KiB.
    open spec fn prg_at(&self, addr: u16) -> u8 {
        if addr < 0x8000 {
            0
        } else {
            self.prg_rom@[(addr - 0x8000) % (self.prg_rom@.len() as int)]
        }
    }

    open spec fn chr_at(&self, addr: u16) -> u8 {
        self.chr@[(addr as int) % (self.chr@.len() as int)]
    }

    open spec fn mirroring_spec(&self) -> Mirroring {
        self.mirroring
    }

    open spec fn state_bytes(&self) -> Seq<u8> {
        seq![0u8] + chr_ram_bytes(self.chr_is_ram, self.chr@)
    }

    open spec fn state_fits(&self, data: Seq<u8>, o: int) -> bool {
        0 <= o && chr_ram_fits(data, o + 1)
    }

    fn read_prg(&self, addr: u16) -> (v: u8) {
        if addr < 0x8000 {
            return 0;
        }
        let offset = (addr - 0x8000) as usize;
        let idx = offset % self.prg_rom.len();
        self.prg_rom[idx]
    }

    /// NROM has no PRG banking.
    fn write_prg(&mut self, _addr: u16, _val: u8)
        ensures
            *final(self) == *old(self),
    {
    }

    fn read_chr(&self, addr: u16) -> (v: u8) {
        self.chr[addr as usize % self.chr.len()]
    }

    /// Writes CHR when it is RAM.
    fn write_chr(&mut self, addr: u16, val: u8)
        ensures
            nrom_write_chr(*old(self), *final(self), addr, val),
    {
        if self.chr_is_ram {
            let idx = addr as usize % self.chr.len();
            self.chr.set(idx, val);
        }
    }

    fn mirroring(&self) -> (m: Mirroring) {
        self.mirroring
    }

    /// No scanline counter.
    fn notify_scanline(&mut self)
        ensures
            *final(self) == *old(self),
    {
    }

    /// Never raises an interrupt.
    fn irq_pending(&mut self) -> (p: bool)
        ensures
            !p,
            *final(self) == *old(self),
    {
        false
    }

    fn save_mapper(&self, buf: &mut Vec<u8>) {
        write_u8(buf, 0);
        save_chr_ram(buf, self.chr_is_ram, &self.chr);
        assert(buf@ =~= old(buf)@ + self.state_bytes());
    }

    /// Restores CHR RAM when the saved state holds it.
    fn load_mapper(&mut self, data: &[u8], off: &mut usize)
        ensures
            final(self).chr@ == chr_after_load(data@, *old(off) + 1, old(self).chr@),
            *final(off) == *old(off) + 1 + chr_ram_len(data@, *old(off) + 1),
            final(self).prg_rom@ == old(self).prg_rom@,
            final(self).chr_is_ram == old(self).chr_is_ram,
            final(self).mirroring == old(self).mirroring,
    {
        let _tag = read_u8(data, off);
        if let Some(chr) = load_chr_ram(data, off) {
            self.chr = chr;
        }
    }
}

// ---------------------------------------------------------------------------
// Mapper 1 – MMC1
// ---------------------------------------------------------------------------
pub struct Mapper1 {
    pub prg_rom: Vec<u8>,
    pub chr: Vec<u8>,
    pub chr_is_ram: bool,
    pub base_mirroring: Mirroring,
    pub shift: u8,
    pub shift_count: u8,
    pub control: u8,
    pub chr_bank0: u8,
    pub chr_bank1: u8,
    pub prg_bank: u8,
}

/// Offset in PRG ROM that MMC1 maps `addr` (0x8000..=0xFFFF) to.
pub open spec fn mmc1_prg_offset(control: u8, prg_bank: u8, num_banks: int, addr: int) -> int {
    let mode = (control / 4) % 4;
    let bank = (prg_bank % 16) as int;
    if mode <= 1 {
        let b = bank - bank % 2;
        if addr < 0xC000 {
            b * 16384 + (addr - 0x8000)
        } else {
            (b + 1) * 16384 + (addr - 0xC000)
        }
    } else if mode == 2 {
        if addr < 0xC000 {
            addr - 0x8000
        } else {
            bank * 16384 + (addr - 0xC000)
        }
    } else {
        if addr < 0xC000 {
            bank * 16384 + (addr - 0x8000)
        } else {
            (num_banks - 1) * 16384 + (addr - 0xC000)
        }
    }
}

/// Offset in CHR memory that MMC1 maps `addr` to.
pub open spec fn mmc1_chr_offset(control: u8, chr_bank0: u8, chr_bank1: u8, num_banks: int, addr: int) -> int {
    if (control / 16) % 2 == 0 {
        let bank = (chr_bank0 - chr_bank0 % 2) % (num_banks / 2);
        bank * 8192 + addr
    } else if addr < 0x1000 {
        (chr_bank0 as int % num_banks) * 4096 + addr
    } else {
        (chr_bank1 as int % num_banks) * 4096 + (addr - 0x1000)
    }
}

/// Number of 4 KiB CHR banks as MMC1 counts them (2 when there is less than one).
pub open spec fn mmc1_chr_banks(chr_len: int) -> int {
    if chr_len / 4096 == 0 {
        2
    } else {
        chr_len / 4096
    }
}

/// MMC1 CHR banking, for every mapper state and pattern address: the CHR is counted in
/// 4 KiB banks (2 when smaller than one bank). With control bit 4 set (4 KiB mode),
/// $0000-$0FFF show bank `chr_bank0` and $1000-$1FFF bank `chr_bank1`, each taken modulo
/// the bank count; with it clear (8 KiB mode) both halves show the 8 KiB bank starting at
/// the even bank below `chr_bank0`, taken modulo the number of 8 KiB banks. Reads past the
/// CHR give 0.
pub proof fn lemma_mmc1_chr_banking(m: Mapper1, addr: u16)
    requires
        addr < 0x2000,
    ensures
        ({
            let n: int = if m.chr@.len() < 4096 { 2 } else { (m.chr@.len() / 4096) as int };
            let off: int = if m.control / 16 % 2 == 1 && addr >= 0x1000 {
                (m.chr_bank1 as int % n) * 4096 + addr - 0x1000
            } else if m.control / 16 % 2 == 1 {
                (m.chr_bank0 as int % n) * 4096 + addr
            } else {
                ((m.chr_bank0 / 2 * 2) as int % (n / 2)) * 8192 + addr
            };
            m.chr_at(addr) == if 0 <= off < m.chr@.len() { m.chr@[off] } else { 0 }
        }),
{
}

/// MMC1 PRG banking, for every mapper state and CPU address: below $8000 reads give 0; the
/// PRG bank register is taken modulo 16. In the 32 KiB modes (control bits 3-2 = 0 or 1)
/// $8000-$FFFF show the 32 KiB starting at the even bank below it; in mode 2 $8000 shows
/// the first bank and $C000 the selected one; in mode 3 $8000 shows the selected bank and
/// $C000 the last one. Reads past the PRG ROM give 0.
pub proof fn lemma_mmc1_prg_banking(m: Mapper1, addr: u16)
    ensures
        ({
            let n: int = (m.prg_rom@.len() / 16384) as int;
            let mode = (m.control / 4) % 4;
            let bank: int = (m.prg_bank % 16) as int;
            let low = addr < 0xC000;
            let off: int = if mode <= 1 {
                (bank / 2 * 2) * 16384 + (addr - 0x8000)
            } else if mode == 2 {
                if low { addr - 0x8000 } else { bank * 16384 + (addr - 0xC000) }
            } else {
                if low { bank * 16384 + (addr - 0x8000) } else { (n - 1) * 16384 + (addr - 0xC000) }
            };
            m.prg_at(addr) == if addr < 0x8000 {
                0
            } else if 0 <= off < m.prg_rom@.len() {
                m.prg_rom@[off]
            } else {
                0
            }
        }),
{
}

impl Mapper1 {
    pub fn new(prg_rom: Vec<u8>, chr: Vec<u8>, chr_is_ram: bool, mirroring: Mirroring) -> (m: Self)
        ensures
            m.prg_rom@ == prg_rom@,
            m.chr@ == chr@,
            m.chr_is_ram == chr_is_ram,
            m.base_mirroring == mirroring,
            m.shift == 0 && m.shift_count == 0 && m.control == 0x0C,
            m.chr_bank0 == 0 && m.chr_bank1 == 0 && m.prg_bank == 0,
    {
        Mapper1 {
            prg_rom,
            chr,
            chr_is_ram,
            base_mirroring: mirroring,
            shift: 0,
            shift_count: 0,
            control: 0x0C,
            chr_bank0: 0,
            chr_bank1: 0,
            prg_bank: 0,
        }
    }

    fn prg_bank_count(&self) -> (n: usize)
        ensures
            n == self.prg_rom@.len() / 16384,
    {
        self.prg_rom.len() / 16384
    }

    fn chr_bank_count(&self) -> (n: usize)
        ensures
            n == mmc1_chr_banks(self.chr@.len() as int),
    {
        let s = self.chr.len() / 4096;
        if s == 0 {
            2
        } else {
            s
        }
    }
}

impl Mapper for Mapper1 {
    open spec fn wf(&self) -> bool {
        self.prg_wf() && self.chr_wf()
    }

    open spec fn chr_wf(&self) -> bool {
        &&& self.chr@.len() <= u32::MAX
        &&& !(4096 <= self.chr@.len() < 8192)
        &&& 0 < self.chr@.len()
        &&& self.shift_count < 5
    }

    open spec fn prg_wf(&self) -> bool {
        self.prg_rom@.len() >= 16384
    }

    open spec fn prg_at(&self, addr: u16) -> u8 {
        if addr < 0x8000 {
            0
        } else {
            byte_or(
                self.prg_rom@,
                mmc1_prg_offset(self.control, self.prg_bank, (self.prg_rom@.len() / 16384) as int, addr as int),
                0,
            )
        }
    }

    open spec fn chr_at(&self, addr: u16) -> u8 {
        byte_or(
            self.chr@,
            mmc1_chr_offset(self.control, self.chr_bank0, self.chr_bank1, mmc1_chr_banks(self.chr@.len() as int), addr as int),
            0,
        )
    }

    /// Control bits 1-0: one-screen low, one-screen high, vertical, horizontal.
    open spec fn mirroring_spec(&self) -> Mirroring {
        let m = self.control % 4;
        if m == 0 {
            Mirroring::SingleScreenLow
        } else if m == 1 {
            Mirroring::SingleScreenHigh
        } else if m == 2 {
            Mirroring::Vertical
        } else {
            Mirroring::Horizontal
        }
    }

    open spec fn state_bytes(&self) -> Seq<u8> {
        seq![1u8, self.shift, self.shift_count, self.control, self.chr_bank0, self.chr_bank1, self.prg_bank]
            + chr_ram_bytes(self.chr_is_ram, self.chr@)
    }

    open spec fn state_fits(&self, data: Seq<u8>, o: int) -> bool {
        0 <= o && chr_ram_fits(data, o + 7)
    }

    fn read_prg(&self, addr: u16) -> (v: u8) {
        if addr < 0x8000 {
            return 0;
        }
        let num_banks = self.prg_bank_count() as u64;
        assert(num_banks * 16384 <= self.prg_rom@.len()) by (nonlinear_arith)
            requires num_banks == self.prg_rom@.len() / 16384;
        assert(self.prg_rom@.len() <= u64::MAX) by {
            assert(self.prg_rom@.len() == self.prg_rom.len());
        }
        let prg_mode = (self.control / 4) % 4;
        let bank = (self.prg_bank % 16) as u64;
        let a = addr as u64;
        let offset: u64 = if prg_mode <= 1 {
            let b = bank - bank % 2;
            if addr < 0xC000 {
                b * 16384 + (a - 0x8000)
            } else {
                (b + 1) * 16384 + (a - 0xC000)
            }
        } else if prg_mode == 2 {
            if addr < 0xC000 {
                a - 0x8000
            } else {
                bank * 16384 + (a - 0xC000)
            }
        } else {
            if addr < 0xC000 {
                bank * 16384 + (a - 0x8000)
            } else {
                (num_banks - 1) * 16384 + (a - 0xC000)
            }
        };
        get_byte_or(&self.prg_rom, offset, 0)
    }

    /// Serial writes: five writes of bit 0 fill a register chosen by the address;
    /// a write with bit 7 set resets the shift register and fixes the last PRG bank.
    fn write_prg(&mut self, addr: u16, val: u8)
        ensures
            mmc1_write_prg(*old(self), *final(self), addr, val),
    {
        if addr < 0x8000 {
            return;
        }
        if val >= 0x80 {
            self.shift = 0;
            self.shift_count = 0;
            self.control = self.control | 0x0C;
            return;
        }
        self.shift = self.shift / 2 + (val % 2) * 16;
        self.shift_count = self.shift_count + 1;
        if self.shift_count == 5 {
            let data = self.shift;
            self.shift = 0;
            self.shift_count = 0;
            if addr <= 0x9FFF {
                self.control = data;
            } else if addr <= 0xBFFF {
                self.chr_bank0 = data;
            } else if addr <= 0xDFFF {
                self.chr_bank1 = data;
            } else {
                self.prg_bank = data;
            }
        }
    }

    fn read_chr(&self, addr: u16) -> (v: u8) {
        let chr_mode = (self.control / 16) % 2;
        let num_banks = self.chr_bank_count() as u64;
        let a = addr as u64;
        let offset: u64 = if chr_mode == 0 {
            let b0 = self.chr_bank0 as u64;
            let bank = (b0 - b0 % 2) % (num_banks / 2);
            bank * 8192 + a
        } else if addr < 0x1000 {
            (self.chr_bank0 as u64 % num_banks) * 4096 + a
        } else {
            (self.chr_bank1 as u64 % num_banks) * 4096 + (a - 0x1000)
        };
        get_byte_or(&self.chr, offset, 0)
    }

    fn write_chr(&mut self, addr: u16, val: u8)
        ensures
            mmc1_write_chr(*old(self), *final(self), addr, val),
    {
        if self.chr_is_ram {
            let idx = addr as usize % self.chr.len();
            self.chr.set(idx, val);
        }
    }

    fn mirroring(&self) -> (m: Mirroring) {
        let m = self.control % 4;
        if m == 0 {
            Mirroring::SingleScreenLow
        } else if m == 1 {
            Mirroring::SingleScreenHigh
        } else if m == 2 {
            Mirroring::Vertical
        } else {
            Mirroring::Horizontal
        }
    }

    /// No scanline counter.
    fn notify_scanline(&mut self)
        ensures
            *final(self) == *old(self),
    {
    }

    /// Never raises an interrupt.
    fn irq_pending(&mut self) -> (p: bool)
        ensures
            !p,
            *final(self) == *old(self),
    {
        false
    }

    fn save_mapper(&self, buf: &mut Vec<u8>) {
        write_u8(buf, 1);
        write_u8(buf, self.shift);
        write_u8(buf, self.shift_count);
        write_u8(buf, self.control);
        write_u8(buf, self.chr_bank0);
        write_u8(buf, self.chr_bank1);
        write_u8(buf, self.prg_bank);
        save_chr_ram(buf, self.chr_is_ram, &self.chr);
        assert(buf@ =~= old(buf)@ + self.state_bytes());
    }

    fn load_mapper(&mut self, data: &[u8], off: &mut usize)
        ensures
            ({
                let o = *old(off) as int;
                &&& final(self).shift == data@[o + 1]
                &&& final(self).shift_count == data@[o + 2]
                &&& final(self).control == data@[o + 3]
                &&& final(self).chr_bank0 == data@[o + 4]
                &&& final(self).chr_bank1 == data@[o + 5]
                &&& final(self).prg_bank == data@[o + 6]
                &&& final(self).chr@ == chr_after_load(data@, o + 7, old(self).chr@)
                &&& *final(off) == o + 7 + chr_ram_len(data@, o + 7)
            }),
            final(self).prg_rom@ == old(self).prg_rom@,
            final(self).chr_is_ram == old(self).chr_is_ram,
            final(self).base_mirroring == old(self).base_mirroring,
    {
        let _tag = read_u8(data, off);
        self.shift = read_u8(data, off);
        self.shift_count = read_u8(data, off);
        self.control = read_u8(data, off);
        self.chr_bank0 = read_u8(data, off);
        self.chr_bank1 = read_u8(data, off);
        self.prg_bank = read_u8(data, off);
        if let Some(chr) = load_chr_ram(data, off) {
            self.chr = chr;
        }
    }
}

// ---------------------------------------------------------------------------
// Mapper 2 – UxROM
// ---------------------------------------------------------------------------
pub struct Mapper2 {
    pub prg_rom: Vec<u8>,
    pub chr: Vec<u8>,
    pub chr_is_ram: bool,
    pub mirroring: Mirroring,
    pub prg_bank: u32,
}

impl Mapper2 {
    pub fn new(prg_rom: Vec<u8>, chr: Vec<u8>, chr_is_ram: bool, mirroring: Mirroring) -> (m: Self)
        ensures
            m.prg_rom@ == prg_rom@,
            m.chr@ == chr@,
            m.chr_is_ram == chr_is_ram,
            m.mirroring == mirroring,
            m.prg_bank == 0,
    {
        Mapper2 { prg_rom, chr, chr_is_ram, mirroring, prg_bank: 0 }
    }
}

impl Mapper for Mapper2 {
    open spec fn wf(&self) -> bool {
        self.prg_wf() && self.chr_wf()
    }

    open spec fn chr_wf(&self) -> bool {
        self.chr@.len() <= u32::MAX
    }

    open spec fn prg_wf(&self) -> bool {
        self.prg_rom@.len() >= 16384
    }

    /// $8000-$BFFF: the selected 16 KiB bank; $C000-$FFFF: the last bank.
    open spec fn prg_at(&self, addr: u16) -> u8 {
        if addr < 0x8000 {
            0
        } else if addr < 0xC000 {
            byte_or(self.prg_rom@, self.prg_bank * 16384 + (addr - 0x8000), 0)
        } else {
            byte_or(self.prg_rom@, (self.prg_rom@.len() / 16384 - 1) * 16384 + (addr - 0xC000), 0)
        }
    }

    open spec fn chr_at(&self, addr: u16) -> u8 {
        byte_or(self.chr@, addr as int, 0)
    }

    open spec fn mirroring_spec(&self) -> Mirroring {
        self.mirroring
    }

    open spec fn state_bytes(&self) -> Seq<u8> {
        seq![2u8] + le32(self.prg_bank) + chr_ram_bytes(self.chr_is_ram, self.chr@)
    }

    open spec fn state_fits(&self, data: Seq<u8>, o: int) -> bool {
        0 <= o && o + 5 <= data.len() && chr_ram_fits(data, o + 5)
    }

    fn read_prg(&self, addr: u16) -> (v: u8) {
        let num_banks = (self.prg_rom.len() / 16384) as u64;
        if addr < 0x8000 {
            return 0;
        }
        let offset: u64 = if addr < 0xC000 {
            self.prg_bank as u64 * 16384 + (addr as u64 - 0x8000)
        } else {
            (num_banks - 1) * 16384 + (addr as u64 - 0xC000)
        };
        get_byte_or(&self.prg_rom, offset, 0)
    }

    /// Any write to $8000-$FFFF selects the bank, modulo the bank count.
    fn write_prg(&mut self, addr: u16, val: u8)
        ensures
            uxrom_write_prg(*old(self), *final(self), addr, val),
    {
        if addr >= 0x8000 {
            let num_banks = self.prg_rom.len() / 16384;
            self.prg_bank = ((val as usize) % num_banks) as u32;
        }
    }

    fn read_chr(&self, addr: u16) -> (v: u8) {
        get_byte_or(&self.chr, addr as u64, 0)
    }

    fn write_chr(&mut self, addr: u16, val: u8)
        ensures
            uxrom_write_chr(*old(self), *final(self), addr, val),
    {
        if self.chr_is_ram {
            if (addr as usize) < self.chr.len() {
                self.chr.set(addr as usize, val);
            }
        }
    }

    fn mirroring(&self) -> (m: Mirroring) {
        self.mirroring
    }

    /// No scanline counter.
    fn notify_scanline(&mut self)
        ensures
            *final(self) == *old(self),
    {
    }

    /// Never raises an interrupt.
    fn irq_pending(&mut self) -> (p: bool)
        ensures
            !p,
            *final(self) == *old(self),
    {
        false
    }

    fn save_mapper(&self, buf: &mut Vec<u8>) {
        write_u8(buf, 2);
        write_u32(buf, self.prg_bank);
        save_chr_ram(buf, self.chr_is_ram, &self.chr);
        assert(buf@ =~= old(buf)@ + self.state_bytes());
    }

    fn load_mapper(&mut self, data: &[u8], off: &mut usize)
        ensures
            ({
                let o = *old(off) as int;
                &&& final(self).prg_bank == dec32(data@, o + 1)
                &&& final(self).chr@ == chr_after_load(data@, o + 5, old(self).chr@)
                &&& *final(off) == o + 5 + chr_ram_len(data@, o + 5)
            }),
            final(self).prg_rom@ == old(self).prg_rom@,
            final(self).chr_is_ram == old(self).chr_is_ram,
            final(self).mirroring == old(self).mirroring,
    {
        let _tag = read_u8(data, off);
        self.prg_bank = read_u32(data, off);
        if let Some(chr) = load_chr_ram(data, off) {
            self.chr = chr;
        }
    }
}

// ---------------------------------------------------------------------------
// Mapper 3 – CNROM
// ---------------------------------------------------------------------------
pub struct Mapper3 {
    pub prg_rom: Vec<u8>,
    pub chr: Vec<u8>,
    pub chr_is_ram: bool,
    pub mirroring: Mirroring,
    pub chr_bank: u32,
}

impl Mapper3 {
    pub fn new(prg_rom: Vec<u8>, chr: Vec<u8>, chr_is_ram: bool, mirroring: Mirroring) -> (m: Self)
        ensures
            m.prg_rom@ == prg_rom@,
            m.chr@ == chr@,
            m.chr_is_ram == chr_is_ram,
            m.mirroring == mirroring,
            m.chr_bank == 0,
    {
        Mapper3 { prg_rom, chr, chr_is_ram, mirroring, chr_bank: 0 }
    }
}

impl Mapper for Mapper3 {
    open spec fn wf(&self) -> bool {
        self.prg_wf() && self.chr_wf()
    }

    open spec fn chr_wf(&self) -> bool {
        self.chr@.len() <= u32::MAX
    }

    open spec fn prg_wf(&self) -> bool {
        0 < self.prg_rom@.len()
    }

    open spec fn prg_at(&self, addr: u16) -> u8 {
        if addr < 0x8000 {
            0
        } else {
            self.prg_rom@[(addr - 0x8000) % (self.prg_rom@.len() as int)]
        }
    }

    /// The selected 8 KiB CHR bank.
    open spec fn chr_at(&self, addr: u16) -> u8 {
        byte_or(self.chr@, self.chr_bank * 8192 + addr, 0)
    }

    open spec fn mirroring_spec(&self) -> Mirroring {
        self.mirroring
    }

    open spec fn state_bytes(&self) -> Seq<u8> {
        seq![3u8] + le32(self.chr_bank) + chr_ram_bytes(self.chr_is_ram, self.chr@)
    }

    open spec fn state_fits(&self, data: Seq<u8>, o: int) -> bool {
        0 <= o && o + 5 <= data.len() && chr_ram_fits(data, o + 5)
    }

    fn read_prg(&self, addr: u16) -> (v: u8) {
        if addr < 0x8000 {
            return 0;
        }
        let offset = (addr - 0x8000) as usize % self.prg_rom.len();
        self.prg_rom[offset]
    }

    /// Any write to $8000-$FFFF selects the CHR bank, modulo the bank count (at least 1).
    fn write_prg(&mut self, addr: u16, val: u8)
        ensures
            cnrom_write_prg(*old(self), *final(self), addr, val),
    {
        if addr >= 0x8000 {
            let num_banks = self.chr.len() / 8192;
            let banks = if num_banks == 0 { 1 } else { num_banks };
            self.chr_bank = ((val as usize) % banks) as u32;
        }
    }

    fn read_chr(&self, addr: u16) -> (v: u8) {
        let offset = self.chr_bank as u64 * 8192 + addr as u64;
        get_byte_or(&self.chr, offset, 0)
    }

    fn write_chr(&mut self, addr: u16, val: u8)
        ensures
            cnrom_write_chr(*old(self), *final(self), addr, val),
    {
        if self.chr_is_ram {
            let offset = self.chr_bank as u64 * 8192 + addr as u64;
            if offset < self.chr.len() as u64 {
                self.chr.set(offset as usize, val);
            }
        }
    }

    fn mirroring(&self) -> (m: Mirroring) {
        self.mirroring
    }

    /// No scanline counter.
    fn notify_scanline(&mut self)
        ensures
            *final(self) == *old(self),
    {
    }

    /// Never raises an interrupt.
    fn irq_pending(&mut self) -> (p: bool)
        ensures
            !p,
            *final(self) == *old(self),
    {
        false
    }

    fn save_mapper(&self, buf: &mut Vec<u8>) {
        write_u8(buf, 3);
        write_u32(buf, self.chr_bank);
        save_chr_ram(buf, self.chr_is_ram, &self.chr);
        assert(buf@ =~= old(buf)@ + self.state_bytes());
    }

    fn load_mapper(&mut self, data: &[u8], off: &mut usize)
        ensures
            ({
                let o = *old(off) as int;
                &&& final(self).chr_bank == dec32(data@, o + 1)
                &&& final(self).chr@ == chr_after_load(data@, o + 5, old(self).chr@)
                &&& *final(off) == o + 5 + chr_ram_len(data@, o + 5)
            }),
            final(self).prg_rom@ == old(self).prg_rom@,
            final(self).chr_is_ram == old(self).chr_is_ram,
            final(self).mirroring == old(self).mirroring,
    {
        let _tag = read_u8(data, off);
        self.chr_bank = read_u32(data, off);
        if let Some(chr) = load_chr_ram(data, off) {
            self.chr = chr;
        }
    }
}

// ---------------------------------------------------------------------------
// Mapper 4 – MMC3
// ---------------------------------------------------------------------------
pub struct Mapper4 {
    pub prg_rom: Vec<u8>,
    pub chr: Vec<u8>,
    pub chr_is_ram: bool,
    /// $6000-$7FFF, 8 KiB.
    pub prg_ram: Vec<u8>,
    pub mirroring: Mirroring,
    /// Bits 0-2: register index, bit 6: PRG mode, bit 7: CHR mode.
    pub bank_select: u8,
    /// Bank registers R0-R7.
    pub regs: Vec<u8>,
    pub prg_ram_enable: bool,
    pub prg_ram_protect: bool,
    pub irq_latch: u8,
    pub irq_counter: u8,
    pub irq_enable: bool,
    pub irq_reload: bool,
    pub irq_pending: bool,
}

/// Offset in PRG ROM that MMC3 maps `addr` to, for `n` 8 KiB banks.
pub open spec fn mmc3_prg_offset(bank_select: u8, r6: u8, r7: u8, n: int, addr: int) -> int {
    let mode = (bank_select / 64) % 2;
    let b6 = r6 as int % n;
    let b7 = r7 as int % n;
    if 0x8000 <= addr <= 0x9FFF {
        (if mode == 0 { b6 } else { n - 2 }) * 8192 + (addr - 0x8000)
    } else if 0xA000 <= addr <= 0xBFFF {
        b7 * 8192 + (addr - 0xA000)
    } else if 0xC000 <= addr <= 0xDFFF {
        (if mode == 0 { n - 2 } else { b6 }) * 8192 + (addr - 0xC000)
    } else if 0xE000 <= addr {
        (n - 1) * 8192 + (addr - 0xE000)
    } else {
        0
    }
}

/// The 1 KiB bank and offset within it that MMC3 selects for CHR `addr`.
pub open spec fn mmc3_chr_bank(bank_select: u8, regs: Seq<u8>, addr: int) -> (int, int) {
    let r0 = regs[0] - regs[0] % 2;
    let r1 = regs[1] - regs[1] % 2;
    if (bank_select / 128) % 2 == 0 {
        if addr <= 0x07FF {
            (r0, addr)
        } else if addr <= 0x0FFF {
            (r1, addr - 0x0800)
        } else if addr <= 0x13FF {
            (regs[2] as int, addr - 0x1000)
        } else if addr <= 0x17FF {
            (regs[3] as int, addr - 0x1400)
        } else if addr <= 0x1BFF {
            (regs[4] as int, addr - 0x1800)
        } else if addr <= 0x1FFF {
            (regs[5] as int, addr - 0x1C00)
        } else {
            (0, addr)
        }
    } else {
        if addr <= 0x03FF {
            (regs[2] as int, addr)
        } else if addr <= 0x07FF {
            (regs[3] as int, addr - 0x0400)
        } else if addr <= 0x0BFF {
            (regs[4] as int, addr - 0x0800)
        } else if addr <= 0x0FFF {
            (regs[5] as int, addr - 0x0C00)
        } else if addr <= 0x17FF {
            (r0, addr - 0x1000)
        } else if addr <= 0x1FFF {
            (r1, addr - 0x1800)
        } else {
            (0, addr)
        }
    }
}

/// Number of 1 KiB CHR banks as MMC3 counts them (8 when there is less than one).
pub open spec fn mmc3_chr_banks(chr_len: int) -> int {
    if chr_len / 1024 == 0 {
        8
    } else {
        chr_len / 1024
    }
}

/// Offset in CHR memory that MMC3 maps `addr` to.
pub open spec fn mmc3_chr_offset(bank_select: u8, regs: Seq<u8>, chr_len: int, addr: int) -> int {
    let (bank, offset) = mmc3_chr_bank(bank_select, regs, addr);
    (bank % mmc3_chr_banks(chr_len)) * 1024 + offset
}

/// MMC3 banking, for every mapper state and address. PRG: with `n` 8 KiB banks and R6, R7
/// taken modulo `n`, $A000 shows R7 and $E000 the last bank, while $8000 and $C000 show R6
/// and the second-to-last bank, swapped when bank-select bit 6 is set; $6000-$7FFF is the
/// PRG RAM while enabled (else 0). CHR: bank-select bit 7 swaps the two 4 KiB halves of the
/// pattern space; then the first half is two 2 KiB banks (R0, R1 with bit 0 cleared) and
/// the second four 1 KiB banks (R2-R5), bank numbers taken modulo the number of 1 KiB
/// banks (8 when the CHR is smaller). Reads past the memory give 0.
pub proof fn lemma_mmc3_banking(m: Mapper4, addr: u16)
    requires
        m.prg_wf(),
        m.chr_wf(),
    ensures
        ({
            let n: int = (m.prg_rom@.len() / 8192) as int;
            let r6: int = m.regs@[6] as int % n;
            let r7: int = m.regs@[7] as int % n;
            let swap = (m.bank_select / 64) % 2 == 1;
            let prg: int = if addr < 0xA000 {
                (if swap { n - 2 } else { r6 }) * 8192 + (addr - 0x8000)
            } else if addr < 0xC000 {
                r7 * 8192 + (addr - 0xA000)
            } else if addr < 0xE000 {
                (if swap { r6 } else { n - 2 }) * 8192 + (addr - 0xC000)
            } else {
                (n - 1) * 8192 + (addr - 0xE000)
            };
            addr >= 0x8000 ==> m.prg_at(addr) == if 0 <= prg < m.prg_rom@.len() { m.prg_rom@[prg] } else { 0 }
        }),
        0x6000 <= addr < 0x8000 ==> m.prg_at(addr) == if m.prg_ram_enable { m.prg_ram@[addr - 0x6000] } else { 0 },
        ({
            let k: int = if m.chr@.len() < 1024 { 8 } else { (m.chr@.len() / 1024) as int };
            let a: int = if (m.bank_select / 128) % 2 == 1 { (addr + 0x1000) % 0x2000 } else { addr as int };
            let chr: int = if a < 0x0800 {
                ((m.regs@[0] / 2 * 2) as int % k) * 1024 + a
            } else if a < 0x1000 {
                ((m.regs@[1] / 2 * 2) as int % k) * 1024 + (a - 0x0800)
            } else {
                (m.regs@[2 + (a - 0x1000) / 1024] as int % k) * 1024 + a % 1024
            };
            addr < 0x2000 ==> m.chr_at(addr) == if 0 <= chr < m.chr@.len() { m.chr@[chr] } else { 0 }
        }),
{
}

impl Mapper4 {
    pub fn new(prg_rom: Vec<u8>, chr: Vec<u8>, chr_is_ram: bool, mirroring: Mirroring) -> (m: Self)
        ensures
            m.prg_rom@ == prg_rom@,
            m.chr@ == chr@,
            m.chr_is_ram == chr_is_ram,
            m.mirroring == mirroring,
            m.prg_ram@ == Seq::new(8192, |i| 0u8),
            m.regs@ == Seq::new(8, |i| 0u8),
            m.bank_select == 0,
            m.prg_ram_enable && !m.prg_ram_protect,
            m.irq_latch == 0 && m.irq_counter == 0,
            !m.irq_enable && !m.irq_reload && !m.irq_pending,
    {
        let m = Mapper4 {
            prg_rom,
            chr,
            chr_is_ram,
            prg_ram: vec![0u8; 8192],
            mirroring,
            bank_select: 0,
            regs: vec![0u8; 8],
            prg_ram_enable: true,
            prg_ram_protect: false,
            irq_latch: 0,
            irq_counter: 0,
            irq_enable: false,
            irq_reload: false,
            irq_pending: false,
        };
        assert(m.prg_ram@ =~= Seq::new(8192, |i| 0u8));
        assert(m.regs@ =~= Seq::new(8, |i| 0u8));
        m
    }

    fn prg_bank_count(&self) -> (n: usize)
        ensures
            n == self.prg_rom@.len() / 8192,
    {
        self.prg_rom.len() / 8192
    }

    fn chr_bank_count(&self) -> (n: usize)
        ensures
            n == mmc3_chr_banks(self.chr@.len() as int),
    {
        let n = self.chr.len() / 1024;
        if n == 0 {
            8
        } else {
            n
        }
    }

    /// PRG ROM offset for `addr` outside $6000-$7FFF (which is PRG RAM).
    fn prg_addr(&self, addr: u16) -> (o: u64)
        requires
            self.prg_wf(),
            !(0x6000 <= addr <= 0x7FFF),
        ensures
            o == mmc3_prg_offset(self.bank_select, self.regs@[6], self.regs@[7], (self.prg_rom@.len() / 8192) as int, addr as int),
    {
        let n = self.prg_bank_count() as u64;
        assert(n * 8192 <= self.prg_rom@.len()) by (nonlinear_arith)
            requires n == self.prg_rom@.len() / 8192;
        assert(self.prg_rom@.len() <= u64::MAX) by {
            assert(self.prg_rom@.len() == self.prg_rom.len());
        }
        let prg_mode = (self.bank_select / 64) % 2;
        let r6 = self.regs[6] as u64 % n;
        let r7 = self.regs[7] as u64 % n;
        let a = addr as u64;
        assert(r6 * 8192 + 8191 <= n * 8192 && r7 * 8192 + 8191 <= n * 8192) by (nonlinear_arith)
            requires r6 < n, r7 < n;
        assert((n - 1) * 8192 + 8191 <= n * 8192) by (nonlinear_arith)
            requires n >= 1;
        if 0x8000 <= addr && addr <= 0x9FFF {
            let bank = if prg_mode == 0 { r6 } else { n - 2 };
            bank * 8192 + (a - 0x8000)
        } else if 0xA000 <= addr && addr <= 0xBFFF {
            r7 * 8192 + (a - 0xA000)
        } else if 0xC000 <= addr && addr <= 0xDFFF {
            let bank = if prg_mode == 0 { n - 2 } else { r6 };
            bank * 8192 + (a - 0xC000)
        } else if 0xE000 <= addr {
            (n - 1) * 8192 + (a - 0xE000)
        } else {
            0
        }
    }

    fn chr_addr(&self, addr: u16) -> (o: u64)
        requires
            self.chr_wf(),
        ensures
            o == mmc3_chr_offset(self.bank_select, self.regs@, self.chr@.len() as int, addr as int),
    {
        let n = self.chr_bank_count() as u64;
        let chr_mode = (self.bank_select / 128) % 2;
        let a = addr as u64;
        let r0 = (self.regs[0] - self.regs[0] % 2) as u64;
        let r1 = (self.regs[1] - self.regs[1] % 2) as u64;
        let (bank_1k, offset): (u64, u64) = if chr_mode == 0 {
            if a <= 0x07FF {
                (r0, a)
            } else if a <= 0x0FFF {
                (r1, a - 0x0800)
            } else if a <= 0x13FF {
                (self.regs[2] as u64, a - 0x1000)
            } else if a <= 0x17FF {
                (self.regs[3] as u64, a - 0x1400)
            } else if a <= 0x1BFF {
                (self.regs[4] as u64, a - 0x1800)
            } else if a <= 0x1FFF {
                (self.regs[5] as u64, a - 0x1C00)
            } else {
                (0, a)
            }
        } else {
            if a <= 0x03FF {
                (self.regs[2] as u64, a)
            } else if a <= 0x07FF {
                (self.regs[3] as u64, a - 0x0400)
            } else if a <= 0x0BFF {
                (self.regs[4] as u64, a - 0x0800)
            } else if a <= 0x0FFF {
                (self.regs[5] as u64, a - 0x0C00)
            } else if a <= 0x17FF {
                (r0, a - 0x1000)
            } else if a <= 0x1FFF {
                (r1, a - 0x1800)
            } else {
                (0, a)
            }
        };
        (bank_1k % n) * 1024 + offset
    }
}

/// The serialized MMC3 state.
pub open spec fn mmc3_state_bytes(m: Mapper4) -> Seq<u8> {
    seq![4u8, m.bank_select] + m.regs@ + seq![
        bool_byte(m.prg_ram_enable),
        bool_byte(m.prg_ram_protect),
        m.irq_latch,
        m.irq_counter,
        bool_byte(m.irq_enable),
        bool_byte(m.irq_reload),
        bool_byte(m.irq_pending),
    ] + len_prefixed(m.prg_ram@) + chr_ram_bytes(m.chr_is_ram, m.chr@)
}

impl Mapper for Mapper4 {
    open spec fn wf(&self) -> bool {
        &&& self.prg_rom@.len() >= 16384
        &&& self.chr_wf()
    }

    open spec fn chr_wf(&self) -> bool {
        &&& self.chr@.len() <= u32::MAX
        &&& self.prg_ram@.len() == 8192
        &&& self.regs@.len() == 8
    }

    open spec fn prg_wf(&self) -> bool {
        &&& self.prg_rom@.len() >= 16384
        &&& self.prg_ram@.len() == 8192
        &&& self.regs@.len() == 8
    }

    open spec fn prg_at(&self, addr: u16) -> u8 {
        if 0x6000 <= addr <= 0x7FFF {
            if self.prg_ram_enable {
                self.prg_ram@[addr - 0x6000]
            } else {
                0
            }
        } else {
            byte_or(
                self.prg_rom@,
                mmc3_prg_offset(self.bank_select, self.regs@[6], self.regs@[7], (self.prg_rom@.len() / 8192) as int, addr as int),
                0,
            )
        }
    }

    open spec fn chr_at(&self, addr: u16) -> u8 {
        byte_or(self.chr@, mmc3_chr_offset(self.bank_select, self.regs@, self.chr@.len() as int, addr as int), 0)
    }

    open spec fn mirroring_spec(&self) -> Mirroring {
        self.mirroring
    }

    open spec fn state_bytes(&self) -> Seq<u8> {
        mmc3_state_bytes(*self)
    }

    open spec fn state_fits(&self, data: Seq<u8>, o: int) -> bool {
        &&& 0 <= o
        &&& fits_len_prefixed(data, o + 17)
        &&& chr_ram_fits(data, o + 21 + dec32(data, o + 17))
        &&& dec32(data, o + 17) == 8192
    }

    fn read_prg(&self, addr: u16) -> (v: u8) {
        if addr >= 0x6000 && addr <= 0x7FFF {
            if self.prg_ram_enable {
                return self.prg_ram[(addr - 0x6000) as usize];
            }
            return 0;
        }
        let off = self.prg_addr(addr);
        get_byte_or(&self.prg_rom, off, 0)
    }

    fn write_prg(&mut self, addr: u16, val: u8)
        ensures
            mmc3_write_prg(*old(self), *final(self), addr, val),
    {
        if 0x6000 <= addr && addr <= 0x7FFF {
            if self.prg_ram_enable && !self.prg_ram_protect {
                self.prg_ram.set((addr - 0x6000) as usize, val);
            }
        } else if 0x8000 <= addr && addr <= 0x9FFF {
            if addr % 2 == 0 {
                self.bank_select = val;
            } else {
                let reg = (self.bank_select % 8) as usize;
                self.regs.set(reg, val);
            }
        } else if 0xA000 <= addr && addr <= 0xBFFF {
            if addr % 2 == 0 {
                self.mirroring = if val % 2 == 0 { Mirroring::Vertical } else { Mirroring::Horizontal };
            } else {
                self.prg_ram_enable = val >= 0x80;
                self.prg_ram_protect = (val / 64) % 2 == 1;
            }
        } else if 0xC000 <= addr && addr <= 0xDFFF {
            if addr % 2 == 0 {
                self.irq_latch = val;
            } else {
                self.irq_counter = 0;
                self.irq_reload = true;
            }
        } else if 0xE000 <= addr {
            if addr % 2 == 0 {
                self.irq_enable = false;
                self.irq_pending = false;
            } else {
                self.irq_enable = true;
            }
        }
    }

    fn read_chr(&self, addr: u16) -> (v: u8) {
        let off = self.chr_addr(addr);
        get_byte_or(&self.chr, off, 0)
    }

    fn write_chr(&mut self, addr: u16, val: u8)
        ensures
            mmc3_write_chr(*old(self), *final(self), addr, val),
    {
        if self.chr_is_ram {
            let off = self.chr_addr(addr);
            if off < self.chr.len() as u64 {
                self.chr.set(off as usize, val);
            }
        }
    }

    fn mirroring(&self) -> (m: Mirroring) {
        self.mirroring
    }

    /// The scanline counter: reloads from the latch when zero or asked to, else counts
    /// down; reaching zero with IRQs enabled raises an interrupt.
    fn notify_scanline(&mut self)
        ensures
            ({
                let reload = old(self).irq_counter == 0 || old(self).irq_reload;
                let counter = if reload { old(self).irq_latch } else { (old(self).irq_counter - 1) as u8 };
                &&& final(self).irq_counter == counter
                &&& final(self).irq_reload == (!reload && old(self).irq_reload)
                &&& final(self).irq_pending == (old(self).irq_pending || (counter == 0 && old(self).irq_enable))
            }),
            final(self).prg_rom@ == old(self).prg_rom@,
            final(self).chr@ == old(self).chr@,
            final(self).prg_ram@ == old(self).prg_ram@,
            final(self).regs@ == old(self).regs@,
            final(self).bank_select == old(self).bank_select,
            final(self).mirroring == old(self).mirroring,
            final(self).irq_enable == old(self).irq_enable,
            final(self).irq_latch == old(self).irq_latch,
            final(self).prg_ram_enable == old(self).prg_ram_enable,
            final(self).prg_ram_protect == old(self).prg_ram_protect,
            final(self).chr_is_ram == old(self).chr_is_ram,
    {
        if self.irq_counter == 0 || self.irq_reload {
            self.irq_counter = self.irq_latch;
            self.irq_reload = false;
        } else {
            self.irq_counter = self.irq_counter - 1;
        }
        if self.irq_counter == 0 && self.irq_enable {
            self.irq_pending = true;
        }
    }

    /// Reports the pending interrupt and clears it.
    fn irq_pending(&mut self) -> (p: bool)
        ensures
            p == old(self).irq_pending,
            *final(self) == (Mapper4 { irq_pending: false, ..*old(self) }),
    {
        let p = self.irq_pending;
        self.irq_pending = false;
        p
    }

    fn save_mapper(&self, buf: &mut Vec<u8>) {
        write_u8(buf, 4);
        write_u8(buf, self.bank_select);
        write_slice(buf, self.regs.as_slice());
        write_bool(buf, self.prg_ram_enable);
        write_bool(buf, self.prg_ram_protect);
        write_u8(buf, self.irq_latch);
        write_u8(buf, self.irq_counter);
        write_bool(buf, self.irq_enable);
        write_bool(buf, self.irq_reload);
        write_bool(buf, self.irq_pending);
        write_bytes(buf, self.prg_ram.as_slice());
        save_chr_ram(buf, self.chr_is_ram, &self.chr);
        assert(buf@ =~= old(buf)@ + self.state_bytes());
    }

    fn load_mapper(&mut self, data: &[u8], off: &mut usize)
        ensures
            ({
                let o = *old(off) as int;
                &&& final(self).bank_select == data@[o + 1]
                &&& final(self).regs@ == data@.subrange(o + 2, o + 10)
                &&& final(self).prg_ram_enable == (data@[o + 10] != 0)
                &&& final(self).prg_ram_protect == (data@[o + 11] != 0)
                &&& final(self).irq_latch == data@[o + 12]
                &&& final(self).irq_counter == data@[o + 13]
                &&& final(self).irq_enable == (data@[o + 14] != 0)
                &&& final(self).irq_reload == (data@[o + 15] != 0)
                &&& final(self).irq_pending == (data@[o + 16] != 0)
                &&& final(self).prg_ram@ == data@.subrange(o + 21, o + 21 + 8192)
                &&& final(self).chr@ == chr_after_load(data@, o + 21 + 8192, old(self).chr@)
                &&& *final(off) == o + 21 + 8192 + chr_ram_len(data@, o + 21 + 8192)
            }),
            final(self).prg_rom@ == old(self).prg_rom@,
            final(self).chr_is_ram == old(self).chr_is_ram,
            final(self).mirroring == old(self).mirroring,
    {
        let _tag = read_u8(data, off);
        self.bank_select = read_u8(data, off);
        self.regs = vstd::slice::slice_to_vec(read_slice(data, off, 8));
        self.prg_ram_enable = read_bool(data, off);
        self.prg_ram_protect = read_bool(data, off);
        self.irq_latch = read_u8(data, off);
        self.irq_counter = read_u8(data, off);
        self.irq_enable = read_bool(data, off);
        self.irq_reload = read_bool(data, off);
        self.irq_pending = read_bool(data, off);
        self.prg_ram = read_bytes(data, off);
        if let Some(chr) = load_chr_ram(data, off) {
            self.chr = chr;
        }
    }
}

// ---------------------------------------------------------------------------
// The cartridge in the slot
// ---------------------------------------------------------------------------

pub open spec fn mmc1_write_prg(m: Mapper1, p: Mapper1, addr: u16, val: u8) -> bool {
    &&& (p.prg_rom@ == m.prg_rom@)
    &&& (p.chr@ == m.chr@)
    &&& (p.chr_is_ram == m.chr_is_ram)
    &&& (p.base_mirroring == m.base_mirroring)
    &&& (addr < 0x8000 ==> p == m)
    &&& (addr >= 0x8000 && val >= 0x80 ==> {
                &&& p.shift == 0
                &&& p.shift_count == 0
                &&& p.control == m.control | 0x0C
                &&& p.chr_bank0 == m.chr_bank0
                &&& p.chr_bank1 == m.chr_bank1
                &&& p.prg_bank == m.prg_bank
            })
    &&& (addr >= 0x8000 && val < 0x80 ==> {
                let shift = (m.shift / 2 + (val % 2) * 16) as u8;
                if m.shift_count + 1 == 5 {
                    &&& p.shift == 0
                    &&& p.shift_count == 0
                    &&& p.control == (if addr <= 0x9FFF { shift } else { m.control })
                    &&& p.chr_bank0 == (if 0xA000 <= addr <= 0xBFFF { shift } else { m.chr_bank0 })
                    &&& p.chr_bank1 == (if 0xC000 <= addr <= 0xDFFF { shift } else { m.chr_bank1 })
                    &&& p.prg_bank == (if 0xE000 <= addr { shift } else { m.prg_bank })
                } else {
                    &&& p.shift == shift
                    &&& p.shift_count == m.shift_count + 1
                    &&& p.control == m.control
                    &&& p.chr_bank0 == m.chr_bank0
                    &&& p.chr_bank1 == m.chr_bank1
                    &&& p.prg_bank == m.prg_bank
                }
            })
}

pub open spec fn mmc3_write_prg(m: Mapper4, p: Mapper4, addr: u16, val: u8) -> bool {
    &&& (p.prg_rom@ == m.prg_rom@)
    &&& (p.chr@ == m.chr@)
    &&& (p.chr_is_ram == m.chr_is_ram)
    &&& (0x6000 <= addr <= 0x7FFF ==> p.prg_ram@ == (if m.prg_ram_enable
                && !m.prg_ram_protect {
                m.prg_ram@.update(addr - 0x6000, val)
            } else {
                m.prg_ram@
            }))
    &&& (!(0x6000 <= addr <= 0x7FFF) ==> p.prg_ram@ == m.prg_ram@)
    &&& (p.bank_select == (if 0x8000 <= addr <= 0x9FFF && addr % 2 == 0 {
                val
            } else {
                m.bank_select
            }))
    &&& (p.regs@ == (if 0x8000 <= addr <= 0x9FFF && addr % 2 == 1 {
                m.regs@.update((m.bank_select % 8) as int, val)
            } else {
                m.regs@
            }))
    &&& (p.mirroring == (if 0xA000 <= addr <= 0xBFFF && addr % 2 == 0 {
                if val % 2 == 0 { Mirroring::Vertical } else { Mirroring::Horizontal }
            } else {
                m.mirroring
            }))
    &&& (0xA000 <= addr <= 0xBFFF && addr % 2 == 1 ==> p.prg_ram_enable == (val >= 0x80)
                && p.prg_ram_protect == ((val / 64) % 2 == 1))
    &&& (!(0xA000 <= addr <= 0xBFFF && addr % 2 == 1) ==> p.prg_ram_enable
                == m.prg_ram_enable && p.prg_ram_protect == m.prg_ram_protect)
    &&& (p.irq_latch == (if 0xC000 <= addr <= 0xDFFF && addr % 2 == 0 {
                val
            } else {
                m.irq_latch
            }))
    &&& (0xC000 <= addr <= 0xDFFF && addr % 2 == 1 ==> p.irq_counter == 0 && p.irq_reload)
    &&& (!(0xC000 <= addr <= 0xDFFF && addr % 2 == 1) ==> p.irq_counter
                == m.irq_counter && p.irq_reload == m.irq_reload)
    &&& (p.irq_enable == (if 0xE000 <= addr { addr % 2 == 1 } else { m.irq_enable }))
    &&& (p.irq_pending == (if 0xE000 <= addr && addr % 2 == 0 {
                false
            } else {
                m.irq_pending
            }))
}

/// NROM CHR write: CHR RAM takes the byte (the address wraps to its size); nothing else changes.
pub open spec fn nrom_write_chr(m: Mapper0, p: Mapper0, addr: u16, val: u8) -> bool {
    &&& p.chr@ == (if m.chr_is_ram {
        m.chr@.update((addr as int) % (m.chr@.len() as int), val)
    } else {
        m.chr@
    })
    &&& p.prg_rom@ == m.prg_rom@ && p.chr_is_ram == m.chr_is_ram && p.mirroring == m.mirroring
}

/// MMC1 CHR write: CHR RAM takes the byte (the address wraps to its size); the registers stay.
pub open spec fn mmc1_write_chr(m: Mapper1, p: Mapper1, addr: u16, val: u8) -> bool {
    &&& p.chr@ == (if m.chr_is_ram {
        m.chr@.update((addr as int) % (m.chr@.len() as int), val)
    } else {
        m.chr@
    })
    &&& p.prg_rom@ == m.prg_rom@ && p.chr_is_ram == m.chr_is_ram && p.base_mirroring == m.base_mirroring
    &&& p.shift == m.shift && p.shift_count == m.shift_count && p.control == m.control
    &&& p.chr_bank0 == m.chr_bank0 && p.chr_bank1 == m.chr_bank1 && p.prg_bank == m.prg_bank
}

/// UxROM PRG write: at $8000-$FFFF the value, modulo the bank count, selects the bank.
pub open spec fn uxrom_write_prg(m: Mapper2, p: Mapper2, addr: u16, val: u8) -> bool {
    &&& p.prg_bank == (if addr >= 0x8000 {
        (val as int % ((m.prg_rom@.len() / 16384) as int)) as u32
    } else {
        m.prg_bank
    })
    &&& p.prg_rom@ == m.prg_rom@ && p.chr@ == m.chr@ && p.chr_is_ram == m.chr_is_ram
    &&& p.mirroring == m.mirroring
}

/// UxROM CHR write: CHR RAM takes the byte when the address is inside it.
pub open spec fn uxrom_write_chr(m: Mapper2, p: Mapper2, addr: u16, val: u8) -> bool {
    &&& p.chr@ == (if m.chr_is_ram && (addr as int) < m.chr@.len() {
        m.chr@.update(addr as int, val)
    } else {
        m.chr@
    })
    &&& p.prg_rom@ == m.prg_rom@ && p.chr_is_ram == m.chr_is_ram && p.mirroring == m.mirroring
    &&& p.prg_bank == m.prg_bank
}

/// CNROM PRG write: at $8000-$FFFF the value, modulo the CHR bank count, selects the CHR bank.
pub open spec fn cnrom_write_prg(m: Mapper3, p: Mapper3, addr: u16, val: u8) -> bool {
    &&& p.chr_bank == (if addr >= 0x8000 {
        let n = (m.chr@.len() / 8192) as int;
        (val as int % (if n == 0 { 1int } else { n })) as u32
    } else {
        m.chr_bank
    })
    &&& p.prg_rom@ == m.prg_rom@ && p.chr@ == m.chr@ && p.chr_is_ram == m.chr_is_ram
    &&& p.mirroring == m.mirroring
}

/// CNROM CHR write: CHR RAM takes the byte at the offset in the selected bank, when inside it.
pub open spec fn cnrom_write_chr(m: Mapper3, p: Mapper3, addr: u16, val: u8) -> bool {
    let o = m.chr_bank * 8192 + addr;
    &&& p.chr@ == (if m.chr_is_ram && o < m.chr@.len() {
        m.chr@.update(o, val)
    } else {
        m.chr@
    })
    &&& p.prg_rom@ == m.prg_rom@ && p.chr_is_ram == m.chr_is_ram && p.mirroring == m.mirroring
    &&& p.chr_bank == m.chr_bank
}

/// MMC3 CHR write: CHR RAM takes the byte at the banked offset, when inside it; the registers stay.
pub open spec fn mmc3_write_chr(m: Mapper4, p: Mapper4, addr: u16, val: u8) -> bool {
    let o = mmc3_chr_offset(m.bank_select, m.regs@, m.chr@.len() as int, addr as int);
    &&& p.chr@ == (if m.chr_is_ram && o < m.chr@.len() {
        m.chr@.update(o, val)
    } else {
        m.chr@
    })
    &&& p.prg_rom@ == m.prg_rom@ && p.chr_is_ram == m.chr_is_ram && p.prg_ram@ == m.prg_ram@
    &&& p.mirroring == m.mirroring && p.bank_select == m.bank_select && p.regs@ == m.regs@
    &&& p.prg_ram_enable == m.prg_ram_enable && p.prg_ram_protect == m.prg_ram_protect
    &&& p.irq_latch == m.irq_latch && p.irq_counter == m.irq_counter && p.irq_enable == m.irq_enable
    &&& p.irq_reload == m.irq_reload && p.irq_pending == m.irq_pending
}

/// The MMC3 scanline counter: reloads from the latch when zero or asked to, else counts down;
/// reaching zero with interrupts enabled raises one.
pub open spec fn mmc3_notify(m: Mapper4, p: Mapper4) -> bool {
    let reload = m.irq_counter == 0 || m.irq_reload;
    let counter = if reload { m.irq_latch } else { (m.irq_counter - 1) as u8 };
    &&& p.irq_counter == counter
    &&& p.irq_reload == (!reload && m.irq_reload)
    &&& p.irq_pending == (m.irq_pending || (counter == 0 && m.irq_enable))
    &&& p.prg_rom@ == m.prg_rom@ && p.chr@ == m.chr@ && p.prg_ram@ == m.prg_ram@ && p.regs@ == m.regs@
    &&& p.bank_select == m.bank_select && p.mirroring == m.mirroring && p.irq_enable == m.irq_enable
    &&& p.irq_latch == m.irq_latch && p.prg_ram_enable == m.prg_ram_enable
    &&& p.prg_ram_protect == m.prg_ram_protect && p.chr_is_ram == m.chr_is_ram
}

/// A cartridge `b` after a CPU write of `val` at `addr` to cartridge `a`.
pub open spec fn cart_write_prg(a: Cartridge, b: Cartridge, addr: u16, val: u8) -> bool {
    match (a, b) {
        (Cartridge::Nrom(m), Cartridge::Nrom(p)) => p == m,
        (Cartridge::Mmc1(m), Cartridge::Mmc1(p)) => mmc1_write_prg(m, p, addr, val),
        (Cartridge::Uxrom(m), Cartridge::Uxrom(p)) => uxrom_write_prg(m, p, addr, val),
        (Cartridge::Cnrom(m), Cartridge::Cnrom(p)) => cnrom_write_prg(m, p, addr, val),
        (Cartridge::Mmc3(m), Cartridge::Mmc3(p)) => mmc3_write_prg(m, p, addr, val),
        _ => false,
    }
}

/// A cartridge `b` after a PPU pattern write of `val` at `addr` to cartridge `a`.
pub open spec fn cart_write_chr(a: Cartridge, b: Cartridge, addr: u16, val: u8) -> bool {
    match (a, b) {
        (Cartridge::Nrom(m), Cartridge::Nrom(p)) => nrom_write_chr(m, p, addr, val),
        (Cartridge::Mmc1(m), Cartridge::Mmc1(p)) => mmc1_write_chr(m, p, addr, val),
        (Cartridge::Uxrom(m), Cartridge::Uxrom(p)) => uxrom_write_chr(m, p, addr, val),
        (Cartridge::Cnrom(m), Cartridge::Cnrom(p)) => cnrom_write_chr(m, p, addr, val),
        (Cartridge::Mmc3(m), Cartridge::Mmc3(p)) => mmc3_write_chr(m, p, addr, val),
        _ => false,
    }
}

/// A cartridge `b` after a scanline notice to `a`: only MMC3 counts scanlines.
pub open spec fn cart_notify_scanline(a: Cartridge, b: Cartridge) -> bool {
    match (a, b) {
        (Cartridge::Mmc3(m), Cartridge::Mmc3(p)) => mmc3_notify(m, p),
        (Cartridge::Mmc3(_), _) => false,
        _ => b == a,
    }
}

/// Whether the cartridge has an interrupt pending (only MMC3 raises them).
pub open spec fn cart_irq_flag(c: Cartridge) -> bool {
    match c {
        Cartridge::Mmc3(m) => m.irq_pending,
        _ => false,
    }
}

/// The cartridge once its pending interrupt has been acknowledged.
pub open spec fn cart_irq_acknowledged(c: Cartridge) -> Cartridge {
    match c {
        Cartridge::Mmc3(m) => Cartridge::Mmc3(Mapper4 { irq_pending: false, ..m }),
        _ => c,
    }
}


/// A cartridge with one of the supported mappers.
pub enum Cartridge {
    Nrom(Mapper0),
    Mmc1(Mapper1),
    Uxrom(Mapper2),
    Cnrom(Mapper3),
    Mmc3(Mapper4),
}

impl Cartridge {
    /// The iNES mapper number.
    pub open spec fn kind(&self) -> int {
        match self {
            Cartridge::Nrom(_) => 0,
            Cartridge::Mmc1(_) => 1,
            Cartridge::Uxrom(_) => 2,
            Cartridge::Cnrom(_) => 3,
            Cartridge::Mmc3(_) => 4,
        }
    }

    pub open spec fn prg_rom(&self) -> Seq<u8> {
        match self {
            Cartridge::Nrom(m) => m.prg_rom@,
            Cartridge::Mmc1(m) => m.prg_rom@,
            Cartridge::Uxrom(m) => m.prg_rom@,
            Cartridge::Cnrom(m) => m.prg_rom@,
            Cartridge::Mmc3(m) => m.prg_rom@,
        }
    }

    pub open spec fn chr(&self) -> Seq<u8> {
        match self {
            Cartridge::Nrom(m) => m.chr@,
            Cartridge::Mmc1(m) => m.chr@,
            Cartridge::Uxrom(m) => m.chr@,
            Cartridge::Cnrom(m) => m.chr@,
            Cartridge::Mmc3(m) => m.chr@,
        }
    }

    pub open spec fn chr_is_ram(&self) -> bool {
        match self {
            Cartridge::Nrom(m) => m.chr_is_ram,
            Cartridge::Mmc1(m) => m.chr_is_ram,
            Cartridge::Uxrom(m) => m.chr_is_ram,
            Cartridge::Cnrom(m) => m.chr_is_ram,
            Cartridge::Mmc3(m) => m.chr_is_ram,
        }
    }

    /// The arrangement given at construction.
    pub open spec fn initial_mirroring(&self) -> Mirroring {
        match self {
            Cartridge::Nrom(m) => m.mirroring,
            Cartridge::Mmc1(m) => m.base_mirroring,
            Cartridge::Uxrom(m) => m.mirroring,
            Cartridge::Cnrom(m) => m.mirroring,
            Cartridge::Mmc3(m) => m.mirroring,
        }
    }
}

impl Mapper for Cartridge {
    open spec fn wf(&self) -> bool {
        match self {
            Cartridge::Nrom(m) => m.wf(),
            Cartridge::Mmc1(m) => m.wf(),
            Cartridge::Uxrom(m) => m.wf(),
            Cartridge::Cnrom(m) => m.wf(),
            Cartridge::Mmc3(m) => m.wf(),
        }
    }

    open spec fn chr_wf(&self) -> bool {
        match self {
            Cartridge::Nrom(m) => m.chr_wf(),
            Cartridge::Mmc1(m) => m.chr_wf(),
            Cartridge::Uxrom(m) => m.chr_wf(),
            Cartridge::Cnrom(m) => m.chr_wf(),
            Cartridge::Mmc3(m) => m.chr_wf(),
        }
    }

    open spec fn prg_wf(&self) -> bool {
        match self {
            Cartridge::Nrom(m) => m.prg_wf(),
            Cartridge::Mmc1(m) => m.prg_wf(),
            Cartridge::Uxrom(m) => m.prg_wf(),
            Cartridge::Cnrom(m) => m.prg_wf(),
            Cartridge::Mmc3(m) => m.prg_wf(),
        }
    }

    open spec fn prg_at(&self, addr: u16) -> u8 {
        match self {
            Cartridge::Nrom(m) => m.prg_at(addr),
            Cartridge::Mmc1(m) => m.prg_at(addr),
            Cartridge::Uxrom(m) => m.prg_at(addr),
            Cartridge::Cnrom(m) => m.prg_at(addr),
            Cartridge::Mmc3(m) => m.prg_at(addr),
        }
    }

    open spec fn chr_at(&self, addr: u16) -> u8 {
        match self {
            Cartridge::Nrom(m) => m.chr_at(addr),
            Cartridge::Mmc1(m) => m.chr_at(addr),
            Cartridge::Uxrom(m) => m.chr_at(addr),
            Cartridge::Cnrom(m) => m.chr_at(addr),
            Cartridge::Mmc3(m) => m.chr_at(addr),
        }
    }

    open spec fn mirroring_spec(&self) -> Mirroring {
        match self {
            Cartridge::Nrom(m) => m.mirroring_spec(),
            Cartridge::Mmc1(m) => m.mirroring_spec(),
            Cartridge::Uxrom(m) => m.mirroring_spec(),
            Cartridge::Cnrom(m) => m.mirroring_spec(),
            Cartridge::Mmc3(m) => m.mirroring_spec(),
        }
    }

    open spec fn state_bytes(&self) -> Seq<u8> {
        match self {
            Cartridge::Nrom(m) => m.state_bytes(),
            Cartridge::Mmc1(m) => m.state_bytes(),
            Cartridge::Uxrom(m) => m.state_bytes(),
            Cartridge::Cnrom(m) => m.state_bytes(),
            Cartridge::Mmc3(m) => m.state_bytes(),
        }
    }

    open spec fn state_fits(&self, data: Seq<u8>, o: int) -> bool {
        match self {
            Cartridge::Nrom(m) => m.state_fits(data, o),
            Cartridge::Mmc1(m) => m.state_fits(data, o),
            Cartridge::Uxrom(m) => m.state_fits(data, o),
            Cartridge::Cnrom(m) => m.state_fits(data, o),
            Cartridge::Mmc3(m) => m.state_fits(data, o),
        }
    }

    fn read_prg(&self, addr: u16) -> (v: u8) {
        match self {
            Cartridge::Nrom(m) => m.read_prg(addr),
            Cartridge::Mmc1(m) => m.read_prg(addr),
            Cartridge::Uxrom(m) => m.read_prg(addr),
            Cartridge::Cnrom(m) => m.read_prg(addr),
            Cartridge::Mmc3(m) => m.read_prg(addr),
        }
    }

    fn write_prg(&mut self, addr: u16, val: u8)
        ensures
            final(self).kind() == old(self).kind(),
            cart_write_prg(*old(self), *final(self), addr, val),
    {
        match self {
            Cartridge::Nrom(m) => m.write_prg(addr, val),
            Cartridge::Mmc1(m) => m.write_prg(addr, val),
            Cartridge::Uxrom(m) => m.write_prg(addr, val),
            Cartridge::Cnrom(m) => m.write_prg(addr, val),
            Cartridge::Mmc3(m) => m.write_prg(addr, val),
        }
    }

    fn read_chr(&self, addr: u16) -> (v: u8) {
        match self {
            Cartridge::Nrom(m) => m.read_chr(addr),
            Cartridge::Mmc1(m) => m.read_chr(addr),
            Cartridge::Uxrom(m) => m.read_chr(addr),
            Cartridge::Cnrom(m) => m.read_chr(addr),
            Cartridge::Mmc3(m) => m.read_chr(addr),
        }
    }

    fn write_chr(&mut self, addr: u16, val: u8)
        ensures
            final(self).kind() == old(self).kind(),
            cart_write_chr(*old(self), *final(self), addr, val),
    {
        match self {
            Cartridge::Nrom(m) => m.write_chr(addr, val),
            Cartridge::Mmc1(m) => m.write_chr(addr, val),
            Cartridge::Uxrom(m) => m.write_chr(addr, val),
            Cartridge::Cnrom(m) => m.write_chr(addr, val),
            Cartridge::Mmc3(m) => m.write_chr(addr, val),
        }
    }

    fn mirroring(&self) -> (m: Mirroring) {
        match self {
            Cartridge::Nrom(m) => m.mirroring(),
            Cartridge::Mmc1(m) => m.mirroring(),
            Cartridge::Uxrom(m) => m.mirroring(),
            Cartridge::Cnrom(m) => m.mirroring(),
            Cartridge::Mmc3(m) => m.mirroring(),
        }
    }

    fn notify_scanline(&mut self)
        ensures
            final(self).kind() == old(self).kind(),
            cart_notify_scanline(*old(self), *final(self)),
    {
        match self {
            Cartridge::Nrom(m) => m.notify_scanline(),
            Cartridge::Mmc1(m) => m.notify_scanline(),
            Cartridge::Uxrom(m) => m.notify_scanline(),
            Cartridge::Cnrom(m) => m.notify_scanline(),
            Cartridge::Mmc3(m) => m.notify_scanline(),
        }
    }

    fn irq_pending(&mut self) -> (p: bool)
        ensures
            final(self).kind() == old(self).kind(),
            p == cart_irq_flag(*old(self)),
            *final(self) == cart_irq_acknowledged(*old(self)),
    {
        match self {
            Cartridge::Nrom(m) => m.irq_pending(),
            Cartridge::Mmc1(m) => m.irq_pending(),
            Cartridge::Uxrom(m) => m.irq_pending(),
            Cartridge::Cnrom(m) => m.irq_pending(),
            Cartridge::Mmc3(m) => m.irq_pending(),
        }
    }

    fn save_mapper(&self, buf: &mut Vec<u8>) {
        match self {
            Cartridge::Nrom(m) => m.save_mapper(buf),
            Cartridge::Mmc1(m) => m.save_mapper(buf),
            Cartridge::Uxrom(m) => m.save_mapper(buf),
            Cartridge::Cnrom(m) => m.save_mapper(buf),
            Cartridge::Mmc3(m) => m.save_mapper(buf),
        }
    }

    fn load_mapper(&mut self, data: &[u8], off: &mut usize)
        ensures
            final(self).kind() == old(self).kind(),
            old(self).wf() && cart_load_ok(*old(self), data@, *old(off) as int) ==> final(self).wf(),
            cart_loaded(*final(self), *old(self), data@, *old(off) as int),
    {
        match self {
            Cartridge::Nrom(m) => m.load_mapper(data, off),
            Cartridge::Mmc1(m) => m.load_mapper(data, off),
            Cartridge::Uxrom(m) => m.load_mapper(data, off),
            Cartridge::Cnrom(m) => m.load_mapper(data, off),
            Cartridge::Mmc3(m) => m.load_mapper(data, off),
        }
    }
}

/// Whether `data` holds a saved CHR RAM section at `o`.
fn chr_ram_fits_at(data: &[u8], o: usize) -> (b: bool)
    ensures
        b == chr_ram_fits(data@, o as int),
{
    let n = data.len();
    if o >= n {
        return false;
    }
    if data[o] == 0 {
        return true;
    }
    if n - o < 5 {
        return false;
    }
    let mut t = o + 1;
    let len = read_u32(data, &mut t) as u64;
    ((n - o - 5) as u64) >= len
}

impl Cartridge {
    /// Whether `data` holds, at `o`, a complete saved state for this cartridge.
    pub fn state_fits_at(&self, data: &[u8], o: usize) -> (b: bool)
        ensures
            b == self.state_fits(data@, o as int),
    {
        let n = data.len();
        match self {
            Cartridge::Nrom(_) => o < usize::MAX && chr_ram_fits_at(data, o + 1),
            Cartridge::Mmc1(_) => o < usize::MAX - 7 && chr_ram_fits_at(data, o + 7),
            Cartridge::Uxrom(_) | Cartridge::Cnrom(_) => o <= n && n - o >= 5 && chr_ram_fits_at(data, o + 5),
            Cartridge::Mmc3(_) => {
                if o > n || n - o < 21 {
                    return false;
                }
                let mut t = o + 17;
                let len = read_u32(data, &mut t);
                if len != 8192 {
                    return false;
                }
                if n - o - 21 < 8192 {
                    return false;
                }
                chr_ram_fits_at(data, o + 21 + 8192)
            },
        }
    }

    /// Whether the cartridge satisfies `wf` (checked after restoring a saved state).
    pub fn is_valid(&self) -> (b: bool)
        ensures
            b == self.wf(),
    {
        match self {
            Cartridge::Nrom(m) => m.prg_rom.len() > 0 && m.chr.len() > 0 && m.chr.len() as u64 <= 0xFFFF_FFFF,
            Cartridge::Mmc1(m) => m.prg_rom.len() >= 16384 && m.chr.len() as u64 <= 0xFFFF_FFFF && !(4096
                <= m.chr.len() && m.chr.len() < 8192) && m.chr.len() > 0 && m.shift_count < 5,
            Cartridge::Uxrom(m) => m.prg_rom.len() >= 16384 && m.chr.len() as u64 <= 0xFFFF_FFFF,
            Cartridge::Cnrom(m) => m.prg_rom.len() > 0 && m.chr.len() as u64 <= 0xFFFF_FFFF,
            Cartridge::Mmc3(m) => m.prg_rom.len() >= 16384 && m.chr.len() as u64 <= 0xFFFF_FFFF
                && m.prg_ram.len() == 8192 && m.regs.len() == 8,
        }
    }
}

/// Whether loading the cartridge state at `o` keeps the cartridge well formed: CHR memory
/// stays non-empty (and, for MMC1, not between 4 and 8 KiB) and the MMC1 shift count stays
/// below 5.
pub open spec fn cart_load_ok(c: Cartridge, data: Seq<u8>, o: int) -> bool {
    match c {
        Cartridge::Nrom(m) => chr_after_load(data, o + 1, m.chr@).len() > 0,
        Cartridge::Mmc1(m) => {
            let n = chr_after_load(data, o + 7, m.chr@).len();
            data[o + 2] < 5 && n > 0 && !(4096 <= n < 8192)
        },
        _ => true,
    }
}

impl Cartridge {
    /// Computes `cart_load_ok` for a state that fits.
    pub fn load_ok_at(&self, data: &[u8], o: usize) -> (b: bool)
        requires
            self.state_fits(data@, o as int),
        ensures
            b == cart_load_ok(*self, data@, o as int),
    {
        let len = data.len();
        match self {
            Cartridge::Nrom(m) => {
                if data[o + 1] != 0 {
                    let mut t = o + 2;
                    read_u32(data, &mut t) > 0
                } else {
                    m.chr.len() > 0
                }
            },
            Cartridge::Mmc1(m) => {
                let n: u64 = if data[o + 7] != 0 {
                    let mut t = o + 8;
                    read_u32(data, &mut t) as u64
                } else {
                    m.chr.len() as u64
                };
                data[o + 2] < 5 && n > 0 && !(4096 <= n && n < 8192)
            },
            _ => true,
        }
    }
}

// ---------------------------------------------------------------------------
// Reading back a saved cartridge
// ---------------------------------------------------------------------------

/// The cartridge `c` that `load_mapper` makes of `prev` from the saved state at `o`: the ROM,
/// the CHR kind and the mirroring are kept, the banking registers, PRG RAM and CHR RAM are read.
pub open spec fn cart_loaded(c: Cartridge, prev: Cartridge, d: Seq<u8>, o: int) -> bool {
    match (c, prev) {
        (Cartridge::Nrom(m), Cartridge::Nrom(p)) => {
            &&& m.prg_rom@ == p.prg_rom@ && m.chr_is_ram == p.chr_is_ram && m.mirroring == p.mirroring
            &&& m.chr@ == chr_after_load(d, o + 1, p.chr@)
        },
        (Cartridge::Mmc1(m), Cartridge::Mmc1(p)) => {
            &&& m.prg_rom@ == p.prg_rom@ && m.chr_is_ram == p.chr_is_ram && m.base_mirroring == p.base_mirroring
            &&& m.shift == d[o + 1] && m.shift_count == d[o + 2] && m.control == d[o + 3]
            &&& m.chr_bank0 == d[o + 4] && m.chr_bank1 == d[o + 5] && m.prg_bank == d[o + 6]
            &&& m.chr@ == chr_after_load(d, o + 7, p.chr@)
        },
        (Cartridge::Uxrom(m), Cartridge::Uxrom(p)) => {
            &&& m.prg_rom@ == p.prg_rom@ && m.chr_is_ram == p.chr_is_ram && m.mirroring == p.mirroring
            &&& m.prg_bank == dec32(d, o + 1)
            &&& m.chr@ == chr_after_load(d, o + 5, p.chr@)
        },
        (Cartridge::Cnrom(m), Cartridge::Cnrom(p)) => {
            &&& m.prg_rom@ == p.prg_rom@ && m.chr_is_ram == p.chr_is_ram && m.mirroring == p.mirroring
            &&& m.chr_bank == dec32(d, o + 1)
            &&& m.chr@ == chr_after_load(d, o + 5, p.chr@)
        },
        (Cartridge::Mmc3(m), Cartridge::Mmc3(p)) => {
            &&& m.prg_rom@ == p.prg_rom@ && m.chr_is_ram == p.chr_is_ram && m.mirroring == p.mirroring
            &&& m.bank_select == d[o + 1] && m.regs@ == d.subrange(o + 2, o + 10)
            &&& m.prg_ram_enable == (d[o + 10] != 0) && m.prg_ram_protect == (d[o + 11] != 0)
            &&& m.irq_latch == d[o + 12] && m.irq_counter == d[o + 13]
            &&& m.irq_enable == (d[o + 14] != 0) && m.irq_reload == (d[o + 15] != 0)
            &&& m.irq_pending == (d[o + 16] != 0)
            &&& m.prg_ram@ == d.subrange(o + 21, o + 21 + 8192)
            &&& m.chr@ == chr_after_load(d, o + 21 + 8192, p.chr@)
        },
        _ => false,
    }
}

/// Two cartridges of the same kind with the same ROM, CHR kind and mirroring (and the same
/// CHR when it is ROM): what a save state does not hold.
pub open spec fn same_rom(a: Cartridge, b: Cartridge) -> bool {
    &&& a.kind() == b.kind()
    &&& a.prg_rom() == b.prg_rom()
    &&& a.chr_is_ram() == b.chr_is_ram()
    &&& a.initial_mirroring() == b.initial_mirroring()
    &&& !a.chr_is_ram() ==> a.chr() == b.chr()
}

/// Two cartridges in the same state: same kind, ROM, CHR and registers.
pub open spec fn same_cart(a: Cartridge, b: Cartridge) -> bool {
    match (a, b) {
        (Cartridge::Nrom(m), Cartridge::Nrom(p)) => {
            &&& m.prg_rom@ == p.prg_rom@ && m.chr@ == p.chr@ && m.chr_is_ram == p.chr_is_ram
            &&& m.mirroring == p.mirroring
        },
        (Cartridge::Mmc1(m), Cartridge::Mmc1(p)) => {
            &&& m.prg_rom@ == p.prg_rom@ && m.chr@ == p.chr@ && m.chr_is_ram == p.chr_is_ram
            &&& m.base_mirroring == p.base_mirroring && m.shift == p.shift && m.shift_count == p.shift_count
            &&& m.control == p.control && m.chr_bank0 == p.chr_bank0 && m.chr_bank1 == p.chr_bank1
            &&& m.prg_bank == p.prg_bank
        },
        (Cartridge::Uxrom(m), Cartridge::Uxrom(p)) => {
            &&& m.prg_rom@ == p.prg_rom@ && m.chr@ == p.chr@ && m.chr_is_ram == p.chr_is_ram
            &&& m.mirroring == p.mirroring && m.prg_bank == p.prg_bank
        },
        (Cartridge::Cnrom(m), Cartridge::Cnrom(p)) => {
            &&& m.prg_rom@ == p.prg_rom@ && m.chr@ == p.chr@ && m.chr_is_ram == p.chr_is_ram
            &&& m.mirroring == p.mirroring && m.chr_bank == p.chr_bank
        },
        (Cartridge::Mmc3(m), Cartridge::Mmc3(p)) => {
            &&& m.prg_rom@ == p.prg_rom@ && m.chr@ == p.chr@ && m.chr_is_ram == p.chr_is_ram
            &&& m.prg_ram@ == p.prg_ram@ && m.mirroring == p.mirroring && m.bank_select == p.bank_select
            &&& m.regs@ == p.regs@ && m.prg_ram_enable == p.prg_ram_enable
            &&& m.prg_ram_protect == p.prg_ram_protect && m.irq_latch == p.irq_latch
            &&& m.irq_counter == p.irq_counter && m.irq_enable == p.irq_enable
            &&& m.irq_reload == p.irq_reload && m.irq_pending == p.irq_pending
        },
        _ => false,
    }
}

/// The CHR RAM section read back gives the CHR that was saved.
proof fn lemma_chr_ram_roundtrip(is_ram: bool, chr: Seq<u8>, prev: Seq<u8>, d: Seq<u8>, q: int)
    requires
        chr.len() <= u32::MAX,
        0 <= q,
        q + chr_ram_bytes(is_ram, chr).len() <= d.len(),
        d.subrange(q, q + chr_ram_bytes(is_ram, chr).len()) == chr_ram_bytes(is_ram, chr),
        !is_ram ==> prev == chr,
    ensures
        chr_ram_fits(d, q),
        chr_after_load(d, q, prev) == chr,
{
    let t = chr_ram_bytes(is_ram, chr);
    let n = t.len() as int;
    assert(d[q] == t[0]) by {
        assert(d.subrange(q, q + n)[0] == d[q]);
    }
    if is_ram {
        let l = le32(chr.len() as u32);
        assert(l.len() == 4);
        assert(n == 5 + chr.len());
        assert(t.subrange(1, 5) =~= l);
        assert(t.subrange(5, n) =~= chr);
        crate::save_state::lemma_subrange_within(d, q, n, 1, 5);
        crate::save_state::lemma_subrange_within(d, q, n, 5, n);
        crate::save_state::lemma_le32_roundtrip(chr.len() as u32, d, q + 1);
    }
}

/// A cartridge read back from its own saved state, over a cartridge with the same ROM, is in
/// the same state; the bytes fit and are accepted.
pub proof fn lemma_cart_roundtrip(a: Cartridge, g: Cartridge, f: Cartridge, d: Seq<u8>, o: int)
    requires
        a.wf(),
        same_rom(g, a),
        0 <= o,
        o + a.state_bytes().len() <= d.len(),
        d.subrange(o, o + a.state_bytes().len()) == a.state_bytes(),
        cart_loaded(f, g, d, o),
    ensures
        g.state_fits(d, o),
        cart_load_ok(g, d, o),
        same_cart(f, a),
{
    let t = a.state_bytes();
    let n = t.len() as int;
    let w = d.subrange(o, o + n);
    match (a, g) {
        (Cartridge::Nrom(m), Cartridge::Nrom(p)) => {
            let c = chr_ram_bytes(m.chr_is_ram, m.chr@);
            assert(t.subrange(1, n) =~= c);
            crate::save_state::lemma_subrange_within(d, o, n, 1, n);
            lemma_chr_ram_roundtrip(m.chr_is_ram, m.chr@, p.chr@, d, o + 1);
        },
        (Cartridge::Mmc1(m), Cartridge::Mmc1(p)) => {
            let c = chr_ram_bytes(m.chr_is_ram, m.chr@);
            assert(t.subrange(7, n) =~= c);
            crate::save_state::lemma_subrange_within(d, o, n, 7, n);
            lemma_chr_ram_roundtrip(m.chr_is_ram, m.chr@, p.chr@, d, o + 7);
            assert(w[1] == d[o + 1] && w[2] == d[o + 2] && w[3] == d[o + 3] && w[4] == d[o + 4]);
            assert(w[5] == d[o + 5] && w[6] == d[o + 6]);
        },
        (Cartridge::Uxrom(m), Cartridge::Uxrom(p)) => {
            let c = chr_ram_bytes(m.chr_is_ram, m.chr@);
            let l = le32(m.prg_bank);
            assert(l.len() == 4);
            assert(t.subrange(1, 5) =~= l);
            assert(t.subrange(5, n) =~= c);
            crate::save_state::lemma_subrange_within(d, o, n, 1, 5);
            crate::save_state::lemma_subrange_within(d, o, n, 5, n);
            crate::save_state::lemma_le32_roundtrip(m.prg_bank, d, o + 1);
            lemma_chr_ram_roundtrip(m.chr_is_ram, m.chr@, p.chr@, d, o + 5);
        },
        (Cartridge::Cnrom(m), Cartridge::Cnrom(p)) => {
            let c = chr_ram_bytes(m.chr_is_ram, m.chr@);
            let l = le32(m.chr_bank);
            assert(l.len() == 4);
            assert(t.subrange(1, 5) =~= l);
            assert(t.subrange(5, n) =~= c);
            crate::save_state::lemma_subrange_within(d, o, n, 1, 5);
            crate::save_state::lemma_subrange_within(d, o, n, 5, n);
            crate::save_state::lemma_le32_roundtrip(m.chr_bank, d, o + 1);
            lemma_chr_ram_roundtrip(m.chr_is_ram, m.chr@, p.chr@, d, o + 5);
        },
        (Cartridge::Mmc3(m), Cartridge::Mmc3(p)) => {
            lemma_mmc3_roundtrip(m, p, d, o);
        },
        _ => {},
    }
}

/// The MMC3 part of `lemma_cart_roundtrip`.
proof fn lemma_mmc3_roundtrip(m: Mapper4, p: Mapper4, d: Seq<u8>, o: int)
    requires
        m.wf(),
        p.chr_is_ram == m.chr_is_ram,
        !m.chr_is_ram ==> p.chr@ == m.chr@,
        0 <= o,
        o + mmc3_state_bytes(m).len() <= d.len(),
        d.subrange(o, o + mmc3_state_bytes(m).len()) == mmc3_state_bytes(m),
    ensures
        p.state_fits(d, o),
        d[o + 1] == m.bank_select && d.subrange(o + 2, o + 10) == m.regs@,
        (d[o + 10] != 0) == m.prg_ram_enable && (d[o + 11] != 0) == m.prg_ram_protect,
        d[o + 12] == m.irq_latch && d[o + 13] == m.irq_counter,
        (d[o + 14] != 0) == m.irq_enable && (d[o + 15] != 0) == m.irq_reload,
        (d[o + 16] != 0) == m.irq_pending,
        d.subrange(o + 21, o + 21 + 8192) == m.prg_ram@,
        chr_after_load(d, o + 21 + 8192, p.chr@) == m.chr@,
{
    let t = mmc3_state_bytes(m);
    let n = t.len() as int;
    let lp = len_prefixed(m.prg_ram@);
    let l = le32(8192u32);
    let c = chr_ram_bytes(m.chr_is_ram, m.chr@);
    assert(l.len() == 4);
    assert(lp.len() == 8196);
    let head = seq![4u8, m.bank_select] + m.regs@ + seq![bool_byte(m.prg_ram_enable), bool_byte(m.prg_ram_protect),
        m.irq_latch, m.irq_counter, bool_byte(m.irq_enable), bool_byte(m.irq_reload), bool_byte(m.irq_pending)];
    assert(head.len() == 17);
    assert(t =~= head + lp + c);
    assert(n == 17 + 8196 + c.len());
    assert(t.subrange(0, 17) =~= head);
    assert(t.subrange(17, 21) =~= l);
    assert(t.subrange(21, 8213int) =~= m.prg_ram@);
    assert(t.subrange(8213int, n) =~= c);
    crate::save_state::lemma_subrange_within(d, o, n, 0, 17);
    crate::save_state::lemma_subrange_within(d, o, n, 17, 21);
    crate::save_state::lemma_subrange_within(d, o, n, 21, 8213int);
    crate::save_state::lemma_subrange_within(d, o, n, 8213int, n);
    crate::save_state::lemma_le32_roundtrip(8192u32, d, o + 17);
    lemma_chr_ram_roundtrip(m.chr_is_ram, m.chr@, p.chr@, d, o + 21 + 8192);
    let h = d.subrange(o, o + 17);
    assert(h[1] == d[o + 1] && h[10] == d[o + 10] && h[11] == d[o + 11] && h[12] == d[o + 12]);
    assert(h[13] == d[o + 13] && h[14] == d[o + 14] && h[15] == d[o + 15] && h[16] == d[o + 16]);
    assert(head[1] == m.bank_select && head[10] == bool_byte(m.prg_ram_enable));
    assert(head[11] == bool_byte(m.prg_ram_protect) && head[12] == m.irq_latch && head[13] == m.irq_counter);
    assert(head[14] == bool_byte(m.irq_enable) && head[15] == bool_byte(m.irq_reload));
    assert(head[16] == bool_byte(m.irq_pending));
    assert(head.subrange(2, 10) =~= m.regs@);
    crate::save_state::lemma_subrange_within(d, o, 17, 2, 10);
}

} // verus!
