//! Reader for the cartridge container format: a fixed 10-byte header with a
//! 4-byte magic signature, then, in order, an optional 512-byte trainer
//! block, the 16 KiB program banks, the 8 KiB graphics banks and an optional
//! 8 KiB auxiliary block. Every block must be present in full, or loading
//! fails with a format error; nothing is populated on failure.

use vstd::prelude::*;

verus! {

/// Byte offsets and sizes of the container layout.
pub const HEADER_SIZE: usize = 10;

pub const TRAINER_SIZE: usize = 0x200;

pub const PRG_ROM_BANK_SIZE: usize = 0x4000;

pub const CHR_ROM_BANK_SIZE: usize = 0x2000;

pub const PLAY_CHOICE_10_SIZE: usize = 0x2000;

/// Bits of the first flag byte.
pub const FLAG6_MIRRORING: u8 = 0x01;

pub const FLAG6_PERSISTENT_MEMORY: u8 = 0x02;

pub const FLAG6_TRAINER: u8 = 0x04;

pub const FLAG6_IGNORE_MIRRORING: u8 = 0x08;

pub const FLAG6_MAPPER_LOWER: u8 = 0xF0;

/// Bits of the second flag byte.
pub const FLAG7_VS_UNISYSTEM: u8 = 0x01;

pub const FLAG7_PLAY_CHOICE_10: u8 = 0x02;

pub const FLAG7_NES2_FORMAT: u8 = 0x0C;

pub const FLAG7_MAPPER_UPPER: u8 = 0xF0;

/// A malformed container: bad magic signature or truncated input.
#[derive(Debug)]
pub struct FormatError(pub String);

/// The nametable mirroring arrangement a cartridge requests.
#[derive(Clone, Copy, PartialEq, Eq, Structural, Debug)]
pub enum Mirroring {
    Horizontal,
    Vertical,
}

/// The fixed 10-byte container header, field by field.
pub struct INESHeader {
    pub format: [u8; 4],
    pub prg_rom_banks: u8,
    pub chr_rom_banks: u8,
    pub flag6: u8,
    pub flag7: u8,
    pub prg_ram_banks: u8,
    pub flag9: u8,
}

/// Whether the first four bytes of `d` carry the required magic signature.
pub open spec fn spec_magic_ok(d: Seq<u8>) -> bool {
    &&& d.len() >= 4
    &&& d[0] == 0x4E
    &&& d[1] == 0x45
    &&& d[2] == 0x53
    &&& d[3] == 0x1A
}

impl INESHeader {
    /// Extracts the header fields from the first 10 bytes of `data`.
    pub fn from_bytes(data: &[u8]) -> (r: Result<INESHeader, FormatError>)
        ensures
            r is Ok <==> data@.len() >= HEADER_SIZE,
            r matches Ok(h) ==> {
                &&& h.format@ == data@.subrange(0, 4)
                &&& h.prg_rom_banks == data@[4]
                &&& h.chr_rom_banks == data@[5]
                &&& h.flag6 == data@[6]
                &&& h.flag7 == data@[7]
                &&& h.prg_ram_banks == data@[8]
                &&& h.flag9 == data@[9]
            },
    {
        if data.len() < HEADER_SIZE {
            return Err(FormatError("Truncated header".to_owned()));
        }
        let format = [data[0], data[1], data[2], data[3]];
        proof {
            assert(format@ =~= data@.subrange(0, 4));
        }
        Ok(
            INESHeader {
                format,
                prg_rom_banks: data[4],
                chr_rom_banks: data[5],
                flag6: data[6],
                flag7: data[7],
                prg_ram_banks: data[8],
                flag9: data[9],
            },
        )
    }

    pub fn has_trainer(&self) -> (r: bool)
        ensures
            r == (self.flag6 & FLAG6_TRAINER != 0),
    {
        self.flag6 & FLAG6_TRAINER > 0
    }

    pub fn has_play_choice_10(&self) -> (r: bool)
        ensures
            r == (self.flag7 & FLAG7_PLAY_CHOICE_10 != 0),
    {
        self.flag7 & FLAG7_PLAY_CHOICE_10 > 0
    }

    pub fn has_persistent_memory(&self) -> (r: bool)
        ensures
            r == (self.flag6 & FLAG6_PERSISTENT_MEMORY != 0),
    {
        self.flag6 & FLAG6_PERSISTENT_MEMORY > 0
    }

    pub fn has_vs_unisystem(&self) -> (r: bool)
        ensures
            r == (self.flag7 & FLAG7_VS_UNISYSTEM != 0),
    {
        self.flag7 & FLAG7_VS_UNISYSTEM > 0
    }

    pub fn is_nes2_format(&self) -> (r: bool)
        ensures
            r == (self.flag7 & FLAG7_NES2_FORMAT == 0x08),
    {
        self.flag7 & FLAG7_NES2_FORMAT == 0x08
    }

    pub fn get_mirroring(&self) -> (r: Mirroring)
        ensures
            r == (if self.flag6 & FLAG6_MIRRORING == 0 {
                Mirroring::Horizontal
            } else {
                Mirroring::Vertical
            }),
    {
        if self.flag6 & FLAG6_MIRRORING == 0 {
            Mirroring::Horizontal
        } else {
            Mirroring::Vertical
        }
    }

    pub fn get_ignore_mirroring(&self) -> (r: bool)
        ensures
            r == (self.flag6 & FLAG6_IGNORE_MIRRORING != 0),
    {
        self.flag6 & FLAG6_IGNORE_MIRRORING > 0
    }

    /// The mapper number: its high nibble sits in the second flag byte, its
    /// low nibble in the high nibble of the first flag byte.
    pub fn get_mapper(&self) -> (r: u8)
        ensures
            r == (self.flag7 & FLAG7_MAPPER_UPPER | (self.flag6 & FLAG6_MAPPER_LOWER) >> 4),
    {
        self.flag7 & FLAG7_MAPPER_UPPER | (self.flag6 & FLAG6_MAPPER_LOWER) >> 4
    }
}

/// The number of trainer bytes `flag6` announces.
pub open spec fn spec_trainer_size(flag6: u8) -> int {
    if flag6 & FLAG6_TRAINER != 0 {
        TRAINER_SIZE as int
    } else {
        0
    }
}

/// The number of auxiliary-block bytes `flag7` announces.
pub open spec fn spec_pc10_size(flag7: u8) -> int {
    if flag7 & FLAG7_PLAY_CHOICE_10 != 0 {
        PLAY_CHOICE_10_SIZE as int
    } else {
        0
    }
}

/// Where the program banks start in the container.
pub open spec fn spec_prg_off(d: Seq<u8>) -> int {
    HEADER_SIZE + spec_trainer_size(d[6])
}

/// Where the graphics banks start in the container.
pub open spec fn spec_chr_off(d: Seq<u8>) -> int {
    spec_prg_off(d) + d[4] * PRG_ROM_BANK_SIZE
}

/// Where the auxiliary block starts in the container.
pub open spec fn spec_pc10_off(d: Seq<u8>) -> int {
    spec_chr_off(d) + d[5] * CHR_ROM_BANK_SIZE
}

/// The total number of bytes the container announces.
pub open spec fn spec_total_size(d: Seq<u8>) -> int {
    spec_pc10_off(d) + spec_pc10_size(d[7])
}

/// Whether `d` is a loadable container: a complete header, the magic
/// signature, and every announced block present in full.
pub open spec fn spec_rom_ok(d: Seq<u8>) -> bool {
    &&& d.len() >= HEADER_SIZE
    &&& spec_magic_ok(d)
    &&& d.len() >= spec_total_size(d)
}

/// A parsed cartridge container: the header and the extracted banks.
pub struct INESRom {
    pub header: INESHeader,
    pub trainer: Option<Vec<u8>>,
    pub play_choice_10: Option<Vec<u8>>,
    pub prg_banks: Vec<Vec<u8>>,
    pub chr_banks: Vec<Vec<u8>>,
}

impl INESRom {
    /// Parses a whole container image. Fails with a format error on a bad
    /// magic signature and with a truncated-input error when any announced
    /// block is cut short; on failure no bank is populated.
    pub fn from_reader(data: &[u8]) -> (r: Result<INESRom, FormatError>)
        ensures
            r is Ok <==> spec_rom_ok(data@),
            r matches Ok(rom) ==> {
                let d = data@;
                &&& rom.header.format@ == d.subrange(0, 4)
                &&& rom.header.prg_rom_banks == d[4]
                &&& rom.header.chr_rom_banks == d[5]
                &&& rom.header.flag6 == d[6]
                &&& rom.header.flag7 == d[7]
                &&& rom.header.prg_ram_banks == d[8]
                &&& rom.header.flag9 == d[9]
                &&& (rom.trainer is Some <==> d[6] & FLAG6_TRAINER != 0)
                &&& (rom.trainer matches Some(t) ==> t@ == d.subrange(
                    HEADER_SIZE as int,
                    HEADER_SIZE + TRAINER_SIZE,
                ))
                &&& rom.prg_banks@.len() == d[4]
                &&& (forall|i: int|
                    0 <= i < d[4] ==> #[trigger] rom.prg_banks@[i]@ == d.subrange(
                        spec_prg_off(d) + i * PRG_ROM_BANK_SIZE,
                        spec_prg_off(d) + (i + 1) * PRG_ROM_BANK_SIZE,
                    ))
                &&& rom.chr_banks@.len() == d[5]
                &&& (forall|i: int|
                    0 <= i < d[5] ==> #[trigger] rom.chr_banks@[i]@ == d.subrange(
                        spec_chr_off(d) + i * CHR_ROM_BANK_SIZE,
                        spec_chr_off(d) + (i + 1) * CHR_ROM_BANK_SIZE,
                    ))
                &&& (rom.play_choice_10 is Some <==> d[7] & FLAG7_PLAY_CHOICE_10 != 0)
                &&& (rom.play_choice_10 matches Some(p) ==> p@ == d.subrange(
                    spec_pc10_off(d),
                    spec_pc10_off(d) + PLAY_CHOICE_10_SIZE,
                ))
            },
    {
        let header = match INESHeader::from_bytes(data) {
            Ok(h) => h,
            Err(e) => {
                return Err(e);
            },
        };
        if !(header.format[0] == 0x4E && header.format[1] == 0x45 && header.format[2] == 0x53
            && header.format[3] == 0x1A) {
            return Err(FormatError("Invalid format name".to_owned()));
        }

        let mut offset: usize = HEADER_SIZE;

        let mut trainer: Option<Vec<u8>> = None;
        if header.has_trainer() {
            match Self::read_bank(data, offset, TRAINER_SIZE) {
                Ok(bank) => {
                    trainer = Some(bank);
                    offset = offset + TRAINER_SIZE;
                },
                Err(e) => {
                    return Err(e);
                },
            }
        }

        let ghost d = data@;
        let mut prg_banks: Vec<Vec<u8>> = Vec::new();
        let prg_count = header.prg_rom_banks as usize;
        let mut i: usize = 0;
        while i < prg_count
            invariant
                0 <= i <= prg_count,
                prg_count == d[4],
                d == data@,
                d.len() >= HEADER_SIZE,
                offset == spec_prg_off(d) + i * PRG_ROM_BANK_SIZE,
                offset <= data@.len(),
                prg_banks@.len() == i,
                forall|j: int|
                    0 <= j < i ==> #[trigger] prg_banks@[j]@ == d.subrange(
                        spec_prg_off(d) + j * PRG_ROM_BANK_SIZE,
                        spec_prg_off(d) + (j + 1) * PRG_ROM_BANK_SIZE,
                    ),
            decreases prg_count - i,
        {
            match Self::read_bank(data, offset, PRG_ROM_BANK_SIZE) {
                Ok(bank) => {
                    prg_banks.push(bank);
                    offset = offset + PRG_ROM_BANK_SIZE;
                },
                Err(e) => {
                    return Err(e);
                },
            }
            i = i + 1;
        }

        let mut chr_banks: Vec<Vec<u8>> = Vec::new();
        let chr_count = header.chr_rom_banks as usize;
        let mut i: usize = 0;
        while i < chr_count
            invariant
                0 <= i <= chr_count,
                chr_count == d[5],
                d == data@,
                d.len() >= HEADER_SIZE,
                offset == spec_chr_off(d) + i * CHR_ROM_BANK_SIZE,
                offset <= data@.len(),
                chr_banks@.len() == i,
                forall|j: int|
                    0 <= j < i ==> #[trigger] chr_banks@[j]@ == d.subrange(
                        spec_chr_off(d) + j * CHR_ROM_BANK_SIZE,
                        spec_chr_off(d) + (j + 1) * CHR_ROM_BANK_SIZE,
                    ),
            decreases chr_count - i,
        {
            match Self::read_bank(data, offset, CHR_ROM_BANK_SIZE) {
                Ok(bank) => {
                    chr_banks.push(bank);
                    offset = offset + CHR_ROM_BANK_SIZE;
                },
                Err(e) => {
                    return Err(e);
                },
            }
            i = i + 1;
        }

        let mut play_choice_10: Option<Vec<u8>> = None;
        if header.has_play_choice_10() {
            match Self::read_bank(data, offset, PLAY_CHOICE_10_SIZE) {
                Ok(bank) => {
                    play_choice_10 = Some(bank);
                },
                Err(e) => {
                    return Err(e);
                },
            }
        }

        Ok(INESRom { header, trainer, play_choice_10, prg_banks, chr_banks })
    }

    pub fn has_persistent_memory(&self) -> (r: bool)
        ensures
            r == (self.header.flag6 & FLAG6_PERSISTENT_MEMORY != 0),
    {
        self.header.has_persistent_memory()
    }

    pub fn has_vs_unisystem(&self) -> (r: bool)
        ensures
            r == (self.header.flag7 & FLAG7_VS_UNISYSTEM != 0),
    {
        self.header.has_vs_unisystem()
    }

    pub fn is_nes2_foramt(&self) -> (r: bool)
        ensures
            r == (self.header.flag7 & FLAG7_NES2_FORMAT == 0x08),
    {
        self.header.is_nes2_format()
    }

    pub fn get_mirroring(&self) -> (r: Mirroring)
        ensures
            r == (if self.header.flag6 & FLAG6_MIRRORING == 0 {
                Mirroring::Horizontal
            } else {
                Mirroring::Vertical
            }),
    {
        self.header.get_mirroring()
    }

    pub fn get_ignore_mirroring(&self) -> (r: bool)
        ensures
            r == (self.header.flag6 & FLAG6_IGNORE_MIRRORING != 0),
    {
        self.header.get_ignore_mirroring()
    }

    pub fn get_mapper(&self) -> (r: u8)
        ensures
            r == (self.header.flag7 & FLAG7_MAPPER_UPPER | (self.header.flag6 & FLAG6_MAPPER_LOWER)
                >> 4),
    {
        self.header.get_mapper()
    }

    pub fn get_trainer(&self) -> (r: Option<&Vec<u8>>)
        ensures
            r is Some <==> self.trainer is Some,
            r matches Some(t) ==> self.trainer matches Some(t2) && t@ == t2@,
    {
        match &self.trainer {
            Some(t) => Some(t),
            None => None,
        }
    }

    pub fn get_prg_bank(&self, index: usize) -> (r: Option<&Vec<u8>>)
        ensures
            r is Some <==> index < self.prg_banks@.len(),
            r matches Some(b) ==> b@ == self.prg_banks@[index as int]@,
    {
        if index < self.prg_banks.len() {
            Some(&self.prg_banks[index])
        } else {
            None
        }
    }

    pub fn get_chr_bank(&self, index: usize) -> (r: Option<&Vec<u8>>)
        ensures
            r is Some <==> index < self.chr_banks@.len(),
            r matches Some(b) ==> b@ == self.chr_banks@[index as int]@,
    {
        if index < self.chr_banks.len() {
            Some(&self.chr_banks[index])
        } else {
            None
        }
    }

    pub fn get_play_choise_10(&self) -> (r: Option<&Vec<u8>>)
        ensures
            r is Some <==> self.play_choice_10 is Some,
            r matches Some(p) ==> self.play_choice_10 matches Some(p2) && p@ == p2@,
    {
        match &self.play_choice_10 {
            Some(p) => Some(p),
            None => None,
        }
    }

    /// Copies one fixed-size block out of the container, or fails with a
    /// truncated-input error when the input ends before the block does.
    fn read_bank(data: &[u8], offset: usize, size: usize) -> (r: Result<Vec<u8>, FormatError>)
        requires
            offset <= data@.len(),
        ensures
            r is Ok <==> offset + size <= data@.len(),
            r matches Ok(bank) ==> bank@ == data@.subrange(offset as int, offset + size),
    {
        if size > data.len() - offset {
            return Err(FormatError("Truncated bank".to_owned()));
        }
        let mut bank: Vec<u8> = Vec::new();
        let mut i: usize = 0;
        while i < size
            invariant
                0 <= i <= size,
                offset + size <= data@.len(),
                data@.len() <= usize::MAX,
                bank@.len() == i,
                forall|j: int| 0 <= j < i ==> bank@[j] == data@[offset + j],
            decreases size - i,
        {
            bank.push(data[offset + i]);
            i = i + 1;
        }
        proof {
            assert(bank@ =~= data@.subrange(offset as int, offset + size));
        }
        Ok(bank)
    }
}

} // verus!
