//! The 16-byte iNES / NES 2.0 cartridge header: identification, bank
//! counts, mapper number, mirroring, and the NES 2.0 extension fields.

use vstd::prelude::*;

verus! {

/// How the two physical nametables are arranged in the four-slot space.
#[derive(Clone, Copy, PartialEq, Eq, Structural, Debug)]
pub enum Mirroring {
    Horizontal,
    Vertical,
    SingleScreenUpper,
    SingleScreenLower,
    FourScreen,
}

/// The console family a ROM targets.
#[derive(Clone, Copy, PartialEq, Eq, Structural, Debug)]
pub enum ConsoleType {
    NESFamicom,
    VsSystem,
    Playchoice10,
    DecimalFamiclone,
    VT01Monochrome,
    VT01STN,
    VT02,
    VT03,
    VT09,
    VT32,
    VT369,
    UM6578,
    Other,
}

/// The region timing a ROM declares.
#[derive(Clone, Copy, PartialEq, Eq, Structural, Debug)]
pub enum ClockTiming {
    NTSC,
    PAL,
    MultiRegion,
    Dendy,
}

/// Whether the header carries the NES 2.0 signature in byte 7.
pub open spec fn spec_is_nes2(h: Seq<u8>) -> bool {
    (h[7] & 0x0C) == 0x08
}

/// The headers whose last four bytes are zero; only those extend the
/// mapper number from byte 7 in the old iNES format.
pub open spec fn spec_tail_clear(h: Seq<u8>) -> bool {
    h[12] == 0 && h[13] == 0 && h[14] == 0 && h[15] == 0
}

/// The number of 16 KiB program banks the header declares.
pub open spec fn spec_n_prg_banks(h: Seq<u8>) -> u16 {
    if spec_is_nes2(h) {
        ((h[4] as u16) | (((h[9] & 0x0F) as u16) << 8)) as u16
    } else {
        h[4] as u16
    }
}

/// The number of 8 KiB character banks the header declares.
pub open spec fn spec_n_chr_banks(h: Seq<u8>) -> u16 {
    if spec_is_nes2(h) {
        ((h[5] as u16) | (((h[9] & 0xF0) as u16) << 4)) as u16
    } else {
        h[5] as u16
    }
}

/// The mapper number, assembled from its low, middle, and (NES 2.0
/// only) high nibbles. An old-format header with a dirty tail keeps
/// only the low nibble.
pub open spec fn spec_mapper_num(h: Seq<u8>) -> u16 {
    if spec_is_nes2(h) {
        ((h[6] >> 4) as u16 | (h[7] & 0xF0) as u16 | (((h[8] & 0x0F) as u16) << 8)) as u16
    } else if spec_tail_clear(h) {
        ((h[6] >> 4) as u16 | (h[7] & 0xF0) as u16) as u16
    } else {
        (h[6] >> 4) as u16
    }
}

/// The hardwired nametable mirroring from the flags in byte 6.
pub open spec fn spec_hardwired_mirroring(h: Seq<u8>) -> Mirroring {
    if ((h[6] >> 3) & 1) == 1 {
        Mirroring::FourScreen
    } else if (h[6] & 1) == 0 {
        Mirroring::Horizontal
    } else {
        Mirroring::Vertical
    }
}

/// Everything the emulator core needs from a cartridge header.
pub struct CartridgeMetadata {
    pub is_nes2: bool,
    pub n_prg_banks: u16,
    pub n_chr_banks: u16,
    pub hardwired_mirroring: Mirroring,
    pub has_battery: bool,
    pub has_trainer: bool,
    pub mapper_num: u16,
    pub submapper_num: Option<u16>,
    pub console_type: ConsoleType,
    pub prg_ram_bytes: usize,
    pub prg_nvram_bytes: usize,
    pub chr_ram_bytes: usize,
    pub chr_nvram_bytes: usize,
    pub timing: ClockTiming,
    pub vs_system_type: Option<u8>,
    pub n_misc_roms: Option<u8>,
    pub default_expansion_device: Option<u8>,
}

impl CartridgeMetadata {
    /// Parse a 16-byte header. Succeeds exactly when it starts with the
    /// `NES<EOF>` identifier; on success the core fields are the
    /// header's bits as the format defines them.
    pub fn from_header(header: Vec<u8>) -> (r: Result<CartridgeMetadata, &'static str>)
        requires
            header@.len() == 16,
        ensures
            r is Ok <==> (header@[0] == 0x4E && header@[1] == 0x45 && header@[2] == 0x53
                && header@[3] == 0x1A),
            r matches Ok(m) ==> {
                &&& m.is_nes2 == spec_is_nes2(header@)
                &&& m.n_prg_banks == spec_n_prg_banks(header@)
                &&& m.n_chr_banks == spec_n_chr_banks(header@)
                &&& m.mapper_num == spec_mapper_num(header@)
                &&& m.hardwired_mirroring == spec_hardwired_mirroring(header@)
                &&& m.has_battery == (((header@[6] >> 1) & 1) == 1)
                &&& m.has_trainer == (((header@[6] >> 2) & 1) == 1)
                &&& (m.submapper_num matches Some(s) <==> m.is_nes2)
                &&& (spec_is_nes2(header@) ==> m.submapper_num == Some((header@[8] >> 4) as u16))
            },
    {
        if !(header[0] == 0x4E && header[1] == 0x45 && header[2] == 0x53 && header[3] == 0x1A) {
            return Err("header does not begin with NES<EOF> identifier");
        }
        let is_nes2 = (header[7] & 0x0C) == 0x08;

        let mut n_prg_banks: u16 = header[4] as u16;
        let mut n_chr_banks: u16 = header[5] as u16;

        let hardwired_mirroring = if ((header[6] >> 3) & 1) == 1 {
            Mirroring::FourScreen
        } else if (header[6] & 1) == 0 {
            Mirroring::Horizontal
        } else {
            Mirroring::Vertical
        };
        let has_battery = ((header[6] >> 1) & 1) == 1;
        let has_trainer = ((header[6] >> 2) & 1) == 1;
        let mut mapper_num: u16 = (header[6] >> 4) as u16;

        let mut submapper_num: Option<u16> = None;
        let mut timing = ClockTiming::NTSC;
        let mut vs_system_type: Option<u8> = None;
        let mut n_misc_roms: Option<u8> = None;
        let mut default_expansion_device: Option<u8> = None;

        let console_type: ConsoleType;
        let prg_ram_bytes: usize;
        let prg_nvram_bytes: usize;
        let chr_ram_bytes: usize;
        let chr_nvram_bytes: usize;

        if is_nes2 {
            console_type = match header[7] & 0x03 {
                0 => ConsoleType::NESFamicom,
                1 => ConsoleType::VsSystem,
                2 => ConsoleType::Playchoice10,
                _ => match header[13] & 0x0F {
                    0x0 => ConsoleType::NESFamicom,
                    0x1 => ConsoleType::VsSystem,
                    0x2 => ConsoleType::Playchoice10,
                    0x3 => ConsoleType::DecimalFamiclone,
                    0x4 => ConsoleType::VT01Monochrome,
                    0x5 => ConsoleType::VT01STN,
                    0x6 => ConsoleType::VT02,
                    0x7 => ConsoleType::VT03,
                    0x8 => ConsoleType::VT09,
                    0x9 => ConsoleType::VT32,
                    0xA => ConsoleType::VT369,
                    0xB => ConsoleType::UM6578,
                    _ => ConsoleType::Other,
                },
            };

            mapper_num = mapper_num | ((header[7] & 0xF0) as u16) | (((header[8] & 0x0F)
                as u16) << 8);
            submapper_num = Some((header[8] >> 4) as u16);

            n_prg_banks = n_prg_banks | (((header[9] & 0x0F) as u16) << 8);
            n_chr_banks = n_chr_banks | (((header[9] & 0xF0) as u16) << 4);

            let b10 = header[10];
            let b11 = header[11];
            proof {
                assert((b10 & 0x0F) < 16 && ((b10 & 0xF0) >> 4) < 16 && (b11 & 0x0F) < 16 && ((b11
                    & 0xF0) >> 4) < 16) by (bit_vector);
            }
            prg_ram_bytes = 64usize << ((b10 & 0x0F) as usize);
            prg_nvram_bytes = 64usize << (((b10 & 0xF0) >> 4) as usize);
            chr_ram_bytes = 64usize << ((b11 & 0x0F) as usize);
            chr_nvram_bytes = 64usize << (((b11 & 0xF0) >> 4) as usize);

            timing = match header[12] & 0x03 {
                0 => ClockTiming::NTSC,
                1 => ClockTiming::PAL,
                2 => ClockTiming::MultiRegion,
                _ => ClockTiming::Dendy,
            };

            vs_system_type = Some(header[13]);
            n_misc_roms = Some(header[14] & 0x03);
            default_expansion_device = Some(header[14] & 0x3F);
        } else {
            console_type = match header[7] & 0x03 {
                0 => ConsoleType::NESFamicom,
                1 => ConsoleType::VsSystem,
                _ => ConsoleType::Playchoice10,
            };

            // Either PRG-RAM or PRG-NVRAM, depending on the battery flag
            let mut some_prg_ram_bytes: usize = 0x2000;

            // An old-format header with a dirty tail keeps only the low
            // mapper nibble and ignores the PRG-RAM size byte.
            if header[12] == 0 && header[13] == 0 && header[14] == 0 && header[15] == 0 {
                mapper_num = mapper_num | ((header[7] & 0xF0) as u16);
                let units: usize = if header[8] >= 1 {
                    header[8] as usize
                } else {
                    1
                };
                some_prg_ram_bytes = 0x2000 * units;
            }

            chr_ram_bytes = if n_chr_banks == 0 {
                0x2000
            } else {
                0
            };

            if has_battery {
                prg_ram_bytes = 0;
                prg_nvram_bytes = some_prg_ram_bytes;
            } else {
                prg_ram_bytes = some_prg_ram_bytes;
                prg_nvram_bytes = 0;
            }
            chr_nvram_bytes = 0;
        }

        Ok(CartridgeMetadata {
            is_nes2,
            n_prg_banks,
            n_chr_banks,
            hardwired_mirroring,
            has_battery,
            has_trainer,
            mapper_num,
            submapper_num,
            console_type,
            prg_ram_bytes,
            prg_nvram_bytes,
            chr_ram_bytes,
            chr_nvram_bytes,
            timing,
            vs_system_type,
            n_misc_roms,
            default_expansion_device,
        })
    }
}

} // verus!
