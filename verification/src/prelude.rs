use vstd::prelude::*;
use crate::cartridge::{CartridgeHeader, checksum, get_mbc_type, header_checksum, load_cartridge_from_bytes, mbc_type_spec, GbMode, MBCTypes};
use crate::gb::{Gb, GbTypes, ModelSelection};
use crate::mbcs::{gb_mode_spec, supported_mbc};

verus! {

/// The mode and hardware a cartridge runs on under a model selection: `Auto` follows the
/// cartridge; `Dmg` refuses CGB-only cartridges; `Cgb` runs DMG cartridges in compatibility
/// mode.
pub open spec fn model_for(cartridge_mode: GbMode, model_selection: ModelSelection) -> Option<(GbMode, GbTypes)> {
    match model_selection {
        ModelSelection::Auto => Some(
            (cartridge_mode, if cartridge_mode == GbMode::CgbMode { GbTypes::Cgb } else { GbTypes::Dmg }),
        ),
        ModelSelection::Dmg => if cartridge_mode == GbMode::CgbMode {
            None
        } else {
            Some((GbMode::DmgMode, GbTypes::Dmg))
        },
        ModelSelection::Cgb => Some(
            (if cartridge_mode == GbMode::DmgMode { GbMode::NonCgbMode } else { GbMode::CgbMode }, GbTypes::Cgb),
        ),
    }
}

pub fn resolve_model_selection(cartridge_mode: GbMode, model_selection: ModelSelection) -> (r: Result<
    (GbMode, GbTypes),
    String,
>)
    ensures
        r is Ok <==> model_for(cartridge_mode, model_selection) is Some,
        r matches Ok(m) ==> m == model_for(cartridge_mode, model_selection)->0,
        r matches Err(e) ==> e@ == "This ROM requires a Game Boy Color model"@,
{
    match model_selection {
        ModelSelection::Auto => {
            let gb_type = if cartridge_mode == GbMode::CgbMode {
                GbTypes::Cgb
            } else {
                GbTypes::Dmg
            };
            Ok((cartridge_mode, gb_type))
        },
        ModelSelection::Dmg => match cartridge_mode {
            GbMode::CgbMode => Err(String::from_str("This ROM requires a Game Boy Color model")),
            _ => Ok((GbMode::DmgMode, GbTypes::Dmg)),
        },
        ModelSelection::Cgb => {
            let gb_mode = match cartridge_mode {
                GbMode::DmgMode => GbMode::NonCgbMode,
                _ => GbMode::CgbMode,
            };
            Ok((gb_mode, GbTypes::Cgb))
        },
    }
}

/// Builds machines from ROM images.
pub struct GbInstance;

/// Whether a ROM image can be handed to the builders: it holds a header, and a header that
/// passes its checksum names a known ROM size and a supported controller.
pub open spec fn buildable(rom_data: Seq<u8>) -> bool {
    &&& rom_data.len() > 0x14D
    &&& header_checksum(rom_data) == rom_data[0x14D] ==> rom_data[0x148] <= 26 && supported_mbc(mbc_type_spec(rom_data[0x147]))
}

/// Whether a ROM image can be handed to the builders (see `buildable`); an image that cannot
/// is one the builders would fail on by indexing past its end, by an oversized ROM-size code or
/// by a controller that is not emulated.
pub fn can_build(rom_data: &Vec<u8>) -> (r: bool)
    ensures
        r == buildable(rom_data@),
{
    if rom_data.len() <= 0x14D {
        return false;
    }
    if !checksum(rom_data) {
        return true;
    }
    let supported = match get_mbc_type(&rom_data[0x147]) {
        MBCTypes::Mmm01 { .. } | MBCTypes::Unknown => false,
        _ => true,
    };
    rom_data[0x148] <= 26 && supported
}

impl GbInstance {
    /// `build_from_bytes_with_model` with the model picked from the cartridge.
    pub fn build_from_bytes(rom_data: Vec<u8>, saved: Option<Vec<u8>>) -> (r: Result<Gb, String>)
        requires
            buildable(rom_data@),
        ensures
            r is Ok <==> header_checksum(rom_data@) == rom_data@[0x14D],
            r matches Ok(gb) ==> gb.wf() && gb.mbc.rom_data_view() == rom_data@ && (gb.gb_mode, gb.gb_type) == model_for(
                gb_mode_spec(rom_data@[0x143]),
                ModelSelection::Auto,
            )->0,
            r matches Ok(gb) ==> gb.powered_on(gb.mbc, gb.gb_mode, gb.gb_type),
            r matches Ok(gb) ==> exists|h: CartridgeHeader| #[trigger] h.describes(rom_data@) && gb.mbc.built(rom_data, h, saved),
            r matches Err(e) ==> e@ == "Error parsing ROM bytes: "@ + "Cartridge is not a valid GB ROM"@,
    {
        Self::build_from_bytes_with_model(rom_data, saved, ModelSelection::Auto)
    }

    /// Parses the ROM's header, builds its controller (with `saved` battery RAM), resolves
    /// the model and builds the machine.
    pub fn build_from_bytes_with_model(rom_data: Vec<u8>, saved: Option<Vec<u8>>, model_selection: ModelSelection) -> (r:
        Result<Gb, String>)
        requires
            buildable(rom_data@),
        ensures
            r is Ok <==> header_checksum(rom_data@) == rom_data@[0x14D] && model_for(
                gb_mode_spec(rom_data@[0x143]),
                model_selection,
            ) is Some,
            r matches Ok(gb) ==> gb.wf() && gb.mbc.rom_data_view() == rom_data@ && (gb.gb_mode, gb.gb_type) == model_for(
                gb_mode_spec(rom_data@[0x143]),
                model_selection,
            )->0,
            r matches Ok(gb) ==> gb.powered_on(gb.mbc, gb.gb_mode, gb.gb_type),
            r matches Ok(gb) ==> exists|h: CartridgeHeader| #[trigger] h.describes(rom_data@) && gb.mbc.built(rom_data, h, saved),
            r matches Err(e) ==> if header_checksum(rom_data@) == rom_data@[0x14D] {
                e@ == "This ROM requires a Game Boy Color model"@
            } else {
                e@ == "Error parsing ROM bytes: "@ + "Cartridge is not a valid GB ROM"@
            },
    {
        let ghost rom = rom_data@;
        match load_cartridge_from_bytes(rom_data, saved) {
            Ok((mbc, gb_mode)) => {
                let (gb_mode, gb_type) = match resolve_model_selection(gb_mode, model_selection) {
                    Ok(m) => m,
                    Err(e) => {
                        return Err(e);
                    },
                };
                Ok(Gb::new(mbc, gb_mode, gb_type))
            },
            Err(e) => {
                let mut message = String::from_str("Error parsing ROM bytes: ");
                message.append(e.as_str());
                Err(message)
            },
        }
    }
}

} // verus!
