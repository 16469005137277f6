use vstd::prelude::*;

use crate::cartridge::loader::LoadError;
use crate::cartridge::types::Cartridge;

pub mod mapper0;
pub mod mapper2;
pub mod nomapper;
pub mod types;

verus! {

/// Gives the cartridge the mapper that its header asks for, holding the cartridge's
/// program and pattern data. A header that asks for another scheme, or that announces no
/// program bank, is refused, and the cartridge is left as it was.
pub fn choose_mapper(cartridge: &mut Cartridge) -> (result: Result<(), LoadError>)
    requires
        old(cartridge).filled(),
    ensures
        result == chosen(old(cartridge).header.h_mapper, old(cartridge).header.h_prg_size),
        result is Ok ==> final(cartridge).fitted(*old(cartridge)),
        result is Err ==> *final(cartridge) == *old(cartridge),
{
    match cartridge.header.h_mapper {
        0 => {
            if cartridge.header.h_prg_size == 0 {
                Err(LoadError::EmptyProgram)
            } else {
                mapper0::install(cartridge);
                Ok(())
            }
        },
        2 => {
            if cartridge.header.h_prg_size == 0 {
                Err(LoadError::EmptyProgram)
            } else {
                mapper2::install(cartridge);
                Ok(())
            }
        },
        id => Err(LoadError::UnsupportedMapper(id)),
    }
}

/// Whether a mapper can be had for a header with this mapper number and this many
/// program banks.
pub open spec fn chosen(id: u8, prg_banks: u8) -> Result<(), LoadError> {
    if id != 0 && id != 2 {
        Err(LoadError::UnsupportedMapper(id))
    } else if prg_banks == 0 {
        Err(LoadError::EmptyProgram)
    } else {
        Ok(())
    }
}

/// The mapper of a cartridge that holds nothing.
pub fn generic_mapper() -> (mapper: types::Mapper)
    ensures
        mapper == types::Mapper::Absent(nomapper::NoMapper {  }),
{
    types::Mapper::Absent(nomapper::new())
}

} // verus!
