mod arch;
mod cc;
mod codec;
mod machine;

pub mod laws;

pub use arch::{
    is_mips_cc, Arch, ArchInfo, ArchMIPS, ArchT, Mode, MIPS, MIPS_ARG_ON_STACK, MIPS_REG_A0,
    MIPS_REG_A1, MIPS_REG_A2, MIPS_REG_A3, MIPS_REG_PC, MIPS_REG_RA, MIPS_REG_SP, MIPS_REG_V0,
    MIPS_SHADOW, MODE_32, MODE_64, MODE_BIG_ENDIAN, MODE_LITTLE_ENDIAN,
};
pub use cc::{word_of, write_outcome, CallingConventionCommon, MAX_SHADOW_WORDS, CcError, Location, ReturnAddress};
pub use codec::{decode_word, encode_word, Endian};
pub use machine::{CoreFault, ExecCore, FlatMachine};
