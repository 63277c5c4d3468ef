use vstd::prelude::*;
use vstd::slice::slice_subrange;
use crate::memory::{le_value, lemma_le_value};
use crate::opcodes::{ArgSource, Opcode};
use crate::structs::{ArgLocation, OpArgument, SizedValue, ValueSize, MAX_ARGS};
use crate::vm::VMError;

verus! {

/// The number that the first `n` bytes of `bytes` hold, the least
/// significant first; an overrun where there are fewer.
pub open spec fn read_le(bytes: Seq<u8>, n: int) -> Result<int, VMError> {
    if bytes.len() < n {
        Err(VMError::DecodingOverrun)
    } else {
        Ok(le_value(bytes.take(n)))
    }
}

/// Reads a double word, its low byte first.
pub fn u32_from_bytes(bytes: &[u8]) -> (r: Result<u32, VMError>)
    ensures
        match r {
            Ok(v) => read_le(bytes@, 4) == Ok::<int, VMError>(v as int),
            Err(e) => read_le(bytes@, 4) == Err::<int, VMError>(e),
        },
{
    if bytes.len() < 4 {
        return Err(VMError::DecodingOverrun);
    }
    proof {
        lemma_le_value(bytes@.take(4));
    }
    Ok(
        bytes[0] as u32 + 0x100 * (bytes[1] as u32) + 0x1_0000 * (bytes[2] as u32) + 0x100_0000 * (
        bytes[3] as u32),
    )
}

/// Reads a word, its low byte first.
pub fn u16_from_bytes(bytes: &[u8]) -> (r: Result<u16, VMError>)
    ensures
        match r {
            Ok(v) => read_le(bytes@, 2) == Ok::<int, VMError>(v as int),
            Err(e) => read_le(bytes@, 2) == Err::<int, VMError>(e),
        },
{
    if bytes.len() < 2 {
        return Err(VMError::DecodingOverrun);
    }
    proof {
        lemma_le_value(bytes@.take(2));
    }
    Ok(bytes[0] as u16 + 0x100 * (bytes[1] as u16))
}

/// Reads a byte.
pub fn u8_from_bytes(bytes: &[u8]) -> (r: Result<u8, VMError>)
    ensures
        match r {
            Ok(v) => read_le(bytes@, 1) == Ok::<int, VMError>(v as int),
            Err(e) => read_le(bytes@, 1) == Err::<int, VMError>(e),
        },
{
    if bytes.len() < 1 {
        return Err(VMError::DecodingOverrun);
    }
    proof {
        lemma_le_value(bytes@.take(1));
    }
    Ok(bytes[0])
}

/// The three fields of a Mod R/M byte.
#[derive(Default, Debug, Clone, Copy, PartialEq, Eq)]
pub struct ModRM {
    /// The low three bits
    pub rm: u8,
    /// The middle three bits
    pub reg: u8,
    /// The top two bits
    pub mode: u8,
}

/// The three fields of a scale-index-base byte.
#[derive(Default, Debug, Clone, Copy, PartialEq, Eq)]
pub struct SIB {
    /// The low three bits
    pub base: u8,
    /// The middle three bits
    pub index: u8,
    /// The top two bits
    pub scale: u8,
}

/// The factor that the scale field of a scale-index-base byte stands for.
pub open spec fn scale_factor(scale: u8) -> u8 {
    if scale == 0 {
        1
    } else if scale == 1 {
        2
    } else if scale == 2 {
        4
    } else {
        8
    }
}

impl SIB {
    /// The fields are within their bits.
    pub open spec fn wf(self) -> bool {
        self.base < 8 && self.index < 8 && self.scale < 4
    }

    /// The fields of the byte `b`.
    pub open spec fn of(b: u8) -> SIB {
        SIB { base: b % 8, index: b / 8 % 8, scale: b / 64 }
    }

    /// Takes a byte apart into its fields.
    pub fn parse(b: u8) -> (r: SIB)
        ensures
            r == SIB::of(b),
            r.wf(),
    {
        SIB { base: b % 8, index: b / 8 % 8, scale: b / 64 }
    }
}

impl ModRM {
    /// The fields are within their bits.
    pub open spec fn wf(self) -> bool {
        self.rm < 8 && self.reg < 8 && self.mode < 4
    }

    /// The fields of the byte `b`.
    pub open spec fn of(b: u8) -> ModRM {
        ModRM { rm: b % 8, reg: b / 8 % 8, mode: b / 64 }
    }

    /// The argument that a Mod R/M byte describes, with the scale-index-base
    /// byte and the displacement that follow it where the forms have them.
    ///
    /// Mode 3 is the register `rm`. Else the argument is in memory: with mode
    /// 0 and `rm` 5 at the displacement itself; with `rm` other than 4 at
    /// the address in register `rm`, to which modes 1 and 2 add the
    /// displacement; and with `rm` 4 as the scale-index-base byte says, index
    /// 4 standing for no index and base 5 in mode 0 for no base.
    pub open spec fn location(self, sib: SIB, disp: u32, size: ValueSize) -> OpArgument {
        if self.mode == 3 {
            OpArgument { location: ArgLocation::RegisterValue(self.rm, size), is_memory: false }
        } else if self.mode == 0 && self.rm == 5 {
            OpArgument { location: ArgLocation::Address(disp, size), is_memory: true }
        } else if self.mode == 0 && self.rm != 4 {
            OpArgument { location: ArgLocation::RegisterAddress(self.rm, size), is_memory: true }
        } else if (self.mode == 1 || self.mode == 2) && self.rm != 4 {
            OpArgument {
                location: ArgLocation::ModRMAddress {
                    offset: Some(disp),
                    reg: Some(self.rm),
                    size: size,
                },
                is_memory: true,
            }
        } else {
            OpArgument {
                location: ArgLocation::SIBAddress {
                    offset: disp,
                    base: if sib.base == 5 && self.mode == 0 {
                        None
                    } else {
                        Some(sib.base)
                    },
                    scale: scale_factor(sib.scale),
                    index: if sib.index == 4 {
                        None
                    } else {
                        Some(sib.index)
                    },
                    size: size,
                },
                is_memory: true,
            }
        }
    }

    /// Takes a byte apart into its fields.
    pub fn parse(b: u8) -> (r: ModRM)
        ensures
            r == ModRM::of(b),
            r.wf(),
    {
        ModRM { rm: b % 8, reg: b / 8 % 8, mode: b / 64 }
    }

    /// The argument that the Mod R/M byte describes.
    pub fn decode(&self, sib: &SIB, disp: u32, size: ValueSize) -> (r: OpArgument)
        ensures
            r == self.location(*sib, disp, size),
            r.is_memory == r.location.in_memory(),
            self.wf() && sib.wf() ==> r.location.wf(),
    {
        if self.mode == 3 {
            return OpArgument {
                location: ArgLocation::RegisterValue(self.rm, size),
                is_memory: false,
            };
        }
        if self.mode == 0 && self.rm == 5 {
            return OpArgument { location: ArgLocation::Address(disp, size), is_memory: true };
        }
        if self.mode == 0 && self.rm != 4 {
            return OpArgument {
                location: ArgLocation::RegisterAddress(self.rm, size),
                is_memory: true,
            };
        }
        if (self.mode == 1 || self.mode == 2) && self.rm != 4 {
            return OpArgument {
                location: ArgLocation::ModRMAddress {
                    offset: Some(disp),
                    reg: Some(self.rm),
                    size: size,
                },
                is_memory: true,
            };
        }
        let base: Option<u8> = if sib.base == 5 && self.mode == 0 {
            None
        } else {
            Some(sib.base)
        };
        let index: Option<u8> = if sib.index == 4 {
            None
        } else {
            Some(sib.index)
        };
        let scale: u8 = if sib.scale == 0 {
            1
        } else if sib.scale == 1 {
            2
        } else if sib.scale == 2 {
            4
        } else {
            8
        };
        OpArgument {
            location: ArgLocation::SIBAddress {
                offset: disp,
                base: base,
                scale: scale,
                index: index,
                size: size,
            },
            is_memory: true,
        }
    }
}

/// A Mod R/M byte with the scale-index-base byte and the displacement that
/// belong to it, and the number of bytes that they take together.
#[derive(Default, Clone, Copy, Debug, PartialEq, Eq)]
pub struct ParsedModRM {
    pub modrm: ModRM,
    pub sib: Option<SIB>,
    pub disp: Option<u32>,
    pub size: u8,
}

/// The double word that a byte extends to when its top bit is its sign.
pub open spec fn sign_extend_byte(b: u8) -> u32 {
    if b < 0x80 {
        b as u32
    } else {
        (b + 0xFFFF_FF00) as u32
    }
}

impl ParsedModRM {
    /// The fields of both bytes are within their bits.
    pub open spec fn wf(self) -> bool {
        &&& self.modrm.wf()
        &&& self.sib matches Some(sib) ==> sib.wf()
    }

    /// The scale-index-base byte, where there is none with every field 0.
    pub open spec fn sib_or_default(self) -> SIB {
        match self.sib {
            Some(sib) => sib,
            None => SIB { base: 0, index: 0, scale: 0 },
        }
    }

    /// What `bytes` hold from their second byte on, the first being the
    /// opcode: the Mod R/M byte; the scale-index-base byte, where the mode
    /// is not 3 and `rm` is 4; then a displacement of four bytes in mode 2,
    /// in mode 0 with `rm` 5 and in mode 0 with base 5, or of one byte,
    /// which is sign-extended, in mode 1. Where the bytes end before any of
    /// these, that is an overrun.
    #[verifier::opaque]
    pub open spec fn parsed(bytes: Seq<u8>) -> Result<ParsedModRM, VMError> {
        if bytes.len() < 2 {
            Err(VMError::DecodingOverrun)
        } else if ModRM::of(bytes[1]).mode != 3 && ModRM::of(bytes[1]).rm == 4 && bytes.len() < 3 {
            Err(VMError::DecodingOverrun)
        } else {
            let modrm = ModRM::of(bytes[1]);
            let has_sib = modrm.mode != 3 && modrm.rm == 4;
            let sib = if has_sib {
                Some(SIB::of(bytes[2]))
            } else {
                None
            };
            let at: int = if has_sib {
                3
            } else {
                2
            };
            if (modrm.mode == 0 && modrm.rm == 5) || modrm.mode == 2 || (modrm.mode == 0 && has_sib
                && SIB::of(bytes[2]).base == 5) {
                match read_le(bytes.skip(at), 4) {
                    Err(e) => Err(e),
                    Ok(d) => Ok(
                        ParsedModRM {
                            modrm: modrm,
                            sib: sib,
                            disp: Some(d as u32),
                            size: (at + 3) as u8,
                        },
                    ),
                }
            } else if modrm.mode == 1 {
                match read_le(bytes.skip(at), 1) {
                    Err(e) => Err(e),
                    Ok(d) => Ok(
                        ParsedModRM {
                            modrm: modrm,
                            sib: sib,
                            disp: Some(sign_extend_byte(d as u8)),
                            size: at as u8,
                        },
                    ),
                }
            } else {
                Ok(ParsedModRM { modrm: modrm, sib: sib, disp: None, size: (at - 1) as u8 })
            }
        }
    }

    /// Parses the Mod R/M byte that follows the opcode byte at the start of
    /// `bytestream`, with all that belongs to it.
    pub fn from_bytes(bytestream: &[u8]) -> (r: Result<ParsedModRM, VMError>)
        ensures
            r == ParsedModRM::parsed(bytestream@),
            r matches Ok(p) ==> p.wf() && 1 <= p.size <= 6,
            r matches Err(e) ==> e == VMError::DecodingOverrun,
    {
        reveal(ParsedModRM::parsed);
        if bytestream.len() < 2 {
            return Err(VMError::DecodingOverrun);
        }
        let modrm = ModRM::parse(bytestream[1]);
        let mut at: usize = 2;
        let mut sib: Option<SIB> = None;
        let mut sib_base: u8 = 0;
        if modrm.mode != 3 && modrm.rm == 4 {
            if bytestream.len() < 3 {
                return Err(VMError::DecodingOverrun);
            }
            let parsed_sib = SIB::parse(bytestream[2]);
            sib_base = parsed_sib.base;
            sib = Some(parsed_sib);
            at = 3;
        }
        let rest = slice_subrange(bytestream, at, bytestream.len());
        if (modrm.mode == 0 && modrm.rm == 5) || modrm.mode == 2 || (modrm.mode == 0 && sib_base
            == 5) {
            let d = u32_from_bytes(rest)?;
            Ok(ParsedModRM { modrm: modrm, sib: sib, disp: Some(d), size: (at + 3) as u8 })
        } else if modrm.mode == 1 {
            let b: u8 = u8_from_bytes(rest)?;
            let d: u32 = if b < 0x80 {
                b as u32
            } else {
                b as u32 + 0xFFFF_FF00
            };
            Ok(ParsedModRM { modrm: modrm, sib: sib, disp: Some(d), size: at as u8 })
        } else {
            Ok(ParsedModRM { modrm: modrm, sib: sib, disp: None, size: (at - 1) as u8 })
        }
    }
}

/// One argument as `bytes` hold it, and the number of bytes it takes there.
/// `bytes` are what follows the opcode byte `opcode_byte` and the Mod R/M
/// bytes `modrm` of the instruction and the arguments before this one.
///
/// An argument counts as an access to memory exactly where its location is
/// in memory.
pub open spec fn decoded_arg(
    source: ArgSource,
    size: ValueSize,
    opcode_byte: u8,
    modrm: ParsedModRM,
    bytes: Seq<u8>,
) -> Result<(OpArgument, int), VMError> {
    match source {
        ArgSource::Unused => Ok(
            (OpArgument { location: ArgLocation::Nowhere, is_memory: false }, 0),
        ),
        ArgSource::ModRM => Ok(
            (
                modrm.modrm.location(
                    modrm.sib_or_default(),
                    match modrm.disp {
                        Some(d) => d,
                        None => 0,
                    },
                    size,
                ),
                0,
            ),
        ),
        ArgSource::ModRMReg => Ok(
            (
                OpArgument {
                    location: ArgLocation::RegisterValue(modrm.modrm.reg, size),
                    is_memory: false,
                },
                0,
            ),
        ),
        ArgSource::ImmediateAddress => match read_le(bytes, 4) {
            Err(e) => Err(e),
            Ok(a) => Ok(
                (OpArgument { location: ArgLocation::Address(a as u32, size), is_memory: true }, 4),
            ),
        },
        ArgSource::ImmediateValue | ArgSource::JumpRel => match size {
            ValueSize::Byte => match read_le(bytes, 1) {
                Err(e) => Err(e),
                Ok(v) => Ok(
                    (
                        OpArgument {
                            location: ArgLocation::Immediate(SizedValue::Byte(v as u8)),
                            is_memory: false,
                        },
                        1,
                    ),
                ),
            },
            ValueSize::Word => match read_le(bytes, 2) {
                Err(e) => Err(e),
                Ok(v) => Ok(
                    (
                        OpArgument {
                            location: ArgLocation::Immediate(SizedValue::Word(v as u16)),
                            is_memory: false,
                        },
                        2,
                    ),
                ),
            },
            ValueSize::Dword => match read_le(bytes, 4) {
                Err(e) => Err(e),
                Ok(v) => Ok(
                    (
                        OpArgument {
                            location: ArgLocation::Immediate(SizedValue::Dword(v as u32)),
                            is_memory: false,
                        },
                        4,
                    ),
                ),
            },
            _ => Ok(
                (
                    OpArgument {
                        location: ArgLocation::Immediate(SizedValue::Empty),
                        is_memory: false,
                    },
                    0,
                ),
            ),
        },
        ArgSource::RegisterSuffix => Ok(
            (
                OpArgument {
                    location: ArgLocation::RegisterValue(opcode_byte % 8, size),
                    is_memory: false,
                },
                0,
            ),
        ),
        ArgSource::Literal(l) => Ok(
            (OpArgument { location: ArgLocation::Immediate(l), is_memory: false }, 0),
        ),
        ArgSource::HardcodedRegister(r) => Ok(
            (OpArgument { location: ArgLocation::RegisterValue(r, size), is_memory: false }, 0),
        ),
    }
}

/// The arguments of an instruction of `opcode` that starts with its opcode
/// byte at the start of `bytes`, and the number of bytes of the instruction.
/// Each argument is taken from where the opcode declares it, at the width
/// the opcode declares for it. Fewer bytes than the instruction takes are
/// an overrun.
#[verifier::opaque]
pub open spec fn decoded_args(
    opcode: Opcode,
    bytes: Seq<u8>,
    size_override: bool,
    modrm: ParsedModRM,
) -> Result<([OpArgument; MAX_ARGS], int), VMError> {
    if bytes.len() < 1 + modrm.size {
        Err(VMError::DecodingOverrun)
    } else {
        match decoded_arg(
            opcode.arg_source@[0],
            opcode.arg_size@[0].fixed(size_override),
            bytes[0],
            modrm,
            bytes.skip(1 + modrm.size),
        ) {
            Err(e) => Err(e),
            Ok((a0, n0)) => match decoded_arg(
                opcode.arg_source@[1],
                opcode.arg_size@[1].fixed(size_override),
                bytes[0],
                modrm,
                bytes.skip(1 + modrm.size + n0),
            ) {
                Err(e) => Err(e),
                Ok((a1, n1)) => match decoded_arg(
                    opcode.arg_source@[2],
                    opcode.arg_size@[2].fixed(size_override),
                    bytes[0],
                    modrm,
                    bytes.skip(1 + modrm.size + n0 + n1),
                ) {
                    Err(e) => Err(e),
                    Ok((a2, n2)) => Ok(([a0, a1, a2], 1 + modrm.size + n0 + n1 + n2)),
                },
            },
        }
    }
}

/// Decoding follows the declaration of the opcode. Where an instruction
/// can be decoded, each of its three arguments is at the source and has
/// the width that the opcode declares for it: nowhere for no argument;
/// what the Mod R/M byte describes; the register of its `reg` field; the
/// register that the low three bits of the opcode byte name; the register
/// or the value that the opcode fixes; a value of the declared width from
/// the instruction; or the declared width at an address from the instruction.
pub proof fn lemma_decoded_args_follow_declaration(
    opcode: Opcode,
    bytes: Seq<u8>,
    size_override: bool,
    modrm: ParsedModRM,
    n: int,
)
    requires
        decoded_args(opcode, bytes, size_override, modrm) is Ok,
        0 <= n < 3,
    ensures
        ({
            let arg = decoded_args(opcode, bytes, size_override, modrm).unwrap().0@[n];
            let size = opcode.arg_size@[n].fixed(size_override);
            match opcode.arg_source@[n] {
                ArgSource::Unused => arg.location == ArgLocation::Nowhere,
                ArgSource::ModRM => arg == modrm.modrm.location(
                    modrm.sib_or_default(),
                    match modrm.disp {
                        Some(d) => d,
                        None => 0,
                    },
                    size,
                ),
                ArgSource::ModRMReg => arg.location == ArgLocation::RegisterValue(
                    modrm.modrm.reg,
                    size,
                ),
                ArgSource::ImmediateValue | ArgSource::JumpRel => arg.location matches ArgLocation::Immediate(
                    v,
                ) && (size.is_operand() ==> v.size() == size),
                ArgSource::ImmediateAddress => arg.location matches ArgLocation::Address(_, s) && s
                    == size,
                ArgSource::RegisterSuffix => arg.location == ArgLocation::RegisterValue(
                    bytes[0] % 8,
                    size,
                ),
                ArgSource::Literal(v) => arg.location == ArgLocation::Immediate(v),
                ArgSource::HardcodedRegister(r) => arg.location == ArgLocation::RegisterValue(
                    r,
                    size,
                ),
            }
        }),
{
    reveal(decoded_args);
}

/// The number of bytes that an argument of `source` and of width `size`
/// takes in the instruction, after the opcode byte and what belongs to the
/// Mod R/M byte: four for an address, the width for a value, else none.
pub open spec fn immediate_bytes(source: ArgSource, size: ValueSize) -> int {
    match source {
        ArgSource::ImmediateAddress => 4,
        ArgSource::ImmediateValue | ArgSource::JumpRel => if size.is_operand() {
            size.bytes() as int
        } else {
            0
        },
        _ => 0,
    }
}

/// The place in an instruction of `opcode`, counted from its opcode byte,
/// at which the bytes of its argument `n` begin: after the opcode byte,
/// what belongs to the Mod R/M byte, and the arguments before it.
pub open spec fn immediate_start(
    opcode: Opcode,
    size_override: bool,
    modrm: ParsedModRM,
    n: int,
) -> int
    decreases n,
{
    if n <= 0 {
        1 + modrm.size
    } else {
        immediate_start(opcode, size_override, modrm, n - 1) + immediate_bytes(
            opcode.arg_source@[n - 1],
            opcode.arg_size@[n - 1].fixed(size_override),
        )
    }
}

/// The number of bytes of an instruction of `opcode`, from its opcode byte on.
pub open spec fn instruction_bytes(opcode: Opcode, size_override: bool, modrm: ParsedModRM) -> int {
    immediate_start(opcode, size_override, modrm, 3)
}

/// An instruction can be decoded exactly where the bytes suffice for what
/// its opcode declares; an overrun is all that can fail. The instruction
/// then takes the opcode byte, what belongs to the Mod R/M byte, and the
/// bytes of its arguments, no more.
pub proof fn lemma_decoding_takes_what_is_declared(
    opcode: Opcode,
    bytes: Seq<u8>,
    size_override: bool,
    modrm: ParsedModRM,
)
    ensures
        decoded_args(opcode, bytes, size_override, modrm) is Ok <==> bytes.len()
            >= instruction_bytes(opcode, size_override, modrm),
        decoded_args(opcode, bytes, size_override, modrm) matches Ok((_, n)) ==> n
            == instruction_bytes(opcode, size_override, modrm),
        decoded_args(opcode, bytes, size_override, modrm) matches Err(e) ==> e
            == VMError::DecodingOverrun,
        1 + modrm.size <= instruction_bytes(opcode, size_override, modrm) <= 13 + modrm.size,
{
    reveal(decoded_args);
    reveal_with_fuel(immediate_start, 4);
}

/// The arguments that an instruction holds are read in their turn, the
/// low byte first: a value of the declared width, or the address of a
/// place of the declared width, from the bytes at which the argument begins.
pub proof fn lemma_immediates_are_read_in_turn(
    opcode: Opcode,
    bytes: Seq<u8>,
    size_override: bool,
    modrm: ParsedModRM,
    n: int,
)
    requires
        decoded_args(opcode, bytes, size_override, modrm) is Ok,
        0 <= n < 3,
    ensures
        ({
            let arg = decoded_args(opcode, bytes, size_override, modrm).unwrap().0@[n];
            let size = opcode.arg_size@[n].fixed(size_override);
            let at = immediate_start(opcode, size_override, modrm, n);
            match opcode.arg_source@[n] {
                ArgSource::ImmediateValue | ArgSource::JumpRel => arg.location
                    == ArgLocation::Immediate(
                    if size.is_operand() {
                        SizedValue::of(size, le_value(bytes.subrange(at, at + size.bytes())))
                    } else {
                        SizedValue::Empty
                    },
                ) && !arg.is_memory,
                ArgSource::ImmediateAddress => arg.location == ArgLocation::Address(
                    le_value(bytes.subrange(at, at + 4)) as u32,
                    size,
                ) && arg.is_memory,
                _ => true,
            }
        }),
{
    reveal(decoded_args);
    reveal_with_fuel(immediate_start, 4);
    let at = immediate_start(opcode, size_override, modrm, n);
    assert forall|k: int| 0 <= k && at + k <= bytes.len() implies #[trigger] bytes.skip(at).take(k)
        =~= bytes.subrange(at, at + k) by {}
}

/// Decodes one argument from the bytes at `at`.
fn decode_arg(
    source: ArgSource,
    size: ValueSize,
    opcode_byte: u8,
    modrm: &ParsedModRM,
    bytestream: &[u8],
    at: usize,
) -> (r: Result<(OpArgument, usize), VMError>)
    requires
        at <= bytestream@.len(),
    ensures
        match r {
            Ok((a, n)) => decoded_arg(source, size, opcode_byte, *modrm, bytestream@.skip(at as int))
                == Ok::<(OpArgument, int), VMError>((a, n as int)) && at + n <= bytestream@.len(),
            Err(e) => decoded_arg(source, size, opcode_byte, *modrm, bytestream@.skip(at as int))
                == Err::<(OpArgument, int), VMError>(e),
        },
        r matches Ok((a, n)) ==> (modrm.wf() && (source matches ArgSource::HardcodedRegister(h)
            ==> h < 8) ==> a.location.wf()),
        r matches Ok((a, n)) ==> a.is_memory == a.location.in_memory(),
        r matches Err(e) ==> e == VMError::DecodingOverrun,
{
    let bytes = slice_subrange(bytestream, at, bytestream.len());
    match source {
        ArgSource::Unused => Ok(
            (OpArgument { location: ArgLocation::Nowhere, is_memory: false }, 0),
        ),
        ArgSource::ModRM => {
            let sib = match modrm.sib {
                Some(s) => s,
                None => SIB { base: 0, index: 0, scale: 0 },
            };
            let disp: u32 = match modrm.disp {
                Some(d) => d,
                None => 0,
            };
            Ok((modrm.modrm.decode(&sib, disp, size), 0))
        },
        ArgSource::ModRMReg => Ok(
            (
                OpArgument {
                    location: ArgLocation::RegisterValue(modrm.modrm.reg, size),
                    is_memory: false,
                },
                0,
            ),
        ),
        ArgSource::ImmediateAddress => {
            let a = u32_from_bytes(bytes)?;
            Ok((OpArgument { location: ArgLocation::Address(a, size), is_memory: true }, 4))
        },
        ArgSource::ImmediateValue | ArgSource::JumpRel => {
            match size {
                ValueSize::Byte => {
                    let v = u8_from_bytes(bytes)?;
                    Ok(
                        (
                            OpArgument {
                                location: ArgLocation::Immediate(SizedValue::Byte(v)),
                                is_memory: false,
                            },
                            1,
                        ),
                    )
                },
                ValueSize::Word => {
                    let v = u16_from_bytes(bytes)?;
                    Ok(
                        (
                            OpArgument {
                                location: ArgLocation::Immediate(SizedValue::Word(v)),
                                is_memory: false,
                            },
                            2,
                        ),
                    )
                },
                ValueSize::Dword => {
                    let v = u32_from_bytes(bytes)?;
                    Ok(
                        (
                            OpArgument {
                                location: ArgLocation::Immediate(SizedValue::Dword(v)),
                                is_memory: false,
                            },
                            4,
                        ),
                    )
                },
                _ => Ok(
                    (
                        OpArgument {
                            location: ArgLocation::Immediate(SizedValue::Empty),
                            is_memory: false,
                        },
                        0,
                    ),
                ),
            }
        },
        ArgSource::RegisterSuffix => Ok(
            (
                OpArgument {
                    location: ArgLocation::RegisterValue(opcode_byte % 8, size),
                    is_memory: false,
                },
                0,
            ),
        ),
        ArgSource::Literal(l) => Ok(
            (OpArgument { location: ArgLocation::Immediate(l), is_memory: false }, 0),
        ),
        ArgSource::HardcodedRegister(r) => Ok(
            (OpArgument { location: ArgLocation::RegisterValue(r, size), is_memory: false }, 0),
        ),
    }
}

/// Decodes the arguments of an instruction that has no Mod R/M byte.
pub fn decode_args(
    opcode: &Opcode,
    bytestream: &[u8],
    args: &mut [OpArgument; MAX_ARGS],
    size_override: bool,
) -> (r: Result<usize, VMError>)
    ensures
        match r {
            Ok(n) => decoded_args(
                *opcode,
                bytestream@,
                size_override,
                ParsedModRM { modrm: ModRM { rm: 0, reg: 0, mode: 0 }, sib: None, disp: None, size: 0 },
            ) == Ok::<([OpArgument; MAX_ARGS], int), VMError>((*final(args), n as int)),
            Err(e) => decoded_args(
                *opcode,
                bytestream@,
                size_override,
                ParsedModRM { modrm: ModRM { rm: 0, reg: 0, mode: 0 }, sib: None, disp: None, size: 0 },
            ) == Err::<([OpArgument; MAX_ARGS], int), VMError>(e) && *final(args) == *old(args),
        },
        r matches Ok(n) ==> n <= bytestream@.len() && (opcode.wf() ==> forall|i: int|
            0 <= i < 3 ==> (#[trigger] final(args)@[i]).location.wf()),
        r matches Ok(n) ==> forall|i: int|
            0 <= i < 3 ==> (#[trigger] final(args)@[i]).is_memory == final(args)@[i].location.in_memory(),
        r matches Err(e) ==> e == VMError::DecodingOverrun,
{
    decode_args_with_modrm(opcode, bytestream, args, size_override, false, None)
}

/// Decodes the arguments of an instruction of `opcode` that starts with its
/// opcode byte at the start of `bytestream`. `parsed_modrm` holds its Mod
/// R/M bytes, where it has any. Returns the number of bytes of the
/// instruction. Where decoding fails, `args` stay as they are.
#[verifier::rlimit(30)]
pub fn decode_args_with_modrm(
    opcode: &Opcode,
    bytestream: &[u8],
    args: &mut [OpArgument; MAX_ARGS],
    size_override: bool,
    _address_override: bool,
    parsed_modrm: Option<ParsedModRM>,
) -> (r: Result<usize, VMError>)
    ensures
        match r {
            Ok(n) => decoded_args(
                *opcode,
                bytestream@,
                size_override,
                match parsed_modrm {
                    Some(p) => p,
                    None => ParsedModRM {
                        modrm: ModRM { rm: 0, reg: 0, mode: 0 },
                        sib: None,
                        disp: None,
                        size: 0,
                    },
                },
            ) == Ok::<([OpArgument; MAX_ARGS], int), VMError>((*final(args), n as int)),
            Err(e) => decoded_args(
                *opcode,
                bytestream@,
                size_override,
                match parsed_modrm {
                    Some(p) => p,
                    None => ParsedModRM {
                        modrm: ModRM { rm: 0, reg: 0, mode: 0 },
                        sib: None,
                        disp: None,
                        size: 0,
                    },
                },
            ) == Err::<([OpArgument; MAX_ARGS], int), VMError>(e) && *final(args) == *old(args),
        },
        r matches Ok(n) ==> n <= bytestream@.len() && (opcode.wf() && (parsed_modrm matches Some(p)
            ==> p.wf()) ==> forall|i: int|
            0 <= i < 3 ==> (#[trigger] final(args)@[i]).location.wf()),
        r matches Ok(n) ==> forall|i: int|
            0 <= i < 3 ==> (#[trigger] final(args)@[i]).is_memory == final(args)@[i].location.in_memory(),
        r matches Err(e) ==> e == VMError::DecodingOverrun,
{
    reveal(decoded_args);
    let modrm: ParsedModRM = match parsed_modrm {
        Some(p) => p,
        None => ParsedModRM {
            modrm: ModRM { rm: 0, reg: 0, mode: 0 },
            sib: None,
            disp: None,
            size: 0,
        },
    };
    let start: usize = 1 + modrm.size as usize;
    if bytestream.len() < start {
        return Err(VMError::DecodingOverrun);
    }
    let opcode_byte: u8 = bytestream[0];
    let (a0, n0) = decode_arg(
        opcode.arg_source[0],
        opcode.arg_size[0].to_fixed(size_override),
        opcode_byte,
        &modrm,
        bytestream,
        start,
    )?;
    let (a1, n1) = decode_arg(
        opcode.arg_source[1],
        opcode.arg_size[1].to_fixed(size_override),
        opcode_byte,
        &modrm,
        bytestream,
        start + n0,
    )?;
    let (a2, n2) = decode_arg(
        opcode.arg_source[2],
        opcode.arg_size[2].to_fixed(size_override),
        opcode_byte,
        &modrm,
        bytestream,
        start + n0 + n1,
    )?;
    *args = [a0, a1, a2];
    Ok(start + n0 + n1 + n2)
}

} // verus!
