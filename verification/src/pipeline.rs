use vstd::prelude::*;
use vstd::slice::slice_subrange;
use crate::decoding::{
    decode_args_with_modrm, decoded_args, lemma_decoding_takes_what_is_declared, ModRM,
    ParsedModRM,
};
use crate::memory::{spec_sized_memory, WRITEABLE_MEMORY};
use crate::opcodes::{entries_wf, Opcode, OpcodeFn, OpcodeProperties, PipelineBehavior};
use crate::structs::{ArgLocation, OpArgument, MAX_ARGS};
use crate::vm::{wrap32, GasCost, Machine, VMError, VM};

verus! {

/// The prefix of an instruction that repeats it.
#[derive(PartialEq, Eq, Copy, Clone, Debug)]
pub enum Repeat {
    /// There is none
    Never,
    /// 0xF3: repeat, for the comparing instructions while they find equality
    WhileEqual,
    /// 0xF2: repeat while the comparing instructions find inequality
    WhileNotEqual,
}

/// The prefixes that an instruction has.
#[derive(PartialEq, Eq, Copy, Clone, Debug)]
pub struct PrefixesActivated {
    /// 0x66: the native word is a word
    pub size_override: bool,
    /// 0x0F: the opcode is one of the second table
    pub two_bytes: bool,
    /// The last of the repeating prefixes
    pub repeat: Repeat,
}

/// The prefixes at the start of `bytes`, added to those in `sofar`, and
/// their number, added to `count`. The prefixes end with the first byte
/// that is none, or with the escape byte 0x0F, which is the last of them.
/// Where the bytes end before the prefixes do, or where there are more
/// than 255 of them, that is an overrun.
pub open spec fn prefixes_of(bytes: Seq<u8>, sofar: PrefixesActivated, count: int) -> Result<
    (PrefixesActivated, int),
    VMError,
>
    decreases bytes.len(),
{
    if bytes.len() == 0 || count >= 255 {
        Err(VMError::DecodingOverrun)
    } else if bytes[0] == 0x66 {
        prefixes_of(bytes.skip(1), PrefixesActivated { size_override: true, ..sofar }, count + 1)
    } else if bytes[0] == 0xF3 {
        prefixes_of(
            bytes.skip(1),
            PrefixesActivated { repeat: Repeat::WhileEqual, ..sofar },
            count + 1,
        )
    } else if bytes[0] == 0xF2 {
        prefixes_of(
            bytes.skip(1),
            PrefixesActivated { repeat: Repeat::WhileNotEqual, ..sofar },
            count + 1,
        )
    } else if bytes[0] == 0x0F {
        Ok((PrefixesActivated { two_bytes: true, ..sofar }, count + 1))
    } else {
        Ok((sofar, count))
    }
}

impl Default for PrefixesActivated {
    fn default() -> (r: PrefixesActivated)
        ensures
            r == (PrefixesActivated {
                size_override: false,
                two_bytes: false,
                repeat: Repeat::Never,
            }),
    {
        PrefixesActivated { size_override: false, two_bytes: false, repeat: Repeat::Never }
    }
}

impl PrefixesActivated {
    /// Takes the prefixes at the start of `buffer` in, and returns their
    /// number added to `prefix_size`.
    pub fn get_prefixes(&mut self, buffer: &[u8], prefix_size: u8) -> (r: Result<u8, VMError>)
        ensures
            match r {
                Ok(n) => prefixes_of(buffer@, *old(self), prefix_size as int) == Ok::<
                    (PrefixesActivated, int),
                    VMError,
                >((*final(self), n as int)) && n - prefix_size <= buffer@.len(),
                Err(e) => prefixes_of(buffer@, *old(self), prefix_size as int) == Err::<
                    (PrefixesActivated, int),
                    VMError,
                >(e),
            },
            r matches Err(e) ==> e == VMError::DecodingOverrun,
        decreases buffer@.len(),
    {
        if buffer.len() == 0 || prefix_size == 255 {
            return Err(VMError::DecodingOverrun);
        }
        let b: u8 = buffer[0];
        if b == 0x66 {
            self.size_override = true;
            self.get_prefixes(slice_subrange(buffer, 1, buffer.len()), prefix_size + 1)
        } else if b == 0xF3 {
            self.repeat = Repeat::WhileEqual;
            self.get_prefixes(slice_subrange(buffer, 1, buffer.len()), prefix_size + 1)
        } else if b == 0xF2 {
            self.repeat = Repeat::WhileNotEqual;
            self.get_prefixes(slice_subrange(buffer, 1, buffer.len()), prefix_size + 1)
        } else if b == 0x0F {
            self.two_bytes = true;
            Ok(prefix_size + 1)
        } else {
            Ok(prefix_size)
        }
    }
}

/// One slot of the pipeline: a decoded instruction with all that its handler needs.
#[derive(Copy, Clone, Debug)]
pub struct Pipeline {
    /// The handler of the instruction
    pub function: OpcodeFn,
    /// The decoded arguments
    pub args: [OpArgument; MAX_ARGS],
    /// What the instruction costs
    pub gas_cost: u64,
    /// The length of the instruction in bytes, prefixes included
    pub eip_size: u8,
    /// Whether an operand size prefix was present
    pub size_override: bool,
    /// The opcode byte, without prefixes
    pub opcode: u8,
}

impl Pipeline {
    /// Every register the arguments name is one of the eight.
    pub open spec fn wf(self) -> bool {
        &&& self.args@[0].location.wf()
        &&& self.args@[1].location.wf()
        &&& self.args@[2].location.wf()
    }

    /// A slot that holds no instruction: it does nothing, costs nothing and has no length.
    pub open spec fn empty() -> Pipeline {
        Pipeline {
            function: OpcodeFn::Nop,
            args: [
                OpArgument { location: ArgLocation::Nowhere, is_memory: false },
                OpArgument { location: ArgLocation::Nowhere, is_memory: false },
                OpArgument { location: ArgLocation::Nowhere, is_memory: false },
            ],
            gas_cost: 0,
            eip_size: 0,
            size_override: false,
            opcode: 0,
        }
    }

    /// A slot that holds no instruction.
    pub fn vacant() -> (r: Pipeline)
        ensures
            r == Pipeline::empty(),
            r.wf(),
    {
        Pipeline {
            function: OpcodeFn::Nop,
            args: [OpArgument::default(), OpArgument::default(), OpArgument::default()],
            gas_cost: 0,
            eip_size: 0,
            size_override: false,
            opcode: 0,
        }
    }
}

impl Default for Pipeline {
    /// A slot with one byte that does nothing.
    fn default() -> (r: Pipeline)
        ensures
            r == (Pipeline { eip_size: 1, ..Pipeline::empty() }),
            r.wf(),
    {
        Pipeline {
            function: OpcodeFn::Nop,
            args: [OpArgument::default(), OpArgument::default(), OpArgument::default()],
            gas_cost: 0,
            eip_size: 1,
            size_override: false,
            opcode: 0,
        }
    }
}

/// Every slot of a pipeline is well-formed.
pub open spec fn slots_wf(slots: Seq<Pipeline>) -> bool {
    forall|i: int| 0 <= i < slots.len() ==> (#[trigger] slots[i]).wf()
}

/// Resets every slot of the pipeline to the default slot.
pub fn clear_pipeline(pipeline: &mut [Pipeline])
    ensures
        final(pipeline)@.len() == old(pipeline)@.len(),
        forall|i: int|
            0 <= i < final(pipeline)@.len() ==> #[trigger] final(pipeline)@[i] == (Pipeline {
                eip_size: 1,
                ..Pipeline::empty()
            }),
{
    let mut n: usize = 0;
    while n < pipeline.len()
        invariant
            pipeline@.len() == old(pipeline)@.len(),
            n <= pipeline@.len(),
            forall|i: int|
                0 <= i < n ==> #[trigger] pipeline@[i] == (Pipeline {
                    eip_size: 1,
                    ..Pipeline::empty()
                }),
        decreases pipeline@.len() - n,
    {
        pipeline[n] = Pipeline::default();
        n = n + 1;
    }
}

/// The entry of the opcode table for an opcode byte, in the second table
/// where `two_bytes`. A table that is too short counts as undefined there.
pub open spec fn table_entry(
    table: Seq<OpcodeProperties>,
    opcode_byte: u8,
    two_bytes: bool,
) -> OpcodeProperties {
    let key: int = if two_bytes {
        opcode_byte + 0x100
    } else {
        opcode_byte as int
    };
    if key < table.len() {
        table[key]
    } else {
        OpcodeProperties::undefined()
    }
}

/// The number of arguments that are in memory.
pub open spec fn memory_args(args: [OpArgument; MAX_ARGS]) -> int {
    (if args@[0].is_memory {
        1int
    } else {
        0
    }) + (if args@[1].is_memory {
        1int
    } else {
        0
    }) + (if args@[2].is_memory {
        1int
    } else {
        0
    })
}

/// What an instruction costs: the tier of its opcode; a surcharge where it
/// has a Mod R/M byte; one where it is unpredictable; one for each argument
/// in memory; and one where it is executed from writeable memory. A sum
/// beyond the largest number stays at that number.
#[verifier::opaque]
pub open spec fn slot_gas(
    costs: Seq<u64>,
    entry: OpcodeProperties,
    opcode: Opcode,
    args: [OpArgument; MAX_ARGS],
    eip: u32,
) -> u64 {
    let total: int = costs[opcode.gas_cost.index()] + (if entry.has_modrm {
        costs[GasCost::ModRMSurcharge.index()] as int
    } else {
        0
    }) + (if opcode.pipeline_behavior == PipelineBehavior::Unpredictable {
        costs[GasCost::ConditionalBranch.index()] as int
    } else {
        0
    }) + memory_args(args) * costs[GasCost::MemoryAccess.index()] + (if eip >= WRITEABLE_MEMORY {
        costs[GasCost::WriteableMemoryExec.index()] as int
    } else {
        0
    });
    if total > u64::MAX {
        u64::MAX
    } else {
        total as u64
    }
}

/// The instruction that `buffer` holds, decoded for the machine `m` with
/// the opcode table `table`, and what the pipeline does after it. `eip` is
/// the address at which the instruction stands. A buffer of fewer than
/// sixteen bytes is an overrun, and so is an instruction that the buffer
/// does not hold in full.
///
/// After the prefixes comes the opcode byte. Its entry in the table says
/// whether a Mod R/M byte follows, whose `reg` field then picks the opcode
/// among the eight of the entry. The arguments follow as the opcode
/// declares them. A repeating prefix puts its own handler in the place of
/// the opcode's; before an opcode of the second table it is an encoding
/// error. An instruction of more than 255 bytes is an overrun.
#[verifier::opaque]
pub open spec fn decoded_instruction(
    costs: Seq<u64>,
    table: Seq<OpcodeProperties>,
    buffer: Seq<u8>,
    eip: u32,
) -> Result<(Pipeline, PipelineBehavior), VMError> {
    match (if buffer.len() < 16 {
        Err(VMError::DecodingOverrun)
    } else {
        prefixes_of(
            buffer,
            PrefixesActivated { size_override: false, two_bytes: false, repeat: Repeat::Never },
            0,
        )
    }) {
        Err(e) => Err(e),
        Ok((prefixes, prefix_size)) => {
            let rest = buffer.skip(prefix_size);
            if rest.len() == 0 {
                Err(VMError::DecodingOverrun)
            } else {
                let entry = table_entry(table, rest[0], prefixes.two_bytes);
                match (if entry.has_modrm {
                    ParsedModRM::parsed(rest)
                } else {
                    Ok(
                        ParsedModRM {
                            modrm: ModRM { rm: 0, reg: 0, mode: 0 },
                            sib: None,
                            disp: None,
                            size: 0,
                        },
                    )
                }) {
                    Err(e) => Err(e),
                    Ok(modrm) => {
                        let opcode = entry.opcodes@[modrm.modrm.reg as int];
                        match decoded_args(opcode, rest, prefixes.size_override, modrm) {
                            Err(e) => Err(e),
                            Ok((args, size)) => if size + prefix_size > 255 {
                                Err(VMError::DecodingOverrun)
                            } else if prefixes.repeat != Repeat::Never && prefixes.two_bytes {
                                Err(VMError::InvalidOpcodeEncoding)
                            } else {
                                Ok(
                                    (
                                        Pipeline {
                                            function: match prefixes.repeat {
                                                Repeat::Never => opcode.function,
                                                Repeat::WhileEqual => OpcodeFn::Repe,
                                                Repeat::WhileNotEqual => OpcodeFn::Repne,
                                            },
                                            args: args,
                                            gas_cost: slot_gas(costs, entry, opcode, args, eip),
                                            eip_size: (size + prefix_size) as u8,
                                            size_override: prefixes.size_override,
                                            opcode: rest[0],
                                        },
                                        opcode.pipeline_behavior,
                                    ),
                                )
                            },
                        }
                    },
                }
            }
        },
    }
}

/// What the instruction in a slot costs.
fn gas_of_slot(
    vm: &VM,
    entry: &OpcodeProperties,
    opcode: &Opcode,
    args: &[OpArgument; MAX_ARGS],
    eip: u32,
) -> (r: u64)
    ensures
        r == slot_gas(vm@.costs, *entry, *opcode, *args, eip),
{
    reveal(slot_gas);
    let mut gas_cost: u64 = vm.charger.cost(opcode.gas_cost);
    if entry.has_modrm {
        gas_cost = gas_cost.saturating_add(vm.charger.cost(GasCost::ModRMSurcharge));
    }
    match opcode.pipeline_behavior {
        PipelineBehavior::Unpredictable => {
            gas_cost = gas_cost.saturating_add(vm.charger.cost(GasCost::ConditionalBranch));
        },
        _ => {},
    }
    let memory_access: u64 = vm.charger.cost(GasCost::MemoryAccess);
    if args[0].is_memory {
        gas_cost = gas_cost.saturating_add(memory_access);
    }
    if args[1].is_memory {
        gas_cost = gas_cost.saturating_add(memory_access);
    }
    if args[2].is_memory {
        gas_cost = gas_cost.saturating_add(memory_access);
    }
    if eip >= WRITEABLE_MEMORY {
        gas_cost = gas_cost.saturating_add(vm.charger.cost(GasCost::WriteableMemoryExec));
    }
    proof {
        assert(memory_args(*args) * vm@.costs[GasCost::MemoryAccess.index()] == (if args@[0].is_memory {
            memory_access as int
        } else {
            0
        }) + (if args@[1].is_memory {
            memory_access as int
        } else {
            0
        }) + (if args@[2].is_memory {
            memory_access as int
        } else {
            0
        })) by (nonlinear_arith)
            requires
                0 <= memory_args(*args) <= 3,
                memory_args(*args) == (if args@[0].is_memory {
                    1int
                } else {
                    0
                }) + (if args@[1].is_memory {
                    1int
                } else {
                    0
                }) + (if args@[2].is_memory {
                    1int
                } else {
                    0
                }),
                vm@.costs[GasCost::MemoryAccess.index()] == memory_access,
        ;
    }
    gas_cost
}

/// Decodes the instruction at the start of `buffer`, which stands at `eip`.
#[verifier::rlimit(30)]
pub fn decode_instruction(vm: &VM, opcodes: &[OpcodeProperties], buffer: &[u8], eip: u32) -> (r:
    Result<(Pipeline, PipelineBehavior), VMError>)
    ensures
        r == decoded_instruction(vm@.costs, opcodes@, buffer@, eip),
        r matches Ok((p, _)) ==> (entries_wf(opcodes@) ==> p.wf()),
        r matches Err(e) ==> e == VMError::DecodingOverrun || e == VMError::InvalidOpcodeEncoding,
{
    reveal(decoded_instruction);
    if buffer.len() < 16 {
        return Err(VMError::DecodingOverrun);
    }
    let mut prefixes = PrefixesActivated::default();
    let prefix_size: u8 = prefixes.get_prefixes(buffer, 0)?;
    let rest = slice_subrange(buffer, prefix_size as usize, buffer.len());
    if rest.len() == 0 {
        return Err(VMError::DecodingOverrun);
    }
    let opcode_byte: u8 = rest[0];
    let key: usize = if prefixes.two_bytes {
        opcode_byte as usize + 0x100
    } else {
        opcode_byte as usize
    };
    let entry: OpcodeProperties = if key < opcodes.len() {
        opcodes[key]
    } else {
        OpcodeProperties::default()
    };
    let mut modrm: Option<ParsedModRM> = None;
    let mut reg: usize = 0;
    if entry.has_modrm {
        let parsed = ParsedModRM::from_bytes(rest)?;
        reg = parsed.modrm.reg as usize;
        modrm = Some(parsed);
    }
    let opcode: Opcode = entry.opcodes[reg];
    let mut args: [OpArgument; MAX_ARGS] = [
        OpArgument::default(),
        OpArgument::default(),
        OpArgument::default(),
    ];
    let size: usize = decode_args_with_modrm(
        &opcode,
        rest,
        &mut args,
        prefixes.size_override,
        false,
        modrm,
    )?;
    if size > 255 - prefix_size as usize {
        return Err(VMError::DecodingOverrun);
    }
    let function: OpcodeFn = match prefixes.repeat {
        Repeat::Never => opcode.function,
        Repeat::WhileEqual => {
            if prefixes.two_bytes {
                return Err(VMError::InvalidOpcodeEncoding);
            }
            OpcodeFn::Repe
        },
        Repeat::WhileNotEqual => {
            if prefixes.two_bytes {
                return Err(VMError::InvalidOpcodeEncoding);
            }
            OpcodeFn::Repne
        },
    };
    let gas_cost: u64 = gas_of_slot(vm, &entry, &opcode, &args, eip);
    let slot = Pipeline {
        function: function,
        args: args,
        gas_cost: gas_cost,
        eip_size: (size + prefix_size as usize) as u8,
        size_override: prefixes.size_override,
        opcode: opcode_byte,
    };
    Ok((slot, opcode.pipeline_behavior))
}

/// What the slots hold after the pipeline was filled from slot `at` on
/// with the instructions from `eip` on, with `gas` left to spend, and
/// whether filling succeeded. Once `stop` is set, the slots are emptied.
/// It is set after an instruction that is not followed by the next one in
/// memory for certain, before an instruction in writeable memory, which
/// those before it may yet change, and when the instructions so far use up
/// the gas. Each instruction is decoded from the sixteen bytes at its
/// address. Where one cannot be fetched or decoded, filling fails and the
/// slots from that one on stay as they are.
pub open spec fn filling(
    m: Machine,
    table: Seq<OpcodeProperties>,
    eip: u32,
    gas: u64,
    stop: bool,
    slots: Seq<Pipeline>,
    at: int,
) -> (Seq<Pipeline>, Result<(), VMError>)
    decreases slots.len() - at,
{
    if at < 0 || at >= slots.len() {
        (slots, Ok(()))
    } else if stop {
        filling(m, table, eip, gas, true, slots.update(at, Pipeline::empty()), at + 1)
    } else {
        match spec_sized_memory(m.memory, eip, 16, false) {
            Err(e) => (slots, Err(e)),
            Ok(buffer) => match decoded_instruction(m.costs, table, buffer, eip) {
                Err(e) => (slots, Err(e)),
                Ok((slot, behavior)) => filling(
                    m,
                    table,
                    wrap32(eip + slot.eip_size),
                    if gas >= slot.gas_cost {
                        (gas - slot.gas_cost) as u64
                    } else {
                        0
                    },
                    behavior != PipelineBehavior::Sequential || wrap32(eip + slot.eip_size)
                        >= WRITEABLE_MEMORY || gas <= slot.gas_cost,
                    slots.update(at, slot),
                    at + 1,
                ),
            },
        }
    }
}

/// What the slots of a pipeline hold after it was filled for the machine
/// `m`, and whether filling succeeded.
pub open spec fn filled(m: Machine, table: Seq<OpcodeProperties>, slots: Seq<Pipeline>) -> (
    Seq<Pipeline>,
    Result<(), VMError>,
) {
    filling(m, table, m.eip, m.gas_remaining, false, slots, 0)
}

/// Reading the prefixes fails only with an overrun.
proof fn lemma_prefix_failures(bytes: Seq<u8>, sofar: PrefixesActivated, count: int)
    ensures
        prefixes_of(bytes, sofar, count) matches Err(e) ==> e == VMError::DecodingOverrun,
    decreases bytes.len(),
{
    if bytes.len() > 0 && count < 255 {
        if bytes[0] == 0x66 {
            lemma_prefix_failures(
                bytes.skip(1),
                PrefixesActivated { size_override: true, ..sofar },
                count + 1,
            );
        } else if bytes[0] == 0xF3 {
            lemma_prefix_failures(
                bytes.skip(1),
                PrefixesActivated { repeat: Repeat::WhileEqual, ..sofar },
                count + 1,
            );
        } else if bytes[0] == 0xF2 {
            lemma_prefix_failures(
                bytes.skip(1),
                PrefixesActivated { repeat: Repeat::WhileNotEqual, ..sofar },
                count + 1,
            );
        }
    }
}

/// Decoding an instruction fails only with an overrun or, for a repeating
/// prefix before an opcode of the second table, with an encoding error.
pub proof fn lemma_decoding_failures(
    costs: Seq<u64>,
    table: Seq<OpcodeProperties>,
    buffer: Seq<u8>,
    eip: u32,
)
    ensures
        decoded_instruction(costs, table, buffer, eip) matches Err(e) ==> e
            == VMError::DecodingOverrun || e == VMError::InvalidOpcodeEncoding,
{
    reveal(decoded_instruction);
    reveal(ParsedModRM::parsed);
    lemma_prefix_failures(
        buffer,
        PrefixesActivated { size_override: false, two_bytes: false, repeat: Repeat::Never },
        0,
    );
    assert forall|opcode: Opcode, bytes: Seq<u8>, size_override: bool, modrm: ParsedModRM|
        (#[trigger] decoded_args(opcode, bytes, size_override, modrm)) is Err implies decoded_args(
        opcode,
        bytes,
        size_override,
        modrm,
    ) == Err::<([OpArgument; MAX_ARGS], int), VMError>(VMError::DecodingOverrun) by {
        lemma_decoding_takes_what_is_declared(opcode, bytes, size_override, modrm);
    }
}

/// Filling fails only where an instruction cannot be fetched or decoded.
proof fn lemma_filling_failures(
    m: Machine,
    table: Seq<OpcodeProperties>,
    eip: u32,
    gas: u64,
    stop: bool,
    slots: Seq<Pipeline>,
    at: int,
)
    ensures
        filling(m, table, eip, gas, stop, slots, at).1 matches Err(e) ==> e is ReadUnloadedMemory
            || e is ReadBadMemory || e == VMError::DecodingOverrun || e
            == VMError::InvalidOpcodeEncoding,
    decreases slots.len() - at,
{
    if 0 <= at < slots.len() {
        if stop {
            lemma_filling_failures(
                m,
                table,
                eip,
                gas,
                true,
                slots.update(at, Pipeline::empty()),
                at + 1,
            );
        } else {
            match spec_sized_memory(m.memory, eip, 16, false) {
                Err(_) => {},
                Ok(buffer) => {
                    lemma_decoding_failures(m.costs, table, buffer, eip);
                    match decoded_instruction(m.costs, table, buffer, eip) {
                        Err(_) => {},
                        Ok((slot, behavior)) => {
                            lemma_filling_failures(
                                m,
                                table,
                                wrap32(eip + slot.eip_size),
                                if gas >= slot.gas_cost {
                                    (gas - slot.gas_cost) as u64
                                } else {
                                    0
                                },
                                behavior != PipelineBehavior::Sequential || wrap32(
                                    eip + slot.eip_size,
                                ) >= WRITEABLE_MEMORY || gas <= slot.gas_cost,
                                slots.update(at, slot),
                                at + 1,
                            );
                        },
                    }
                },
            }
        }
    }
}

/// Filling the pipeline fails only where an instruction cannot be
/// fetched, for want of memory at its address, or cannot be decoded.
pub proof fn lemma_filling_fails_on_fetch_or_decode(
    m: Machine,
    table: Seq<OpcodeProperties>,
    slots: Seq<Pipeline>,
)
    ensures
        filled(m, table, slots).1 matches Err(e) ==> e is ReadUnloadedMemory || e is ReadBadMemory
            || e == VMError::DecodingOverrun || e == VMError::InvalidOpcodeEncoding,
{
    lemma_filling_failures(m, table, m.eip, m.gas_remaining, false, slots, 0);
}

/// Fills every slot of the pipeline with the instructions that the machine
/// executes next, from its instruction pointer on and as far as they can
/// be told, and the slots after them with empty ones. Where an instruction
/// cannot be fetched or decoded, filling fails.
#[verifier::rlimit(30)]
pub fn fill_pipeline(vm: &VM, opcodes: &[OpcodeProperties], pipeline: &mut [Pipeline]) -> (r:
    Result<(), VMError>)
    ensures
        (final(pipeline)@, r) == filled(vm@, opcodes@, old(pipeline)@),
        final(pipeline)@.len() == old(pipeline)@.len(),
        r is Ok && entries_wf(opcodes@)
            ==> slots_wf(final(pipeline)@),
        r matches Err(e) ==> e != VMError::InternalVMStop,
{
    let mut eip: u32 = vm.eip;
    let mut stop_filling: bool = false;
    let mut running_gas: u64 = vm.gas_remaining;
    let mut n: usize = 0;
    while n < pipeline.len()
        invariant
            pipeline@.len() == old(pipeline)@.len(),
            n <= pipeline@.len(),
            filled(vm@, opcodes@, old(pipeline)@) == filling(
                vm@,
                opcodes@,
                eip,
                running_gas,
                stop_filling,
                pipeline@,
                n as int,
            ),
            entries_wf(opcodes@)
                ==> forall|i: int| 0 <= i < n ==> (#[trigger] pipeline@[i]).wf(),
        decreases pipeline@.len() - n,
    {
        if stop_filling {
            pipeline[n] = Pipeline::vacant();
        } else {
            let buffer = vm.memory.get_sized_memory(eip, 16)?;
            let (slot, behavior) = decode_instruction(vm, opcodes, buffer, eip)?;
            pipeline[n] = slot;
            let next_eip: u32 = eip.wrapping_add(slot.eip_size as u32);
            let next_gas: u64 = running_gas.saturating_sub(slot.gas_cost);
            assert(next_eip == wrap32(eip + slot.eip_size));
            stop_filling = match behavior {
                PipelineBehavior::Sequential => next_eip >= WRITEABLE_MEMORY || next_gas == 0,
                _ => true,
            };
            eip = next_eip;
            running_gas = next_gas;
        }
        n = n + 1;
    }
    Ok(())
}

} // verus!
