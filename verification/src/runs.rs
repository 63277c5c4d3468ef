use vstd::prelude::*;
use crate::opcodes::{OpcodeFn, OpcodeProperties};
use crate::ops::{handler_effect, interrupt_number, lemma_handler_gas};
use crate::pipeline::{filled, lemma_filling_fails_on_fetch_or_decode, Pipeline};
use crate::vm::{
    concluded, cycle_effect, execution, lemma_run_slots_gas, paid, run_slots, slots_cost, Machine,
    Progress, VMError,
};

verus! {

/// The machine after a slot, where the cycle goes on with the slot that
/// follows it: the gas suffices for the slot, it raises no interrupt, and
/// its handler succeeds. There is none where the cycle ends with the slot.
pub open spec fn passed(m: Machine, slot: Pipeline) -> Option<Machine> {
    if m.gas_remaining < slot.gas_cost {
        None
    } else if slot.function == OpcodeFn::Interrupt && interrupt_number(paid(m, slot), slot) is Ok {
        None
    } else {
        match concluded(
            handler_effect(paid(m, slot), slot).0,
            slot,
            handler_effect(paid(m, slot), slot).1,
        ) {
            (after, None) => Some(after),
            (_, Some(_)) => None,
        }
    }
}

/// Where the execution of the slots from `from` on ends: the first slot
/// after which the cycle does not go on, with the machine as it is before
/// that slot; after the last slot, where the cycle goes on after each.
pub open spec fn reached(m: Machine, slots: Seq<Pipeline>, from: int) -> (Machine, int)
    decreases slots.len() - from,
{
    if from < 0 || from >= slots.len() {
        (m, from)
    } else {
        match passed(m, slots[from]) {
            Some(after) => reached(after, slots, from + 1),
            None => (m, from),
        }
    }
}

/// A run can be taken apart: where the slots from `from` up to `to` are
/// all executed and the cycle goes on after each, the slots from `from` on
/// do what the slots from `to` on do to the machine that those have left.
pub proof fn lemma_run_in_two_parts(m: Machine, slots: Seq<Pipeline>, from: int, to: int)
    requires
        0 <= from <= to <= slots.len(),
        run_slots(m, slots.take(to), from).1 == Progress::Ended(Ok(false)),
    ensures
        run_slots(m, slots, from) == run_slots(run_slots(m, slots.take(to), from).0, slots, to),
        reached(m, slots, from) == reached(run_slots(m, slots.take(to), from).0, slots, to),
    decreases to - from,
{
    if from < to {
        assert(slots.take(to)[from] == slots[from]);
        match passed(m, slots[from]) {
            Some(after) => {
                lemma_run_in_two_parts(after, slots, from + 1, to);
            },
            None => {},
        }
    }
}

/// Every run ends where `reached` says: the slots before that one are all
/// executed, the cycle going on after each, and leave the machine that
/// `reached` gives; the cycle does not go on after that slot; and the
/// cycle ends with `false` exactly where there is no such slot.
pub proof fn lemma_run_reaches(m: Machine, slots: Seq<Pipeline>, from: int)
    requires
        0 <= from <= slots.len(),
    ensures
        from <= reached(m, slots, from).1 <= slots.len(),
        run_slots(m, slots.take(reached(m, slots, from).1), from) == (
            reached(m, slots, from).0,
            Progress::Ended(Ok(false)),
        ),
        run_slots(m, slots, from) == run_slots(
            reached(m, slots, from).0,
            slots,
            reached(m, slots, from).1,
        ),
        reached(m, slots, from).1 < slots.len() ==> passed(
            reached(m, slots, from).0,
            slots[reached(m, slots, from).1],
        ) is None,
        reached(m, slots, from).1 == slots.len() <==> run_slots(m, slots, from).1
            == Progress::Ended(Ok(false)),
    decreases slots.len() - from,
{
    if from < slots.len() {
        match passed(m, slots[from]) {
            Some(after) => {
                lemma_run_reaches(after, slots, from + 1);
                let to = reached(m, slots, from).1;
                assert(slots.take(to)[from] == slots[from]);
            },
            None => {
                assert(slots.take(from).len() == from);
            },
        }
    } else {
        assert(slots.take(from).len() == from);
    }
}

/// The sum of the costs of the slots from `from` up to and with `to` is
/// that of the slots before `to` and the cost of the slot `to`.
pub proof fn lemma_slots_cost_grows(slots: Seq<Pipeline>, from: int, to: int)
    requires
        0 <= from <= to < slots.len(),
    ensures
        slots_cost(slots.take(to + 1), from) == slots_cost(slots.take(to), from)
            + slots[to].gas_cost,
    decreases to - from,
{
    if from < to {
        lemma_slots_cost_grows(slots, from + 1, to);
        assert(slots.take(to + 1)[from] == slots.take(to)[from]);
    } else {
        assert(slots.take(to + 1)[to] == slots[to]);
        assert(slots_cost(slots.take(to + 1), to + 1) == 0);
        assert(slots_cost(slots.take(to), to) == 0);
    }
}

/// A cycle costs what its slots cost. Where none of the slots is a
/// repeated string instruction, whose steps are charged one by one, the
/// gas is less by the sum of the costs of the slots before the one at
/// which the cycle ends when that one is reached. Where the gas then
/// suffices for that slot, its cost is taken too, and that is all the
/// cycle has cost; where it does not, the cycle ends with `OutOfGas` and
/// no gas is left.
pub proof fn lemma_run_charges_its_slots(m: Machine, slots: Seq<Pipeline>, from: int)
    requires
        0 <= from <= slots.len(),
        forall|i: int|
            from <= i < slots.len() ==> (#[trigger] slots[i]).function != OpcodeFn::Repe
                && slots[i].function != OpcodeFn::Repne,
    ensures
        ({
            let (before, to) = reached(m, slots, from);
            let after = run_slots(m, slots, from);
            &&& before.gas_remaining == m.gas_remaining - slots_cost(slots.take(to), from)
            &&& to == slots.len() ==> after.0.gas_remaining == before.gas_remaining
            &&& to < slots.len() && before.gas_remaining >= slots[to].gas_cost
                ==> after.0.gas_remaining == m.gas_remaining - slots_cost(
                slots.take(to + 1),
                from,
            )
            &&& to < slots.len() && before.gas_remaining < slots[to].gas_cost
                ==> after.0.gas_remaining == 0 && after.1 == Progress::Ended(
                Err(VMError::OutOfGas),
            )
        }),
{
    let (before, to) = reached(m, slots, from);
    lemma_run_reaches(m, slots, from);
    lemma_run_slots_gas(m, slots.take(to), from);
    assert forall|i: int| from <= i < slots.take(to).len() implies (#[trigger] slots.take(
        to,
    )[i]).function != OpcodeFn::Repe && slots.take(to)[i].function != OpcodeFn::Repne by {
        assert(slots.take(to)[i] == slots[i]);
    }
    if to < slots.len() {
        lemma_slots_cost_grows(slots, from, to);
        if before.gas_remaining >= slots[to].gas_cost {
            lemma_handler_gas(paid(before, slots[to]), slots[to]);
        }
    }
}

/// No slot is executed on credit: where none of the slots is a repeated
/// string instruction, each slot before the one at which the cycle ends
/// was executed when the gas left by those before it sufficed for its cost.
pub proof fn lemma_each_slot_was_paid(m: Machine, slots: Seq<Pipeline>, from: int, slot: int)
    requires
        0 <= from <= slot < reached(m, slots, from).1,
        slot < slots.len(),
        forall|i: int|
            from <= i < slots.len() ==> (#[trigger] slots[i]).function != OpcodeFn::Repe
                && slots[i].function != OpcodeFn::Repne,
    ensures
        m.gas_remaining - slots_cost(slots.take(slot), from) >= slots[slot].gas_cost,
    decreases slot - from,
{
    if from < slot {
        lemma_handler_gas(paid(m, slots[from]), slots[from]);
        assert(slots.take(slot)[from] == slots[from]);
        lemma_each_slot_was_paid(passed(m, slots[from]).unwrap(), slots, from + 1, slot);
    } else {
        assert(slots_cost(slots.take(slot), slot) == 0);
    }
}

/// Serving an interrupt refunds no gas, unless the hypervisor does.
/// Where the slots from `from` on reach an interrupt and the hypervisor
/// leaves the machine `served` with no more gas than it has found, then
/// whatever it answers, neither the end of that slot nor the slots after
/// it leave more gas than there was before the slot `from`.
pub proof fn lemma_interrupt_keeps_gas(
    m: Machine,
    slots: Seq<Pipeline>,
    from: int,
    served: Machine,
    answer: Result<(), VMError>,
)
    requires
        0 <= from,
        run_slots(m, slots, from).1 is Interrupt,
        served.gas_remaining <= run_slots(m, slots, from).0.gas_remaining,
    ensures
        ({
            let slot = run_slots(m, slots, from).1->slot as int;
            let after = concluded(served, slots[slot], answer).0;
            &&& after.gas_remaining <= m.gas_remaining
            &&& run_slots(after, slots, slot + 1).0.gas_remaining <= m.gas_remaining
        }),
{
    let slot = run_slots(m, slots, from).1->slot as int;
    lemma_run_slots_gas(m, slots, from);
    lemma_run_slots_gas(concluded(served, slots[slot], answer).0, slots, slot + 1);
}

/// Running out of gas is atomic over a whole cycle: where the cycle ends
/// with `OutOfGas`, it does so at a slot for which the gas does not
/// suffice, and then no gas is left and all else is as the slots before it
/// have left it, the instruction pointer at that instruction; or in a
/// repeated string instruction, which ran out of gas itself and keeps the
/// steps it has done.
pub proof fn lemma_out_of_gas_ends_a_run(m: Machine, slots: Seq<Pipeline>, from: int)
    requires
        0 <= from <= slots.len(),
        run_slots(m, slots, from).1 == Progress::Ended(Err(VMError::OutOfGas)),
    ensures
        ({
            let (before, to) = reached(m, slots, from);
            &&& from <= to < slots.len()
            &&& run_slots(m, slots.take(to), from) == (before, Progress::Ended(Ok(false)))
            &&& before.gas_remaining < slots[to].gas_cost ==> run_slots(m, slots, from).0 == (Machine {
                gas_remaining: 0,
                ..before
            })
            &&& before.gas_remaining >= slots[to].gas_cost ==> (slots[to].function
                == OpcodeFn::Repe || slots[to].function == OpcodeFn::Repne) && handler_effect(
                paid(before, slots[to]),
                slots[to],
            ).1 == Err::<(), VMError>(VMError::OutOfGas)
        }),
{
    let (before, to) = reached(m, slots, from);
    lemma_run_reaches(m, slots, from);
    lemma_handler_gas(paid(before, slots[to]), slots[to]);
}

/// Only `hlt` halts: where the cycle ends with `true`, it does so at a
/// slot with `hlt` for which the gas has sufficed; the `hlt` is paid, and
/// all else is as the slots before it have left it, the instruction
/// pointer at the `hlt`.
pub proof fn lemma_halt_ends_a_run(m: Machine, slots: Seq<Pipeline>, from: int)
    requires
        0 <= from <= slots.len(),
        run_slots(m, slots, from).1 == Progress::Ended(Ok(true)),
    ensures
        ({
            let (before, to) = reached(m, slots, from);
            &&& from <= to < slots.len()
            &&& run_slots(m, slots.take(to), from) == (before, Progress::Ended(Ok(false)))
            &&& slots[to].function == OpcodeFn::Hlt
            &&& before.gas_remaining >= slots[to].gas_cost
            &&& run_slots(m, slots, from).0 == paid(before, slots[to])
        }),
{
    let (before, to) = reached(m, slots, from);
    lemma_run_reaches(m, slots, from);
    lemma_handler_gas(paid(before, slots[to]), slots[to]);
}

/// The first slot for which the gas does not suffice ends the cycle:
/// where the slots before `to` are all executed, the cycle going on after
/// each, and the gas they leave is less than the cost of the slot `to`,
/// the cycle ends with `OutOfGas`; no gas is left, and all else is as
/// those slots have left it.
pub proof fn lemma_run_out_of_gas(m: Machine, slots: Seq<Pipeline>, from: int, to: int)
    requires
        0 <= from <= to < slots.len(),
        run_slots(m, slots.take(to), from).1 == Progress::Ended(Ok(false)),
        run_slots(m, slots.take(to), from).0.gas_remaining < slots[to].gas_cost,
    ensures
        run_slots(m, slots, from) == (
            Machine { gas_remaining: 0, ..run_slots(m, slots.take(to), from).0 },
            Progress::Ended(Err(VMError::OutOfGas)),
        ),
{
    lemma_run_in_two_parts(m, slots, from, to);
}

/// `hlt` halts cleanly over a whole cycle: where the slots before `to`
/// are all executed, the cycle going on after each, and the gas they
/// leave suffices for the slot `to`, which holds a `hlt`, the cycle ends
/// with `true`; the `hlt` is paid, and all else is as those slots have
/// left it, the instruction pointer at the `hlt`.
pub proof fn lemma_run_halts(m: Machine, slots: Seq<Pipeline>, from: int, to: int)
    requires
        0 <= from <= to < slots.len(),
        run_slots(m, slots.take(to), from).1 == Progress::Ended(Ok(false)),
        run_slots(m, slots.take(to), from).0.gas_remaining >= slots[to].gas_cost,
        slots[to].function == OpcodeFn::Hlt,
    ensures
        run_slots(m, slots, from) == (
            paid(run_slots(m, slots.take(to), from).0, slots[to]),
            Progress::Ended(Ok(true)),
        ),
{
    lemma_run_in_two_parts(m, slots, from, to);
}

/// The machine and the pipeline after `cycles` cycles, where each of them
/// has used up its slots.
pub open spec fn after_cycles(
    m: Machine,
    table: Seq<OpcodeProperties>,
    slots: Seq<Pipeline>,
    cycles: nat,
) -> (Machine, Seq<Pipeline>)
    decreases cycles,
{
    if cycles == 0 {
        (m, slots)
    } else {
        after_cycles(
            cycle_effect(m, table, slots).0,
            table,
            filled(m, table, slots).0,
            (cycles - 1) as nat,
        )
    }
}

/// The number of cycles, of no more than `cycles`, that use up their
/// slots before one ends with a halt, with a failure or at an interrupt.
pub open spec fn full_cycles(
    m: Machine,
    table: Seq<OpcodeProperties>,
    slots: Seq<Pipeline>,
    cycles: nat,
) -> nat
    decreases cycles,
{
    if cycles == 0 || cycle_effect(m, table, slots).1 != Progress::Ended(Ok(false)) {
        0
    } else {
        1 + full_cycles(
            cycle_effect(m, table, slots).0,
            table,
            filled(m, table, slots).0,
            (cycles - 1) as nat,
        )
    }
}

/// An execution can be taken apart: where `first` cycles each use up
/// their slots, `first + more` cycles do what `more` cycles do to the
/// machine and the pipeline that those have left.
pub proof fn lemma_execution_in_two_parts(
    m: Machine,
    table: Seq<OpcodeProperties>,
    slots: Seq<Pipeline>,
    first: nat,
    more: nat,
)
    requires
        execution(m, table, slots, first).1 == Progress::Ended(Ok(false)),
    ensures
        execution(m, table, slots, first).0 == after_cycles(m, table, slots, first).0,
        execution(m, table, slots, first + more) == execution(
            after_cycles(m, table, slots, first).0,
            table,
            after_cycles(m, table, slots, first).1,
            more,
        ),
    decreases first,
{
    if first > 0 {
        lemma_execution_in_two_parts(
            cycle_effect(m, table, slots).0,
            table,
            filled(m, table, slots).0,
            (first - 1) as nat,
            more,
        );
    }
}

/// Every execution ends with its last cycle: the cycles before it, as
/// many as `full_cycles` says, each use up their slots; where they are
/// fewer than `cycles`, the execution ends as the cycle after them does,
/// and else with `false`.
pub proof fn lemma_execution_reaches(
    m: Machine,
    table: Seq<OpcodeProperties>,
    slots: Seq<Pipeline>,
    cycles: nat,
)
    ensures
        full_cycles(m, table, slots, cycles) <= cycles,
        execution(m, table, slots, full_cycles(m, table, slots, cycles)) == (
            after_cycles(m, table, slots, full_cycles(m, table, slots, cycles)).0,
            Progress::Ended(Ok(false)),
        ),
        full_cycles(m, table, slots, cycles) == cycles <==> execution(m, table, slots, cycles).1
            == Progress::Ended(Ok(false)),
        full_cycles(m, table, slots, cycles) < cycles ==> execution(m, table, slots, cycles)
            == cycle_effect(
            after_cycles(m, table, slots, full_cycles(m, table, slots, cycles)).0,
            table,
            after_cycles(m, table, slots, full_cycles(m, table, slots, cycles)).1,
        ),
    decreases cycles,
{
    if cycles > 0 && cycle_effect(m, table, slots).1 == Progress::Ended(Ok(false)) {
        lemma_execution_reaches(
            cycle_effect(m, table, slots).0,
            table,
            filled(m, table, slots).0,
            (cycles - 1) as nat,
        );
    }
}

/// Running out of gas is atomic over a whole execution. Where it ends
/// with `OutOfGas`, the cycles before the last have each used up their
/// slots, and the last ends at a slot for which the gas does not suffice:
/// then no gas is left, and all else is as the instructions before that
/// one have left it, the instruction pointer at that instruction, from
/// which execution goes on once there is gas again. Or it ends in a
/// repeated string instruction, which ran out of gas itself and keeps the
/// steps it has done.
pub proof fn lemma_execution_out_of_gas(
    m: Machine,
    table: Seq<OpcodeProperties>,
    slots: Seq<Pipeline>,
    cycles: nat,
)
    requires
        execution(m, table, slots, cycles).1 == Progress::Ended(Err(VMError::OutOfGas)),
    ensures
        ({
            let cycle = full_cycles(m, table, slots, cycles);
            let (start, pipeline) = after_cycles(m, table, slots, cycle);
            let filling = filled(start, table, pipeline);
            let (before, to) = reached(start, filling.0, 0);
            &&& cycle < cycles
            &&& execution(m, table, slots, cycle) == (start, Progress::Ended(Ok(false)))
            &&& filling.1 is Ok
            &&& 0 <= to < filling.0.len()
            &&& run_slots(start, filling.0.take(to), 0) == (before, Progress::Ended(Ok(false)))
            &&& before.gas_remaining < filling.0[to].gas_cost ==> execution(
                m,
                table,
                slots,
                cycles,
            ).0 == (Machine { gas_remaining: 0, ..before })
            &&& before.gas_remaining >= filling.0[to].gas_cost ==> (filling.0[to].function
                == OpcodeFn::Repe || filling.0[to].function == OpcodeFn::Repne)
                && handler_effect(paid(before, filling.0[to]), filling.0[to]).1 == Err::<
                (),
                VMError,
            >(VMError::OutOfGas)
        }),
{
    let cycle = full_cycles(m, table, slots, cycles);
    let (start, pipeline) = after_cycles(m, table, slots, cycle);
    lemma_execution_reaches(m, table, slots, cycles);
    lemma_filling_fails_on_fetch_or_decode(start, table, pipeline);
    lemma_out_of_gas_ends_a_run(start, filled(start, table, pipeline).0, 0);
}

/// Only `hlt` halts an execution. Where it ends with `true`, the cycles
/// before the last have each used up their slots, and the last ends at a
/// `hlt` for which the gas has sufficed: the `hlt` is paid, and all else
/// is as the instructions before it have left it, the instruction pointer
/// at the `hlt`.
pub proof fn lemma_execution_halt(
    m: Machine,
    table: Seq<OpcodeProperties>,
    slots: Seq<Pipeline>,
    cycles: nat,
)
    requires
        execution(m, table, slots, cycles).1 == Progress::Ended(Ok(true)),
    ensures
        ({
            let cycle = full_cycles(m, table, slots, cycles);
            let (start, pipeline) = after_cycles(m, table, slots, cycle);
            let filling = filled(start, table, pipeline);
            let (before, to) = reached(start, filling.0, 0);
            &&& cycle < cycles
            &&& execution(m, table, slots, cycle) == (start, Progress::Ended(Ok(false)))
            &&& filling.1 is Ok
            &&& 0 <= to < filling.0.len()
            &&& run_slots(start, filling.0.take(to), 0) == (before, Progress::Ended(Ok(false)))
            &&& filling.0[to].function == OpcodeFn::Hlt
            &&& before.gas_remaining >= filling.0[to].gas_cost
            &&& execution(m, table, slots, cycles).0 == paid(before, filling.0[to])
            &&& execution(m, table, slots, cycles).0.eip == before.eip
        }),
{
    let cycle = full_cycles(m, table, slots, cycles);
    let (start, pipeline) = after_cycles(m, table, slots, cycle);
    lemma_execution_reaches(m, table, slots, cycles);
    lemma_halt_ends_a_run(start, filled(start, table, pipeline).0, 0);
}

/// `hlt` halts cleanly over a whole execution. Where `first` cycles have
/// each used up their slots, and in the cycle after them the instructions
/// before a `hlt` are all executed and the gas they leave suffices for
/// it, the execution ends with `true`; the `hlt` is paid, and all else is
/// as those instructions have left it, the instruction pointer at the `hlt`.
pub proof fn lemma_execution_halts(
    m: Machine,
    table: Seq<OpcodeProperties>,
    slots: Seq<Pipeline>,
    first: nat,
    more: nat,
    to: int,
)
    requires
        execution(m, table, slots, first).1 == Progress::Ended(Ok(false)),
        more > 0,
        ({
            let (start, pipeline) = after_cycles(m, table, slots, first);
            let filling = filled(start, table, pipeline);
            &&& filling.1 is Ok
            &&& 0 <= to < filling.0.len()
            &&& filling.0[to].function == OpcodeFn::Hlt
            &&& run_slots(start, filling.0.take(to), 0).1 == Progress::Ended(Ok(false))
            &&& run_slots(start, filling.0.take(to), 0).0.gas_remaining
                >= filling.0[to].gas_cost
        }),
    ensures
        ({
            let (start, pipeline) = after_cycles(m, table, slots, first);
            let filling = filled(start, table, pipeline);
            let before = run_slots(start, filling.0.take(to), 0).0;
            execution(m, table, slots, first + more) == (
                paid(before, filling.0[to]),
                Progress::Ended(Ok(true)),
            )
        }),
{
    let (start, pipeline) = after_cycles(m, table, slots, first);
    lemma_execution_in_two_parts(m, table, slots, first, more);
    lemma_run_halts(start, filled(start, table, pipeline).0, 0, to);
}

/// The first instruction for which the gas does not suffice ends the
/// execution. Where `first` cycles have each used up their slots, and in
/// the cycle after them the instructions before the slot `to` are all
/// executed and leave less gas than that slot costs, the execution ends
/// with `OutOfGas`; no gas is left, and all else is as those instructions
/// have left it.
pub proof fn lemma_execution_runs_out_of_gas(
    m: Machine,
    table: Seq<OpcodeProperties>,
    slots: Seq<Pipeline>,
    first: nat,
    more: nat,
    to: int,
)
    requires
        execution(m, table, slots, first).1 == Progress::Ended(Ok(false)),
        more > 0,
        ({
            let (start, pipeline) = after_cycles(m, table, slots, first);
            let filling = filled(start, table, pipeline);
            &&& filling.1 is Ok
            &&& 0 <= to < filling.0.len()
            &&& run_slots(start, filling.0.take(to), 0).1 == Progress::Ended(Ok(false))
            &&& run_slots(start, filling.0.take(to), 0).0.gas_remaining
                < filling.0[to].gas_cost
        }),
    ensures
        ({
            let (start, pipeline) = after_cycles(m, table, slots, first);
            let filling = filled(start, table, pipeline);
            let before = run_slots(start, filling.0.take(to), 0).0;
            execution(m, table, slots, first + more) == (
                Machine { gas_remaining: 0, ..before },
                Progress::Ended(Err(VMError::OutOfGas)),
            )
        }),
{
    let (start, pipeline) = after_cycles(m, table, slots, first);
    lemma_execution_in_two_parts(m, table, slots, first, more);
    lemma_run_out_of_gas(start, filled(start, table, pipeline).0, 0, to);
}

} // verus!
