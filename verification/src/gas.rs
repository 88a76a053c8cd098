//! Gas metering for programs run by the embedded virtual machine: a visitor
//! that charges one unit per instruction and reports the accumulated cost of
//! each basic block as it ends. Instructions that end a basic block — traps,
//! fallthroughs and jumps — charge themselves and then close the block.

use vstd::prelude::*;

verus! {

/// Accumulates the gas cost of the basic block under construction and holds
/// the cost of the block that just ended until it is taken.
pub struct GasVisitor {
    cost: u32,
    last_block_cost: Option<u32>,
}

impl Default for GasVisitor {
    /// A fresh visitor: nothing charged, no block ended.
    fn default() -> (r: Self)
        ensures
            r.spec_cost() == 0,
            r.spec_last_block_cost() is None,
    {
        GasVisitor { cost: 0, last_block_cost: None }
    }
}

impl GasVisitor {
    /// The cost accumulated for the basic block under construction.
    pub closed spec fn spec_cost(&self) -> u32 {
        self.cost
    }

    /// The cost of the basic block that just ended, if not yet taken.
    pub closed spec fn spec_last_block_cost(&self) -> Option<u32> {
        self.last_block_cost
    }

    /// Close the basic block under construction: its cost becomes available
    /// to take, and accumulation restarts from zero.
    pub fn start_new_basic_block(&mut self)
        ensures
            final(self).spec_cost() == 0,
            final(self).spec_last_block_cost() == Option::Some(old(self).spec_cost()),
    {
        self.last_block_cost = Some(self.cost);
        self.cost = 0;
    }

    /// Take the cost of the block that ended, if any; a second take yields
    /// nothing until another block ends.
    pub fn take_block_cost(&mut self) -> (r: Option<u32>)
        ensures
            r == old(self).spec_last_block_cost(),
            final(self).spec_last_block_cost() is None,
            final(self).spec_cost() == old(self).spec_cost(),
    {
        let r = self.last_block_cost;
        self.last_block_cost = None;
        r
    }

    /// An invalid instruction costs what a trap costs.
    pub fn invalid(&mut self)
        requires
            old(self).spec_cost() < u32::MAX,
        ensures
            final(self).spec_cost() == 0,
            final(self).spec_last_block_cost() == Option::Some((old(self).spec_cost() + 1) as u32),
    {
        self.trap();
    }

    /// A trap: one unit, and the basic block ends.
    pub fn trap(&mut self)
        requires
            old(self).spec_cost() < u32::MAX,
        ensures
            final(self).spec_cost() == 0,
            final(self).spec_last_block_cost() == Option::Some((old(self).spec_cost() + 1) as u32),
    {
        self.cost = self.cost + 1;
        self.start_new_basic_block();
    }

    /// A fallthrough: one unit, and the basic block ends.
    pub fn fallthrough(&mut self)
        requires
            old(self).spec_cost() < u32::MAX,
        ensures
            final(self).spec_cost() == 0,
            final(self).spec_last_block_cost() == Option::Some((old(self).spec_cost() + 1) as u32),
    {
        self.cost = self.cost + 1;
        self.start_new_basic_block();
    }

    /// A jump to a static target: one unit, and the basic block ends.
    pub fn jump(&mut self)
        requires
            old(self).spec_cost() < u32::MAX,
        ensures
            final(self).spec_cost() == 0,
            final(self).spec_last_block_cost() == Option::Some((old(self).spec_cost() + 1) as u32),
    {
        self.cost = self.cost + 1;
        self.start_new_basic_block();
    }

    /// An indirect jump: one unit, and the basic block ends.
    pub fn jump_indirect(&mut self)
        requires
            old(self).spec_cost() < u32::MAX,
        ensures
            final(self).spec_cost() == 0,
            final(self).spec_last_block_cost() == Option::Some((old(self).spec_cost() + 1) as u32),
    {
        self.cost = self.cost + 1;
        self.start_new_basic_block();
    }

    /// A host-call instruction: one unit.
    pub fn ecalli(&mut self)
        requires
            old(self).spec_cost() < u32::MAX,
        ensures
            final(self).spec_cost() == old(self).spec_cost() + 1,
            final(self).spec_last_block_cost() == old(self).spec_last_block_cost(),
    {
        self.cost = self.cost + 1;
    }

    /// A heap-grow instruction: one unit.
    pub fn sbrk(&mut self)
        requires
            old(self).spec_cost() < u32::MAX,
        ensures
            final(self).spec_cost() == old(self).spec_cost() + 1,
            final(self).spec_last_block_cost() == old(self).spec_last_block_cost(),
    {
        self.cost = self.cost + 1;
    }

    /// A memory-set instruction: one unit.
    pub fn memset(&mut self)
        requires
            old(self).spec_cost() < u32::MAX,
        ensures
            final(self).spec_cost() == old(self).spec_cost() + 1,
            final(self).spec_last_block_cost() == old(self).spec_last_block_cost(),
    {
        self.cost = self.cost + 1;
    }

    /// A 32-bit addition: one unit, like every plain computational
    /// instruction.
    pub fn add_32(&mut self)
        requires
            old(self).spec_cost() < u32::MAX,
        ensures
            final(self).spec_cost() == old(self).spec_cost() + 1,
            final(self).spec_last_block_cost() == old(self).spec_last_block_cost(),
    {
        self.cost = self.cost + 1;
    }

    /// A 64-bit addition: one unit.
    pub fn add_64(&mut self)
        requires
            old(self).spec_cost() < u32::MAX,
        ensures
            final(self).spec_cost() == old(self).spec_cost() + 1,
            final(self).spec_last_block_cost() == old(self).spec_last_block_cost(),
    {
        self.cost = self.cost + 1;
    }
}

/// The gas cost of a basic block holding nothing but an implicit trap.
pub fn trap_cost() -> (r: u32)
    ensures
        r == 1,
{
    let mut gas_visitor = GasVisitor::default();
    gas_visitor.trap();
    match gas_visitor.take_block_cost() {
        Some(cost) => cost,
        None => 0,
    }
}

/// The host-configured bounds on one execution request.
pub struct ExecLimits {
    /// The largest gas limit a request may ask for.
    pub max_gas_limit: u64,
    /// The smallest gas price a request may offer.
    pub min_gas_price: u64,
    /// The smallest storage deposit limit a request may offer.
    pub min_storage_deposit_limit: u64,
    /// The longest user data a request may carry, in bytes.
    pub max_user_data_len: u64,
}

/// Why an execution request is refused.
#[derive(Clone, Copy, Debug, PartialEq, Eq, Structural)]
pub enum ExecArgsError {
    /// The gas limit exceeds the configured maximum.
    GasLimitIsTooHigh,
    /// The gas price is below the configured minimum.
    GasPriceIsTooLow,
    /// The storage deposit limit is below the configured minimum.
    StorageDepositLimitIsTooLow,
    /// The user data exceeds the configured length bound.
    UserDataIsTooLarge,
}

/// Check an execution request against the host's bounds, in the order the
/// bounds are declared: the first violated bound names the error.
pub fn check_execute_args(
    data_len: u64,
    gas_limit: u64,
    storage_deposit_limit: u64,
    gas_price: u64,
    limits: &ExecLimits,
) -> (r: Result<(), ExecArgsError>)
    ensures
        match r {
            Result::Ok(()) => {
                &&& gas_limit <= limits.max_gas_limit
                &&& gas_price >= limits.min_gas_price
                &&& storage_deposit_limit >= limits.min_storage_deposit_limit
                &&& data_len <= limits.max_user_data_len
            },
            Result::Err(e) => match e {
                ExecArgsError::GasLimitIsTooHigh => gas_limit > limits.max_gas_limit,
                ExecArgsError::GasPriceIsTooLow => gas_limit <= limits.max_gas_limit && gas_price
                    < limits.min_gas_price,
                ExecArgsError::StorageDepositLimitIsTooLow => gas_limit <= limits.max_gas_limit
                    && gas_price >= limits.min_gas_price && storage_deposit_limit
                    < limits.min_storage_deposit_limit,
                ExecArgsError::UserDataIsTooLarge => gas_limit <= limits.max_gas_limit && gas_price
                    >= limits.min_gas_price && storage_deposit_limit
                    >= limits.min_storage_deposit_limit && data_len > limits.max_user_data_len,
            },
        },
{
    if gas_limit > limits.max_gas_limit {
        return Err(ExecArgsError::GasLimitIsTooHigh);
    }
    if gas_price < limits.min_gas_price {
        return Err(ExecArgsError::GasPriceIsTooLow);
    }
    if storage_deposit_limit < limits.min_storage_deposit_limit {
        return Err(ExecArgsError::StorageDepositLimitIsTooLow);
    }
    if data_len > limits.max_user_data_len {
        return Err(ExecArgsError::UserDataIsTooLarge);
    }
    Ok(())
}

/// What the gas model reads off one decoded instruction: every instruction
/// charges one unit, and some — traps, fallthroughs, jumps — end the basic
/// block.
#[derive(Clone, Copy, Debug, PartialEq, Eq, Structural)]
pub enum InstructionKind {
    /// A plain instruction: charge and continue.
    Plain,
    /// An instruction that ends the basic block.
    BlockEnd,
}

/// The gas cost of the first basic block of an instruction stream: one unit
/// per instruction up to and including the first block end, with an implicit
/// trap closing a stream that never ends a block.
pub open spec fn spec_first_block_cost(instructions: Seq<InstructionKind>) -> int
    decreases instructions.len(),
{
    if instructions.len() == 0 {
        1
    } else if instructions.first() is BlockEnd {
        1
    } else {
        spec_first_block_cost(instructions.drop_first()) + 1
    }
}

/// Charge the first basic block of an instruction stream: drive the visitor
/// over the instructions until a block ends, closing a stream that runs out
/// of instructions with an implicit trap. Returns the block's cost and
/// whether the stream was empty — it then started out of bounds.
pub fn calculate_for_block(instructions: &Vec<InstructionKind>) -> (r: (u32, bool))
    requires
        instructions@.len() < u32::MAX,
    ensures
        r.0 == spec_first_block_cost(instructions@),
        r.1 == (instructions@.len() == 0),
{
    let mut visitor = GasVisitor::default();
    let n = instructions.len();
    proof {
        assert(instructions@.skip(0) =~= instructions@);
    }
    for i in 0..n
        invariant
            n == instructions@.len() < u32::MAX,
            visitor.spec_cost() == i,
            visitor.spec_last_block_cost() is None,
            spec_first_block_cost(instructions@) == i + spec_first_block_cost(
                instructions@.skip(i as int),
            ),
    {
        proof {
            assert(instructions@.skip(i as int).first() == instructions@[i as int]);
            assert(instructions@.skip(i as int).drop_first() =~= instructions@.skip(i + 1));
        }
        match instructions[i] {
            InstructionKind::Plain => {
                // One unit, like every plain computational instruction.
                visitor.add_32();
            },
            InstructionKind::BlockEnd => {
                visitor.jump();
                let cost = match visitor.take_block_cost() {
                    Some(cost) => cost,
                    None => 0,
                };
                return (cost, false);
            },
        }
    }
    proof {
        assert(instructions@.skip(n as int) =~= Seq::<InstructionKind>::empty());
    }
    // The stream ended without a block end: an implicit trap closes it.
    visitor.trap();
    let cost = match visitor.take_block_cost() {
        Some(cost) => cost,
        None => 0,
    };
    (cost, n == 0)
}

} // verus!

