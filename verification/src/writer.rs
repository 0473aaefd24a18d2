//! The tunable writer's plan: one write command per CPU core, each
//! naming the core's energy-performance-bias file and carrying the
//! decimal text of the bias to write.
//!
//! Performing the writes is I/O and lives outside the library; each
//! command in a batch is independent, so a failed write never has to
//! affect its siblings.

use vstd::prelude::*;
use vstd::string::StringExecFns;
use crate::text::{spec_decimal, decimal_string};
use crate::policy::BIAS_MAX;

verus! {

/// Number of CPU cores the policy addresses, fixed by the policy
/// rather than detected at run time.
pub const CORE_COUNT: usize = 16;

/// One write to perform: open `path` for writing with truncation,
/// write `payload`, close.
pub struct WriteCommand {
    pub path: String,
    pub payload: String,
}

/// The path of the energy-performance-bias tunable of core `index`.
pub open spec fn spec_path(index: nat) -> Seq<char> {
    "/sys/devices/system/cpu/cpu"@ + spec_decimal(index) + "/power/energy_perf_bias"@
}

/// What a write command says, as plain sequences: the path written to
/// and the payload written.
pub open spec fn command_model(c: WriteCommand) -> (Seq<char>, Seq<char>) {
    (c.path@, c.payload@)
}

/// What a whole batch says, command by command.
pub open spec fn batch_model(batch: Seq<WriteCommand>) -> Seq<(Seq<char>, Seq<char>)> {
    batch.map(|i: int, c: WriteCommand| command_model(c))
}

/// The one batch that applies `bias`: for every core index in
/// `0..CORE_COUNT`, a write of the decimal text of `bias` to that
/// core's tunable path.
pub open spec fn spec_batch(bias: nat) -> Seq<(Seq<char>, Seq<char>)> {
    Seq::new(CORE_COUNT as nat, |i: int| (spec_path(i as nat), spec_decimal(bias)))
}

/// Builds the tunable path of core `index`.
pub fn tunable_path(index: u8) -> (path: String)
    ensures
        path@ == spec_path(index as nat),
{
    let mut path = "/sys/devices/system/cpu/cpu".to_owned();
    let digits = decimal_string(index);
    path.append(digits.as_str());
    path.append("/power/energy_perf_bias");
    proof {
        assert(path@ =~= spec_path(index as nat));
    }
    path
}

/// Plans the batch that applies `bias`: exactly `CORE_COUNT` write
/// commands, one per core index in order, each carrying the decimal
/// text of `bias`. The plan is a pure function of `bias`, so applying
/// the same bias twice plans the very same batch.
pub fn apply_bias(bias: u8) -> (batch: Vec<WriteCommand>)
    requires
        bias <= BIAS_MAX,
    ensures
        batch_model(batch@) == spec_batch(bias as nat),
        batch@.len() == CORE_COUNT,
{
    let payload = decimal_string(bias);
    let mut batch: Vec<WriteCommand> = Vec::new();
    let mut index: usize = 0;
    while index < CORE_COUNT
        invariant
            index <= CORE_COUNT,
            batch@.len() == index,
            batch_model(batch@) =~= spec_batch(bias as nat).take(index as int),
            payload@ == spec_decimal(bias as nat),
        decreases CORE_COUNT - index,
    {
        let path = tunable_path(index as u8);
        batch.push(WriteCommand { path, payload: payload.clone() });
        index = index + 1;
        proof {
            assert(batch_model(batch@) =~= spec_batch(bias as nat).take(index as int));
        }
    }
    proof {
        assert(spec_batch(bias as nat).take(CORE_COUNT as int) =~= spec_batch(bias as nat));
        assert(batch_model(batch@) =~= spec_batch(bias as nat));
    }
    batch
}

/// Applying a bias is idempotent: two batches planned for the same
/// bias are the same sequence of write attempts.
pub proof fn lemma_apply_bias_idempotent(
    bias: nat,
    first: Seq<(Seq<char>, Seq<char>)>,
    second: Seq<(Seq<char>, Seq<char>)>,
)
    requires
        first == spec_batch(bias),
        second == spec_batch(bias),
    ensures
        first == second,
{
}

/// Every batch the planner can produce covers every core exactly once:
/// it has one command per index in `0..CORE_COUNT`, in order, and all
/// commands carry the same payload.
pub proof fn lemma_batch_covers_all_cores(bias: nat, batch: Seq<(Seq<char>, Seq<char>)>)
    requires
        batch == spec_batch(bias),
    ensures
        batch.len() == CORE_COUNT,
        forall|i: int| 0 <= i < CORE_COUNT ==> #[trigger] batch[i].0 == spec_path(i as nat),
        forall|i: int| 0 <= i < CORE_COUNT ==> #[trigger] batch[i].1 == spec_decimal(bias),
{
}

} // verus!
