//! Rules shared by the verifier contracts: who may vote on a task, and how
//! much voting power a task needs before it completes.
use vstd::prelude::*;
use vstd::string::StringExecFns;

verus! {

/// The state of a task in the task queue.
#[derive(Clone, Copy, Debug, PartialEq, Eq, Structural)]
pub enum TaskStatus {
    Open,
    Completed,
    Expired,
}

/// A task's status as the task queue reports it.
#[derive(Clone, Copy, Debug, PartialEq, Eq, Structural)]
pub struct TaskStatusResponse {
    pub status: TaskStatus,
    /// Block height at which the task was created.
    pub created_height: u64,
    /// When the task expires, in nanoseconds since the UNIX epoch.
    pub expires_time: u64,
}

/// The total voting power of the operators.
#[derive(Clone, Copy, Debug, PartialEq, Eq, Structural)]
pub struct TotalPowerResponse {
    pub power: u128,
}

/// What the verifier records about a task when the first vote arrives.
#[derive(Clone, Copy, Debug, PartialEq, Eq, Structural)]
pub struct TaskMetadata {
    /// Voting power needed for the task to complete.
    pub power_required: u128,
    pub status: TaskStatus,
    pub created_height: u64,
    pub expires_time: u64,
}

/// `a / b` rounded up.
pub open spec fn ceil_div(a: nat, b: nat) -> nat
    recommends
        b > 0,
{
    ((a + b - 1) / (b as int)) as nat
}

/// `percent`% of `power`, rounded up: `power.mul_ceil(Decimal::percent(percent))`.
pub open spec fn power_for_percent(power: nat, percent: nat) -> nat {
    ceil_div(power * percent, 100)
}

/// The message for an operator who already voted.
pub open spec fn already_voted_message() -> Seq<char> {
    "Operator already voted"@
}

/// The message for an operator without voting power.
pub open spec fn zero_power_message() -> Seq<char> {
    "Unauthorized: voting power is zero"@
}

/// Checks that an operator may vote: it has not voted yet (`vote` is its
/// earlier vote, if any) and it holds voting power.
pub fn check_vote_validity<V>(vote: Option<V>, voting_power: u128) -> (r: Result<(), String>)
    ensures
        r is Ok <==> (vote is None && voting_power > 0),
        vote is Some ==> (r matches Err(m) && m@ == already_voted_message()),
        vote is None && voting_power == 0 ==> (r matches Err(m) && m@ == zero_power_message()),
{
    if vote.is_some() {
        return Err(String::from_str("Operator already voted"));
    }
    if voting_power == 0 {
        return Err(String::from_str("Unauthorized: voting power is zero"));
    }
    Ok(())
}

/// The message for a task that already completed.
pub open spec fn completed_message() -> Seq<char> {
    "Task is already completed"@
}

/// The message for a task that expired.
pub open spec fn expired_message() -> Seq<char> {
    "Task is expired"@
}

/// `power * percent / 100` decomposed on `power = 100 q + r`.
proof fn lemma_ceil_percent_split(power: nat, percent: nat)
    ensures
        power_for_percent(power, percent) == (power / 100) * percent + ceil_div(
            (power % 100) * percent,
            100,
        ),
{
    let q = power / 100;
    let r = power % 100;
    assert(power == 100 * q + r);
    assert(power * percent == 100 * (q * percent) + r * percent) by (nonlinear_arith)
        requires
            power == 100 * q + r,
    ;
    let k = q * percent;
    let m = r * percent;
    assert((100 * k + m + 99) / 100 == k + (m + 99) / 100) by (nonlinear_arith)
        requires
            k >= 0,
            m >= 0,
    ;
}

/// `percent`% of `power`, rounded up; the result must fit in a `u128`.
pub fn mul_ceil_percent(power: u128, percent: u32) -> (r: u128)
    requires
        power_for_percent(power as nat, percent as nat) <= u128::MAX,
    ensures
        r == power_for_percent(power as nat, percent as nat),
{
    proof {
        lemma_ceil_percent_split(power as nat, percent as nat);
    }
    let q = power / 100;
    let rem = power % 100;
    assert(rem * (percent as u128) <= 99 * u32::MAX) by (nonlinear_arith)
        requires
            rem < 100,
            percent <= u32::MAX,
    ;
    let small = rem * (percent as u128);
    assert(small <= 99 * u32::MAX) by (nonlinear_arith)
        requires
            rem < 100,
            percent <= u32::MAX,
            small == rem * percent,
    ;
    let extra = (small + 99) / 100;
    assert(q * (percent as u128) <= u128::MAX);
    let base = q * (percent as u128);
    base + extra
}

/// Starts the bookkeeping of a task: refused unless the task is open; for an
/// open task the required power is `required_percentage`% of the total power,
/// rounded up. (For an open task the result must fit in a `u128`.)
pub fn initialize_task_metadata(
    task_status: TaskStatusResponse,
    total_power: TotalPowerResponse,
    required_percentage: u32,
) -> (r: Result<TaskMetadata, String>)
    requires
        task_status.status == TaskStatus::Open ==> power_for_percent(
            total_power.power as nat,
            required_percentage as nat,
        ) <= u128::MAX,
    ensures
        task_status.status == TaskStatus::Completed ==> (r matches Err(m) && m@
            == completed_message()),
        task_status.status == TaskStatus::Expired ==> (r matches Err(m) && m@ == expired_message()),
        task_status.status == TaskStatus::Open ==> r == Ok::<TaskMetadata, String>(
            TaskMetadata {
                power_required: power_for_percent(
                    total_power.power as nat,
                    required_percentage as nat,
                ) as u128,
                status: TaskStatus::Open,
                created_height: task_status.created_height,
                expires_time: task_status.expires_time,
            },
        ),
{
    match task_status.status {
        TaskStatus::Completed => Err(String::from_str("Task is already completed")),
        TaskStatus::Expired => Err(String::from_str("Task is expired")),
        TaskStatus::Open => {
            let power_required = mul_ceil_percent(total_power.power, required_percentage);
            Ok(
                TaskMetadata {
                    power_required,
                    status: TaskStatus::Open,
                    created_height: task_status.created_height,
                    expires_time: task_status.expires_time,
                },
            )
        },
    }
}

} // verus!
