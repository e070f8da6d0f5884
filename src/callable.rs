use vstd::prelude::*;

use crate::error::FfiError;

verus! {

/// What a caller passes in one position of a call: a memory handle, named by
/// `id`, whose valid window starts at its offset 0 and holds `len` bytes; or
/// any other value.
#[derive(Debug, Clone, Copy, PartialEq, Eq, Structural)]
pub enum CallArg {
    Handle { id: u64, len: usize },
    Other,
}

/// The pointers of one native call, as handle ids: the result handle (`None`
/// for a void result, passed as a null pointer) and one handle per argument.
pub struct CallPlan {
    pub result: Option<u64>,
    pub args: Vec<u64>,
}

/// Where the result goes: nowhere for a zero-size result, else a handle
/// whose window holds `result_size` bytes.
pub open spec fn result_target(result_size: usize, result: CallArg) -> Result<Option<u64>, FfiError> {
    if result_size == 0 {
        Ok(None)
    } else {
        match result {
            CallArg::Handle { id, len } => if result_size <= len {
                Ok(Some(id))
            } else {
                Err(FfiError::BoundaryError)
            },
            CallArg::Other => Err(FfiError::TypeMismatch),
        }
    }
}

/// The handles of the first `n` arguments, checked in order: the first
/// missing position is an `ArityError` naming it, the first value that is no
/// handle a `TypeMismatch`.
pub open spec fn argument_handles(args: Seq<CallArg>, n: nat) -> Result<Seq<u64>, FfiError>
    decreases n,
{
    if n == 0 {
        Ok(Seq::empty())
    } else {
        match argument_handles(args, (n - 1) as nat) {
            Err(e) => Err(e),
            Ok(ids) => if n - 1 >= args.len() {
                Err(FfiError::ArityError { index: (n - 1) as usize })
            } else {
                match args[n - 1] {
                    CallArg::Handle { id, len } => Ok(ids.push(id)),
                    CallArg::Other => Err(FfiError::TypeMismatch),
                }
            },
        }
    }
}

/// A native function's call signature as the dispatcher needs it: how many
/// arguments it takes and how many bytes its result has.
pub struct CallableData {
    arg_count: usize,
    result_size: usize,
}

impl CallableData {
    pub closed spec fn spec_arg_count(&self) -> nat {
        self.arg_count as nat
    }

    pub closed spec fn spec_result_size(&self) -> usize {
        self.result_size
    }

    /// The outcome of preparing a call: the result check comes first, then
    /// the arguments in order.
    pub open spec fn plan_spec(&self, result: CallArg, args: Seq<CallArg>) -> Result<(Option<u64>, Seq<u64>), FfiError> {
        match result_target(self.spec_result_size(), result) {
            Err(e) => Err(e),
            Ok(target) => match argument_handles(args, self.spec_arg_count()) {
                Err(e) => Err(e),
                Ok(ids) => Ok((target, ids)),
            },
        }
    }

    pub fn new(arg_count: usize, result_size: usize) -> (r: CallableData)
        ensures
            r.spec_arg_count() == arg_count,
            r.spec_result_size() == result_size,
    {
        CallableData { arg_count, result_size }
    }

    pub fn arg_count(&self) -> (r: usize)
        ensures
            r == self.spec_arg_count(),
    {
        self.arg_count
    }

    pub fn result_size(&self) -> (r: usize)
        ensures
            r == self.spec_result_size(),
    {
        self.result_size
    }

    /// Checks a call's result and argument values and, when all pass, gives
    /// the handles whose addresses the native call receives, in order.
    /// Nothing here touches memory: every failure comes before the call.
    pub fn prepare(&self, result: CallArg, args: &Vec<CallArg>) -> (r: Result<CallPlan, FfiError>)
        ensures
            match (r, self.plan_spec(result, args@)) {
                (Ok(p), Ok((target, ids))) => p.result == target && p.args@ == ids,
                (Err(e), Err(f)) => e == f,
                _ => false,
            },
    {
        let target = if self.result_size == 0 {
            None
        } else {
            match result {
                CallArg::Handle { id, len } => {
                    if self.result_size <= len {
                        Some(id)
                    } else {
                        return Err(FfiError::BoundaryError);
                    }
                },
                CallArg::Other => {
                    return Err(FfiError::TypeMismatch);
                },
            }
        };
        let mut ids: Vec<u64> = Vec::new();
        let mut index: usize = 0;
        while index < self.arg_count
            invariant
                0 <= index <= self.arg_count,
                result_target(self.result_size, result) == Ok::<Option<u64>, FfiError>(target),
                argument_handles(args@, index as nat) == Ok::<Seq<u64>, FfiError>(ids@),
            decreases self.arg_count - index,
        {
            if index >= args.len() {
                proof {
                    lemma_error_persists(args@, (index + 1) as nat, self.arg_count as nat, FfiError::ArityError { index });
                }
                return Err(FfiError::ArityError { index });
            }
            match args[index] {
                CallArg::Handle { id, len } => {
                    ids.push(id);
                },
                CallArg::Other => {
                    proof {
                        lemma_error_persists(args@, (index + 1) as nat, self.arg_count as nat, FfiError::TypeMismatch);
                    }
                    return Err(FfiError::TypeMismatch);
                },
            }
            index = index + 1;
        }
        Ok(CallPlan { result: target, args: ids })
    }
}

/// Whenever every argument given is a handle but fewer are given than the
/// callable takes, the call fails with an `ArityError` naming the first
/// missing position.
pub proof fn lemma_missing_argument(c: CallableData, result: CallArg, args: Seq<CallArg>)
    requires
        args.len() < c.spec_arg_count(),
        forall|i: int| 0 <= i < args.len() ==> #[trigger] args[i] is Handle,
        result_target(c.spec_result_size(), result) is Ok,
    ensures
        c.plan_spec(result, args) == Err::<(Option<u64>, Seq<u64>), FfiError>(
            FfiError::ArityError { index: args.len() as usize },
        ),
{
    lemma_handles_prefix(args, args.len());
    lemma_first_missing(args, c.spec_arg_count());
}

/// When every argument before position `k` is a handle and the value at `k`
/// is not, a call that takes more than `k` arguments fails with a `TypeMismatch`.
pub proof fn lemma_non_handle_argument(c: CallableData, result: CallArg, args: Seq<CallArg>, k: int)
    requires
        0 <= k < args.len(),
        k < c.spec_arg_count(),
        forall|i: int| 0 <= i < k ==> #[trigger] args[i] is Handle,
        args[k] is Other,
        result_target(c.spec_result_size(), result) is Ok,
    ensures
        c.plan_spec(result, args) == Err::<(Option<u64>, Seq<u64>), FfiError>(FfiError::TypeMismatch),
{
    lemma_handles_prefix(args, k as nat);
    lemma_error_persists(args, (k + 1) as nat, c.spec_arg_count(), FfiError::TypeMismatch);
}

/// With a nonzero result size and a result handle whose window is smaller,
/// the call fails with a `BoundaryError`, whatever the arguments.
pub proof fn lemma_result_too_small(c: CallableData, id: u64, len: usize, args: Seq<CallArg>)
    requires
        c.spec_result_size() > 0,
        len < c.spec_result_size(),
    ensures
        c.plan_spec(CallArg::Handle { id, len }, args) == Err::<(Option<u64>, Seq<u64>), FfiError>(
            FfiError::BoundaryError,
        ),
{
}

proof fn lemma_handles_prefix(args: Seq<CallArg>, n: nat)
    requires
        n <= args.len(),
        forall|i: int| 0 <= i < n ==> #[trigger] args[i] is Handle,
    ensures
        argument_handles(args, n) is Ok,
    decreases n,
{
    if n > 0 {
        lemma_handles_prefix(args, (n - 1) as nat);
    }
}

proof fn lemma_error_persists(args: Seq<CallArg>, m: nat, n: nat, e: FfiError)
    requires
        m <= n,
        argument_handles(args, m) == Err::<Seq<u64>, FfiError>(e),
    ensures
        argument_handles(args, n) == Err::<Seq<u64>, FfiError>(e),
    decreases n - m,
{
    if m < n {
        lemma_error_persists(args, m, (n - 1) as nat, e);
    }
}

proof fn lemma_first_missing(args: Seq<CallArg>, n: nat)
    requires
        args.len() < n,
        argument_handles(args, args.len()) is Ok,
    ensures
        argument_handles(args, n) == Err::<Seq<u64>, FfiError>(FfiError::ArityError { index: args.len() as usize }),
{
    let m = (args.len() + 1) as nat;
    assert(argument_handles(args, m) == Err::<Seq<u64>, FfiError>(FfiError::ArityError { index: args.len() as usize }));
    lemma_error_persists(args, m, n, FfiError::ArityError { index: args.len() as usize });
}

} // verus!
