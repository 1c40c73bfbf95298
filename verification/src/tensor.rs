use crate::batch::BatchedInput;
use dfdx::tensor::{Cpu, CpuError, NoneTape, Tensor, TensorFromVec};
use vstd::prelude::*;

verus! {

/// A two-dimensional dfdx tensor of timesteps on the CPU, one row per entry of a
/// batch.  The tensor itself is opaque here; contracts speak of its items and
/// its shape.
#[verifier::external_body]
pub struct TimestepsTensor {
    pub tensor: Tensor<(usize, usize), usize, Cpu, NoneTape>,
}

/// dfdx's CPU device.
#[verifier::external_type_specification]
#[verifier::external_body]
pub struct ExCpu(Cpu);

/// The error of dfdx's CPU device.
#[verifier::external_type_specification]
#[verifier::external_body]
pub struct ExCpuError(CpuError);

/// The elements of a tensor of timesteps in row-major order, as dfdx's
/// `Tensor::as_vec` lists them.  Only stated of tensors that hold an element:
/// dfdx cannot walk an empty one.
pub uninterp spec fn timesteps_tensor_items(tensor: TimestepsTensor) -> Seq<usize>;

/// The shape a two-dimensional tensor of timesteps was made with: its numbers of
/// rows and of columns.
pub uninterp spec fn timesteps_tensor_shape(tensor: TimestepsTensor) -> (usize, usize);

/// `TensorFromVec::try_tensor_from_vec` on dfdx's `Cpu`, for a shape of `rows` by
/// `cols`: it fails unless `items` holds exactly `rows * cols` elements, and else
/// gives a tensor of that shape that holds `items`, in their order.  The product
/// is asked to fit, since dfdx multiplies the two dimensions, and not to be 0,
/// since the contents of an empty tensor cannot be listed.
#[verifier::external_body]
fn timesteps_tensor_from_vec(dev: &Cpu, items: Vec<usize>, rows: usize, cols: usize) -> (out:
    Result<TimestepsTensor, CpuError>)
    requires
        0 < rows * cols <= usize::MAX,
    ensures
        out is Ok <==> items.len() == rows * cols,
        out is Ok ==> timesteps_tensor_items(out->Ok_0) == items@,
        out is Ok ==> timesteps_tensor_shape(out->Ok_0) == (rows, cols),
{
    match dev.try_tensor_from_vec(items, (rows, cols)) {
        Ok(tensor) => Ok(TimestepsTensor { tensor }),
        Err(e) => Err(e),
    }
}

/// Every row holds `window` slots.
pub open spec fn rows_have_window<T>(rows: Seq<Vec<T>>, window: nat) -> bool {
    forall|b: int| 0 <= b < rows.len() ==> (#[trigger] rows[b]).len() == window
}

/// `flat` lists the rows one after another: element `j` of row `b` stands at
/// `b * window + j`.
pub open spec fn is_row_major<T>(flat: Seq<T>, rows: Seq<Vec<T>>, window: nat) -> bool {
    &&& flat.len() == rows.len() * window
    &&& forall|b: int, j: int|
        0 <= b < rows.len() && 0 <= j < window ==> flat[b * window + j] == (#[trigger] rows[b]@[j])
}

proof fn lemma_row_offset(b: int, j: int, i: int, window: int)
    requires
        0 <= b < i,
        0 <= j < window,
    ensures
        0 <= b * window + j < i * window,
        i * window + window == (i + 1) * window,
{
    assert(b * window + j < (b + 1) * window) by (nonlinear_arith)
        requires
            0 <= j < window,
    ;
    assert((b + 1) * window <= i * window) by (nonlinear_arith)
        requires
            0 <= b + 1 <= i,
            0 <= window,
    ;
    assert(0 <= b * window) by (nonlinear_arith)
        requires
            0 <= b,
            0 <= window,
    ;
    assert(i * window + window == (i + 1) * window) by (nonlinear_arith);
}

/// Lists the rows of one stream of a batch one after another, if each holds
/// `window` slots.
pub fn flatten_rows<T: Copy>(rows: &Vec<Vec<T>>, window: usize) -> (out: Option<Vec<T>>)
    ensures
        out is Some <==> rows_have_window(rows@, window as nat),
        out is Some ==> is_row_major(out->Some_0@, rows@, window as nat),
{
    let mut flat: Vec<T> = Vec::new();
    let mut i: usize = 0;
    proof {
        assert(rows@.take(0).len() == 0);
        assert(0 * (window as nat) == 0) by (nonlinear_arith);
    }
    while i < rows.len()
        invariant
            i <= rows.len(),
            rows_have_window(rows@.take(i as int), window as nat),
            is_row_major(flat@, rows@.take(i as int), window as nat),
        decreases rows.len() - i,
    {
        if rows[i].len() != window {
            return None;
        }
        let ghost before = flat@;
        let mut j: usize = 0;
        while j < window
            invariant
                j <= window,
                i < rows.len(),
                rows[i as int].len() == window,
                before.len() == i * window,
                flat@ == before + rows[i as int]@.take(j as int),
            decreases window - j,
        {
            flat.push(rows[i][j]);
            j = j + 1;
            assert(flat@ =~= before + rows[i as int]@.take(j as int));
        }
        proof {
            assert(rows[i as int]@.take(window as int) =~= rows[i as int]@);
            let next = rows@.take(i + 1);
            assert forall|b: int| 0 <= b < next.len() implies (#[trigger] next[b]).len()
                == window by {
                if b < i {
                    assert(rows@.take(i as int)[b] == next[b]);
                }
            }
            assert(i * window + window == (i + 1) * window) by (nonlinear_arith);
            assert forall|b: int, k: int| 0 <= b < next.len() && 0 <= k < window implies flat@[b
                * window + k] == (#[trigger] next[b]@[k]) by {
                if b < i {
                    lemma_row_offset(b, k, i as int, window as int);
                    assert(rows@.take(i as int)[b] == next[b]);
                    assert(before[b * window + k] == rows@.take(i as int)[b]@[k]);
                }
            }
        }
        i = i + 1;
    }
    assert(rows@.take(rows.len() as int) =~= rows@);
    Some(flat)
}

impl<SV: Copy, AV: Copy, R: Copy> BatchedInput<SV, AV, R> {
    /// The timesteps of the batch as a tensor of shape (batch size, `window`) on
    /// `dev`: row `b` holds the timesteps of entry `b`.  There is a tensor exactly
    /// when the batch is not empty, `window` is not 0 and every entry holds
    /// `window` timesteps.
    pub fn timesteps_tensor(&self, window: usize, dev: &Cpu) -> (out: Option<TimestepsTensor>)
        ensures
            out is Some <==> self.timesteps.len() > 0 && window > 0 && rows_have_window(
                self.timesteps@,
                window as nat,
            ),
            out is Some ==> timesteps_tensor_shape(out->Some_0) == (self.timesteps.len(), window),
            out is Some ==> is_row_major(
                timesteps_tensor_items(out->Some_0),
                self.timesteps@,
                window as nat,
            ),
    {
        if self.timesteps.len() == 0 || window == 0 {
            return None;
        }
        match flatten_rows(&self.timesteps, window) {
            None => None,
            Some(flat) => {
                assert(self.timesteps.len() * window == flat.len()) by {
                    assert(flat@.len() == self.timesteps@.len() * (window as nat));
                }
                assert(0 < self.timesteps.len() * window) by (nonlinear_arith)
                    requires
                        self.timesteps.len() > 0,
                        window > 0,
                ;
                match timesteps_tensor_from_vec(dev, flat, self.timesteps.len(), window) {
                    Ok(tensor) => Some(tensor),
                    Err(_) => None,
                }
            },
        }
    }
}

} // verus!
