//! Detection decoder: turns the detector's raw outputs — a boxes tensor
//! shaped `[1, N, 4]` and a scores tensor shaped `[1, N, C]` — into the
//! ordered list of candidate boxes whose face-class score (index 1 along
//! the class axis) exceeds the confidence threshold. No non-maximum
//! suppression is applied: overlapping candidates above the threshold
//! are all emitted, in output order.

use vstd::prelude::*;
use crate::float_bits::f32_bits_gt;
use crate::float_bits::f32_gt;

verus! {

/// Width of the detector's fixed input shape `[1, 3, 240, 320]`.
pub const DETECTOR_INPUT_WIDTH: u32 = 320;

/// Height of the detector's fixed input shape `[1, 3, 240, 320]`.
pub const DETECTOR_INPUT_HEIGHT: u32 = 240;

/// Edge of the recognizer's fixed square input shape
/// `[1, 3, 160, 160]`.
pub const RECOGNIZER_INPUT_SIZE: u32 = 160;

/// A tensor as the inference engine hands it over: its dimensions and
/// its data in row-major order, each element the bit pattern of a
/// single-precision float.
pub struct Tensor {
    pub dims: Vec<usize>,
    pub data: Vec<u32>,
}

/// One selected detection, still in the detector's own coordinates:
/// the two corners `(x1, y1)` and `(x2, y2)` of row `i` of the boxes
/// tensor, as single-precision bit patterns.
#[derive(Clone, Copy, PartialEq, Eq, Structural, Debug)]
pub struct CornerBox {
    pub x1: u32,
    pub y1: u32,
    pub x2: u32,
    pub y2: u32,
}

/// The shape contract of the detector's outputs: a boxes tensor
/// `[1, N, 4]` and a scores tensor `[1, N, C]` with `C >= 2`, each
/// holding exactly as many elements as its dimensions claim.
pub open spec fn detection_outputs_shaped(outputs: Seq<Tensor>) -> bool {
    &&& outputs.len() >= 2
    &&& outputs[0].dims@.len() == 3
    &&& outputs[0].dims@[0] == 1
    &&& outputs[0].dims@[2] == 4
    &&& outputs[1].dims@.len() == 3
    &&& outputs[1].dims@[0] == 1
    &&& outputs[1].dims@[1] == outputs[0].dims@[1]
    &&& outputs[1].dims@[2] >= 2
    &&& outputs[0].data@.len() == 4 * outputs[0].dims@[1]
    &&& outputs[1].data@.len() == outputs[0].dims@[1] * outputs[1].dims@[2]
}

/// The corner box taken from row `i` of the boxes tensor's data.
pub open spec fn corner_box_at(boxes: Seq<u32>, i: int) -> CornerBox {
    CornerBox { x1: boxes[4 * i], y1: boxes[4 * i + 1], x2: boxes[4 * i + 2], y2: boxes[4 * i + 3] }
}

/// The boxes of the first `n` candidate rows whose face-class score —
/// element `i * c + 1` of the scores data — exceeds the threshold, in
/// row order.
pub open spec fn selected_boxes(
    boxes: Seq<u32>,
    scores: Seq<u32>,
    n: nat,
    c: nat,
    threshold_bits: u32,
) -> Seq<CornerBox>
    decreases n,
{
    if n == 0 {
        Seq::<CornerBox>::empty()
    } else {
        let prefix = selected_boxes(boxes, scores, (n - 1) as nat, c, threshold_bits);
        if f32_bits_gt(scores[(n - 1) * c + 1], threshold_bits) {
            prefix.push(corner_box_at(boxes, n - 1))
        } else {
            prefix
        }
    }
}

/// True exactly when the outputs meet [`detection_outputs_shaped`];
/// callers that cannot know the shapes in advance test with this before
/// decoding.
pub fn detection_outputs_well_shaped(outputs: &Vec<Tensor>) -> (r: bool)
    ensures
        r == detection_outputs_shaped(outputs@),
{
    if outputs.len() < 2 {
        return false;
    }
    let boxes = &outputs[0];
    let scores = &outputs[1];
    if !(boxes.dims.len() == 3 && boxes.dims[0] == 1 && boxes.dims[2] == 4) {
        return false;
    }
    if !(scores.dims.len() == 3 && scores.dims[0] == 1 && scores.dims[1] == boxes.dims[1]
        && scores.dims[2] >= 2) {
        return false;
    }
    let n = boxes.dims[1];
    let c = scores.dims[2];
    let ghost b_len: int = boxes.data@.len() as int;
    let ghost s_len: int = scores.data@.len() as int;
    proof {
        assert(b_len == 4 * (n as int) <==> (b_len / 4 == n as int && b_len % 4 == 0))
            by (nonlinear_arith)
            requires
                b_len >= 0,
                n >= 0,
        ;
        assert(s_len == (n as int) * (c as int) <==> (s_len / (c as int) == n as int && s_len % (
        c as int) == 0)) by (nonlinear_arith)
            requires
                s_len >= 0,
                n >= 0,
                c >= 2,
        ;
    }
    boxes.data.len() / 4 == n && boxes.data.len() % 4 == 0 && scores.data.len() / c == n
        && scores.data.len() % c == 0
}

/// Decode the detector's raw outputs into the selected candidate boxes.
///
/// With fewer than two output tensors the result is empty (a defensive
/// no-op, not an error); otherwise the outputs must be shaped as
/// [`detection_outputs_shaped`] says, and the result is exactly the
/// rows whose face-class score exceeds the threshold, in row order.
pub fn decode_detections(outputs: &Vec<Tensor>, threshold_bits: u32) -> (r: Vec<CornerBox>)
    requires
        outputs@.len() >= 2 ==> detection_outputs_shaped(outputs@),
    ensures
        outputs@.len() < 2 ==> r@ == Seq::<CornerBox>::empty(),
        outputs@.len() >= 2 ==> r@ == selected_boxes(
            outputs@[0].data@,
            outputs@[1].data@,
            outputs@[0].dims@[1] as nat,
            outputs@[1].dims@[2] as nat,
            threshold_bits,
        ),
{
    let mut selected: Vec<CornerBox> = Vec::new();
    if outputs.len() < 2 {
        return selected;
    }
    let n = outputs[0].dims[1];
    let c = outputs[1].dims[2];
    let b_len = outputs[0].data.len();
    let s_len = outputs[1].data.len();
    let mut i: usize = 0;
    while i < n
        invariant
            outputs@.len() >= 2,
            n == outputs@[0].dims@[1],
            c == outputs@[1].dims@[2],
            c >= 2,
            b_len == outputs@[0].data@.len(),
            s_len == outputs@[1].data@.len(),
            b_len == 4 * n,
            s_len == n * c,
            i <= n,
            selected@ == selected_boxes(
                outputs@[0].data@,
                outputs@[1].data@,
                i as nat,
                c as nat,
                threshold_bits,
            ),
        decreases n - i,
    {
        proof {
            assert(i * c + c <= n * c && i * 4 + 4 <= n * 4 && (i + 1) * c == i * c + c)
                by (nonlinear_arith)
                requires
                    i < n,
                    c >= 0,
            ;
        }
        let score_bits = outputs[1].data[i * c + 1];
        if f32_gt(score_bits, threshold_bits) {
            let cb = CornerBox {
                x1: outputs[0].data[4 * i],
                y1: outputs[0].data[4 * i + 1],
                x2: outputs[0].data[4 * i + 2],
                y2: outputs[0].data[4 * i + 3],
            };
            selected.push(cb);
        }
        i = i + 1;
    }
    selected
}

/// Flatten the first output tensor of a recognition run into the
/// embedding vector: its elements in row-major order, or nothing when
/// the engine returned no output.
pub fn embedding_from_outputs(outputs: &Vec<Tensor>) -> (r: Vec<u32>)
    ensures
        outputs@.len() == 0 ==> r@.len() == 0,
        outputs@.len() > 0 ==> r@ == outputs@[0].data@,
{
    if outputs.len() == 0 {
        return Vec::new();
    }
    let mut out: Vec<u32> = Vec::new();
    let data = &outputs[0].data;
    let mut i: usize = 0;
    while i < data.len()
        invariant
            i <= data@.len(),
            data@ == outputs@[0].data@,
            out@ == data@.subrange(0, i as int),
        decreases data@.len() - i,
    {
        let v = data[i];
        out.push(v);
        i = i + 1;
        proof {
            assert(data@.subrange(0, i as int) =~= data@.subrange(0, i - 1).push(v));
        }
    }
    proof {
        assert(data@.subrange(0, data@.len() as int) =~= data@);
    }
    out
}

} // verus!
