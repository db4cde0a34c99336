//! Batching logical DAP transfers into one contiguous wire burst.
//!
//! SWD pipelines responses: an AP read returns its value in the data phase
//! of the *next* transfer, and a write's final status arrives with the next
//! transfer's ACK. Posted AP writes may also sit in the DP's write buffer
//! until a stallable access drains them. The planner therefore inserts
//! auxiliary RDBUFF reads where the pipeline rules demand one, appends idle
//! cycles after every write, and records, for each caller transfer, the
//! index of the emitted frame that actually carries its result.

use vstd::prelude::*;
use vstd::slice::slice_subrange;
use crate::io_sequence::IoSequence;
use crate::probe::RawSwdIo;
use crate::swd::{
    build_swd_transfer, parse_swd_response, response_length, spec_parse_response, swd_frame_io,
    swd_frame_dir, lemma_parse_depends_on_frame_only,
};
use crate::types::{
    DapError, DebugProbeError, PortType, SwdTransfer, TransferDirection, TransferStatus,
    TransferType, DP_ABORT_ADDRESS, DP_CTRL_STAT_ADDRESS, DP_DPIDR_ADDRESS, DP_RDBUFF_ADDRESS,
    IDLE_CYCLES_AFTER_WRITE, MAX_TRANSFER_BATCH,
};

verus! {

/// Pipeline bookkeeping carried from one transfer to the next.
pub struct PipelineFlags {
    /// The previous transfer was an AP read: its value is still in flight.
    pub need_ap_read: bool,
    /// The previous transfer was an AP write: it may sit in the DP buffer.
    pub buffered_write: bool,
    /// The previous transfer was a write: its status is still in flight.
    pub write_response_pending: bool,
}

/// One frame of the burst as it goes on the wire.
pub struct Frame {
    pub ap: bool,
    pub kind: TransferType,
    pub address: u16,
}

pub open spec fn initial_flags() -> PipelineFlags {
    PipelineFlags { need_ap_read: false, buffered_write: false, write_response_pending: false }
}

pub open spec fn flags_after(t: SwdTransfer) -> PipelineFlags {
    PipelineFlags {
        need_ap_read: t.is_ap_read(),
        buffered_write: t.is_ap_write(),
        write_response_pending: t.is_write(),
    }
}

/// The flags in force when transfer `i` of the batch is emitted.
pub open spec fn flags_before(ts: Seq<SwdTransfer>, i: int) -> PipelineFlags {
    if i <= 0 {
        initial_flags()
    } else {
        flags_after(ts[i - 1])
    }
}

/// A DP access the DP will stall while its write buffer drains: a write to
/// ABORT, or a read of DPIDR or CTRL/STAT.
pub open spec fn is_stall_target(t: SwdTransfer) -> bool {
    ||| (t.port is DebugPort && t.address == DP_ABORT_ADDRESS && t.is_write())
    ||| (t.port is DebugPort && t.address == DP_DPIDR_ADDRESS && t.is_read())
    ||| (t.port is DebugPort && t.address == DP_CTRL_STAT_ADDRESS && t.is_read())
}

/// How many auxiliary RDBUFF reads go on the wire just before `t`, given
/// the flags the previous transfer left behind.
pub open spec fn aux_before(t: SwdTransfer, f: PipelineFlags) -> nat {
    (if f.need_ap_read && !t.is_ap_read() {
        1nat
    } else {
        0nat
    }) + (if f.buffered_write && is_stall_target(t) {
        1nat
    } else {
        0nat
    })
}

pub open spec fn frame_of(t: SwdTransfer) -> Frame {
    Frame { ap: t.is_ap(), kind: t.spec_transfer_type(), address: t.address }
}

/// The auxiliary frame: a DP read of RDBUFF.
pub open spec fn rdbuff_frame() -> Frame {
    Frame { ap: false, kind: TransferType::Read, address: DP_RDBUFF_ADDRESS }
}

/// The frames emitted for one transfer: its auxiliary reads, then itself.
pub open spec fn frames_for(t: SwdTransfer, f: PipelineFlags) -> Seq<Frame> {
    (if f.need_ap_read && !t.is_ap_read() {
        seq![rdbuff_frame()]
    } else {
        Seq::<Frame>::empty()
    }) + (if f.buffered_write && is_stall_target(t) {
        seq![rdbuff_frame()]
    } else {
        Seq::<Frame>::empty()
    }) + seq![frame_of(t)]
}

/// All frames the loop over the batch emits, without the trailing drain.
pub open spec fn planned_frames(ts: Seq<SwdTransfer>) -> Seq<Frame>
    decreases ts.len(),
{
    if ts.len() == 0 {
        Seq::<Frame>::empty()
    } else {
        planned_frames(ts.drop_last()) + frames_for(ts.last(), flags_before(ts, ts.len() - 1))
    }
}

/// After the batch, anything still in flight is drained by one more RDBUFF
/// read.
pub open spec fn needs_trailing(ts: Seq<SwdTransfer>) -> bool
    recommends
        ts.len() > 0,
{
    let f = flags_after(ts.last());
    f.need_ap_read || f.write_response_pending || f.buffered_write
}

/// The whole burst.
pub open spec fn all_frames(ts: Seq<SwdTransfer>) -> Seq<Frame> {
    if ts.len() > 0 && needs_trailing(ts) {
        planned_frames(ts) + seq![rdbuff_frame()]
    } else {
        planned_frames(ts)
    }
}

/// Position of transfer `i`'s own frame in the burst.
pub open spec fn own_frame_index(ts: Seq<SwdTransfer>, i: int) -> int {
    planned_frames(ts.take(i)).len() + aux_before(ts[i], flags_before(ts, i)) as int
}

/// A transfer whose result arrives one frame late: an AP read (value
/// pipelined) or any write (status reported by the next ACK).
pub open spec fn pipelined(t: SwdTransfer) -> bool {
    t.is_ap_read() || t.is_write()
}

/// The emitted frame whose parsed response belongs to transfer `i`.
pub open spec fn result_index(ts: Seq<SwdTransfer>, i: int) -> int {
    own_frame_index(ts, i) + if pipelined(ts[i]) {
        1int
    } else {
        0int
    }
}

/// Wire length of one frame: 48 bits, plus the idle cycles after a write.
pub open spec fn frame_wire_len(f: Frame) -> nat {
    48 + if f.kind is Write {
        IDLE_CYCLES_AFTER_WRITE as nat
    } else {
        0nat
    }
}

/// The SWDIO bits of one frame, idle cycles included.
pub open spec fn frame_io(f: Frame) -> Seq<bool> {
    swd_frame_io(f.ap, f.kind, f.address) + if f.kind is Write {
        Seq::new(IDLE_CYCLES_AFTER_WRITE as nat, |i: int| false)
    } else {
        Seq::<bool>::empty()
    }
}

/// The direction bits of one frame; idle cycles are driven by the probe.
pub open spec fn frame_dir(f: Frame) -> Seq<bool> {
    swd_frame_dir(f.kind) + if f.kind is Write {
        Seq::new(IDLE_CYCLES_AFTER_WRITE as nat, |i: int| true)
    } else {
        Seq::<bool>::empty()
    }
}

pub open spec fn frames_io(fs: Seq<Frame>) -> Seq<bool>
    decreases fs.len(),
{
    if fs.len() == 0 {
        Seq::<bool>::empty()
    } else {
        frames_io(fs.drop_last()) + frame_io(fs.last())
    }
}

pub open spec fn frames_dir(fs: Seq<Frame>) -> Seq<bool>
    decreases fs.len(),
{
    if fs.len() == 0 {
        Seq::<bool>::empty()
    } else {
        frames_dir(fs.drop_last()) + frame_dir(fs.last())
    }
}

pub open spec fn frames_wire_len(fs: Seq<Frame>) -> nat
    decreases fs.len(),
{
    if fs.len() == 0 {
        0
    } else {
        frames_wire_len(fs.drop_last()) + frame_wire_len(fs.last())
    }
}

/// Where frame `i`'s sampled bits start in the response stream.
pub open spec fn frame_offset(fs: Seq<Frame>, i: int) -> nat {
    frames_wire_len(fs.take(i))
}

pub open spec fn frame_direction(f: Frame) -> TransferDirection {
    match f.kind {
        TransferType::Read => TransferDirection::Read,
        TransferType::Write(_) => TransferDirection::Write,
    }
}

/// The parsed response of every emitted frame, each at its own cursor.
pub open spec fn spec_parse_all(fs: Seq<Frame>, bits: Seq<bool>) -> Seq<Result<u32, DapError>> {
    Seq::new(fs.len(), |i: int| spec_parse_response(bits.skip(frame_offset(fs, i) as int), fs[i].kind))
}

/// How one transfer absorbs the response of its result frame.
pub open spec fn apply_response(t: SwdTransfer, r: Result<u32, DapError>) -> SwdTransfer {
    match r {
        Result::Ok(v) => SwdTransfer {
            value: if t.is_read() {
                v
            } else {
                t.value
            },
            status: TransferStatus::Success,
            ..t
        },
        Result::Err(e) => SwdTransfer { status: TransferStatus::Failed(e), ..t },
    }
}

/// The batch after one burst whose sampled bits were `bits`.
pub open spec fn spec_transfer_results(ts: Seq<SwdTransfer>, bits: Seq<bool>) -> Seq<SwdTransfer> {
    Seq::new(
        ts.len(),
        |k: int| apply_response(ts[k], spec_parse_all(all_frames(ts), bits)[result_index(ts, k)]),
    )
}

/// Unrolling `planned_frames` one transfer at a time, in emission order.
pub proof fn lemma_planned_frames_step(ts: Seq<SwdTransfer>, i: int)
    requires
        0 <= i < ts.len(),
    ensures
        planned_frames(ts.take(i + 1)) == planned_frames(ts.take(i)) + frames_for(
            ts[i],
            flags_before(ts, i),
        ),
{
    let pre = ts.take(i + 1);
    assert(pre.drop_last() =~= ts.take(i));
    assert(pre.last() == ts[i]);
    if i == 0 {
        assert(flags_before(pre, i) == flags_before(ts, i));
    } else {
        assert(pre[i - 1] == ts[i - 1]);
        assert(flags_before(pre, i) == flags_before(ts, i));
    }
}

/// Each transfer emits at least one frame and at most three.
pub proof fn lemma_planned_frames_growth(ts: Seq<SwdTransfer>, i: int)
    requires
        0 <= i <= ts.len(),
    ensures
        planned_frames(ts.take(i)).len() + (ts.len() - i) <= planned_frames(ts).len(),
        planned_frames(ts).len() <= planned_frames(ts.take(i)).len() + 3 * (ts.len() - i),
    decreases ts.len() - i,
{
    if i == ts.len() {
        assert(ts.take(i) =~= ts);
    } else {
        lemma_planned_frames_step(ts, i);
        lemma_planned_frames_growth(ts, i + 1);
    }
}

/// Total accounting of the burst: every batch transfer, its auxiliary
/// reads, and the trailing drain if one is due.
pub open spec fn aux_total(ts: Seq<SwdTransfer>) -> nat
    decreases ts.len(),
{
    if ts.len() == 0 {
        0
    } else {
        aux_total(ts.drop_last()) + aux_before(ts.last(), flags_before(ts, ts.len() - 1))
    }
}

/// The burst holds exactly one frame per batch transfer plus the auxiliary
/// frames the pipeline rules demand for that exact sequence.
pub proof fn lemma_frame_count(ts: Seq<SwdTransfer>)
    requires
        ts.len() >= 1,
    ensures
        all_frames(ts).len() == ts.len() + aux_total(ts) + (if needs_trailing(ts) {
            1nat
        } else {
            0nat
        }),
{
    lemma_planned_count(ts);
}

proof fn lemma_planned_count(ts: Seq<SwdTransfer>)
    ensures
        planned_frames(ts).len() == ts.len() + aux_total(ts),
    decreases ts.len(),
{
    if ts.len() > 0 {
        lemma_planned_count(ts.drop_last());
    }
}

/// Every response stream offset stays within the burst's total length.
pub proof fn lemma_frame_offset_step(fs: Seq<Frame>, i: int)
    requires
        0 <= i < fs.len(),
    ensures
        frame_offset(fs, i + 1) == frame_offset(fs, i) + frame_wire_len(fs[i]),
{
    let pre = fs.take(i + 1);
    assert(pre.drop_last() =~= fs.take(i));
    assert(pre.last() == fs[i]);
}

pub proof fn lemma_frame_offset_le_total(fs: Seq<Frame>, i: int)
    requires
        0 <= i <= fs.len(),
    ensures
        frame_offset(fs, i) <= frames_wire_len(fs),
    decreases fs.len() - i,
{
    if i == fs.len() {
        assert(fs.take(i) =~= fs);
    } else {
        lemma_frame_offset_step(fs, i);
        lemma_frame_offset_le_total(fs, i + 1);
    }
}

/// The wire image of the burst is as long as the burst says it is.
pub proof fn lemma_frames_io_len(fs: Seq<Frame>)
    ensures
        frames_io(fs).len() == frames_wire_len(fs),
        frames_dir(fs).len() == frames_wire_len(fs),
    decreases fs.len(),
{
    if fs.len() > 0 {
        lemma_frames_io_len(fs.drop_last());
        crate::swd::lemma_frame_len(fs.last().ap, fs.last().kind, fs.last().address);
    }
}

/// Every recorded result index points at a frame of the burst.
pub proof fn lemma_result_index_bounds(ts: Seq<SwdTransfer>, k: int)
    requires
        0 <= k < ts.len(),
    ensures
        0 <= result_index(ts, k) < all_frames(ts).len(),
{
    lemma_planned_frames_step(ts, k);
    lemma_planned_frames_growth(ts, k + 1);
    if k == ts.len() - 1 {
        assert(ts.take(k + 1) =~= ts);
        if pipelined(ts[k]) {
            assert(needs_trailing(ts));
        }
    }
}

/// A transfer whose result is pipelined — an AP read, or any write — takes
/// its response from the frame right after its own; every other transfer
/// takes it from its own frame.
pub proof fn lemma_pipelined_result_on_next_frame(ts: Seq<SwdTransfer>, k: int)
    requires
        0 <= k < ts.len(),
    ensures
        pipelined(ts[k]) ==> result_index(ts, k) == own_frame_index(ts, k) + 1,
        !pipelined(ts[k]) ==> result_index(ts, k) == own_frame_index(ts, k),
{
}

/// A standalone AP read ends with a trailing RDBUFF drain, and its value is
/// taken from that trailing frame.
pub proof fn lemma_standalone_ap_read(t: SwdTransfer)
    requires
        t.is_ap_read(),
    ensures
        all_frames(seq![t]) == seq![frame_of(t), rdbuff_frame()],
        result_index(seq![t], 0) == 1,
{
    let ts = seq![t];
    reveal_with_fuel(planned_frames, 2);
    assert(ts.drop_last() =~= Seq::<SwdTransfer>::empty());
    assert(ts.last() == t);
    assert(flags_before(ts, 0) == initial_flags());
    assert(frames_for(t, initial_flags()) =~= seq![frame_of(t)]);
    assert(planned_frames(ts) =~= seq![frame_of(t)]);
    assert(needs_trailing(ts));
    assert(all_frames(ts) =~= seq![frame_of(t), rdbuff_frame()]);
    assert(ts.take(0) =~= Seq::<SwdTransfer>::empty());
}

/// A batch that ends on a posted AP write, a pending write status or a
/// pipelined AP read never leaves the wire without a draining RDBUFF read
/// as its last frame.
pub proof fn lemma_posted_write_drained(ts: Seq<SwdTransfer>)
    requires
        ts.len() > 0,
        ts.last().is_ap_write() || ts.last().is_write() || ts.last().is_ap_read(),
    ensures
        all_frames(ts).len() > 0,
        all_frames(ts).last() == rdbuff_frame(),
{
    assert(needs_trailing(ts));
    lemma_planned_count(ts);
}

proof fn lemma_wire_len_per_frame(fs: Seq<Frame>)
    ensures
        frames_wire_len(fs) <= 64 * fs.len(),
    decreases fs.len(),
{
    if fs.len() > 0 {
        lemma_wire_len_per_frame(fs.drop_last());
    }
}

/// The burst of any admissible batch stays under the probe transport's
/// 16-bit cycle count: at most three frames per transfer plus the trailing
/// drain, none longer than 64 bits.
pub proof fn lemma_burst_fits_probe(ts: Seq<SwdTransfer>)
    ensures
        frames_wire_len(all_frames(ts)) <= 64 * (3 * ts.len() + 1),
        ts.len() <= MAX_TRANSFER_BATCH ==> frames_wire_len(all_frames(ts)) < 65535,
{
    lemma_planned_frames_growth(ts, 0);
    assert(ts.take(0) =~= Seq::<SwdTransfer>::empty());
    lemma_wire_len_per_frame(all_frames(ts));
}

/// The expected response direction of every emitted frame, in order.
pub open spec fn frames_directions(fs: Seq<Frame>) -> Seq<TransferDirection> {
    fs.map_values(|f: Frame| frame_direction(f))
}

proof fn lemma_frames_snoc(fs: Seq<Frame>, f: Frame)
    ensures
        frames_io(fs.push(f)) == frames_io(fs) + frame_io(f),
        frames_dir(fs.push(f)) == frames_dir(fs) + frame_dir(f),
        frames_wire_len(fs.push(f)) == frames_wire_len(fs) + frame_wire_len(f),
{
    assert(fs.push(f).drop_last() =~= fs);
    assert(fs.push(f).last() == f);
}

/// Lay the whole batch out as one wire burst: the bits to clock, the
/// direction of every emitted frame, and, per caller transfer, the index
/// of the frame carrying its result.
fn plan_transfers(transfers: &Vec<SwdTransfer>) -> (r: (IoSequence, Vec<TransferDirection>, Vec<
    usize,
>))
    requires
        transfers@.len() >= 1,
        transfers@.len() <= MAX_TRANSFER_BATCH,
    ensures
        ({
            let fs = all_frames(transfers@);
            &&& r.0.wf()
            &&& r.0.io@ == frames_io(fs)
            &&& r.0.direction@ == frames_dir(fs)
            &&& r.1@ == frames_directions(fs)
            &&& r.2@.len() == transfers@.len()
            &&& forall|k: int|
                0 <= k < transfers@.len() ==> r.2@[k] as int == result_index(transfers@, k)
        }),
{
    let ghost ts = transfers@;
    let mut io_sequence = IoSequence::new();
    let mut expected: Vec<TransferDirection> = Vec::new();
    let mut indices: Vec<usize> = Vec::new();
    let mut num_transfers: usize = 0;
    let mut need_ap_read = false;
    let mut buffered_write = false;
    let mut write_response_pending = false;
    let mut i: usize = 0;
    proof {
        assert(ts.take(0) =~= Seq::<SwdTransfer>::empty());
    }
    while i < transfers.len()
        invariant
            ts == transfers@,
            1 <= ts.len() <= MAX_TRANSFER_BATCH,
            i <= ts.len(),
            io_sequence.wf(),
            io_sequence.io@ == frames_io(planned_frames(ts.take(i as int))),
            io_sequence.direction@ == frames_dir(planned_frames(ts.take(i as int))),
            num_transfers == planned_frames(ts.take(i as int)).len(),
            num_transfers <= 3 * i,
            expected@ == frames_directions(planned_frames(ts.take(i as int))),
            indices@.len() == i,
            forall|k: int| 0 <= k < i ==> indices@[k] as int == result_index(ts, k),
            need_ap_read == flags_before(ts, i as int).need_ap_read,
            buffered_write == flags_before(ts, i as int).buffered_write,
            write_response_pending == flags_before(ts, i as int).write_response_pending,
        decreases ts.len() - i,
    {
        let t = transfers[i];
        let ghost fs_pre = planned_frames(ts.take(i as int));
        let ghost mut g = fs_pre;
        let is_ap_read = matches!(t.port, PortType::AccessPort(_)) && t.direction
            == TransferDirection::Read;

        // Harvest a pending AP read value unless the next transfer is
        // itself an AP read.
        if need_ap_read && !is_ap_read {
            let rdbuff = build_swd_transfer(
                PortType::DebugPort,
                TransferType::Read,
                DP_RDBUFF_ADDRESS,
            );
            io_sequence.extend(&rdbuff);
            expected.push(TransferDirection::Read);
            num_transfers = num_transfers + 1;
            proof {
                lemma_frames_snoc(g, rdbuff_frame());
                assert(frame_io(rdbuff_frame()) =~= swd_frame_io(
                    false,
                    TransferType::Read,
                    DP_RDBUFF_ADDRESS,
                ));
                assert(frame_dir(rdbuff_frame()) =~= swd_frame_dir(TransferType::Read));
                g = g.push(rdbuff_frame());
                assert(io_sequence.io@ =~= frames_io(g));
                assert(io_sequence.direction@ =~= frames_dir(g));
                assert(expected@ =~= frames_directions(g));
            }
        }

        // A posted AP write must drain before ABORT, DPIDR or CTRL/STAT
        // can be trusted: an RDBUFF read stalls until the buffer is empty.
        if buffered_write {
            let abort_write = t.port == PortType::DebugPort && t.address == DP_ABORT_ADDRESS
                && t.direction == TransferDirection::Write;
            let dpidr_read = t.port == PortType::DebugPort && t.address == DP_DPIDR_ADDRESS
                && t.direction == TransferDirection::Read;
            let ctrl_stat_read = t.port == PortType::DebugPort && t.address == DP_CTRL_STAT_ADDRESS
                && t.direction == TransferDirection::Read;
            if abort_write || dpidr_read || ctrl_stat_read {
                let rdbuff = build_swd_transfer(
                    PortType::DebugPort,
                    TransferType::Read,
                    DP_RDBUFF_ADDRESS,
                );
                io_sequence.extend(&rdbuff);
                expected.push(TransferDirection::Read);
                num_transfers = num_transfers + 1;
                proof {
                    lemma_frames_snoc(g, rdbuff_frame());
                    assert(frame_io(rdbuff_frame()) =~= swd_frame_io(
                        false,
                        TransferType::Read,
                        DP_RDBUFF_ADDRESS,
                    ));
                    assert(frame_dir(rdbuff_frame()) =~= swd_frame_dir(TransferType::Read));
                    g = g.push(rdbuff_frame());
                    assert(io_sequence.io@ =~= frames_io(g));
                    assert(io_sequence.direction@ =~= frames_dir(g));
                    assert(expected@ =~= frames_directions(g));
                }
            }
        }

        // The transfer's own frame.
        let own = build_swd_transfer(t.port, t.transfer_type(), t.address);
        io_sequence.extend(&own);

        // Update the pipeline flags for what this transfer leaves behind.
        need_ap_read = is_ap_read;
        buffered_write = matches!(t.port, PortType::AccessPort(_)) && t.direction
            == TransferDirection::Write;
        write_response_pending = t.direction == TransferDirection::Write;

        // Idle cycles give the DP time to commit the write.
        if write_response_pending {
            let idle = crate::bits::repeated_bits(false, IDLE_CYCLES_AFTER_WRITE);
            io_sequence.add_output_sequence(idle.as_slice());
        }
        proof {
            lemma_frames_snoc(g, frame_of(t));
            g = g.push(frame_of(t));
            assert(io_sequence.io@ =~= frames_io(g));
            assert(io_sequence.direction@ =~= frames_dir(g));
        }

        // The frame whose response carries this transfer's result.
        if need_ap_read || write_response_pending {
            indices.push(num_transfers + 1);
        } else {
            indices.push(num_transfers);
        }
        expected.push(t.direction);
        num_transfers = num_transfers + 1;

        proof {
            lemma_planned_frames_step(ts, i as int);
            assert(g =~= planned_frames(ts.take(i + 1)));
            assert(expected@ =~= frames_directions(planned_frames(ts.take(i + 1))));
            assert(indices@[i as int] as int == result_index(ts, i as int));
        }
        i = i + 1;
    }

    proof {
        assert(ts.take(ts.len() as int) =~= ts);
    }

    // Drain whatever is still in flight.
    if need_ap_read || write_response_pending || buffered_write {
        let rdbuff = build_swd_transfer(PortType::DebugPort, TransferType::Read, DP_RDBUFF_ADDRESS);
        io_sequence.extend(&rdbuff);
        expected.push(TransferDirection::Read);
        proof {
            lemma_frames_snoc(planned_frames(ts), rdbuff_frame());
            assert(frame_io(rdbuff_frame()) =~= swd_frame_io(
                false,
                TransferType::Read,
                DP_RDBUFF_ADDRESS,
            ));
            assert(frame_dir(rdbuff_frame()) =~= swd_frame_dir(TransferType::Read));
            assert(all_frames(ts) =~= planned_frames(ts).push(rdbuff_frame()));
            assert(io_sequence.io@ =~= frames_io(all_frames(ts)));
            assert(io_sequence.direction@ =~= frames_dir(all_frames(ts)));
            assert(expected@ =~= frames_directions(all_frames(ts)));
        }
    } else {
        proof {
            assert(all_frames(ts) =~= planned_frames(ts));
        }
    }

    (io_sequence, expected, indices)
}

/// The payload a write frame is parsed against is immaterial: a write
/// response carries no data.
proof fn lemma_parse_write_value(resp: Seq<bool>, v1: u32, v2: u32)
    ensures
        spec_parse_response(resp, TransferType::Write(v1)) == spec_parse_response(
            resp,
            TransferType::Write(v2),
        ),
{
}

/// Walk the sampled stream, one frame's worth of bits at a time.
fn parse_responses(
    result: &Vec<bool>,
    expected: &Vec<TransferDirection>,
    Ghost(fs): Ghost<Seq<Frame>>,
) -> (r: Vec<Result<u32, DapError>>)
    requires
        expected@ == frames_directions(fs),
        result@.len() == frames_wire_len(fs),
    ensures
        r@ == spec_parse_all(fs, result@),
{
    let mut responses: Vec<Result<u32, DapError>> = Vec::new();
    let total = result.len();
    let mut read_index: usize = 0;
    let mut i: usize = 0;
    proof {
        assert(fs.take(0) =~= Seq::<Frame>::empty());
    }
    while i < expected.len()
        invariant
            expected@ == frames_directions(fs),
            result@.len() == frames_wire_len(fs),
            total == result@.len(),
            i <= fs.len(),
            read_index as nat == frame_offset(fs, i as int),
            responses@.len() == i,
            forall|j: int| 0 <= j < i ==> responses@[j] == spec_parse_all(fs, result@)[j],
        decreases fs.len() - i,
    {
        let dir = expected[i];
        let response_type = match dir {
            TransferDirection::Read => TransferType::Read,
            TransferDirection::Write => TransferType::Write(0),
        };
        proof {
            assert(i < fs.len());
            lemma_frame_offset_step(fs, i as int);
            lemma_frame_offset_le_total(fs, i as int + 1);
            assert(frame_offset(fs, i as int + 1) == read_index as nat + frame_wire_len(
                fs[i as int],
            ));
            assert(frame_wire_len(fs[i as int]) >= 48);
            assert(read_index as nat + frame_wire_len(fs[i as int]) <= result@.len());
        }
        let frame_bits = slice_subrange(result.as_slice(), read_index, read_index + 48);
        let response = parse_swd_response(frame_bits, response_type);
        responses.push(response);
        proof {
            let off = frame_offset(fs, i as int) as int;
            let tail = result@.skip(off);
            assert(frame_bits@ =~= result@.subrange(off, off + 48));
            assert(forall|q: int| 0 <= q < 48 ==> frame_bits@[q] == tail[q]);
            lemma_parse_depends_on_frame_only(frame_bits@, tail, response_type);
            lemma_parse_write_value(tail, 0, if fs[i as int].kind is Write {
                fs[i as int].kind->Write_0
            } else {
                0
            });
            assert(responses@[i as int] == spec_parse_all(fs, result@)[i as int]);
        }
        proof {
            if frame_direction(fs[i as int]) is Write {
                assert(fs[i as int].kind is Write);
                assert(frame_wire_len(fs[i as int]) == 48 + IDLE_CYCLES_AFTER_WRITE);
            }
        }
        read_index = read_index + response_length(response_type);
        if matches!(dir, TransferDirection::Write) {
            read_index = read_index + IDLE_CYCLES_AFTER_WRITE;
        }
        i = i + 1;
    }
    responses
}

/// Submit a batch of transfers as one burst and map every response back to
/// the transfer it belongs to. On success each transfer ends `Success` or
/// `Failed`, with a read's `value` replaced by the word its result frame
/// carried; on a transport error the batch is left untouched.
pub fn perform_transfers<P: RawSwdIo>(probe: &mut P, transfers: &mut Vec<SwdTransfer>) -> (r:
    Result<(), DebugProbeError>)
    requires
        old(transfers)@.len() >= 1,
        old(transfers)@.len() <= MAX_TRANSFER_BATCH,
    ensures
        final(transfers)@.len() == old(transfers)@.len(),
        r is Err ==> final(transfers)@ == old(transfers)@,
        r is Ok ==> exists|bits: Seq<bool>|
            {
                &&& bits.len() == frames_wire_len(all_frames(old(transfers)@))
                &&& final(transfers)@ == #[trigger] spec_transfer_results(old(transfers)@, bits)
            },
        r is Ok ==> forall|k: int|
            0 <= k < old(transfers)@.len() ==> {
                &&& !((#[trigger] final(transfers)@[k]).status is Pending)
                &&& final(transfers)@[k].port == old(transfers)@[k].port
                &&& final(transfers)@[k].address == old(transfers)@[k].address
                &&& final(transfers)@[k].direction == old(transfers)@[k].direction
            },
{
    let ghost ts = old(transfers)@;
    let (io_sequence, expected, indices) = plan_transfers(transfers);

    proof {
        lemma_frames_io_len(all_frames(ts));
    }
    let result = match probe.swd_io(io_sequence.direction_bits(), io_sequence.io_bits()) {
        Result::Ok(bits) => bits,
        Result::Err(e) => {
            return Result::Err(e);
        },
    };

    let responses = parse_responses(&result, &expected, Ghost(all_frames(ts)));

    let mut updated: Vec<SwdTransfer> = Vec::new();
    let mut k: usize = 0;
    while k < transfers.len()
        invariant
            ts == transfers@,
            1 <= ts.len() <= MAX_TRANSFER_BATCH,
            indices@.len() == ts.len(),
            forall|j: int| 0 <= j < ts.len() ==> indices@[j] as int == result_index(ts, j),
            responses@ == spec_parse_all(all_frames(ts), result@),
            result@.len() == frames_wire_len(all_frames(ts)),
            k <= ts.len(),
            updated@.len() == k,
            forall|j: int| 0 <= j < k ==> updated@[j] == spec_transfer_results(ts, result@)[j],
        decreases ts.len() - k,
    {
        proof {
            lemma_result_index_bounds(ts, k as int);
        }
        let idx = indices[k];
        let t = transfers[k];
        let updated_t = match responses[idx] {
            Result::Ok(v) => {
                let mut nt = t;
                if matches!(t.direction, TransferDirection::Read) {
                    nt.value = v;
                }
                nt.status = TransferStatus::Success;
                nt
            },
            Result::Err(e) => {
                let mut nt = t;
                nt.status = TransferStatus::Failed(e);
                nt
            },
        };
        updated.push(updated_t);
        proof {
            assert(updated@[k as int] == apply_response(ts[k as int], responses@[result_index(ts, k as int)]));
        }
        k = k + 1;
    }
    *transfers = updated;
    proof {
        assert(transfers@ =~= spec_transfer_results(ts, result@));
        assert(exists|bits: Seq<bool>|
            {
                &&& bits.len() == frames_wire_len(all_frames(ts))
                &&& transfers@ == #[trigger] spec_transfer_results(ts, bits)
            }) by {
            assert(transfers@ == spec_transfer_results(ts, result@));
        }
        assert forall|j: int| 0 <= j < ts.len() implies {
            &&& !((#[trigger] transfers@[j]).status is Pending)
            &&& transfers@[j].port == ts[j].port
            &&& transfers@[j].address == ts[j].address
            &&& transfers@[j].direction == ts[j].direction
        } by {
            assert(transfers@[j] == apply_response(ts[j], spec_parse_all(all_frames(ts), result@)[result_index(ts, j)]));
        }
    }
    Result::Ok(())
}

} // verus!
