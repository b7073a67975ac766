//! The bus transport: the panel-command protocol that puts a window transfer
//! on the wire.
//!
//! One transfer becomes exactly one address-window command followed by the
//! pixel stream, two big-endian bytes per packed pixel, cut into chunks no
//! larger than the staging buffer.  The staging buffer lives in fast,
//! bus-capable memory and its size is a throughput trade-off, not a
//! correctness parameter: a bigger buffer means fewer bulk transfers per
//! rectangle.

use vstd::prelude::*;

use vstd::arithmetic::mul::lemma_mul_inequality;

use crate::transfer::WindowTransfer;

verus! {

/// Size in bytes of the reusable staging buffer.  Sized for bulk transfers:
/// with full-framebuffer rendering one dirty rectangle is often several
/// kilobytes, and the per-transfer setup cost is amortized over each chunk.
pub const SPI_BUFFER_SIZE: usize = 4096;

/// Fixed panel bring-up parameters.  The panel is wired for BGR color order
/// with inverted colors, exposes a native portrait resolution, and is rotated
/// a quarter turn and un-mirrored so the logical landscape window maps onto
/// it; the bus runs write-only at a fixed rate.  These are configuration
/// constants, never negotiated at runtime.
#[derive(Clone, Copy, Debug, PartialEq, Eq, Structural)]
pub struct PanelConfig {
    pub native_width: u16,
    pub native_height: u16,
    pub color_order_bgr: bool,
    pub invert_colors: bool,
    pub rotation_degrees: u16,
    pub flip_vertical: bool,
    pub spi_baudrate_hz: u32,
    pub write_only: bool,
}

/// The bring-up parameters for the badge's panel.
pub fn panel_config() -> (c: PanelConfig)
    ensures
        (c == PanelConfig {
            native_width: 320u16,
            native_height: 480u16,
            color_order_bgr: true,
            invert_colors: true,
            rotation_degrees: 90u16,
            flip_vertical: true,
            spi_baudrate_hz: 80_000_000u32,
            write_only: true,
        }),
{
    PanelConfig {
        native_width: 320,
        native_height: 480,
        color_order_bgr: true,
        invert_colors: true,
        rotation_degrees: 90,
        flip_vertical: true,
        spi_baudrate_hz: 80_000_000,
        write_only: true,
    }
}

/// One bus-level operation against the panel.
pub enum BusOp {
    /// Select the inclusive address window `(x0, y0)..(x1, y1)`.
    SetWindow { x0: u16, y0: u16, x1: u16, y1: u16 },
    /// Stream one staging-buffer-sized batch of pixel bytes.
    WriteChunk { bytes: Vec<u8> },
}

/// The wire encoding of a pixel stream: two bytes per pixel, high byte first.
pub open spec fn pixel_stream_bytes(pixels: Seq<u16>) -> Seq<u8> {
    Seq::new(
        2 * pixels.len(),
        |i: int|
            if i % 2 == 0 {
                (pixels[i / 2] >> 8) as u8
            } else {
                (pixels[i / 2] & 0xff) as u8
            },
    )
}

/// Encode a pixel stream for the wire.
pub fn encode_pixels(pixels: &Vec<u16>) -> (bytes: Vec<u8>)
    requires
        2 * pixels@.len() <= usize::MAX,
    ensures
        bytes@ == pixel_stream_bytes(pixels@),
{
    let mut bytes: Vec<u8> = Vec::new();
    let n = pixels.len();
    let mut i: usize = 0;
    while i < n
        invariant
            n == pixels@.len(),
            2 * n <= usize::MAX,
            i <= n,
            bytes@.len() == 2 * i,
            forall|k: int|
                0 <= k < bytes@.len() ==> bytes@[k] == pixel_stream_bytes(pixels@)[k],
        decreases n - i,
    {
        let p = pixels[i];
        bytes.push((p >> 8) as u8);
        bytes.push((p & 0xff) as u8);
        i += 1;
    }
    proof {
        assert(bytes@ =~= pixel_stream_bytes(pixels@));
    }
    bytes
}

/// `op` is chunk number `k` (zero-based) of `stream` under `capacity`-sized
/// staging: the bytes from `k * capacity` up to the next boundary or the end
/// of the stream.
pub open spec fn is_chunk_of(op: BusOp, stream: Seq<u8>, capacity: int, k: int) -> bool {
    match op {
        BusOp::WriteChunk { bytes } => bytes@ == stream.subrange(
            k * capacity,
            if (k + 1) * capacity <= stream.len() {
                (k + 1) * capacity
            } else {
                stream.len() as int
            },
        ),
        _ => false,
    }
}

/// How many staging chunks a `total`-byte stream needs.
pub open spec fn chunk_count(total: int, capacity: int) -> int {
    (total + capacity - 1) / capacity
}

/// Put one window transfer on the wire: exactly one address-window command,
/// then the whole pixel stream in staging-buffer-sized chunks.
pub fn write_window(t: &WindowTransfer, staging_capacity: usize) -> (ops: Vec<BusOp>)
    requires
        staging_capacity > 0,
        2 * t.pixels@.len() + staging_capacity <= usize::MAX,
    ensures
        ops@.len() == 1 + chunk_count(2 * t.pixels@.len() as int, staging_capacity as int),
        (ops@[0] == BusOp::SetWindow { x0: t.x0, y0: t.y0, x1: t.x1, y1: t.y1 }),
        forall|i: int|
            1 <= i < ops@.len() ==> is_chunk_of(
                #[trigger] ops@[i],
                pixel_stream_bytes(t.pixels@),
                staging_capacity as int,
                i - 1,
            ),
{
    let stream = encode_pixels(&t.pixels);
    let total = stream.len();
    let cap = staging_capacity;
    let mut ops: Vec<BusOp> = Vec::new();
    ops.push(BusOp::SetWindow { x0: t.x0, y0: t.y0, x1: t.x1, y1: t.y1 });
    let mut start: usize = 0;
    proof {
        assert((ops@.len() - 1) * (cap as int) == 0) by (nonlinear_arith)
            requires
                ops@.len() == 1,
        ;
    }
    while start < total
        invariant
            stream@ == pixel_stream_bytes(t.pixels@),
            total == stream@.len(),
            cap == staging_capacity,
            cap > 0,
            2 * t.pixels@.len() + cap <= usize::MAX,
            start == (ops@.len() - 1) * cap,
            start <= total + cap,
            ops@.len() >= 1,
            ops@.len() >= 2 ==> (ops@.len() - 2) * cap < total,
            (ops@[0] == BusOp::SetWindow { x0: t.x0, y0: t.y0, x1: t.x1, y1: t.y1 }),
            forall|i: int|
                1 <= i < ops@.len() ==> is_chunk_of(
                    #[trigger] ops@[i],
                    stream@,
                    cap as int,
                    i - 1,
                ),
        decreases total + cap - start,
    {
        let end: usize = if total - start < cap {
            total
        } else {
            start + cap
        };
        let mut chunk: Vec<u8> = Vec::new();
        let mut j: usize = start;
        while j < end
            invariant
                start <= j <= end <= total,
                total == stream@.len(),
                chunk@.len() == j - start,
                forall|k: int| 0 <= k < chunk@.len() ==> chunk@[k] == stream@[start + k],
            decreases end - j,
        {
            chunk.push(stream[j]);
            j += 1;
        }
        proof {
            let k = (ops@.len() - 1) as int;
            assert((k + 1) * (cap as int) == k * (cap as int) + cap) by (nonlinear_arith);
            assert(chunk@ =~= stream@.subrange(
                k * (cap as int),
                if (k + 1) * (cap as int) <= stream@.len() {
                    (k + 1) * (cap as int)
                } else {
                    stream@.len() as int
                },
            ));
        }
        proof {
            let k = ops@.len() as int;
            assert(k * (cap as int) == (k - 1) * (cap as int) + cap) by (nonlinear_arith);
        }
        ops.push(BusOp::WriteChunk { bytes: chunk });
        start = start + cap;
    }
    proof {
        let chunks = ops@.len() - 1;
        if chunks == 0 {
            assert(chunks * (cap as int) == 0) by (nonlinear_arith)
                requires
                    chunks == 0,
            ;
        }
        assert(chunks * (cap as int) >= total);
        if chunks > 0 {
            assert((chunks - 1) * (cap as int) == chunks * (cap as int) - cap) by (nonlinear_arith);
        }
        assert(chunks == chunk_count(total as int, cap as int)) by (nonlinear_arith)
            requires
                cap > 0,
                total >= 0,
                chunks * (cap as int) >= total,
                chunks == 0 ==> total == 0,
                chunks > 0 ==> (chunks - 1) * (cap as int) < total,
        ;
    }
    ops
}

/// The bytes a sequence of bus operations streams: window commands move no
/// data, chunks stream theirs in order.
pub open spec fn streamed_bytes(ops: Seq<BusOp>) -> Seq<u8>
    decreases ops.len(),
{
    if ops.len() == 0 {
        Seq::empty()
    } else {
        (match ops[0] {
            BusOp::WriteChunk { bytes } => bytes@,
            BusOp::SetWindow { .. } => Seq::empty(),
        }) + streamed_bytes(ops.drop_first())
    }
}

proof fn lemma_chunks_reassemble_from(ops: Seq<BusOp>, stream: Seq<u8>, capacity: int, j: int)
    requires
        capacity > 0,
        0 <= j <= ops.len(),
        forall|i: int| 0 <= i < ops.len() ==> is_chunk_of(#[trigger] ops[i], stream, capacity, i),
        ops.len() * capacity >= stream.len(),
        forall|i: int| 0 <= i < ops.len() ==> #[trigger] (i * capacity) < stream.len(),
    ensures
        streamed_bytes(ops.skip(j)) == stream.skip(
            if j * capacity <= stream.len() {
                j * capacity
            } else {
                stream.len() as int
            },
        ),
    decreases ops.len() - j,
{
    if j == ops.len() {
        assert(ops.skip(j) =~= Seq::<BusOp>::empty());
        assert(stream.skip(
            if j * capacity <= stream.len() {
                j * capacity
            } else {
                stream.len() as int
            },
        ) =~= Seq::<u8>::empty());
    } else {
        lemma_chunks_reassemble_from(ops, stream, capacity, j + 1);
        assert(ops.skip(j).drop_first() =~= ops.skip(j + 1));
        assert(ops.skip(j)[0] == ops[j]);
        assert(j * capacity < stream.len());
        assert((j + 1) * capacity == j * capacity + capacity) by (nonlinear_arith);
        let here = match ops[j] {
            BusOp::WriteChunk { bytes } => bytes@,
            BusOp::SetWindow { .. } => Seq::<u8>::empty(),
        };
        let cut = if (j + 1) * capacity <= stream.len() {
            (j + 1) * capacity
        } else {
            stream.len() as int
        };
        assert(here + stream.skip(cut) =~= stream.skip(j * capacity));
    }
}

/// Nothing is lost or duplicated on the wire: the chunks of one window
/// write, taken in order, reassemble exactly the transfer's encoded pixel
/// stream.
pub proof fn lemma_write_window_streams_whole_transfer(
    ops: Seq<BusOp>,
    stream: Seq<u8>,
    capacity: int,
)
    requires
        capacity > 0,
        ops.len() == 1 + chunk_count(stream.len() as int, capacity),
        ops[0] is SetWindow,
        forall|i: int|
            1 <= i < ops.len() ==> is_chunk_of(#[trigger] ops[i], stream, capacity, i - 1),
    ensures
        streamed_bytes(ops) == stream,
{
    let chunks = ops.skip(1);
    let n = chunks.len();
    assert(n == chunk_count(stream.len() as int, capacity));
    assert(n * capacity >= stream.len() && (forall|i: int|
        0 <= i < n ==> #[trigger] (i * capacity) < stream.len())) by {
        assert(n * capacity >= stream.len()) by (nonlinear_arith)
            requires
                capacity > 0,
                n == (stream.len() + capacity - 1) / capacity,
        ;
        assert forall|i: int| 0 <= i < n implies #[trigger] (i * capacity) < stream.len() by {
            assert(n >= 1);
            assert((n - 1) * capacity < stream.len()) by (nonlinear_arith)
                requires
                    capacity > 0,
                    n >= 1,
                    n == (stream.len() + capacity - 1) / capacity,
            ;
            lemma_mul_inequality(i, n - 1, capacity);
        }
    }
    assert(forall|i: int| 0 <= i < n ==> is_chunk_of(#[trigger] chunks[i], stream, capacity, i));
    lemma_chunks_reassemble_from(chunks, stream, capacity, 0);
    assert(chunks.skip(0) =~= chunks);
    assert(stream.skip(0) =~= stream);
    assert(ops.drop_first() =~= chunks);
    assert(streamed_bytes(ops) == streamed_bytes(chunks));
}

} // verus!
