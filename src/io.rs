//! Decoding of an Arrow IPC stream into record batches of a known row count.

use vstd::prelude::*;
use arrow::array::RecordBatch;
use arrow::error::ArrowError;
use arrow_ipc::reader::StreamReader;
use crate::text::{signed_decimal, signed_decimal_string};

verus! {

#[verifier::external_type_specification]
#[verifier::external_body]
pub struct ExArrowError(ArrowError);

/// One decoded record block of a result stream.
#[verifier::external_body]
pub struct Block {
    pub batch: RecordBatch,
}

#[verifier::external_type_specification]
#[verifier::external_body]
#[verifier::reject_recursive_types(R)]
pub struct ExStreamReader<R>(StreamReader<R>);

/// A failure to decode a result stream.
pub enum IoError {
    /// The stream, or one of its blocks, is not valid Arrow IPC.
    Arrow(ArrowError),
    /// A block holds another number of rows than the caller expected.
    RowCount { expected: i64, got: i64 },
}

/// Text of the `IoError: Expected <e> rows in arrow batch but got <g>.` message.
pub open spec fn row_count_message(expected: i64, got: i64) -> Seq<char> {
    "IoError: Expected "@ + signed_decimal(expected as int) + " rows in arrow batch but got "@
        + signed_decimal(got as int) + "."@
}

impl IoError {
    /// The one-line description of this error.
    pub open spec fn message_spec(&self) -> Seq<char> {
        match self {
            IoError::Arrow(_) => "IoError: ArrowError"@,
            IoError::RowCount { expected, got } => row_count_message(*expected, *got),
        }
    }

    /// Renders the one-line description of this error.
    pub fn message(&self) -> (r: String)
        ensures
            r@ == self.message_spec(),
    {
        match self {
            IoError::Arrow(_) => String::from_str("IoError: ArrowError"),
            IoError::RowCount { expected, got } => {
                let mut s = String::from_str("IoError: Expected ");
                let e = signed_decimal_string(*expected);
                s.append(e.as_str());
                s.append(" rows in arrow batch but got ");
                let g = signed_decimal_string(*got);
                s.append(g.as_str());
                s.append(".");
                s
            },
        }
    }

    /// Whether this error wraps an underlying cause.
    pub fn has_source(&self) -> (r: bool)
        ensures
            r == (self is Arrow),
    {
        match self {
            IoError::Arrow(_) => true,
            IoError::RowCount { .. } => false,
        }
    }
}

impl From<ArrowError> for IoError {
    fn from(error: ArrowError) -> (r: IoError) {
        IoError::Arrow(error)
    }
}

impl vstd::std_specs::convert::FromSpecImpl<ArrowError> for IoError {
    open spec fn obeys_from_spec() -> bool {
        true
    }

    open spec fn from_spec(error: ArrowError) -> IoError {
        IoError::Arrow(error)
    }
}

/// The record blocks of an Arrow IPC stream, in stream order, as arrow_ipc's
/// `StreamReader` reads them: the row count of each block, `None` for a block
/// that fails to decode, and `None` as a whole when the schema message that opens
/// the stream fails to decode.
pub uninterp spec fn ipc_blocks(stream: Seq<u8>) -> Option<Seq<Option<usize>>>;

/// The blocks that a `StreamReader` has not yet yielded, as `ipc_blocks` gives them.
pub uninterp spec fn reader_rest(reader: StreamReader<&[u8]>) -> Seq<Option<usize>>;

/// Whether arrow_ipc's `StreamReader` reads every message of the stream without
/// panicking. It does not on a record-batch message that names a buffer range
/// reaching past the message's body: the body is sliced at that range unchecked.
pub uninterp spec fn ipc_reads_without_panic(stream: Seq<u8>) -> bool;

/// Whether a `StreamReader` reads the rest of its stream without panicking.
pub uninterp spec fn reader_reads_without_panic(reader: StreamReader<&[u8]>) -> bool;

/// The number of rows of a decoded block.
pub uninterp spec fn rows_of(block: Block) -> usize;

/// Relies on arrow_ipc's `StreamReader::try_new`: reads the schema message that
/// opens the stream, without projection; the reader then holds all the blocks.
#[verifier::external_body]
fn open_stream<'a>(stream: &'a [u8]) -> (r: Result<StreamReader<&'a [u8]>, ArrowError>)
    ensures
        r is Ok == ipc_blocks(stream@) is Some,
        r matches Ok(reader) ==> reader_rest(reader) == ipc_blocks(stream@).unwrap()
            && reader_reads_without_panic(reader) == ipc_reads_without_panic(stream@),
{
    StreamReader::try_new(stream, None)
}

/// Relies on `Iterator::next` of arrow_ipc's `StreamReader`: `None` at the end of
/// the stream, else the next block, decoded or with its decoding error, on a
/// stream that it reads without panicking.
#[verifier::external_body]
fn next_block<'a>(reader: &mut StreamReader<&'a [u8]>) -> (r: Option<Result<Block, ArrowError>>)
    requires
        reader_reads_without_panic(*old(reader)),
    ensures
        r matches Some(Ok(_)) ==> reader_reads_without_panic(*final(reader)),
        reader_rest(*old(reader)).len() == 0 ==> r is None,
        reader_rest(*old(reader)).len() > 0 ==> match reader_rest(*old(reader))[0] {
            Some(n) => r matches Some(Ok(b)) && rows_of(b) == n && reader_rest(*final(reader))
                == reader_rest(*old(reader)).drop_first(),
            None => r matches Some(Err(_)),
        },
{
    reader.next().map(|b| b.map(|batch| Block { batch }))
}

/// Relies on arrow's `RecordBatch::num_rows`.
#[verifier::external_body]
fn block_rows(block: &Block) -> (r: usize)
    ensures
        r == rows_of(*block),
{
    block.batch.num_rows()
}

/// Whether a block of `rows` rows meets an expected count of `expected`.
pub open spec fn rows_match(rows: usize, expected: i64) -> bool {
    expected >= 0 && rows as int == expected as int
}

/// The running total after `k` accepted blocks: `expected` added `k` times, with
/// two's-complement wrap-around.
pub open spec fn running_total(k: nat, expected: i64) -> isize
    decreases k,
{
    if k == 0 {
        0
    } else {
        running_total((k - 1) as nat, expected).wrapping_add(expected as isize)
    }
}

/// Checks one decoded block of `rows` rows against the expected count. On a match
/// the running total grows by `expected`; otherwise the result is the
/// row-count error that carries both counts.
pub fn accept_block(total: isize, rows: usize, expected: i64) -> (r: Result<isize, IoError>)
    ensures
        rows_match(rows, expected) ==> r == Ok::<isize, IoError>(
            total.wrapping_add(expected as isize),
        ),
        !rows_match(rows, expected) ==> (r matches Err(IoError::RowCount { expected: e, got: g })
            && e == expected && g == rows as i64),
{
    if expected < 0 || rows as u64 != expected as u64 {
        Err(IoError::RowCount { expected, got: rows as i64 })
    } else {
        Ok(total.wrapping_add(expected as isize))
    }
}

/// A block that decodes and holds `expected` rows.
pub open spec fn block_ok(block: Option<usize>, expected: i64) -> bool {
    block matches Some(n) && rows_match(n, expected)
}

/// The first `k` blocks decode and hold `expected` rows each.
pub open spec fn good_prefix(blocks: Seq<Option<usize>>, expected: i64, k: int) -> bool {
    forall|i: int| 0 <= i < k ==> block_ok(#[trigger] blocks[i], expected)
}

/// The error that a failing block ends the decoding with.
pub open spec fn block_error(block: Option<usize>, expected: i64, r: Result<(Vec<Block>, isize), IoError>) -> bool {
    match block {
        Some(n) => r matches Err(IoError::RowCount { expected: e, got: g }) && e == expected && g == n
            as i64,
        None => r matches Err(IoError::Arrow(_)),
    }
}

/// `r` is the outcome of decoding `blocks` against the count `expected`: every
/// block when all are good, with `expected` added once per block to the total;
/// else the error of the first block that is not.
pub open spec fn decode_result(
    blocks: Seq<Option<usize>>,
    expected: i64,
    r: Result<(Vec<Block>, isize), IoError>,
) -> bool {
    &&& good_prefix(blocks, expected, blocks.len() as int) ==> (r matches Ok((batches, total))
        && batches@.len() == blocks.len() && (forall|i: int|
        0 <= i < blocks.len() ==> Some(rows_of(#[trigger] batches@[i])) == blocks[i]) && total
        == running_total(blocks.len(), expected))
    &&& forall|k: int|
        0 <= k < blocks.len() && #[trigger] good_prefix(blocks, expected, k) && !block_ok(
            blocks[k],
            expected,
        ) ==> block_error(blocks[k], expected, r)
}

/// Only the first failing block can satisfy the premise of `decode_result`'s
/// error clause.
proof fn lemma_first_failure(blocks: Seq<Option<usize>>, expected: i64, k: int, j: int)
    requires
        0 <= k < blocks.len(),
        0 <= j < blocks.len(),
        good_prefix(blocks, expected, k),
        !block_ok(blocks[k], expected),
        good_prefix(blocks, expected, j),
        !block_ok(blocks[j], expected),
    ensures
        j == k,
{
    if j < k {
        assert(block_ok(blocks[j], expected));
    } else if k < j {
        assert(block_ok(blocks[k], expected));
    }
}

/// Decodes an Arrow IPC stream. Every block must hold exactly `row_count` rows:
/// the first block that does not ends the decoding with a row-count error, and a
/// malformed stream or block with the Arrow error; no batches come back then. On
/// success the batches are the blocks in stream order, and the total is
/// `row_count` once for each block. The stream must be one that arrow_ipc reads
/// without panicking.
pub(crate) fn deserialize(stream: &[u8], row_count: i64) -> (r: Result<(Vec<Block>, isize), IoError>)
    requires
        ipc_reads_without_panic(stream@),
    ensures
        match ipc_blocks(stream@) {
            None => r matches Err(IoError::Arrow(_)),
            Some(blocks) => decode_result(blocks, row_count, r),
        },
{
    let mut reader = match open_stream(stream) {
        Ok(reader) => reader,
        Err(e) => return Err(IoError::Arrow(e)),
    };
    let ghost blocks = ipc_blocks(stream@).unwrap();
    let mut batches: Vec<Block> = Vec::new();
    let mut total: isize = 0;
    proof {
        assert(blocks.skip(0) =~= blocks);
    }
    loop
        invariant
            ipc_blocks(stream@) == Some(blocks),
            reader_reads_without_panic(reader),
            batches@.len() <= blocks.len(),
            reader_rest(reader) == blocks.skip(batches@.len() as int),
            good_prefix(blocks, row_count, batches@.len() as int),
            forall|i: int| 0 <= i < batches@.len() ==> Some(rows_of(#[trigger] batches@[i])) == blocks[i],
            total == running_total(batches@.len(), row_count),
        decreases reader_rest(reader).len(),
    {
        let ghost k = batches@.len() as int;
        let ghost rest = reader_rest(reader);
        let record = match next_block(&mut reader) {
            None => {
                proof {
                    assert(k == blocks.len());
                    assert forall|j: int|
                        0 <= j < blocks.len() && #[trigger] good_prefix(blocks, row_count, j) && !block_ok(
                            blocks[j],
                            row_count,
                        ) implies block_error(blocks[j], row_count, Ok::<(Vec<Block>, isize), IoError>((batches, total))) by {
                        assert(block_ok(blocks[j], row_count));
                    }
                }
                return Ok((batches, total));
            },
            Some(Ok(record)) => record,
            Some(Err(e)) => {
                proof {
                    assert(rest[0] == blocks[k]);
                    let res = Err::<(Vec<Block>, isize), IoError>(IoError::Arrow(e));
                    assert(!good_prefix(blocks, row_count, blocks.len() as int)) by {
                        assert(!block_ok(blocks[k], row_count));
                    }
                    assert forall|j: int|
                        0 <= j < blocks.len() && #[trigger] good_prefix(blocks, row_count, j) && !block_ok(
                            blocks[j],
                            row_count,
                        ) implies block_error(blocks[j], row_count, res) by {
                        lemma_first_failure(blocks, row_count, k, j);
                    }
                }
                return Err(IoError::Arrow(e));
            },
        };
        assert(rest[0] == blocks[k]);
        let rows = block_rows(&record);
        match accept_block(total, rows, row_count) {
            Ok(t) => {
                total = t;
            },
            Err(e) => {
                proof {
                    assert(!block_ok(blocks[k], row_count));
                    assert(!good_prefix(blocks, row_count, blocks.len() as int)) by {
                        assert(!block_ok(blocks[k], row_count));
                    }
                    let res = Err::<(Vec<Block>, isize), IoError>(e);
                    assert forall|j: int|
                        0 <= j < blocks.len() && #[trigger] good_prefix(blocks, row_count, j) && !block_ok(
                            blocks[j],
                            row_count,
                        ) implies block_error(blocks[j], row_count, res) by {
                        lemma_first_failure(blocks, row_count, k, j);
                    }
                }
                return Err(e);
            },
        }
        let ghost before = batches@;
        batches.push(record);
        proof {
            assert(blocks.skip(k).drop_first() =~= blocks.skip(k + 1));
            assert forall|i: int| 0 <= i < k + 1 implies block_ok(#[trigger] blocks[i], row_count) by {
                if i < k {
                    assert(block_ok(blocks[i], row_count));
                }
            }
            assert forall|i: int| 0 <= i < batches@.len() implies Some(rows_of(#[trigger] batches@[i])) == blocks[i] by {
                if i < k {
                    assert(batches@[i] == before[i]);
                }
            }
        }
    }
}

/// When every block holds the expected `r` rows and `k * r` fits, the total
/// after `k` blocks is `k * r`.
pub proof fn law_total_rows(k: nat, r: i64)
    requires
        r >= 0,
        k * r <= isize::MAX,
    ensures
        running_total(k, r) == k * r,
    decreases k,
{
    if k > 0 {
        assert((k - 1) * r <= k * r) by (nonlinear_arith)
            requires
                r >= 0,
                k >= 1,
        ;
        law_total_rows((k - 1) as nat, r);
        assert(k * r == (k - 1) * r + r) by (nonlinear_arith);
        assert(r <= k * r) by (nonlinear_arith)
            requires
                r >= 0,
                k >= 1,
        ;
        assert(r as isize == r);
        let prev = running_total((k - 1) as nat, r);
        assert(prev + (r as isize) <= isize::MAX);
        assert(prev >= 0);
        assert(prev.wrapping_add(r as isize) == prev + r);
        assert(running_total(k, r) == prev.wrapping_add(r as isize));
    } else {
        assert(k * r == 0) by (nonlinear_arith)
            requires
                k == 0,
        ;
    }
}

} // verus!
