//! The columnar reader: what this library takes on trust from the `parquet`
//! and `arrow-array` crates.

use vstd::prelude::*;
use arrow_array::{Array, Float32Array, Int32Array, RecordBatch, StringArray};
use arrow_schema::ArrowError;
use bytes::Bytes;
use parquet::arrow::arrow_reader::ParquetRecordBatchReaderBuilder;
use parquet::errors::ParquetError;

verus! {

/// One batch of rows as the reader hands it out. Its contents are known to
/// the verifier only through the three column functions below.
#[verifier::external_body]
#[derive(Debug)]
pub struct Batch {
    inner: RecordBatch,
}

#[verifier::external_type_specification]
#[verifier::external_body]
pub struct ExParquetError(parquet::errors::ParquetError);

/// The strings of the batch's column `name`, slot by slot; `None` where the
/// batch has no column of that name or the column holds no UTF-8 strings.
pub uninterp spec fn batch_text_column(batch: Batch, name: Seq<char>) -> Option<Seq<Seq<char>>>;

/// The bit patterns of the batch's single-precision column `name`, slot by
/// slot; `None` where there is no such column of that type.
pub uninterp spec fn batch_single_column(batch: Batch, name: Seq<char>) -> Option<Seq<u32>>;

/// The values of the batch's 32-bit integer column `name`, slot by slot;
/// `None` where there is no such column of that type.
pub uninterp spec fn batch_integer_column(batch: Batch, name: Seq<char>) -> Option<Seq<i32>>;

/// The batches that the reader hands out for the bytes of a document, at
/// most `batch_size` rows at a time; `None` where the reader gives an error.
pub uninterp spec fn document_batches(bytes: Seq<u8>, batch_size: usize) -> Option<Seq<Batch>>;

/// The view of each string.
pub open spec fn texts(strings: Seq<String>) -> Seq<Seq<char>> {
    Seq::new(strings.len(), |i: int| strings[i]@)
}

/// `ParquetRecordBatchReaderBuilder::try_new`, `with_batch_size` and `build`
/// on the bytes of a document, then the reader's `Iterator::next` run to its
/// end, stopping at the first error. Claims only that the batches handed
/// out are those of the document, and that an error comes where it has none.
#[verifier::external_body]
pub(crate) fn read_batches(bytes: Vec<u8>, batch_size: usize) -> (r: Result<Vec<Batch>, ParquetError>)
    requires
        batch_size > 0,
    ensures
        match r {
            Ok(batches) => document_batches(bytes@, batch_size) == Some(batches@),
            Err(_) => document_batches(bytes@, batch_size) is None,
        },
{
    let reader = ParquetRecordBatchReaderBuilder::try_new(Bytes::from(bytes))?.with_batch_size(
        batch_size,
    ).build()?;
    reader.map(|b| b.map(|inner| Batch { inner })).collect::<Result<Vec<Batch>, ArrowError>>().map_err(
        ParquetError::from,
    )
}

/// `RecordBatch::num_rows`. Nothing is claimed of the number.
#[verifier::external_body]
pub(crate) fn row_count(batch: &Batch) -> (n: usize) {
    batch.inner.num_rows()
}

/// `RecordBatch::column_by_name`, a downcast to `StringArray`, and
/// `value` on each slot: claims only that the strings handed out are the
/// column's contents.
#[verifier::external_body]
pub(crate) fn text_column(batch: &Batch, name: &str) -> (r: Option<Vec<String>>)
    ensures
        match r {
            Some(v) => batch_text_column(*batch, name@) == Some(texts(v@)),
            None => batch_text_column(*batch, name@) is None,
        },
{
    let column = batch.inner.column_by_name(name)?.as_any().downcast_ref::<StringArray>()?;
    Some((0..column.len()).map(|i| column.value(i).to_string()).collect())
}

/// `RecordBatch::column_by_name`, a downcast to `Float32Array`, and
/// `values`, each value by its bit pattern: claims only that the patterns
/// handed out are the column's contents.
#[verifier::external_body]
pub(crate) fn single_column(batch: &Batch, name: &str) -> (r: Option<Vec<u32>>)
    ensures
        match r {
            Some(v) => batch_single_column(*batch, name@) == Some(v@),
            None => batch_single_column(*batch, name@) is None,
        },
{
    let column = batch.inner.column_by_name(name)?.as_any().downcast_ref::<Float32Array>()?;
    Some(column.values().iter().map(|v| v.to_bits()).collect())
}

/// `RecordBatch::column_by_name`, a downcast to `Int32Array`, and `values`:
/// claims only that the integers handed out are the column's contents.
#[verifier::external_body]
pub(crate) fn integer_column(batch: &Batch, name: &str) -> (r: Option<Vec<i32>>)
    ensures
        match r {
            Some(v) => batch_integer_column(*batch, name@) == Some(v@),
            None => batch_integer_column(*batch, name@) is None,
        },
{
    let column = batch.inner.column_by_name(name)?.as_any().downcast_ref::<Int32Array>()?;
    Some(column.values().to_vec())
}

} // verus!
