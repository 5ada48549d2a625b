//! Decoding of the columnar point document into a flat point cloud.

use vstd::prelude::*;
use parquet::errors::ParquetError;
use crate::bits::{is_zero_single, single_is_zero};
use crate::columnar::{
    batch_integer_column, batch_single_column, batch_text_column, document_batches, integer_column,
    read_batches, row_count, single_column, text_column, texts, Batch,
};

verus! {

/// Rows that the reader hands out at a time.
pub const BATCH_SIZE: usize = 10000;

/// One point in the frame of its node. The coordinates are single-precision
/// bit patterns.
#[derive(Debug)]
pub struct Point {
    pub node_uuid: String,
    pub x: u32,
    pub y: u32,
    pub z: u32,
    pub r: u8,
    pub g: u8,
    pub b: u8,
}

/// What a `Point` holds.
pub struct PointModel {
    pub node_uuid: Seq<char>,
    pub x: u32,
    pub y: u32,
    pub z: u32,
    pub r: u8,
    pub g: u8,
    pub b: u8,
}

impl View for Point {
    type V = PointModel;

    open spec fn view(&self) -> PointModel {
        PointModel {
            node_uuid: self.node_uuid@,
            x: self.x,
            y: self.y,
            z: self.z,
            r: self.r,
            g: self.g,
            b: self.b,
        }
    }
}

/// The decoded points, in the order of the document.
#[derive(Debug)]
pub struct PointCloudData {
    pub points: Vec<Point>,
}

/// Why a point document yields no cloud.
#[derive(Debug)]
pub enum ParquetLoaderError {
    /// The bytes are no readable columnar document.
    Document(ParquetError),
    /// A batch lacks the named column, or holds it with another type.
    Schema { column: String },
    /// The columns handed in differ in length.
    Ragged,
    /// A colour channel of the row, counted within its batch, lies outside
    /// 0..=255.
    ColorRange { row: usize, value: i32 },
}

/// The seven columns of one batch, as plain values.
#[derive(Debug)]
pub struct BatchColumns {
    pub node_uuid: Vec<String>,
    pub point_x: Vec<u32>,
    pub point_y: Vec<u32>,
    pub point_z: Vec<u32>,
    pub r: Vec<i32>,
    pub g: Vec<i32>,
    pub b: Vec<i32>,
}

/// What a `BatchColumns` holds.
pub struct ColumnsModel {
    pub node_uuid: Seq<Seq<char>>,
    pub point_x: Seq<u32>,
    pub point_y: Seq<u32>,
    pub point_z: Seq<u32>,
    pub r: Seq<i32>,
    pub g: Seq<i32>,
    pub b: Seq<i32>,
}

impl View for BatchColumns {
    type V = ColumnsModel;

    open spec fn view(&self) -> ColumnsModel {
        ColumnsModel {
            node_uuid: texts(self.node_uuid@),
            point_x: self.point_x@,
            point_y: self.point_y@,
            point_z: self.point_z@,
            r: self.r@,
            g: self.g@,
            b: self.b@,
        }
    }
}

/// How decoding ends.
pub enum Outcome {
    Points(Seq<PointModel>),
    MissingColumn(Seq<char>),
    Ragged,
    ColorRange { row: int, value: i32 },
    Unreadable,
}

/// The view of each point.
pub open spec fn point_models(points: Seq<Point>) -> Seq<PointModel> {
    Seq::new(points.len(), |i: int| points[i]@)
}

/// None of the point's coordinates is exactly zero.
pub open spec fn off_axes(p: PointModel) -> bool {
    !single_is_zero(p.x) && !single_is_zero(p.y) && !single_is_zero(p.z)
}

pub open spec fn channel_ok(v: i32) -> bool {
    0 <= v <= 255
}

impl ColumnsModel {
    pub open spec fn rows(&self) -> int {
        self.point_x.len() as int
    }

    /// All seven columns have the same length.
    pub open spec fn aligned(&self) -> bool {
        &&& self.node_uuid.len() == self.rows()
        &&& self.point_y.len() == self.rows()
        &&& self.point_z.len() == self.rows()
        &&& self.r.len() == self.rows()
        &&& self.g.len() == self.rows()
        &&& self.b.len() == self.rows()
    }

    /// The three colour channels of row `i` fit in eight bits.
    pub open spec fn channels_ok(&self, i: int) -> bool {
        channel_ok(self.r[i]) && channel_ok(self.g[i]) && channel_ok(self.b[i])
    }

    /// The first channel of row `i`, in the order red, green, blue, that
    /// does not fit.
    pub open spec fn offending_channel(&self, i: int) -> i32 {
        if !channel_ok(self.r[i]) {
            self.r[i]
        } else if !channel_ok(self.g[i]) {
            self.g[i]
        } else {
            self.b[i]
        }
    }

    /// Row `i` as a point.
    pub open spec fn point(&self, i: int) -> PointModel {
        PointModel {
            node_uuid: self.node_uuid[i],
            x: self.point_x[i],
            y: self.point_y[i],
            z: self.point_z[i],
            r: self.r[i] as u8,
            g: self.g[i] as u8,
            b: self.b[i] as u8,
        }
    }

    /// How decoding the first `n` rows ends: with the first row that has a
    /// channel out of range, or else with the rows that have no coordinate
    /// of exactly zero, in their order.
    pub open spec fn rows_outcome(&self, n: int) -> Outcome
        decreases n,
    {
        if n <= 0 {
            Outcome::Points(Seq::empty())
        } else {
            match self.rows_outcome(n - 1) {
                Outcome::Points(earlier) => if !self.channels_ok(n - 1) {
                    Outcome::ColorRange { row: n - 1, value: self.offending_channel(n - 1) }
                } else if off_axes(self.point(n - 1)) {
                    Outcome::Points(earlier.push(self.point(n - 1)))
                } else {
                    Outcome::Points(earlier)
                },
                failed => failed,
            }
        }
    }

    /// How decoding the columns ends.
    pub open spec fn outcome(&self) -> Outcome {
        if self.aligned() {
            self.rows_outcome(self.rows())
        } else {
            Outcome::Ragged
        }
    }
}

/// The result `r` reports the outcome `o`.
pub open spec fn reports(r: Result<Vec<Point>, ParquetLoaderError>, o: Outcome) -> bool {
    match r {
        Ok(points) => o == Outcome::Points(point_models(points@)),
        Err(ParquetLoaderError::Schema { column }) => o == Outcome::MissingColumn(column@),
        Err(ParquetLoaderError::Ragged) => o == Outcome::Ragged,
        Err(ParquetLoaderError::ColorRange { row, value }) => o == (Outcome::ColorRange {
            row: row as int,
            value,
        }),
        Err(ParquetLoaderError::Document(_)) => o == Outcome::Unreadable,
    }
}

/// Narrows a colour channel to eight bits, where it fits.
pub fn narrow_channel(v: i32) -> (r: Option<u8>)
    ensures
        r is Some <==> channel_ok(v),
        r is Some ==> r.unwrap() == v as u8 && r.unwrap() as int == v as int,
{
    if 0 <= v && v <= 255 {
        Some(v as u8)
    } else {
        None
    }
}

/// A failure among the first `n` rows is the outcome of any longer prefix.
pub proof fn lemma_failure_stays(c: ColumnsModel, n: int, m: int)
    requires
        0 <= n <= m,
        !(c.rows_outcome(n) is Points),
    ensures
        c.rows_outcome(m) == c.rows_outcome(n),
    decreases m - n,
{
    if n < m {
        lemma_failure_stays(c, n, m - 1);
    }
}

/// Turns the rows of one batch into points. A channel out of range fails the
/// batch, whatever the row's coordinates; a row with a coordinate of exactly
/// zero is left out.
pub fn columns_to_points(cols: &BatchColumns) -> (r: Result<Vec<Point>, ParquetLoaderError>)
    ensures
        reports(r, cols@.outcome()),
{
    let count: usize = cols.point_x.len();
    if cols.node_uuid.len() != count || cols.point_y.len() != count || cols.point_z.len() != count
        || cols.r.len() != count || cols.g.len() != count || cols.b.len() != count {
        return Err(ParquetLoaderError::Ragged);
    }
    let mut points: Vec<Point> = Vec::with_capacity(count);
    let mut i: usize = 0;
    assert(point_models(points@) =~= Seq::empty());
    while i < count
        invariant
            i <= count,
            count == cols@.rows(),
            cols@.aligned(),
            cols@.rows_outcome(i as int) == Outcome::Points(point_models(points@)),
        decreases count - i,
    {
        let x: u32 = cols.point_x[i];
        let y: u32 = cols.point_y[i];
        let z: u32 = cols.point_z[i];
        let r: u8 = match narrow_channel(cols.r[i]) {
            Some(c) => c,
            None => {
                proof {
                    lemma_failure_stays(cols@, i + 1, count as int);
                }
                return Err(ParquetLoaderError::ColorRange { row: i, value: cols.r[i] });
            },
        };
        let g: u8 = match narrow_channel(cols.g[i]) {
            Some(c) => c,
            None => {
                proof {
                    lemma_failure_stays(cols@, i + 1, count as int);
                }
                return Err(ParquetLoaderError::ColorRange { row: i, value: cols.g[i] });
            },
        };
        let b: u8 = match narrow_channel(cols.b[i]) {
            Some(c) => c,
            None => {
                proof {
                    lemma_failure_stays(cols@, i + 1, count as int);
                }
                return Err(ParquetLoaderError::ColorRange { row: i, value: cols.b[i] });
            },
        };
        if !is_zero_single(x) && !is_zero_single(y) && !is_zero_single(z) {
            let ghost before = points@;
            let point = Point { node_uuid: cols.node_uuid[i].clone(), x, y, z, r, g, b };
            assert(point@ == cols@.point(i as int));
            points.push(point);
            assert(point_models(points@) =~= point_models(before).push(cols@.point(i as int)));
        }
        i += 1;
    }
    Ok(points)
}

/// The first of the seven required columns that the batch lacks.
pub open spec fn missing_column(batch: Batch) -> Option<Seq<char>> {
    if batch_text_column(batch, "node_uuid"@) is None {
        Some("node_uuid"@)
    } else if batch_single_column(batch, "point_x"@) is None {
        Some("point_x"@)
    } else if batch_single_column(batch, "point_y"@) is None {
        Some("point_y"@)
    } else if batch_single_column(batch, "point_z"@) is None {
        Some("point_z"@)
    } else if batch_integer_column(batch, "r"@) is None {
        Some("r"@)
    } else if batch_integer_column(batch, "g"@) is None {
        Some("g"@)
    } else if batch_integer_column(batch, "b"@) is None {
        Some("b"@)
    } else {
        None
    }
}

/// The seven required columns of the batch.
pub open spec fn batch_columns_model(batch: Batch) -> ColumnsModel {
    ColumnsModel {
        node_uuid: batch_text_column(batch, "node_uuid"@).unwrap(),
        point_x: batch_single_column(batch, "point_x"@).unwrap(),
        point_y: batch_single_column(batch, "point_y"@).unwrap(),
        point_z: batch_single_column(batch, "point_z"@).unwrap(),
        r: batch_integer_column(batch, "r"@).unwrap(),
        g: batch_integer_column(batch, "g"@).unwrap(),
        b: batch_integer_column(batch, "b"@).unwrap(),
    }
}

/// How decoding one batch ends.
pub open spec fn batch_outcome(batch: Batch) -> Outcome {
    match missing_column(batch) {
        Some(column) => Outcome::MissingColumn(column),
        None => batch_columns_model(batch).outcome(),
    }
}

/// How decoding the first `n` batches ends: with the first failure, or with
/// the points of all of them, batch after batch.
pub open spec fn batches_outcome(batches: Seq<Batch>, n: int) -> Outcome
    decreases n,
{
    if n <= 0 {
        Outcome::Points(Seq::empty())
    } else {
        match batches_outcome(batches, n - 1) {
            Outcome::Points(earlier) => match batch_outcome(batches[n - 1]) {
                Outcome::Points(more) => Outcome::Points(earlier + more),
                failed => failed,
            },
            failed => failed,
        }
    }
}

/// Locates the seven required columns of a batch by name.
pub fn batch_columns(batch: &Batch) -> (r: Result<BatchColumns, ParquetLoaderError>)
    ensures
        match r {
            Ok(cols) => missing_column(*batch) is None && cols@ == batch_columns_model(*batch),
            Err(ParquetLoaderError::Schema { column }) => missing_column(*batch) == Some(column@),
            Err(_) => false,
        },
{
    let node_uuid = match text_column(batch, "node_uuid") {
        Some(v) => v,
        None => {
            return Err(ParquetLoaderError::Schema { column: "node_uuid".to_owned() });
        },
    };
    let point_x = match single_column(batch, "point_x") {
        Some(v) => v,
        None => {
            return Err(ParquetLoaderError::Schema { column: "point_x".to_owned() });
        },
    };
    let point_y = match single_column(batch, "point_y") {
        Some(v) => v,
        None => {
            return Err(ParquetLoaderError::Schema { column: "point_y".to_owned() });
        },
    };
    let point_z = match single_column(batch, "point_z") {
        Some(v) => v,
        None => {
            return Err(ParquetLoaderError::Schema { column: "point_z".to_owned() });
        },
    };
    let r = match integer_column(batch, "r") {
        Some(v) => v,
        None => {
            return Err(ParquetLoaderError::Schema { column: "r".to_owned() });
        },
    };
    let g = match integer_column(batch, "g") {
        Some(v) => v,
        None => {
            return Err(ParquetLoaderError::Schema { column: "g".to_owned() });
        },
    };
    let b = match integer_column(batch, "b") {
        Some(v) => v,
        None => {
            return Err(ParquetLoaderError::Schema { column: "b".to_owned() });
        },
    };
    Ok(BatchColumns { node_uuid, point_x, point_y, point_z, r, g, b })
}

/// Decodes one batch.
pub fn batch_to_points(batch: &Batch) -> (r: Result<Vec<Point>, ParquetLoaderError>)
    ensures
        reports(r, batch_outcome(*batch)),
{
    match batch_columns(batch) {
        Ok(cols) => columns_to_points(&cols),
        Err(e) => Err(e),
    }
}

/// A failure among the first `n` batches is the outcome of any longer run.
pub proof fn lemma_batch_failure_stays(batches: Seq<Batch>, n: int, m: int)
    requires
        0 <= n <= m,
        !(batches_outcome(batches, n) is Points),
    ensures
        batches_outcome(batches, m) == batches_outcome(batches, n),
    decreases m - n,
{
    if n < m {
        lemma_batch_failure_stays(batches, n, m - 1);
    }
}

/// Decodes the batches in their order into one run of points, stopping at
/// the first batch that fails.
pub fn batches_to_points(batches: &Vec<Batch>) -> (r: Result<Vec<Point>, ParquetLoaderError>)
    ensures
        reports(r, batches_outcome(batches@, batches@.len() as int)),
{
    let mut total: usize = 0;
    let mut k: usize = 0;
    while k < batches.len()
        invariant
            k <= batches.len(),
        decreases batches.len() - k,
    {
        total = total.saturating_add(row_count(&batches[k]));
        k += 1;
    }
    let mut points: Vec<Point> = Vec::with_capacity(total);
    let mut j: usize = 0;
    assert(point_models(points@) =~= Seq::empty());
    while j < batches.len()
        invariant
            j <= batches.len(),
            batches_outcome(batches@, j as int) == Outcome::Points(point_models(points@)),
        decreases batches.len() - j,
    {
        match batch_to_points(&batches[j]) {
            Ok(mut more) => {
                let ghost before = points@;
                let ghost added = more@;
                points.append(&mut more);
                assert(point_models(points@) =~= point_models(before) + point_models(added));
            },
            Err(e) => {
                proof {
                    lemma_batch_failure_stays(batches@, j + 1, batches@.len() as int);
                }
                return Err(e);
            },
        }
        j += 1;
    }
    Ok(points)
}

impl PointCloudData {
    /// No point of the cloud has a coordinate of exactly zero.
    pub open spec fn wf(&self) -> bool {
        forall|i: int| 0 <= i < self.points@.len() ==> off_axes(#[trigger] self.points@[i]@)
    }
}

/// How decoding a document ends.
pub open spec fn document_outcome(bytes: Seq<u8>) -> Outcome {
    match document_batches(bytes, BATCH_SIZE) {
        Some(batches) => batches_outcome(batches, batches.len() as int),
        None => Outcome::Unreadable,
    }
}

/// The result `r` reports the outcome `o`.
pub open spec fn cloud_reports(r: Result<PointCloudData, ParquetLoaderError>, o: Outcome) -> bool {
    match r {
        Ok(cloud) => o == Outcome::Points(point_models(cloud.points@)),
        Err(e) => reports(Err(e), o),
    }
}

/// Reads the batches of a point document.
pub fn read_document(bytes: Vec<u8>) -> (r: Result<Vec<Batch>, ParquetLoaderError>)
    ensures
        match r {
            Ok(batches) => document_batches(bytes@, BATCH_SIZE) == Some(batches@),
            Err(ParquetLoaderError::Document(_)) => document_batches(bytes@, BATCH_SIZE) is None,
            Err(_) => false,
        },
{
    match read_batches(bytes, BATCH_SIZE) {
        Ok(batches) => Ok(batches),
        Err(e) => Err(ParquetLoaderError::Document(e)),
    }
}

/// Decodes a point document: the rows of its batches, batch after batch.
/// A cloud that comes out has no point with a coordinate of exactly zero.
pub fn decode_points(bytes: Vec<u8>) -> (r: Result<PointCloudData, ParquetLoaderError>)
    ensures
        cloud_reports(r, document_outcome(bytes@)),
        r is Ok ==> r.unwrap().wf(),
{
    let batches = match read_document(bytes) {
        Ok(batches) => batches,
        Err(e) => {
            return Err(e);
        },
    };
    match batches_to_points(&batches) {
        Ok(points) => {
            proof {
                lemma_batches_keep_off_axes(batches@, batches@.len() as int);
                let o = batches_outcome(batches@, batches@.len() as int);
                assert(o == Outcome::Points(point_models(points@)));
                assert(o->Points_0 == point_models(points@));
                assert(point_models(points@).len() == points@.len());
                assert forall|i: int| 0 <= i < points@.len() implies off_axes(
                    #[trigger] points@[i]@,
                ) by {
                    assert(point_models(points@)[i] == points@[i]@);
                    assert(off_axes(point_models(points@)[i]));
                }
            }
            Ok(PointCloudData { points })
        },
        Err(e) => Err(e),
    }
}

/// What the outcome of the first `n` rows means: points come out only if
/// every channel of every row fits, and none of them has a coordinate of
/// exactly zero; otherwise the outcome names the first row with a channel
/// out of range, and the first such channel of that row.
pub proof fn lemma_rows_outcome(c: ColumnsModel, n: int)
    requires
        0 <= n,
    ensures
        match c.rows_outcome(n) {
            Outcome::Points(points) => {
                &&& points.len() <= n
                &&& forall|k: int| 0 <= k < n ==> c.channels_ok(k)
                &&& forall|k: int| 0 <= k < points.len() ==> off_axes(#[trigger] points[k])
            },
            Outcome::ColorRange { row, value } => {
                &&& 0 <= row < n
                &&& !c.channels_ok(row)
                &&& forall|k: int| 0 <= k < row ==> c.channels_ok(k)
                &&& value == c.offending_channel(row)
                &&& !channel_ok(value)
            },
            _ => false,
        },
    decreases n,
{
    if n > 0 {
        lemma_rows_outcome(c, n - 1);
    }
}

/// A channel out of range anywhere in the columns fails the decoding: the
/// value is neither clamped nor wrapped.
pub proof fn lemma_channel_out_of_range_fails(c: ColumnsModel, i: int)
    requires
        c.aligned(),
        0 <= i < c.rows(),
        !c.channels_ok(i),
    ensures
        c.outcome() is ColorRange,
        c.outcome()->row <= i,
{
    lemma_rows_outcome(c, c.rows());
}

/// A row with a coordinate of exactly zero is left out, whatever its colour
/// and its node: no point that comes out has such a coordinate.
pub proof fn lemma_zero_rows_left_out(c: ColumnsModel)
    requires
        c.outcome() is Points,
    ensures
        forall|k: int| 0 <= k < c.outcome()->Points_0.len() ==> off_axes(#[trigger] c.outcome()->Points_0[k]),
{
    lemma_rows_outcome(c, c.rows());
}

/// A row with a coordinate of exactly zero, and channels that fit, adds
/// nothing to what the rows before it gave.
pub proof fn lemma_zero_row_adds_nothing(c: ColumnsModel, i: int)
    requires
        0 <= i,
        c.channels_ok(i),
        single_is_zero(c.point_x[i]) || single_is_zero(c.point_y[i]) || single_is_zero(c.point_z[i]),
    ensures
        c.rows_outcome(i + 1) == c.rows_outcome(i),
{
}

/// Points that come out of a run of batches have no coordinate of exactly
/// zero.
pub proof fn lemma_batches_keep_off_axes(batches: Seq<Batch>, n: int)
    requires
        0 <= n,
    ensures
        batches_outcome(batches, n) is Points ==> forall|k: int|
            0 <= k < batches_outcome(batches, n)->Points_0.len() ==> off_axes(
                #[trigger] batches_outcome(batches, n)->Points_0[k],
            ),
    decreases n,
{
    if n > 0 {
        lemma_batches_keep_off_axes(batches, n - 1);
        if batches_outcome(batches, n - 1) is Points && missing_column(batches[n - 1]) is None {
            let c = batch_columns_model(batches[n - 1]);
            if c.aligned() {
                lemma_rows_outcome(c, c.rows());
            }
        }
    }
}

} // verus!
