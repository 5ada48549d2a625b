use std::sync::Arc;

use arrow_array::{ArrayRef, Float32Array, Float64Array, Int32Array, RecordBatch, StringArray};
use parquet::arrow::ArrowWriter;
use pcd_renderer::cloud::{
    batch_columns, batch_to_points, batches_to_points, columns_to_points, decode_points, narrow_channel,
    read_document, BatchColumns, ParquetLoaderError,
};

fn columns(rows: &[(&str, f32, f32, f32, i32, i32, i32)]) -> BatchColumns {
    BatchColumns {
        node_uuid: rows.iter().map(|r| r.0.to_string()).collect(),
        point_x: rows.iter().map(|r| r.1.to_bits()).collect(),
        point_y: rows.iter().map(|r| r.2.to_bits()).collect(),
        point_z: rows.iter().map(|r| r.3.to_bits()).collect(),
        r: rows.iter().map(|r| r.4).collect(),
        g: rows.iter().map(|r| r.5).collect(),
        b: rows.iter().map(|r| r.6).collect(),
    }
}

fn batch(names: [&str; 7], rows: &[(&str, f32, f32, f32, i32, i32, i32)]) -> RecordBatch {
    let c = columns(rows);
    let floats = |v: &Vec<u32>| Arc::new(Float32Array::from(v.iter().map(|b| f32::from_bits(*b)).collect::<Vec<f32>>())) as ArrayRef;
    RecordBatch::try_from_iter(vec![
        (names[0], Arc::new(StringArray::from(c.node_uuid.clone())) as ArrayRef),
        (names[1], floats(&c.point_x)),
        (names[2], floats(&c.point_y)),
        (names[3], floats(&c.point_z)),
        (names[4], Arc::new(Int32Array::from(c.r.clone())) as ArrayRef),
        (names[5], Arc::new(Int32Array::from(c.g.clone())) as ArrayRef),
        (names[6], Arc::new(Int32Array::from(c.b.clone())) as ArrayRef),
    ])
    .unwrap()
}

fn document(batch: &RecordBatch) -> Vec<u8> {
    let mut bytes: Vec<u8> = Vec::new();
    let mut writer = ArrowWriter::try_new(&mut bytes, batch.schema(), None).unwrap();
    writer.write(batch).unwrap();
    writer.close().unwrap();
    bytes
}

const NAMES: [&str; 7] = ["node_uuid", "point_x", "point_y", "point_z", "r", "g", "b"];

#[test]
fn channels_are_narrowed_or_refused() {
    assert_eq!(narrow_channel(0), Some(0));
    assert_eq!(narrow_channel(255), Some(255));
    assert_eq!(narrow_channel(128), Some(128));
    assert_eq!(narrow_channel(256), None);
    assert_eq!(narrow_channel(-1), None);
    assert_eq!(narrow_channel(i32::MAX), None);
    assert_eq!(narrow_channel(i32::MIN), None);
}

#[test]
fn rows_with_a_zero_axis_are_left_out() {
    let cols = columns(&[
        ("a", 0.0, 3.0, 4.0, 1, 2, 3),
        ("b", 0.1, 0.0, 0.0, 4, 5, 6),
        ("c", 1.0, 2.0, 3.0, 7, 8, 9),
        ("d", 1.0, 2.0, -0.0, 7, 8, 9),
        ("e", -1.5, 2.0, 0.5, 255, 0, 128),
        ("f", 1.0, 0.0, 3.0, 0, 0, 0),
    ]);
    let points = columns_to_points(&cols).unwrap();
    assert_eq!(points.len(), 2);
    assert_eq!(points[0].node_uuid, "c");
    assert_eq!((f32::from_bits(points[0].x), f32::from_bits(points[0].y), f32::from_bits(points[0].z)), (1.0, 2.0, 3.0));
    assert_eq!((points[0].r, points[0].g, points[0].b), (7, 8, 9));
    assert_eq!(points[1].node_uuid, "e");
    assert_eq!((f32::from_bits(points[1].x), f32::from_bits(points[1].y), f32::from_bits(points[1].z)), (-1.5, 2.0, 0.5));
    assert_eq!((points[1].r, points[1].g, points[1].b), (255, 0, 128));
}

#[test]
fn tiny_coordinates_are_kept() {
    let cols = columns(&[("a", 1.0e-45, -1.0e-45, f32::MIN_POSITIVE, 1, 2, 3)]);
    assert_eq!(columns_to_points(&cols).unwrap().len(), 1);
}

#[test]
fn channel_of_256_fails() {
    let cols = columns(&[("a", 1.0, 1.0, 1.0, 1, 2, 3), ("b", 1.0, 1.0, 1.0, 256, 2, 3), ("c", 1.0, 1.0, 1.0, 1, 999, 3)]);
    assert!(matches!(columns_to_points(&cols), Err(ParquetLoaderError::ColorRange { row: 1, value: 256 })));
}

#[test]
fn first_channel_out_of_range_is_named() {
    let cols = columns(&[("a", 1.0, 1.0, 1.0, 1, -1, 300)]);
    assert!(matches!(columns_to_points(&cols), Err(ParquetLoaderError::ColorRange { row: 0, value: -1 })));
    let cols = columns(&[("a", 1.0, 1.0, 1.0, 1, 2, 300)]);
    assert!(matches!(columns_to_points(&cols), Err(ParquetLoaderError::ColorRange { row: 0, value: 300 })));
}

#[test]
fn channel_out_of_range_fails_a_row_that_would_be_left_out() {
    let cols = columns(&[("a", 0.0, 1.0, 1.0, 1, 2, 256)]);
    assert!(matches!(columns_to_points(&cols), Err(ParquetLoaderError::ColorRange { row: 0, value: 256 })));
}

#[test]
fn columns_of_unequal_length_are_refused() {
    let mut cols = columns(&[("a", 1.0, 1.0, 1.0, 1, 2, 3), ("b", 1.0, 1.0, 1.0, 1, 2, 3)]);
    cols.g.pop();
    assert!(matches!(columns_to_points(&cols), Err(ParquetLoaderError::Ragged)));
    let empty = columns(&[]);
    assert_eq!(columns_to_points(&empty).unwrap().len(), 0);
}

#[test]
fn document_is_decoded_in_row_order() {
    let rows = [
        ("node-a", 1.0, 2.0, 3.0, 10, 20, 30),
        ("node-b", 0.0, 3.0, 4.0, 1, 1, 1),
        ("node-a", -4.5, 0.25, 8.0, 255, 0, 128),
    ];
    let cloud = decode_points(document(&batch(NAMES, &rows))).unwrap();
    assert_eq!(cloud.points.len(), 2);
    let p = &cloud.points[0];
    assert_eq!(p.node_uuid, "node-a");
    assert_eq!((f32::from_bits(p.x), f32::from_bits(p.y), f32::from_bits(p.z)), (1.0, 2.0, 3.0));
    assert_eq!((p.r, p.g, p.b), (10, 20, 30));
    let p = &cloud.points[1];
    assert_eq!(p.node_uuid, "node-a");
    assert_eq!((f32::from_bits(p.x), f32::from_bits(p.y), f32::from_bits(p.z)), (-4.5, 0.25, 8.0));
    assert_eq!((p.r, p.g, p.b), (255, 0, 128));
}

#[test]
fn batches_are_joined_in_their_order() {
    let ids: Vec<String> = (0..25000).map(|i| format!("n{}", i % 7)).collect();
    let rows: Vec<(&str, f32, f32, f32, i32, i32, i32)> = (0..25000usize)
        .map(|i| (ids[i].as_str(), (i + 1) as f32, 1.0, if i % 5 == 0 { 0.0 } else { 2.0 }, (i % 256) as i32, 0, 255))
        .collect();
    let cloud = decode_points(document(&batch(NAMES, &rows))).unwrap();
    assert_eq!(cloud.points.len(), 20000);
    let mut k = 0;
    for i in 0..25000usize {
        if i % 5 != 0 {
            let p = &cloud.points[k];
            assert_eq!(f32::from_bits(p.x), (i + 1) as f32);
            assert_eq!(p.node_uuid, ids[i]);
            assert_eq!(p.r as usize, i % 256);
            k += 1;
        }
    }
}

#[test]
fn document_with_channel_out_of_range_fails() {
    let rows = [("a", 1.0, 2.0, 3.0, 10, 20, 30), ("a", 1.0, 2.0, 3.0, 10, 256, 30)];
    assert!(matches!(
        decode_points(document(&batch(NAMES, &rows))),
        Err(ParquetLoaderError::ColorRange { row: 1, value: 256 })
    ));
}

#[test]
fn missing_column_is_named() {
    let rows = [("a", 1.0, 2.0, 3.0, 10, 20, 30)];
    let renamed = ["node_uuid", "point_x", "point_y", "height", "r", "g", "b"];
    match decode_points(document(&batch(renamed, &rows))) {
        Err(ParquetLoaderError::Schema { column }) => assert_eq!(column, "point_z"),
        other => panic!("{:?}", other),
    }
    let renamed = ["node", "point_x", "point_y", "point_z", "r", "green", "b"];
    match decode_points(document(&batch(renamed, &rows))) {
        Err(ParquetLoaderError::Schema { column }) => assert_eq!(column, "node_uuid"),
        other => panic!("{:?}", other),
    }
    let renamed = ["node_uuid", "point_x", "point_y", "point_z", "r", "green", "b"];
    match decode_points(document(&batch(renamed, &rows))) {
        Err(ParquetLoaderError::Schema { column }) => assert_eq!(column, "g"),
        other => panic!("{:?}", other),
    }
}

#[test]
fn column_of_another_type_is_named() {
    let b = RecordBatch::try_from_iter(vec![
        ("node_uuid", Arc::new(StringArray::from(vec!["a"])) as ArrayRef),
        ("point_x", Arc::new(Float64Array::from(vec![1.0])) as ArrayRef),
        ("point_y", Arc::new(Float32Array::from(vec![1.0])) as ArrayRef),
        ("point_z", Arc::new(Float32Array::from(vec![1.0])) as ArrayRef),
        ("r", Arc::new(Int32Array::from(vec![1])) as ArrayRef),
        ("g", Arc::new(Int32Array::from(vec![1])) as ArrayRef),
        ("b", Arc::new(Int32Array::from(vec![1])) as ArrayRef),
    ])
    .unwrap();
    match decode_points(document(&b)) {
        Err(ParquetLoaderError::Schema { column }) => assert_eq!(column, "point_x"),
        other => panic!("{:?}", other),
    }
}

#[test]
fn bytes_that_are_no_document_fail() {
    assert!(matches!(decode_points(vec![1, 2, 3, 4, 5, 6, 7, 8, 9]), Err(ParquetLoaderError::Document(_))));
    assert!(matches!(decode_points(Vec::new()), Err(ParquetLoaderError::Document(_))));
}

#[test]
fn columns_of_a_batch_are_found_by_name() {
    let rows = [("a", 1.5, -2.0, 3.0, 10, 20, 30), ("b", 0.0, 5.0, 6.0, 0, 255, 7)];
    let shuffled = RecordBatch::try_from_iter(vec![
        ("b", Arc::new(Int32Array::from(vec![30, 7])) as ArrayRef),
        ("point_z", Arc::new(Float32Array::from(vec![3.0, 6.0])) as ArrayRef),
        ("extra", Arc::new(Int32Array::from(vec![0, 0])) as ArrayRef),
        ("node_uuid", Arc::new(StringArray::from(vec!["a", "b"])) as ArrayRef),
        ("g", Arc::new(Int32Array::from(vec![20, 255])) as ArrayRef),
        ("point_x", Arc::new(Float32Array::from(vec![1.5, 0.0])) as ArrayRef),
        ("r", Arc::new(Int32Array::from(vec![10, 0])) as ArrayRef),
        ("point_y", Arc::new(Float32Array::from(vec![-2.0, 5.0])) as ArrayRef),
    ])
    .unwrap();
    let batches = read_document(document(&shuffled)).unwrap();
    assert_eq!(batches.len(), 1);
    let found = batch_columns(&batches[0]).unwrap();
    let expected = columns(&rows);
    assert_eq!(found.node_uuid, expected.node_uuid);
    assert_eq!(found.point_x, expected.point_x);
    assert_eq!(found.point_y, expected.point_y);
    assert_eq!(found.point_z, expected.point_z);
    assert_eq!(found.r, expected.r);
    assert_eq!(found.g, expected.g);
    assert_eq!(found.b, expected.b);
    let points = batch_to_points(&batches[0]).unwrap();
    assert_eq!(points.len(), 1);
    assert_eq!(points[0].node_uuid, "a");
    assert_eq!(batches_to_points(&batches).unwrap().len(), 1);
    assert_eq!(batches_to_points(&Vec::new()).unwrap().len(), 0);
}

#[test]
fn large_document_comes_in_several_batches() {
    let rows: Vec<(&str, f32, f32, f32, i32, i32, i32)> = (0..25000usize).map(|i| ("n", 1.0, 1.0, 1.0, (i % 200) as i32, 0, 0)).collect();
    let batches = read_document(document(&batch(NAMES, &rows))).unwrap();
    assert_eq!(batches.len(), 3);
    assert_eq!(batch_to_points(&batches[0]).unwrap().len(), 10000);
    assert_eq!(batch_to_points(&batches[2]).unwrap().len(), 5000);
    assert_eq!(batch_to_points(&batches[2]).unwrap()[4999].r, (24999 % 200) as u8);
}

#[test]
fn document_without_rows_gives_an_empty_cloud() {
    let cloud = decode_points(document(&batch(NAMES, &[]))).unwrap();
    assert_eq!(cloud.points.len(), 0);
}
