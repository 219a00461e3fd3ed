//! Column layouts.

use pprof_core::columns;
use pprof_core::columns::{Column, ScalarColumn};
use pprof_core::rows::{Frame, LineRef, ValueType};

fn some(text: &str) -> Option<String> {
    Some(text.to_string())
}

fn utf8(column: &ScalarColumn) -> Vec<Option<String>> {
    match column {
        ScalarColumn::Utf8(v) => v.clone(),
        _ => panic!("not text"),
    }
}

fn int64(column: &ScalarColumn) -> Vec<Option<i64>> {
    match column {
        ScalarColumn::Int64(v) => v.clone(),
        _ => panic!("not signed"),
    }
}

fn uint64(column: &ScalarColumn) -> Vec<Option<u64>> {
    match column {
        ScalarColumn::UInt64(v) => v.clone(),
        _ => panic!("not unsigned"),
    }
}

#[test]
fn offsets_count_items() {
    let layout = columns::offsets_and_nulls(&[Some(2), None, Some(0), Some(3)]);
    assert_eq!(layout.offsets, vec![0, 2, 2, 2, 5]);
    assert_eq!(layout.valid, vec![true, false, true, true]);
    let layout = columns::offsets_and_nulls(&[]);
    assert_eq!(layout.offsets, vec![0]);
    assert!(layout.valid.is_empty());
}

#[test]
fn offsets_have_a_limit() {
    let max = i32::MAX as usize;
    assert!(columns::fit_offsets(&[]));
    assert!(columns::fit_offsets(&[Some(max), None, Some(0)]));
    assert!(!columns::fit_offsets(&[Some(max), Some(1)]));
    assert!(!columns::fit_offsets(&[Some(usize::MAX)]));
    assert!(!columns::fit_offsets(&[Some(1), None, Some(usize::MAX), Some(usize::MAX)]));
    let layout = columns::offsets_and_nulls(&[Some(max)]);
    assert_eq!(layout.offsets, vec![0, i32::MAX]);
}

#[test]
fn numbers_in_lists() {
    match columns::list_i64_col(vec![Some(vec![1, -2]), None, Some(vec![]), Some(vec![3])]) {
        Column::List(layout, items) => {
            assert_eq!(layout.offsets, vec![0, 2, 2, 2, 3]);
            assert_eq!(layout.valid, vec![true, false, true, true]);
            assert_eq!(int64(&items), vec![Some(1), Some(-2), Some(3)]);
        }
        _ => panic!("not a list"),
    }
    match columns::list_u64_col(vec![None, Some(vec![u64::MAX])]) {
        Column::List(layout, items) => {
            assert_eq!(layout.offsets, vec![0, 0, 1]);
            assert_eq!(layout.valid, vec![false, true]);
            assert_eq!(uint64(&items), vec![Some(u64::MAX)]);
        }
        _ => panic!("not a list"),
    }
}

#[test]
fn maps_split_into_keys_and_values() {
    let rows = vec![
        Some(vec![("a".to_string(), "1".to_string()), ("b".to_string(), String::new())]),
        None,
    ];
    match columns::map_col(rows) {
        Column::TextMap(layout, parts) => {
            assert_eq!(layout.offsets, vec![0, 2, 2]);
            assert_eq!(layout.valid, vec![true, false]);
            assert_eq!(utf8(&parts[0]), vec![some("a"), some("b")]);
            assert_eq!(utf8(&parts[1]), vec![some("1"), some("")]);
            assert_eq!(parts.len(), 2);
        }
        _ => panic!("not a map"),
    }
}

#[test]
fn value_types_split_into_fields() {
    let cpu = ValueType { type_: "cpu".to_string(), unit: "nanoseconds".to_string() };
    match columns::value_type_struct_col(vec![Some(cpu.clone()), None]) {
        Column::Struct(parts, valid) => {
            assert_eq!(valid, vec![true, false]);
            assert_eq!(utf8(&parts[0]), vec![some("cpu"), None]);
            assert_eq!(utf8(&parts[1]), vec![some("nanoseconds"), None]);
        }
        _ => panic!("not a struct"),
    }
    match columns::list_value_type_col(vec![None, Some(vec![cpu.clone(), cpu])]) {
        Column::ListStruct(layout, parts) => {
            assert_eq!(layout.offsets, vec![0, 0, 2]);
            assert_eq!(utf8(&parts[0]), vec![some("cpu"), some("cpu")]);
            assert_eq!(utf8(&parts[1]), vec![some("nanoseconds"), some("nanoseconds")]);
        }
        _ => panic!("not a list of structs"),
    }
}

#[test]
fn frames_split_into_fields() {
    let rows = vec![
        Some(vec![Frame { function: some("f"), filename: None, line: Some(3), address: 9 }]),
        Some(vec![Frame { function: None, filename: some("x"), line: None, address: 0 }]),
    ];
    match columns::list_frame_col(rows) {
        Column::ListStruct(layout, parts) => {
            assert_eq!(layout.offsets, vec![0, 1, 2]);
            assert_eq!(utf8(&parts[0]), vec![some("f"), None]);
            assert_eq!(utf8(&parts[1]), vec![None, some("x")]);
            assert_eq!(int64(&parts[2]), vec![Some(3), None]);
            assert_eq!(uint64(&parts[3]), vec![Some(9), Some(0)]);
        }
        _ => panic!("not a list of structs"),
    }
}

#[test]
fn lines_split_into_fields() {
    let rows = vec![Some(vec![
        LineRef { function_id: 7, line: 42 },
        LineRef { function_id: 5, line: -1 },
    ])];
    match columns::list_lineref_col(rows) {
        Column::ListStruct(layout, parts) => {
            assert_eq!(layout.offsets, vec![0, 2]);
            assert_eq!(uint64(&parts[0]), vec![Some(7), Some(5)]);
            assert_eq!(int64(&parts[1]), vec![Some(42), Some(-1)]);
        }
        _ => panic!("not a list of structs"),
    }
}

#[test]
fn list_columns_give_back_their_rows() {
    let rows = vec![Some(vec![1i64, 2]), None, Some(vec![]), Some(vec![3, 4, 5]), None];
    match columns::list_i64_col(rows.clone()) {
        Column::List(layout, items) => {
            let items = int64(&items);
            let mut back = Vec::new();
            for i in 0..layout.valid.len() {
                let from = layout.offsets[i] as usize;
                let to = layout.offsets[i + 1] as usize;
                back.push(if layout.valid[i] {
                    Some(items[from..to].iter().map(|v| v.unwrap()).collect::<Vec<i64>>())
                } else {
                    None
                });
            }
            assert_eq!(back, rows);
        }
        _ => panic!("not a list"),
    }
}
