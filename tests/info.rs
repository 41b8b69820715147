use libcamera::{ControlInfo, ControlInfoMap, ControlType, ControlValue, ControlValueError};

fn int32(x: i32) -> Result<ControlValue, ControlValueError> {
    Ok(ControlValue::Int32(vec![x]))
}

fn as_int(v: &ControlValue) -> i32 {
    match v {
        ControlValue::Int32(xs) if xs.len() == 1 => xs[0],
        other => panic!("unexpected value {:?}", other),
    }
}

#[test]
fn bounds_and_default() {
    let info = ControlInfo::new(int32(0), int32(100), int32(50), vec![]);
    assert_eq!(as_int(&info.min().unwrap()), 0);
    assert_eq!(as_int(&info.max().unwrap()), 100);
    assert_eq!(as_int(&info.def().unwrap()), 50);
}

#[test]
fn bound_decode_error_is_returned() {
    let bad = ControlValueError::InvalidType { expected: ControlType::Int32, found: ControlType::Unset };
    let info = ControlInfo::new(Err(bad), int32(1), int32(1), vec![]);
    assert_eq!(info.min().unwrap_err(), bad);
    assert_eq!(as_int(&info.max().unwrap()), 1);
}

#[test]
fn no_declared_values_gives_empty() {
    let info = ControlInfo::new(int32(0), int32(1), int32(0), vec![]);
    assert!(info.values().unwrap().is_empty());
}

#[test]
fn declared_values_in_order() {
    let info = ControlInfo::new(int32(0), int32(3), int32(0), vec![int32(3), int32(1), int32(2)]);
    let values = info.values().unwrap();
    assert_eq!(values.len(), 3);
    assert_eq!(values.iter().map(as_int).collect::<Vec<_>>(), vec![3, 1, 2]);
}

#[test]
fn first_decode_failure_aborts_values() {
    let first = ControlValueError::InvalidLength { expected: 1, found: 0 };
    let second = ControlValueError::InvalidType { expected: ControlType::Bool, found: ControlType::Int64 };
    let info = ControlInfo::new(int32(0), int32(1), int32(0), vec![int32(1), Err(first), int32(2), Err(second)]);
    assert_eq!(info.values().unwrap_err(), first);
}

#[test]
fn info_map_lookup() {
    let mut map = ControlInfoMap::new();
    assert!(map.insert(7, ControlInfo::new(int32(10), int32(20), int32(15), vec![])));
    assert!(!map.insert(7, ControlInfo::new(int32(0), int32(0), int32(0), vec![])));
    assert!(map.insert(1, ControlInfo::new(int32(0), int32(1), int32(1), vec![int32(0), int32(1)])));
    let info = map.get(7).unwrap();
    assert_eq!(as_int(&info.min().unwrap()), 10);
    assert_eq!(map.get(1).unwrap().values().unwrap().len(), 2);
}

#[test]
fn info_map_absent_id_is_none() {
    let mut map = ControlInfoMap::new();
    assert!(map.get(7).is_none());
    map.insert(1, ControlInfo::new(int32(0), int32(1), int32(1), vec![]));
    assert!(map.get(7).is_none());
    assert!(map.get(1).is_some());
}
