use libcamera::controls::{AeEnable, ExposureTime, FrameDuration, ScalerCrop};
use libcamera::properties::{PixelArraySize, Rotation};
use libcamera::{
    ControlEntry, ControlError, ControlList, ControlType, ControlValue, ControlValueError,
    DynControlEntry, PropertyList, Rectangle, Size,
};

#[test]
fn round_trip_each_entry() {
    assert_eq!(AeEnable::from_value(&AeEnable(true).to_value()), Ok(AeEnable(true)));
    assert_eq!(AeEnable::from_value(&AeEnable(false).to_value()), Ok(AeEnable(false)));
    assert_eq!(ExposureTime::from_value(&ExposureTime(-3).to_value()), Ok(ExposureTime(-3)));
    assert_eq!(
        FrameDuration::from_value(&FrameDuration(i64::MAX).to_value()),
        Ok(FrameDuration(i64::MAX))
    );
    let crop = ScalerCrop(Rectangle { x: -1, y: 2, width: 640, height: 480 });
    assert_eq!(ScalerCrop::from_value(&crop.to_value()), Ok(crop));
    assert_eq!(Rotation::from_value(&Rotation(180).to_value()), Ok(Rotation(180)));
    let size = PixelArraySize(Size { width: 4056, height: 3040 });
    assert_eq!(PixelArraySize::from_value(&size.to_value()), Ok(size));
}

#[test]
fn encoding_carries_tag_and_payload() {
    match ExposureTime(42).to_value() {
        ControlValue::Int32(v) => assert_eq!(v, vec![42]),
        other => panic!("unexpected value {:?}", other),
    }
    match AeEnable(true).to_value() {
        ControlValue::Bool(v) => assert_eq!(v, vec![true]),
        other => panic!("unexpected value {:?}", other),
    }
    assert_eq!(FrameDuration(1).to_value().kind(), ControlType::Int64);
    assert_eq!(ExposureTime::entry_id(), 7);
    assert_eq!(AeEnable::entry_id(), 1);
    assert_eq!(Rotation::entry_id(), 2);
}

#[test]
fn wrong_tag_is_refused() {
    assert_eq!(
        ExposureTime::from_value(&ControlValue::Bool(vec![true])),
        Err(ControlValueError::InvalidType { expected: ControlType::Int32, found: ControlType::Bool })
    );
    assert_eq!(
        AeEnable::from_value(&ControlValue::Unset),
        Err(ControlValueError::InvalidType { expected: ControlType::Bool, found: ControlType::Unset })
    );
}

#[test]
fn wrong_length_is_refused() {
    assert_eq!(
        ExposureTime::from_value(&ControlValue::Int32(vec![1, 2])),
        Err(ControlValueError::InvalidLength { expected: 1, found: 2 })
    );
    assert_eq!(
        ExposureTime::from_value(&ControlValue::Int32(vec![])),
        Err(ControlValueError::InvalidLength { expected: 1, found: 0 })
    );
}

#[test]
fn get_after_set() {
    let mut list = ControlList::new();
    assert_eq!(list.set(ExposureTime(10000)), Ok(()));
    assert_eq!(list.set(AeEnable(false)), Ok(()));
    assert_eq!(list.get::<ExposureTime>(), Ok(ExposureTime(10000)));
    assert_eq!(list.get::<AeEnable>(), Ok(AeEnable(false)));
}

#[test]
fn set_overwrites_in_place() {
    let mut list = ControlList::new();
    list.set(ExposureTime(1)).unwrap();
    list.set(AeEnable(true)).unwrap();
    list.set(ExposureTime(2)).unwrap();
    assert_eq!(list.get::<ExposureTime>(), Ok(ExposureTime(2)));
    let mut it = list.iter();
    let (id, val) = it.next().unwrap();
    assert_eq!(id, 7);
    assert!(matches!(val, ControlValue::Int32(ref v) if v == &vec![2]));
    assert_eq!(it.next().unwrap().0, 1);
    assert!(it.next().is_none());
}

#[test]
fn get_absent_is_not_found() {
    let list = ControlList::new();
    assert_eq!(list.get::<ExposureTime>(), Err(ControlError::NotFound(7)));
    let mut list = ControlList::new();
    list.set(AeEnable(true)).unwrap();
    assert_eq!(list.get::<FrameDuration>(), Err(ControlError::NotFound(24)));
}

#[test]
fn get_with_mismatched_tag_is_value_error() {
    let mut list = ControlList::new();
    list.set_raw(7, ControlValue::Text("fast".to_string()));
    assert_eq!(
        list.get::<ExposureTime>(),
        Err(ControlError::ValueError(ControlValueError::InvalidType {
            expected: ControlType::Int32,
            found: ControlType::Text,
        }))
    );
    list.set_raw(1, ControlValue::Bool(vec![true, false]));
    assert_eq!(
        list.get::<AeEnable>(),
        Err(ControlError::ValueError(ControlValueError::InvalidLength { expected: 1, found: 2 }))
    );
}

#[test]
fn iterate_inserted_pairs_in_order() {
    let mut list = ControlList::new();
    list.set(AeEnable(true)).unwrap();
    list.set(ExposureTime(500)).unwrap();
    list.set(FrameDuration(33333)).unwrap();
    for _ in 0..2 {
        let mut it = list.iter();
        let mut ids = Vec::new();
        while let Some((id, val)) = it.next() {
            match id {
                1 => assert!(matches!(val, ControlValue::Bool(ref v) if v == &vec![true])),
                7 => assert!(matches!(val, ControlValue::Int32(ref v) if v == &vec![500])),
                24 => assert!(matches!(val, ControlValue::Int64(ref v) if v == &vec![33333])),
                _ => panic!("unexpected id {}", id),
            }
            ids.push(id);
        }
        assert_eq!(ids, vec![1, 7, 24]);
        assert!(it.next().is_none());
    }
}

#[test]
fn iterate_empty_list() {
    let list = ControlList::new();
    let mut it = list.iter();
    assert!(it.next().is_none());
    assert!(it.next().is_none());
    let props = PropertyList::new();
    assert!(props.iter().next().is_none());
}

#[test]
fn early_dropped_iterator_leaves_list_usable() {
    let mut list = ControlList::new();
    list.set(AeEnable(true)).unwrap();
    list.set(ExposureTime(9)).unwrap();
    {
        let mut it = list.iter();
        assert_eq!(it.next().unwrap().0, 1);
    }
    list.set(FrameDuration(5)).unwrap();
    let mut it = list.iter();
    let mut n = 0;
    while it.next().is_some() {
        n += 1;
    }
    assert_eq!(n, 3);
    assert_eq!(list.get::<ExposureTime>(), Ok(ExposureTime(9)));
}

#[test]
fn property_list_get_set() {
    let mut props = PropertyList::new();
    assert_eq!(props.get::<Rotation>(), Err(ControlError::NotFound(2)));
    props.set(Rotation(90)).unwrap();
    props.set(PixelArraySize(Size { width: 1920, height: 1080 })).unwrap();
    assert_eq!(props.get::<Rotation>(), Ok(Rotation(90)));
    assert_eq!(
        props.get::<PixelArraySize>(),
        Ok(PixelArraySize(Size { width: 1920, height: 1080 }))
    );
    let mut it = props.iter();
    assert_eq!(it.next().unwrap().0, 2);
    assert_eq!(it.next().unwrap().0, 5);
    assert!(it.next().is_none());
}

#[test]
fn dynamic_entry_view() {
    let e = ExposureTime(77);
    assert_eq!(DynControlEntry::id(&e), 7);
    assert!(matches!(e.value(), ControlValue::Int32(ref v) if v == &vec![77]));
}

#[test]
fn clone_keeps_value() {
    let v = ControlValue::Text("imx477".to_string());
    assert!(matches!(v.clone(), ControlValue::Text(ref s) if s == "imx477"));
    let v = ControlValue::Size(vec![Size { width: 1, height: 2 }, Size { width: 3, height: 4 }]);
    assert!(matches!(v.clone(), ControlValue::Size(ref s) if s.len() == 2 && s[1].width == 3));
    assert_eq!(v.kind(), ControlType::Size);
}

#[test]
fn collect_remaining_after_one_step() {
    let mut list = ControlList::new();
    list.set(AeEnable(true)).unwrap();
    list.set(ExposureTime(3)).unwrap();
    list.set(FrameDuration(4)).unwrap();
    let mut it = list.iter();
    assert_eq!(it.next().unwrap().0, 1);
    let rest = it.collect_remaining();
    assert_eq!(rest.iter().map(|p| p.0).collect::<Vec<_>>(), vec![7, 24]);
    assert!(it.next().is_none());
    assert_eq!(list.iter().collect_remaining().len(), 3);
}
