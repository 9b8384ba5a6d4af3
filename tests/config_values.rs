use edge_stream::config::{
    setting_or, InputShape, ShapeError, CAPTURE_BIND_ADDRESS, DEFAULT_CHANNEL_ADDRESS,
    DEFAULT_MODEL_PATH,
};

#[test]
fn unset_setting_takes_default() {
    assert_eq!(setting_or(None, DEFAULT_CHANNEL_ADDRESS), "tcp://localhost:5555");
    assert_eq!(setting_or(None, DEFAULT_MODEL_PATH), "model.onnx");
    assert_eq!(CAPTURE_BIND_ADDRESS, "tcp://*:5555");
}

#[test]
fn set_setting_wins() {
    let v = setting_or(Some("tcp://10.0.0.2:6000".to_string()), DEFAULT_CHANNEL_ADDRESS);
    assert_eq!(v, "tcp://10.0.0.2:6000");
}

#[test]
fn model_input_has_150528_elements() {
    let s = InputShape::model_input();
    assert_eq!(s.elements(), 150528);
    assert_eq!(s.dims(), &vec![1, 3, 224, 224]);
}

#[test]
fn shape_element_count() {
    let s = InputShape::new(vec![2, 3, 4]).unwrap();
    assert_eq!(s.elements(), 24);
    assert_eq!(s.dims(), &vec![2, 3, 4]);
}

#[test]
fn empty_shape_refused() {
    assert_eq!(InputShape::new(vec![]).err(), Some(ShapeError::NoDimensions));
}

#[test]
fn zero_extent_refused() {
    assert_eq!(InputShape::new(vec![1, 0, 5]).err(), Some(ShapeError::ZeroExtent));
    assert_eq!(InputShape::new(vec![usize::MAX, usize::MAX, 0]).err(), Some(ShapeError::ZeroExtent));
}

#[test]
fn oversized_shape_refused() {
    assert_eq!(InputShape::new(vec![usize::MAX, 2]).err(), Some(ShapeError::TooLarge));
    assert_eq!(InputShape::new(vec![usize::MAX, 1]).unwrap().elements(), usize::MAX);
}
