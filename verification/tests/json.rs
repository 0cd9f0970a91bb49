use async_codec_lite::{BytesMut, Decoder, Encoder, JsonCodec};
use serde_json::{Number, Value};

fn test_value(data: u64) -> Value {
    let mut map = serde_json::Map::new();
    map.insert("name".to_owned(), Value::String("Test name".to_owned()));
    map.insert("data".to_owned(), Value::Number(Number::from(data)));
    Value::Object(map)
}

#[test]
fn json_codec_encode_decode() {
    let mut codec = JsonCodec::new();
    let mut buff = BytesMut::new();

    let item1 = test_value(16);
    codec.encode(item1.clone(), &mut buff).unwrap();

    let item2 = codec.decode(&mut buff).unwrap().unwrap();
    assert_eq!(item1, item2);

    assert_eq!(codec.decode(&mut buff).unwrap(), None);

    assert_eq!(buff.len(), 0);
}

#[test]
fn json_codec_partial_decode() {
    let mut codec = JsonCodec::new();
    let mut buff = BytesMut::new();

    let item1 = test_value(34);
    codec.encode(item1, &mut buff).unwrap();

    let mut start = buff.clone().split_to(4);
    assert_eq!(codec.decode(&mut start).unwrap(), None);

    codec.decode(&mut buff).unwrap().unwrap();

    assert_eq!(buff.len(), 0);
}

#[test]
fn json_codec_rejects_malformed_input() {
    let mut codec = JsonCodec::new();
    let mut buff = BytesMut::new();
    buff.extend_from_slice(b"}{");
    assert!(codec.decode(&mut buff).is_err());
}
