//! Byte-exact scenarios for the scalar emission operations.

use ubjson::Serializer;

fn enc_bool(v: bool) -> Vec<u8> {
    let mut s = Serializer::new(Vec::new());
    s.serialize_bool(v).unwrap();
    s.into_inner()
}

fn enc_i8(v: i8) -> Vec<u8> {
    let mut s = Serializer::new(Vec::new());
    s.serialize_i8(v).unwrap();
    s.into_inner()
}

fn enc_i16(v: i16) -> Vec<u8> {
    let mut s = Serializer::new(Vec::new());
    s.serialize_i16(v).unwrap();
    s.into_inner()
}

fn enc_i32(v: i32) -> Vec<u8> {
    let mut s = Serializer::new(Vec::new());
    s.serialize_i32(v).unwrap();
    s.into_inner()
}

fn enc_i64(v: i64) -> Vec<u8> {
    let mut s = Serializer::new(Vec::new());
    s.serialize_i64(v).unwrap();
    s.into_inner()
}

fn enc_u8(v: u8) -> Vec<u8> {
    let mut s = Serializer::new(Vec::new());
    s.serialize_u8(v).unwrap();
    s.into_inner()
}

fn enc_u16(v: u16) -> Vec<u8> {
    let mut s = Serializer::new(Vec::new());
    s.serialize_u16(v).unwrap();
    s.into_inner()
}

fn enc_u32(v: u32) -> Vec<u8> {
    let mut s = Serializer::new(Vec::new());
    s.serialize_u32(v).unwrap();
    s.into_inner()
}

fn enc_u64(v: u64) -> Vec<u8> {
    let mut s = Serializer::new(Vec::new());
    s.serialize_u64(v).unwrap();
    s.into_inner()
}

fn enc_f32(v: f32) -> Vec<u8> {
    let mut s = Serializer::new(Vec::new());
    s.serialize_f32_bits(v.to_bits()).unwrap();
    s.into_inner()
}

fn enc_f64(v: f64) -> Vec<u8> {
    let mut s = Serializer::new(Vec::new());
    s.serialize_f64_bits(v.to_bits()).unwrap();
    s.into_inner()
}

fn enc_char(v: char) -> Vec<u8> {
    let mut s = Serializer::new(Vec::new());
    s.serialize_char(v).unwrap();
    s.into_inner()
}

#[test]
fn serialize_bool() {
    assert_eq!(enc_bool(true), b"T");
    assert_eq!(enc_bool(false), b"F");
}

#[test]
fn serialize_i8() {
    assert_eq!(enc_i8(i8::MIN), b"i\x80");
    assert_eq!(enc_i8(0i8), b"i\x00");
    assert_eq!(enc_i8(i8::MAX), b"i\x7f");
}

#[test]
fn serialize_i16() {
    assert_eq!(enc_i16(i16::MIN), b"I\x80\x00");
    assert_eq!(enc_i16(i16::from(i8::MIN) - 1), b"I\xff\x7f");
    assert_eq!(enc_i16(i16::from(i8::MIN)), b"i\x80");
    assert_eq!(enc_i16(0i16), b"i\x00");
    assert_eq!(enc_i16(i16::from(i8::MAX)), b"i\x7f");
    assert_eq!(enc_i16(i16::from(i8::MAX) + 1), b"U\x80");
    assert_eq!(enc_i16(i16::from(u8::MAX)), b"U\xff");
    assert_eq!(enc_i16(i16::from(u8::MAX) + 1), b"I\x01\x00");
    assert_eq!(enc_i16(i16::MAX), b"I\x7f\xff");
}

#[test]
fn serialize_i32() {
    assert_eq!(enc_i32(i32::MIN), b"l\x80\x00\x00\x00");
    assert_eq!(enc_i32(i32::from(i16::MIN) - 1), b"l\xff\xff\x7f\xff");
    assert_eq!(enc_i32(i32::from(i16::MIN)), b"I\x80\x00");
    assert_eq!(enc_i32(i32::from(i8::MIN) - 1), b"I\xff\x7f");
    assert_eq!(enc_i32(i32::from(i8::MIN)), b"i\x80");
    assert_eq!(enc_i32(0i32), b"i\x00");
    assert_eq!(enc_i32(i32::from(i8::MAX)), b"i\x7f");
    assert_eq!(enc_i32(i32::from(i8::MAX) + 1), b"U\x80");
    assert_eq!(enc_i32(i32::from(u8::MAX)), b"U\xff");
    assert_eq!(enc_i32(i32::from(u8::MAX) + 1), b"I\x01\x00");
    assert_eq!(enc_i32(i32::from(i16::MAX)), b"I\x7f\xff");
    assert_eq!(enc_i32(i32::from(i16::MAX) + 1), b"l\x00\x00\x80\x00");
    assert_eq!(enc_i32(i32::MAX), b"l\x7f\xff\xff\xff");
}

#[test]
fn serialize_i64() {
    assert_eq!(enc_i64(i64::MIN), b"L\x80\x00\x00\x00\x00\x00\x00\x00");
    assert_eq!(enc_i64(i64::from(i32::MIN) - 1), b"L\xff\xff\xff\xff\x7f\xff\xff\xff");
    assert_eq!(enc_i64(i64::from(i32::MIN)), b"l\x80\x00\x00\x00");
    assert_eq!(enc_i64(i64::from(i16::MIN) - 1), b"l\xff\xff\x7f\xff");
    assert_eq!(enc_i64(i64::from(i16::MIN)), b"I\x80\x00");
    assert_eq!(enc_i64(i64::from(i8::MIN) - 1), b"I\xff\x7f");
    assert_eq!(enc_i64(i64::from(i8::MIN)), b"i\x80");
    assert_eq!(enc_i64(0i64), b"i\x00");
    assert_eq!(enc_i64(i64::from(i8::MAX)), b"i\x7f");
    assert_eq!(enc_i64(i64::from(i8::MAX) + 1), b"U\x80");
    assert_eq!(enc_i64(i64::from(u8::MAX)), b"U\xff");
    assert_eq!(enc_i64(i64::from(u8::MAX) + 1), b"I\x01\x00");
    assert_eq!(enc_i64(i64::from(i16::MAX)), b"I\x7f\xff");
    assert_eq!(enc_i64(i64::from(i16::MAX) + 1), b"l\x00\x00\x80\x00");
    assert_eq!(enc_i64(i64::from(i32::MAX)), b"l\x7f\xff\xff\xff");
    assert_eq!(enc_i64(i64::from(i32::MAX) + 1), b"L\x00\x00\x00\x00\x80\x00\x00\x00");
    assert_eq!(enc_i64(i64::MAX), b"L\x7f\xff\xff\xff\xff\xff\xff\xff");
}

#[test]
fn serialize_u8() {
    assert_eq!(enc_u8(u8::MIN), b"U\x00");
    assert_eq!(enc_u8(u8::MAX), b"U\xff");
}

#[test]
fn serialize_u16() {
    assert_eq!(enc_u16(0u16), b"U\x00");
    assert_eq!(enc_u16(u16::from(u8::MAX)), b"U\xff");
    assert_eq!(enc_u16(u16::from(u8::MAX) + 1), b"I\x01\x00");
    assert_eq!(enc_u16(i16::MAX as u16), b"I\x7f\xff");
    assert_eq!(enc_u16(i16::MAX as u16 + 1), b"l\x00\x00\x80\x00");
    assert_eq!(enc_u16(u16::MAX), b"l\x00\x00\xff\xff");
}

#[test]
fn serialize_u32() {
    assert_eq!(enc_u32(0u32), b"U\x00");
    assert_eq!(enc_u32(u32::from(u8::MAX)), b"U\xff");
    assert_eq!(enc_u32(u32::from(u8::MAX) + 1), b"I\x01\x00");
    assert_eq!(enc_u32(i16::MAX as u32), b"I\x7f\xff");
    assert_eq!(enc_u32(i16::MAX as u32 + 1), b"l\x00\x00\x80\x00");
    assert_eq!(enc_u32(i32::MAX as u32), b"l\x7f\xff\xff\xff");
    assert_eq!(enc_u32(i32::MAX as u32 + 1), b"L\x00\x00\x00\x00\x80\x00\x00\x00");
    assert_eq!(enc_u32(u32::MAX), b"L\x00\x00\x00\x00\xff\xff\xff\xff");
}

#[test]
fn serialize_u64() {
    assert_eq!(enc_u64(0u64), b"U\x00");
    assert_eq!(enc_u64(u64::from(u8::MAX)), b"U\xff");
    assert_eq!(enc_u64(u64::from(u8::MAX) + 1), b"I\x01\x00");
    assert_eq!(enc_u64(i16::MAX as u64), b"I\x7f\xff");
    assert_eq!(enc_u64(i16::MAX as u64 + 1), b"l\x00\x00\x80\x00");
    assert_eq!(enc_u64(i32::MAX as u64), b"l\x7f\xff\xff\xff");
    assert_eq!(enc_u64(i32::MAX as u64 + 1), b"L\x00\x00\x00\x00\x80\x00\x00\x00");
    assert_eq!(enc_u64(i64::MAX as u64), b"L\x7f\xff\xff\xff\xff\xff\xff\xff");
    assert_eq!(enc_u64(i64::MAX as u64 + 1), b"HU\x139223372036854775808");
    assert_eq!(enc_u64(u64::MAX), b"HU\x1418446744073709551615");
}

#[test]
fn serialize_f32() {
    assert_eq!(enc_f32(0.0f32), b"d\x00\x00\x00\x00");
    assert_eq!(enc_f32(std::f32::consts::PI), b"d\x40\x49\x0f\xdb");
    assert_eq!(enc_f32(std::f32::consts::E), b"d\x40\x2d\xf8\x54");
}

#[test]
fn serialize_f64() {
    assert_eq!(enc_f64(0.0f64), b"D\x00\x00\x00\x00\x00\x00\x00\x00");
    assert_eq!(enc_f64(std::f64::consts::PI), b"D\x40\x09\x21\xfb\x54\x44\x2d\x18");
    assert_eq!(enc_f64(std::f64::consts::E), b"D\x40\x05\xbf\x0a\x8b\x14\x57\x69");
}

#[test]
fn serialize_char() {
    assert_eq!(enc_char('A'), b"CA");
    assert_eq!(enc_char('\u{c0}'), b"U\xc0");
    assert_eq!(enc_char('\u{ac00}'), b"l\x00\x00\xac\x00");
}
