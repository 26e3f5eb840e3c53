use xdr_serde::{Deserializer, Error, Serializer};

// ── Primitive round-trip tests ─────────────────────────────────────────────

#[test]
fn test_bool_true() {
    let mut ser = Serializer::new(Vec::new());
    ser.serialize_bool(true).unwrap();
    let bytes = ser.into_writer();
    assert_eq!(bytes, [0, 0, 0, 1]);
    let decoded = Deserializer::new(&bytes).read_bool().unwrap();
    assert!(decoded);
}

#[test]
fn test_bool_false() {
    let mut ser = Serializer::new(Vec::new());
    ser.serialize_bool(false).unwrap();
    let bytes = ser.into_writer();
    assert_eq!(bytes, [0, 0, 0, 0]);
    let decoded = Deserializer::new(&bytes).read_bool().unwrap();
    assert!(!decoded);
}

#[test]
fn test_i32_positive() {
    let v: i32 = 1234567;
    let mut ser = Serializer::new(Vec::new());
    ser.write_i32(v).unwrap();
    let bytes = ser.into_writer();
    assert_eq!(bytes.len(), 4);
    let decoded = Deserializer::new(&bytes).read_i32().unwrap();
    assert_eq!(v, decoded);
}

#[test]
fn test_i32_negative() {
    let v: i32 = -42;
    let mut ser = Serializer::new(Vec::new());
    ser.write_i32(v).unwrap();
    let bytes = ser.into_writer();
    assert_eq!(bytes.len(), 4);
    let decoded = Deserializer::new(&bytes).read_i32().unwrap();
    assert_eq!(v, decoded);
}

#[test]
fn test_i32_min_max() {
    for v in [i32::MIN, -1, 0, 1, i32::MAX] {
        let mut ser = Serializer::new(Vec::new());
        ser.write_i32(v).unwrap();
        let bytes = ser.into_writer();
        let decoded = Deserializer::new(&bytes).read_i32().unwrap();
        assert_eq!(v, decoded, "failed for {}", v);
    }
}

#[test]
fn test_u32() {
    let v: u32 = 0xDEADBEEF;
    let mut ser = Serializer::new(Vec::new());
    ser.write_u32(v).unwrap();
    let bytes = ser.into_writer();
    assert_eq!(bytes, [0xDE, 0xAD, 0xBE, 0xEF]);
    let decoded = Deserializer::new(&bytes).read_u32().unwrap();
    assert_eq!(v, decoded);
}

#[test]
fn test_i64_hyper() {
    let v: i64 = -9_000_000_000;
    let mut ser = Serializer::new(Vec::new());
    ser.write_i64(v).unwrap();
    let bytes = ser.into_writer();
    assert_eq!(bytes.len(), 8);
    let decoded = Deserializer::new(&bytes).read_i64().unwrap();
    assert_eq!(v, decoded);
}

#[test]
fn test_u64_unsigned_hyper() {
    let v: u64 = 0x0102030405060708;
    let mut ser = Serializer::new(Vec::new());
    ser.write_u64(v).unwrap();
    let bytes = ser.into_writer();
    assert_eq!(bytes, [1, 2, 3, 4, 5, 6, 7, 8]);
    let decoded = Deserializer::new(&bytes).read_u64().unwrap();
    assert_eq!(v, decoded);
}

// ── String tests ───────────────────────────────────────────────────────────

fn string_to_bytes(v: &str) -> Vec<u8> {
    let mut ser = Serializer::new(Vec::new());
    ser.serialize_str(v).unwrap();
    ser.into_writer()
}

#[test]
fn test_string_no_padding() {
    // "ABCD" = 4 bytes, no padding needed
    let v = "ABCD".to_string();
    let bytes = string_to_bytes(&v);
    // 4 (length) + 4 (data) = 8
    assert_eq!(bytes.len(), 8);
    assert_eq!(&bytes[..4], [0, 0, 0, 4]); // length
    assert_eq!(&bytes[4..], b"ABCD");
    let decoded = Deserializer::new(&bytes).read_string().unwrap();
    assert_eq!(v, decoded);
}

#[test]
fn test_string_with_padding() {
    // "Hi" = 2 bytes → needs 2 bytes of padding
    let v = "Hi".to_string();
    let bytes = string_to_bytes(&v);
    // 4 (length) + 2 (data) + 2 (padding) = 8
    assert_eq!(bytes.len(), 8);
    assert_eq!(&bytes[..4], [0, 0, 0, 2]);
    assert_eq!(&bytes[4..6], b"Hi");
    assert_eq!(&bytes[6..8], [0, 0]);
    let decoded = Deserializer::new(&bytes).read_string().unwrap();
    assert_eq!(v, decoded);
}

#[test]
fn test_empty_string() {
    let v = "".to_string();
    let bytes = string_to_bytes(&v);
    // 4 (length = 0) + 0 (data) = 4
    assert_eq!(bytes, [0, 0, 0, 0]);
    let decoded = Deserializer::new(&bytes).read_string().unwrap();
    assert_eq!(v, decoded);
}

#[test]
fn test_string_length_1() {
    let v = "X".to_string();
    let bytes = string_to_bytes(&v);
    // 4 (length) + 1 + 3 padding = 8
    assert_eq!(bytes.len(), 8);
    let decoded = Deserializer::new(&bytes).read_string().unwrap();
    assert_eq!(v, decoded);
}

#[test]
fn test_string_length_3() {
    let v = "foo".to_string();
    let bytes = string_to_bytes(&v);
    // 4 (length) + 3 + 1 padding = 8
    assert_eq!(bytes.len(), 8);
    let decoded = Deserializer::new(&bytes).read_string().unwrap();
    assert_eq!(v, decoded);
}

// ── Byte slice / opaque tests ──────────────────────────────────────────────

#[test]
fn test_bytes_variable_opaque() {
    let v: Vec<u8> = vec![0xAA, 0xBB, 0xCC];
    let mut ser = Serializer::new(Vec::new());
    ser.serialize_bytes(&v).unwrap();
    let bytes = ser.into_writer();
    // 4 (len=3) + 3 + 1 padding = 8
    assert_eq!(bytes.len(), 8);
    let decoded = Deserializer::new(&bytes).read_variable_opaque_owned().unwrap();
    assert_eq!(v, decoded);
}

// ── Option tests ───────────────────────────────────────────────────────────

#[test]
fn test_option_none() {
    let mut ser = Serializer::new(Vec::new());
    ser.serialize_none().unwrap();
    let bytes = ser.into_writer();
    // 4 bytes: discriminant = 0
    assert_eq!(bytes, [0, 0, 0, 0]);
    let decoded = Deserializer::new(&bytes).read_option_tag().unwrap();
    assert_eq!(false, decoded);
}

#[test]
fn test_option_some() {
    let mut ser = Serializer::new(Vec::new());
    ser.serialize_some_tag().unwrap();
    ser.write_u32(42).unwrap();
    let bytes = ser.into_writer();
    // 4 (discriminant=1) + 4 (value=42) = 8
    assert_eq!(bytes.len(), 8);
    assert_eq!(&bytes[..4], [0, 0, 0, 1]);
    assert_eq!(&bytes[4..], [0, 0, 0, 42]);
    let mut de = Deserializer::new(&bytes);
    assert!(de.read_option_tag().unwrap());
    assert_eq!(de.read_u32().unwrap(), 42);
}

// ── Struct tests ───────────────────────────────────────────────────────────

#[derive(Debug, PartialEq)]
struct FileHandle {
    inode: u64,
    generation: u32,
    flags: u32,
}

fn encode_file_handle(fh: &FileHandle, ser: &mut Serializer<Vec<u8>>) {
    ser.write_u64(fh.inode).unwrap();
    ser.write_u32(fh.generation).unwrap();
    ser.write_u32(fh.flags).unwrap();
}

fn decode_file_handle(de: &mut Deserializer<'_>) -> FileHandle {
    FileHandle {
        inode: de.read_u64().unwrap(),
        generation: de.read_u32().unwrap(),
        flags: de.read_u32().unwrap(),
    }
}

#[test]
fn test_struct_file_handle() {
    let fh = FileHandle {
        inode: 0x0102030405060708,
        generation: 42,
        flags: 0xFFFF,
    };
    let mut ser = Serializer::new(Vec::new());
    encode_file_handle(&fh, &mut ser);
    let bytes = ser.into_writer();
    // 8 + 4 + 4 = 16 bytes total
    assert_eq!(bytes.len(), 16);
    assert_eq!(&bytes[..8], [1, 2, 3, 4, 5, 6, 7, 8]);
    assert_eq!(&bytes[8..12], [0, 0, 0, 42]);
    assert_eq!(&bytes[12..], [0, 0, 0xFF, 0xFF]);
    let decoded = decode_file_handle(&mut Deserializer::new(&bytes));
    assert_eq!(fh, decoded);
}

#[derive(Debug, PartialEq)]
struct NfsAttr {
    file_type: u32,
    mode: u32,
    nlink: u32,
    uid: u32,
    gid: u32,
    size: u64,
    name: String,
    active: bool,
}

#[test]
fn test_complex_struct() {
    let attr = NfsAttr {
        file_type: 1,
        mode: 0o755,
        nlink: 2,
        uid: 1000,
        gid: 1000,
        size: 4096,
        name: "file.txt".to_string(),
        active: true,
    };
    let mut ser = Serializer::new(Vec::new());
    ser.write_u32(attr.file_type).unwrap();
    ser.write_u32(attr.mode).unwrap();
    ser.write_u32(attr.nlink).unwrap();
    ser.write_u32(attr.uid).unwrap();
    ser.write_u32(attr.gid).unwrap();
    ser.write_u64(attr.size).unwrap();
    ser.serialize_str(&attr.name).unwrap();
    ser.serialize_bool(attr.active).unwrap();
    let bytes = ser.into_writer();
    let mut de = Deserializer::new(&bytes);
    let decoded = NfsAttr {
        file_type: de.read_u32().unwrap(),
        mode: de.read_u32().unwrap(),
        nlink: de.read_u32().unwrap(),
        uid: de.read_u32().unwrap(),
        gid: de.read_u32().unwrap(),
        size: de.read_u64().unwrap(),
        name: de.read_string().unwrap(),
        active: de.read_bool().unwrap(),
    };
    assert_eq!(attr, decoded);
}

// ── Enum tests ─────────────────────────────────────────────────────────────

#[derive(Debug, PartialEq, Clone, Copy)]
enum Color {
    Red,   // index 0
    Green, // index 1
    Blue,  // index 2
}

fn color_index(c: Color) -> u32 {
    match c {
        Color::Red => 0,
        Color::Green => 1,
        Color::Blue => 2,
    }
}

fn color_from_index(idx: u32) -> Color {
    match idx {
        0 => Color::Red,
        1 => Color::Green,
        2 => Color::Blue,
        _ => panic!("invalid discriminant"),
    }
}

#[test]
fn test_unit_enum() {
    for (color, expected_idx) in [(Color::Red, 0u32), (Color::Green, 1), (Color::Blue, 2)] {
        let mut ser = Serializer::new(Vec::new());
        ser.serialize_variant_index(color_index(color)).unwrap();
        let bytes = ser.into_writer();
        assert_eq!(bytes.len(), 4);
        let idx = u32::from_be_bytes(bytes[..4].try_into().unwrap());
        assert_eq!(idx, expected_idx);
        let decoded = color_from_index(Deserializer::new(&bytes).read_u32().unwrap());
        assert_eq!(color, decoded);
    }
}

#[derive(Debug, PartialEq)]
enum FileType {
    Regular,                             // 0
    Directory,                           // 1
    Symlink(String),                     // 2 + target
    BlockDev { major: u32, minor: u32 }, // 3 + two u32s
}

fn encode_file_type(v: &FileType, ser: &mut Serializer<Vec<u8>>) {
    match v {
        FileType::Regular => ser.serialize_variant_index(0).unwrap(),
        FileType::Directory => ser.serialize_variant_index(1).unwrap(),
        FileType::Symlink(target) => {
            ser.serialize_variant_index(2).unwrap();
            ser.serialize_str(target).unwrap();
        }
        FileType::BlockDev { major, minor } => {
            ser.serialize_variant_index(3).unwrap();
            ser.write_u32(*major).unwrap();
            ser.write_u32(*minor).unwrap();
        }
    }
}

fn decode_file_type(de: &mut Deserializer<'_>) -> FileType {
    match de.read_u32().unwrap() {
        0 => FileType::Regular,
        1 => FileType::Directory,
        2 => FileType::Symlink(de.read_string().unwrap()),
        3 => FileType::BlockDev {
            major: de.read_u32().unwrap(),
            minor: de.read_u32().unwrap(),
        },
        _ => panic!("invalid discriminant"),
    }
}

#[test]
fn test_newtype_enum_variant() {
    let v = FileType::Symlink("/etc/hosts".to_string());
    let mut ser = Serializer::new(Vec::new());
    encode_file_type(&v, &mut ser);
    let bytes = ser.into_writer();
    // 4 (discriminant=2) + 4 (len=10) + 10 + 2 padding = 20
    assert_eq!(bytes.len(), 20);
    assert_eq!(&bytes[..4], [0, 0, 0, 2]);
    let decoded = decode_file_type(&mut Deserializer::new(&bytes));
    assert_eq!(v, decoded);
}

#[test]
fn test_struct_enum_variant() {
    let v = FileType::BlockDev { major: 8, minor: 1 };
    let mut ser = Serializer::new(Vec::new());
    encode_file_type(&v, &mut ser);
    let bytes = ser.into_writer();
    // 4 (discriminant=3) + 4 + 4 = 12
    assert_eq!(bytes.len(), 12);
    assert_eq!(&bytes[..4], [0, 0, 0, 3]);
    assert_eq!(&bytes[4..8], [0, 0, 0, 8]);
    assert_eq!(&bytes[8..12], [0, 0, 0, 1]);
    let decoded = decode_file_type(&mut Deserializer::new(&bytes));
    assert_eq!(v, decoded);
}

#[test]
fn test_unit_enum_variants() {
    let v = FileType::Regular;
    let mut ser = Serializer::new(Vec::new());
    encode_file_type(&v, &mut ser);
    let bytes = ser.into_writer();
    assert_eq!(bytes, [0, 0, 0, 0]);
    let decoded = decode_file_type(&mut Deserializer::new(&bytes));
    assert_eq!(v, decoded);

    let v = FileType::Directory;
    let mut ser = Serializer::new(Vec::new());
    encode_file_type(&v, &mut ser);
    let bytes = ser.into_writer();
    assert_eq!(bytes, [0, 0, 0, 1]);
    let decoded = decode_file_type(&mut Deserializer::new(&bytes));
    assert_eq!(v, decoded);
}

// ── Sequence tests ─────────────────────────────────────────────────────────

#[test]
fn test_vec_u32() {
    let v: Vec<u32> = vec![1, 2, 3, 4, 5];
    let mut ser = Serializer::new(Vec::new());
    ser.serialize_seq_len(Some(v.len())).unwrap();
    for x in &v {
        ser.write_u32(*x).unwrap();
    }
    let bytes = ser.into_writer();
    // 4 (count=5) + 5*4 = 24
    assert_eq!(bytes.len(), 24);
    assert_eq!(&bytes[..4], [0, 0, 0, 5]); // count prefix
    let mut de = Deserializer::new(&bytes);
    let n = de.read_u32().unwrap();
    let mut decoded: Vec<u32> = Vec::new();
    for _ in 0..n {
        decoded.push(de.read_u32().unwrap());
    }
    assert_eq!(v, decoded);
}

#[test]
fn test_empty_vec() {
    let v: Vec<u32> = vec![];
    let mut ser = Serializer::new(Vec::new());
    ser.serialize_seq_len(Some(v.len())).unwrap();
    let bytes = ser.into_writer();
    assert_eq!(bytes, [0, 0, 0, 0]);
    let mut de = Deserializer::new(&bytes);
    let n = de.read_u32().unwrap();
    let mut decoded: Vec<u32> = Vec::new();
    for _ in 0..n {
        decoded.push(de.read_u32().unwrap());
    }
    assert_eq!(v, decoded);
}

#[test]
fn test_vec_of_strings() {
    let v: Vec<String> = vec!["hello".to_string(), "world".to_string()];
    let mut ser = Serializer::new(Vec::new());
    ser.serialize_seq_len(Some(v.len())).unwrap();
    for s in &v {
        ser.serialize_str(s).unwrap();
    }
    let bytes = ser.into_writer();
    let mut de = Deserializer::new(&bytes);
    let n = de.read_u32().unwrap();
    let mut decoded: Vec<String> = Vec::new();
    for _ in 0..n {
        decoded.push(de.read_string().unwrap());
    }
    assert_eq!(v, decoded);
}

// ── Tuple tests ────────────────────────────────────────────────────────────

#[test]
fn test_tuple_no_count_prefix() {
    // Tuples are fixed-length: no count prefix in XDR
    let v: (u32, u32, u32) = (1, 2, 3);
    let mut ser = Serializer::new(Vec::new());
    ser.write_u32(v.0).unwrap();
    ser.write_u32(v.1).unwrap();
    ser.write_u32(v.2).unwrap();
    let bytes = ser.into_writer();
    // 3 * 4 = 12 (no length prefix)
    assert_eq!(bytes.len(), 12);
    assert_eq!(&bytes[..4], [0, 0, 0, 1]);
    assert_eq!(&bytes[4..8], [0, 0, 0, 2]);
    assert_eq!(&bytes[8..12], [0, 0, 0, 3]);
    let mut de = Deserializer::new(&bytes);
    let decoded = (
        de.read_u32().unwrap(),
        de.read_u32().unwrap(),
        de.read_u32().unwrap(),
    );
    assert_eq!(v, decoded);
}

// ── Void / unit tests ──────────────────────────────────────────────────────

#[test]
fn test_unit_void() {
    let mut ser = Serializer::new(Vec::new());
    ser.serialize_unit().unwrap();
    let bytes = ser.into_writer();
    assert_eq!(bytes.len(), 0); // XDR void = 0 bytes
    let de = Deserializer::new(&bytes);
    assert_eq!(de.remaining().len(), 0);
}

// ── Byte-level encoding verification ──────────────────────────────────────

#[test]
fn test_xdr_int_big_endian() {
    // RFC 4506 §4.1: MSB is byte 0
    let v: i32 = 1; // 0x00000001
    let mut ser = Serializer::new(Vec::new());
    ser.write_i32(v).unwrap();
    let bytes = ser.into_writer();
    assert_eq!(bytes, [0x00, 0x00, 0x00, 0x01]);
}

#[test]
fn test_xdr_unsigned_int_big_endian() {
    let v: u32 = 0x12345678;
    let mut ser = Serializer::new(Vec::new());
    ser.write_u32(v).unwrap();
    let bytes = ser.into_writer();
    assert_eq!(bytes, [0x12, 0x34, 0x56, 0x78]);
}

#[test]
fn test_xdr_hyper_big_endian() {
    let v: i64 = 1; // 0x0000000000000001
    let mut ser = Serializer::new(Vec::new());
    ser.write_i64(v).unwrap();
    let bytes = ser.into_writer();
    assert_eq!(bytes, [0, 0, 0, 0, 0, 0, 0, 1]);
}

#[test]
fn test_string_padding_correctness() {
    // XDR §4.11: n bytes + r zero bytes where (n + r) mod 4 == 0
    for (s, expected_total) in [
        ("", 4usize),  // 4 len + 0 bytes + 0 pad
        ("A", 8),      // 4 len + 1 byte + 3 pad
        ("AB", 8),     // 4 len + 2 bytes + 2 pad
        ("ABC", 8),    // 4 len + 3 bytes + 1 pad
        ("ABCD", 8),   // 4 len + 4 bytes + 0 pad
        ("ABCDE", 12), // 4 len + 5 bytes + 3 pad
    ] {
        let bytes = string_to_bytes(s);
        assert_eq!(
            bytes.len(),
            expected_total,
            "string {:?} expected {} bytes, got {}",
            s,
            expected_total,
            bytes.len()
        );
        // All bytes after the data should be zero-padded
        let data_len = s.len();
        let pad_start = 4 + data_len;
        for &b in &bytes[pad_start..] {
            assert_eq!(b, 0, "padding byte should be zero for {:?}", s);
        }
    }
}

// ── Nested structures ──────────────────────────────────────────────────────

#[derive(Debug, PartialEq)]
struct LookupResult {
    found: bool,
    handle: Option<FileHandle>,
    name: String,
}

#[test]
fn test_nested_struct_with_option() {
    let r = LookupResult {
        found: true,
        handle: Some(FileHandle {
            inode: 99,
            generation: 1,
            flags: 0,
        }),
        name: "test".to_string(),
    };
    let mut ser = Serializer::new(Vec::new());
    ser.serialize_bool(r.found).unwrap();
    match &r.handle {
        Some(fh) => {
            ser.serialize_some_tag().unwrap();
            encode_file_handle(fh, &mut ser);
        }
        None => ser.serialize_none().unwrap(),
    }
    ser.serialize_str(&r.name).unwrap();
    let bytes = ser.into_writer();
    let mut de = Deserializer::new(&bytes);
    let decoded = LookupResult {
        found: de.read_bool().unwrap(),
        handle: if de.read_option_tag().unwrap() {
            Some(decode_file_handle(&mut de))
        } else {
            None
        },
        name: de.read_string().unwrap(),
    };
    assert_eq!(r, decoded);
}

#[test]
fn test_nested_struct_option_none() {
    let r = LookupResult {
        found: false,
        handle: None,
        name: "missing".to_string(),
    };
    let mut ser = Serializer::new(Vec::new());
    ser.serialize_bool(r.found).unwrap();
    match &r.handle {
        Some(fh) => {
            ser.serialize_some_tag().unwrap();
            encode_file_handle(fh, &mut ser);
        }
        None => ser.serialize_none().unwrap(),
    }
    ser.serialize_str(&r.name).unwrap();
    let bytes = ser.into_writer();
    let mut de = Deserializer::new(&bytes);
    let decoded = LookupResult {
        found: de.read_bool().unwrap(),
        handle: if de.read_option_tag().unwrap() {
            Some(decode_file_handle(&mut de))
        } else {
            None
        },
        name: de.read_string().unwrap(),
    };
    assert_eq!(r, decoded);
}

// ── Error cases ────────────────────────────────────────────────────────────

#[test]
fn test_unexpected_eof() {
    let result = Deserializer::new(&[0, 0, 0]).read_u32(); // only 3 bytes
    assert!(result.is_err());
    matches!(result.unwrap_err(), Error::UnexpectedEof);
}

#[test]
fn test_invalid_bool() {
    let invalid = [0, 0, 0, 2]; // bool must be 0 or 1
    let result = Deserializer::new(&invalid).read_bool();
    assert!(result.is_err());
}

#[test]
fn test_partial_deserialization() {
    // Two u32 values encoded back to back
    let mut ser = Serializer::new(Vec::new());
    ser.write_u32(42).unwrap();
    ser.write_u32(99).unwrap();
    let mut bytes = ser.into_writer();
    bytes.extend([0xFF, 0xFF]); // trailing bytes

    let mut de = Deserializer::new(&bytes);
    let first = de.read_u32().unwrap();
    assert_eq!(first, 42);
    let rest = de.remaining();
    let mut de2 = Deserializer::new(rest);
    let second = de2.read_u32().unwrap();
    assert_eq!(second, 99);
    assert_eq!(de2.remaining(), [0xFF, 0xFF]);
}

// ── NFS-style realistic test ───────────────────────────────────────────────

#[derive(Debug, PartialEq, Clone, Copy)]
enum NfsFileType {
    Reg,
    Dir,
    Blk,
    Chr,
    Lnk,
    Sock,
    Fifo,
}

fn nfs_file_type_index(t: NfsFileType) -> u32 {
    match t {
        NfsFileType::Reg => 0,
        NfsFileType::Dir => 1,
        NfsFileType::Blk => 2,
        NfsFileType::Chr => 3,
        NfsFileType::Lnk => 4,
        NfsFileType::Sock => 5,
        NfsFileType::Fifo => 6,
    }
}

fn nfs_file_type_from_index(idx: u32) -> NfsFileType {
    match idx {
        0 => NfsFileType::Reg,
        1 => NfsFileType::Dir,
        2 => NfsFileType::Blk,
        3 => NfsFileType::Chr,
        4 => NfsFileType::Lnk,
        5 => NfsFileType::Sock,
        6 => NfsFileType::Fifo,
        _ => panic!("invalid discriminant"),
    }
}

#[derive(Debug, PartialEq)]
struct Fattr3 {
    ftype: NfsFileType,
    mode: u32,
    nlink: u32,
    uid: u32,
    gid: u32,
    size: u64,
    used: u64,
    rdev_major: u32,
    rdev_minor: u32,
    fsid: u64,
    fileid: u64,
    atime_sec: u32,
    atime_nsec: u32,
    mtime_sec: u32,
    mtime_nsec: u32,
    ctime_sec: u32,
    ctime_nsec: u32,
}

#[test]
fn test_nfs_fattr3_roundtrip() {
    let attr = Fattr3 {
        ftype: NfsFileType::Reg,
        mode: 0o644,
        nlink: 1,
        uid: 1000,
        gid: 1000,
        size: 12345,
        used: 16384,
        rdev_major: 0,
        rdev_minor: 0,
        fsid: 0xABCD_EF01_2345_6789,
        fileid: 0x0000_0000_0000_0001,
        atime_sec: 1700000000,
        atime_nsec: 0,
        mtime_sec: 1700000001,
        mtime_nsec: 500000000,
        ctime_sec: 1700000001,
        ctime_nsec: 500000000,
    };
    let mut ser = Serializer::new(Vec::new());
    ser.serialize_variant_index(nfs_file_type_index(attr.ftype)).unwrap();
    ser.write_u32(attr.mode).unwrap();
    ser.write_u32(attr.nlink).unwrap();
    ser.write_u32(attr.uid).unwrap();
    ser.write_u32(attr.gid).unwrap();
    ser.write_u64(attr.size).unwrap();
    ser.write_u64(attr.used).unwrap();
    ser.write_u32(attr.rdev_major).unwrap();
    ser.write_u32(attr.rdev_minor).unwrap();
    ser.write_u64(attr.fsid).unwrap();
    ser.write_u64(attr.fileid).unwrap();
    ser.write_u32(attr.atime_sec).unwrap();
    ser.write_u32(attr.atime_nsec).unwrap();
    ser.write_u32(attr.mtime_sec).unwrap();
    ser.write_u32(attr.mtime_nsec).unwrap();
    ser.write_u32(attr.ctime_sec).unwrap();
    ser.write_u32(attr.ctime_nsec).unwrap();
    let bytes = ser.into_writer();
    // All XDR fields are 4-byte aligned
    assert_eq!(bytes.len() % 4, 0);
    let mut de = Deserializer::new(&bytes);
    let decoded = Fattr3 {
        ftype: nfs_file_type_from_index(de.read_u32().unwrap()),
        mode: de.read_u32().unwrap(),
        nlink: de.read_u32().unwrap(),
        uid: de.read_u32().unwrap(),
        gid: de.read_u32().unwrap(),
        size: de.read_u64().unwrap(),
        used: de.read_u64().unwrap(),
        rdev_major: de.read_u32().unwrap(),
        rdev_minor: de.read_u32().unwrap(),
        fsid: de.read_u64().unwrap(),
        fileid: de.read_u64().unwrap(),
        atime_sec: de.read_u32().unwrap(),
        atime_nsec: de.read_u32().unwrap(),
        mtime_sec: de.read_u32().unwrap(),
        mtime_nsec: de.read_u32().unwrap(),
        ctime_sec: de.read_u32().unwrap(),
        ctime_nsec: de.read_u32().unwrap(),
    };
    assert_eq!(attr, decoded);
}
