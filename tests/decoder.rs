use learn_jvm::attribute::{get_utf8, parse_attribute, parse_attributes, AttributeInfo};
use learn_jvm::class_reader::Reader;
use learn_jvm::classfile::{get_class_name, parse_class};
use learn_jvm::constant_pool::{parse_constant_pool, ConstantInfo};
use learn_jvm::error::DecodeError;
use learn_jvm::interpreter::{interpret, Stop};

fn utf8(s: &str) -> Vec<u8> {
    let mut v = vec![1u8];
    v.extend_from_slice(&(s.len() as u16).to_be_bytes());
    v.extend_from_slice(s.as_bytes());
    v
}

#[test]
fn pool_reserves_an_index_after_long_and_double() {
    let mut bytes = vec![5u8];
    bytes.extend_from_slice(&0x1122334455667788u64.to_be_bytes());
    bytes.extend(utf8("hi"));
    bytes.push(6);
    bytes.extend_from_slice(&2.5f64.to_bits().to_be_bytes());
    bytes.extend_from_slice(&[3, 0, 0, 0, 42]);
    let mut r = Reader::new(bytes);
    let pool = parse_constant_pool(&mut r, 7).unwrap();
    assert_eq!(pool.len(), 7);
    assert_eq!(pool[0], ConstantInfo::ConstantEmpty {});
    assert_eq!(pool[1], ConstantInfo::ConstantLong { value: 0x1122334455667788 });
    assert_eq!(pool[2], ConstantInfo::ConstantEmpty {});
    assert_eq!(pool[3], ConstantInfo::ConstantUTF8 { value: b"hi".to_vec() });
    assert_eq!(pool[4], ConstantInfo::ConstantDouble { value: 2.5f64.to_bits() });
    assert_eq!(pool[5], ConstantInfo::ConstantEmpty {});
    assert_eq!(pool[6], ConstantInfo::ConstantInteger { value: 42 });
    assert_eq!(r.cursor, r.content.len());
}

#[test]
fn pool_reference_entries() {
    let bytes = vec![
        7, 0, 2, // Class #2
        12, 0, 3, 0, 4, // NameAndType
        10, 0, 1, 0, 2, // MethodRef
        15, 6, 0, 9, // MethodHandle
        18, 0, 0, 0, 2, // InvokeDynamic
        16, 0, 5, // MethodType
    ];
    let mut r = Reader::new(bytes);
    let pool = parse_constant_pool(&mut r, 7).unwrap();
    assert_eq!(pool[1], ConstantInfo::ConstantClass { index: 2 });
    assert_eq!(pool[2], ConstantInfo::ConstantNameAndType { name_index: 3, descriptor_index: 4 });
    assert_eq!(pool[3], ConstantInfo::ConstantMethodReference { class_index: 1, name_and_type_index: 2 });
    assert_eq!(pool[4], ConstantInfo::ConstantMethodHandle { ref_kind: 6, ref_kind_index: 9 });
    assert_eq!(pool[5], ConstantInfo::ConstantInvokeDynamic { bootstrap_method_attr_index: 0, name_and_type_index: 2 });
    assert_eq!(pool[6], ConstantInfo::ConstantMethodType { descriptor_index: 5 });
}

#[test]
fn pool_errors() {
    let mut r = Reader::new(vec![2, 0, 0]);
    assert_eq!(parse_constant_pool(&mut r, 2), Err(DecodeError::UnknownConstantTag(2)));
    let mut r = Reader::new(vec![3, 0, 0]);
    assert_eq!(parse_constant_pool(&mut r, 2), Err(DecodeError::TruncatedInput));
    let mut r = Reader::new(vec![1, 0, 5, b'a']);
    assert_eq!(parse_constant_pool(&mut r, 2), Err(DecodeError::TruncatedInput));
    let mut r = Reader::new(Vec::new());
    assert_eq!(parse_constant_pool(&mut r, 1), Ok(vec![ConstantInfo::ConstantEmpty {}]));
}

fn pool_of(names: &[&str]) -> Vec<ConstantInfo> {
    let mut pool = vec![ConstantInfo::ConstantEmpty {}];
    for n in names {
        pool.push(ConstantInfo::ConstantUTF8 { value: n.as_bytes().to_vec() });
    }
    pool
}

#[test]
fn unknown_attribute_is_skipped_by_its_length() {
    let pool = pool_of(&["Foo"]);
    let bytes = vec![0, 1, 0, 0, 0, 3, 0xaa, 0xbb, 0xcc, 0x99];
    let mut r = Reader::new(bytes);
    assert!(matches!(parse_attribute(&mut r, &pool, 8), Ok(None)));
    assert_eq!(r.cursor, 6 + 3);
    let mut r = Reader::new(vec![0, 1, 0, 0, 0, 0]);
    assert!(matches!(parse_attribute(&mut r, &pool, 8), Ok(None)));
    assert_eq!(r.cursor, 6);
}

#[test]
fn known_attributes_decode() {
    let pool = pool_of(&["SourceFile", "Exceptions", "LineNumberTable"]);
    let mut bytes = vec![0, 3];
    bytes.extend_from_slice(&[0, 1, 0, 0, 0, 2, 0, 7]);
    bytes.extend_from_slice(&[0, 2, 0, 0, 0, 6, 0, 2, 0, 4, 0, 5]);
    bytes.extend_from_slice(&[0, 3, 0, 0, 0, 6, 0, 1, 0, 0, 0, 12]);
    let mut r = Reader::new(bytes);
    let attrs = parse_attributes(&mut r, &pool).unwrap();
    assert_eq!(r.cursor, r.content.len());
    assert_eq!(attrs.len(), 3);
    assert!(matches!(attrs[0], AttributeInfo::SourceFileAttribute { source_file: 7 }));
    match &attrs[1] {
        AttributeInfo::ExceptionsAttribute { index_table } => assert_eq!(index_table, &vec![4, 5]),
        _ => panic!("expected Exceptions"),
    }
    match &attrs[2] {
        AttributeInfo::LineNumberTableAttribute { line_number_table } => {
            assert_eq!(line_number_table.len(), 1);
            assert_eq!(line_number_table[0].line_number, 12);
        },
        _ => panic!("expected LineNumberTable"),
    }
}

#[test]
fn attribute_errors() {
    let pool = pool_of(&["Foo"]);
    let mut r = Reader::new(vec![0, 5, 0, 0, 0, 0]);
    assert!(matches!(parse_attribute(&mut r, &pool, 8), Err(DecodeError::UnresolvedPoolReference(5))));
    let mut r = Reader::new(vec![0, 1, 0, 0, 0, 9, 1]);
    assert!(matches!(parse_attribute(&mut r, &pool, 8), Err(DecodeError::TruncatedInput)));
    let mut r = Reader::new(vec![0, 1, 0]);
    assert!(matches!(parse_attribute(&mut r, &pool, 8), Err(DecodeError::TruncatedInput)));
    let pool = pool_of(&["SourceFile"]);
    let mut r = Reader::new(vec![0, 1, 0, 0, 0, 1, 0]);
    assert!(matches!(parse_attribute(&mut r, &pool, 8), Err(DecodeError::TruncatedInput)));
}

fn code_attr(inner: &[u8], nested: u16) -> Vec<u8> {
    // name #1 = "Code"
    let mut body = vec![0, 1, 0, 0];
    body.extend_from_slice(&(inner.len() as u32).to_be_bytes());
    body.extend_from_slice(inner);
    body.extend_from_slice(&[0, 0]);
    body.extend_from_slice(&nested.to_be_bytes());
    let mut v = vec![0, 1];
    v.extend_from_slice(&(body.len() as u32).to_be_bytes());
    v.extend(body);
    v
}

#[test]
fn code_nesting_is_bounded() {
    let pool = pool_of(&["Code"]);
    let mut a = code_attr(&[0xb1], 0);
    for _ in 0..3 {
        let mut wrapped = code_attr(&[0xb1], 1);
        wrapped.truncate(wrapped.len());
        let mut body_len = u32::from_be_bytes([wrapped[2], wrapped[3], wrapped[4], wrapped[5]]);
        body_len += a.len() as u32;
        wrapped[2..6].copy_from_slice(&body_len.to_be_bytes());
        wrapped.extend_from_slice(&a);
        a = wrapped;
    }
    let mut r = Reader::new(a.clone());
    assert!(matches!(parse_attribute(&mut r, &pool, 8), Ok(Some(AttributeInfo::CodeAttribute { .. }))));
    let mut r = Reader::new(a);
    assert!(matches!(parse_attribute(&mut r, &pool, 2), Err(DecodeError::NestingTooDeep)));
}

fn minimal_class() -> Vec<u8> {
    let mut b = vec![0xca, 0xfe, 0xba, 0xbe, 0, 0, 0, 52, 0, 5];
    b.extend(utf8("Hello"));
    b.extend_from_slice(&[7, 0, 1]);
    b.extend(utf8("Code"));
    b.extend(utf8("main"));
    b.extend_from_slice(&[0, 0x21, 0, 2, 0, 0, 0, 1, 0, 2]); // flags, this, super, 1 interface: #2
    b.extend_from_slice(&[0, 0]); // fields
    b.extend_from_slice(&[0, 1, 0, 9, 0, 4, 0, 1, 0, 1]); // one method "main" with one attribute
    let code = [0x10, 100, 0x10, 50, 0x60, 0x3b, 0xb1];
    let mut body = vec![0, 2, 0, 1];
    body.extend_from_slice(&(code.len() as u32).to_be_bytes());
    body.extend_from_slice(&code);
    body.extend_from_slice(&[0, 0, 0, 0]);
    b.extend_from_slice(&[0, 3]);
    b.extend_from_slice(&(body.len() as u32).to_be_bytes());
    b.extend(body);
    b.extend_from_slice(&[0, 0]); // class attributes
    b
}

#[test]
fn parse_and_run_a_class() {
    let cf = parse_class(minimal_class()).unwrap();
    assert_eq!(cf.magic, 0xcafebabe);
    assert_eq!(cf.major_version, 52);
    assert_eq!(cf.constant_pool.len(), 5);
    assert_eq!(get_class_name(&cf.constant_pool, cf.this_class), Some(b"Hello".to_vec()));
    assert_eq!(get_class_name(&cf.constant_pool, cf.super_class), None);
    assert_eq!(cf.interfaces, vec![b"Hello".to_vec()]);
    assert_eq!(cf.methods_info.len(), 1);
    assert_eq!(cf.methods_info[0].name, b"main".to_vec());
    assert_eq!(get_utf8(&cf.constant_pool, cf.methods_info[0].descriptor_index), Some(b"Hello".to_vec()));
    assert_eq!(cf.find_method(b"main", b"Hello"), Some(0));
    assert_eq!(cf.find_method(b"main", b"()V"), None);
    assert_eq!(cf.find_method(b"Hello", b"Hello"), None);
    assert_eq!(interpret(&cf.methods_info[0], 100), Ok(Stop::Returned(learn_jvm::semantics::ReturnValue::Void)));
}

#[test]
fn truncated_class_is_rejected() {
    let bytes = minimal_class();
    for cut in [0usize, 4, 9, 20, bytes.len() - 1] {
        assert!(matches!(parse_class(bytes[..cut].to_vec()), Err(DecodeError::TruncatedInput)));
    }
}

#[test]
fn reader_reads_big_endian() {
    let mut r = Reader::new(vec![0x12, 0x34, 0x56, 0x78, 0x9a, 0xbc, 0xde, 0xf0, 0x01, 0x00, 0x02, 0x00, 0x07, 0x00, 0x08]);
    assert_eq!(r.read_u16(), Ok(0x1234));
    r.cursor = 0;
    assert_eq!(r.read_u32(), Ok(0x12345678));
    r.cursor = 0;
    assert_eq!(r.read_u64(), Ok(0x123456789abcdef0));
    assert_eq!(r.read_u8(), Ok(1));
    assert_eq!(r.read_u16s(), Ok(vec![7, 8]));
    assert_eq!(r.read_bytes(0), Ok(Vec::new()));
    assert_eq!(r.read_bytes(1), Err(DecodeError::TruncatedInput));
    assert_eq!(r.read_u8(), Err(DecodeError::TruncatedInput));
}

#[test]
fn unknown_attribute_body_is_never_read() {
    let pool = pool_of(&["Foo"]);
    let a = vec![0, 1, 0, 1, 0, 0, 0, 3, 1, 2, 3];
    let b = vec![0, 1, 0, 1, 0, 0, 0, 3, 0xff, 0xee, 0xdd];
    let mut ra = Reader::new(a);
    let mut rb = Reader::new(b);
    assert_eq!(parse_attributes(&mut ra, &pool).map(|v| v.len()), Ok(0));
    assert_eq!(parse_attributes(&mut rb, &pool).map(|v| v.len()), Ok(0));
    assert_eq!(ra.cursor, 2 + 6 + 3);
    assert_eq!(rb.cursor, ra.cursor);
}

#[test]
fn well_formed_code_record_decodes() {
    let pool = pool_of(&["Code"]);
    let mut bytes = vec![0, 1];
    bytes.extend(code_attr(&[0x04, 0xac], 0));
    let len = bytes.len();
    let mut r = Reader::new(bytes);
    let attrs = parse_attributes(&mut r, &pool).unwrap();
    assert_eq!(r.cursor, len);
    match &attrs[0] {
        AttributeInfo::CodeAttribute { max_stacks, max_locals, code_length, code, exception_table, attributes } => {
            assert_eq!((*max_stacks, *max_locals, *code_length), (1, 0, 2));
            assert_eq!(code, &vec![0x04, 0xac]);
            assert!(exception_table.is_empty() && attributes.is_empty());
        },
        _ => panic!("expected Code"),
    }
}

#[test]
fn unresolved_attribute_name_fails_the_list() {
    let pool = pool_of(&["Foo"]);
    let mut r = Reader::new(vec![0, 1, 0, 7, 0, 0, 0, 0]);
    assert!(matches!(parse_attributes(&mut r, &pool), Err(DecodeError::UnresolvedPoolReference(7))));
}

#[test]
fn class_errors_name_the_fault() {
    let mut bad_tag = vec![0xca, 0xfe, 0xba, 0xbe, 0, 0, 0, 52, 0, 2, 2];
    bad_tag.extend_from_slice(&[0; 16]);
    assert!(matches!(parse_class(bad_tag), Err(DecodeError::UnknownConstantTag(2))));
    let mut bytes = minimal_class();
    // this interface index (#2, a Class entry) becomes #1, a UTF-8 entry
    let at = 10 + 8 + 3 + 7 + 7 + 6 + 2 + 1;
    assert_eq!(bytes[at], 2);
    bytes[at] = 1;
    assert!(matches!(parse_class(bytes), Err(DecodeError::UnresolvedPoolReference(1))));
}

#[test]
fn failed_reads_keep_the_cursor() {
    let mut r = Reader::new(vec![0, 5, 1, 2]);
    assert_eq!(r.read_bytes(9), Err(DecodeError::TruncatedInput));
    assert_eq!(r.cursor, 0);
    assert_eq!(r.read_u16s(), Err(DecodeError::TruncatedInput));
    assert_eq!(r.cursor, 0);
    assert_eq!(r.read_u64(), Err(DecodeError::TruncatedInput));
    assert_eq!(r.cursor, 0);
}
