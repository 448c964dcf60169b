use learn_jvm::bytecode_reader::BytecodeReader;
use learn_jvm::error::ExecError;

#[test]
fn bytecode_reader_reads_and_pads() {
    let mut r = BytecodeReader::new(vec![0xff, 0x80, 0x00, 0x00, 0x00, 0x00, 0x00, 0x05, 0xff, 0xff, 0xff, 0xfe]);
    assert_eq!(r.read_i8(), Ok(-1));
    assert_eq!(r.read_i16(), Ok(-32768));
    r.skip_padding().unwrap();
    assert_eq!(r.cursor, 4);
    assert_eq!(r.read_i32s(2), Ok(vec![5, -2]));
    assert_eq!(r.read_u8(), Err(ExecError::TruncatedCode));
    r.reset(1);
    assert_eq!(r.read_u16(), Ok(0x8000));
    assert_eq!(r.read_u32(), Ok(0x0000_0000));
    r.reset(5);
    assert_eq!(r.skip_padding(), Ok(()));
    assert_eq!(r.cursor, 8);
    assert_eq!(r.read_i32(), Ok(-2));
    assert_eq!(r.read_i32s(0), Ok(Vec::new()));
    assert_eq!(r.read_i32s(-3), Ok(Vec::new()));
    r.reset(10);
    assert_eq!(r.read_i32s(1), Err(ExecError::TruncatedCode));
}

#[test]
fn failed_code_reads_keep_the_cursor() {
    let mut r = BytecodeReader::new(vec![0, 0, 0, 0, 0, 0, 0, 1, 2]);
    r.reset(1);
    assert_eq!(r.skip_padding(), Ok(()));
    r.reset(5);
    assert_eq!(r.read_i32s(2), Err(ExecError::TruncatedCode));
    assert_eq!(r.cursor, 5);
    r.reset(4);
    assert_eq!(r.read_u32(), Ok(1));
    r.reset(8);
    assert_eq!(r.read_i16(), Err(ExecError::TruncatedCode));
    assert_eq!(r.cursor, 8);
}
