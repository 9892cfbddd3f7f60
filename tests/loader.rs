use hkscdis::byte_order::{BigOrder, LittleOrder};
use hkscdis::constant::{HSConstant, HSNumber, HSValue};
use hkscdis::errors::HkscError;
use hkscdis::file::{HavokScriptFile, StructureShape};
use hkscdis::function::{align, HSFunction};
use hkscdis::header::{HSHeader, FEATURE_STRUCTURES};
use hkscdis::instruction::HSInstruction;
use hkscdis::opcodes::{HSOpArgMode, HSOpCode, HSType};
use hkscdis::reader::{read_fixed_string, read_string, read_u32, read_u64};

/// Writes fields in one byte order.
struct Enc {
    little: bool,
    bytes: Vec<u8>,
}

impl Enc {
    fn new(little: bool) -> Enc {
        Enc { little, bytes: Vec::new() }
    }

    fn u8(&mut self, v: u8) -> &mut Enc {
        self.bytes.push(v);
        self
    }

    fn u32(&mut self, v: u32) -> &mut Enc {
        if self.little {
            self.bytes.extend_from_slice(&v.to_le_bytes());
        } else {
            self.bytes.extend_from_slice(&v.to_be_bytes());
        }
        self
    }

    fn u64(&mut self, v: u64) -> &mut Enc {
        if self.little {
            self.bytes.extend_from_slice(&v.to_le_bytes());
        } else {
            self.bytes.extend_from_slice(&v.to_be_bytes());
        }
        self
    }

    fn str4(&mut self, s: &str) -> &mut Enc {
        self.u32(s.len() as u32);
        self.bytes.extend_from_slice(s.as_bytes());
        self
    }

    fn pad_to(&mut self, n: usize) -> &mut Enc {
        while self.bytes.len() % n != 0 {
            self.bytes.push(0xAA);
        }
        self
    }

    /// A header with all widths 4.
    fn header(&mut self, features: u8, enum_count: u32) -> &mut Enc {
        self.bytes.extend_from_slice(&1635077147u32.to_le_bytes());
        let endian = if self.little { 1 } else { 0 };
        self.bytes.extend_from_slice(&[0x51, 14, endian, 4, 4, 4, 4, 0, features, 0]);
        self.u32(enum_count)
    }

    /// A function with no instructions, constants, debug info or children.
    fn empty_function(&mut self) -> &mut Enc {
        self.u32(0).u32(0).u8(0).u32(0).u64(0).pad_to(4);
        self.u32(0).u32(0).u32(0)
    }
}

fn word(op: u32, a: u32, b: u32, c: u32) -> u32 {
    (op << 25) | (b << 17) | (c << 8) | a
}

#[test]
fn end_to_end_minimal_file() {
    let mut e = Enc::new(false);
    e.header(0, 0).empty_function();
    let file = HavokScriptFile::read(&e.bytes, false).unwrap();
    assert_eq!(file.enums.len(), 0);
    assert_eq!(file.main_function.instructions.len(), 0);
    assert_eq!(file.main_function.child_functions.len(), 0);
    assert_eq!(file.structs.len(), 0);
    assert!(!file.header.is_little_endian);
    assert_eq!(file.header.instruction_size, 4);
    // 18 header bytes, 21 bytes of counts, one padding byte, then three words.
    assert_eq!(file.main_function.function_offset, 52);
}

#[test]
fn nested_functions_record_their_end_offsets() {
    let mut e = Enc::new(false);
    e.header(0, 0);
    e.u32(0).u32(0).u8(0).u32(0).u64(0).pad_to(4);
    e.u32(0).u32(0).u32(2);
    let mut ends = Vec::new();
    e.empty_function();
    ends.push(e.bytes.len() as u64);
    e.empty_function();
    ends.push(e.bytes.len() as u64);
    let file = HavokScriptFile::read(&e.bytes, false).unwrap();
    let main = &file.main_function;
    assert_eq!(main.function_count, 2);
    assert_eq!(main.child_functions.len(), 2);
    assert_eq!(main.child_functions[0].function_offset, ends[0]);
    assert_eq!(main.child_functions[1].function_offset, ends[1]);
    assert!(ends[0] < ends[1]);
    assert_eq!(main.function_offset, ends[1]);
}

#[test]
fn little_endian_file_with_enums_and_code() {
    let mut e = Enc::new(true);
    e.header(0, 2);
    e.u32(7).str4("Seven");
    e.u32(9).str4("Nine");
    e.u32(1).u32(2).u8(0xFF).u32(5).u64(2).pad_to(4);
    // LoadK A=1 Bx=3, then Return A=0 B=1.
    e.u32((25 << 25) | (3 << 8) | 1).u32(word(9, 0, 1, 0));
    e.u32(2);
    e.u8(4).str4("hello");
    e.u8(3).u32(0x3F80_0000);
    e.u32(0).u32(0);
    let file = HavokScriptFile::read(&e.bytes, false).unwrap();
    assert!(file.header.is_little_endian);
    assert_eq!(file.enums.len(), 2);
    assert_eq!(file.enums[0].value, 7);
    assert_eq!(file.enums[0].name, "Seven");
    assert_eq!(file.enums[1].name, "Nine");
    let f = &file.main_function;
    assert_eq!(f.up_value_count, 1);
    assert_eq!(f.param_count, 2);
    assert_eq!(f.var_arg.bits, 7);
    assert_eq!(f.slot_count, 5);
    assert_eq!(f.instructions.len(), 2);
    assert_eq!(f.instructions[0].mode, HSOpCode::LoadK);
    assert_eq!(f.instructions[0].args[1].mode, HSOpArgMode::CONST);
    // LoadK's opcode is odd, and its low bit is the top bit of the eighteen-bit field.
    assert_eq!(f.instructions[0].args[1].value, 0x20003);
    assert_eq!(f.instructions[1].mode, HSOpCode::Return);
    assert_eq!(f.constants.len(), 2);
    assert!(matches!(&f.constants[0].value, Some(HSValue::String(s)) if s == "hello"));
    assert!(matches!(f.constants[1].value, Some(HSValue::Number(HSNumber::Single(0x3F80_0000)))));
}

#[test]
fn instructions_start_aligned_to_eight() {
    let mut e = Enc::new(false);
    let mut header = Vec::new();
    header.extend_from_slice(&1635077147u32.to_le_bytes());
    header.extend_from_slice(&[0x51, 14, 0, 4, 4, 8, 4, 0, 0, 0, 0, 0, 0, 0]);
    e.bytes = header;
    e.u32(0).u32(0).u8(0).u32(0).u64(1);
    assert_eq!(e.bytes.len(), 39);
    e.pad_to(8);
    assert_eq!(e.bytes.len(), 40);
    e.u32(word(28, 0, 0, 0));
    e.u32(0).u32(0).u32(0);
    let file = HavokScriptFile::read(&e.bytes, false).unwrap();
    assert_eq!(file.main_function.instructions.len(), 1);
    assert_eq!(file.main_function.instructions[0].mode, HSOpCode::Jmp);
}

#[test]
fn align_moves_to_the_next_multiple() {
    let data = [0u8; 32];
    for size in [4u8, 8] {
        for start in 0..24usize {
            let mut pos = start;
            align(&data, &mut pos, size).unwrap();
            assert_eq!(pos % size as usize, 0);
            assert!(pos >= start && pos < start + size as usize);
        }
    }
    let mut pos = 30;
    assert_eq!(align(&data, &mut pos, 8), Ok(()));
    assert_eq!(pos, 32);
    let mut pos = 30;
    assert_eq!(align(&data[..31], &mut pos, 8), Err(HkscError::ReadError));
}

#[test]
fn header_rejects_magic_version_and_format() {
    let mut good = Vec::new();
    good.extend_from_slice(&1635077147u32.to_le_bytes());
    good.extend_from_slice(&[0x51, 14, 0, 4, 4, 4, 4, 0, 0, 0, 0, 0, 0, 0]);
    let mut pos = 0;
    assert!(HSHeader::read(&good, &mut pos).is_ok());
    assert_eq!(pos, 18);

    let mut bad = good.clone();
    bad[0] = 0;
    let mut pos = 0;
    assert_eq!(
        HSHeader::read(&bad, &mut pos),
        Err(HkscError::IncorrectMagicNumber(1635077147 & !0xFF))
    );
    assert_eq!(pos, 4);

    let mut bad = good.clone();
    bad[4] = 0x52;
    let mut pos = 0;
    assert_eq!(HSHeader::read(&bad, &mut pos), Err(HkscError::IncorrectVersionNumber(0x52)));
    assert_eq!(pos, 5);

    let mut bad = good.clone();
    bad[5] = 13;
    let mut pos = 0;
    assert_eq!(HSHeader::read(&bad, &mut pos), Err(HkscError::IncorrectFormatNumber(13)));
    assert_eq!(pos, 6);

    assert!(matches!(
        HavokScriptFile::read(&bad, false),
        Err(HkscError::IncorrectFormatNumber(13))
    ));
}

#[test]
fn header_fields_and_feature_truncation() {
    let mut h = Vec::new();
    h.extend_from_slice(&1635077147u32.to_le_bytes());
    h.extend_from_slice(&[0x51, 14, 1, 8, 8, 4, 8, 1, 0xFF, 3, 5, 0, 0, 0]);
    let mut pos = 0;
    let header = HSHeader::read(&h, &mut pos).unwrap();
    assert!(header.is_little_endian);
    assert_eq!(header.int_size, 8);
    assert_eq!(header.t_size, 8);
    assert_eq!(header.instruction_size, 4);
    assert_eq!(header.number_size, 8);
    assert!(header.is_integer);
    assert_eq!(header.features.bits, 0x1F);
    assert!(header.features.contains(FEATURE_STRUCTURES));
    assert_eq!(header.shared, 3);
    assert_eq!(header.enum_count, 5);
}

#[test]
fn unset_name_decodes_to_empty_string() {
    let data = [0xFF, 0xFF, 0xFF, 0xFF];
    let mut pos = 0;
    assert_eq!(read_fixed_string(&data, &mut pos, 4).unwrap(), "");
    assert_eq!(pos, 4);
    let data = [0, 0, 0, 4, 0xFF, 0xFF, 0xFF, 0xFF];
    let mut pos = 0;
    let header = sized_header(4, 4);
    assert_eq!(read_string::<BigOrder>(&data, &mut pos, &header).unwrap(), "");
    for n in [0usize, 1, 3, 7] {
        let data = vec![0xFF; n];
        let mut pos = 0;
        assert_eq!(read_fixed_string(&data, &mut pos, n as u64).unwrap(), "");
        assert_eq!(pos, n);
    }
}

#[test]
fn invalid_utf8_is_an_error() {
    let data = [0xC3, 0x28, 0x41];
    let mut pos = 0;
    assert_eq!(read_fixed_string(&data, &mut pos, 3), Err(HkscError::InvalidUTF8));
    let data = [0xFF, 0xFF, 0x41];
    let mut pos = 0;
    assert_eq!(read_fixed_string(&data, &mut pos, 3), Err(HkscError::InvalidUTF8));
    let data = [b'a', b'b', b'c'];
    let mut pos = 0;
    assert_eq!(read_fixed_string(&data, &mut pos, 3).unwrap(), "abc");
    let mut pos = 0;
    assert_eq!(read_fixed_string(&data, &mut pos, 4), Err(HkscError::ReadError));
}

#[test]
fn integers_follow_the_byte_order() {
    let data = [1, 2, 3, 4, 5, 6, 7, 8];
    let mut pos = 0;
    assert_eq!(read_u32::<BigOrder>(&data, &mut pos), Ok(0x0102_0304));
    assert_eq!(pos, 4);
    let mut pos = 0;
    assert_eq!(read_u32::<LittleOrder>(&data, &mut pos), Ok(0x0403_0201));
    let mut pos = 0;
    assert_eq!(read_u64::<BigOrder>(&data, &mut pos), Ok(0x0102_0304_0506_0708));
    let mut pos = 0;
    assert_eq!(read_u64::<LittleOrder>(&data, &mut pos), Ok(0x0807_0605_0403_0201));
    let mut pos = 5;
    assert_eq!(read_u32::<BigOrder>(&data, &mut pos), Err(HkscError::ReadError));
}

#[test]
fn reg_const_threshold() {
    // Add: A register, B and C register-or-constant.
    for raw in [0u32, 1, 200, 255] {
        let i = HSInstruction::decode(word(40, 3, raw, raw)).unwrap();
        assert_eq!(i.mode, HSOpCode::Add);
        assert_eq!(i.args.len(), 3);
        assert_eq!(i.args[1].mode, HSOpArgMode::REG);
        assert_eq!(i.args[1].value, raw as i32);
        assert_eq!(i.args[2].mode, HSOpArgMode::REG);
        assert_eq!(i.args[2].value, raw as i32);
    }
    for raw in [256u32, 257, 300, 511] {
        let i = HSInstruction::decode(word(40, 3, raw, raw)).unwrap();
        assert_eq!(i.args[1].mode, HSOpArgMode::CONST);
        assert_eq!(i.args[1].value, (raw & 0xFF) as i32);
        assert_eq!(i.args[2].mode, HSOpArgMode::CONST);
        assert_eq!(i.args[2].value, (raw & 0xFF) as i32);
    }
}

#[test]
fn asbx_bias() {
    for (v, expected) in [(0u32, -0xFFFF), (0xFFFF, 0), (0x1FFFF, 0x10000)] {
        let i = HSInstruction::decode((28 << 25) | (v << 8)).unwrap();
        assert_eq!(i.mode, HSOpCode::Jmp);
        assert_eq!(i.args.len(), 2);
        assert_eq!(i.args[0].mode, HSOpArgMode::NUMBER);
        assert_eq!(i.args[1].mode, HSOpArgMode::NUMBER);
        assert_eq!(i.args[1].value, expected);
    }
    // ForLoop has an odd opcode, whose low bit is the top bit of the eighteen-bit field.
    let i = HSInstruction::decode((63 << 25) | (5 << 8) | 2).unwrap();
    assert_eq!(i.mode, HSOpCode::ForLoop);
    assert_eq!((i.args[0].mode, i.args[0].value), (HSOpArgMode::REG, 2));
    assert_eq!(i.args[1].value, 0x20005 - 0xFFFF);
}

#[test]
fn operand_layouts() {
    // Move: A and B registers, C unused.
    let i = HSInstruction::decode(word(7, 5, 6, 0)).unwrap();
    assert_eq!(i.args.len(), 2);
    assert_eq!((i.args[0].mode, i.args[0].value), (HSOpArgMode::REG, 5));
    assert_eq!((i.args[1].mode, i.args[1].value), (HSOpArgMode::REG, 6));
    // Close: only A.
    let i = HSInstruction::decode(word(65, 9, 0, 0)).unwrap();
    assert_eq!(i.args.len(), 1);
    // Test: B unused, C a number.
    let i = HSInstruction::decode(word(1, 2, 0, 77)).unwrap();
    assert_eq!(i.args.len(), 2);
    assert_eq!((i.args[1].mode, i.args[1].value), (HSOpArgMode::NUMBER, 77));
    // GetField: C a constant index from eight bits.
    let i = HSInstruction::decode(word(0, 1, 2, 0x1AB)).unwrap();
    assert_eq!((i.args[2].mode, i.args[2].value), (HSOpArgMode::CONST, 0xAB));
    // Eq: A unused reads as a number.
    let i = HSInstruction::decode(word(4, 1, 2, 3)).unwrap();
    assert_eq!(i.args[0].mode, HSOpArgMode::NUMBER);
    // SetGlobal: an odd opcode, whose low bit is the top bit of the wide field.
    let i = HSInstruction::decode((27 << 25) | (0x1FFFF << 8)).unwrap();
    assert_eq!((i.args[1].mode, i.args[1].value), (HSOpArgMode::CONST, 0x3FFFF));
    // GetGlobal: ABX with a constant.
    let i = HSInstruction::decode((6 << 25) | (1234 << 8) | 4).unwrap();
    assert_eq!(i.args.len(), 2);
    assert_eq!((i.args[1].mode, i.args[1].value), (HSOpArgMode::CONST, 1234));
    // SetList: C as a nine-bit offset.
    let i = HSInstruction::decode(word(64, 1, 2, 0x1FF)).unwrap();
    assert_eq!((i.args[2].mode, i.args[2].value), (HSOpArgMode::NUMBER, 0x1FF));
}

#[test]
fn unknown_opcode_is_an_error() {
    assert!(HSInstruction::decode(91 << 25).is_ok());
    assert_eq!(HSInstruction::decode(92 << 25).err(), Some(HkscError::UnknownOpCode(92)));
    assert_eq!(HSInstruction::decode(127 << 25).err(), Some(HkscError::UnknownOpCode(127)));
}

fn sized_header(t_size: u8, number_size: u8) -> HSHeader {
    let mut h = Vec::new();
    h.extend_from_slice(&1635077147u32.to_le_bytes());
    h.extend_from_slice(&[0x51, 14, 0, 4, t_size, 4, number_size, 0, 0, 0, 0, 0, 0, 0]);
    let mut pos = 0;
    HSHeader::read(&h, &mut pos).unwrap()
}

fn constant(data: &[u8], t_size: u8, number_size: u8) -> Result<HSConstant, HkscError> {
    let mut pos = 0;
    HSConstant::read::<BigOrder>(data, &mut pos, &sized_header(t_size, number_size))
}

#[test]
fn constants_of_every_kind() {
    let c = constant(&[0], 4, 4).unwrap();
    assert_eq!(c.type_, HSType::TNIL);
    assert!(matches!(c.value, Some(HSValue::Nil)));
    let c = constant(&[1, 2], 4, 4).unwrap();
    assert!(matches!(c.value, Some(HSValue::Boolean(true))));
    let c = constant(&[1, 0], 4, 4).unwrap();
    assert!(matches!(c.value, Some(HSValue::Boolean(false))));
    let c = constant(&[2, 0, 0, 1, 0], 4, 4).unwrap();
    assert!(matches!(c.value, Some(HSValue::LightUserData(256))));
    let c = constant(&[2, 0, 0, 0, 0, 0, 0, 1, 0], 8, 4).unwrap();
    assert!(matches!(c.value, Some(HSValue::LightUserData(256))));
    let c = constant(&[3, 0x40, 0, 0, 0, 0, 0, 0, 0], 4, 8).unwrap();
    assert!(matches!(c.value, Some(HSValue::Number(HSNumber::Double(0x4000_0000_0000_0000)))));
    let c = constant(&[4, 0, 0, 0, 0, 0, 0, 0, 2, b'h', b'i'], 8, 4).unwrap();
    assert!(matches!(&c.value, Some(HSValue::String(s)) if s == "hi"));
    let c = constant(&[11, 0, 0, 0, 0, 0, 0, 0, 9], 4, 4).unwrap();
    assert_eq!(c.type_, HSType::TUI64);
    assert!(matches!(c.value, Some(HSValue::Ui64(9))));
}

#[test]
fn constant_errors() {
    assert_eq!(constant(&[13], 4, 4).err(), Some(HkscError::UnknownType(13)));
    assert_eq!(constant(&[5], 4, 4).err(), Some(HkscError::UnsupportedConstantType(5)));
    assert_eq!(constant(&[12], 4, 4).err(), Some(HkscError::UnsupportedConstantType(12)));
    assert_eq!(constant(&[2, 0, 0, 0, 0], 6, 4).err(), Some(HkscError::InvalidLightUserDataSize(6)));
    assert_eq!(constant(&[3, 0, 0, 0, 0], 4, 2).err(), Some(HkscError::InvalidNumberSize(2)));
    assert_eq!(constant(&[4, 0, 0, 0, 0], 5, 4).err(), Some(HkscError::InvalidStringSize(5)));
    assert_eq!(constant(&[4, 0, 0, 0, 2, 0xC3], 4, 4).err(), Some(HkscError::ReadError));
    assert_eq!(constant(&[4, 0, 0, 0, 2, 0xC3, 0x28], 4, 4).err(), Some(HkscError::InvalidUTF8));
    assert_eq!(constant(&[], 4, 4).err(), Some(HkscError::ReadError));
}

#[test]
fn debug_info_is_read_when_flagged() {
    let mut e = Enc::new(false);
    e.header(0, 0);
    e.u32(0).u32(0).u8(0).u32(0).u64(1).pad_to(4);
    e.u32(word(65, 0, 0, 0));
    e.u32(0);
    e.u32(1);
    e.u32(1).u32(1).u32(1).u32(10).u32(20);
    e.str4("main.lua").u32(4).u32(0xFFFF_FFFF);
    e.u32(12);
    e.str4("x").u32(0).u32(1);
    e.str4("up");
    e.u32(0);
    let file = HavokScriptFile::read(&e.bytes, false).unwrap();
    let f = &file.main_function;
    assert!(f.has_debug_info);
    let d = &f.debug_info;
    assert_eq!((d.line_count, d.locals_count, d.up_value_count), (1, 1, 1));
    assert_eq!((d.line_begin, d.line_end), (10, 20));
    assert_eq!(d.path, "main.lua");
    assert_eq!(d.function_name, "");
    assert_eq!(d.lines, vec![12]);
    assert_eq!(d.locals[0].local_name, "x");
    assert_eq!((d.locals[0].start, d.locals[0].end), (0, 1));
    assert_eq!(d.up_values, vec!["up".to_string()]);
}

#[test]
fn invalid_instruction_size_is_an_error() {
    let mut e = Enc::new(false);
    e.bytes.extend_from_slice(&1635077147u32.to_le_bytes());
    e.bytes.extend_from_slice(&[0x51, 14, 0, 4, 4, 3, 4, 0, 0, 0, 0, 0, 0, 0]);
    e.u32(0).u32(0).u8(0).u32(0).u64(0).u32(0).u32(0).u32(0);
    assert_eq!(HavokScriptFile::read(&e.bytes, false).err(), Some(HkscError::InvalidInstructionSize(3)));
}

#[test]
fn truncated_function_is_a_read_error() {
    let mut e = Enc::new(false);
    e.header(0, 0).empty_function();
    e.bytes.pop();
    assert_eq!(HavokScriptFile::read(&e.bytes, false).err(), Some(HkscError::ReadError));
    let mut pos = 18;
    assert!(HSFunction::read::<BigOrder>(&e.bytes, &mut pos, &sized_header(4, 4)).is_err());
}

fn prototype_file(inheritance: bool, slot_type: u32) -> Vec<u8> {
    let mut e = Enc::new(false);
    e.header(FEATURE_STRUCTURES, 0).empty_function();
    e.u32(1);
    e.str4("Point");
    e.u64(77).u32(1).u32(0).u64(2);
    if inheritance {
        e.u32(1).str4("Base");
    }
    e.str4("x").u64(0).u32(3).u32(0).u64(0);
    e.str4("y").u64(0).u32(slot_type).u32(9).u64(8);
    e.u32(0);
    e.bytes
}

#[test]
fn prototypes_with_and_without_inheritance() {
    let file = HavokScriptFile::read(&prototype_file(false, 3), false).unwrap();
    assert_eq!(file.structs.len(), 1);
    let s = &file.structs[0];
    assert_eq!(s.name, "Point");
    assert_eq!(s.id, 77);
    assert!(s.has_meta && !s.has_proxy);
    assert_eq!(s.slot_count, 2);
    assert_eq!(s.inherited_count, 0);
    assert!(s.inherited_structs.is_empty());
    assert_eq!(s.slots[1].name, "y");
    assert_eq!(s.slots[1].type_, HSType::TNUMBER);
    assert_eq!((s.slots[1].reserved, s.slots[1].position), (9, 8));

    let file = HavokScriptFile::read(&prototype_file(true, 3), true).unwrap();
    assert_eq!(file.structs[0].inherited_count, 1);
    assert_eq!(file.structs[0].inherited_structs, vec!["Base".to_string()]);
}

#[test]
fn prototype_slot_type_errors() {
    assert_eq!(
        HavokScriptFile::read(&prototype_file(false, 300), false).err(),
        Some(HkscError::TryFromInt)
    );
    assert_eq!(
        HavokScriptFile::read(&prototype_file(false, 40), false).err(),
        Some(HkscError::UnknownType(40))
    );
}

#[test]
fn prototype_section_needs_its_check_word() {
    let mut e = Enc::new(false);
    e.header(FEATURE_STRUCTURES, 0).empty_function();
    assert_eq!(HavokScriptFile::read(&e.bytes, false).unwrap().structs.len(), 0);
    e.u32(2).str4("Ignored");
    assert_eq!(HavokScriptFile::read(&e.bytes, false).unwrap().structs.len(), 0);
    let mut e = Enc::new(false);
    e.header(0, 0).empty_function();
    e.u32(1).str4("Ignored");
    assert_eq!(HavokScriptFile::read(&e.bytes, false).unwrap().structs.len(), 0);
}

fn struct_header(e: &mut Enc, name: &str, type_: u32) {
    e.str4(name).u32(5).u32(6).u32(type_).u32(7).u32(8);
}

fn block_file(features: u8, member_type: u32) -> Vec<u8> {
    let mut e = Enc::new(false);
    e.header(features, 0).empty_function();
    struct_header(&mut e, "Vec", 12);
    e.u32(1);
    if features & FEATURE_STRUCTURES != 0 {
        e.u32(1).str4("Base");
    }
    struct_header(&mut e, "x", member_type);
    e.u32(3);
    e.u64(0);
    e.bytes
}

#[test]
fn structure_blocks_until_zero_sentinel() {
    let file = HavokScriptFile::read_with(&block_file(0, 3), StructureShape::Blocks, false).unwrap();
    assert!(file.structs.is_empty());
    assert_eq!(file.struct_blocks.len(), 1);
    let b = &file.struct_blocks[0];
    assert_eq!(b.header.name, "Vec");
    assert_eq!(b.header.type_, HSType::TSTRUCT);
    assert_eq!((b.header.struct_id, b.header.reserved, b.header.reserved_2, b.header.reserved_3), (5, 6, 7, 8));
    assert_eq!(b.member_count, 1);
    assert_eq!(b.extended_count, 0);
    assert_eq!(b.members[0].header.name, "x");
    assert_eq!(b.members[0].header.type_, HSType::TNUMBER);
    assert_eq!(b.members[0].index, 3);

    let file =
        HavokScriptFile::read_with(&block_file(FEATURE_STRUCTURES, 3), StructureShape::Blocks, false).unwrap();
    assert_eq!(file.struct_blocks[0].extended_structs, vec!["Base".to_string()]);

    let mut e = Enc::new(false);
    e.header(0, 0).empty_function();
    let file = HavokScriptFile::read_with(&e.bytes, StructureShape::Blocks, false).unwrap();
    assert!(file.struct_blocks.is_empty());

    assert_eq!(
        HavokScriptFile::read_with(&block_file(0, 99), StructureShape::Blocks, false).err(),
        Some(HkscError::UnknownType(99))
    );
}

/// Writes a function with two instructions, three constants and `kids` empty children.
fn write_function(e: &mut Enc, kids: u32) {
    e.u32(3).u32(1).u8(2).u32(9).u64(2).pad_to(4);
    e.u32(word(7, 1, 2, 0)).u32((28 << 25) | (0x10005 << 8));
    e.u32(3);
    e.u8(1).u8(1);
    e.u8(11).u64(0xDEAD_BEEF_0000_0001);
    e.u8(2).u32(0x1234);
    e.u32(0).u32(kids);
    for _ in 0..kids {
        e.empty_function();
    }
}

#[test]
fn written_function_tree_reads_back_in_both_orders() {
    for little in [false, true] {
        let mut e = Enc::new(little);
        e.header(0, 0);
        write_function(&mut e, 2);
        let end = e.bytes.len() as u64;
        let order_header = sized_header(4, 4);
        let mut pos = 18;
        let f = if little {
            let mut h = order_header;
            h.is_little_endian = true;
            HSFunction::read::<LittleOrder>(&e.bytes, &mut pos, &h).unwrap()
        } else {
            HSFunction::read::<BigOrder>(&e.bytes, &mut pos, &order_header).unwrap()
        };
        assert_eq!((f.up_value_count, f.param_count, f.var_arg.bits, f.slot_count), (3, 1, 2, 9));
        assert_eq!(f.instruction_count, 2);
        assert_eq!(f.instructions.len(), 2);
        assert_eq!(f.instructions[0].mode, HSOpCode::Move);
        assert_eq!(f.instructions[1].args[1].value, 6);
        assert_eq!(f.constant_count, 3);
        assert!(matches!(f.constants[0].value, Some(HSValue::Boolean(true))));
        assert!(matches!(f.constants[1].value, Some(HSValue::Ui64(0xDEAD_BEEF_0000_0001))));
        assert!(matches!(f.constants[2].value, Some(HSValue::LightUserData(0x1234))));
        assert!(!f.has_debug_info);
        assert_eq!(f.function_count, 2);
        assert_eq!(f.child_functions.len(), 2);
        assert_eq!(f.function_offset, end);
        assert_eq!(pos as u64, end);
    }
}

#[test]
fn huge_counts_fail_without_reading_past_the_end() {
    let mut e = Enc::new(false);
    e.header(0, 0);
    e.u32(0).u32(0).u8(0).u32(0).u64(u64::MAX).pad_to(4);
    e.u32(word(65, 0, 0, 0));
    assert_eq!(HavokScriptFile::read(&e.bytes, false).err(), Some(HkscError::ReadError));
    let mut e = Enc::new(false);
    e.header(0, u32::MAX);
    assert_eq!(HavokScriptFile::read(&e.bytes, false).err(), Some(HkscError::ReadError));
}

#[test]
fn failed_constants_consume_only_the_tag() {
    for (data, t_size, number_size) in [
        (vec![13u8, 0, 0, 0, 0], 4u8, 4u8),
        (vec![5u8, 0, 0, 0, 0], 4, 4),
        (vec![2u8, 0, 0, 0, 0], 6, 4),
        (vec![3u8, 0, 0, 0, 0], 4, 2),
        (vec![4u8, 0, 0, 0, 0], 5, 4),
    ] {
        let mut pos = 0;
        let header = sized_header(t_size, number_size);
        assert!(HSConstant::read::<BigOrder>(&data, &mut pos, &header).is_err());
        assert_eq!(pos, 1);
    }
    let data = [0u8; 8];
    let mut pos = 2;
    assert_eq!(
        read_string::<BigOrder>(&data, &mut pos, &sized_header(3, 4)),
        Err(HkscError::InvalidStringSize(3))
    );
    assert_eq!(pos, 2);
    let mut pos = 2;
    assert_eq!(
        hkscdis::reader::read_number::<BigOrder>(&data, &mut pos, &sized_header(4, 0)).err(),
        Some(HkscError::InvalidNumberSize(0))
    );
    assert_eq!(pos, 2);
}

#[test]
fn padding_bytes_are_never_read() {
    let build = |pad: u8| {
        let mut e = Enc::new(false);
        e.header(0, 0);
        e.u32(0).u32(0).u8(0).u32(0).u64(1);
        while e.bytes.len() % 4 != 0 {
            e.bytes.push(pad);
        }
        e.u32(word(65, 0, 0, 0)).u32(0).u32(0).u32(0);
        e.bytes
    };
    let a = HavokScriptFile::read(&build(0x00), false).unwrap();
    let b = HavokScriptFile::read(&build(0xFF), false).unwrap();
    assert_eq!(a.main_function.instructions.len(), 1);
    assert_eq!(b.main_function.instructions[0].mode, a.main_function.instructions[0].mode);
    assert_eq!(a.main_function.function_offset, b.main_function.function_offset);
}
