use rvsim::instruction_parser::{
    parse_immediate, parse_line, parse_register, AsmOpcode, AssemblerError, Immediate, Register,
};

#[test]
fn test_parse_line() {
    let result = parse_line("   li t0, -1");
    assert!(result.is_ok());
}

#[test]
fn test_parse_empty_line() {
    let result = parse_line("   ");
    assert!(matches!(result, Err(AssemblerError::EmptyLine)));
}

#[test]
fn test_parse_unknown_opcode() {
    let result = parse_line("foo t0, -1");
    assert!(matches!(result, Err(AssemblerError::UnknownOpcode(_))));
}

#[test]
fn test_operand_mismatch() {
    let result = parse_line("li t0");
    assert!(matches!(result, Err(AssemblerError::OperandMismatch { .. })));
}

#[test]
fn test_invalid_register() {
    let result = parse_line("li z0, 5"); // assuming only x and t are valid
    assert!(matches!(result, Err(AssemblerError::InvalidRegister(_))));
}

#[test]
fn test_invalid_immediate() {
    let result = parse_line("li t0, notanumber");
    assert!(matches!(result, Err(AssemblerError::InvalidImmediate(_))));
}

fn get_assembly_string<'a>() -> &'a str {
    r#"
    li
    "#
}

#[test]
fn run_assembly() {
    let _asm = get_assembly_string();
    assert_eq!(4, 4);
}

#[test]
fn test_parse_line_values() {
    let result = parse_line("li x2, -7");
    match result {
        Ok(inst) => {
            assert!(matches!(
                inst.opcode,
                AsmOpcode::LoadImmediate { destination: Register(2), value: Immediate(-7) }
            ));
        }
        Err(_) => panic!("expected a parsed instruction"),
    }
}

#[test]
fn test_parse_register_t_prefix() {
    assert!(matches!(parse_register("  t7"), Ok(Register(7))));
}

#[test]
fn test_parse_register_index_too_large() {
    assert!(matches!(parse_register("x256"), Err(AssemblerError::InvalidRegister(_))));
}

#[test]
fn test_parse_negative_immediate() {
    assert!(matches!(parse_immediate(" -42"), Ok(Immediate(-42))));
}

#[test]
fn test_parse_immediate_extremes() {
    assert!(matches!(parse_immediate("-2147483648"), Ok(Immediate(-2147483648))));
    assert!(matches!(parse_immediate("2147483647"), Ok(Immediate(2147483647))));
    assert!(matches!(parse_immediate("2147483648"), Err(AssemblerError::InvalidImmediate(_))));
    assert!(matches!(parse_immediate("-2147483649"), Err(AssemblerError::InvalidImmediate(_))));
}

#[test]
fn test_parse_immediate_lone_minus() {
    assert!(matches!(parse_immediate(" -"), Err(AssemblerError::InvalidImmediate(_))));
}

#[test]
fn test_parse_immediate_leading_zeros() {
    assert!(matches!(parse_immediate("00000000005"), Ok(Immediate(5))));
}
