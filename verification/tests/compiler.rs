use luau_to_bytecode::hexdump::hex_dump;
use luau_to_bytecode::options::LuaCompileOptions;
use luau_to_bytecode::output::{decode_output, CompileError};
use mlua::Compiler;

fn compile_luau_to_bytecode(source: &str) -> Result<Vec<u8>, CompileError> {
    decode_output(Some(Compiler::new().compile(source)))
}

fn level(value: i32) -> u8 {
    u8::try_from(value).unwrap()
}

fn compile_with(source: &str, options: &LuaCompileOptions) -> Result<Vec<u8>, CompileError> {
    assert!(options.is_well_formed());
    let compiler = Compiler::new()
        .set_optimization_level(level(options.optimizationLevel))
        .set_debug_level(level(options.debugLevel))
        .set_type_info_level(level(options.typeInfoLevel))
        .set_coverage_level(level(options.coverageLevel))
        .set_mutable_globals(options.mutableGlobals.clone().unwrap_or_default())
        .set_userdata_types(options.userdataTypes.clone().unwrap_or_default());
    decode_output(Some(compiler.compile(source)))
}

#[test]
fn should_compile() {
    let valid_code = r#"
            print("Hello from Luau!")
        "#;
    let compile_result = compile_luau_to_bytecode(valid_code);

    if let Err(err_msg) = &compile_result {
        println!("{}", err_msg.message());
    }

    assert!(compile_result.is_ok());
}

#[test]
fn should_fail_on_invalid_code() {
    let invalid_code = r#"
            this is not valid luau code!
        "#;
    let compile_result = compile_luau_to_bytecode(invalid_code);

    assert!(compile_result.is_err());
}

#[test]
fn should_give_valid_error_message() {
    let invalid_code = r#"
           print(""") 
        "#;
    let compile_result = compile_luau_to_bytecode(invalid_code);

    if let Err(err_msg) = &compile_result {
        assert!(err_msg.message().contains("malformed string"));
    } else {
        panic!("Expected an error but got success.");
    }
}

#[test]
fn table_driven_tests() {
    let test_cases: Vec<(&str, bool)> = vec![
        (
            r#"print("Test 1")"#,
            true, // should compile
        ),
        (
            r#"function foo() return 42 end"#,
            true, // should compile
        ),
        (
            r#"local ab = {if true then 16 end}"#,
            false, // should not compile
        ),
    ];

    for (source, should_compile) in test_cases {
        let result = compile_luau_to_bytecode(source);

        assert_eq!(
            result.is_ok(),
            should_compile,
            "Source: {}\nExpected to compile: {}, but got: {:?}",
            source,
            should_compile,
            result
        );
    }
}

#[test]
fn hello_compiles_to_bytecode_that_opens_with_a_nonzero_byte() {
    let bytecode = compile_luau_to_bytecode(r#"print("Hello from Luau!")"#).unwrap();
    assert!(!bytecode.is_empty());
    assert_ne!(bytecode[0], 0);
}

#[test]
fn bytecode_is_the_compilers_buffer_untouched() {
    let source = "function foo() return 42 end";
    let raw = Compiler::new().compile(source);
    assert_eq!(decode_output(Some(raw.clone())), Ok(raw));
}

#[test]
fn invalid_code_gives_a_message_that_is_not_empty() {
    let error = compile_luau_to_bytecode("this is not valid luau code!").unwrap_err();
    assert!(matches!(error, CompileError::CompilationError(_)));
    assert!(!error.message().is_empty());
    assert!(error.is_recoverable());
}

#[test]
fn message_is_the_compilers_text_behind_the_marker() {
    let raw = Compiler::new().compile(r#"print(""")"#);
    assert_eq!(raw[0], 0);
    let expected = String::from_utf8(raw[1..].to_vec()).unwrap();
    let error = decode_output(Some(raw)).unwrap_err();
    assert_eq!(error.message(), expected);
    assert!(expected.starts_with(":1: "));
}

#[test]
fn control_expression_in_a_table_is_rejected() {
    let outcome = compile_luau_to_bytecode("local ab = {if true then 16 end}");
    assert!(matches!(outcome, Err(CompileError::CompilationError(_))));
}

#[test]
fn function_definition_compiles() {
    let bytecode = compile_luau_to_bytecode("function foo() return 42 end").unwrap();
    assert!(!bytecode.is_empty());
}

#[test]
fn compiling_twice_gives_the_same_bytecode() {
    let source = r#"
        local tbl = {
            "Hello",
            "world!"
        }
        local format_string = table.concat(tbl, ", ")
        print(format_string)
    "#;
    let first = compile_luau_to_bytecode(source).unwrap();
    let second = compile_luau_to_bytecode(source).unwrap();
    assert_eq!(first, second);
}

#[test]
fn failing_twice_gives_the_same_message() {
    let first = compile_luau_to_bytecode("local = 1");
    let second = compile_luau_to_bytecode("local = 1");
    assert!(first.is_err());
    assert_eq!(first, second);
}

#[test]
fn default_options_give_the_bytecode_of_no_options() {
    let source = "function foo() return 42 end";
    let plain = compile_luau_to_bytecode(source).unwrap();
    let explicit = compile_with(source, &LuaCompileOptions::default()).unwrap();
    assert_eq!(plain, explicit);
}

#[test]
fn options_reach_the_bytecode() {
    let source = "local function double(x) return x * 2 end\nprint(double(21))";
    let mut lean = LuaCompileOptions::default();
    lean.debugLevel = 0;
    let mut full = LuaCompileOptions::default();
    full.debugLevel = 2;
    let lean = compile_with(source, &lean).unwrap();
    let full = compile_with(source, &full).unwrap();
    assert_ne!(lean, full);
    assert!(lean.len() < full.len());
}

#[test]
fn many_compiles_in_a_row_all_decode() {
    for round in 0..200 {
        let good = compile_luau_to_bytecode("return 1");
        assert!(good.is_ok(), "round {}", round);
        let bad = compile_luau_to_bytecode("return return");
        assert!(bad.is_err(), "round {}", round);
    }
}

#[test]
fn dump_of_real_bytecode_has_a_cell_for_every_byte() {
    let bytecode = compile_luau_to_bytecode("return 1").unwrap();
    let dump = hex_dump(&bytecode);
    let digits: Vec<&str> = dump.split_whitespace().collect();
    assert_eq!(digits.len(), bytecode.len());
    for (text, byte) in digits.iter().zip(bytecode.iter()) {
        assert_eq!(u8::from_str_radix(text, 16).unwrap(), *byte);
    }
    assert!(dump.ends_with('\n'));
}
