use corpus_gen::emit::{ident, Program};
use corpus_gen::lang::Ty;

#[test]
fn a_program_with_nothing_in_it_still_compiles_as_a_translation_unit() {
    let (source, expected) = Program::new("empty").finish();
    assert!(source.contains("int main(void) {"));
    assert!(source.contains("return 0;"));
    assert!(expected.is_empty());
}

#[test]
fn printf_is_declared_only_when_something_prints() {
    let (quiet, _) = Program::new("quiet").finish();
    assert!(!quiet.contains("printf"));

    let mut loud = Program::new("loud");
    loud.check(Ty::I32, "1 + 1", 2);
    let (source, _) = loud.finish();
    assert!(source.contains("int printf(const char *, ...);"));
}

#[test]
fn a_check_writes_the_line_and_the_expected_value_together() {
    let mut program = Program::new("one check");
    program.check(Ty::U64, "a + b", 42);
    assert_eq!(program.checks(), 1);
    let (source, expected) = program.finish();
    assert!(source.contains(r#"printf("%llu\n", (unsigned long long)(a + b));"#));
    assert_eq!(expected, "42\n");
}

#[test]
fn a_signed_check_goes_out_through_long_long_and_a_negative_value_survives() {
    let mut program = Program::new("negative");
    program.check(Ty::I8, "x", -128);
    let (source, expected) = program.finish();
    assert!(source.contains(r#"printf("%lld\n", (long long)(x));"#));
    assert_eq!(expected, "-128\n");
}

#[test]
fn expected_output_comes_out_in_the_order_the_checks_were_added() {
    let mut program = Program::new("order");
    program.check(Ty::I32, "a", 1);
    program.check(Ty::I32, "b", 2);
    program.check(Ty::I32, "c", 3);
    let (_, expected) = program.finish();
    assert_eq!(expected, "1\n2\n3\n");
}

#[test]
fn top_level_items_land_before_main() {
    let mut program = Program::new("with a helper");
    program.top("static int helper(int x) { return x + 1; }");
    program.check(Ty::I32, "helper(1)", 2);
    let (source, _) = program.finish();
    let helper_at = source.find("helper").unwrap();
    let main_at = source.find("int main").unwrap();
    assert!(helper_at < main_at);
}

#[test]
fn indentation_is_four_spaces_per_level() {
    let mut program = Program::new("nested");
    program.line("for (int i = 0; i < 2; i++) {");
    program.line_at(1, "int x = i;");
    program.check_at(2, Ty::I32, "x", 0);
    program.line("}");
    let (source, _) = program.finish();
    assert!(source.contains("\n    for (int i = 0"));
    assert!(source.contains("\n        int x = i;"));
    assert!(source.contains("\n            printf"));
}

#[test]
fn an_identifier_is_always_something_c_will_accept() {
    assert_eq!(ident(&["constant-fold", "i32.add"]), "constant_fold_i32_add");
    assert_eq!(ident(&["8bit"]), "v8bit");
    assert_eq!(ident(&[""]), "v");
    assert_eq!(ident(&["a", "b"]), "a_b");
}

#[test]
fn an_opaque_input_reads_a_volatile_global_once_and_uses_no_assembly() {
    let mut program = Program::new("opaque");
    program.input(Ty::U32, "x", 7);
    program.check(Ty::U32, "x", 7);
    let (source, _) = program.finish();
    assert!(source.contains("static volatile unsigned int x_in = 7u;"));
    assert!(source.contains("unsigned int x = x_in;"));
    assert!(!source.contains("asm"), "the corpus must not need assembler support");
}

#[test]
fn a_sink_is_declared_once_however_many_values_go_into_it() {
    let mut program = Program::new("sink");
    program.check(Ty::I32, "1", 1);
    program.sink("a");
    program.sink("b");
    let (source, _) = program.finish();
    assert_eq!(source.matches("static volatile long long corpus_sink;").count(), 1);
    assert!(source.contains("corpus_sink = (long long)(a);"));
}

#[test]
fn a_program_that_never_sinks_anything_does_not_declare_the_sink() {
    let mut program = Program::new("quiet");
    program.check(Ty::I32, "1", 1);
    let (source, _) = program.finish();
    assert!(!source.contains("corpus_sink"));
}

#[test]
fn the_whole_translation_unit_is_laid_out_in_order() {
    let mut program = Program::new("layout");
    program.include_header("stdarg.h");
    program.include_header("stdarg.h");
    program.top("static int g;");
    program.input(Ty::I64, "v", -1);
    program.sink("v");
    program.check(Ty::I64, "v", -1);
    program.expects(5);
    assert!(!program.is_empty());
    assert_eq!(program.checks(), 2);
    let (source, expected) = program.finish();
    assert_eq!(
        source,
        "// layout\n// Generated by rucc-corpus. Edit the generator, not this file.\n\n\
         #include <stdarg.h>\n\n\
         int printf(const char *, ...);\n\n\
         static volatile long long corpus_sink;\n\n\
         static int g;\n\
         static volatile long long v_in = (-1ll);\n\n\
         int main(void) {\n\
         \x20   long long v = v_in;\n\
         \x20   corpus_sink = (long long)(v);\n\
         \x20   printf(\"%lld\\n\", (long long)(v));\n\
         \x20   return 0;\n}\n"
    );
    assert_eq!(expected, "-1\n5\n");
}

#[test]
fn a_fresh_program_prints_nothing() {
    let program = Program::new("fresh");
    assert!(program.is_empty());
    assert_eq!(program.checks(), 0);
}

#[test]
fn an_identifier_keeps_underscores_and_cleans_everything_else() {
    assert_eq!(ident(&["", "a"]), "a");
    assert_eq!(ident(&["x y", "z_1"]), "x_y_z_1");
    assert_eq!(ident(&["é"]), "_");
    assert_eq!(ident(&[]), "v");
}

#[test]
fn an_identifier_starts_at_the_first_part_that_is_not_empty() {
    assert_eq!(ident(&["", "", "a", "b"]), "a_b");
    assert_eq!(ident(&["a", "", "b"]), "a__b");
    assert_eq!(ident(&["", "", ""]), "v");
    assert_eq!(ident(&["", "9lives"]), "v9lives");
}

#[test]
fn the_check_count_is_the_number_of_lines_printed() {
    let mut program = Program::new("counts");
    program.check(Ty::I32, "1", 1);
    program.check_at(2, Ty::I64, "x", -7);
    program.expects(12);
    let checks = program.checks();
    let (_, expected) = program.finish();
    assert_eq!(checks, 3);
    assert_eq!(expected.lines().count(), checks);
    assert!(expected.ends_with('\n'));
}

#[test]
fn a_header_asked_for_twice_is_included_once_in_first_asked_order() {
    let mut program = Program::new("headers");
    program.include_header("stdint.h");
    program.include_header("string.h");
    program.include_header("stdint.h");
    let (source, _) = program.finish();
    assert_eq!(source.matches("#include <stdint.h>").count(), 1);
    assert_eq!(source.matches("#include <string.h>").count(), 1);
    assert!(source.find("#include <stdint.h>").unwrap() < source.find("#include <string.h>").unwrap());
}
