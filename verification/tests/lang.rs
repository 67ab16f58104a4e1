use corpus_gen::facets::{all_ones, lit, spread};
use corpus_gen::lang::Ty;

#[test]
fn a_literal_is_cast_to_the_type_the_case_is_about() {
    assert_eq!(lit(Ty::U8, 255), "(unsigned char)255u");
    assert_eq!(lit(Ty::I64, -1), "(long long)(-1ll)");
}

#[test]
fn all_ones_is_minus_one_when_signed_and_the_maximum_when_not() {
    assert_eq!(all_ones(Ty::I32), -1);
    assert_eq!(all_ones(Ty::U8), 255);
    assert_eq!(all_ones(Ty::U64), Ty::U64.max());
}

#[test]
fn spreading_keeps_both_ends_and_never_grows_the_list() {
    let values: Vec<i128> = (0..20).collect();
    let picked = spread(&values, 5);
    assert_eq!(picked.first(), Some(&0));
    assert_eq!(picked.last(), Some(&19));
    assert!(picked.len() <= 5);
}

#[test]
fn spreading_a_short_list_leaves_it_alone() {
    let values = vec![1, 2, 3];
    assert_eq!(spread(&values, 5), values);
    assert_eq!(spread(&values, 3), values);
    assert_eq!(spread(&values, usize::MAX), values);
}

#[test]
fn spreading_is_the_same_every_time_it_is_asked() {
    let values: Vec<i128> = (0..37).collect();
    assert_eq!(spread(&values, 6), spread(&values, 6));
}

#[test]
fn spreading_picks_evenly_spaced_values_and_drops_repeats() {
    let values: Vec<i128> = (0..20).collect();
    assert_eq!(spread(&values, 5), vec![0, 4, 9, 14, 19]);
    assert_eq!(spread(&[1, 1, 1, 2], 3), vec![1, 2]);
    assert_eq!(spread(&[4, 5, 6], 1), vec![4]);
    assert_eq!(spread(&[4, 5, 6], 0), Vec::<i128>::new());
    assert_eq!(spread(&[], 0), Vec::<i128>::new());
}

#[test]
fn the_extreme_literals_are_written_so_c_reads_them_as_the_type() {
    assert_eq!(Ty::I32.literal(-2147483648), "(-2147483647 - 1)");
    assert_eq!(Ty::I64.literal(i64::MIN as i128), "(-9223372036854775807ll - 1)");
    assert_eq!(Ty::U32.literal(4294967295), "4294967295u");
    assert_eq!(Ty::U64.literal(7), "7ull");
    assert_eq!(Ty::I8.literal(-128), "(-128)");
    assert_eq!(Ty::I16.literal(-5), "(-5)");
    assert_eq!(Ty::I32.literal(12), "12");
}

#[test]
fn a_conversion_wraps_the_way_c_does() {
    assert_eq!(Ty::U8.convert(256), 0);
    assert_eq!(Ty::U8.convert(-1), 255);
    assert_eq!(Ty::I8.convert(128), -128);
    assert_eq!(Ty::I8.convert(-129), 127);
    assert_eq!(Ty::U32.convert(i128::from(u32::MAX) + 5), 4);
    assert_eq!(Ty::I64.convert(i128::from(i64::MAX) + 1), i128::from(i64::MIN));
    assert_eq!(Ty::U64.convert(i128::MIN), 0);
    assert_eq!(Ty::I32.convert(i128::MAX), -1);
    assert_eq!(Ty::I16.convert(1000), 1000);
}

#[test]
fn promotion_takes_the_narrow_types_to_int_and_leaves_the_rest() {
    assert_eq!(Ty::U8.promoted(), Ty::I32);
    assert_eq!(Ty::I16.promoted(), Ty::I32);
    assert_eq!(Ty::U32.promoted(), Ty::U32);
    assert_eq!(Ty::U64.promoted(), Ty::U64);
    assert!(Ty::I32.holds(-1));
    assert!(!Ty::U32.holds(-1));
    assert!(!Ty::I8.holds(128));
    assert_eq!(Ty::I16.min(), -32768);
    assert_eq!(Ty::U16.bits(), 16);
    assert!(Ty::I64.signed());
}

#[test]
fn the_names_are_the_axis_spellings_and_the_c_spellings() {
    assert_eq!(Ty::U16.name(), "u16");
    assert_eq!(Ty::I8.c_name(), "signed char");
    assert_eq!(Ty::U64.c_name(), "unsigned long long");
    assert_eq!(Ty::I16.print_spec(), "%lld");
    assert_eq!(Ty::U8.print_cast(), "(unsigned long long)");
}
