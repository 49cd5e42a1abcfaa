use kagirfilelists::output::{plan_output, preamble, OutputPlan};

#[test]
fn no_file_named_means_standard_output() {
    for absent in [false, true] {
        for force in [false, true] {
            for bom in [false, true] {
                assert_eq!(plan_output(false, absent, force, bom), OutputPlan::Stdout);
            }
        }
    }
}

#[test]
fn a_new_file_is_created_with_or_without_mark() {
    assert_eq!(plan_output(true, true, false, false), OutputPlan::NewFile { with_bom: false });
    assert_eq!(plan_output(true, true, false, true), OutputPlan::NewFile { with_bom: true });
}

#[test]
fn an_existing_file_is_refused_even_when_forced() {
    assert_eq!(plan_output(true, false, false, false), OutputPlan::Refuse);
    assert_eq!(plan_output(true, false, true, false), OutputPlan::Refuse);
    assert_eq!(plan_output(true, false, true, true), OutputPlan::Refuse);
}

#[test]
fn only_a_new_file_with_mark_starts_with_the_mark() {
    assert_eq!(preamble(OutputPlan::NewFile { with_bom: true }), vec![0xef, 0xbb, 0xbf]);
    assert_eq!(preamble(OutputPlan::NewFile { with_bom: false }), Vec::<u8>::new());
    assert_eq!(preamble(OutputPlan::Stdout), Vec::<u8>::new());
    assert_eq!(preamble(OutputPlan::Refuse), Vec::<u8>::new());
}
