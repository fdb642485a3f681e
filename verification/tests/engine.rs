use cpi_calc::functions::{
    calc_spi, calculate_cpi_option3, calculate_spi_n, validate_grade_token, EngineError,
    TokenCheck,
};
use cpi_calc::semdata::SemesterId;

fn tokens(raw: &[&str]) -> Vec<String> {
    raw.iter().map(|t| t.to_string()).collect()
}

#[test]
fn grade_validation_rejects_and_accepts_the_listed_tokens() {
    assert_eq!(validate_grade_token("11"), TokenCheck::OutOfRange);
    assert_eq!(validate_grade_token("-1"), TokenCheck::OutOfRange);
    assert_eq!(validate_grade_token(""), TokenCheck::Empty);
    assert_eq!(validate_grade_token("abc"), TokenCheck::Unparsable);
    assert_eq!(validate_grade_token("0"), TokenCheck::ValidGrade(0));
    assert_eq!(validate_grade_token("10"), TokenCheck::ValidGrade(100000));
    assert_eq!(validate_grade_token("7.5"), TokenCheck::ValidGrade(75000));
}

#[test]
fn grade_validation_edge_tokens() {
    assert_eq!(validate_grade_token("+5"), TokenCheck::ValidGrade(50000));
    assert_eq!(validate_grade_token("7."), TokenCheck::ValidGrade(70000));
    assert_eq!(validate_grade_token(".5"), TokenCheck::ValidGrade(5000));
    assert_eq!(validate_grade_token("-0"), TokenCheck::ValidGrade(0));
    assert_eq!(validate_grade_token("10.0000"), TokenCheck::ValidGrade(100000));
    assert_eq!(validate_grade_token("10.0001"), TokenCheck::OutOfRange);
    assert_eq!(validate_grade_token("9.8765"), TokenCheck::ValidGrade(98765));
    assert_eq!(validate_grade_token("1.23456"), TokenCheck::Unparsable);
    assert_eq!(validate_grade_token("."), TokenCheck::Unparsable);
    assert_eq!(validate_grade_token("+"), TokenCheck::Unparsable);
    assert_eq!(validate_grade_token("5.5.5"), TokenCheck::Unparsable);
    assert_eq!(validate_grade_token(" 5"), TokenCheck::Unparsable);
    assert_eq!(validate_grade_token("00010"), TokenCheck::ValidGrade(100000));
    assert_eq!(validate_grade_token("999999999999"), TokenCheck::OutOfRange);
}

#[test]
fn spi_of_all_tens_in_semester_one_is_ten() {
    let id = SemesterId { number: 1, variant: 0 };
    let grades = tokens(&["10", "10", "10", "10", "10", "10", "10", "10"]);
    assert_eq!(calc_spi(id, &grades), Ok(100000));
}

#[test]
fn spi_of_a_uniform_grade_set_is_that_grade() {
    let id = SemesterId { number: 3, variant: 0 };
    let grades = tokens(&["7.5", "7.5", "7.5", "7.5", "7.5", "7.5", "7.5"]);
    assert_eq!(calc_spi(id, &grades), Ok(75000));
}

#[test]
fn spi_of_a_mixed_grade_set_is_the_weighted_mean() {
    // semester 1 credits are 8, 6, 3, 8, 3, 8, 4, 6; the weighted sum is
    // 3_840_000 score units over 46 credits, which rounds to 83_478
    let id = SemesterId { number: 1, variant: 0 };
    let grades = tokens(&["9", "8", "10", "7", "6", "9", "10", "8"]);
    assert_eq!(calc_spi(id, &grades), Ok(83478));
}

#[test]
fn spi_with_six_grades_for_semester_two_is_a_count_mismatch() {
    let id = SemesterId { number: 2, variant: 0 };
    let grades = tokens(&["9", "9", "9", "9", "9", "9"]);
    assert_eq!(calc_spi(id, &grades), Err(EngineError::CountMismatch));
}

#[test]
fn spi_for_unknown_semester_is_not_found() {
    let id = SemesterId { number: 99, variant: 0 };
    assert_eq!(calc_spi(id, &tokens(&["5"])), Err(EngineError::NotFound));
}

#[test]
fn spi_reports_the_first_bad_token() {
    let id = SemesterId { number: 1, variant: 0 };
    let missing = tokens(&["9", "", "8", "7", "6", "9", "10", "8"]);
    assert_eq!(calc_spi(id, &missing), Err(EngineError::MissingGrade));
    let invalid = tokens(&["9", "abc", "", "7", "6", "9", "10", "8"]);
    assert_eq!(calc_spi(id, &invalid), Err(EngineError::InvalidGrade));
    let out_of_range = tokens(&["11", "9", "9", "9", "9", "9", "9", "9"]);
    assert_eq!(calc_spi(id, &out_of_range), Err(EngineError::InvalidGrade));
}

#[test]
fn spi_from_numeric_grades_matches_the_formula() {
    let id = SemesterId { number: 1, variant: 0 };
    let grades = vec![100000u32; 8];
    assert_eq!(calculate_spi_n(id, grades), Ok(100000));
    let wrong_len = vec![100000u32; 7];
    assert_eq!(calculate_spi_n(id, wrong_len), Err(EngineError::CountMismatch));
    let unknown = SemesterId { number: 42, variant: 0 };
    assert_eq!(calculate_spi_n(unknown, vec![0u32; 8]), Err(EngineError::NotFound));
}

#[test]
fn cpi_for_semester_two_blends_by_credit() {
    // (8.0 * 46 + 9.0 * 44) / 90 score units, rounded half-up
    let id = SemesterId { number: 2, variant: 0 };
    assert_eq!(calculate_cpi_option3(id, 80000, 90000), Ok(84889));
}

#[test]
fn cpi_for_semester_one_is_the_given_spi() {
    let id = SemesterId { number: 1, variant: 0 };
    assert_eq!(calculate_cpi_option3(id, 12345, 67890), Ok(67890));
}

#[test]
fn cpi_of_equal_inputs_is_that_value() {
    let id = SemesterId { number: 3, variant: 0 };
    assert_eq!(calculate_cpi_option3(id, 66666, 66666), Ok(66666));
    let id7 = SemesterId { number: 7, variant: 2 };
    assert_eq!(calculate_cpi_option3(id7, 90000, 90000), Ok(90000));
    let id8 = SemesterId { number: 8, variant: 2 };
    assert_eq!(calculate_cpi_option3(id8, 90000, 90000), Ok(90000));
}

#[test]
fn cpi_for_semester_seven_blends_against_semester_six() {
    // previous cumulative credit 262 (through semester 6), current credit 30
    let id = SemesterId { number: 7, variant: 1 };
    assert_eq!(calculate_cpi_option3(id, 80000, 90000), Ok(81027));
}

#[test]
fn cpi_for_semester_eight_blends_against_semester_seven() {
    // previous cumulative credit 292 (through semester 7, shared by both of
    // its tracks), current credit 30: (8.0 * 292 + 9.0 * 30) / 322
    for variant in [1, 2, 3] {
        let id = SemesterId { number: 8, variant };
        assert_eq!(calculate_cpi_option3(id, 80000, 90000), Ok(80932));
    }
}

#[test]
fn cpi_for_an_unknown_semester_is_not_found() {
    let unknown = SemesterId { number: 99, variant: 0 };
    assert_eq!(calculate_cpi_option3(unknown, 80000, 90000), Err(EngineError::NotFound));
    let no_track = SemesterId { number: 8, variant: 0 };
    assert_eq!(calculate_cpi_option3(no_track, 80000, 90000), Err(EngineError::NotFound));
}
