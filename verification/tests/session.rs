use cpi_calc::session::{App, Msg, SessionError};

fn select(app: &mut App, calc_type: &str, semester: &str) {
    app.update(Msg::SelectCalcType(calc_type.to_string()));
    app.update(Msg::SelectSemester(semester.to_string()));
}

fn enter_all_grades(app: &mut App, grade: &str) {
    for i in 0..app.grades.len() {
        app.update(Msg::UpdateGrade(i, grade.to_string()));
    }
}

#[test]
fn a_fresh_session_is_empty() {
    let app = App::create();
    assert_eq!(app.calc_type, None);
    assert_eq!(app.sem_no, None);
    assert!(!app.done_1);
    assert!(app.sem_info.is_none());
    assert!(app.grades.is_empty());
    assert_eq!(app.calculated_spi, None);
    assert_eq!(app.calculated_cpi, None);
    assert_eq!(app.error_message, None);
}

#[test]
fn spi_flow_for_semester_one() {
    let mut app = App::create();
    select(&mut app, "0", "1");
    app.update(Msg::SetDone);
    assert!(app.done_1);
    assert!(app.sem_info.is_some());
    assert_eq!(app.grades.len(), 8);
    assert!(app.should_show_grade_input());
    enter_all_grades(&mut app, "10");
    app.update(Msg::Calculate);
    assert_eq!(app.calculated_spi, Some(100000));
    assert_eq!(app.calculated_cpi, None);
    assert_eq!(app.error_message, None);
}

#[test]
fn cpi_for_semester_one_equals_its_spi() {
    let mut app = App::create();
    select(&mut app, "1", "1");
    app.update(Msg::SetDone);
    enter_all_grades(&mut app, "9");
    app.update(Msg::Calculate);
    assert_eq!(app.calculated_spi, Some(90000));
    assert_eq!(app.calculated_cpi, Some(90000));
    assert_eq!(app.error_message, None);
}

#[test]
fn cpi_from_previous_cpi_and_entered_spi() {
    let mut app = App::create();
    select(&mut app, "1", "2");
    app.update(Msg::SetDone);
    app.update(Msg::SelectCpiCalcOption("2".to_string()));
    app.update(Msg::UpdateCpiOp2Var1("8".to_string()));
    app.update(Msg::UpdateCpiOp2Var2("9".to_string()));
    app.update(Msg::Calculate);
    assert_eq!(app.calculated_cpi, Some(84889));
    assert_eq!(app.calculated_spi, Some(90000));
    assert_eq!(app.error_message, None);
}

#[test]
fn cpi_from_previous_cpi_and_entered_grades() {
    let mut app = App::create();
    select(&mut app, "1", "2");
    app.update(Msg::SetDone);
    app.update(Msg::SelectCpiCalcOption("1".to_string()));
    app.update(Msg::UpdateCpiOp1Var1("8".to_string()));
    enter_all_grades(&mut app, "9");
    app.update(Msg::Calculate);
    assert_eq!(app.calculated_spi, Some(90000));
    assert_eq!(app.calculated_cpi, Some(84889));
    assert_eq!(app.error_message, None);
}

#[test]
fn semester_seven_requires_a_track_option() {
    let mut app = App::create();
    select(&mut app, "0", "7");
    app.update(Msg::SetDone);
    assert!(!app.done_1);
    assert_eq!(app.error_message, Some(SessionError::OptionNotSelected));
    app.update(Msg::SelectSemOption("1".to_string()));
    app.update(Msg::SetDone);
    assert!(app.done_1);
    assert_eq!(app.grades.len(), 5);
    assert_eq!(app.error_message, None);
}

#[test]
fn a_bad_grade_entry_is_rejected_and_not_stored() {
    let mut app = App::create();
    select(&mut app, "0", "1");
    app.update(Msg::SetDone);
    app.update(Msg::UpdateGrade(0, "12".to_string()));
    assert_eq!(app.error_message, Some(SessionError::InvalidGradeEntry));
    assert_eq!(app.grades[0], "");
    app.update(Msg::UpdateGrade(0, "8.5".to_string()));
    assert_eq!(app.error_message, None);
    assert_eq!(app.grades[0], "8.5");
}

#[test]
fn calculate_without_a_semester_reports_it() {
    let mut app = App::create();
    app.update(Msg::Calculate);
    assert_eq!(app.error_message, Some(SessionError::SemesterNotSelected));
    assert_eq!(app.calculated_spi, None);
    assert_eq!(app.calculated_cpi, None);
}

#[test]
fn calculate_with_empty_grades_reports_them_missing() {
    let mut app = App::create();
    select(&mut app, "0", "1");
    app.update(Msg::SetDone);
    app.update(Msg::Calculate);
    assert_eq!(app.error_message, Some(SessionError::GradesMissing));
    assert_eq!(app.calculated_spi, None);
}

#[test]
fn cpi_beyond_semester_one_needs_an_option() {
    let mut app = App::create();
    select(&mut app, "1", "3");
    app.update(Msg::SetDone);
    app.update(Msg::Calculate);
    assert_eq!(app.error_message, Some(SessionError::CpiOptionNotSelected));
}

#[test]
fn bad_cpi_inputs_name_the_failing_field() {
    let mut app = App::create();
    select(&mut app, "1", "2");
    app.update(Msg::SetDone);
    app.update(Msg::SelectCpiCalcOption("2".to_string()));
    app.update(Msg::UpdateCpiOp2Var1("abc".to_string()));
    app.update(Msg::UpdateCpiOp2Var2("9".to_string()));
    app.update(Msg::Calculate);
    assert_eq!(app.error_message, Some(SessionError::InvalidPreviousCpi));
    app.update(Msg::UpdateCpiOp2Var1("8".to_string()));
    app.update(Msg::UpdateCpiOp2Var2("xyz".to_string()));
    app.update(Msg::Calculate);
    assert_eq!(app.error_message, Some(SessionError::InvalidCurrentSpi));
}

#[test]
fn cpi_for_a_semester_eight_track_blends_against_semester_seven() {
    let mut app = App::create();
    select(&mut app, "1", "8");
    app.update(Msg::SelectSemOption("1".to_string()));
    app.update(Msg::SetDone);
    app.update(Msg::SelectCpiCalcOption("2".to_string()));
    app.update(Msg::UpdateCpiOp2Var1("8".to_string()));
    app.update(Msg::UpdateCpiOp2Var2("9".to_string()));
    app.update(Msg::Calculate);
    // (8.0 * 292 + 9.0 * 30) / 322 in score units, rounded half-up
    assert_eq!(app.calculated_cpi, Some(80932));
    assert_eq!(app.calculated_spi, Some(90000));
    assert_eq!(app.error_message, None);
}

#[test]
fn reset_restores_the_initial_state() {
    let mut app = App::create();
    select(&mut app, "0", "1");
    app.update(Msg::SetDone);
    enter_all_grades(&mut app, "10");
    app.update(Msg::Calculate);
    app.update(Msg::Reset);
    assert_eq!(app.calc_type, None);
    assert_eq!(app.sem_no, None);
    assert!(!app.done_1);
    assert!(app.sem_info.is_none());
    assert!(app.grades.is_empty());
    assert_eq!(app.calculated_spi, None);
    assert_eq!(app.error_message, None);
}

#[test]
fn toggling_the_grade_table_keeps_results() {
    let mut app = App::create();
    select(&mut app, "0", "1");
    app.update(Msg::SetDone);
    enter_all_grades(&mut app, "10");
    app.update(Msg::Calculate);
    assert!(!app.show_grade_table);
    app.update(Msg::ToggleGradeTable);
    assert!(app.show_grade_table);
    assert_eq!(app.calculated_spi, Some(100000));
    app.update(Msg::ToggleGradeTable);
    assert!(!app.show_grade_table);
}

#[test]
fn changing_the_semester_clears_dependent_state() {
    let mut app = App::create();
    select(&mut app, "0", "1");
    app.update(Msg::SetDone);
    enter_all_grades(&mut app, "10");
    app.update(Msg::Calculate);
    assert_eq!(app.calculated_spi, Some(100000));
    app.update(Msg::SelectSemester("2".to_string()));
    assert!(!app.done_1);
    assert!(app.sem_info.is_none());
    assert!(app.grades.is_empty());
    assert_eq!(app.calculated_spi, None);
}
