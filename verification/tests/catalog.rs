use cpi_calc::semdata::{get_semesters, SemesterId};

fn all_ids() -> Vec<SemesterId> {
    vec![
        SemesterId { number: 1, variant: 0 },
        SemesterId { number: 2, variant: 0 },
        SemesterId { number: 3, variant: 0 },
        SemesterId { number: 4, variant: 0 },
        SemesterId { number: 5, variant: 0 },
        SemesterId { number: 6, variant: 0 },
        SemesterId { number: 7, variant: 1 },
        SemesterId { number: 7, variant: 2 },
        SemesterId { number: 8, variant: 1 },
        SemesterId { number: 8, variant: 2 },
        SemesterId { number: 8, variant: 3 },
    ]
}

#[test]
fn lookup_returns_parallel_course_lists() {
    for id in all_ids() {
        let sem = get_semesters(id).expect("catalog id must be present");
        assert_eq!(sem.sem_no, id);
        assert!(sem.course_code.len() > 0);
        assert_eq!(sem.course_code.len(), sem.course_name.len());
        assert_eq!(sem.course_code.len(), sem.course_credit.len());
    }
}

#[test]
fn lookup_unknown_identifier_is_not_found() {
    assert!(get_semesters(SemesterId { number: 99, variant: 0 }).is_none());
    assert!(get_semesters(SemesterId { number: 0, variant: 0 }).is_none());
    assert!(get_semesters(SemesterId { number: 7, variant: 0 }).is_none());
    assert!(get_semesters(SemesterId { number: 8, variant: 0 }).is_none());
    assert!(get_semesters(SemesterId { number: 8, variant: 4 }).is_none());
    assert!(get_semesters(SemesterId { number: 1, variant: 1 }).is_none());
}

#[test]
fn semester_one_record_values() {
    let sem = get_semesters(SemesterId { number: 1, variant: 0 }).unwrap();
    assert_eq!(sem.course_code.len(), 8);
    assert_eq!(sem.total_credit, 46);
    assert_eq!(sem.total_credit_till_sem, 46);
    assert_eq!(sem.course_code[0], "MA101");
    assert_eq!(sem.course_name[0], "Mathematics I");
    assert_eq!(sem.course_credit, vec![8, 6, 3, 8, 3, 8, 4, 6]);
}

#[test]
fn totals_equal_sum_of_course_credits() {
    for id in all_ids() {
        let sem = get_semesters(id).unwrap();
        let sum: u32 = sem.course_credit.iter().sum();
        assert_eq!(sem.total_credit, sum);
    }
}

#[test]
fn cumulative_credit_covers_own_total_and_never_decreases() {
    let mut last_cumulative = 0;
    for id in all_ids() {
        let sem = get_semesters(id).unwrap();
        assert!(sem.total_credit_till_sem >= sem.total_credit);
        assert!(sem.total_credit_till_sem >= last_cumulative);
        last_cumulative = sem.total_credit_till_sem;
    }
}

#[test]
fn the_default_record_is_empty() {
    let sem = cpi_calc::semdata::Semester::default();
    assert_eq!(sem.sem_no, SemesterId { number: 0, variant: 0 });
    assert!(sem.course_code.is_empty());
    assert!(sem.course_name.is_empty());
    assert!(sem.course_credit.is_empty());
    assert_eq!(sem.total_credit, 0);
    assert_eq!(sem.total_credit_till_sem, 0);
}

#[test]
fn later_semester_records_match_catalog() {
    let sem2 = get_semesters(SemesterId { number: 2, variant: 0 }).unwrap();
    assert_eq!(sem2.course_code.len(), 7);
    assert_eq!(sem2.total_credit, 44);
    assert_eq!(sem2.total_credit_till_sem, 90);
    let sem71 = get_semesters(SemesterId { number: 7, variant: 1 }).unwrap();
    assert_eq!(sem71.total_credit, 30);
    assert_eq!(sem71.total_credit_till_sem, 292);
    let sem83 = get_semesters(SemesterId { number: 8, variant: 3 }).unwrap();
    assert_eq!(sem83.course_code.len(), 3);
    assert_eq!(sem83.course_credit, vec![6, 6, 18]);
    assert_eq!(sem83.total_credit_till_sem, 322);
}
