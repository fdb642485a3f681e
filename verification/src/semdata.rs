//! The curriculum catalog: an immutable table of eleven semester records
//! (semesters 1..=6, two tracks of semester 7 and three tracks of semester 8),
//! each with its course codes, names, credit weights, total credit and the
//! cumulative credit earned up to and including that semester.

use vstd::prelude::*;

verus! {

/// Exact key for a catalog entry.  Ordinary semesters 1..=6 have `variant`
/// 0; semester 7 carries track 1 or 2 and semester 8 carries track 1, 2 or 3.
#[derive(Clone, Copy, PartialEq, Eq, Structural, Debug)]
pub struct SemesterId {
    pub number: u32,
    pub variant: u32,
}

/// The eleven keys the catalog holds.
pub open spec fn is_valid_sem_id(id: SemesterId) -> bool {
    ||| (1 <= id.number <= 6 && id.variant == 0)
    ||| (id.number == 7 && 1 <= id.variant <= 2)
    ||| (id.number == 8 && 1 <= id.variant <= 3)
}

/// Curriculum order of the keys: 1 < 2 < ... < 6 < 7.1 < 7.2 < 8.1 < 8.2 < 8.3.
pub open spec fn sem_rank(id: SemesterId) -> int {
    id.number * 10 + id.variant
}

/// Sum of the first `n` credit weights of `s`.
pub open spec fn credit_sum_prefix(s: Seq<u32>, n: int) -> int
    decreases n,
{
    if n <= 0 {
        0
    } else {
        credit_sum_prefix(s, n - 1) + s[n - 1]
    }
}

/// Sum of all credit weights of `s`.
pub open spec fn credit_sum(s: Seq<u32>) -> int {
    credit_sum_prefix(s, s.len() as int)
}

/// The credit weights of the courses of a given semester, in course order.
pub open spec fn spec_course_credits(id: SemesterId) -> Seq<u32> {
    if id.number == 1 {
        seq![8u32, 6, 3, 8, 3, 8, 4, 6]
    } else if id.number == 2 {
        seq![8u32, 8, 3, 8, 8, 3, 6]
    } else if id.number == 3 {
        seq![6u32, 6, 6, 3, 7, 6, 6]
    } else if id.number == 4 {
        seq![6u32, 6, 3, 6, 3, 6, 4, 6, 6]
    } else if id.number == 5 {
        seq![6u32, 6, 4, 6, 3, 7, 6, 6]
    } else if id.number == 6 {
        seq![6u32, 3, 6, 3, 6, 6, 6, 6]
    } else if id.number == 7 {
        seq![6u32, 6, 6, 6, 6]
    } else if id.number == 8 && id.variant == 1 {
        seq![6u32, 6, 6, 6, 6]
    } else {
        seq![6u32, 6, 18]
    }
}

/// Total credit weight of one semester.
pub open spec fn spec_total_credit(id: SemesterId) -> u32 {
    if id.number == 1 {
        46
    } else if id.number == 2 {
        44
    } else if id.number == 3 {
        40
    } else if id.number == 4 {
        46
    } else if id.number == 5 {
        44
    } else if id.number == 6 {
        42
    } else {
        30
    }
}

/// Cumulative credit weight up to and including one semester.
pub open spec fn spec_cumulative_credit(id: SemesterId) -> u32 {
    if id.number == 1 {
        46
    } else if id.number == 2 {
        90
    } else if id.number == 3 {
        130
    } else if id.number == 4 {
        176
    } else if id.number == 5 {
        220
    } else if id.number == 6 {
        262
    } else if id.number == 7 {
        292
    } else {
        322
    }
}

/// The course codes of a given semester, in course order.
pub open spec fn spec_course_codes(id: SemesterId) -> Seq<Seq<char>> {
    if id.number == 1 {
        seq!["MA101"@, "CS101"@, "CS110"@, "EC101"@, "EC110"@, "EC102"@, "HS101"@, "GE101"@]
    } else if id.number == 2 {
        seq!["MA102"@, "CS103"@, "CS111"@, "CS104"@, "EC103"@, "EC111"@, "HSXXX"@]
    } else if id.number == 3 {
        seq!["MA203"@, "MA205"@, "CS201"@, "CS210"@, "CS202"@, "SC201"@, "HSXXX"@]
    } else if id.number == 4 {
        seq!["CS205"@, "CS231"@, "CS232"@, "CS235"@, "CS236"@, "CS240"@, "CS241"@, "SC202"@,
            "HSXXX"@]
    } else if id.number == 5 {
        seq!["CS301"@, "CS352"@, "CS353"@, "CS306"@, "CS360"@, "CS351"@, "SC301"@, "HSXXX"@]
    } else if id.number == 6 {
        seq!["CS330"@, "CS331"@, "CS320"@, "CS321"@, "CS361"@, "SC302"@, "CS300"@, "HSXXX"@]
    } else if id.number == 7 && id.variant == 1 {
        seq!["CS401"@, "CS4XX"@, "CS4XX"@, "CS4XX"@, "HSXXX"@]
    } else if id.number == 7 {
        seq!["CS401"@, "CS4XX"@, "CS4XX"@, "CS400"@, "HSXXX"@]
    } else if id.number == 8 && id.variant == 1 {
        seq!["CS4XX"@, "CS4XX"@, "CS4XX"@, "CS4XX"@, "HS4XX"@]
    } else if id.number == 8 && id.variant == 2 {
        seq!["CS4XX"@, "HS4XX"@, "CS410"@]
    } else {
        seq!["CS4XX"@, "HS4XX"@, "CS411"@]
    }
}

/// The course display names of a given semester, in course order.
pub open spec fn spec_course_names(id: SemesterId) -> Seq<Seq<char>> {
    if id.number == 1 {
        seq!["Mathematics I"@, "Computer Programming"@, "Computer Programming Lab"@,
            "Digital Design"@, "Digital Design Lab"@, "Electrical Circuit Analysis"@, "English"@,
            "Induction Program"@]
    } else if id.number == 2 {
        seq!["Mathematics II"@, "Data Structures"@, "Data Structures Lab"@,
            "Computer Organization"@, "Basic Electronic Circuits"@, "Basic Electronics Lab"@,
            "HSS Elective"@]
    } else if id.number == 3 {
        seq!["Mathematics III"@, "Discrete Mathematics"@, "Algorithms"@, "Algorithm Lab"@,
            "IT Workshop I"@, "Physics I"@, "HSS Elective"@]
    } else if id.number == 4 {
        seq!["Optimization Techniques"@, "Operating Systems"@, "Operating Systems Lab"@,
            "Artificial Intelligence"@, "Artificial Intelligence Lab"@,
            "Database Management Systems"@, "DBMS Lab"@, "Chemistry"@, "HSS Elective"@]
    } else if id.number == 5 {
        seq!["Theory of Computation"@, "Computer Networks"@, "Computer Networks Lab"@,
            "Machine Learning"@, "Machine Learning Lab"@, "IT Workshop III : Cloud Computing"@,
            "Biology"@, "HSS Elective"@]
    } else if id.number == 6 {
        seq!["Software Engineering"@, "Software Engineering Lab"@, "Compilers"@, "Compilers Lab"@,
            "Computer Security"@, "Physics II"@, "Project-I / Elective - I"@, "HSS Elective"@]
    } else if id.number == 7 && id.variant == 1 {
        seq!["Data Analytics"@, "Open Elective"@, "Elective I"@, "Elective II"@, "HSS Elective"@]
    } else if id.number == 7 {
        seq!["Data Analytics"@, "Open Elective"@, "Elective I"@, "Project II"@, "HSS Elective"@]
    } else if id.number == 8 && id.variant == 1 {
        seq!["Elective"@, "Elective"@, "Elective"@, "Elective"@, "Elective (HSS)"@]
    } else if id.number == 8 && id.variant == 2 {
        seq!["Elective"@, "Elective (HSS)"@, "Project III"@]
    } else {
        seq!["Elective"@, "Elective (HSS)"@, "Internship"@]
    }
}

/// One catalog record: three parallel course lists plus the credit totals.
pub struct Semester {
    pub sem_no: SemesterId,
    pub course_code: Vec<String>,
    pub course_name: Vec<String>,
    pub course_credit: Vec<u32>,
    pub total_credit: u32,
    pub total_credit_till_sem: u32,
}

impl Semester {
    /// The catalog invariant of a record: the three course lists run in
    /// parallel and are non-empty, every credit weight is positive, the
    /// total is exactly the sum of the weights, and the cumulative credit
    /// covers at least this semester.
    pub open spec fn wf(self) -> bool {
        &&& self.course_code@.len() == self.course_credit@.len()
        &&& self.course_name@.len() == self.course_credit@.len()
        &&& self.course_credit@.len() > 0
        &&& forall|i: int|
            0 <= i < self.course_credit@.len() ==> self.course_credit@[i] >= 1
        &&& self.total_credit == credit_sum(self.course_credit@)
        &&& self.total_credit > 0
        &&& self.total_credit_till_sem >= self.total_credit
    }
}

impl Default for Semester {
    /// An empty record with the out-of-catalog identifier 0.
    fn default() -> (s: Semester)
        ensures
            s.sem_no == (SemesterId { number: 0, variant: 0 }),
            s.course_code@.len() == 0,
            s.course_name@.len() == 0,
            s.course_credit@.len() == 0,
            s.total_credit == 0,
            s.total_credit_till_sem == 0,
    {
        Semester {
            sem_no: SemesterId { number: 0, variant: 0 },
            course_code: Vec::new(),
            course_name: Vec::new(),
            course_credit: Vec::new(),
            total_credit: 0,
            total_credit_till_sem: 0,
        }
    }
}

/// Invariant of a record while its course lists are still being filled.
pub open spec fn partial_wf(s: Semester) -> bool {
    &&& s.course_code@.len() == s.course_credit@.len()
    &&& s.course_name@.len() == s.course_credit@.len()
    &&& forall|i: int| 0 <= i < s.course_credit@.len() ==> s.course_credit@[i] >= 1
    &&& s.total_credit == credit_sum(s.course_credit@)
}

proof fn lemma_credit_sum_prefix_push(s: Seq<u32>, x: u32, n: int)
    requires
        0 <= n <= s.len(),
    ensures
        credit_sum_prefix(s.push(x), n) == credit_sum_prefix(s, n),
    decreases n,
{
    if n > 0 {
        lemma_credit_sum_prefix_push(s, x, n - 1);
        assert(s.push(x)[n - 1] == s[n - 1]);
    }
}

proof fn lemma_credit_sum_push(s: Seq<u32>, x: u32)
    ensures
        credit_sum(s.push(x)) == credit_sum(s) + x,
{
    lemma_credit_sum_prefix_push(s, x, s.len() as int);
    assert(credit_sum_prefix(s.push(x), s.len() + 1 as int) == credit_sum_prefix(
        s.push(x),
        s.len() as int,
    ) + s.push(x)[s.len() as int]);
}

fn empty_semester(id: SemesterId, cumulative: u32) -> (s: Semester)
    ensures
        s.sem_no == id,
        s.total_credit_till_sem == cumulative,
        s.course_code@.len() == 0,
        s.course_name@.len() == 0,
        s.course_credit@ =~= Seq::<u32>::empty(),
        s.total_credit == 0,
        partial_wf(s),
{
    Semester {
        sem_no: id,
        course_code: Vec::new(),
        course_name: Vec::new(),
        course_credit: Vec::new(),
        total_credit: 0,
        total_credit_till_sem: cumulative,
    }
}

fn add_course(s: &mut Semester, code: &str, name: &str, credit: u32)
    requires
        partial_wf(*old(s)),
        credit >= 1,
        old(s).total_credit + credit <= 100000,
    ensures
        partial_wf(*final(s)),
        final(s).sem_no == old(s).sem_no,
        final(s).total_credit_till_sem == old(s).total_credit_till_sem,
        final(s).course_credit@ == old(s).course_credit@.push(credit),
        final(s).course_code@.len() == old(s).course_code@.len() + 1,
        final(s).course_name@.len() == old(s).course_name@.len() + 1,
        forall|i: int|
            0 <= i < old(s).course_code@.len() ==> final(s).course_code@[i] == old(
                s,
            ).course_code@[i],
        forall|i: int|
            0 <= i < old(s).course_name@.len() ==> final(s).course_name@[i] == old(
                s,
            ).course_name@[i],
        final(s).course_code@[old(s).course_code@.len() as int]@ == code@,
        final(s).course_name@[old(s).course_name@.len() as int]@ == name@,
        final(s).total_credit == old(s).total_credit + credit,
{
    proof {
        lemma_credit_sum_push(s.course_credit@, credit);
    }
    s.course_code.push(code.to_owned());
    s.course_name.push(name.to_owned());
    s.course_credit.push(credit);
    s.total_credit = s.total_credit + credit;
}

/// Looks a semester up in the catalog.  Exactly the eleven valid keys have a
/// record; each record satisfies the catalog invariant and its course codes,
/// names and credit data agree with the spec-level catalog functions, so two
/// lookups of one key return equal records.
pub fn get_semesters(sem_no: SemesterId) -> (r: Option<Semester>)
    ensures
        r is Some <==> is_valid_sem_id(sem_no),
        r matches Some(s) ==> {
            &&& s.wf()
            &&& s.sem_no == sem_no
            &&& s.course_credit@ == spec_course_credits(sem_no)
            &&& s.course_code@.len() == spec_course_credits(sem_no).len()
            &&& s.course_name@.len() == spec_course_credits(sem_no).len()
            &&& forall|i: int|
                0 <= i < s.course_code@.len() ==> s.course_code@[i]@ == spec_course_codes(
                    sem_no,
                )[i]
            &&& forall|i: int|
                0 <= i < s.course_name@.len() ==> s.course_name@[i]@ == spec_course_names(
                    sem_no,
                )[i]
            &&& s.total_credit == spec_total_credit(sem_no)
            &&& s.total_credit_till_sem == spec_cumulative_credit(sem_no)
        },
{
    if sem_no.number == 1 && sem_no.variant == 0 {
        let mut s = empty_semester(sem_no, 46);
        add_course(&mut s, "MA101", "Mathematics I", 8);
        add_course(&mut s, "CS101", "Computer Programming", 6);
        add_course(&mut s, "CS110", "Computer Programming Lab", 3);
        add_course(&mut s, "EC101", "Digital Design", 8);
        add_course(&mut s, "EC110", "Digital Design Lab", 3);
        add_course(&mut s, "EC102", "Electrical Circuit Analysis", 8);
        add_course(&mut s, "HS101", "English", 4);
        add_course(&mut s, "GE101", "Induction Program", 6);
        proof {
            assert(s.course_credit@ =~= spec_course_credits(sem_no));
        }
        Some(s)
    } else if sem_no.number == 2 && sem_no.variant == 0 {
        let mut s = empty_semester(sem_no, 90);
        add_course(&mut s, "MA102", "Mathematics II", 8);
        add_course(&mut s, "CS103", "Data Structures", 8);
        add_course(&mut s, "CS111", "Data Structures Lab", 3);
        add_course(&mut s, "CS104", "Computer Organization", 8);
        add_course(&mut s, "EC103", "Basic Electronic Circuits", 8);
        add_course(&mut s, "EC111", "Basic Electronics Lab", 3);
        add_course(&mut s, "HSXXX", "HSS Elective", 6);
        proof {
            assert(s.course_credit@ =~= spec_course_credits(sem_no));
        }
        Some(s)
    } else if sem_no.number == 3 && sem_no.variant == 0 {
        let mut s = empty_semester(sem_no, 130);
        add_course(&mut s, "MA203", "Mathematics III", 6);
        add_course(&mut s, "MA205", "Discrete Mathematics", 6);
        add_course(&mut s, "CS201", "Algorithms", 6);
        add_course(&mut s, "CS210", "Algorithm Lab", 3);
        add_course(&mut s, "CS202", "IT Workshop I", 7);
        add_course(&mut s, "SC201", "Physics I", 6);
        add_course(&mut s, "HSXXX", "HSS Elective", 6);
        proof {
            assert(s.course_credit@ =~= spec_course_credits(sem_no));
        }
        Some(s)
    } else if sem_no.number == 4 && sem_no.variant == 0 {
        let mut s = empty_semester(sem_no, 176);
        add_course(&mut s, "CS205", "Optimization Techniques", 6);
        add_course(&mut s, "CS231", "Operating Systems", 6);
        add_course(&mut s, "CS232", "Operating Systems Lab", 3);
        add_course(&mut s, "CS235", "Artificial Intelligence", 6);
        add_course(&mut s, "CS236", "Artificial Intelligence Lab", 3);
        add_course(&mut s, "CS240", "Database Management Systems", 6);
        add_course(&mut s, "CS241", "DBMS Lab", 4);
        add_course(&mut s, "SC202", "Chemistry", 6);
        add_course(&mut s, "HSXXX", "HSS Elective", 6);
        proof {
            assert(s.course_credit@ =~= spec_course_credits(sem_no));
        }
        Some(s)
    } else if sem_no.number == 5 && sem_no.variant == 0 {
        let mut s = empty_semester(sem_no, 220);
        add_course(&mut s, "CS301", "Theory of Computation", 6);
        add_course(&mut s, "CS352", "Computer Networks", 6);
        add_course(&mut s, "CS353", "Computer Networks Lab", 4);
        add_course(&mut s, "CS306", "Machine Learning", 6);
        add_course(&mut s, "CS360", "Machine Learning Lab", 3);
        add_course(&mut s, "CS351", "IT Workshop III : Cloud Computing", 7);
        add_course(&mut s, "SC301", "Biology", 6);
        add_course(&mut s, "HSXXX", "HSS Elective", 6);
        proof {
            assert(s.course_credit@ =~= spec_course_credits(sem_no));
        }
        Some(s)
    } else if sem_no.number == 6 && sem_no.variant == 0 {
        let mut s = empty_semester(sem_no, 262);
        add_course(&mut s, "CS330", "Software Engineering", 6);
        add_course(&mut s, "CS331", "Software Engineering Lab", 3);
        add_course(&mut s, "CS320", "Compilers", 6);
        add_course(&mut s, "CS321", "Compilers Lab", 3);
        add_course(&mut s, "CS361", "Computer Security", 6);
        add_course(&mut s, "SC302", "Physics II", 6);
        add_course(&mut s, "CS300", "Project-I / Elective - I", 6);
        add_course(&mut s, "HSXXX", "HSS Elective", 6);
        proof {
            assert(s.course_credit@ =~= spec_course_credits(sem_no));
        }
        Some(s)
    } else if sem_no.number == 7 && sem_no.variant == 1 {
        let mut s = empty_semester(sem_no, 292);
        add_course(&mut s, "CS401", "Data Analytics", 6);
        add_course(&mut s, "CS4XX", "Open Elective", 6);
        add_course(&mut s, "CS4XX", "Elective I", 6);
        add_course(&mut s, "CS4XX", "Elective II", 6);
        add_course(&mut s, "HSXXX", "HSS Elective", 6);
        proof {
            assert(s.course_credit@ =~= spec_course_credits(sem_no));
        }
        Some(s)
    } else if sem_no.number == 7 && sem_no.variant == 2 {
        let mut s = empty_semester(sem_no, 292);
        add_course(&mut s, "CS401", "Data Analytics", 6);
        add_course(&mut s, "CS4XX", "Open Elective", 6);
        add_course(&mut s, "CS4XX", "Elective I", 6);
        add_course(&mut s, "CS400", "Project II", 6);
        add_course(&mut s, "HSXXX", "HSS Elective", 6);
        proof {
            assert(s.course_credit@ =~= spec_course_credits(sem_no));
        }
        Some(s)
    } else if sem_no.number == 8 && sem_no.variant == 1 {
        let mut s = empty_semester(sem_no, 322);
        add_course(&mut s, "CS4XX", "Elective", 6);
        add_course(&mut s, "CS4XX", "Elective", 6);
        add_course(&mut s, "CS4XX", "Elective", 6);
        add_course(&mut s, "CS4XX", "Elective", 6);
        add_course(&mut s, "HS4XX", "Elective (HSS)", 6);
        proof {
            assert(s.course_credit@ =~= spec_course_credits(sem_no));
        }
        Some(s)
    } else if sem_no.number == 8 && sem_no.variant == 2 {
        let mut s = empty_semester(sem_no, 322);
        add_course(&mut s, "CS4XX", "Elective", 6);
        add_course(&mut s, "HS4XX", "Elective (HSS)", 6);
        add_course(&mut s, "CS410", "Project III", 18);
        proof {
            assert(s.course_credit@ =~= spec_course_credits(sem_no));
        }
        Some(s)
    } else if sem_no.number == 8 && sem_no.variant == 3 {
        let mut s = empty_semester(sem_no, 322);
        add_course(&mut s, "CS4XX", "Elective", 6);
        add_course(&mut s, "HS4XX", "Elective (HSS)", 6);
        add_course(&mut s, "CS411", "Internship", 18);
        proof {
            assert(s.course_credit@ =~= spec_course_credits(sem_no));
        }
        Some(s)
    } else {
        None
    }
}

/// Consistency of the catalog's credit columns: each semester's stated total
/// is the sum of its course credit weights, totals are positive, and the
/// cumulative credit is at least the semester's own total.
pub proof fn lemma_catalog_totals(id: SemesterId)
    requires
        is_valid_sem_id(id),
    ensures
        credit_sum(spec_course_credits(id)) == spec_total_credit(id),
        spec_total_credit(id) > 0,
        spec_cumulative_credit(id) >= spec_total_credit(id),
{
    reveal_with_fuel(credit_sum_prefix, 11);
    if id.number == 1 {
        assert(credit_sum(seq![8u32, 6, 3, 8, 3, 8, 4, 6]) == 46);
    } else if id.number == 2 {
        assert(credit_sum(seq![8u32, 8, 3, 8, 8, 3, 6]) == 44);
    } else if id.number == 3 {
        assert(credit_sum(seq![6u32, 6, 6, 3, 7, 6, 6]) == 40);
    } else if id.number == 4 {
        assert(credit_sum(seq![6u32, 6, 3, 6, 3, 6, 4, 6, 6]) == 46);
    } else if id.number == 5 {
        assert(credit_sum(seq![6u32, 6, 4, 6, 3, 7, 6, 6]) == 44);
    } else if id.number == 6 {
        assert(credit_sum(seq![6u32, 3, 6, 3, 6, 6, 6, 6]) == 42);
    } else if id.number == 7 || (id.number == 8 && id.variant == 1) {
        assert(credit_sum(seq![6u32, 6, 6, 6, 6]) == 30);
    } else {
        assert(credit_sum(seq![6u32, 6, 18]) == 30);
    }
}

/// Cumulative credit never decreases along the curriculum order of the
/// catalog's keys.
pub proof fn lemma_cumulative_monotone(a: SemesterId, b: SemesterId)
    requires
        is_valid_sem_id(a),
        is_valid_sem_id(b),
        sem_rank(a) <= sem_rank(b),
    ensures
        spec_cumulative_credit(a) <= spec_cumulative_credit(b),
{
}

} // verus!
