//! The interactive session: the state the view layer owns (selections,
//! entered grade text, computed results, the pending error) and a verified
//! transition function from state and event to the next state.  The view
//! layer only renders this state and feeds events back; it computes nothing.

use vstd::prelude::*;

use crate::functions::{
    all_digits, calc_spi, calculate_cpi_option3, digits_val, grade_of, lemma_first_bad_at_most,
    pow10, spec_calc_cpi, spec_calc_spi, spec_validate_token, token_views, validate_grade_token,
    EngineError, TokenCheck, MAX_SCORE,
};
use crate::semdata::{get_semesters, is_valid_sem_id, spec_course_credits, spec_cumulative_credit,
    spec_total_credit, Semester, SemesterId};

verus! {

/// An event of the view layer.
#[derive(Debug)]
pub enum Msg {
    SelectCalcType(String),
    SelectSemester(String),
    SelectSemOption(String),
    UpdateGrade(usize, String),
    UpdateCpiOp1Var1(String),
    UpdateCpiOp2Var1(String),
    UpdateCpiOp2Var2(String),
    Calculate,
    Reset,
    ToggleGradeTable,
    SetDone,
    SelectCpiCalcOption(String),
}

/// Why the session has no result to show.  The view layer turns these into
/// user-facing messages; the core formats no text.
#[derive(Clone, Copy, PartialEq, Eq, Structural, Debug)]
pub enum SessionError {
    /// No semester has been selected yet.
    SemesterNotSelected,
    /// Semester 7 or 8 is selected but its track option is not.
    OptionNotSelected,
    /// The selected identifier is not a key of the catalog.
    SemesterNotFound,
    /// Some grade field is still empty.
    GradesMissing,
    /// Some grade field holds text that is not a grade in 0..=10.
    GradesInvalid,
    /// The number of grades does not match the course count.
    GradeCountMismatch,
    /// A zero credit total was met (defensive; the catalog has none).
    DegenerateSemester,
    /// A single grade entry was rejected as it was typed.
    InvalidGradeEntry,
    /// The previous-CPI field does not hold a value in 0..=10.
    InvalidPreviousCpi,
    /// The current-SPI field does not hold a value in 0..=10.
    InvalidCurrentSpi,
    /// CPI was requested for a later semester without choosing how.
    CpiOptionNotSelected,
    /// Neither SPI nor CPI calculation has been chosen.
    CalcTypeNotSelected,
    /// The semester selection was never confirmed.
    DoneNotConfirmed,
    /// Nothing could be computed from the current inputs.
    NothingComputed,
}

/// The session state.  `calc_type` is 0 for SPI and 1 for CPI;
/// `calc_cpi_option` is 1 for blending freshly entered grades and 2 for
/// blending an already-known SPI.  Scores are in ten-thousandths of a grade
/// point.
pub struct App {
    pub calc_type: Option<u32>,
    pub sem_no: Option<u32>,
    pub sem_option: Option<u32>,
    pub sem_id: Option<SemesterId>,
    pub done_1: bool,
    pub sem_info: Option<Semester>,
    pub grades: Vec<String>,
    pub calculated_spi: Option<u32>,
    pub calculated_cpi: Option<u32>,
    pub show_grade_table: bool,
    pub calc_cpi_option: Option<u32>,
    pub cpi_op1_var1_str: String,
    pub cpi_op2_var1_str: String,
    pub cpi_op2_var2_str: String,
    pub error_message: Option<SessionError>,
}

/// A plain decimal index as the view layer's select boxes send it: one to
/// six digits and nothing else.
pub open spec fn spec_parse_index(s: Seq<char>) -> Option<u32> {
    if 1 <= s.len() <= 6 && all_digits(s, 0, s.len() as int) {
        Some(digits_val(s, 0, s.len() as int) as u32)
    } else {
        None
    }
}

fn parse_index(text: &str) -> (r: Option<u32>)
    ensures
        r == spec_parse_index(text@),
{
    let n = text.unicode_len();
    if n < 1 || n > 6 {
        return None;
    }
    let mut i: usize = 0;
    let mut v: u32 = 0;
    while i < n
        invariant
            n == text@.len(),
            1 <= n <= 6,
            i <= n,
            all_digits(text@, 0, i as int),
            v == digits_val(text@, 0, i as int),
            v < pow10(i as int),
        decreases n - i,
    {
        let cv = text.get_char(i) as u32;
        if cv < 48 || cv > 57 {
            return None;
        }
        proof {
            reveal_with_fuel(pow10, 7);
        }
        v = v * 10 + (cv - 48);
        i += 1;
    }
    Some(v)
}

impl App {
    /// The session invariant: the semester number and identifier travel
    /// together, loaded course data belongs to the selected identifier with
    /// one grade field per course, and stored scores are on the scale.
    pub open spec fn wf(self) -> bool {
        &&& (self.sem_no is Some <==> self.sem_id is Some)
        &&& (self.sem_id matches Some(id) ==> self.sem_no == Some(id.number))
        &&& (self.sem_info matches Some(info) ==> {
            &&& self.sem_id matches Some(id)
            &&& info.sem_no == id
            &&& is_valid_sem_id(id)
            &&& info.wf()
            &&& self.grades@.len() == info.course_code@.len()
        })
        &&& (self.calculated_spi matches Some(v) ==> v <= MAX_SCORE)
        &&& (self.calculated_cpi matches Some(v) ==> v <= MAX_SCORE)
    }

    /// The state a fresh session starts in, and that `Reset` restores.
    pub open spec fn is_initial(self) -> bool {
        &&& self.calc_type is None
        &&& self.sem_no is None
        &&& self.sem_option is None
        &&& self.sem_id is None
        &&& self.done_1 == false
        &&& self.sem_info is None
        &&& self.grades@.len() == 0
        &&& self.calculated_spi is None
        &&& self.calculated_cpi is None
        &&& self.show_grade_table == false
        &&& self.calc_cpi_option is None
        &&& self.cpi_op1_var1_str@.len() == 0
        &&& self.cpi_op2_var1_str@.len() == 0
        &&& self.cpi_op2_var2_str@.len() == 0
        &&& self.error_message is None
    }

    pub fn create() -> (app: App)
        ensures
            app.is_initial(),
            app.wf(),
    {
        App {
            calc_type: None,
            sem_no: None,
            sem_option: None,
            sem_id: None,
            done_1: false,
            sem_info: None,
            grades: Vec::new(),
            calculated_spi: None,
            calculated_cpi: None,
            show_grade_table: false,
            calc_cpi_option: None,
            cpi_op1_var1_str: String::new(),
            cpi_op2_var1_str: String::new(),
            cpi_op2_var2_str: String::new(),
            error_message: None,
        }
    }
}

/// What clearing the semester-dependent state leaves behind.
pub open spec fn dep_state_cleared(post: App) -> bool {
    &&& post.sem_info is None
    &&& post.grades@.len() == 0
    &&& post.calculated_spi is None
    &&& post.calculated_cpi is None
    &&& post.calc_cpi_option is None
    &&& post.cpi_op1_var1_str@.len() == 0
    &&& post.cpi_op2_var1_str@.len() == 0
    &&& post.cpi_op2_var2_str@.len() == 0
    &&& post.error_message is None
}

/// The identifier after a track option is chosen: semesters 7 and 8 carry
/// the option as their variant, any other keeps variant 0, and with no
/// semester selected the identifier is left alone.
pub open spec fn spec_sem_id_with_option(
    sem_no: Option<u32>,
    opt: Option<u32>,
    old_id: Option<SemesterId>,
) -> Option<SemesterId> {
    match (sem_no, opt) {
        (Some(sem), Some(o)) => {
            if sem == 7 || sem == 8 {
                Some(SemesterId { number: sem, variant: o })
            } else {
                Some(SemesterId { number: sem, variant: 0 })
            }
        },
        _ => old_id,
    }
}

/// How loading the selected semester's data changes the session.
pub open spec fn load_rel(pre: App, post: App) -> bool {
    match pre.sem_id {
        None => {
            &&& post.sem_info == pre.sem_info
            &&& post.grades == pre.grades
            &&& post.error_message == pre.error_message
        },
        Some(id) => {
            if is_valid_sem_id(id) {
                &&& post.sem_info matches Some(info)
                &&& post.sem_info matches Some(info) ==> {
                    &&& info.sem_no == id
                    &&& info.wf()
                    &&& info.course_code@.len() == spec_course_credits(id).len()
                    &&& info.course_credit@ == spec_course_credits(id)
                    &&& info.total_credit == spec_total_credit(id)
                    &&& info.total_credit_till_sem == spec_cumulative_credit(id)
                }
                &&& post.grades@.len() == spec_course_credits(id).len()
                &&& forall|k: int| 0 <= k < post.grades@.len() ==> post.grades@[k]@.len() == 0
                &&& post.error_message is None
            } else {
                &&& post.sem_info is None
                &&& post.grades@.len() == 0
                &&& post.error_message == Some(SessionError::SemesterNotFound)
            }
        },
    }
}

/// The session error a rejected engine computation is shown as.
pub open spec fn spec_engine_error_kind(e: EngineError) -> SessionError {
    match e {
        EngineError::NotFound => SessionError::SemesterNotFound,
        EngineError::CountMismatch => SessionError::GradeCountMismatch,
        EngineError::MissingGrade => SessionError::GradesMissing,
        EngineError::InvalidGrade => SessionError::GradesInvalid,
        EngineError::DegenerateSemester => SessionError::DegenerateSemester,
    }
}

/// Whether some grade field is still empty.
pub open spec fn spec_has_empty_token(ts: Seq<Seq<char>>) -> bool {
    exists|k: int| 0 <= k < ts.len() && ts[k].len() == 0
}

/// Whether the pending calculation needs an SPI from the entered grades:
/// always for SPI, and for CPI when semester 1 or the grade-entry option is
/// in play.
pub open spec fn spec_needs_spi(pre: App) -> bool {
    ||| pre.calc_type == Some(0u32)
    ||| (pre.calc_type == Some(1u32) && (pre.sem_no == Some(1u32) || pre.calc_cpi_option == Some(
        1u32,
    )))
}

/// The SPI phase of a calculation: (computed SPI, error so far).
pub open spec fn spec_spi_phase(pre: App, id: SemesterId) -> (Option<u32>, Option<SessionError>) {
    if !spec_needs_spi(pre) {
        (None, None)
    } else {
        let ts = token_views(pre.grades@);
        if spec_has_empty_token(ts) {
            (None, Some(SessionError::GradesMissing))
        } else {
            match spec_calc_spi(id, ts) {
                Ok(v) => (Some(v), None),
                Err(e) => (None, Some(spec_engine_error_kind(e))),
            }
        }
    }
}

/// The CPI phase of a calculation, fed the SPI phase's outcome: the final
/// (shown SPI, shown CPI, error).
pub open spec fn spec_cpi_phase(
    pre: App,
    id: SemesterId,
    spi: Option<u32>,
    err: Option<SessionError>,
) -> (Option<u32>, Option<u32>, Option<SessionError>) {
    if pre.calc_type == Some(1u32) {
        if pre.sem_no == Some(1u32) {
            (spi, spi, err)
        } else if pre.calc_cpi_option == Some(1u32) {
            match spi {
                Some(v) => {
                    match spec_validate_token(pre.cpi_op1_var1_str@) {
                        TokenCheck::ValidGrade(p) => {
                            match spec_calc_cpi(id, p, v) {
                                Ok(c) => (spi, Some(c), err),
                                Err(e) => (spi, None, Some(spec_engine_error_kind(e))),
                            }
                        },
                        _ => (None, None, Some(SessionError::InvalidPreviousCpi)),
                    }
                },
                None => (None, None, err),
            }
        } else if pre.calc_cpi_option == Some(2u32) {
            let p = spec_validate_token(pre.cpi_op2_var1_str@);
            let sv = spec_validate_token(pre.cpi_op2_var2_str@);
            if !(p is ValidGrade) {
                (spi, None, Some(SessionError::InvalidPreviousCpi))
            } else if !(sv is ValidGrade) {
                (spi, None, Some(SessionError::InvalidCurrentSpi))
            } else {
                match spec_calc_cpi(id, grade_of(p), grade_of(sv)) {
                    Ok(c) => (Some(grade_of(sv)), Some(c), err),
                    Err(e) => (spi, None, Some(spec_engine_error_kind(e))),
                }
            }
        } else if pre.sem_no matches Some(sn) && sn > 1 {
            (spi, None, Some(SessionError::CpiOptionNotSelected))
        } else {
            (spi, None, err)
        }
    } else if pre.calc_type is None {
        (spi, None, Some(SessionError::CalcTypeNotSelected))
    } else {
        (spi, None, err)
    }
}

/// The full outcome of pressing Calculate in state `pre`: the final
/// (shown SPI, shown CPI, error).
pub open spec fn spec_calc_results(pre: App) -> (Option<u32>, Option<u32>, Option<SessionError>) {
    match pre.sem_id {
        None => (None, None, Some(SessionError::SemesterNotSelected)),
        Some(id) => {
            let sp = spec_spi_phase(pre, id);
            let out = spec_cpi_phase(pre, id, sp.0, sp.1);
            if out.0 is None && out.1 is None && out.2 is None {
                if !pre.done_1 {
                    (None, None, Some(SessionError::DoneNotConfirmed))
                } else {
                    (None, None, Some(SessionError::NothingComputed))
                }
            } else {
                out
            }
        },
    }
}

/// For semester 1 in CPI mode a calculation shows the CPI equal to the
/// shown SPI, with no blending; with a complete valid grade set both equal
/// that semester's SPI.
pub proof fn lemma_first_semester_cpi_equals_spi(pre: App)
    requires
        pre.wf(),
        pre.calc_type == Some(1u32),
        pre.sem_no == Some(1u32),
    ensures
        spec_calc_results(pre).1 == spec_calc_results(pre).0,
        pre.sem_id matches Some(id) ==> (spec_calc_spi(id, token_views(pre.grades@)) matches Ok(v)
            ==> spec_calc_results(pre).0 == Some(v)),
{
    let ts = token_views(pre.grades@);
    if spec_has_empty_token(ts) {
        let k = choose|k: int| 0 <= k < ts.len() && ts[k].len() == 0;
        lemma_first_bad_at_most(ts, 0, k);
    }
}

/// Fields a calculation never touches.
pub open spec fn calc_frame(pre: App, post: App) -> bool {
    &&& post.calc_type == pre.calc_type
    &&& post.sem_no == pre.sem_no
    &&& post.sem_option == pre.sem_option
    &&& post.sem_id == pre.sem_id
    &&& post.done_1 == pre.done_1
    &&& post.sem_info == pre.sem_info
    &&& post.grades == pre.grades
    &&& post.show_grade_table == pre.show_grade_table
    &&& post.calc_cpi_option == pre.calc_cpi_option
    &&& post.cpi_op1_var1_str == pre.cpi_op1_var1_str
    &&& post.cpi_op2_var1_str == pre.cpi_op2_var1_str
    &&& post.cpi_op2_var2_str == pre.cpi_op2_var2_str
}

/// The transition relation of the session: how each event maps the state
/// before it to the state after it.
pub open spec fn spec_update(pre: App, msg: Msg, post: App) -> bool {
    match msg {
        Msg::SelectCalcType(val) => {
            &&& post.calc_type == spec_parse_index(val@)
            &&& post.sem_no == pre.sem_no
            &&& post.sem_option == pre.sem_option
            &&& post.sem_id == pre.sem_id
            &&& post.done_1 == false
            &&& post.show_grade_table == pre.show_grade_table
            &&& dep_state_cleared(post)
        },
        Msg::SelectSemester(val) => {
            &&& post.calc_type == pre.calc_type
            &&& post.sem_no == spec_parse_index(val@)
            &&& post.sem_option is None
            &&& post.sem_id == (match spec_parse_index(val@) {
                Some(n) => Some(SemesterId { number: n, variant: 0 }),
                None => None::<SemesterId>,
            })
            &&& post.done_1 == false
            &&& post.show_grade_table == pre.show_grade_table
            &&& dep_state_cleared(post)
        },
        Msg::SelectSemOption(val) => {
            &&& post.calc_type == pre.calc_type
            &&& post.sem_no == pre.sem_no
            &&& post.sem_option == spec_parse_index(val@)
            &&& post.sem_id == spec_sem_id_with_option(pre.sem_no, spec_parse_index(val@), pre.sem_id)
            &&& post.done_1 == false
            &&& post.show_grade_table == pre.show_grade_table
            &&& dep_state_cleared(post)
        },
        Msg::SetDone => {
            &&& post.calc_type == pre.calc_type
            &&& post.sem_no == pre.sem_no
            &&& post.sem_option == pre.sem_option
            &&& post.sem_id == pre.sem_id
            &&& post.show_grade_table == pre.show_grade_table
            &&& post.calc_cpi_option == pre.calc_cpi_option
            &&& post.cpi_op1_var1_str == pre.cpi_op1_var1_str
            &&& post.cpi_op2_var1_str == pre.cpi_op2_var1_str
            &&& post.cpi_op2_var2_str == pre.cpi_op2_var2_str
            &&& post.calculated_spi is None
            &&& post.calculated_cpi is None
            &&& match pre.sem_no {
                None => {
                    &&& post.done_1 == false
                    &&& post.error_message == Some(SessionError::SemesterNotSelected)
                    &&& post.sem_info == pre.sem_info
                    &&& post.grades == pre.grades
                },
                Some(sem) => {
                    if (sem == 7 || sem == 8) && pre.sem_option is None {
                        &&& post.done_1 == false
                        &&& post.error_message == Some(SessionError::OptionNotSelected)
                        &&& post.sem_info == pre.sem_info
                        &&& post.grades == pre.grades
                    } else {
                        &&& post.done_1 == true
                        &&& load_rel(pre, post)
                    }
                },
            }
        },
        Msg::UpdateGrade(index, g) => {
            &&& post.calc_type == pre.calc_type
            &&& post.sem_no == pre.sem_no
            &&& post.sem_option == pre.sem_option
            &&& post.sem_id == pre.sem_id
            &&& post.done_1 == pre.done_1
            &&& post.sem_info == pre.sem_info
            &&& post.show_grade_table == pre.show_grade_table
            &&& post.calc_cpi_option == pre.calc_cpi_option
            &&& post.cpi_op1_var1_str == pre.cpi_op1_var1_str
            &&& post.cpi_op2_var1_str == pre.cpi_op2_var1_str
            &&& post.cpi_op2_var2_str == pre.cpi_op2_var2_str
            &&& post.calculated_spi is None
            &&& post.calculated_cpi is None
            &&& post.grades@.len() == pre.grades@.len()
            &&& if pre.sem_info is Some && index < pre.grades@.len() {
                if spec_validate_token(g@) is ValidGrade || spec_validate_token(g@) is Empty {
                    &&& token_views(post.grades@) == token_views(pre.grades@).update(
                        index as int,
                        g@,
                    )
                    &&& post.error_message is None
                } else {
                    &&& token_views(post.grades@) == token_views(pre.grades@)
                    &&& post.error_message == Some(SessionError::InvalidGradeEntry)
                }
            } else {
                &&& token_views(post.grades@) == token_views(pre.grades@)
                &&& post.error_message is None
            }
        },
        Msg::SelectCpiCalcOption(val) => {
            &&& post.calc_type == pre.calc_type
            &&& post.sem_no == pre.sem_no
            &&& post.sem_option == pre.sem_option
            &&& post.sem_id == pre.sem_id
            &&& post.done_1 == pre.done_1
            &&& post.sem_info == pre.sem_info
            &&& post.show_grade_table == pre.show_grade_table
            &&& post.calculated_spi is None
            &&& post.calculated_cpi is None
            &&& post.error_message is None
            &&& post.calc_cpi_option == spec_parse_index(val@)
            &&& post.cpi_op1_var1_str@.len() == 0
            &&& post.cpi_op2_var1_str@.len() == 0
            &&& post.cpi_op2_var2_str@.len() == 0
            &&& match pre.sem_info {
                Some(info) => {
                    &&& post.grades@.len() == info.course_code@.len()
                    &&& forall|k: int| 0 <= k < post.grades@.len() ==> post.grades@[k]@.len() == 0
                },
                None => post.grades@.len() == 0,
            }
        },
        Msg::UpdateCpiOp1Var1(val) => {
            &&& post.calc_type == pre.calc_type
            &&& post.sem_no == pre.sem_no
            &&& post.sem_option == pre.sem_option
            &&& post.sem_id == pre.sem_id
            &&& post.done_1 == pre.done_1
            &&& post.sem_info == pre.sem_info
            &&& post.grades == pre.grades
            &&& post.show_grade_table == pre.show_grade_table
            &&& post.calc_cpi_option == pre.calc_cpi_option
            &&& post.cpi_op1_var1_str@ == val@
            &&& post.cpi_op2_var1_str == pre.cpi_op2_var1_str
            &&& post.cpi_op2_var2_str == pre.cpi_op2_var2_str
            &&& post.calculated_spi is None
            &&& post.calculated_cpi is None
            &&& post.error_message is None
        },
        Msg::UpdateCpiOp2Var1(val) => {
            &&& post.calc_type == pre.calc_type
            &&& post.sem_no == pre.sem_no
            &&& post.sem_option == pre.sem_option
            &&& post.sem_id == pre.sem_id
            &&& post.done_1 == pre.done_1
            &&& post.sem_info == pre.sem_info
            &&& post.grades == pre.grades
            &&& post.show_grade_table == pre.show_grade_table
            &&& post.calc_cpi_option == pre.calc_cpi_option
            &&& post.cpi_op1_var1_str == pre.cpi_op1_var1_str
            &&& post.cpi_op2_var1_str@ == val@
            &&& post.cpi_op2_var2_str == pre.cpi_op2_var2_str
            &&& post.calculated_spi is None
            &&& post.calculated_cpi is None
            &&& post.error_message is None
        },
        Msg::UpdateCpiOp2Var2(val) => {
            &&& post.calc_type == pre.calc_type
            &&& post.sem_no == pre.sem_no
            &&& post.sem_option == pre.sem_option
            &&& post.sem_id == pre.sem_id
            &&& post.done_1 == pre.done_1
            &&& post.sem_info == pre.sem_info
            &&& post.grades == pre.grades
            &&& post.show_grade_table == pre.show_grade_table
            &&& post.calc_cpi_option == pre.calc_cpi_option
            &&& post.cpi_op1_var1_str == pre.cpi_op1_var1_str
            &&& post.cpi_op2_var1_str == pre.cpi_op2_var1_str
            &&& post.cpi_op2_var2_str@ == val@
            &&& post.calculated_spi is None
            &&& post.calculated_cpi is None
            &&& post.error_message is None
        },
        Msg::Calculate => {
            &&& calc_frame(pre, post)
            &&& post.calculated_spi == spec_calc_results(pre).0
            &&& post.calculated_cpi == spec_calc_results(pre).1
            &&& post.error_message == spec_calc_results(pre).2
        },
        Msg::Reset => post.is_initial(),
        Msg::ToggleGradeTable => {
            &&& post.calc_type == pre.calc_type
            &&& post.sem_no == pre.sem_no
            &&& post.sem_option == pre.sem_option
            &&& post.sem_id == pre.sem_id
            &&& post.done_1 == pre.done_1
            &&& post.sem_info == pre.sem_info
            &&& post.grades == pre.grades
            &&& post.calculated_spi == pre.calculated_spi
            &&& post.calculated_cpi == pre.calculated_cpi
            &&& post.show_grade_table == !pre.show_grade_table
            &&& post.calc_cpi_option == pre.calc_cpi_option
            &&& post.cpi_op1_var1_str == pre.cpi_op1_var1_str
            &&& post.cpi_op2_var1_str == pre.cpi_op2_var1_str
            &&& post.cpi_op2_var2_str == pre.cpi_op2_var2_str
            &&& post.error_message == pre.error_message
        },
    }
}

fn make_empty_grades(count: usize) -> (v: Vec<String>)
    ensures
        v@.len() == count,
        forall|k: int| 0 <= k < v@.len() ==> v@[k]@.len() == 0,
{
    let mut v: Vec<String> = Vec::new();
    let mut i: usize = 0;
    while i < count
        invariant
            i <= count,
            v@.len() == i,
            forall|k: int| 0 <= k < v@.len() ==> v@[k]@.len() == 0,
        decreases count - i,
    {
        v.push(String::new());
        i += 1;
    }
    v
}

fn has_empty_grade(grades: &Vec<String>) -> (r: bool)
    ensures
        r == spec_has_empty_token(token_views(grades@)),
{
    let mut i: usize = 0;
    while i < grades.len()
        invariant
            i <= grades@.len(),
            forall|k: int| 0 <= k < i ==> grades@[k]@.len() != 0,
        decreases grades@.len() - i,
    {
        if grades[i].as_str().is_empty() {
            proof {
                assert(token_views(grades@)[i as int].len() == 0);
            }
            return true;
        }
        i += 1;
    }
    false
}

fn engine_error_kind(e: EngineError) -> (r: SessionError)
    ensures
        r == spec_engine_error_kind(e),
{
    match e {
        EngineError::NotFound => SessionError::SemesterNotFound,
        EngineError::CountMismatch => SessionError::GradeCountMismatch,
        EngineError::MissingGrade => SessionError::GradesMissing,
        EngineError::InvalidGrade => SessionError::GradesInvalid,
        EngineError::DegenerateSemester => SessionError::DegenerateSemester,
    }
}

impl App {
    /// Clears everything that depends on the selected semester.
    fn reset_semester_dependent_state(&mut self)
        ensures
            dep_state_cleared(*final(self)),
            final(self).calc_type == old(self).calc_type,
            final(self).sem_no == old(self).sem_no,
            final(self).sem_option == old(self).sem_option,
            final(self).sem_id == old(self).sem_id,
            final(self).done_1 == old(self).done_1,
            final(self).show_grade_table == old(self).show_grade_table,
    {
        self.sem_info = None;
        self.grades = Vec::new();
        self.calculated_spi = None;
        self.calculated_cpi = None;
        self.calc_cpi_option = None;
        self.cpi_op1_var1_str = String::new();
        self.cpi_op2_var1_str = String::new();
        self.cpi_op2_var2_str = String::new();
        self.error_message = None;
    }

    /// Loads the course list of the selected identifier, making one empty
    /// grade field per course, or records that the identifier is unknown.
    fn load_semester_data(&mut self)
        ensures
            load_rel(*old(self), *final(self)),
            final(self).calc_type == old(self).calc_type,
            final(self).sem_no == old(self).sem_no,
            final(self).sem_option == old(self).sem_option,
            final(self).sem_id == old(self).sem_id,
            final(self).done_1 == old(self).done_1,
            final(self).show_grade_table == old(self).show_grade_table,
            final(self).calc_cpi_option == old(self).calc_cpi_option,
            final(self).cpi_op1_var1_str == old(self).cpi_op1_var1_str,
            final(self).cpi_op2_var1_str == old(self).cpi_op2_var1_str,
            final(self).cpi_op2_var2_str == old(self).cpi_op2_var2_str,
            final(self).calculated_spi == old(self).calculated_spi,
            final(self).calculated_cpi == old(self).calculated_cpi,
            old(self).sem_id is None ==> final(self).error_message == old(self).error_message,
    {
        if let Some(id) = self.sem_id {
            match get_semesters(id) {
                Some(info) => {
                    self.grades = make_empty_grades(info.course_code.len());
                    self.sem_info = Some(info);
                    self.error_message = None;
                },
                None => {
                    self.sem_info = None;
                    self.grades = Vec::new();
                    self.error_message = Some(SessionError::SemesterNotFound);
                },
            }
        }
    }

    /// Whether the grade-entry form applies to the current state: after a
    /// confirmed selection, for SPI always, and for CPI only for semester 1
    /// or the grade-entry option.
    pub open spec fn spec_should_show_grade_input(self) -> bool {
        &&& self.done_1
        &&& self.sem_info is Some
        &&& (self.calc_type == Some(0u32) || (self.calc_type == Some(1u32) && (self.sem_no == Some(
            1u32,
        ) || self.calc_cpi_option == Some(1u32))))
    }

    pub fn should_show_grade_input(&self) -> (r: bool)
        ensures
            r == self.spec_should_show_grade_input(),
    {
        if !self.done_1 || self.sem_info.is_none() {
            return false;
        }
        match self.calc_type {
            Some(0) => true,
            Some(1) => matches!(self.sem_no, Some(1)) || matches!(self.calc_cpi_option, Some(1)),
            _ => false,
        }
    }

    /// Runs the calculation the current state asks for, leaving the shown
    /// SPI, shown CPI and error exactly as the calculation outcome says.
    fn calculate_results(&mut self)
        requires
            old(self).wf(),
        ensures
            final(self).wf(),
            calc_frame(*old(self), *final(self)),
            final(self).calculated_spi == spec_calc_results(*old(self)).0,
            final(self).calculated_cpi == spec_calc_results(*old(self)).1,
            final(self).error_message == spec_calc_results(*old(self)).2,
    {
        self.calculated_spi = None;
        self.calculated_cpi = None;
        self.error_message = None;
        let id = match self.sem_id {
            Some(id) => id,
            None => {
                self.error_message = Some(SessionError::SemesterNotSelected);
                return ;
            },
        };
        let needs_spi = matches!(self.calc_type, Some(0)) || (matches!(self.calc_type, Some(1))
            && (matches!(self.sem_no, Some(1)) || matches!(self.calc_cpi_option, Some(1))));
        let mut spi_result: Option<u32> = None;
        if needs_spi {
            if has_empty_grade(&self.grades) {
                self.error_message = Some(SessionError::GradesMissing);
            } else {
                match calc_spi(id, &self.grades) {
                    Ok(v) => {
                        spi_result = Some(v);
                    },
                    Err(e) => {
                        self.error_message = Some(engine_error_kind(e));
                    },
                }
            }
        }
        if let Some(v) = spi_result {
            self.calculated_spi = Some(v);
        }
        if matches!(self.calc_type, Some(1)) {
            if matches!(self.sem_no, Some(1)) {
                if let Some(v) = spi_result {
                    self.calculated_cpi = Some(v);
                }
            } else if matches!(self.calc_cpi_option, Some(1)) {
                if let Some(v) = spi_result {
                    match validate_grade_token(self.cpi_op1_var1_str.as_str()) {
                        TokenCheck::ValidGrade(p) => {
                            match calculate_cpi_option3(id, p, v) {
                                Ok(c) => {
                                    self.calculated_cpi = Some(c);
                                },
                                Err(e) => {
                                    self.error_message = Some(engine_error_kind(e));
                                },
                            }
                        },
                        _ => {
                            self.error_message = Some(SessionError::InvalidPreviousCpi);
                            self.calculated_spi = None;
                        },
                    }
                }
            } else if matches!(self.calc_cpi_option, Some(2)) {
                let p = validate_grade_token(self.cpi_op2_var1_str.as_str());
                let sv = validate_grade_token(self.cpi_op2_var2_str.as_str());
                match (p, sv) {
                    (TokenCheck::ValidGrade(pv), TokenCheck::ValidGrade(svv)) => {
                        match calculate_cpi_option3(id, pv, svv) {
                            Ok(c) => {
                                self.calculated_cpi = Some(c);
                                self.calculated_spi = Some(svv);
                            },
                            Err(e) => {
                                self.error_message = Some(engine_error_kind(e));
                            },
                        }
                    },
                    (TokenCheck::ValidGrade(_), _) => {
                        self.error_message = Some(SessionError::InvalidCurrentSpi);
                    },
                    _ => {
                        self.error_message = Some(SessionError::InvalidPreviousCpi);
                    },
                }
            } else {
                let past_first = match self.sem_no {
                    Some(sn) => sn > 1,
                    None => false,
                };
                if past_first {
                    self.error_message = Some(SessionError::CpiOptionNotSelected);
                }
            }
        } else if self.calc_type.is_none() {
            self.error_message = Some(SessionError::CalcTypeNotSelected);
        }
        if self.calculated_spi.is_none() && self.calculated_cpi.is_none()
            && self.error_message.is_none() {
            if !self.done_1 {
                self.error_message = Some(SessionError::DoneNotConfirmed);
            } else {
                self.error_message = Some(SessionError::NothingComputed);
            }
        }
    }

    /// Applies one event to the session.  Every event asks the view layer
    /// to re-render, so the result is always `true`, as in a reducer that
    /// returns whether the state may have changed.
    pub fn update(&mut self, msg: Msg) -> (r: bool)
        requires
            old(self).wf(),
        ensures
            final(self).wf(),
            spec_update(*old(self), msg, *final(self)),
            r == true,
    {
        match msg {
            Msg::SelectCalcType(val) => {
                self.calc_type = parse_index(val.as_str());
                self.reset_semester_dependent_state();
                self.done_1 = false;
                true
            },
            Msg::SelectSemester(val) => {
                self.sem_no = parse_index(val.as_str());
                self.sem_option = None;
                self.sem_id = match self.sem_no {
                    Some(n) => Some(SemesterId { number: n, variant: 0 }),
                    None => None,
                };
                self.done_1 = false;
                self.reset_semester_dependent_state();
                true
            },
            Msg::SelectSemOption(val) => {
                self.sem_option = parse_index(val.as_str());
                if let (Some(sem), Some(opt)) = (self.sem_no, self.sem_option) {
                    if sem == 7 || sem == 8 {
                        self.sem_id = Some(SemesterId { number: sem, variant: opt });
                    } else {
                        self.sem_id = Some(SemesterId { number: sem, variant: 0 });
                    }
                }
                self.done_1 = false;
                self.reset_semester_dependent_state();
                true
            },
            Msg::SetDone => {
                self.calculated_spi = None;
                self.calculated_cpi = None;
                self.error_message = None;
                match self.sem_no {
                    Some(sem) => {
                        if (sem == 7 || sem == 8) && self.sem_option.is_none() {
                            self.error_message = Some(SessionError::OptionNotSelected);
                            self.done_1 = false;
                        } else {
                            self.done_1 = true;
                            self.load_semester_data();
                        }
                    },
                    None => {
                        self.error_message = Some(SessionError::SemesterNotSelected);
                        self.done_1 = false;
                    },
                }
                true
            },
            Msg::UpdateGrade(index, grade_str) => {
                self.calculated_spi = None;
                self.calculated_cpi = None;
                self.error_message = None;
                if self.sem_info.is_some() && index < self.grades.len() {
                    let chk = validate_grade_token(grade_str.as_str());
                    if matches!(chk, TokenCheck::ValidGrade(_)) || matches!(chk, TokenCheck::Empty) {
                        self.grades.set(index, grade_str);
                        self.error_message = None;
                        proof {
                            assert(token_views(self.grades@) =~= token_views(
                                old(self).grades@,
                            ).update(index as int, self.grades@[index as int]@));
                        }
                    } else {
                        self.error_message = Some(SessionError::InvalidGradeEntry);
                        proof {
                            assert(token_views(self.grades@) =~= token_views(old(self).grades@));
                        }
                    }
                } else {
                    proof {
                        assert(token_views(self.grades@) =~= token_views(old(self).grades@));
                    }
                }
                true
            },
            Msg::SelectCpiCalcOption(val) => {
                self.calculated_spi = None;
                self.calculated_cpi = None;
                self.error_message = None;
                self.calc_cpi_option = parse_index(val.as_str());
                self.cpi_op1_var1_str = String::new();
                self.cpi_op2_var1_str = String::new();
                self.cpi_op2_var2_str = String::new();
                let count = match &self.sem_info {
                    Some(info) => info.course_code.len(),
                    None => 0,
                };
                if self.sem_info.is_some() {
                    self.grades = make_empty_grades(count);
                } else {
                    self.grades = Vec::new();
                }
                true
            },
            Msg::UpdateCpiOp1Var1(val) => {
                self.calculated_spi = None;
                self.calculated_cpi = None;
                self.error_message = None;
                self.cpi_op1_var1_str = val;
                true
            },
            Msg::UpdateCpiOp2Var1(val) => {
                self.calculated_spi = None;
                self.calculated_cpi = None;
                self.error_message = None;
                self.cpi_op2_var1_str = val;
                true
            },
            Msg::UpdateCpiOp2Var2(val) => {
                self.calculated_spi = None;
                self.calculated_cpi = None;
                self.error_message = None;
                self.cpi_op2_var2_str = val;
                true
            },
            Msg::Calculate => {
                self.calculate_results();
                true
            },
            Msg::Reset => {
                self.calc_type = None;
                self.sem_no = None;
                self.sem_option = None;
                self.sem_id = None;
                self.done_1 = false;
                self.sem_info = None;
                self.grades = Vec::new();
                self.calculated_spi = None;
                self.calculated_cpi = None;
                self.show_grade_table = false;
                self.calc_cpi_option = None;
                self.cpi_op1_var1_str = String::new();
                self.cpi_op2_var1_str = String::new();
                self.cpi_op2_var2_str = String::new();
                self.error_message = None;
                true
            },
            Msg::ToggleGradeTable => {
                self.show_grade_table = !self.show_grade_table;
                true
            },
        }
    }
}

} // verus!
