//! Plain records of the school application around the chat: users, roles,
//! courses, tasks and the filters of its listings.

use crate::text::{decimal, push_decimal, same_text};
use vstd::prelude::*;
use vstd::string::*;

verus! {

/// The role under which a user acts.
#[allow(non_camel_case_types)]
#[derive(Debug, Clone, Copy, PartialEq, Eq, Structural)]
pub enum Role {
    admin,
    teacher,
    student,
    preceptor,
    father,
}

/// An authenticated identity: who a connection or a request belongs to.
#[derive(Debug, Clone, Copy, PartialEq, Eq, Structural)]
pub struct MySelf {
    pub role: Role,
    pub id: u64,
}

/// Types that are made from an identifier and a role.
pub trait New: Sized {
    /// What `new` returns for an identifier and a role.
    spec fn made_from(id: u64, role: Role) -> Self;

    fn new(id: u64, role: Role) -> (made: Self)
        ensures
            made == Self::made_from(id, role),
    ;
}

impl MySelf {
    /// The identity with the given identifier and role.
    pub fn new(id: u64, role: Role) -> (me: Self)
        ensures
            me == (MySelf { role, id }),
    {
        Self { role, id }
    }
}

impl New for MySelf {
    open spec fn made_from(id: u64, role: Role) -> Self {
        MySelf { role, id }
    }

    fn new(id: u64, role: Role) -> (made: Self) {
        Self { role, id }
    }
}

/// The claims of a session token.
#[derive(Debug, Clone)]
pub struct Claims {
    pub subject: usize,
    pub exp: usize,
    pub role: Role,
}

/// A user as the store holds it.
#[derive(Debug, Clone)]
pub struct User {
    pub id: u64,
    pub password: String,
    pub email: String,
    pub role: Role,
    pub last_login: String,
}

/// A user to register.
#[derive(Debug, Clone)]
pub struct NewUser {
    pub password: String,
    pub email: String,
    pub role: Role,
}

/// What a user logs in with.
#[derive(Debug, Clone)]
pub struct Credentials {
    pub email: String,
    pub password: String,
}

/// What a user logs in with, and the role to act under.
#[derive(Debug, Clone)]
pub struct CredentialsRole {
    pub email: String,
    pub password: String,
    pub role: Role,
}

/// The kind of an assessment.
#[derive(Debug, Clone, Copy, PartialEq, Eq, Structural)]
pub enum AssessmentType {
    Exam,
    Homework,
    Project,
    Oral,
    Remedial,
    Selfassessable,
}

/// The level of a course.
#[derive(Debug, Clone, Copy, PartialEq, Eq, Structural)]
pub enum Level {
    Primary,
    Secondary,
}

/// The shift of a course.
#[derive(Debug, Clone, Copy, PartialEq, Eq, Structural)]
pub enum Shift {
    Morning,
    Afternoon,
}

/// A course: one division of one year.
#[derive(Debug, Clone)]
pub struct Course {
    pub id: u64,
    pub year: i32,
    pub division: String,
    pub level: Level,
    pub shift: Shift,
    pub preceptor_id: Option<u64>,
}

/// The scale of a grade.
#[derive(Debug, Clone, Copy, PartialEq, Eq, Structural)]
pub enum GradeType {
    Numerical,
    Conceptual,
    Percentage,
}

/// How many grades a school year is set up with.
#[derive(Debug, Clone, Copy)]
pub struct Grades {
    pub primary: u8,
    pub secondary: u8,
    pub divitions: u8,
}

/// A notice to the courses named in `courses`.
#[derive(Debug, Clone)]
pub struct NewMessage {
    pub courses: String,
    pub title: String,
    pub message: String,
}

/// An assessment to create for a subject.
#[derive(Debug, Clone)]
pub struct NewTask {
    pub subject: u64,
    pub task: String,
    pub due_date: String,
    pub type_: AssessmentType,
}

/// Where the photo of a profile is found.
#[derive(Debug, Clone)]
pub struct PhotoUrlResponse {
    pub url: String,
}

/// A subject of a course, with its teacher.
#[derive(Debug, Clone)]
pub struct Subject {
    pub id: u64,
    pub name: String,
    pub teacher_id: u64,
    pub course_id: u64,
}

/// One task of a self-assessable test: the right answer and the wrong ones.
#[derive(Debug, Clone)]
pub struct Selfassessable {
    pub correct: String,
    pub incorrect1: String,
    pub incorrect2: Option<String>,
    pub incorrect3: Option<String>,
    pub incorrect4: Option<String>,
}

/// What a [`Selfassessable`] holds, with its texts as character sequences.
pub struct SelfassessableView {
    pub correct: Seq<char>,
    pub incorrect1: Seq<char>,
    pub incorrect2: Option<Seq<char>>,
    pub incorrect3: Option<Seq<char>>,
    pub incorrect4: Option<Seq<char>>,
}

impl View for Selfassessable {
    type V = SelfassessableView;

    open spec fn view(&self) -> SelfassessableView {
        SelfassessableView {
            correct: self.correct@,
            incorrect1: self.incorrect1@,
            incorrect2: crate::protocol::text_of(self.incorrect2),
            incorrect3: crate::protocol::text_of(self.incorrect3),
            incorrect4: crate::protocol::text_of(self.incorrect4),
        }
    }
}

/// The answers a student hands in for a self-assessable test.
#[derive(Debug, Clone)]
pub struct NewSubmissionSelfAssessable {
    pub assessment_id: u64,
    pub answers: Vec<String>,
}

/// Which answer of a task was handed in: 1 for the right one, 2 to 5 for the
/// first to the fourth wrong one, 0 for a text that is none of them. Where
/// two answers of the task are the same text, the first of them counts.
pub open spec fn answer_index(task: SelfassessableView, submitted: Seq<char>) -> u64 {
    if task.correct == submitted {
        1
    } else if task.incorrect1 == submitted {
        2
    } else if task.incorrect2 == Some(submitted) {
        3
    } else if task.incorrect3 == Some(submitted) {
        4
    } else if task.incorrect4 == Some(submitted) {
        5
    } else {
        0
    }
}

/// The indices of the answers handed in, task by task, for as many tasks as
/// have an answer.
pub open spec fn graded(tasks: Seq<Selfassessable>, answers: Seq<String>) -> Seq<u64> {
    Seq::new(
        if tasks.len() <= answers.len() {
            tasks.len()
        } else {
            answers.len()
        },
        |i: int| answer_index(tasks[i]@, answers[i]@),
    )
}

/// Numbers in decimal, with a comma between one and the next.
pub open spec fn comma_separated(numbers: Seq<u64>) -> Seq<char>
    decreases numbers.len(),
{
    if numbers.len() == 0 {
        Seq::empty()
    } else if numbers.len() == 1 {
        decimal(numbers[0] as nat)
    } else {
        comma_separated(numbers.drop_last()) + seq![','] + decimal(numbers.last() as nat)
    }
}

fn is_answer(option: &Option<String>, submitted: &str) -> (same: bool)
    ensures
        same == (crate::protocol::text_of(*option) == Some(submitted@)),
{
    match option {
        Some(text) => same_text(text.as_str(), submitted),
        None => false,
    }
}

impl Selfassessable {
    /// Which of the answers a text is.
    pub fn index_of(&self, submitted: &str) -> (index: u64)
        ensures
            index == answer_index(self@, submitted@),
    {
        if same_text(self.correct.as_str(), submitted) {
            1
        } else if same_text(self.incorrect1.as_str(), submitted) {
            2
        } else if is_answer(&self.incorrect2, submitted) {
            3
        } else if is_answer(&self.incorrect3, submitted) {
            4
        } else if is_answer(&self.incorrect4, submitted) {
            5
        } else {
            0
        }
    }
}

impl NewSubmissionSelfAssessable {
    /// Grades the answers against the tasks of the test: the index of each
    /// answer handed in, separated by commas.
    pub fn get_answers(&self, tasks: &Vec<Selfassessable>) -> (indices: String)
        ensures
            indices@ == comma_separated(graded(tasks@, self.answers@)),
    {
        let count = if tasks.len() <= self.answers.len() {
            tasks.len()
        } else {
            self.answers.len()
        };
        let ghost all = graded(tasks@, self.answers@);
        let mut indices = String::new();
        let mut i: usize = 0;
        while i < count
            invariant
                i <= count,
                count == all.len(),
                count <= tasks@.len(),
                count <= self.answers@.len(),
                all == graded(tasks@, self.answers@),
                indices@ == comma_separated(all.take(i as int)),
            decreases count - i,
        {
            let index = tasks[i].index_of(self.answers[i].as_str());
            proof {
                reveal_strlit(",");
                let next = all.take(i as int + 1);
                assert(next.drop_last() =~= all.take(i as int));
                assert(next.last() == index);
                assert(",".view() =~= seq![',']);
            }
            if i > 0 {
                indices.append(",");
            }
            push_decimal(&mut indices, index);
            assert(indices@ =~= comma_separated(all.take(i as int + 1)));
            i += 1;
        }
        assert(all.take(count as int) =~= all);
        indices
    }
}

/// A self-assessable test as its author writes it: one column per kind of
/// answer, one row per question.
#[derive(Debug, Clone)]
pub struct NewSelfassessable {
    pub questions: Vec<String>,
    pub correct: Vec<String>,
    pub incorrect1: Vec<String>,
    pub incorrect2: Option<Vec<String>>,
    pub incorrect3: Option<Vec<String>>,
    pub incorrect4: Option<Vec<String>>,
}

/// Whether an optional column has as many rows as `rows`.
pub open spec fn column_fits(column: Option<Vec<String>>, rows: nat) -> bool {
    match column {
        Some(answers) => answers@.len() == rows,
        None => true,
    }
}

impl NewSelfassessable {
    /// Whether every column that is present has one row per question.
    pub open spec fn is_rectangular(&self) -> bool {
        let rows = self.correct@.len();
        &&& self.incorrect1@.len() == rows
        &&& self.questions@.len() == rows
        &&& column_fits(self.incorrect2, rows)
        &&& column_fits(self.incorrect3, rows)
        &&& column_fits(self.incorrect4, rows)
    }

    /// Checks that the test is rectangular.
    pub fn validate(&self) -> (valid: bool)
        ensures
            valid == self.is_rectangular(),
    {
        if self.correct.len() != self.incorrect1.len() {
            return false;
        }
        if self.correct.len() != self.questions.len() {
            return false;
        }
        if let Some(v) = &self.incorrect2 {
            if self.correct.len() != v.len() {
                return false;
            }
        }
        if let Some(v) = &self.incorrect3 {
            if self.correct.len() != v.len() {
                return false;
            }
        }
        if let Some(v) = &self.incorrect4 {
            if self.correct.len() != v.len() {
                return false;
            }
        }
        true
    }
}

/// A task together with the self-assessable test that may come with it.
#[derive(Debug, Clone)]
pub struct Payload {
    pub newtask: NewTask,
    pub newselfassessable: Option<NewSelfassessable>,
}

/// Which assessments a listing asks for.
#[derive(Debug, Clone)]
pub struct AssessmentFilter {
    pub subject_id: Option<u64>,
    pub task: Option<String>,
    pub due: Option<bool>,
}

/// Which grades a listing asks for.
#[derive(Debug, Clone)]
pub struct GradeFilter {
    pub subject_id: Option<u64>,
    pub student_id: Option<u64>,
    pub description: Option<String>,
}

/// Which notices a listing asks for.
#[derive(Debug, Clone)]
pub struct MessageFilter {
    pub sender_id: Option<u64>,
    pub title: Option<String>,
    pub course_id: Option<u64>,
}

/// Which subjects a listing asks for.
#[derive(Debug, Clone)]
pub struct SubjectFilter {
    pub teacher_id: Option<u64>,
    pub course_id: Option<u64>,
    pub name: Option<String>,
}

/// Which users a listing asks for.
#[derive(Debug, Clone)]
pub struct UserFilter {
    pub course: Option<u64>,
    pub name: Option<String>,
    pub id: Option<u64>,
}

/// The window of a chat's history that a listing asks for.
#[derive(Debug, Clone, Copy)]
pub struct MessageQueryParams {
    pub limit: Option<i64>,
    pub offset: Option<i64>,
}

/// The users to add to a group chat.
#[derive(Debug, Clone)]
pub struct AddParticipantsRequest {
    pub user_ids: Vec<u64>,
}

} // verus!
