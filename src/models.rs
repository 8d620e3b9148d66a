use vstd::prelude::*;

verus! {

/// A stored puzzle source: a quotation and who said it.
pub struct Message {
    pub id: i32,
    pub message: String,
    pub patristocrat_hint: Option<String>,
    pub attribution: Option<String>,
}

/// A registered user.
pub struct User {
    pub id: String,
    pub username: String,
    pub email: Option<String>,
    pub password_hash: String,
    pub solved: i32,
    pub experience: i32,
}

/// A recorded solve.
pub struct Solve {
    pub id: i32,
    pub puzzle_type: i16,
    pub message_id: i32,
    pub solver: String,
    pub time_taken: i32,
    pub exp_gained: i32,
}

} // verus!
