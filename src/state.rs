use vstd::prelude::*;

verus! {

/// The content that the UI pass shows and edits: a name and an age.
pub struct AppState {
    pub name: String,
    pub age: i32,
}

impl AppState {
    pub fn new(name: String, age: i32) -> (s: Self)
        ensures
            s.name@ == name@,
            s.age == age,
    {
        AppState { name, age }
    }
}

} // verus!
