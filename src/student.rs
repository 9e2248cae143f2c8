use vstd::prelude::*;

verus! {

/// A student as a row of the `students` table holds it.
#[derive(Debug)]
pub struct Student {
    /// The primary key, assigned by the store on insert.
    pub id: i32,
    /// The student's first name.
    pub first_name: String,
    /// The student's last name.
    pub last_name: String,
}

/// The mathematical value of a `Student`.
pub struct StudentView {
    pub id: int,
    pub first_name: Seq<char>,
    pub last_name: Seq<char>,
}

impl View for Student {
    type V = StudentView;

    open spec fn view(&self) -> StudentView {
        StudentView { id: self.id as int, first_name: self.first_name@, last_name: self.last_name@ }
    }
}

impl Clone for Student {
    fn clone(&self) -> (r: Student)
        ensures
            r@ == self@,
    {
        Student { id: self.id, first_name: self.first_name.clone(), last_name: self.last_name.clone() }
    }
}

} // verus!
