//! A pallet that registers students under increasing ids and announces them
//! on request.
use crate::frame::{ensure_signed, AccountId, DispatchError, Origin};
use vstd::prelude::*;

verus! {

/// What the pallet announces.
#[derive(Clone, Debug, PartialEq, Eq)]
pub enum Event {
    StudentCreated { who: AccountId, student_id: u32, student_name: String },
    StudentRetrieved { who: AccountId, student_id: u32, student_name: String },
    AllStudentsRetrieved { who: AccountId, students: Vec<(u32, String)> },
}

/// Why the pallet refuses a call.
#[derive(Clone, Copy, Debug, PartialEq, Eq, Structural)]
pub enum Error {
    StudentNotFound,
}

/// A registered student as the contracts see it: id, who registered it, name.
pub type StudentView = (u32, AccountId, Seq<char>);

/// An event as the contracts see it.
pub enum EventView {
    StudentCreated { who: AccountId, student_id: u32, student_name: Seq<char> },
    StudentRetrieved { who: AccountId, student_id: u32, student_name: Seq<char> },
    AllStudentsRetrieved { who: AccountId, students: Seq<(u32, Seq<char>)> },
}

impl View for Event {
    type V = EventView;

    open spec fn view(&self) -> EventView {
        match self {
            Event::StudentCreated { who, student_id, student_name } => EventView::StudentCreated {
                who: *who,
                student_id: *student_id,
                student_name: student_name@,
            },
            Event::StudentRetrieved { who, student_id, student_name } => EventView::StudentRetrieved {
                who: *who,
                student_id: *student_id,
                student_name: student_name@,
            },
            Event::AllStudentsRetrieved { who, students } => EventView::AllStudentsRetrieved {
                who: *who,
                students: students@.map_values(|s: (u32, String)| (s.0, s.1@)),
            },
        }
    }
}

/// The students, in the order they were registered, and the events deposited
/// so far, as the contracts see them.
pub struct RegistryState {
    pub students: Seq<StudentView>,
    pub events: Seq<EventView>,
}

/// The ids of `students` increase strictly.
pub open spec fn ids_increasing(students: Seq<StudentView>) -> bool {
    forall|i: int, j: int| 0 <= i < j < students.len() ==> students[i].0 < students[j].0
}

/// The id the next student gets: one more than the largest id, or 1.
pub open spec fn next_student_id(students: Seq<StudentView>) -> int {
    if students.len() == 0 {
        1
    } else {
        students.last().0 + 1
    }
}

/// The registered students and the events deposited so far.
pub struct Pallet {
    students: Vec<(u32, AccountId, String)>,
    events: Vec<Event>,
}

impl View for Pallet {
    type V = RegistryState;

    closed spec fn view(&self) -> RegistryState {
        RegistryState {
            students: self.students@.map_values(|s: (u32, AccountId, String)| (s.0, s.1, s.2@)),
            events: self.events@.map_values(|e: Event| e@),
        }
    }
}

impl Pallet {
    /// The ids of the registered students increase in the order of registration.
    #[verifier::type_invariant]
    spec fn ids_in_order(self) -> bool {
        ids_increasing(self@.students)
    }

    /// Appends `event` to the events.
    fn deposit_event(&mut self, event: Event)
        ensures
            final(self)@.students == old(self)@.students,
            final(self)@.events == old(self)@.events.push(event@),
    {
        proof {
            use_type_invariant(&*self);
        }
        let mut events: Vec<Event> = Vec::new();
        std::mem::swap(&mut events, &mut self.events);
        events.push(event);
        self.events = events;
    }

    /// A registry with no students.
    pub fn new() -> (pallet: Self)
        ensures
            pallet@.students.len() == 0,
            pallet@.events.len() == 0,
    {
        Pallet { students: Vec::new(), events: Vec::new() }
    }

    /// The events deposited so far, oldest first.
    pub fn events(&self) -> (events: &Vec<Event>)
        ensures
            events@.map_values(|e: Event| e@) == self@.events,
    {
        &self.events
    }

    /// The signer registers a student named `student_name` under the next id.
    pub fn create_student(&mut self, origin: Origin, student_name: String) -> (result: Result<
        (),
        DispatchError<Error>,
    >)
        requires
            forall|i: int| 0 <= i < old(self)@.students.len() ==> #[trigger] old(self)@.students[i].0 < u32::MAX,
        ensures
            ids_increasing(final(self)@.students),
            match origin {
                Origin::Signed(who) => {
                    let id = next_student_id(old(self)@.students);
                    &&& result is Ok
                    &&& final(self)@.students == old(self)@.students.push((id as u32, who, student_name@))
                    &&& final(self)@.events == old(self)@.events.push(
                        EventView::StudentCreated { who, student_id: id as u32, student_name: student_name@ },
                    )
                },
                _ => result == Err::<(), DispatchError<Error>>(DispatchError::BadOrigin) && final(self)@ == old(self)@,
            },
    {
        proof {
            use_type_invariant(&*self);
        }
        let sender = ensure_signed(origin)?;
        let student_id: u32 = if self.students.len() == 0 {
            1
        } else {
            let last = self.students.len() - 1;
            self.students[last].0 + 1
        };
        let ghost before = self@;
        let name_copy = student_name.clone();
        let mut students: Vec<(u32, AccountId, String)> = Vec::new();
        std::mem::swap(&mut students, &mut self.students);
        students.push((student_id, sender, student_name));
        assert(students@.map_values(|s: (u32, AccountId, String)| (s.0, s.1, s.2@)) =~= before.students.push(
            (student_id, sender, name_copy@),
        ));
        self.students = students;
        self.deposit_event(Event::StudentCreated { who: sender, student_id, student_name: name_copy });
        assert(self@.students =~= before.students.push((student_id, sender, name_copy@)));
        Ok(())
    }

    /// The position of the student with id `student_id`, if there is one.
    fn find_student(&self, student_id: u32) -> (index: Option<usize>)
        ensures
            match index {
                Some(i) => i < self@.students.len() && self@.students[i as int].0 == student_id,
                None => forall|i: int| 0 <= i < self@.students.len() ==> #[trigger] self@.students[i].0 != student_id,
            },
    {
        let mut i: usize = 0;
        while i < self.students.len()
            invariant
                i <= self.students@.len(),
                forall|j: int| 0 <= j < i ==> #[trigger] self@.students[j].0 != student_id,
            decreases self.students@.len() - i,
        {
            if self.students[i].0 == student_id {
                return Some(i);
            }
            i += 1;
        }
        None
    }

    /// The signer asks for the student with the given id, or for all students
    /// (in the order of registration); the answer is announced.
    pub fn get_student(&mut self, origin: Origin, student_id: Option<u32>) -> (result: Result<
        (),
        DispatchError<Error>,
    >)
        requires
        ensures
            ids_increasing(final(self)@.students),
            match origin {
                Origin::Signed(who) => match student_id {
                    Some(id) => if exists|i: int| 0 <= i < old(self)@.students.len() && #[trigger] old(self)@.students[i].0 == id {
                        let i = choose|i: int| 0 <= i < old(self)@.students.len() && #[trigger] old(self)@.students[i].0 == id;
                        &&& result is Ok
                        &&& final(self)@.students == old(self)@.students
                        &&& final(self)@.events == old(self)@.events.push(
                            EventView::StudentRetrieved { who, student_id: id, student_name: old(self)@.students[i].2 },
                        )
                    } else {
                        &&& result == Err::<(), DispatchError<Error>>(DispatchError::Module(Error::StudentNotFound))
                        &&& final(self)@ == old(self)@
                    },
                    None => {
                        &&& result is Ok
                        &&& final(self)@.students == old(self)@.students
                        &&& final(self)@.events == old(self)@.events.push(
                            EventView::AllStudentsRetrieved {
                                who,
                                students: old(self)@.students.map_values(|s: StudentView| (s.0, s.2)),
                            },
                        )
                    },
                },
                _ => result == Err::<(), DispatchError<Error>>(DispatchError::BadOrigin) && final(self)@ == old(self)@,
            },
    {
        proof {
            use_type_invariant(&*self);
        }
        let sender = ensure_signed(origin)?;
        let ghost before = self@;
        match student_id {
            Some(id) => {
                match self.find_student(id) {
                    None => Err(DispatchError::Module(Error::StudentNotFound)),
                    Some(i) => {
                        proof {
                            let k = choose|k: int| 0 <= k < before.students.len() && #[trigger] before.students[k].0 == id;
                            if k != i {
                                if k < i {
                                    assert(before.students[k].0 < before.students[i as int].0);
                                } else {
                                    assert(before.students[i as int].0 < before.students[k].0);
                                }
                            }
                        }
                        let student_name = self.students[i].2.clone();
                        self.deposit_event(Event::StudentRetrieved { who: sender, student_id: id, student_name });
                        Ok(())
                    },
                }
            },
            None => {
                let mut students: Vec<(u32, String)> = Vec::new();
                let mut i: usize = 0;
                while i < self.students.len()
                    invariant
                        i <= self.students@.len(),
                        self@ == before,
                        students@.len() == i,
                        forall|k: int|
                            0 <= k < i ==> #[trigger] students@[k].0 == self@.students[k].0 && students@[k].1@
                                == self@.students[k].2,
                    decreases self.students@.len() - i,
                {
                    let entry = (self.students[i].0, self.students[i].2.clone());
                    let ghost prev = students@;
                    students.push(entry);
                    assert(self@.students[i as int] == (
                        self.students@[i as int].0,
                        self.students@[i as int].1,
                        self.students@[i as int].2@,
                    ));
                    i += 1;
                }
                assert(students@.map_values(|s: (u32, String)| (s.0, s.1@)) =~= self@.students.map_values(
                    |s: StudentView| (s.0, s.2),
                ));
                self.deposit_event(Event::AllStudentsRetrieved { who: sender, students });
                Ok(())
            },
        }
    }
}

} // verus!
