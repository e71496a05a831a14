//! A company directory: departments, each with its employees, filled
//! from "Add <employee> to <department>" requests. The reading and
//! printing around it live with the caller; here are the rules.

use vstd::prelude::*;
use crate::strings::str_eq;

verus! {

/// Departments in the order they were first mentioned, each with its
/// employees in the order they were added.
pub struct Company {
    pub departments: Vec<(String, Vec<String>)>,
}

/// Whether some department carries this name.
pub open spec fn spec_has_dept(s: Seq<(String, Vec<String>)>, name: Seq<char>) -> bool {
    exists|i: int| 0 <= i < s.len() && s[i].0@ == name
}

/// Every employee, department by department.
pub open spec fn spec_all_employees(s: Seq<(String, Vec<String>)>) -> Seq<String>
    decreases s.len(),
{
    if s.len() == 0 {
        Seq::<String>::empty()
    } else {
        spec_all_employees(s.drop_last()) + s.last().1@
    }
}

/// The named department existed, and exactly its employee list grew by
/// the one employee at the end.
pub open spec fn spec_added_to_existing(
    pre: Seq<(String, Vec<String>)>,
    post: Seq<(String, Vec<String>)>,
    employee: String,
    department: Seq<char>,
) -> bool {
    &&& post.len() == pre.len()
    &&& exists|i: int|
        {
            &&& 0 <= i < pre.len()
            &&& (#[trigger] pre[i]).0@ == department
            &&& (forall|j: int| 0 <= j < i ==> pre[j].0@ != department)
            &&& post[i].0 == pre[i].0
            &&& post[i].1@ == pre[i].1@.push(employee)
            &&& (forall|k: int| 0 <= k < pre.len() && k != i ==> post[k] == pre[k])
        }
}

/// Read an "Add <employee> to <department>" request off its words. The
/// request is refused unless it has exactly four words, and also when
/// its first two words are literally `Add` and `to` — an employee who is
/// actually named "to" cannot be filed.
pub fn parse_add_request(words: &Vec<String>) -> (r: Option<(String, String)>)
    ensures
        (r is Some) <==> (words@.len() == 4 && !(words@[0]@ == "Add"@ && words@[1]@ == "to"@)),
        r matches Some(p) ==> p.0@ == words@[1]@ && p.1@ == words@[3]@,
{
    if words.len() != 4 {
        return None;
    }
    if str_eq(words[0].as_str(), "Add") && str_eq(words[1].as_str(), "to") {
        return None;
    }
    Some((words[1].clone(), words[3].clone()))
}

impl Company {
    pub fn new() -> (c: Company)
        ensures
            c.departments@.len() == 0,
    {
        Company { departments: Vec::new() }
    }

    /// The position of the first department with this name.
    pub fn find_department(&self, name: &str) -> (r: Option<usize>)
        ensures
            r matches Some(i) ==> i < self.departments@.len() && self.departments@[i as int].0@
                == name@ && (forall|j: int| 0 <= j < i ==> self.departments@[j].0@ != name@),
            r is None ==> forall|j: int|
                0 <= j < self.departments@.len() ==> self.departments@[j].0@ != name@,
    {
        let mut i: usize = 0;
        while i < self.departments.len()
            invariant
                i <= self.departments@.len(),
                forall|j: int| 0 <= j < i ==> self.departments@[j].0@ != name@,
            decreases self.departments@.len() - i,
        {
            if str_eq(self.departments[i].0.as_str(), name) {
                return Some(i);
            }
            i += 1;
        }
        None
    }

    /// File the employee under the department, making the department if
    /// it is new: the first department of that name gains the employee
    /// at the end of its list, or a fresh one-employee department goes
    /// to the end of the directory.
    pub fn add_employee(&mut self, employee: String, department: String)
        ensures
            !spec_has_dept(old(self).departments@, department@) ==> final(self).departments@.len()
                == old(self).departments@.len() + 1 && final(self).departments@.drop_last()
                == old(self).departments@ && final(self).departments@.last().0 == department
                && final(self).departments@.last().1@ == seq![employee],
            spec_has_dept(old(self).departments@, department@) ==> spec_added_to_existing(
                old(self).departments@,
                final(self).departments@,
                employee,
                department@,
            ),
    {
        match self.find_department(department.as_str()) {
            Some(i) => {
                let slot = &mut self.departments;
                let entry = vstd::std_specs::vec::vec_index_mut(slot, i);
                entry.1.push(employee);
            },
            None => {
                let mut members: Vec<String> = Vec::new();
                members.push(employee);
                self.departments.push((department, members));
            },
        }
    }

    /// The employees of the named department, if it exists.
    pub fn department_employees(&self, name: &str) -> (r: Option<&Vec<String>>)
        ensures
            (r is Some) <==> spec_has_dept(self.departments@, name@),
            r matches Some(v) ==> exists|i: int|
                0 <= i < self.departments@.len() && self.departments@[i].0@ == name@
                    && #[trigger] v@ == self.departments@[i].1@,
    {
        match self.find_department(name) {
            Some(i) => Some(&self.departments[i].1),
            None => None,
        }
    }

    /// Every employee, in directory order; sorting is the caller's
    /// affair.
    pub fn all_employees(&self) -> (r: Vec<String>)
        ensures
            r@ == spec_all_employees(self.departments@),
    {
        let mut all: Vec<String> = Vec::new();
        let mut i: usize = 0;
        while i < self.departments.len()
            invariant
                i <= self.departments@.len(),
                all@ =~= spec_all_employees(self.departments@.subrange(0, i as int)),
            decreases self.departments@.len() - i,
        {
            let ghost prefix = self.departments@.subrange(0, i as int);
            let dept = &self.departments[i];
            let mut k: usize = 0;
            while k < dept.1.len()
                invariant
                    k <= dept.1@.len(),
                    dept.1@ == self.departments@[i as int].1@,
                    i < self.departments@.len(),
                    all@ =~= spec_all_employees(self.departments@.subrange(0, i as int))
                        + self.departments@[i as int].1@.subrange(0, k as int),
                decreases dept.1@.len() - k,
            {
                all.push(dept.1[k].clone());
                k += 1;
            }
            i += 1;
            proof {
                let grown = self.departments@.subrange(0, i as int);
                assert(grown.drop_last() =~= prefix);
                assert(self.departments@[i - 1].1@.subrange(
                    0,
                    self.departments@[i - 1].1@.len() as int,
                ) =~= self.departments@[i - 1].1@);
            }
        }
        proof {
            assert(self.departments@.subrange(0, self.departments@.len() as int)
                =~= self.departments@);
        }
        all
    }
}

} // verus!
