use vstd::prelude::*;
use crate::text::{clean_string, first_match, lower_of, trimmed};

verus! {

/// The year that ages are counted up to.
pub const CURRENT_YEAR: u32 = 2023;

/// A person's age, kept as the year of birth.
#[derive(Clone, Copy, Debug, PartialEq, Eq, Structural)]
pub struct Age {
    pub birth_year: u32,
}

impl Age {
    /// Age in whole years as of `CURRENT_YEAR`; `None` for a birth year after
    /// it.
    pub fn years(&self) -> (r: Option<u32>)
        ensures
            self.birth_year <= CURRENT_YEAR ==> r == Some((CURRENT_YEAR - self.birth_year) as u32),
            self.birth_year > CURRENT_YEAR ==> r is None,
    {
        if self.birth_year <= CURRENT_YEAR {
            Some(CURRENT_YEAR - self.birth_year)
        } else {
            None
        }
    }
}

/// A known user of the console front ends.
#[derive(Clone, Debug)]
pub struct User {
    pub name: String,
    pub full_name: String,
    pub age: Age,
}

/// The login name of `u` as typed input is normalised.
pub open spec fn login_of(u: User) -> Seq<char> {
    lower_of(trimmed(u.name@))
}

/// Index of the first user whose normalised name equals `name`.
pub fn find_user(users: &Vec<User>, name: &String) -> (r: Option<usize>)
    ensures
        match r {
            Some(i) => i < users@.len() && login_of(users@[i as int]) == name@ && forall|j: int|
                0 <= j < i ==> login_of(#[trigger] users@[j]) != name@,
            None => forall|j: int| 0 <= j < users@.len() ==> login_of(#[trigger] users@[j]) != name@,
        },
{
    let mut logins: Vec<String> = Vec::new();
    let mut k: usize = 0;
    while k < users.len()
        invariant
            k <= users@.len(),
            logins@.len() == k,
            forall|j: int| 0 <= j < k ==> #[trigger] logins@[j]@ == login_of(users@[j]),
        decreases users@.len() - k,
    {
        logins.push(clean_string(&users[k].name));
        k = k + 1;
    }
    let r = first_match(&logins, name);
    proof {
        assert forall|j: int| 0 <= j < users@.len() implies login_of(#[trigger] users@[j])
            == logins@[j]@ by {}
    }
    r
}

} // verus!
