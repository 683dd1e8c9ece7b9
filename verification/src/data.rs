//! The default records that seeding works from.

use vstd::prelude::*;

verus! {

/// One default account: the e-mail address is its natural key.
#[derive(Clone, Debug, PartialEq, Eq)]
pub struct DefaultUser {
    pub name: String,
    pub email: String,
    pub password: String,
    pub role: String,
}

pub struct DefaultUserView {
    pub name: Seq<char>,
    pub email: Seq<char>,
    pub password: Seq<char>,
    pub role: Seq<char>,
}

impl View for DefaultUser {
    type V = DefaultUserView;

    open spec fn view(&self) -> DefaultUserView {
        DefaultUserView {
            name: self.name@,
            email: self.email@,
            password: self.password@,
            role: self.role@,
        }
    }
}

/// The bundled list of default accounts.
#[derive(Clone, Debug, PartialEq, Eq)]
pub struct DefaultUsers {
    pub users: Vec<DefaultUser>,
}

impl View for DefaultUsers {
    type V = Seq<DefaultUserView>;

    open spec fn view(&self) -> Seq<DefaultUserView> {
        self.users@.map_values(|user: DefaultUser| user@)
    }
}

} // verus!
