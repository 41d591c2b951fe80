//! The in-memory player registration record.
//!
//! A record is an addressable, mutable entity with a fixed set of named
//! fields, exclusively owned by the caller driving a transformation; the
//! engine mutates it in place and retains nothing. The derived full-name
//! field is the only field no setter fills: the `fullname` rule computes it.

use vstd::prelude::*;

verus! {

/// One registration record.
pub struct Wholegame {
    /// The player's first name or names.
    pub first_names: String,
    /// The player's surname.
    pub surname: String,
    /// The derived full name: first names and surname joined by one space.
    pub full_name: String,
    /// The player's membership identifier.
    pub fan_id: String,
    /// The player's age group.
    pub age_group: String,
    /// The team the player is registered with.
    pub team: String,
    /// Whether the player is currently suspended.
    pub suspended: bool,
    /// Whether consent was given.
    pub consent_given: bool,
    /// When the registration was made, if it was.
    pub date_registered: Option<String>,
}

impl Wholegame {
    /// A fresh record: every text field empty, flags down, no registration
    /// date.
    pub fn new() -> (r: Wholegame)
        ensures
            r.first_names@ == Seq::<char>::empty(),
            r.surname@ == Seq::<char>::empty(),
            r.full_name@ == Seq::<char>::empty(),
            r.fan_id@ == Seq::<char>::empty(),
            r.age_group@ == Seq::<char>::empty(),
            r.team@ == Seq::<char>::empty(),
            r.suspended == false,
            r.consent_given == false,
            r.date_registered is None,
    {
        Wholegame {
            first_names: String::new(),
            surname: String::new(),
            full_name: String::new(),
            fan_id: String::new(),
            age_group: String::new(),
            team: String::new(),
            suspended: false,
            consent_given: false,
            date_registered: None,
        }
    }

    /// Replaces the first names.
    pub fn set_first_names(&mut self, v: String)
        ensures
            *final(self) == (Wholegame { first_names: v, ..*old(self) }),
    {
        self.first_names = v;
    }

    /// Replaces the surname.
    pub fn set_surname(&mut self, v: String)
        ensures
            *final(self) == (Wholegame { surname: v, ..*old(self) }),
    {
        self.surname = v;
    }

    /// Replaces the membership identifier.
    pub fn set_fan_id(&mut self, v: String)
        ensures
            *final(self) == (Wholegame { fan_id: v, ..*old(self) }),
    {
        self.fan_id = v;
    }

    /// Replaces the age group.
    pub fn set_age_group(&mut self, v: String)
        ensures
            *final(self) == (Wholegame { age_group: v, ..*old(self) }),
    {
        self.age_group = v;
    }

    /// Replaces the team.
    pub fn set_team(&mut self, v: String)
        ensures
            *final(self) == (Wholegame { team: v, ..*old(self) }),
    {
        self.team = v;
    }

    /// Sets or clears the suspension flag.
    pub fn set_suspended(&mut self, v: bool)
        ensures
            *final(self) == (Wholegame { suspended: v, ..*old(self) }),
    {
        self.suspended = v;
    }

    /// Sets or clears the consent flag.
    pub fn set_consent_given(&mut self, v: bool)
        ensures
            *final(self) == (Wholegame { consent_given: v, ..*old(self) }),
    {
        self.consent_given = v;
    }

    /// Sets or clears the registration date.
    pub fn set_date_registered(&mut self, v: Option<String>)
        ensures
            *final(self) == (Wholegame { date_registered: v, ..*old(self) }),
    {
        self.date_registered = v;
    }

    /// The first names.
    pub fn get_first_names(&self) -> (r: &str)
        ensures
            r@ == self.first_names@,
    {
        self.first_names.as_str()
    }

    /// The surname.
    pub fn get_surname(&self) -> (r: &str)
        ensures
            r@ == self.surname@,
    {
        self.surname.as_str()
    }

    /// The derived full name.
    pub fn get_full_name(&self) -> (r: &str)
        ensures
            r@ == self.full_name@,
    {
        self.full_name.as_str()
    }

    /// The team.
    pub fn get_team(&self) -> (r: &str)
        ensures
            r@ == self.team@,
    {
        self.team.as_str()
    }
}

} // verus!
