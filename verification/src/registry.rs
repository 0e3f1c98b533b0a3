//! The table registry: the process-wide list of exposed tables, built once
//! at initialization. A table enters the registry only with a validated
//! name, so every registered name is safe to splice into SQL; the
//! dispatcher consults the registry to decide which routes exist.

use vstd::prelude::*;
use vstd::string::StringExecFns;

use crate::ident::{is_valid_identifier, valid_ident};

verus! {

/// The set of exposed tables, in registration order.
pub struct Registry {
    pub tables: Vec<String>,
}

impl Registry {
    /// Every registered table name passed identifier validation.
    pub open spec fn wf(&self) -> bool {
        forall|i: int| 0 <= i < self.tables@.len() ==> valid_ident((#[trigger] self.tables@[i])@)
    }

    /// An empty registry: no table is exposed yet.
    pub fn new() -> (r: Registry)
        ensures
            r.wf(),
            r.tables@.len() == 0,
    {
        Registry { tables: Vec::new() }
    }

    /// Registers a table, validating its name first: an invalid name is
    /// refused with an error message and the registry is unchanged.
    pub fn expose(&mut self, name: &str) -> (r: Result<(), String>)
        requires
            old(self).wf(),
        ensures
            final (self).wf(),
            (r is Ok) == valid_ident(name@),
            r is Ok ==> (final (self).tables@.len() == old(self).tables@.len() + 1
                && final (self).tables@[old(self).tables@.len() as int]@ == name@
                && forall|i: int|
                    0 <= i < old(self).tables@.len()
                    ==> final (self).tables@[i] == old(self).tables@[i]),
            r matches Err(m) ==> (m@ == ("Invalid table name: ")@ + name@
                && *final (self) == *old(self)),
    {
        if !is_valid_identifier(name) {
            let mut msg = String::from_str("Invalid table name: ");
            msg.append(name);
            return Err(msg);
        }
        self.tables.push(name.to_owned());
        Ok(())
    }

    /// True iff a table of this name has been exposed.
    pub fn contains(&self, name: &str) -> (r: bool)
        ensures
            r == exists|i: int|
                0 <= i < self.tables@.len() && (#[trigger] self.tables@[i])@ == name@,
    {
        let target = name.to_owned();
        let mut i: usize = 0;
        while i < self.tables.len()
            invariant
                0 <= i <= self.tables@.len(),
                target@ == name@,
                forall|j: int| 0 <= j < i ==> (#[trigger] self.tables@[j])@ != name@,
            decreases self.tables@.len() - i,
        {
            if self.tables[i] == target {
                return true;
            }
            i += 1;
        }
        false
    }

    /// The number of exposed tables.
    pub fn len(&self) -> (n: usize)
        ensures
            n == self.tables@.len(),
    {
        self.tables.len()
    }

    /// The name of the table at a registration index.
    pub fn table_at(&self, i: usize) -> (name: &String)
        requires
            i < self.tables@.len(),
        ensures
            name == self.tables@[i as int],
    {
        &self.tables[i]
    }
}

} // verus!
