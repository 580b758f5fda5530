//! Player roles: a full name plus a short code of exactly four characters.

use crate::error::PbcError;
use vstd::prelude::*;
use vstd::string::StrSliceExecFns;

verus! {

/// A role a player takes on the field, e.g. "Quarterback" with short code
/// `QB  `. The short name is always exactly four characters, enforced at
/// construction.
#[derive(Debug, Eq, Hash)]
pub struct PBCRole {
    pub full_name: String,
    pub short_name: [char; 4],
}

/// The mathematical content of a role: the two names as character sequences.
#[verifier::ext_equal]
pub ghost struct RoleView {
    pub full_name: Seq<char>,
    pub short_name: Seq<char>,
}

impl View for PBCRole {
    type V = RoleView;

    open spec fn view(&self) -> RoleView {
        RoleView { full_name: self.full_name@, short_name: self.short_name@ }
    }
}

/// Relies on `String::push`: appends exactly the given character to the end
/// of the string.
#[verifier::external_body]
fn push_char(s: &mut String, c: char)
    ensures
        final(s)@ == old(s)@.push(c),
{
    s.push(c);
}

impl PBCRole {
    /// Creates a role from a full name and a four-character short name.
    pub fn new(full_name: String, short_name: [char; 4]) -> (r: Self)
        ensures
            r@ == (RoleView { full_name: full_name@, short_name: short_name@ }),
    {
        PBCRole { full_name, short_name }
    }

    /// Creates a role from two strings. Fails with `InvalidShortName` if and
    /// only if the short name is not exactly four characters.
    pub fn from_strings(full_name: &str, short_name_str: &str) -> (r: Result<Self, PbcError>)
        ensures
            short_name_str@.len() == 4 ==> r is Ok && r->Ok_0@ == (RoleView {
                full_name: full_name@,
                short_name: short_name_str@,
            }),
            short_name_str@.len() != 4 ==> (r matches Err(e) && e is InvalidShortName),
    {
        if short_name_str.unicode_len() != 4 {
            return Err(PbcError::InvalidShortName);
        }
        let short_name: [char; 4] = [
            short_name_str.get_char(0),
            short_name_str.get_char(1),
            short_name_str.get_char(2),
            short_name_str.get_char(3),
        ];
        let role = PBCRole { full_name: full_name.to_owned(), short_name };
        proof {
            assert(role.short_name@ =~= short_name_str@);
        }
        Ok(role)
    }

    /// The short name as a string.
    pub fn short_name_string(&self) -> (r: String)
        ensures
            r@ == self@.short_name,
    {
        let mut s = String::new();
        push_char(&mut s, self.short_name[0]);
        push_char(&mut s, self.short_name[1]);
        push_char(&mut s, self.short_name[2]);
        push_char(&mut s, self.short_name[3]);
        proof {
            assert(s@ =~= self@.short_name);
        }
        s
    }

    /// A printable form: the full name followed by the short name in
    /// parentheses, e.g. `Quarterback (QB  )`.
    pub fn display_string(&self) -> (r: String)
        ensures
            r@ == self@.full_name + " ("@ + self@.short_name + ")"@,
    {
        let mut s = self.full_name.clone();
        s.append(" (");
        push_char(&mut s, self.short_name[0]);
        push_char(&mut s, self.short_name[1]);
        push_char(&mut s, self.short_name[2]);
        push_char(&mut s, self.short_name[3]);
        s.append(")");
        proof {
            assert(s@ =~= self@.full_name + " ("@ + self@.short_name + ")"@);
        }
        s
    }
}

impl Clone for PBCRole {
    fn clone(&self) -> (r: Self)
        ensures
            r@ == self@,
    {
        PBCRole { full_name: self.full_name.clone(), short_name: self.short_name }
    }
}

impl PartialEq for PBCRole {
    fn eq(&self, other: &Self) -> (r: bool)
        ensures
            r == (self@ == other@),
    {
        let names_eq = self.full_name == other.full_name;
        let mut shorts_eq = true;
        if self.short_name[0] != other.short_name[0] {
            shorts_eq = false;
        }
        if self.short_name[1] != other.short_name[1] {
            shorts_eq = false;
        }
        if self.short_name[2] != other.short_name[2] {
            shorts_eq = false;
        }
        if self.short_name[3] != other.short_name[3] {
            shorts_eq = false;
        }
        proof {
            if names_eq && shorts_eq {
                assert(self@.short_name =~= other@.short_name);
                assert(self@ =~= other@);
            }
        }
        names_eq && shorts_eq
    }
}

impl vstd::std_specs::cmp::PartialEqSpecImpl for PBCRole {
    open spec fn obeys_eq_spec() -> bool {
        true
    }

    open spec fn eq_spec(&self, other: &Self) -> bool {
        self@ == other@
    }
}

} // verus!
