//! Strongly typed name wrappers.
//!
//! Each entity kind is keyed by its own string-wrapper type (play, category,
//! formation, route) so that keys from different namespaces cannot be mixed
//! at compile time. Names are compared by exact character equality; no
//! normalization is applied. The view of every name type is the character
//! sequence of the wrapped string.

use vstd::prelude::*;

verus! {

/// The name of a play.
#[derive(Debug, Eq, Hash)]
pub struct PlayName(pub(crate) String);

impl View for PlayName {
    type V = Seq<char>;

    closed spec fn view(&self) -> Seq<char> {
        self.0@
    }
}

impl PlayName {
    /// Wraps a string as a play name.
    pub fn new(s: &str) -> (r: Self)
        ensures
            r@ == s@,
    {
        PlayName(s.to_owned())
    }

    /// The name as a string slice.
    pub fn as_str(&self) -> (r: &str)
        ensures
            r@ == self@,
    {
        self.0.as_str()
    }

    /// Consumes the name and returns the wrapped string.
    pub fn into_string(self) -> (r: String)
        ensures
            r@ == self@,
    {
        self.0
    }

    /// The wrapped string.
    pub fn as_string(&self) -> (r: &String)
        ensures
            r@ == self@,
    {
        &self.0
    }
}

impl Clone for PlayName {
    fn clone(&self) -> (r: Self)
        ensures
            r@ == self@,
    {
        PlayName(self.0.clone())
    }
}

impl PartialEq for PlayName {
    fn eq(&self, other: &Self) -> (r: bool)
        ensures
            r == (self@ == other@),
    {
        self.0 == other.0
    }
}

impl vstd::std_specs::cmp::PartialEqSpecImpl for PlayName {
    open spec fn obeys_eq_spec() -> bool {
        true
    }

    open spec fn eq_spec(&self, other: &Self) -> bool {
        self@ == other@
    }
}

impl From<&str> for PlayName {
    fn from(s: &str) -> (r: Self)
        ensures
            r@ == s@,
    {
        PlayName(s.to_owned())
    }
}

impl From<String> for PlayName {
    fn from(s: String) -> (r: Self)
        ensures
            r@ == s@,
    {
        PlayName(s)
    }
}

impl vstd::std_specs::convert::FromSpecImpl<&str> for PlayName {
    open spec fn obeys_from_spec() -> bool {
        false
    }

    open spec fn from_spec(s: &str) -> Self {
        choose|r: PlayName| r@ == s@
    }
}

impl vstd::std_specs::convert::FromSpecImpl<String> for PlayName {
    open spec fn obeys_from_spec() -> bool {
        false
    }

    closed spec fn from_spec(s: String) -> Self {
        PlayName(s)
    }
}

/// The name of a category.
#[derive(Debug, Eq, Hash)]
pub struct CategoryName(pub(crate) String);

impl View for CategoryName {
    type V = Seq<char>;

    closed spec fn view(&self) -> Seq<char> {
        self.0@
    }
}

impl CategoryName {
    /// Wraps a string as a category name.
    pub fn new(s: &str) -> (r: Self)
        ensures
            r@ == s@,
    {
        CategoryName(s.to_owned())
    }

    /// The name as a string slice.
    pub fn as_str(&self) -> (r: &str)
        ensures
            r@ == self@,
    {
        self.0.as_str()
    }

    /// Consumes the name and returns the wrapped string.
    pub fn into_string(self) -> (r: String)
        ensures
            r@ == self@,
    {
        self.0
    }

    /// The wrapped string.
    pub fn as_string(&self) -> (r: &String)
        ensures
            r@ == self@,
    {
        &self.0
    }
}

impl Clone for CategoryName {
    fn clone(&self) -> (r: Self)
        ensures
            r@ == self@,
    {
        CategoryName(self.0.clone())
    }
}

impl PartialEq for CategoryName {
    fn eq(&self, other: &Self) -> (r: bool)
        ensures
            r == (self@ == other@),
    {
        self.0 == other.0
    }
}

impl vstd::std_specs::cmp::PartialEqSpecImpl for CategoryName {
    open spec fn obeys_eq_spec() -> bool {
        true
    }

    open spec fn eq_spec(&self, other: &Self) -> bool {
        self@ == other@
    }
}

impl From<&str> for CategoryName {
    fn from(s: &str) -> (r: Self)
        ensures
            r@ == s@,
    {
        CategoryName(s.to_owned())
    }
}

impl From<String> for CategoryName {
    fn from(s: String) -> (r: Self)
        ensures
            r@ == s@,
    {
        CategoryName(s)
    }
}

impl vstd::std_specs::convert::FromSpecImpl<&str> for CategoryName {
    open spec fn obeys_from_spec() -> bool {
        false
    }

    open spec fn from_spec(s: &str) -> Self {
        choose|r: CategoryName| r@ == s@
    }
}

impl vstd::std_specs::convert::FromSpecImpl<String> for CategoryName {
    open spec fn obeys_from_spec() -> bool {
        false
    }

    closed spec fn from_spec(s: String) -> Self {
        CategoryName(s)
    }
}

/// The name of a formation.
#[derive(Debug, Eq, Hash)]
pub struct FormationName(pub(crate) String);

impl View for FormationName {
    type V = Seq<char>;

    closed spec fn view(&self) -> Seq<char> {
        self.0@
    }
}

impl FormationName {
    /// Wraps a string as a formation name.
    pub fn new(s: &str) -> (r: Self)
        ensures
            r@ == s@,
    {
        FormationName(s.to_owned())
    }

    /// The name as a string slice.
    pub fn as_str(&self) -> (r: &str)
        ensures
            r@ == self@,
    {
        self.0.as_str()
    }

    /// Consumes the name and returns the wrapped string.
    pub fn into_string(self) -> (r: String)
        ensures
            r@ == self@,
    {
        self.0
    }

    /// The wrapped string.
    pub fn as_string(&self) -> (r: &String)
        ensures
            r@ == self@,
    {
        &self.0
    }
}

impl Clone for FormationName {
    fn clone(&self) -> (r: Self)
        ensures
            r@ == self@,
    {
        FormationName(self.0.clone())
    }
}

impl PartialEq for FormationName {
    fn eq(&self, other: &Self) -> (r: bool)
        ensures
            r == (self@ == other@),
    {
        self.0 == other.0
    }
}

impl vstd::std_specs::cmp::PartialEqSpecImpl for FormationName {
    open spec fn obeys_eq_spec() -> bool {
        true
    }

    open spec fn eq_spec(&self, other: &Self) -> bool {
        self@ == other@
    }
}

impl From<&str> for FormationName {
    fn from(s: &str) -> (r: Self)
        ensures
            r@ == s@,
    {
        FormationName(s.to_owned())
    }
}

impl From<String> for FormationName {
    fn from(s: String) -> (r: Self)
        ensures
            r@ == s@,
    {
        FormationName(s)
    }
}

impl vstd::std_specs::convert::FromSpecImpl<&str> for FormationName {
    open spec fn obeys_from_spec() -> bool {
        false
    }

    open spec fn from_spec(s: &str) -> Self {
        choose|r: FormationName| r@ == s@
    }
}

impl vstd::std_specs::convert::FromSpecImpl<String> for FormationName {
    open spec fn obeys_from_spec() -> bool {
        false
    }

    closed spec fn from_spec(s: String) -> Self {
        FormationName(s)
    }
}

/// The name of a route.
#[derive(Debug, Eq, Hash)]
pub struct RouteName(pub(crate) String);

impl View for RouteName {
    type V = Seq<char>;

    closed spec fn view(&self) -> Seq<char> {
        self.0@
    }
}

impl RouteName {
    /// Wraps a string as a route name.
    pub fn new(s: &str) -> (r: Self)
        ensures
            r@ == s@,
    {
        RouteName(s.to_owned())
    }

    /// The name as a string slice.
    pub fn as_str(&self) -> (r: &str)
        ensures
            r@ == self@,
    {
        self.0.as_str()
    }

    /// Consumes the name and returns the wrapped string.
    pub fn into_string(self) -> (r: String)
        ensures
            r@ == self@,
    {
        self.0
    }

    /// The wrapped string.
    pub fn as_string(&self) -> (r: &String)
        ensures
            r@ == self@,
    {
        &self.0
    }
}

impl Clone for RouteName {
    fn clone(&self) -> (r: Self)
        ensures
            r@ == self@,
    {
        RouteName(self.0.clone())
    }
}

impl PartialEq for RouteName {
    fn eq(&self, other: &Self) -> (r: bool)
        ensures
            r == (self@ == other@),
    {
        self.0 == other.0
    }
}

impl vstd::std_specs::cmp::PartialEqSpecImpl for RouteName {
    open spec fn obeys_eq_spec() -> bool {
        true
    }

    open spec fn eq_spec(&self, other: &Self) -> bool {
        self@ == other@
    }
}

impl From<&str> for RouteName {
    fn from(s: &str) -> (r: Self)
        ensures
            r@ == s@,
    {
        RouteName(s.to_owned())
    }
}

impl From<String> for RouteName {
    fn from(s: String) -> (r: Self)
        ensures
            r@ == s@,
    {
        RouteName(s)
    }
}

impl vstd::std_specs::convert::FromSpecImpl<&str> for RouteName {
    open spec fn obeys_from_spec() -> bool {
        false
    }

    open spec fn from_spec(s: &str) -> Self {
        choose|r: RouteName| r@ == s@
    }
}

impl vstd::std_specs::convert::FromSpecImpl<String> for RouteName {
    open spec fn obeys_from_spec() -> bool {
        false
    }

    closed spec fn from_spec(s: String) -> Self {
        RouteName(s)
    }
}

} // verus!
