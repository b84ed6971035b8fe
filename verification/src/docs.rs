//! How the interface is described to its users: the name of the interface,
//! and the shapes in which identifiers, dates and times are written.

use vstd::prelude::*;

verus! {

/// The shape of an identifier in the interface: text.
#[derive(Debug)]
pub struct UuidSchema(String);

/// The shape of a point in time in the interface: text.
#[derive(Debug)]
pub struct NaiveDateTimeSchema(String);

/// The shape of a date in the interface: text.
#[derive(Debug)]
pub struct NaiveDateSchema(String);

/// The description of the interface.
#[derive(Clone, Copy, Debug)]
pub struct ApiDoc;

impl View for UuidSchema {
    type V = Seq<char>;

    closed spec fn view(&self) -> Seq<char> {
        self.0@
    }
}

impl View for NaiveDateTimeSchema {
    type V = Seq<char>;

    closed spec fn view(&self) -> Seq<char> {
        self.0@
    }
}

impl View for NaiveDateSchema {
    type V = Seq<char>;

    closed spec fn view(&self) -> Seq<char> {
        self.0@
    }
}

impl Default for UuidSchema {
    fn default() -> (r: UuidSchema)
        ensures
            r@.len() == 0,
    {
        UuidSchema(String::new())
    }
}

impl Default for NaiveDateTimeSchema {
    fn default() -> (r: NaiveDateTimeSchema)
        ensures
            r@.len() == 0,
    {
        NaiveDateTimeSchema(String::new())
    }
}

impl Default for NaiveDateSchema {
    fn default() -> (r: NaiveDateSchema)
        ensures
            r@.len() == 0,
    {
        NaiveDateSchema(String::new())
    }
}

impl ApiDoc {
    /// The name of the interface.
    pub fn title() -> (r: &'static str)
        ensures
            r@ == "Financial Management API"@,
    {
        "Financial Management API"
    }

    /// The version of the interface.
    pub fn version() -> (r: &'static str)
        ensures
            r@ == "1.0.0"@,
    {
        "1.0.0"
    }

    /// What the interface is for.
    pub fn description() -> (r: &'static str)
        ensures
            r@ == "API for tracking personal income and expenses"@,
    {
        "API for tracking personal income and expenses"
    }
}

} // verus!
