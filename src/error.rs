use vstd::prelude::*;

verus! {

/// Why an exchange with the window manager failed.
#[derive(Clone, Copy, Debug, PartialEq, Eq, Structural)]
pub enum LayoutError {
    /// The control program could not be started.
    Spawn,
    /// It was started but reported failure to a query (non-zero exit).
    Query,
    /// Its reply does not match the expected schema.
    Parse,
    /// It refused the requested layout (non-zero exit).
    Apply,
}

/// The user-facing description of an error.
pub open spec fn description(e: LayoutError) -> Seq<char> {
    match e {
        LayoutError::Spawn => "the window manager's control program could not be started"@,
        LayoutError::Query => "the window manager could not report the layout"@,
        LayoutError::Parse => "the window manager's reply could not be read"@,
        LayoutError::Apply => "the window manager refused the layout"@,
    }
}

impl LayoutError {
    /// A short description for the user.
    pub fn to_string(&self) -> (r: String)
        ensures
            r@ == description(*self),
    {
        match self {
            LayoutError::Spawn => String::from_str("the window manager's control program could not be started"),
            LayoutError::Query => String::from_str("the window manager could not report the layout"),
            LayoutError::Parse => String::from_str("the window manager's reply could not be read"),
            LayoutError::Apply => String::from_str("the window manager refused the layout"),
        }
    }
}

} // verus!
