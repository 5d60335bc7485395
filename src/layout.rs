use vstd::prelude::*;
use vstd::string::StrSliceExecFns;

verus! {

/// The window arrangement policy of a desktop.
#[derive(Clone, Copy, Debug, PartialEq, Eq, Structural)]
pub enum LayoutMode {
    /// Freely positioned windows.
    Float,
    /// Binary-space-partitioned tiling.
    Bsp,
}

/// The mode that a toggle moves to from `m`.
pub open spec fn opposite(m: LayoutMode) -> LayoutMode {
    match m {
        LayoutMode::Float => LayoutMode::Bsp,
        LayoutMode::Bsp => LayoutMode::Float,
    }
}

/// The canonical lower-case name of a mode on the wire.
pub open spec fn name_of(m: LayoutMode) -> Seq<char> {
    match m {
        LayoutMode::Float => seq!['f', 'l', 'o', 'a', 't'],
        LayoutMode::Bsp => seq!['b', 's', 'p'],
    }
}

/// The system symbol that stands for a mode in the indicator.
pub open spec fn icon_of(m: LayoutMode) -> Seq<char> {
    match m {
        LayoutMode::Float => "macwindow.on.rectangle"@,
        LayoutMode::Bsp => "uiwindow.split.2x1"@,
    }
}

/// The indicator's tooltip for a mode.
pub open spec fn tooltip_of(m: LayoutMode) -> Seq<char> {
    match m {
        LayoutMode::Float => seq!['F', 'l', 'o', 'a', 't'],
        LayoutMode::Bsp => seq!['B', 'S', 'P'],
    }
}

/// ASCII lower-casing of one character; every other character stays.
pub open spec fn ascii_lower(c: char) -> char {
    if 'A' <= c && c <= 'Z' {
        ((c as u8) + 32) as char
    } else {
        c
    }
}

/// `s` and `t` are equal once ASCII letters are compared without case.
pub open spec fn equal_ignoring_case(s: Seq<char>, t: Seq<char>) -> bool {
    &&& s.len() == t.len()
    &&& forall|i: int| 0 <= i < s.len() ==> ascii_lower(#[trigger] s[i]) == ascii_lower(t[i])
}

/// The mode that a wire name denotes: a canonical name, in any letter case.
pub open spec fn mode_of_name(s: Seq<char>) -> Option<LayoutMode> {
    if equal_ignoring_case(s, name_of(LayoutMode::Float)) {
        Some(LayoutMode::Float)
    } else if equal_ignoring_case(s, name_of(LayoutMode::Bsp)) {
        Some(LayoutMode::Bsp)
    } else {
        None
    }
}

/// Reading back the name that `to_string` writes gives the same mode, and a
/// name that is neither mode's reads as no mode at all, never a default.
pub proof fn lemma_name_round_trip(m: LayoutMode, other: Seq<char>)
    requires
        !equal_ignoring_case(other, name_of(LayoutMode::Float)),
        !equal_ignoring_case(other, name_of(LayoutMode::Bsp)),
    ensures
        mode_of_name(name_of(m)) == Some(m),
        mode_of_name(other) is None,
{
    assert(equal_ignoring_case(name_of(m), name_of(m)));
}

fn lower_ascii_char(c: char) -> (r: char)
    ensures
        r == ascii_lower(c),
{
    if 'A' <= c && c <= 'Z' {
        ((c as u8) + 32) as char
    } else {
        c
    }
}

/// Compares the characters of `s` with `t` (given in lower case), ASCII letters
/// of `s` without regard to case.
fn matches_name(s: &str, t: &str) -> (r: bool)
    ensures
        r == equal_ignoring_case(s@, t@),
{
    let n = s.unicode_len();
    let m = t.unicode_len();
    if n != m {
        return false;
    }
    let mut i: usize = 0;
    while i < n
        invariant
            n == s@.len(),
            m == t@.len(),
            n == m,
            i <= n,
            forall|j: int| 0 <= j < i ==> ascii_lower(#[trigger] s@[j]) == ascii_lower(t@[j]),
        decreases n - i,
    {
        let a = lower_ascii_char(s.get_char(i));
        let b = lower_ascii_char(t.get_char(i));
        if a != b {
            return false;
        }
        i = i + 1;
    }
    true
}

impl LayoutMode {
    /// The mode that a toggle requests: the other one.
    pub fn toggled(self) -> (r: LayoutMode)
        ensures
            r == opposite(self),
            r != self,
    {
        match self {
            LayoutMode::Float => LayoutMode::Bsp,
            LayoutMode::Bsp => LayoutMode::Float,
        }
    }

    /// The canonical lower-case name, as the window manager takes it.
    pub fn to_string(&self) -> (r: String)
        ensures
            r@ == name_of(*self),
    {
        match self {
            LayoutMode::Float => {
                let r = String::from_str("float");
                proof {
                    reveal_strlit("float");
                }
                r
            },
            LayoutMode::Bsp => {
                let r = String::from_str("bsp");
                proof {
                    reveal_strlit("bsp");
                }
                r
            },
        }
    }

    /// The name of the system symbol that the indicator shows for this mode.
    pub fn icon_name(&self) -> (r: &'static str)
        ensures
            r@ == icon_of(*self),
    {
        proof {
            reveal_strlit("macwindow.on.rectangle");
            reveal_strlit("uiwindow.split.2x1");
        }
        match self {
            LayoutMode::Float => "macwindow.on.rectangle",
            LayoutMode::Bsp => "uiwindow.split.2x1",
        }
    }

    /// The indicator's tooltip for this mode.
    pub fn tooltip(&self) -> (r: &'static str)
        ensures
            r@ == tooltip_of(*self),
    {
        proof {
            reveal_strlit("Float");
            reveal_strlit("BSP");
        }
        match self {
            LayoutMode::Float => "Float",
            LayoutMode::Bsp => "BSP",
        }
    }

    /// Reads a wire name; letter case is not significant. Any other name is
    /// refused with `None`, never read as a default.
    pub fn from_name(s: &str) -> (r: Option<LayoutMode>)
        ensures
            r == mode_of_name(s@),
    {
        proof {
            reveal_strlit("float");
            reveal_strlit("bsp");
        }
        if matches_name(s, "float") {
            Some(LayoutMode::Float)
        } else if matches_name(s, "bsp") {
            Some(LayoutMode::Bsp)
        } else {
            None
        }
    }
}

impl Default for LayoutMode {
    fn default() -> (r: LayoutMode)
        ensures
            r == LayoutMode::Float,
    {
        LayoutMode::Float
    }
}

} // verus!
