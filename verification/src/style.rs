//! Bootstrap-style options used by the dashboard shell: a closed set of
//! colors and sizes, each with its canonical class-name fragment.

use vstd::prelude::*;

verus! {

use vstd::string::StringExecFns;

/// The options for colors provided by Bootstrap.
#[derive(Debug, Clone, Copy, PartialEq, Eq, Structural, Hash)]
pub enum Color {
    Primary,
    Secondary,
    Success,
    Danger,
    Warning,
    Info,
}

impl Color {
    /// Get the name of the color.
    pub fn name(&self) -> (r: &'static str)
        ensures
            r@ == self.spec_name(),
    {
        proof {
            reveal_strlit("primary");
            reveal_strlit("secondary");
            reveal_strlit("success");
            reveal_strlit("danger");
            reveal_strlit("warning");
            reveal_strlit("info");
        }
        match self {
            Self::Primary => "primary",
            Self::Secondary => "secondary",
            Self::Success => "success",
            Self::Danger => "danger",
            Self::Warning => "warning",
            Self::Info => "info",
        }
    }

    /// The name of the color, as a sequence of characters.
    pub open spec fn spec_name(self) -> Seq<char> {
        match self {
            Self::Primary => "primary"@,
            Self::Secondary => "secondary"@,
            Self::Success => "success"@,
            Self::Danger => "danger"@,
            Self::Warning => "warning"@,
            Self::Info => "info"@,
        }
    }
}

impl Default for Color {
    fn default() -> (r: Self)
        ensures
            r == Color::Primary,
    {
        Self::Primary
    }
}

/// The options for sizes provided by Bootstrap.
#[derive(Debug, Clone, Copy, PartialEq, Eq, Structural, Hash)]
pub enum Size {
    Small,
    Default,
    Large,
}

impl Size {
    /// Get the name of the size.
    pub fn name(&self) -> (r: &'static str)
        ensures
            r@ == self.spec_name(),
    {
        proof {
            reveal_strlit("sm");
            reveal_strlit("");
            reveal_strlit("lg");
        }
        match self {
            Self::Small => "sm",
            Self::Default => "",
            Self::Large => "lg",
        }
    }

    /// The name of the size, as a sequence of characters.
    pub open spec fn spec_name(self) -> Seq<char> {
        match self {
            Self::Small => "sm"@,
            Self::Default => Seq::<char>::empty(),
            Self::Large => "lg"@,
        }
    }

    /// Get the class name of the size.
    /// For example, `btn` -> `btn-sm`.
    pub fn class(&self, class: &str) -> (r: String)
        ensures
            r@ == self.spec_class(class@),
    {
        proof {
            reveal_strlit("-");
        }
        if self == &Self::Default {
            class.to_owned()
        } else {
            let mut out = class.to_owned();
            out.append("-");
            out.append(self.name());
            out
        }
    }

    /// The class name for this size: the base class, with the size
    /// name appended after a dash for the non-default sizes.
    pub open spec fn spec_class(self, class: Seq<char>) -> Seq<char> {
        if self == Self::Default {
            class
        } else {
            class + "-"@ + self.spec_name()
        }
    }
}

impl Default for Size {
    fn default() -> (r: Self)
        ensures
            r == Size::Default,
    {
        Self::Default
    }
}

} // verus!
