use vstd::prelude::*;

verus! {

/// A fixed notification layout provided by the host, identified by how many
/// text lines it carries.
#[derive(Clone, Copy, Debug, PartialEq, Eq, Structural)]
pub enum Template {
    /// One text line.
    SingleLine,
    /// A title line followed by a body line.
    TitleBody,
}

/// The number of text slots in the layout of `t`.
pub open spec fn slot_count_of(t: Template) -> nat {
    match t {
        Template::SingleLine => 1,
        Template::TitleBody => 2,
    }
}

impl Template {
    /// The number of text slots in this layout.
    pub fn slot_count(&self) -> (r: usize)
        ensures
            r == slot_count_of(*self),
    {
        match self {
            Template::SingleLine => 1,
            Template::TitleBody => 2,
        }
    }
}

/// The layout chosen for `n` caller fields: one field gets the single-line
/// layout, two get the title-and-body layout, and no other count has one.
pub open spec fn template_for(n: nat) -> Option<Template> {
    if n == 1 {
        Some(Template::SingleLine)
    } else if n == 2 {
        Some(Template::TitleBody)
    } else {
        None
    }
}

/// Picks the layout whose slot count equals `n`, if there is one.
pub fn select_template(n: usize) -> (r: Option<Template>)
    ensures
        r == template_for(n as nat),
        r matches Some(t) ==> slot_count_of(t) == n,
{
    if n == 1 {
        Some(Template::SingleLine)
    } else if n == 2 {
        Some(Template::TitleBody)
    } else {
        None
    }
}

} // verus!
