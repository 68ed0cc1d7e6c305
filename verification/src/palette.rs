//! The palette: one color scheme for dark mode and one for light mode.

use crate::text::{same_text, texts_of};
use vstd::prelude::*;
use vstd::string::*;

verus! {

/// The number of color roles in a scheme.
pub const ROLE_COUNT: usize = 49;

/// The names of the color roles, in the order in which a scheme lists them.
pub const ROLE_NAMES: [&'static str; 49] = [
    "background",
    "error",
    "error_container",
    "inverse_on_surface",
    "inverse_primary",
    "inverse_surface",
    "on_background",
    "on_error",
    "on_error_container",
    "on_primary",
    "on_primary_container",
    "on_primary_fixed",
    "on_primary_fixed_variant",
    "on_secondary",
    "on_secondary_container",
    "on_secondary_fixed",
    "on_secondary_fixed_variant",
    "on_surface",
    "on_surface_variant",
    "on_tertiary",
    "on_tertiary_container",
    "on_tertiary_fixed",
    "on_tertiary_fixed_variant",
    "outline",
    "outline_variant",
    "primary",
    "primary_container",
    "primary_fixed",
    "primary_fixed_dim",
    "scrim",
    "secondary",
    "secondary_container",
    "secondary_fixed",
    "secondary_fixed_dim",
    "shadow",
    "surface",
    "surface_bright",
    "surface_container",
    "surface_container_high",
    "surface_container_highest",
    "surface_container_low",
    "surface_container_lowest",
    "surface_dim",
    "surface_tint",
    "surface_variant",
    "tertiary",
    "tertiary_container",
    "tertiary_fixed",
    "tertiary_fixed_dim",
];

/// The name of the role at `index`.
pub open spec fn role_name(index: int) -> Seq<char> {
    ROLE_NAMES[index]@
}

/// The name of the role at `index`.
pub(crate) fn role_name_at(index: usize) -> (name: &'static str)
    requires
        index < ROLE_COUNT,
    ensures
        name@ == role_name(index as int),
{
    ROLE_NAMES[index]
}

/// What tells any two role names apart: the length and two of the characters.
spec fn mark(name: Seq<char>) -> (nat, char, char) {
    (name.len(), name[3], name[10])
}

/// No two roles share a name.
pub proof fn lemma_role_names_distinct()
    ensures
        forall|i: int, j: int|
            0 <= i < j < ROLE_COUNT ==> #[trigger] role_name(i) != #[trigger] role_name(j),
{
    reveal_strlit("background");
    reveal_strlit("error");
    reveal_strlit("error_container");
    reveal_strlit("inverse_on_surface");
    reveal_strlit("inverse_primary");
    reveal_strlit("inverse_surface");
    reveal_strlit("on_background");
    reveal_strlit("on_error");
    reveal_strlit("on_error_container");
    reveal_strlit("on_primary");
    reveal_strlit("on_primary_container");
    reveal_strlit("on_primary_fixed");
    reveal_strlit("on_primary_fixed_variant");
    reveal_strlit("on_secondary");
    reveal_strlit("on_secondary_container");
    reveal_strlit("on_secondary_fixed");
    reveal_strlit("on_secondary_fixed_variant");
    reveal_strlit("on_surface");
    reveal_strlit("on_surface_variant");
    reveal_strlit("on_tertiary");
    reveal_strlit("on_tertiary_container");
    reveal_strlit("on_tertiary_fixed");
    reveal_strlit("on_tertiary_fixed_variant");
    reveal_strlit("outline");
    reveal_strlit("outline_variant");
    reveal_strlit("primary");
    reveal_strlit("primary_container");
    reveal_strlit("primary_fixed");
    reveal_strlit("primary_fixed_dim");
    reveal_strlit("scrim");
    reveal_strlit("secondary");
    reveal_strlit("secondary_container");
    reveal_strlit("secondary_fixed");
    reveal_strlit("secondary_fixed_dim");
    reveal_strlit("shadow");
    reveal_strlit("surface");
    reveal_strlit("surface_bright");
    reveal_strlit("surface_container");
    reveal_strlit("surface_container_high");
    reveal_strlit("surface_container_highest");
    reveal_strlit("surface_container_low");
    reveal_strlit("surface_container_lowest");
    reveal_strlit("surface_dim");
    reveal_strlit("surface_tint");
    reveal_strlit("surface_variant");
    reveal_strlit("tertiary");
    reveal_strlit("tertiary_container");
    reveal_strlit("tertiary_fixed");
    reveal_strlit("tertiary_fixed_dim");
    assert forall|i: int, j: int| 0 <= i < j < ROLE_COUNT implies #[trigger] role_name(i)
        != #[trigger] role_name(j) by {
        // Each index is one of the forty-nine, and each name's mark is then known.
        assert(i == 0 || i == 1 || i == 2 || i == 3 || i == 4 || i == 5 || i == 6
            || i == 7 || i == 8 || i == 9 || i == 10 || i == 11 || i == 12 || i == 13
            || i == 14 || i == 15 || i == 16 || i == 17 || i == 18 || i == 19 || i == 20
            || i == 21 || i == 22 || i == 23 || i == 24 || i == 25 || i == 26 || i == 27
            || i == 28 || i == 29 || i == 30 || i == 31 || i == 32 || i == 33 || i == 34
            || i == 35 || i == 36 || i == 37 || i == 38 || i == 39 || i == 40 || i == 41
            || i == 42 || i == 43 || i == 44 || i == 45 || i == 46 || i == 47 || i == 48);
        assert(j == 0 || j == 1 || j == 2 || j == 3 || j == 4 || j == 5 || j == 6
            || j == 7 || j == 8 || j == 9 || j == 10 || j == 11 || j == 12 || j == 13
            || j == 14 || j == 15 || j == 16 || j == 17 || j == 18 || j == 19 || j == 20
            || j == 21 || j == 22 || j == 23 || j == 24 || j == 25 || j == 26 || j == 27
            || j == 28 || j == 29 || j == 30 || j == 31 || j == 32 || j == 33 || j == 34
            || j == 35 || j == 36 || j == 37 || j == 38 || j == 39 || j == 40 || j == 41
            || j == 42 || j == 43 || j == 44 || j == 45 || j == 46 || j == 47 || j == 48);
        assert(mark(role_name(i)) != mark(role_name(j)));
    }
}

/// One color for each role, in the order of `ROLE_NAMES`.
#[derive(Debug, PartialEq, Eq)]
pub struct ColorScheme {
    values: Vec<String>,
}

impl View for ColorScheme {
    type V = Seq<Seq<char>>;

    closed spec fn view(&self) -> Seq<Seq<char>> {
        texts_of(self.values@)
    }
}

impl ColorScheme {
    #[verifier::type_invariant]
    spec fn complete(self) -> bool {
        self.values.len() == ROLE_COUNT
    }

    /// A scheme of the given colors, one for each role in order; `None`
    /// unless there are exactly `ROLE_COUNT` of them.
    pub fn from_values(values: Vec<String>) -> (scheme: Option<ColorScheme>)
        ensures
            scheme is Some <==> values.len() == ROLE_COUNT,
            scheme matches Some(s) ==> s@ == texts_of(values@),
    {
        if values.len() == ROLE_COUNT {
            Some(ColorScheme { values })
        } else {
            None
        }
    }

    /// The number of colors, which is `ROLE_COUNT` for every scheme.
    pub fn len(&self) -> (count: usize)
        ensures
            count == ROLE_COUNT,
            self@.len() == ROLE_COUNT,
    {
        proof {
            use_type_invariant(self);
        }
        self.values.len()
    }

    /// The color of the role at `index`, if there is such a role.
    pub fn color(&self, index: usize) -> (color: Option<&str>)
        ensures
            self@.len() == ROLE_COUNT,
            color is Some <==> index < ROLE_COUNT,
            color matches Some(c) ==> c@ == self@[index as int],
    {
        proof {
            use_type_invariant(self);
        }
        if index < self.values.len() {
            Some(self.values[index].as_str())
        } else {
            None
        }
    }

    /// The color of the role that is named `name`, if there is such a role.
    pub fn color_named(&self, name: &str) -> (color: Option<&str>)
        ensures
            self@.len() == ROLE_COUNT,
            match color {
                Some(c) => exists|role: int|
                    0 <= role < ROLE_COUNT && role_name(role) == name@ && c@ == self@[role],
                None => forall|role: int| 0 <= role < ROLE_COUNT ==> role_name(role) != name@,
            },
    {
        proof {
            use_type_invariant(self);
        }
        let mut role: usize = 0;
        while role < ROLE_COUNT
            invariant
                role <= ROLE_COUNT,
                self.values.len() == ROLE_COUNT,
                forall|earlier: int| 0 <= earlier < role ==> role_name(earlier) != name@,
            decreases ROLE_COUNT - role,
        {
            if same_text(role_name_at(role), name) {
                return Some(self.values[role].as_str());
            }
            role = role + 1;
        }
        None
    }
}

impl Clone for ColorScheme {
    fn clone(&self) -> (copy: ColorScheme)
        ensures
            copy@ == self@,
    {
        proof {
            use_type_invariant(self);
        }
        ColorScheme { values: self.values.clone() }
    }
}

/// The palette that the generator derives from an image.
#[derive(Debug, PartialEq, Eq)]
pub struct Colors {
    pub dark: ColorScheme,
    pub light: ColorScheme,
}

/// What a `Colors` stands for in contracts: the colors of each scheme, by
/// role.
pub ghost struct ColorsView {
    pub dark: Seq<Seq<char>>,
    pub light: Seq<Seq<char>>,
}

impl View for Colors {
    type V = ColorsView;

    open spec fn view(&self) -> ColorsView {
        ColorsView { dark: self.dark@, light: self.light@ }
    }
}

impl Clone for Colors {
    fn clone(&self) -> (copy: Colors)
        ensures
            copy@ == self@,
    {
        Colors { dark: self.dark.clone(), light: self.light.clone() }
    }
}

} // verus!

