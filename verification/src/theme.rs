//! The theme registry: public theme names, the themes of the engine that
//! they stand for, and the stylesheet of a theme.

use vstd::prelude::*;
use syntect::highlighting::ThemeSet;
use syntect::html::{css_for_theme_with_class_style, ClassStyle};
use crate::error::{ErrorKind, Failure, Fatal};
use crate::highlight::engine_error_text;

verus! {

/// `syntect::highlighting::ThemeSet`: the themes that the engine holds, by
/// name.
#[verifier::external_type_specification]
#[verifier::external_body]
pub struct ExThemeSet(syntect::highlighting::ThemeSet);

/// The names of the themes that a set holds.
pub uninterp spec fn themes_of(set: ThemeSet) -> Set<Seq<char>>;

/// The stylesheet of the theme `name` of a set, or `None` where it cannot be
/// put together.
pub uninterp spec fn stylesheet_of(set: ThemeSet, name: Seq<char>) -> Option<Seq<char>>;

/// `ThemeSet::load_defaults`: the themes that ship with the engine. Nothing
/// is claimed of them.
#[verifier::external_body]
fn default_themes() -> ThemeSet {
    ThemeSet::load_defaults()
}

/// `contains_key` on the `themes` of a set: whether it holds a theme of that
/// name. The names are named `themes_of`.
#[verifier::external_body]
fn holds_theme(set: &ThemeSet, name: &str) -> (held: bool)
    ensures
        held == themes_of(*set).contains(name@),
{
    set.themes.contains_key(name)
}

/// `css_for_theme_with_class_style` on the theme `name` of the set, with
/// `ClassStyle::Spaced`. The result is named `stylesheet_of`.
#[verifier::external_body]
fn theme_stylesheet(set: &ThemeSet, name: &str) -> (css: Result<String, syntect::Error>)
    requires
        themes_of(*set).contains(name@),
    ensures
        match css {
            Ok(text) => stylesheet_of(*set, name@) == Some(text@),
            Err(_) => stylesheet_of(*set, name@) is None,
        },
{
    css_for_theme_with_class_style(&set.themes[name], ClassStyle::Spaced)
}

/// One entry of the alias table: a public name and the name of the engine's
/// theme that it stands for.
#[derive(Clone, Debug)]
pub struct ThemeAlias {
    pub public: String,
    pub canonical: String,
}

impl View for ThemeAlias {
    type V = (Seq<char>, Seq<char>);

    open spec fn view(&self) -> (Seq<char>, Seq<char>) {
        (self.public@, self.canonical@)
    }
}

/// The theme that a public name stands for: that of the first entry under the
/// name, or `None` where the table has none.
pub open spec fn canonical_of(aliases: Seq<(Seq<char>, Seq<char>)>, name: Seq<char>) -> Option<
    Seq<char>,
>
    decreases aliases.len(),
{
    if aliases.len() == 0 {
        None
    } else if aliases[0].0 == name {
        Some(aliases[0].1)
    } else {
        canonical_of(aliases.drop_first(), name)
    }
}

/// The alias table that ships with the library.
pub open spec fn default_aliases() -> Seq<(Seq<char>, Seq<char>)> {
    seq![
        ("base16-ocean-dark"@, "base16-ocean.dark"@),
        ("base16-eighties-dark"@, "base16-eighties.dark"@),
        ("base16-mocha-dark"@, "base16-mocha.dark"@),
        ("base16-ocean-light"@, "base16-ocean.light"@),
        ("inspired-github"@, "InspiredGitHub"@),
        ("solarized-dark"@, "Solarized (dark)"@),
        ("solarized-light"@, "Solarized (light)"@),
    ]
}

/// An entry of the alias table.
fn alias(public: &str, canonical: &str) -> (entry: ThemeAlias)
    ensures
        entry@ == (public@, canonical@),
{
    ThemeAlias { public: public.to_owned(), canonical: canonical.to_owned() }
}

/// The themes that stylesheets can be had for, under their public names.
pub struct ThemeRegistry {
    aliases: Vec<ThemeAlias>,
    themes: ThemeSet,
}

impl ThemeRegistry {
    /// The alias table.
    pub closed spec fn aliases(&self) -> Seq<(Seq<char>, Seq<char>)> {
        self.aliases@.map_values(|entry: ThemeAlias| entry@)
    }

    /// The engine's themes.
    pub closed spec fn themes(&self) -> ThemeSet {
        self.themes
    }

    /// What resolving a public name gives: the name of the engine's theme;
    /// `UnknownTheme` with the public name where the table has no entry for
    /// it; `MissingTheme` with the theme's name where the table has one and
    /// the engine holds no such theme.
    pub open spec fn resolved(&self, name: Seq<char>) -> Result<Seq<char>, Failure> {
        match canonical_of(self.aliases(), name) {
            None => Err(Failure::UnknownTheme(name)),
            Some(canonical) => if themes_of(self.themes()).contains(canonical) {
                Ok(canonical)
            } else {
                Err(Failure::MissingTheme(canonical))
            },
        }
    }

    /// What asking for a stylesheet gives: the stylesheet of the theme that
    /// the name resolves to, the kind of the failure to resolve it, or
    /// `CannotGetCss`.
    pub open spec fn styled(&self, name: Seq<char>) -> Result<Seq<char>, ErrorKind> {
        match self.resolved(name) {
            Err(failure) => Err(failure.kind()),
            Ok(canonical) => match stylesheet_of(self.themes(), canonical) {
                Some(css) => Ok(css),
                None => Err(ErrorKind::CannotGetCss),
            },
        }
    }

    /// The registry that ships with the library: its alias table over the
    /// engine's own themes.
    pub fn load() -> (registry: Self)
        ensures
            registry.aliases() == default_aliases(),
    {
        let mut aliases: Vec<ThemeAlias> = Vec::new();
        aliases.push(alias("base16-ocean-dark", "base16-ocean.dark"));
        aliases.push(alias("base16-eighties-dark", "base16-eighties.dark"));
        aliases.push(alias("base16-mocha-dark", "base16-mocha.dark"));
        aliases.push(alias("base16-ocean-light", "base16-ocean.light"));
        aliases.push(alias("inspired-github", "InspiredGitHub"));
        aliases.push(alias("solarized-dark", "Solarized (dark)"));
        aliases.push(alias("solarized-light", "Solarized (light)"));
        let registry = ThemeRegistry { aliases, themes: default_themes() };
        assert(registry.aliases() =~= default_aliases());
        registry
    }

    /// A registry with an alias table of the caller's over the engine's own
    /// themes.
    pub fn with_aliases(aliases: Vec<ThemeAlias>) -> (registry: Self)
        ensures
            registry.aliases() == aliases@.map_values(|entry: ThemeAlias| entry@),
    {
        ThemeRegistry { aliases, themes: default_themes() }
    }

    /// The public names, in the order of the table.
    pub fn names(&self) -> (names: Vec<String>)
        ensures
            names@.len() == self.aliases().len(),
            forall|i: int| 0 <= i < names@.len() ==> (#[trigger] names@[i])@ == self.aliases()[i].0,
    {
        let mut names: Vec<String> = Vec::new();
        let mut i: usize = 0;
        while i < self.aliases.len()
            invariant
                i <= self.aliases.len(),
                names@.len() == i,
                forall|j: int| 0 <= j < i ==> (#[trigger] names@[j])@ == self.aliases()[j].0,
            decreases self.aliases.len() - i,
        {
            names.push(self.aliases[i].public.clone());
            i = i + 1;
        }
        names
    }

    /// Looks a public name up in the alias table.
    fn canonical(&self, name: &str) -> (found: Option<&String>)
        ensures
            match found {
                Some(canonical) => canonical_of(self.aliases(), name@) == Some(canonical@),
                None => canonical_of(self.aliases(), name@) is None,
            },
    {
        let wanted = name.to_owned();
        let mut i: usize = 0;
        proof {
            assert(self.aliases().skip(0) =~= self.aliases());
        }
        while i < self.aliases.len()
            invariant
                i <= self.aliases.len(),
                wanted@ == name@,
                canonical_of(self.aliases(), name@) == canonical_of(
                    self.aliases().skip(i as int),
                    name@,
                ),
            decreases self.aliases.len() - i,
        {
            let ghost rest = self.aliases().skip(i as int);
            proof {
                assert(rest[0] == self.aliases@[i as int]@);
                assert(rest.drop_first() =~= self.aliases().skip(i + 1));
            }
            if self.aliases[i].public == wanted {
                return Some(&self.aliases[i].canonical);
            }
            i = i + 1;
        }
        proof {
            assert(self.aliases().skip(self.aliases().len() as int) =~= Seq::<
                (Seq<char>, Seq<char>),
            >::empty());
        }
        None
    }

    /// Resolves a public name to the name of the engine's theme.
    pub fn resolve(&self, name: &str) -> (outcome: Result<String, Fatal>)
        ensures
            match outcome {
                Ok(canonical) => self.resolved(name@) == Ok::<Seq<char>, Failure>(canonical@),
                Err(failure) => self.resolved(name@) == Err::<Seq<char>, Failure>(failure@),
            },
            canonical_of(self.aliases(), name@) is None ==> (outcome matches Err(failure)
                && failure@ == Failure::UnknownTheme(name@)),
    {
        match self.canonical(name) {
            None => Err(Fatal::UnknownTheme(name.to_owned())),
            Some(canonical) => {
                if holds_theme(&self.themes, canonical.as_str()) {
                    Ok(canonical.clone())
                } else {
                    Err(Fatal::MissingTheme(canonical.clone()))
                }
            },
        }
    }

    /// The stylesheet of the theme that a public name stands for.
    pub fn css(&self, name: &str) -> (outcome: Result<String, Fatal>)
        ensures
            match outcome {
                Ok(css) => self.styled(name@) == Ok::<Seq<char>, ErrorKind>(css@),
                Err(failure) => self.styled(name@) == Err::<Seq<char>, ErrorKind>(failure@.kind())
                    && (self.resolved(name@) matches Err(unresolved) ==> failure@ == unresolved),
            },
            canonical_of(self.aliases(), name@) is None ==> (outcome matches Err(failure)
                && failure@ == Failure::UnknownTheme(name@)),
    {
        let canonical = match self.resolve(name) {
            Ok(canonical) => canonical,
            Err(failure) => {
                return Err(failure);
            },
        };
        match theme_stylesheet(&self.themes, canonical.as_str()) {
            Ok(css) => Ok(css),
            Err(error) => Err(Fatal::CannotGetCss(engine_error_text(&error))),
        }
    }
}

/// A name that the alias table does not hold fails to resolve and fails to
/// give a stylesheet, both times as `UnknownTheme` and as nothing else.
pub proof fn lemma_unknown_theme(registry: ThemeRegistry, name: Seq<char>)
    requires
        canonical_of(registry.aliases(), name) is None,
    ensures
        registry.resolved(name) == Err::<Seq<char>, Failure>(Failure::UnknownTheme(name)),
        registry.styled(name) == Err::<Seq<char>, ErrorKind>(ErrorKind::UnknownTheme),
{
}

} // verus!
