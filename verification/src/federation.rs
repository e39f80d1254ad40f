//! Federation compatibility tiers and the directive scan that decides them.
//!
//! A subgraph is on the second federation tier exactly when its schema carries
//! a `link` directive on a top-level schema definition or schema extension.
//! The GraphQL text is parsed by `apollo_parser`; everything after the parse is
//! verified against the name [`schema_directives`] given to its result.

use vstd::prelude::*;

verus! {

/// A federation compatibility tier: the first or the second set of
/// composition rules.
#[derive(Clone, Copy, PartialEq, Eq, Structural, Debug)]
pub enum FederationVersion {
    LatestFedOne,
    LatestFedTwo,
}

impl FederationVersion {
    /// Whether this is the second federation tier.
    pub fn is_fed_two(&self) -> (r: bool)
        ensures
            r == (self is LatestFedTwo),
    {
        match self {
            FederationVersion::LatestFedTwo => true,
            FederationVersion::LatestFedOne => false,
        }
    }
}

/// The names of all directives attached to top-level schema definitions and
/// schema extensions of an SDL document, in document order, as
/// `apollo_parser` reads them.
pub uninterp spec fn schema_directives(sdl: Seq<char>) -> Seq<Seq<char>>;

/// The name of the directive that marks a schema as federation-two.
pub open spec fn link_directive_name() -> Seq<char> {
    seq!['l', 'i', 'n', 'k']
}

/// A schema is federation-two when its schema definitions or extensions carry
/// a `link` directive.
pub open spec fn sdl_is_fed_two(sdl: Seq<char>) -> bool {
    schema_directives(sdl).contains(link_directive_name())
}

/// Relies on `apollo_parser::Parser::parse`: the parse tree, and with it the
/// list of directive names on top-level schema definitions and extensions,
/// depends on the SDL text alone.
#[verifier::external_body]
fn schema_definition_directive_names(sdl: &str) -> (r: Vec<String>)
    ensures
        r@.map_values(|n: String| n@) == schema_directives(sdl@),
{
    apollo_parser::Parser::new(sdl)
        .parse()
        .document()
        .definitions()
        .filter_map(|def| match def {
            apollo_parser::cst::Definition::SchemaDefinition(d) => d.directives(),
            apollo_parser::cst::Definition::SchemaExtension(e) => e.directives(),
            _ => None,
        })
        .flat_map(|ds| ds.directives())
        .filter_map(|d| d.name())
        .map(|n| n.text().as_str().to_string())
        .collect()
}

/// Whether the schema's top-level schema definitions or extensions carry a
/// `link` directive, which makes the subgraph federation-two.
pub fn schema_contains_link_directive(sdl: &str) -> (r: bool)
    ensures
        r == sdl_is_fed_two(sdl@),
{
    proof {
        reveal_strlit("link");
        assert("link"@ =~= link_directive_name());
    }
    let names = schema_definition_directive_names(sdl);
    let ghost views = names@.map_values(|n: String| n@);
    let n = names.len();
    let mut i: usize = 0;
    while i < n
        invariant
            0 <= i <= n,
            n == names@.len(),
            views == names@.map_values(|m: String| m@),
            views == schema_directives(sdl@),
            "link"@ == link_directive_name(),
            forall|j: int| 0 <= j < i ==> views[j] != link_directive_name(),
        decreases n - i,
    {
        if crate::names::str_eq(names[i].as_str(), "link") {
            proof {
                assert(views[i as int] == link_directive_name());
                assert(schema_directives(sdl@).contains(link_directive_name()));
            }
            return true;
        }
        i = i + 1;
    }
    proof {
        if schema_directives(sdl@).contains(link_directive_name()) {
            let j = choose|j: int|
                0 <= j < views.len() && views[j] == link_directive_name();
            assert(views[j] != link_directive_name());
        }
    }
    false
}

} // verus!
