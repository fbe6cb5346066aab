//! Which animation the pet plays: behavior chains and their fallback lookup.
use vstd::prelude::*;

use crate::micro_action::MicroAction;
use crate::pet::manifest::{Animation, PetManifest};
use crate::pet::{BehaviorMode, Personality};

verus! {

/// The preference-ordered animation names for a behavior.
pub open spec fn chain_spec(
    mode: BehaviorMode,
    personality: Personality,
    expression_index: usize,
    action: Option<MicroAction>,
) -> Seq<Seq<char>> {
    match mode {
        BehaviorMode::Hidden => seq!["idle"@],
        BehaviorMode::Dragging => seq!["drag"@, "idle"@],
        BehaviorMode::Hovered => match personality {
            Personality::Calm => seq!["hover-calm"@, "hover"@, "idle"@],
            Personality::Cheerful => seq!["hover-cheerful"@, "hover"@, "idle"@],
            Personality::Lively => seq!["hover-lively"@, "hover"@, "idle"@],
        },
        BehaviorMode::Action => match action {
            Some(MicroAction::Nap) => seq!["sleepy"@, "idle"@],
            Some(MicroAction::CheerUp) => seq!["happy"@, "idle"@],
            None => seq!["idle"@],
        },
        BehaviorMode::Walking => seq!["walk-right"@, "walk"@, "idle"@],
        _ => {
            let e = expression_index % 5;
            if e == 0 {
                seq!["idle"@]
            } else if e == 1 {
                seq!["blink"@, "idle"@]
            } else if e == 2 {
                seq!["happy"@, "idle"@]
            } else if e == 3 {
                seq!["curious"@, "idle"@]
            } else {
                seq!["sleepy"@, "idle"@]
            }
        },
    }
}

/// The default mode cycles through its expressions: the chain depends on the
/// expression index only modulo five, and any five consecutive indices lead
/// with five different animations, so every expression comes back each cycle.
pub proof fn lemma_expressions_cycle(p: Personality, i: usize, a: Option<MicroAction>)
    ensures
        i + 5 <= usize::MAX ==> chain_spec(BehaviorMode::Default, p, (i + 5) as usize, a) == chain_spec(
            BehaviorMode::Default,
            p,
            i,
            a,
        ),
        forall|j: usize|
            i < j < i + 5 ==> #[trigger] chain_spec(BehaviorMode::Default, p, j, a)[0] != chain_spec(
                BehaviorMode::Default,
                p,
                i,
                a,
            )[0],
{
    reveal_strlit("idle");
    reveal_strlit("blink");
    reveal_strlit("happy");
    reveal_strlit("curious");
    reveal_strlit("sleepy");
    assert("idle"@[0] != "blink"@[0]);
    assert("idle"@[0] != "happy"@[0]);
    assert("idle"@[0] != "curious"@[0]);
    assert("idle"@[0] != "sleepy"@[0]);
    assert("blink"@[0] != "happy"@[0]);
    assert("blink"@[0] != "curious"@[0]);
    assert("blink"@[0] != "sleepy"@[0]);
    assert("happy"@[0] != "curious"@[0]);
    assert("happy"@[0] != "sleepy"@[0]);
    assert("curious"@[0] != "sleepy"@[0]);
    assert forall|j: usize| i < j < i + 5 implies #[trigger] chain_spec(BehaviorMode::Default, p, j, a)[0]
        != chain_spec(BehaviorMode::Default, p, i, a)[0] by {
        assert(j % 5 != i % 5) by (nonlinear_arith)
            requires
                i < j < i + 5,
        ;
    }
    if i + 5 <= usize::MAX {
        assert((i + 5) % 5 == i % 5) by (nonlinear_arith);
    }
}

/// The characters of each name in a list.
pub open spec fn names_view(names: Seq<&str>) -> Seq<Seq<char>> {
    names.map_values(|s: &str| s@)
}

/// The first name of `chain` that `animations` declares, or `idle` when none is.
pub open spec fn first_present(animations: Map<Seq<char>, Animation>, chain: Seq<Seq<char>>) -> Seq<char>
    decreases chain.len(),
{
    if chain.len() == 0 {
        "idle"@
    } else if animations.contains_key(chain[0]) {
        chain[0]
    } else {
        first_present(animations, chain.drop_first())
    }
}

/// Whatever a chain resolves to is declared, provided `idle` is.
pub proof fn lemma_first_present_declared(animations: Map<Seq<char>, Animation>, chain: Seq<Seq<char>>)
    requires
        animations.contains_key("idle"@),
    ensures
        animations.contains_key(first_present(animations, chain)),
    decreases chain.len(),
{
    if chain.len() > 0 && !animations.contains_key(chain[0]) {
        lemma_first_present_declared(animations, chain.drop_first());
    }
}

/// The animation chain for a behavior: most specific name first, `idle` last.
/// The default mode cycles through five expressions.
pub fn resolve_animation_chain(
    mode: BehaviorMode,
    personality: Personality,
    expression_index: usize,
    action: Option<MicroAction>,
) -> (chain: Vec<&'static str>)
    ensures
        names_view(chain@) == chain_spec(mode, personality, expression_index, action),
{
    let chain: Vec<&'static str> = match mode {
        BehaviorMode::Hidden => vec!["idle"],
        BehaviorMode::Dragging => vec!["drag", "idle"],
        BehaviorMode::Hovered => match personality {
            Personality::Calm => vec!["hover-calm", "hover", "idle"],
            Personality::Cheerful => vec!["hover-cheerful", "hover", "idle"],
            Personality::Lively => vec!["hover-lively", "hover", "idle"],
        },
        BehaviorMode::Action => match action {
            Some(MicroAction::Nap) => vec!["sleepy", "idle"],
            Some(MicroAction::CheerUp) => vec!["happy", "idle"],
            None => vec!["idle"],
        },
        BehaviorMode::Walking => vec!["walk-right", "walk", "idle"],
        _ => {
            let e: usize = expression_index % 5;
            if e == 0 {
                vec!["idle"]
            } else if e == 1 {
                vec!["blink", "idle"]
            } else if e == 2 {
                vec!["happy", "idle"]
            } else if e == 3 {
                vec!["curious", "idle"]
            } else {
                vec!["sleepy", "idle"]
            }
        },
    };
    assert(names_view(chain@) =~= chain_spec(mode, personality, expression_index, action));
    chain
}

/// The first name of `chain` the manifest declares, with its animation; `idle`
/// when the manifest declares none of them.
pub fn lookup_with_fallback<'a>(manifest: &'a PetManifest, chain: &[&'static str]) -> (r: (
    &'static str,
    &'a Animation,
))
    requires
        manifest.animations@.contains_key("idle"@),
    ensures
        r.0@ == first_present(manifest.animations@, names_view(chain@)),
        manifest.animations@.contains_key(r.0@),
        *r.1 == manifest.animations@[r.0@],
{
    let mut i: usize = 0;
    assert(names_view(chain@).subrange(0, chain@.len() as int) =~= names_view(chain@));
    while i < chain.len()
        invariant
            i <= chain@.len(),
            manifest.animations@.contains_key("idle"@),
            first_present(manifest.animations@, names_view(chain@)) == first_present(
                manifest.animations@,
                names_view(chain@).subrange(i as int, chain@.len() as int),
            ),
        decreases chain@.len() - i,
    {
        let name: &'static str = chain[i];
        proof {
            let rest = names_view(chain@).subrange(i as int, chain@.len() as int);
            assert(rest[0] == name@);
            assert(rest.drop_first() =~= names_view(chain@).subrange(i + 1, chain@.len() as int));
        }
        match manifest.animations.get(name) {
            Some(anim) => {
                return (name, anim);
            },
            None => {},
        }
        i += 1;
    }
    proof {
        assert(names_view(chain@).subrange(i as int, chain@.len() as int).len() == 0);
    }
    ("idle", manifest.animations.get("idle").unwrap())
}

/// `lookup_with_fallback` for names built at run time; the resolved name is
/// returned as an owned string.
pub fn lookup_with_fallback_dynamic<'a>(manifest: &'a PetManifest, chain: &[&str]) -> (r: (
    String,
    &'a Animation,
))
    requires
        manifest.animations@.contains_key("idle"@),
    ensures
        r.0@ == first_present(manifest.animations@, names_view(chain@)),
        manifest.animations@.contains_key(r.0@),
        *r.1 == manifest.animations@[r.0@],
{
    let mut i: usize = 0;
    assert(names_view(chain@).subrange(0, chain@.len() as int) =~= names_view(chain@));
    while i < chain.len()
        invariant
            i <= chain@.len(),
            manifest.animations@.contains_key("idle"@),
            first_present(manifest.animations@, names_view(chain@)) == first_present(
                manifest.animations@,
                names_view(chain@).subrange(i as int, chain@.len() as int),
            ),
        decreases chain@.len() - i,
    {
        let name: &str = chain[i];
        proof {
            let rest = names_view(chain@).subrange(i as int, chain@.len() as int);
            assert(rest[0] == name@);
            assert(rest.drop_first() =~= names_view(chain@).subrange(i + 1, chain@.len() as int));
        }
        match manifest.animations.get(name) {
            Some(anim) => {
                return (name.to_owned(), anim);
            },
            None => {},
        }
        i += 1;
    }
    proof {
        assert(names_view(chain@).subrange(i as int, chain@.len() as int).len() == 0);
    }
    ("idle".to_owned(), manifest.animations.get("idle").unwrap())
}

} // verus!
