//! The closed set of containers that the bot may operate on.
use vstd::prelude::*;

use crate::text::same_text;

verus! {

/// A container the bot is allowed to operate on, in declaration order.
#[derive(Clone, Copy, Debug, PartialEq, Eq, Structural)]
pub enum ValidContainers {
    Velocity,
    Creative,
    Survival,
    OneBlock,
    SkyBlock,
}

/// The registry in declaration order.
pub open spec fn all_containers() -> Seq<ValidContainers> {
    seq![
        ValidContainers::Velocity,
        ValidContainers::Creative,
        ValidContainers::Survival,
        ValidContainers::OneBlock,
        ValidContainers::SkyBlock,
    ]
}

/// Whether `n` is the name of some registry entry.
pub open spec fn is_registry_name(n: Seq<char>) -> bool {
    exists|c: ValidContainers| c.spec_name() == n
}

impl ValidContainers {
    /// The canonical lowercase name, used both by the engine and for display.
    pub open spec fn spec_name(self) -> Seq<char> {
        match self {
            ValidContainers::Velocity => "velocity"@,
            ValidContainers::Creative => "creative"@,
            ValidContainers::Survival => "survival"@,
            ValidContainers::OneBlock => "oneblock"@,
            ValidContainers::SkyBlock => "skyblock"@,
        }
    }

    /// The canonical lowercase name of this container.
    pub fn name(&self) -> (r: &'static str)
        ensures
            r@ == self.spec_name(),
    {
        match self {
            ValidContainers::Velocity => "velocity",
            ValidContainers::Creative => "creative",
            ValidContainers::Survival => "survival",
            ValidContainers::OneBlock => "oneblock",
            ValidContainers::SkyBlock => "skyblock",
        }
    }

    /// Every registry entry, in declaration order.
    pub fn variants() -> (r: Vec<ValidContainers>)
        ensures
            r@ == all_containers(),
    {
        let r = vec![
            ValidContainers::Velocity,
            ValidContainers::Creative,
            ValidContainers::Survival,
            ValidContainers::OneBlock,
            ValidContainers::SkyBlock,
        ];
        assert(r@ =~= all_containers());
        r
    }

    /// The entry whose canonical name is exactly `s`, if any.
    pub fn from_name(s: &str) -> (r: Option<ValidContainers>)
        ensures
            r matches Some(c) ==> c.spec_name() == s@,
            r is None <==> !is_registry_name(s@),
    {
        let all = ValidContainers::variants();
        let mut i: usize = 0;
        while i < all.len()
            invariant
                all@ == all_containers(),
                i <= all@.len(),
                forall|j: int| 0 <= j < i ==> all@[j].spec_name() != s@,
            decreases all@.len() - i,
        {
            let c = all[i];
            if same_text(c.name(), s) {
                return Some(c);
            }
            i = i + 1;
        }
        assert forall|c: ValidContainers| c.spec_name() != s@ by {
            lemma_in_registry(c);
        }
        None
    }
}

/// Every value of the enumeration stands in the registry.
pub proof fn lemma_in_registry(c: ValidContainers)
    ensures
        all_containers().contains(c),
{
    match c {
        ValidContainers::Velocity => assert(all_containers()[0] == c),
        ValidContainers::Creative => assert(all_containers()[1] == c),
        ValidContainers::Survival => assert(all_containers()[2] == c),
        ValidContainers::OneBlock => assert(all_containers()[3] == c),
        ValidContainers::SkyBlock => assert(all_containers()[4] == c),
    }
}

/// No two registry entries share a name.
pub proof fn lemma_names_distinct()
    ensures
        forall|a: ValidContainers, b: ValidContainers| a.spec_name() == b.spec_name() ==> a == b,
{
    reveal_strlit("velocity");
    reveal_strlit("creative");
    reveal_strlit("survival");
    reveal_strlit("oneblock");
    reveal_strlit("skyblock");
    assert forall|a: ValidContainers, b: ValidContainers|
        a.spec_name() == b.spec_name() implies a == b by {
        if a != b {
            assert(a.spec_name()[0] != b.spec_name()[0] || a.spec_name()[1] != b.spec_name()[1]
                || a.spec_name()[3] != b.spec_name()[3]);
        }
    }
}

} // verus!
