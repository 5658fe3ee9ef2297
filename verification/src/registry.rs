//! Compiler profiles and the classification rule.
//!
//! A registry holds one reserved hash with its own label, and the compiler
//! families in priority order. Each family has a list of hashes known to be
//! its own and a list of markers. A script is labelled by the first rule that
//! applies: the reserved hash, then the hash lists of all families in order,
//! then the markers of all families in order.

use crate::program::NormalizedProgram;
use crate::text::marked_by;
use crate::text::marker_among;
use vstd::prelude::*;

verus! {

/// One compiler family: its label, the hashes known to be its own, and the
/// markers that give it away.
#[derive(Debug, PartialEq, Eq)]
pub struct CompilerProfile {
    /// The label given to the scripts of this family.
    pub name: String,
    /// Hashes of scripts known to come from this compiler.
    pub exact_hashes: Vec<String>,
    /// Substrings of a flattened program, each enough to tell this compiler.
    pub markers: Vec<String>,
}

/// A compiler family as plain text.
pub struct ProfileView {
    pub name: Seq<char>,
    pub exact_hashes: Seq<Seq<char>>,
    pub markers: Seq<Seq<char>>,
}

impl View for CompilerProfile {
    type V = ProfileView;

    open spec fn view(&self) -> ProfileView {
        ProfileView {
            name: self.name@,
            exact_hashes: self.exact_hashes.deep_view(),
            markers: self.markers.deep_view(),
        }
    }
}

impl ProfileView {
    /// `hash` is among the hashes known to be of this family.
    pub open spec fn lists(self, hash: Seq<char>) -> bool {
        self.exact_hashes.contains(hash)
    }

    /// One of this family's markers is part of `text`.
    pub open spec fn marks(self, text: Seq<char>) -> bool {
        marked_by(text, self.markers)
    }
}

impl CompilerProfile {
    /// Whether `hash` is among the hashes known to be of this family.
    pub fn lists(&self, hash: &String) -> (r: bool)
        ensures
            r == self@.lists(hash@),
    {
        let mut k: usize = 0;
        while k < self.exact_hashes.len()
            invariant
                k <= self.exact_hashes.len(),
                forall|j: int| 0 <= j < k ==> self@.exact_hashes[j] != hash@,
            decreases self.exact_hashes.len() - k,
        {
            if self.exact_hashes[k] == *hash {
                assert(self@.exact_hashes[k as int] == hash@);
                return true;
            }
            k += 1;
        }
        false
    }
}

/// The families of a registry as plain text, in priority order.
pub open spec fn profile_views(profiles: Seq<CompilerProfile>) -> Seq<ProfileView> {
    Seq::new(profiles.len(), |i: int| profiles[i]@)
}

/// A registry as plain text.
pub struct RegistryView {
    pub reserved_hash: Seq<char>,
    pub reserved_label: Seq<char>,
    pub profiles: Seq<ProfileView>,
}

impl RegistryView {
    /// Family `i` lists `hash`, and no family before it does.
    pub open spec fn first_listing(self, hash: Seq<char>, i: int) -> bool {
        &&& 0 <= i < self.profiles.len()
        &&& self.profiles[i].lists(hash)
        &&& forall|j: int| 0 <= j < i ==> !(#[trigger] self.profiles[j]).lists(hash)
    }

    /// Some family lists `hash`.
    pub open spec fn listed(self, hash: Seq<char>) -> bool {
        exists|i: int| 0 <= i < self.profiles.len() && (#[trigger] self.profiles[i]).lists(hash)
    }

    /// Family `i` has a marker in `text`, and no family before it has.
    pub open spec fn first_marking(self, text: Seq<char>, i: int) -> bool {
        &&& 0 <= i < self.profiles.len()
        &&& self.profiles[i].marks(text)
        &&& forall|j: int| 0 <= j < i ==> !(#[trigger] self.profiles[j]).marks(text)
    }

    /// Some family has a marker in `text`.
    pub open spec fn marked(self, text: Seq<char>) -> bool {
        exists|i: int| 0 <= i < self.profiles.len() && (#[trigger] self.profiles[i]).marks(text)
    }

    /// The first family that lists `hash`, if any does.
    pub open spec fn listing_family(self, hash: Seq<char>) -> Option<int> {
        if self.listed(hash) {
            Some(choose|i: int| self.first_listing(hash, i))
        } else {
            None
        }
    }

    /// The first family with a marker in `text`, if any has one.
    pub open spec fn marking_family(self, text: Seq<char>) -> Option<int> {
        if self.marked(text) {
            Some(choose|i: int| self.first_marking(text, i))
        } else {
            None
        }
    }

    /// The label of a script with hash `hash` and flattened program `text`.
    ///
    /// The reserved hash has its own label whatever else holds. Otherwise
    /// the first family that lists the hash gives its name, whatever the
    /// text holds. Otherwise the first family with a marker in the text
    /// gives its name. Otherwise there is no label.
    pub open spec fn label(self, hash: Seq<char>, text: Seq<char>) -> Option<Seq<char>> {
        if hash == self.reserved_hash {
            Some(self.reserved_label)
        } else if let Some(i) = self.listing_family(hash) {
            Some(self.profiles[i].name)
        } else if let Some(i) = self.marking_family(text) {
            Some(self.profiles[i].name)
        } else {
            None
        }
    }

    /// The reserved hash is in no family's list.
    pub open spec fn reserved_is_exclusive(self) -> bool {
        !self.listed(self.reserved_hash)
    }
}

/// A label as plain text.
pub open spec fn label_view(label: Option<String>) -> Option<Seq<char>> {
    match label {
        Some(name) => Some(name@),
        None => None,
    }
}

/// The rule table: the reserved hash with its label, and the compiler
/// families in priority order. Read-only once built.
pub struct Registry {
    reserved_hash: String,
    reserved_label: String,
    profiles: Vec<CompilerProfile>,
}

impl View for Registry {
    type V = RegistryView;

    closed spec fn view(&self) -> RegistryView {
        RegistryView {
            reserved_hash: self.reserved_hash@,
            reserved_label: self.reserved_label@,
            profiles: profile_views(self.profiles@),
        }
    }
}

impl Registry {
    /// A registry with the given reserved hash and label, and the given
    /// families, first in the vector first in priority.
    pub fn new(reserved_hash: String, reserved_label: String, profiles: Vec<CompilerProfile>) -> (r:
        Registry)
        ensures
            r@ == (RegistryView {
                reserved_hash: reserved_hash@,
                reserved_label: reserved_label@,
                profiles: profile_views(profiles@),
            }),
    {
        Registry { reserved_hash, reserved_label, profiles }
    }

    /// The hash that is labelled by identity alone.
    pub fn reserved_hash(&self) -> (hash: &String)
        ensures
            hash@ == self@.reserved_hash,
    {
        &self.reserved_hash
    }

    /// The label of the reserved hash.
    pub fn reserved_label(&self) -> (label: &String)
        ensures
            label@ == self@.reserved_label,
    {
        &self.reserved_label
    }

    /// The families, in priority order.
    pub fn profiles(&self) -> (profiles: &Vec<CompilerProfile>)
        ensures
            profile_views(profiles@) == self@.profiles,
    {
        &self.profiles
    }

    /// The first family, in priority order, that lists `hash`.
    pub fn listing_family(&self, hash: &String) -> (r: Option<usize>)
        ensures
            match r {
                Some(i) => self@.first_listing(hash@, i as int) && self@.listing_family(hash@)
                    == Some(i as int),
                None => self@.listing_family(hash@) is None,
            },
    {
        let mut i: usize = 0;
        while i < self.profiles.len()
            invariant
                i <= self.profiles.len(),
                forall|j: int| 0 <= j < i ==> !(#[trigger] self@.profiles[j]).lists(hash@),
            decreases self.profiles.len() - i,
        {
            if self.profiles[i].lists(hash) {
                proof {
                    lemma_first_listing(self@, hash@, i as int);
                }
                return Some(i);
            }
            i += 1;
        }
        None
    }

    /// The first family, in priority order, with a marker in `text`.
    pub fn marking_family(&self, text: &Vec<char>) -> (r: Option<usize>)
        ensures
            match r {
                Some(i) => self@.first_marking(text@, i as int) && self@.marking_family(text@)
                    == Some(i as int),
                None => self@.marking_family(text@) is None,
            },
    {
        let mut i: usize = 0;
        while i < self.profiles.len()
            invariant
                i <= self.profiles.len(),
                forall|j: int| 0 <= j < i ==> !(#[trigger] self@.profiles[j]).marks(text@),
            decreases self.profiles.len() - i,
        {
            if marker_among(text, &self.profiles[i].markers) {
                proof {
                    lemma_first_marking(self@, text@, i as int);
                }
                return Some(i);
            }
            i += 1;
        }
        None
    }

    /// Labels a script by its hash and its flattened program: the name of
    /// the compiler family it is put down to, or `None` where no rule
    /// applies. Never fails.
    pub fn classify(&self, hash: &str, program: &NormalizedProgram) -> (label: Option<String>)
        ensures
            label_view(label) == self@.label(hash@, program@),
    {
        let hash = hash.to_owned();
        if hash == self.reserved_hash {
            return Some(self.reserved_label.clone());
        }
        if let Some(i) = self.listing_family(&hash) {
            return Some(self.profiles[i].name.clone());
        }
        if let Some(i) = self.marking_family(program.chars()) {
            return Some(self.profiles[i].name.clone());
        }
        None
    }

    /// Whether the reserved hash is kept out of every family's list, as a
    /// sound table has it.
    pub fn reserved_is_exclusive(&self) -> (r: bool)
        ensures
            r == self@.reserved_is_exclusive(),
    {
        self.listing_family(&self.reserved_hash).is_none()
    }
}

/// The reserved hash has the reserved label, whatever the families list and
/// whatever the program holds.
pub proof fn lemma_reserved_hash_overrides(registry: RegistryView, text: Seq<char>)
    ensures
        registry.label(registry.reserved_hash, text) == Some(registry.reserved_label),
{
}

/// A listed hash decides the label, whatever the program holds: a hash other
/// than the reserved one is given the name of the first family that lists it,
/// also where the text bears the markers of another family.
pub proof fn lemma_listed_hash_decides(
    registry: RegistryView,
    hash: Seq<char>,
    text: Seq<char>,
    family: int,
)
    requires
        hash != registry.reserved_hash,
        registry.first_listing(hash, family),
    ensures
        registry.label(hash, text) == Some(registry.profiles[family].name),
{
    lemma_first_listing(registry, hash, family);
}

/// In a table that keeps the reserved hash to itself, a listed hash is not the
/// reserved one, and so is labelled by the first family that lists it.
pub proof fn lemma_listed_hash_is_not_reserved(registry: RegistryView, hash: Seq<char>)
    requires
        registry.reserved_is_exclusive(),
        registry.listed(hash),
    ensures
        hash != registry.reserved_hash,
{
}

/// Where no hash rule applies the markers decide: the script is given the
/// name of the first family with a marker in its text.
pub proof fn lemma_marker_decides(
    registry: RegistryView,
    hash: Seq<char>,
    text: Seq<char>,
    family: int,
)
    requires
        hash != registry.reserved_hash,
        !registry.listed(hash),
        registry.first_marking(text, family),
    ensures
        registry.label(hash, text) == Some(registry.profiles[family].name),
{
    lemma_first_marking(registry, text, family);
}

/// A script has no label exactly when no rule applies to it: its hash is not
/// the reserved one, no family lists it, and no family has a marker in its
/// text.
pub proof fn lemma_unknown_iff_no_rule(registry: RegistryView, hash: Seq<char>, text: Seq<char>)
    ensures
        registry.label(hash, text) is None <==> {
            &&& hash != registry.reserved_hash
            &&& !registry.listed(hash)
            &&& !registry.marked(text)
        },
{
}

/// The first family that lists a hash is determined: where family `i` lists
/// `hash` and none before it does, `i` is the listing family.
pub proof fn lemma_first_listing(registry: RegistryView, hash: Seq<char>, i: int)
    requires
        registry.first_listing(hash, i),
    ensures
        registry.listing_family(hash) == Some(i),
{
    let chosen = choose|k: int| registry.first_listing(hash, k);
    assert(registry.first_listing(hash, chosen));
    assert(registry.profiles[i].lists(hash));
    assert(registry.profiles[chosen].lists(hash));
}

/// The first family with a marker in a text is determined: where family `i`
/// has one and none before it has, `i` is the marking family.
pub proof fn lemma_first_marking(registry: RegistryView, text: Seq<char>, i: int)
    requires
        registry.first_marking(text, i),
    ensures
        registry.marking_family(text) == Some(i),
{
    let chosen = choose|k: int| registry.first_marking(text, k);
    assert(registry.first_marking(text, chosen));
    assert(registry.profiles[i].marks(text));
    assert(registry.profiles[chosen].marks(text));
}

} // verus!
