use script_provenance::program::normalize;
use script_provenance::registry::CompilerProfile;
use script_provenance::registry::Registry;
use script_provenance::tables::AIKEN_MARKERS;
use script_provenance::tables::HELIOS_MARKERS;
use script_provenance::tables::OPSHIN_MARKERS;
use script_provenance::tables::PLUTARCH_HASHES;
use script_provenance::tables::PLUTARCH_MARKERS;
use script_provenance::tables::PLUTUS_TX_HASHES;
use script_provenance::tables::PLUTUS_TX_MARKERS;
use script_provenance::tables::PLU_TS_HASHES;
use script_provenance::tables::RESERVED_HASH;
use script_provenance::tables::RESERVED_LABEL;

const UNLISTED: &str = "00000000000000000000000000000000000000000000000000000000";

fn profile(name: &str, hashes: &[&str], markers: &[&str]) -> CompilerProfile {
    CompilerProfile {
        name: name.to_string(),
        exact_hashes: hashes.iter().map(|s| s.to_string()).collect(),
        markers: markers.iter().map(|s| s.to_string()).collect(),
    }
}

fn small_registry() -> Registry {
    Registry::new(
        "R".to_string(),
        "reserved".to_string(),
        vec![
            profile("first", &["h1", "both"], &["mark-one", "shared"]),
            profile("second", &["h2", "both"], &["mark-two", "shared"]),
            profile("third", &[], &["mark-three"]),
        ],
    )
}

fn label_of(registry: &Registry, hash: &str, pretty: &str) -> Option<String> {
    registry.classify(hash, &normalize(pretty))
}

#[test]
fn a_listed_hash_gives_its_family_whatever_the_text() {
    let registry = small_registry();
    assert_eq!(label_of(&registry, "h1", ""), Some("first".to_string()));
    assert_eq!(label_of(&registry, "h2", ""), Some("second".to_string()));
    assert_eq!(label_of(&registry, "h2", "mark-one"), Some("second".to_string()));
    assert_eq!(label_of(&registry, "h2", "mark-three mark-one"), Some("second".to_string()));
    assert_eq!(label_of(&registry, "h1", "mark-two"), Some("first".to_string()));
}

#[test]
fn a_hash_listed_twice_goes_to_the_first_family() {
    let registry = small_registry();
    assert_eq!(label_of(&registry, "both", "mark-two"), Some("first".to_string()));
}

#[test]
fn the_reserved_hash_overrides_every_rule() {
    let registry = small_registry();
    assert_eq!(label_of(&registry, "R", ""), Some("reserved".to_string()));
    assert_eq!(label_of(&registry, "R", "mark-one mark-two"), Some("reserved".to_string()));
    let listed_too = Registry::new(
        "R".to_string(),
        "reserved".to_string(),
        vec![profile("first", &["R"], &["mark-one"])],
    );
    assert_eq!(label_of(&listed_too, "R", "mark-one"), Some("reserved".to_string()));
    assert!(!listed_too.reserved_is_exclusive());
    assert!(registry.reserved_is_exclusive());
}

#[test]
fn no_rule_gives_no_label() {
    let registry = small_registry();
    assert_eq!(label_of(&registry, "h3", "nothing of note"), None);
    assert_eq!(label_of(&registry, "", ""), None);
    assert_eq!(label_of(&registry, "H1", "MARK-ONE"), None);
    let bare = Registry::new("R".to_string(), "reserved".to_string(), Vec::new());
    assert_eq!(label_of(&bare, "h1", "mark-one"), None);
    assert_eq!(label_of(&bare, "R", "mark-one"), Some("reserved".to_string()));
}

#[test]
fn markers_are_tried_in_family_order() {
    let registry = small_registry();
    assert_eq!(label_of(&registry, "x", "mark-three"), Some("third".to_string()));
    assert_eq!(label_of(&registry, "x", "mark-three mark-two"), Some("second".to_string()));
    assert_eq!(
        label_of(&registry, "x", "mark-three mark-two mark-one"),
        Some("first".to_string())
    );
    assert_eq!(label_of(&registry, "x", "shared"), Some("first".to_string()));
}

#[test]
fn a_hash_is_compared_whole() {
    let registry = small_registry();
    assert_eq!(label_of(&registry, "h", ""), None);
    assert_eq!(label_of(&registry, "h11", ""), None);
    assert_eq!(label_of(&registry, " h1", ""), None);
}

#[test]
fn a_marker_is_matched_against_the_flattened_text() {
    let registry = small_registry();
    assert_eq!(label_of(&registry, "x", "mark\n  -two"), Some("second".to_string()));
    assert_eq!(label_of(&registry, "x", "m a r k - o n e"), Some("first".to_string()));
}

#[test]
fn the_lookups_tell_the_first_family() {
    let registry = small_registry();
    assert_eq!(registry.listing_family(&"h1".to_string()), Some(0));
    assert_eq!(registry.listing_family(&"h2".to_string()), Some(1));
    assert_eq!(registry.listing_family(&"both".to_string()), Some(0));
    assert_eq!(registry.listing_family(&"none".to_string()), None);
    let text: Vec<char> = "xxmark-threexxmark-twoxx".chars().collect();
    assert_eq!(registry.marking_family(&text), Some(1));
    let text: Vec<char> = "xx".chars().collect();
    assert_eq!(registry.marking_family(&text), None);
}

#[test]
fn a_profile_lists_its_own_hashes() {
    let family = profile("f", &["a", "b"], &[]);
    assert!(family.lists(&"a".to_string()));
    assert!(family.lists(&"b".to_string()));
    assert!(!family.lists(&"c".to_string()));
    assert!(!family.lists(&"".to_string()));
}

#[test]
fn a_registry_hands_back_what_it_was_built_from() {
    let registry = small_registry();
    assert_eq!(registry.reserved_hash(), "R");
    assert_eq!(registry.reserved_label(), "reserved");
    assert_eq!(registry.profiles().len(), 3);
    assert_eq!(registry.profiles()[1].name, "second");
    assert_eq!(registry.profiles()[1].exact_hashes, vec!["h2", "both"]);
    assert_eq!(registry.profiles()[2].markers, vec!["mark-three"]);
}

#[test]
fn the_standard_table_holds_the_six_families_in_order() {
    let registry = Registry::standard();
    let names: Vec<&str> = registry.profiles().iter().map(|p| p.name.as_str()).collect();
    assert_eq!(names, vec!["plutus-tx", "aiken", "helios", "opshin", "plutarch", "plu-ts"]);
    assert_eq!(registry.reserved_hash(), RESERVED_HASH);
    assert_eq!(registry.reserved_label(), RESERVED_LABEL);
    assert_eq!(RESERVED_HASH, "6027a8010c555a4dd6b08882b899f4b3167c6e4524047132202dd984");
    assert_eq!(RESERVED_LABEL, "marlowe");
}

#[test]
fn the_standard_table_holds_the_tables() {
    let registry = Registry::standard();
    let profiles = registry.profiles();
    assert_eq!(profiles[0].exact_hashes, PLUTUS_TX_HASHES.to_vec());
    assert_eq!(profiles[0].markers, PLUTUS_TX_MARKERS.to_vec());
    assert!(profiles[1].exact_hashes.is_empty());
    assert_eq!(profiles[1].markers, AIKEN_MARKERS.to_vec());
    assert!(profiles[2].exact_hashes.is_empty());
    assert_eq!(profiles[2].markers, HELIOS_MARKERS.to_vec());
    assert!(profiles[3].exact_hashes.is_empty());
    assert_eq!(profiles[3].markers, OPSHIN_MARKERS.to_vec());
    assert_eq!(profiles[4].exact_hashes, PLUTARCH_HASHES.to_vec());
    assert_eq!(profiles[4].markers, PLUTARCH_MARKERS.to_vec());
    assert_eq!(profiles[5].exact_hashes, PLU_TS_HASHES.to_vec());
    assert!(profiles[5].markers.is_empty());
    assert_eq!(PLUTUS_TX_HASHES.len(), 24);
    assert_eq!(PLUTUS_TX_MARKERS.len(), 57);
    assert_eq!(AIKEN_MARKERS.len(), 8);
    assert_eq!(HELIOS_MARKERS.len(), 2);
    assert_eq!(OPSHIN_MARKERS.len(), 3);
    assert_eq!(PLUTARCH_HASHES.len(), 146);
    assert_eq!(PLUTARCH_MARKERS.len(), 20);
    assert_eq!(PLU_TS_HASHES.len(), 6);
}

#[test]
fn the_standard_table_keeps_the_reserved_hash_to_itself() {
    let registry = Registry::standard();
    assert!(registry.reserved_is_exclusive());
    for family in registry.profiles() {
        assert!(!family.exact_hashes.iter().any(|h| h == RESERVED_HASH));
    }
}

#[test]
fn the_standard_hash_lists_do_not_overlap() {
    let registry = Registry::standard();
    let profiles = registry.profiles();
    for (i, family) in profiles.iter().enumerate() {
        for hash in &family.exact_hashes {
            assert_eq!(hash.chars().count(), 56);
            assert_eq!(registry.listing_family(hash), Some(i));
        }
    }
}

#[test]
fn every_standard_hash_gives_its_family() {
    let registry = Registry::standard();
    let text = "(constring\"L0\")ExpectednoitemsforListvalidationreturnedfalsePlutarch";
    for hash in PLUTUS_TX_HASHES {
        assert_eq!(label_of(&registry, hash, text), Some("plutus-tx".to_string()));
    }
    for hash in PLUTARCH_HASHES {
        assert_eq!(label_of(&registry, hash, text), Some("plutarch".to_string()));
    }
    for hash in PLU_TS_HASHES {
        assert_eq!(label_of(&registry, hash, text), Some("plu-ts".to_string()));
    }
}

#[test]
fn a_plutus_tx_hash_beats_an_aiken_marker() {
    let registry = Registry::standard();
    let hash = "15b95fdaceeb507073a1bd198803373beeafbd82560fbf8abe9073ff";
    let pretty = "(program\n  1.0.0\n  (con string \"Expected no items for List\")\n)";
    assert_eq!(label_of(&registry, UNLISTED, pretty), Some("aiken".to_string()));
    assert_eq!(label_of(&registry, hash, pretty), Some("plutus-tx".to_string()));
}

#[test]
fn the_reserved_hash_beats_opshin_markers() {
    let registry = Registry::standard();
    let pretty = "(program\n  1.0.0\n  [ (con string \"KeyError\") (con string \"NameError: x\") ]\n)";
    assert_eq!(label_of(&registry, UNLISTED, pretty), Some("opshin".to_string()));
    assert_eq!(label_of(&registry, RESERVED_HASH, pretty), Some("marlowe".to_string()));
}

#[test]
fn a_plutarch_hash_beats_a_plutus_tx_marker() {
    let registry = Registry::standard();
    let hash = "02652a93b8327ba64b6c0bb8dfb11a76cbb333a3fbb4243ddc0859ac";
    let pretty = "(con string \"PT5\")";
    assert_eq!(label_of(&registry, UNLISTED, pretty), Some("plutus-tx".to_string()));
    assert_eq!(label_of(&registry, hash, pretty), Some("plutarch".to_string()));
}

#[test]
fn a_plu_ts_hash_is_known_by_its_hash_alone() {
    let registry = Registry::standard();
    let hash = "4ab17afc9a19a4f06b6fe229f9501e727d3968bff03acb1a8f86acf5";
    assert_eq!(label_of(&registry, hash, "(error)"), Some("plu-ts".to_string()));
    assert_eq!(label_of(&registry, UNLISTED, "(error)"), None);
}

#[test]
fn standard_markers_are_tried_in_family_order() {
    let registry = Registry::standard();
    let plutus_tx = "(con string \"S3\")";
    let aiken = "(con string \"Constr index didn't match a type variant\")";
    let helios = "(con string \"validation returned false\")";
    let opshin = "(con string \"ValueError: datum integrity check failed\")";
    let plutarch = "(con string \"Pattern match failure in foo\")";
    let all = [plutus_tx, aiken, helios, opshin, plutarch];
    let names = ["plutus-tx", "aiken", "helios", "opshin", "plutarch"];
    for first in 0..all.len() {
        let mut pretty = String::new();
        for text in all[first..].iter().rev() {
            pretty.push_str(text);
            pretty.push('\n');
        }
        assert_eq!(label_of(&registry, UNLISTED, &pretty), Some(names[first].to_string()));
    }
}

#[test]
fn every_standard_marker_without_layout_gives_a_label() {
    let registry = Registry::standard();
    for family in registry.profiles() {
        for marker in &family.markers {
            let found = label_of(&registry, UNLISTED, marker);
            if marker.contains(' ') || marker.contains('\n') {
                assert_ne!(found, Some(family.name.clone()));
            } else {
                assert!(found.is_some());
            }
        }
    }
}

#[test]
fn a_marker_with_a_space_in_it_never_matches() {
    let registry = Registry::standard();
    assert!(PLUTARCH_MARKERS.contains(&"constring\"unsorted map"));
    assert_eq!(label_of(&registry, UNLISTED, "(con string \"unsorted map\")"), None);
}

#[test]
fn a_text_without_markers_is_unknown() {
    let registry = Registry::standard();
    let pretty = "(program\n  1.0.0\n  (lam i_0 i_1)\n)";
    assert_eq!(label_of(&registry, UNLISTED, pretty), None);
    assert_eq!(label_of(&registry, "", ""), None);
}
