use std::collections::HashSet;

use tetra_entities::cc_bs::CcBsSubentity;
use tetra_entities::subscribers::{BrewSubscriberAction, MmSubscriberUpdate, TetraEntity};

fn update(cc: &mut CcBsSubentity, issi: u32, groups: Vec<u32>, action: BrewSubscriberAction, source: TetraEntity) -> (Vec<u32>, Vec<u16>) {
    let effects = cc.handle_subscriber_update(MmSubscriberUpdate { issi, groups, action }, source);
    (effects.departed_groups, effects.release_individual_calls)
}

fn sorted(mut v: Vec<u32>) -> Vec<u32> {
    v.sort();
    v
}

#[test]
fn listener_count_follows_affiliated_subscribers() {
    let mut cc = CcBsSubentity::new();
    update(&mut cc, 1, vec![10, 20, 10], BrewSubscriberAction::Affiliate, TetraEntity::Mm);
    update(&mut cc, 2, vec![10], BrewSubscriberAction::Affiliate, TetraEntity::Mm);
    assert_eq!(cc.group_listeners.get(&10), Some(&2));
    assert_eq!(cc.group_listeners.get(&20), Some(&1));
    // A repeated affiliation counts nothing twice.
    update(&mut cc, 2, vec![10], BrewSubscriberAction::Affiliate, TetraEntity::Mm);
    assert_eq!(cc.group_listeners.get(&10), Some(&2));

    let (departed, _) = update(&mut cc, 1, vec![10, 30], BrewSubscriberAction::Deaffiliate, TetraEntity::Mm);
    assert_eq!(departed, vec![10]);
    assert_eq!(cc.group_listeners.get(&10), Some(&1));
    assert_eq!(sorted(cc.subscriber_groups_for(1)), vec![20]);

    let (departed, _) = update(&mut cc, 2, vec![], BrewSubscriberAction::Deregister, TetraEntity::Mm);
    assert_eq!(departed, vec![10]);
    assert_eq!(cc.group_listeners.get(&10), None);
    assert!(cc.subscriber_groups_for(2).is_empty());
}

#[test]
fn local_deaffiliation_keeps_subscriber_and_unknown_one_departs_named_groups() {
    let mut cc = CcBsSubentity::new();
    update(&mut cc, 1, vec![10], BrewSubscriberAction::Affiliate, TetraEntity::Mm);
    update(&mut cc, 1, vec![10], BrewSubscriberAction::Deaffiliate, TetraEntity::Mm);
    assert!(cc.subscriber_groups.contains_key(&1));
    assert_eq!(cc.subscriber_issis(), vec![1]);

    let (departed, _) = update(&mut cc, 9, vec![40, 40], BrewSubscriberAction::Deaffiliate, TetraEntity::Mm);
    assert_eq!(departed, vec![40, 40]);
    assert!(cc.group_listeners.is_empty());
}

#[test]
fn bridge_deaffiliation_forgets_subscriber_without_groups() {
    let mut cc = CcBsSubentity::new();
    update(&mut cc, 5, vec![10], BrewSubscriberAction::Affiliate, TetraEntity::Brew);
    assert_eq!(cc.external_group_listeners.get(&10), Some(&1));
    assert!(cc.group_listeners.is_empty());
    let (departed, _) = update(&mut cc, 5, vec![10], BrewSubscriberAction::Deaffiliate, TetraEntity::Brew);
    assert_eq!(departed, vec![10]);
    assert!(!cc.external_subscriber_groups.contains_key(&5));
    assert!(cc.external_group_listeners.is_empty());
    let (departed, _) = update(&mut cc, 6, vec![10], BrewSubscriberAction::Deaffiliate, TetraEntity::Brew);
    assert!(departed.is_empty());
}

#[test]
fn registration_adds_subscriber_without_groups() {
    let mut cc = CcBsSubentity::new();
    update(&mut cc, 3, vec![10], BrewSubscriberAction::Register, TetraEntity::Mm);
    assert!(cc.subscriber_groups.contains_key(&3));
    assert!(cc.subscriber_groups_for(3).is_empty());
    assert!(cc.group_listeners.is_empty());
}

#[test]
fn kick_of_unknown_station_changes_nothing() {
    let mut cc = CcBsSubentity::new();
    assert_eq!(cc.kick_ms(77), None);
    update(&mut cc, 77, vec![10, 11], BrewSubscriberAction::Affiliate, TetraEntity::Mm);
    assert_eq!(cc.kick_ms(77), Some(vec![]));
    assert!(cc.group_listeners.is_empty());
    assert!(cc.subscriber_groups.is_empty());
}

#[test]
fn deregistration_departs_all_groups_once() {
    let mut cc = CcBsSubentity::new();
    update(&mut cc, 4, vec![10, 11, 12], BrewSubscriberAction::Affiliate, TetraEntity::Mm);
    let (departed, released) = update(&mut cc, 4, vec![], BrewSubscriberAction::Deregister, TetraEntity::Mm);
    let departed: HashSet<u32> = departed.into_iter().collect();
    assert_eq!(departed, HashSet::from([10, 11, 12]));
    assert!(released.is_empty());
    assert!(cc.group_listeners.is_empty());
}
