use focus_shell::overlay::{
    ensure_overlay_step, find_config_index, provision_outcome, OverlayError, ProvisionDecision,
};

fn labels(names: &[&str]) -> Vec<String> {
    names.iter().map(|n| n.to_string()).collect()
}

#[test]
fn find_config_index_finds_the_label() {
    let table = labels(&["main", "overlay"]);
    assert_eq!(find_config_index(&table, "overlay"), Some(1));
    assert_eq!(find_config_index(&table, "main"), Some(0));
}

#[test]
fn find_config_index_reports_absence() {
    let table = labels(&["main", "settings"]);
    assert_eq!(find_config_index(&table, "overlay"), None);
    assert_eq!(find_config_index(&labels(&[]), "overlay"), None);
}

#[test]
fn find_config_index_takes_the_first_match() {
    let table = labels(&["overlay", "main", "overlay"]);
    assert_eq!(find_config_index(&table, "overlay"), Some(0));
}

#[test]
fn existing_overlay_is_a_noop_success() {
    let table = labels(&["main", "overlay"]);
    let d = ensure_overlay_step(true, &table);
    assert_eq!(d, ProvisionDecision::AlreadyExists);
    assert_eq!(provision_outcome(d, false), Ok(()));
}

#[test]
fn absent_overlay_with_config_builds_from_its_entry() {
    let table = labels(&["main", "overlay"]);
    let d = ensure_overlay_step(false, &table);
    assert_eq!(d, ProvisionDecision::Build { config_index: 1 });
}

#[test]
fn missing_config_is_an_error_and_builds_nothing() {
    let table = labels(&["main"]);
    let d = ensure_overlay_step(false, &table);
    assert_eq!(d, ProvisionDecision::MissingConfig);
    assert_eq!(provision_outcome(d, true), Err(OverlayError::MissingConfig));
}

#[test]
fn second_call_after_a_successful_build_is_a_noop() {
    let table = labels(&["main", "overlay"]);

    let first = ensure_overlay_step(false, &table);
    assert_eq!(first, ProvisionDecision::Build { config_index: 1 });
    let build_ok = true;
    assert_eq!(provision_outcome(first, build_ok), Ok(()));

    // The successful build realized the window, so the registry now has it.
    let overlay_exists = build_ok;
    let second = ensure_overlay_step(overlay_exists, &table);
    assert_eq!(second, ProvisionDecision::AlreadyExists);
    assert_eq!(provision_outcome(second, false), Ok(()));
}

#[test]
fn rejected_construction_surfaces_as_an_error() {
    let table = labels(&["overlay"]);
    let d = ensure_overlay_step(false, &table);
    assert_eq!(d, ProvisionDecision::Build { config_index: 0 });
    assert_eq!(provision_outcome(d, false), Err(OverlayError::Construction));
}
