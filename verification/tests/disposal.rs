use must_destroy::disposal::{Discharge, Phase, VIOLATION_MESSAGE};

#[test]
fn a_live_guard_may_not_be_disposed_of() {
    assert!(Phase::Live.disposal_is_violation());
}

#[test]
fn a_discharged_guard_may_be_disposed_of() {
    assert!(!Phase::Finalized.disposal_is_violation());
    assert!(!Phase::Extracted.disposal_is_violation());
}

#[test]
fn finalize_discharges_a_live_guard() {
    assert_eq!(Phase::Live.discharge(Discharge::Finalize), Some(Phase::Finalized));
}

#[test]
fn extract_discharges_a_live_guard() {
    assert_eq!(Phase::Live.discharge(Discharge::Extract), Some(Phase::Extracted));
}

#[test]
fn a_discharged_guard_cannot_be_discharged_again() {
    assert_eq!(Phase::Finalized.discharge(Discharge::Finalize), None);
    assert_eq!(Phase::Finalized.discharge(Discharge::Extract), None);
    assert_eq!(Phase::Extracted.discharge(Discharge::Finalize), None);
    assert_eq!(Phase::Extracted.discharge(Discharge::Extract), None);
}

#[test]
fn no_discharge_leads_back_to_live() {
    for phase in [Phase::Live, Phase::Finalized, Phase::Extracted] {
        for by in [Discharge::Finalize, Discharge::Extract] {
            assert_ne!(phase.discharge(by), Some(Phase::Live));
        }
    }
}

#[test]
fn after_a_discharge_disposal_is_no_violation() {
    for by in [Discharge::Finalize, Discharge::Extract] {
        let next = Phase::Live.discharge(by);
        assert!(matches!(next, Some(phase) if !phase.disposal_is_violation()));
    }
}

#[test]
fn the_violation_is_reported_in_these_words() {
    assert_eq!(VIOLATION_MESSAGE, "Can not drop, must call destroy.");
}
