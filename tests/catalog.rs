use oldies::catalog::Simulator;
use oldies::{
    parse_genesis_script, parse_hoc_file, parse_nmodl, FoldNormalForm, HopfNormalForm,
    OldiesError, PitchforkNormalForm, SbmlVersion,
};

#[test]
fn every_simulator_in_menu_order() {
    let all = Simulator::all();
    assert_eq!(all.len(), 7);
    assert_eq!(all[0], Simulator::Genesis);
    assert_eq!(all[6], Simulator::Copasi);
    assert_eq!(Simulator::default(), Simulator::Genesis);
}

#[test]
fn simulator_labels() {
    assert_eq!(Simulator::Neuron.name(), "NEURON");
    assert_eq!(Simulator::Auto.description(), "AUTO Continuation & Bifurcation");
    assert_eq!(Simulator::Genesis.icon(), "🧠");
    assert_eq!(Simulator::Nest.era(), "2004");
    assert_eq!(Simulator::Copasi.file_extensions(), vec!["cps", "sbml", "xml"]);
    assert_eq!(Simulator::Brian.file_extensions(), vec!["py", "brian"]);
}

#[test]
fn sbml_defaults_to_level_three_version_two() {
    let v = SbmlVersion::default();
    assert_eq!((v.level, v.version), (3, 2));
}

#[test]
fn normal_form_dimensions() {
    assert_eq!(FoldNormalForm.dim(), 1);
    assert_eq!(HopfNormalForm.dim(), 2);
    assert_eq!(PitchforkNormalForm.dim(), 1);
}

#[test]
fn legacy_importers_refuse_with_a_parse_error() {
    assert!(matches!(parse_genesis_script("create compartment /soma"), Err(OldiesError::ParseError(_))));
    assert!(matches!(parse_hoc_file("create soma"), Err(OldiesError::ParseError(_))));
    assert!(matches!(parse_nmodl("NEURON { SUFFIX hh }"), Err(OldiesError::ParseError(_))));
}
