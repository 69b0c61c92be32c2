use sailfish::error::Error;
use sailfish::params::{split_parameters, SinkModel};
use sailfish::setup::{
    possible_setups_info, Binary, Collision, EquationOfStateKind, Explosion, SetupName, Shocktube,
};

const NAMES: [&str; 5] = ["binary", "explosion", "shocktube", "collision", "sedov"];

fn binary_defaults() -> kind_config::Form {
    kind_config::Form::new()
        .item("domain_radius", 12.0, "half-size of the simulation domain (a)")
        .item("nu", 1e-3, "kinematic viscosity coefficient (Omega a^2)")
        .item("mach_number", 10.0, "mach number for locally isothermal EOS")
        .item("sink_radius", 0.05, "sink kernel radius (a)")
        .item("sink_model", "af", "sink prescription: [none|af|tf|ff]")
        .item("sink_rate", 10.0, "rate of mass subtraction in the sink (Omega)")
        .item("q", 1.0, "system mass ratio: [0-1]")
        .item("e", 0.0, "orbital eccentricity: [0-1]")
}

fn nu_of(binary: &Binary) -> f64 {
    binary.form.get("nu").into()
}

#[test]
fn setups_info_lists_every_setup() {
    let info = possible_setups_info();
    assert!(matches!(info, Error::PrintUserInformation(_)));
    assert_eq!(
        info.message(),
        "specify setup:\n    binary\n    explosion\n    shocktube\n    collision\n    sedov\n"
    );
}

#[test]
fn unknown_setup_name_lists_valid_names() {
    match SetupName::from_name("bogus") {
        Err(Error::PrintUserInformation(message)) => {
            for name in NAMES {
                assert!(message.contains(name));
            }
        }
        _ => panic!("bogus is not a setup"),
    }
}

#[test]
fn known_setup_names_are_found() {
    assert_eq!(SetupName::from_name("binary").unwrap(), SetupName::Binary);
    assert_eq!(SetupName::from_name("explosion").unwrap(), SetupName::Explosion);
    assert_eq!(SetupName::from_name("shocktube").unwrap(), SetupName::Shocktube);
    assert_eq!(SetupName::from_name("collision").unwrap(), SetupName::Collision);
    assert_eq!(SetupName::from_name("sedov").unwrap(), SetupName::Sedov);
    assert!(SetupName::from_name("Binary").is_err());
    assert!(SetupName::from_name("").is_err());
}

#[test]
fn setup_names_round_trip() {
    for name in NAMES {
        let setup = SetupName::from_name(name).unwrap();
        assert_eq!(setup.name(), name);
    }
}

#[test]
fn parameterless_setups_accept_empty_parameters() {
    assert!(Explosion::from_str("").is_ok());
    assert!(Shocktube::from_str("").is_ok());
    assert!(Collision::from_str("").is_ok());
}

#[test]
fn explosion_rejects_parameters() {
    match Explosion::from_str("x=1") {
        Err(Error::InvalidSetup(message)) => assert_eq!(
            message,
            "explosion problem does not take any parameters, got x=1"
        ),
        _ => panic!("parameters must be rejected"),
    }
}

#[test]
fn shocktube_and_collision_reject_parameters() {
    match Shocktube::from_str(":") {
        Err(e) => assert_eq!(
            e.message(),
            "shocktube problem does not take any parameters, got :"
        ),
        Ok(_) => panic!("parameters must be rejected"),
    }
    match Collision::from_str("a") {
        Err(e) => assert_eq!(
            e.message(),
            "collision problem does not take any parameters, got a"
        ),
        Ok(_) => panic!("parameters must be rejected"),
    }
}

#[test]
fn solver_names_and_equations_of_state() {
    let explosion = Explosion::from_str("").unwrap();
    assert_eq!(explosion.solver_name(), "iso2d");
    assert_eq!(explosion.solver_name(), explosion.solver_name());
    assert_eq!(explosion.equation_of_state(), EquationOfStateKind::Isothermal);
    let shocktube = Shocktube::from_str("").unwrap();
    assert_eq!(shocktube.solver_name(), "euler1d");
    assert_eq!(shocktube.equation_of_state(), EquationOfStateKind::GammaLaw);
    let collision = Collision::from_str("").unwrap();
    assert_eq!(collision.solver_name(), "euler1d");
    assert_eq!(collision.equation_of_state(), EquationOfStateKind::GammaLaw);
    assert_eq!(SetupName::Sedov.solver_name(), "euler1d");
    assert_eq!(SetupName::Sedov.equation_of_state(), EquationOfStateKind::GammaLaw);
    let binary = Binary::from_form(binary_defaults(), "").unwrap();
    assert_eq!(binary.solver_name(), "iso2d");
    assert_eq!(binary.equation_of_state(), EquationOfStateKind::LocallyIsothermal);
}

#[test]
fn parameter_strings_split_into_nonempty_tokens() {
    assert_eq!(split_parameters("nu=5e-4:q=0.5"), vec!["nu=5e-4", "q=0.5"]);
    assert_eq!(split_parameters("::a=1:::b=2:"), vec!["a=1", "b=2"]);
    assert!(split_parameters("").is_empty());
    assert!(split_parameters(":::").is_empty());
    assert_eq!(split_parameters("x"), vec!["x"]);
}

#[test]
fn sink_model_codes() {
    assert_eq!(SinkModel::from_code("none").unwrap(), SinkModel::Inactive);
    assert_eq!(SinkModel::from_code("af").unwrap(), SinkModel::AccelerationFree);
    assert_eq!(SinkModel::from_code("tf").unwrap(), SinkModel::TorqueFree);
    assert_eq!(SinkModel::from_code("ff").unwrap(), SinkModel::ForceFree);
    match SinkModel::from_code("xx") {
        Err(Error::InvalidSetup(message)) => assert_eq!(message, "invalid sink_model"),
        _ => panic!("xx is not a sink model"),
    }
}

#[test]
fn binary_defaults_are_kept() {
    let binary = Binary::from_form(binary_defaults(), "").unwrap();
    assert_eq!(nu_of(&binary), 1e-3);
    assert_eq!(binary.sink_model, SinkModel::AccelerationFree);
}

#[test]
fn binary_parameter_overrides_default() {
    let binary = Binary::from_form(binary_defaults(), "nu=5e-4").unwrap();
    assert_eq!(nu_of(&binary), 5e-4);
}

#[test]
fn binary_last_parameter_wins() {
    let binary = Binary::from_form(binary_defaults(), "nu=5e-4:nu=6e-4").unwrap();
    assert_eq!(nu_of(&binary), 6e-4);
    let binary = Binary::from_form(binary_defaults(), "sink_model=ff::sink_model=tf:").unwrap();
    assert_eq!(binary.sink_model, SinkModel::TorqueFree);
}

#[test]
fn binary_rejects_unknown_sink_model() {
    match Binary::from_form(binary_defaults(), "sink_model=xx") {
        Err(Error::InvalidSetup(message)) => assert_eq!(message, "invalid sink_model"),
        _ => panic!("xx is not a sink model"),
    }
}

#[test]
fn binary_rejects_unknown_or_malformed_parameters() {
    match Binary::from_form(binary_defaults(), "bogus=1") {
        Err(Error::InvalidSetup(message)) => {
            assert!(message.starts_with("config key '"));
            assert!(message.contains("bogus"));
        }
        _ => panic!("bogus is not a parameter"),
    }
    assert!(Binary::from_form(binary_defaults(), "nu=fast").is_err());
    assert!(Binary::from_form(binary_defaults(), "nu").is_err());
}

#[test]
fn binary_accepts_string_assignments() {
    let binary = Binary::from_form(binary_defaults(), "sink_model=none").unwrap();
    assert_eq!(binary.sink_model, SinkModel::Inactive);
    let binary = Binary::from_form(binary_defaults(), ":sink_model=ff:").unwrap();
    assert_eq!(binary.sink_model, SinkModel::ForceFree);
}

#[test]
fn binary_rejects_undeclared_key_among_valid_ones() {
    assert!(Binary::from_form(binary_defaults(), "sink_model=tf:mass=2").is_err());
    assert!(Binary::from_form(binary_defaults(), "a=b=c").is_err());
}

#[test]
fn sedov_shares_the_one_dimensional_solver() {
    assert_eq!(SetupName::Sedov.solver_name(), SetupName::Shocktube.solver_name());
}

#[test]
fn binary_accepts_float_and_string_parameters_together() {
    let binary = Binary::from_form(binary_defaults(), "q=0.5:sink_model=tf").unwrap();
    assert_eq!(binary.sink_model, SinkModel::TorqueFree);
    let q: f64 = binary.form.get("q").into();
    assert_eq!(q, 0.5);
}

#[test]
fn binary_ignores_empty_tokens() {
    for parameters in ["nu=5e-4::", ":nu=5e-4", "nu=5e-4"] {
        let binary = Binary::from_form(binary_defaults(), parameters).unwrap();
        assert_eq!(nu_of(&binary), 5e-4);
    }
}

#[test]
fn binary_rejects_value_of_the_wrong_kind() {
    match Binary::from_form(binary_defaults(), "nu=abc") {
        Err(Error::InvalidSetup(message)) => {
            assert!(message.starts_with("config key 'nu'"));
        }
        _ => panic!("abc is not a float"),
    }
    assert!(Binary::from_form(binary_defaults(), "nu=abc:nu=1e-4").is_ok());
}
